use punchr::config::{
    agent_version, api_key, setup_is_over, swarm_settings, ApiKeyLookup, SetupEvent,
};

#[test]
fn agent_version_carries_the_version() {
    assert_eq!(agent_version("0.1.0"), "punchr/rust-client/0.1.0");
    assert_eq!(agent_version(""), "punchr/rust-client/");
}

#[test]
fn api_key_defaults_to_the_empty_one() {
    assert_eq!(api_key(ApiKeyLookup::Present("secret".to_string())), Some("secret".to_string()));
    assert_eq!(api_key(ApiKeyLookup::NotPresent), Some(String::new()));
    assert_eq!(api_key(ApiKeyLookup::NotUnicode), None);
}

#[test]
fn settings_of_the_network_stack() {
    let settings = swarm_settings("1.2.3");
    assert_eq!(settings.identify_protocol_version, "/ipfs/0.1.0");
    assert_eq!(settings.agent_version, "punchr/rust-client/1.2.3");
    assert_eq!(settings.dial_concurrency_factor, 10);
    assert_eq!(settings.listen_ip, [0, 0, 0, 0]);
    assert_eq!(settings.listen_port, 0);
    assert_eq!(settings.listen_wait_secs, 1);
}

#[test]
fn setup_is_over_when_the_wait_is() {
    assert!(!setup_is_over(SetupEvent::NewListenAddr));
    assert!(setup_is_over(SetupEvent::DelayElapsed));
}
