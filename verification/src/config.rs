//! How the client introduces itself, and how its network stack is set up.
use vstd::prelude::*;

verus! {

/// The name under which a client of the given version introduces itself.
pub open spec fn agent_name(version: Seq<char>) -> Seq<char> {
    "punchr/rust-client/"@ + version
}

/// The name under which a client of the given version introduces itself.
pub fn agent_version(version: &str) -> (name: String)
    ensures
        name@ == agent_name(version@),
{
    "punchr/rust-client/".to_owned().concat(version)
}

/// What a look at the environment found of the API key.
pub enum ApiKeyLookup {
    /// It is set.
    Present(String),
    /// It is not set.
    NotPresent,
    /// It is set, to something that is no Unicode text.
    NotUnicode,
}

/// The API key to send: the one that was found, the empty one where none is set, and none at all
/// where the one that is set cannot be sent.
pub fn api_key(lookup: ApiKeyLookup) -> (key: Option<String>)
    ensures
        match lookup {
            ApiKeyLookup::Present(found) => key == Some(found),
            ApiKeyLookup::NotPresent => key is Some && key->0@.len() == 0,
            ApiKeyLookup::NotUnicode => key is None,
        },
{
    match lookup {
        ApiKeyLookup::Present(found) => Some(found),
        ApiKeyLookup::NotPresent => Some(String::new()),
        ApiKeyLookup::NotUnicode => None,
    }
}

/// How the network stack of the client is set up.
pub struct SwarmSettings {
    /// The protocol version that is announced to peers.
    pub identify_protocol_version: String,
    /// The name under which the client introduces itself to peers.
    pub agent_version: String,
    /// How many addresses of a peer are dialed at the same time.
    pub dial_concurrency_factor: u8,
    /// The IPv4 address to listen on: all interfaces.
    pub listen_ip: [u8; 4],
    /// The TCP port to listen on: any that is free.
    pub listen_port: u16,
    /// How many seconds to wait until the client listens on all interfaces.
    pub listen_wait_secs: u64,
}

/// The settings for a client of the given version.
pub fn swarm_settings(version: &str) -> (settings: SwarmSettings)
    ensures
        settings.identify_protocol_version@ == "/ipfs/0.1.0"@,
        settings.agent_version@ == agent_name(version@),
        settings.dial_concurrency_factor == 10,
        settings.listen_ip@ == seq![0u8, 0u8, 0u8, 0u8],
        settings.listen_port == 0,
        settings.listen_wait_secs == 1,
{
    let settings = SwarmSettings {
        identify_protocol_version: "/ipfs/0.1.0".to_owned(),
        agent_version: agent_version(version),
        dial_concurrency_factor: 10,
        listen_ip: [0u8, 0u8, 0u8, 0u8],
        listen_port: 0,
        listen_wait_secs: 1,
    };
    assert(settings.listen_ip@ =~= seq![0u8, 0u8, 0u8, 0u8]);
    settings
}

/// What happens while the client waits to listen on all interfaces.
#[derive(Clone, Copy, Debug, PartialEq, Eq, Structural)]
pub enum SetupEvent {
    /// The client listens on one more address.
    NewListenAddr,
    /// The wait is over.
    DelayElapsed,
    /// Anything else. It cannot happen before the first dial.
    Other,
}

/// Whether the network stack is ready: it is, likely, once the wait is over.
pub fn setup_is_over(event: SetupEvent) -> (over: bool)
    requires
        event != SetupEvent::Other,
    ensures
        over == (event == SetupEvent::DelayElapsed),
{
    event == SetupEvent::DelayElapsed
}

/// The name of a client ends in its version, and begins in the same way for all of them.
pub proof fn law_name_ends_in_the_version(version: Seq<char>, other: Seq<char>)
    ensures
        agent_name(version).len() == 19 + version.len(),
        agent_name(version).take(19) == "punchr/rust-client/"@,
        agent_name(version).skip(19) == version,
        agent_name(version) == agent_name(other) ==> version == other,
{
    reveal_strlit("punchr/rust-client/");
    assert(agent_name(version).take(19) =~= "punchr/rust-client/"@);
    assert(agent_name(version).skip(19) =~= version);
    assert(agent_name(other).skip(19) =~= other);
}

} // verus!
