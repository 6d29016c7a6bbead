use punchr::rounds::Rounds;

#[test]
fn given_number_of_rounds_begins() {
    for number in 0..5usize {
        let mut rounds = Rounds::new(Some(number));
        for _ in 0..number {
            assert!(rounds.is_countable());
            assert!(rounds.next());
        }
        assert!(!rounds.next());
    }
}

#[test]
fn endless_rounds_go_on() {
    let mut rounds = Rounds::new(None);
    for _ in 0..1000 {
        assert!(rounds.is_countable());
        assert!(rounds.next());
    }
    assert_eq!(rounds.iterations, None);
}

#[test]
fn counter_that_is_full_is_told() {
    let mut rounds = Rounds { iterations: Some((usize::MAX - 1, usize::MAX)) };
    assert!(rounds.is_countable());
    assert!(rounds.next());
    assert!(!rounds.is_countable());
}
