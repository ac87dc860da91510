use lessons::game::{compare_guess, parse_guess, Game, Outcome};

#[test]
fn parse_plain_digits() {
    assert_eq!(parse_guess(b"30"), Some(30));
    assert_eq!(parse_guess(b"50"), Some(50));
    assert_eq!(parse_guess(b"007"), Some(7));
    assert_eq!(parse_guess(b"0"), Some(0));
}

#[test]
fn parse_trims_surrounding_whitespace() {
    assert_eq!(parse_guess(b" 42 \n"), Some(42));
    assert_eq!(parse_guess(b"\t99\r\n"), Some(99));
}

#[test]
fn parse_rejects_empty_and_blank_lines() {
    assert_eq!(parse_guess(b""), None);
    assert_eq!(parse_guess(b"\n"), None);
    assert_eq!(parse_guess(b"   "), None);
}

#[test]
fn parse_rejects_non_numeric_text() {
    assert_eq!(parse_guess(b"abc"), None);
    assert_eq!(parse_guess(b"12a"), None);
    assert_eq!(parse_guess(b"-5"), None);
    assert_eq!(parse_guess(b"4 2"), None);
}

#[test]
fn parse_rejects_values_out_of_range() {
    assert_eq!(parse_guess(b"4294967295"), Some(u32::MAX));
    assert_eq!(parse_guess(b"4294967296"), None);
    assert_eq!(parse_guess(b"99999999999999999999"), None);
}

#[test]
fn comparison_maps_each_relation_to_its_verdict() {
    assert_eq!(compare_guess(30, 50), Outcome::TooSmall);
    assert_eq!(compare_guess(70, 50), Outcome::TooBig);
    assert_eq!(compare_guess(50, 50), Outcome::Win);
}

#[test]
fn game_round_trip_with_fixed_target() {
    let mut g = Game::with_target(50);
    assert_eq!(g.target(), 50);
    assert!(!g.is_won());

    assert_eq!(g.guess(b"30\n"), Outcome::TooSmall);
    assert!(!g.is_won());

    assert_eq!(g.guess(b"70\n"), Outcome::TooBig);
    assert!(!g.is_won());

    assert_eq!(g.guess(b"abc\n"), Outcome::Invalid);
    assert_eq!(g.target(), 50);
    assert!(!g.is_won());

    assert_eq!(g.guess(b"\n"), Outcome::Invalid);
    assert_eq!(g.target(), 50);
    assert!(!g.is_won());

    assert_eq!(g.guess(b"50\n"), Outcome::Win);
    assert!(g.is_won());
    assert_eq!(g.target(), 50);
}

#[test]
fn random_target_stays_in_range() {
    for _ in 0..500 {
        let g = Game::new();
        let t = g.target();
        assert!((1..=100).contains(&t));
        assert!(!g.is_won());
    }
}
