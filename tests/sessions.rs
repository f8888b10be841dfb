use guess_game::{company, start_game, submit_guess, CompanyRecord, GuessError, GuessSession, SessionStatus};

const B: u64 = 1_000_000_000;

fn record() -> CompanyRecord {
    CompanyRecord {
        name: "Acme".to_string(),
        rank: 42,
        market_value: 45 * B,
        industry: "Retail".to_string(),
        description: "Sells everything.".to_string(),
    }
}

#[test]
fn new_session_is_in_progress() {
    let s = GuessSession::new(record());
    assert_eq!(s.status(), SessionStatus::InProgress);
    assert_eq!(s.rounds_played(), 0);
    assert!(s.history().is_empty());
    assert_eq!(s.outcome(), None);
    assert_eq!(s.record().rank, 42);
}

#[test]
fn out_of_sequence_round_is_refused() {
    let mut s = GuessSession::new(record());
    assert_eq!(s.submit(2, 10 * B), Err(GuessError::OutOfSequenceRound));
    assert_eq!(s.submit(0, 10 * B), Err(GuessError::OutOfSequenceRound));
    assert_eq!(s.rounds_played(), 0);
    assert!(s.submit(1, 10 * B).is_ok());
    assert_eq!(s.submit(1, 20 * B), Err(GuessError::OutOfSequenceRound));
    assert_eq!(s.submit(3, 20 * B), Err(GuessError::OutOfSequenceRound));
    assert_eq!(s.history(), &vec![10 * B]);
}

#[test]
fn won_session_refuses_further_guesses() {
    let mut s = GuessSession::new(record());
    let reply = s.submit(1, 45 * B + 300_000_000).unwrap();
    assert_eq!(reply, "Correct! The company ranks #42 in the industry Retail. Sells everything.");
    assert_eq!(s.status(), SessionStatus::Won);
    assert_eq!(s.outcome(), Some(true));
    assert_eq!(s.submit(2, 45 * B), Err(GuessError::SessionAlreadyTerminal));
    assert_eq!(s.submit(1, 45 * B), Err(GuessError::SessionAlreadyTerminal));
    assert_eq!(s.rounds_played(), 1);
}

#[test]
fn exact_match_wins_in_round_three() {
    let mut s = GuessSession::new(record());
    s.submit(1, 10 * B).unwrap();
    s.submit(2, 20 * B).unwrap();
    assert!(s.submit(3, 44 * B + 600_000_000).unwrap().starts_with("Correct!"));
    assert_eq!(s.status(), SessionStatus::Won);
}

#[test]
fn rounds_give_feedback_and_hints_in_order() {
    let mut s = GuessSession::new(record());
    assert_eq!(
        s.submit(1, 100 * B).unwrap(),
        "Cold! Your guess is more than a factor of two away. Hint: the company's industry is Retail."
    );
    assert_eq!(
        s.submit(2, 60 * B).unwrap(),
        "Warmer! You are closer than with your last guess. Hint: Sells everything."
    );
    assert_eq!(
        s.submit(3, 30 * B).unwrap(),
        "Cooler! You are no closer than with your last guess. Hint: the company is ranked #42."
    );
    assert_eq!(s.status(), SessionStatus::InProgress);
    assert_eq!(s.rounds_played(), 3);
}

#[test]
fn hints_do_not_depend_on_guesses() {
    let mut a = GuessSession::new(record());
    let mut b = GuessSession::new(record());
    let ra = a.submit(1, 30 * B).unwrap();
    let rb = b.submit(1, 900 * B).unwrap();
    assert!(ra.starts_with("Warm!"));
    assert!(rb.starts_with("Cold!"));
    assert!(ra.ends_with(" Hint: the company's industry is Retail."));
    assert!(rb.ends_with(" Hint: the company's industry is Retail."));
}

#[test]
fn tie_after_first_round_is_cooler() {
    let mut s = GuessSession::new(record());
    s.submit(1, 40 * B).unwrap();
    assert!(s.submit(2, 50 * B).unwrap().starts_with("Cooler!"));
}

#[test]
fn round_four_reveals() {
    let mut s = GuessSession::new(record());
    s.submit(1, 10 * B).unwrap();
    s.submit(2, 20 * B).unwrap();
    s.submit(3, 30 * B).unwrap();
    let reply = s.submit(4, 40 * B).unwrap();
    assert_eq!(reply, "Your guess: $40 B. Actual value: $45 B. Difference: $5 B.");
    assert_eq!(s.status(), SessionStatus::Revealed);
    assert_eq!(s.outcome(), Some(false));
    assert_eq!(s.history(), &vec![10 * B, 20 * B, 30 * B, 40 * B]);
    assert_eq!(s.submit(5, 45 * B), Err(GuessError::SessionAlreadyTerminal));
}

#[test]
fn small_difference_uses_decimal_branch() {
    let mut s = GuessSession::new(CompanyRecord { market_value: 2 * B, ..record() });
    s.submit(1, 10 * B).unwrap();
    s.submit(2, 10 * B).unwrap();
    s.submit(3, 10 * B).unwrap();
    let reply = s.submit(4, 2 * B + 600_000_000).unwrap();
    assert_eq!(reply, "Your guess: $3 B. Actual value: $2 B. Difference: $0.60 B.");
}

#[test]
fn no_session_is_no_active_target() {
    let mut slot: Option<GuessSession> = None;
    assert_eq!(submit_guess(&mut slot, 1, B), Err(GuessError::NoActiveTarget));
    assert!(slot.is_none());
}

#[test]
fn submit_guess_on_a_session() {
    let mut slot = Some(GuessSession::new(record()));
    assert!(submit_guess(&mut slot, 1, 45 * B).unwrap().starts_with("Correct!"));
    assert_eq!(submit_guess(&mut slot, 2, 45 * B), Err(GuessError::SessionAlreadyTerminal));
}

#[test]
fn start_game_by_index() {
    let catalog = vec![record(), CompanyRecord { rank: 7, ..record() }];
    assert_eq!(start_game(&catalog, 1).unwrap().record().rank, 7);
    assert!(start_game(&catalog, 2).is_none());
}

#[test]
fn random_company_comes_from_the_catalog() {
    assert!(company(&Vec::new()).is_none());
    let catalog = vec![
        CompanyRecord { rank: 1, ..record() },
        CompanyRecord { rank: 2, ..record() },
        CompanyRecord { rank: 3, ..record() },
    ];
    for _ in 0..20 {
        let s = company(&catalog).unwrap();
        assert!((1..=3).contains(&s.record().rank));
        assert_eq!(s.rounds_played(), 0);
    }
}
