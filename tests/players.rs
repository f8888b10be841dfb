use guess_game::{get_stats, get_user_id, update_guess_counts, update_stats, PlayerStats};

#[test]
fn user_id_is_kept_or_made() {
    assert_eq!(get_user_id(Some("abc".to_string())), "abc");
    let id = get_user_id(None);
    assert_eq!(id.len(), 36);
    assert_ne!(id, get_user_id(None));
}

#[test]
fn counts_and_games() {
    let mut s = PlayerStats::new();
    for _ in 0..4 {
        update_guess_counts(&mut s, true);
    }
    assert_eq!(s.total_games, 0);
    update_guess_counts(&mut s, false);
    assert_eq!((s.correct_guesses, s.incorrect_guesses, s.total_games), (4, 1, 1));
}

#[test]
fn counts_saturate() {
    let mut s = PlayerStats { correct_guesses: u32::MAX, ..PlayerStats::new() };
    update_guess_counts(&mut s, true);
    assert_eq!(s.correct_guesses, u32::MAX);
}

#[test]
fn time_adds_and_saturates() {
    let mut s = PlayerStats::default();
    update_stats(&mut s, 30);
    update_stats(&mut s, 12);
    assert_eq!(s.total_time, 42);
    update_stats(&mut s, u32::MAX);
    assert_eq!(s.total_time, u32::MAX);
}

#[test]
fn stats_default_to_zero() {
    assert_eq!(get_stats(None), PlayerStats::new());
    let s = PlayerStats { total_games: 3, correct_guesses: 9, incorrect_guesses: 6, total_time: 100 };
    assert_eq!(get_stats(Some(&s)), s);
}
