use mold2d::Score;

#[test]
fn test_add_score() {
    let mut score = Score::new();
    score.add_score("GAME");
    assert_eq!(score.score("GAME"), Some(0));
}

#[test]
fn test_remove_score() {
    let mut score = Score::new();
    score.add_score("GAME");
    assert_eq!(score.score("GAME"), Some(0));
    score.remove_score("GAME");
    assert_eq!(score.score("GAME"), None);
}

#[test]
fn test_update_score() {
    let mut score = Score::new();
    score.add_score("GAME");
    score.update_score("GAME", 20);
    assert_eq!(score.score("GAME"), Some(20));
}

#[test]
fn test_increment_score() {
    let mut score = Score::new();
    score.add_score("GAME");
    score.increment_score("GAME", 5);
    score.increment_score("GAME", -2);
    assert_eq!(score.score("GAME"), Some(3));
}

#[test]
fn test_update_missing_score_is_noop() {
    let mut score = Score::new();
    score.update_score("GAME", 20);
    assert_eq!(score.score("GAME"), None);
    score.increment_score("GAME", 20);
    assert_eq!(score.score("GAME"), None);
}

#[test]
fn test_two_counters_are_independent() {
    let mut score = Score::new();
    score.add_score("GAME");
    score.add_score("BONUS");
    score.increment_score("GAME", 7);
    assert_eq!(score.score("GAME"), Some(7));
    assert_eq!(score.score("BONUS"), Some(0));
}
