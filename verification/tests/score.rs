use snake_game::game::GameData;

#[test]
fn default_record_is_zero() {
    assert_eq!(GameData::default().high_score, 0);
}

#[test]
fn beating_the_record_updates_it() {
    // a score of 7 beats a stored best of 5: the record becomes 7 and the
    // caller is told to persist it; a later session sees 7
    let mut record = GameData { high_score: 5 };
    assert!(record.record_score(7));
    assert_eq!(record.high_score, 7);
    let later_session = GameData {
        high_score: record.high_score,
    };
    assert_eq!(later_session.high_score, 7);
}

#[test]
fn record_never_decreases() {
    let mut record = GameData { high_score: 7 };
    assert!(!record.record_score(3));
    assert_eq!(record.high_score, 7);
    // equalling the record is not beating it
    assert!(!record.record_score(7));
    assert_eq!(record.high_score, 7);
}
