use lunalib::mining::difficulty::Difficulty;

#[test]
fn test_target_string() {
    let diff = Difficulty::new(3);
    assert_eq!(diff.target_string(), "000");
}

#[test]
fn test_is_valid_hash() {
    let diff = Difficulty::new(2);
    assert!(diff.is_valid_hash("00abcdef"));
    assert!(!diff.is_valid_hash("10abcdef"));
}

#[test]
fn test_adjust_up() {
    let diff = Difficulty::new(4);
    let new_diff = diff.adjust(5, 10);
    assert_eq!(new_diff.value, 5);
}

#[test]
fn test_adjust_down() {
    let diff = Difficulty::new(4);
    let new_diff = diff.adjust(15, 10);
    assert_eq!(new_diff.value, 3);
}

#[test]
fn target_has_exactly_level_zeros() {
    for level in [0u32, 1, 2, 7, 64, 100] {
        let target = Difficulty::new(level).target_string();
        assert_eq!(target.len(), level as usize);
        assert!(target.chars().all(|c| c == '0'));
    }
}

#[test]
fn validity_is_prefix_match() {
    let hash = "000abc";
    assert!(Difficulty::new(0).is_valid_hash(hash));
    assert!(Difficulty::new(3).is_valid_hash(hash));
    assert!(!Difficulty::new(4).is_valid_hash(hash));
    assert!(!Difficulty::new(7).is_valid_hash(hash));
    assert!(Difficulty::new(0).is_valid_hash(""));
    assert!(!Difficulty::new(1).is_valid_hash(""));
    assert!(!Difficulty::new(1).is_valid_hash("O0"));
}

#[test]
fn adjust_is_monotonic_with_floor_one() {
    assert_eq!(Difficulty::new(1).adjust(15, 10).value, 1);
    assert_eq!(Difficulty::new(0).adjust(15, 10).value, 0);
    assert_eq!(Difficulty::new(2).adjust(15, 10).value, 1);
    assert_eq!(Difficulty::new(4).adjust(10, 10).value, 4);
    assert_eq!(Difficulty::new(0).adjust(1, 10).value, 1);
    assert_eq!(Difficulty::new(u32::MAX).adjust(1, 10).value, u32::MAX);
}
