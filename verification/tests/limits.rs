use codegraph_agent::limits::{
    history_limit, is_context_window_in_range, read_memory_window_config, ContextTier,
    DEFAULT_MEMORY_WINDOW,
};
use codegraph_agent::adapter::CodeGraphChatAdapter;
use codegraph_agent::text::{decimal_text, read_setting};

const TIERS: [ContextTier; 4] = [
    ContextTier::Small,
    ContextTier::Medium,
    ContextTier::Large,
    ContextTier::Massive,
];

#[test]
fn test_default_memory_window_constant() {
    assert_eq!(DEFAULT_MEMORY_WINDOW, 40, "Default should be 40 messages");
}

#[test]
fn test_memory_window_default_value() {
    let memory_size = read_memory_window_config(None);
    assert_eq!(
        memory_size, 40,
        "Default memory window should be 40 for all tiers"
    );
}

#[test]
fn test_memory_window_from_env() {
    let memory_size = read_memory_window_config(Some("100"));
    assert_eq!(memory_size, 100);
}

#[test]
fn test_memory_window_zero_is_unlimited() {
    let memory_size = read_memory_window_config(Some("0"));
    assert_eq!(memory_size, 0, "Zero should mean unlimited history");
    assert_eq!(history_limit(memory_size), None);
    assert_eq!(history_limit(40), Some(40));
}

#[test]
fn test_memory_window_invalid_fallback() {
    let memory_size = read_memory_window_config(Some("not_a_number"));
    assert_eq!(memory_size, 40, "Invalid value should fall back to default");
}

#[test]
fn settings_are_plain_decimal_numbers() {
    assert_eq!(read_setting(None), None);
    assert_eq!(read_setting(Some("")), None);
    assert_eq!(read_setting(Some("+")), None);
    assert_eq!(read_setting(Some("-1")), None);
    assert_eq!(read_setting(Some(" 7")), None);
    assert_eq!(read_setting(Some("7 ")), None);
    assert_eq!(read_setting(Some("1_000")), None);
    assert_eq!(read_setting(Some("0x10")), None);
    assert_eq!(read_setting(Some("+7")), Some(7));
    assert_eq!(read_setting(Some("++7")), None);
    assert_eq!(read_setting(Some("007")), Some(7));
    assert_eq!(
        read_setting(Some("\u{0663}")),
        None,
        "only ASCII digits are digits"
    );
    assert_eq!(
        read_setting(Some(&usize::MAX.to_string())),
        Some(usize::MAX)
    );
    assert_eq!(
        read_setting(Some("999999999999999999999999999999")),
        None,
        "a number that does not fit is no number"
    );
}

#[test]
fn decimal_notation() {
    assert_eq!(decimal_text(0), "0");
    assert_eq!(decimal_text(9), "9");
    assert_eq!(decimal_text(10), "10");
    assert_eq!(decimal_text(1_234_567_890), "1234567890");
    assert_eq!(decimal_text(u128::MAX), u128::MAX.to_string());
}

#[test]
fn context_bytes_by_tier() {
    let expected = [160_000, 409_600, 640_000, 6_400_000];
    for (tier, bytes) in TIERS.into_iter().zip(expected) {
        assert_eq!(
            CodeGraphChatAdapter::calculate_max_context_bytes(tier, None),
            bytes
        );
        assert_eq!(
            CodeGraphChatAdapter::calculate_max_context_bytes(tier, Some("many")),
            bytes
        );
    }
}

#[test]
fn context_window_setting_overrides_the_tier() {
    for tier in TIERS {
        assert_eq!(
            CodeGraphChatAdapter::calculate_max_context_bytes(tier, Some("1000")),
            3200
        );
        assert_eq!(
            CodeGraphChatAdapter::calculate_max_context_bytes(tier, Some("1")),
            3
        );
        assert_eq!(
            CodeGraphChatAdapter::calculate_max_context_bytes(tier, Some("0")),
            0
        );
    }
}

#[test]
fn context_window_range() {
    assert!(is_context_window_in_range(None));
    assert!(is_context_window_in_range(Some("not a number")));
    assert!(is_context_window_in_range(Some("2000000")));
    assert!(is_context_window_in_range(Some(
        &(usize::MAX / 32).to_string()
    )));
    assert!(!is_context_window_in_range(Some(
        &(usize::MAX / 32 + 1).to_string()
    )));
}

#[test]
fn answer_length_by_tier_and_setting() {
    let expected = [2048, 4096, 8192, 16384];
    for (tier, tokens) in TIERS.into_iter().zip(expected) {
        let adapter = CodeGraphChatAdapter::new(tier, None);
        assert_eq!(adapter.get_max_tokens(None), Some(tokens));
        assert_eq!(adapter.get_max_tokens(Some("twelve")), Some(tokens));
        assert_eq!(adapter.get_max_tokens(Some("512")), Some(512));
        assert_eq!(adapter.get_max_tokens(Some("0")), Some(0));
    }
}

#[test]
fn context_leaves_room_for_the_answer() {
    for window in [0usize, 1, 2, 3, 4, 5, 9, 10, 11, 12_345, 50_000] {
        let bytes = CodeGraphChatAdapter::calculate_max_context_bytes(
            ContextTier::Small,
            Some(&window.to_string()),
        );
        assert!(bytes * 10 <= window * 32);
        assert!((bytes + 1) * 10 > window * 32);
    }
}

#[test]
fn larger_tiers_get_no_less() {
    for pair in TIERS.windows(2) {
        for setting in [None, Some("700"), Some("none")] {
            let smaller = CodeGraphChatAdapter::new(pair[0], setting);
            let larger = CodeGraphChatAdapter::new(pair[1], setting);
            assert!(smaller.max_context_bytes <= larger.max_context_bytes);
            assert!(smaller.get_max_tokens(setting) <= larger.get_max_tokens(setting));
        }
    }
}

#[test]
fn different_numbers_are_written_differently() {
    let mut texts: Vec<String> = (0..2000).map(decimal_text).collect();
    texts.sort();
    texts.dedup();
    assert_eq!(texts.len(), 2000);
}
