use local_llm::config::GenerationConfig;

#[test]
fn absent_limit_is_unbounded() {
    let config = GenerationConfig::new(None);
    assert_eq!(config.max_tokens, None);
    assert!(config.is_unbounded());
    assert_eq!(config.token_budget(), usize::MAX);
    assert_eq!(config.engine_token_count(), 0);
}

#[test]
fn zero_limit_is_unbounded_not_a_zero_token_request() {
    let config = GenerationConfig::new(Some(0));
    assert_eq!(config.max_tokens, None);
    assert!(config.is_unbounded());
    assert_eq!(config.token_budget(), usize::MAX);
    assert_eq!(config, GenerationConfig::new(None));
}

#[test]
fn positive_limit_is_kept() {
    let config = GenerationConfig::new(Some(50));
    assert_eq!(config.max_tokens, Some(50));
    assert!(!config.is_unbounded());
    assert_eq!(config.token_budget(), 50);
    assert_eq!(config.engine_token_count(), 50);
    assert_eq!(GenerationConfig::new(Some(1)).token_budget(), 1);
}

#[test]
fn sampling_settings_are_fixed() {
    let config = GenerationConfig::new(Some(7));
    assert_eq!(config.temperature_milli, 100);
    assert_eq!(config.top_k, 40);
    assert_eq!(config.top_p_milli, 950);
    assert_eq!(config.repeat_penalty_milli, 1300);
    assert_eq!(config.repeat_window, 64);
    assert_eq!(config.thread_count, 8);
}

#[test]
fn engine_count_saturates() {
    assert_eq!(GenerationConfig::new(Some(i32::MAX as usize)).engine_token_count(), i32::MAX);
    assert_eq!(GenerationConfig::new(Some(usize::MAX)).engine_token_count(), i32::MAX);
    assert_eq!(GenerationConfig::new(Some(i32::MAX as usize - 1)).engine_token_count(), i32::MAX - 1);
}

#[test]
fn hand_made_zero_ceiling_is_unbounded_too() {
    let mut config = GenerationConfig::new(Some(3));
    config.max_tokens = Some(0);
    assert!(config.is_unbounded());
    assert_eq!(config.token_budget(), usize::MAX);
    assert_eq!(config.engine_token_count(), 0);
}
