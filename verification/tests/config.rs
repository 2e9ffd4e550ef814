use weiss_py::config::{
    build_debug_config, build_env_config, ensure_num_envs, error_policy_from_lowercase,
    observation_visibility_from_lowercase, parse_error_policy, parse_observation_visibility,
    parse_replay_visibility_mode, replay_settings, ConfigError, DebugSettings, ErrorPolicy,
    ObservationVisibility, ReplayVisibilityMode,
};

fn some(s: &str) -> Option<String> {
    Some(s.to_string())
}

#[test]
fn error_policy_names() {
    assert_eq!(parse_error_policy(None), Ok(ErrorPolicy::LenientTerminate));
    assert_eq!(parse_error_policy(some("strict")), Ok(ErrorPolicy::Strict));
    assert_eq!(parse_error_policy(some("Lenient_Terminate")), Ok(ErrorPolicy::LenientTerminate));
    assert_eq!(parse_error_policy(some("LENIENT")), Ok(ErrorPolicy::LenientTerminate));
    assert_eq!(parse_error_policy(some("lenient_noop")), Ok(ErrorPolicy::LenientNoop));
}

#[test]
fn error_policy_unknown_reports_lowercased_name() {
    assert_eq!(
        parse_error_policy(some("Panic")),
        Err(ConfigError::ErrorPolicy { got: "panic".to_string() })
    );
    assert_eq!(
        error_policy_from_lowercase("Strict".to_string()),
        Err(ConfigError::ErrorPolicy { got: "Strict".to_string() })
    );
    assert_eq!(error_policy_from_lowercase("lenient".to_string()), Ok(ErrorPolicy::LenientTerminate));
}

#[test]
fn observation_visibility_names() {
    assert_eq!(parse_observation_visibility(None), Ok(ObservationVisibility::Public));
    assert_eq!(parse_observation_visibility(some("FULL")), Ok(ObservationVisibility::Full));
    assert_eq!(parse_observation_visibility(some("public")), Ok(ObservationVisibility::Public));
    assert_eq!(
        parse_observation_visibility(some("Hidden")),
        Err(ConfigError::ObservationVisibility { got: "hidden".to_string() })
    );
    assert_eq!(observation_visibility_from_lowercase("full".to_string()), Ok(ObservationVisibility::Full));
}

#[test]
fn replay_visibility_names() {
    assert_eq!(parse_replay_visibility_mode(None), Ok(ReplayVisibilityMode::Public));
    assert_eq!(parse_replay_visibility_mode(some("Full")), Ok(ReplayVisibilityMode::Full));
    assert_eq!(
        parse_replay_visibility_mode(some("partial")),
        Err(ConfigError::ReplayVisibility { got: "partial".to_string() })
    );
}

#[test]
fn replay_settings_defaults_directory() {
    let s = replay_settings(None, true, false, None, true).unwrap();
    assert_eq!(s.out_dir, "replays");
    assert!(s.compress && !s.include_trigger_card_id && s.store_actions);
    assert_eq!(s.visibility_mode, ReplayVisibilityMode::Public);
    let s = replay_settings(some("/tmp/r"), false, true, some("FULL"), false).unwrap();
    assert_eq!(s.out_dir, "/tmp/r");
    assert_eq!(s.visibility_mode, ReplayVisibilityMode::Full);
    assert!(matches!(
        replay_settings(None, false, false, some("x"), false),
        Err(ConfigError::ReplayVisibility { .. })
    ));
}

#[test]
fn debug_config_defaults_off() {
    assert_eq!(
        build_debug_config(None, None),
        DebugSettings { fingerprint_every_n: 0, event_ring_capacity: 0 }
    );
    assert_eq!(
        build_debug_config(Some(10), Some(64)),
        DebugSettings { fingerprint_every_n: 10, event_ring_capacity: 64 }
    );
}

#[test]
fn env_config_needs_two_decks() {
    let decks = vec![vec![1, 2, 3], vec![4, 5]];
    let s = build_env_config(decks.clone(), None, 2000, 100_000, ErrorPolicy::Strict, ObservationVisibility::Full)
        .unwrap();
    assert_eq!(s.deck_lists, [vec![1, 2, 3], vec![4, 5]]);
    assert_eq!(s.deck_ids, [0, 1]);
    assert_eq!(s.max_decisions, 2000);
    assert_eq!(s.max_ticks, 100_000);
    assert_eq!(s.error_policy, ErrorPolicy::Strict);
    assert_eq!(s.observation_visibility, ObservationVisibility::Full);
    let s = build_env_config(decks.clone(), Some(vec![7, 9]), 1, 1, ErrorPolicy::LenientNoop, ObservationVisibility::Public)
        .unwrap();
    assert_eq!(s.deck_ids, [7, 9]);
    assert!(matches!(
        build_env_config(vec![vec![1]], None, 1, 1, ErrorPolicy::Strict, ObservationVisibility::Public),
        Err(ConfigError::DeckListsLen)
    ));
    assert!(matches!(
        build_env_config(decks, Some(vec![1, 2, 3]), 1, 1, ErrorPolicy::Strict, ObservationVisibility::Public),
        Err(ConfigError::DeckIdsLen)
    ));
}

#[test]
fn deck_list_count_is_checked_before_deck_ids() {
    assert!(matches!(
        build_env_config(vec![], Some(vec![1]), 1, 1, ErrorPolicy::Strict, ObservationVisibility::Public),
        Err(ConfigError::DeckListsLen)
    ));
}

#[test]
fn pool_needs_an_environment() {
    assert_eq!(ensure_num_envs(1), Ok(()));
    assert_eq!(ensure_num_envs(0), Err(ConfigError::ZeroEnvs));
}
