//! Models and thinking levels.

use agent_session::events::{AgentSessionEvent, ModelSelectSource};
use agent_session::messages::{Model, ModelThinkingLevel, ScopedModel, ThinkingLevelMap};
use agent_session::model::{
    clamp_thinking_level, filter_scoped_by_auth, level_str, models_are_equal, parse_thinking_level,
    supported_thinking_levels, CycleDirection, ModelError,
};
use agent_session::session::{
    AgentSession, AgentSessionConfig, Effect, ResolvedCompactionSettings, RetrySettings,
    SessionError, SessionSettings,
};
use std::sync::Arc;

const EXTENDED_THINKING_LEVELS: [ModelThinkingLevel; 7] = [
    ModelThinkingLevel::Off,
    ModelThinkingLevel::Minimal,
    ModelThinkingLevel::Low,
    ModelThinkingLevel::Medium,
    ModelThinkingLevel::High,
    ModelThinkingLevel::Xhigh,
    ModelThinkingLevel::Max,
];

fn model(id: &str, provider: &str, reasoning: bool) -> Model {
    Model {
        id: id.to_owned(),
        name: id.to_owned(),
        api: "test-api".to_owned(),
        provider: provider.to_owned(),
        base_url: String::new(),
        reasoning,
        thinking_level_map: None,
        context_window: 8_192,
        max_tokens: 1_024,
    }
}

fn map(entries: Vec<(ModelThinkingLevel, Option<String>)>) -> Option<ThinkingLevelMap> {
    Some(Arc::new(entries))
}

fn session(model: Model) -> AgentSession {
    let settings = SessionSettings {
        retry: RetrySettings { enabled: true, max_retries: 3, base_delay_ms: 1_000 },
        compaction: ResolvedCompactionSettings {
            enabled: true,
            reserve_tokens: 1_000,
            keep_recent_tokens: 1_000,
        },
        default_thinking_level: None,
        default_provider: None,
        default_model: None,
        shell_command_prefix: None,
        shell_path: None,
    };
    let config = match AgentSessionConfig::test_config("stub".to_owned(), model, settings) {
        Ok(config) => config,
        Err(error) => panic!("{error:?}"),
    };
    match AgentSession::new(config) {
        Ok(session) => session,
        Err(error) => panic!("{error:?}"),
    }
}

#[test]
fn supported_levels_non_reasoning_is_off_only() {
    let levels = supported_thinking_levels(&model("a", "p", false));
    assert_eq!(levels, vec![ModelThinkingLevel::Off]);
}

#[test]
fn supported_levels_reasoning_without_map_is_full_set() {
    let levels = supported_thinking_levels(&model("a", "p", true));
    assert_eq!(levels, EXTENDED_THINKING_LEVELS.to_vec());
}

#[test]
fn clamp_high_to_non_reasoning_is_off() {
    let m = model("a", "p", false);
    assert_eq!(clamp_thinking_level(&m, ModelThinkingLevel::High), ModelThinkingLevel::Off);
}

#[test]
fn clamp_walks_forward_then_backward() {
    let mut m = model("a", "p", true);
    m.thinking_level_map = map(vec![
        (ModelThinkingLevel::Off, None),
        (ModelThinkingLevel::High, Some("high".to_owned())),
    ]);
    assert_eq!(clamp_thinking_level(&m, ModelThinkingLevel::Medium), ModelThinkingLevel::High);
}

#[test]
fn clamp_walks_backward_when_no_higher_supported() {
    let mut m = model("a", "p", true);
    m.thinking_level_map = map(vec![
        (ModelThinkingLevel::Off, None),
        (ModelThinkingLevel::Low, Some("low".to_owned())),
    ]);
    assert_eq!(clamp_thinking_level(&m, ModelThinkingLevel::Medium), ModelThinkingLevel::Low);
}

#[test]
fn a_clamped_level_stays_where_it_is() {
    let mut m = model("a", "p", true);
    m.thinking_level_map = map(vec![
        (ModelThinkingLevel::Off, None),
        (ModelThinkingLevel::Low, Some("low".to_owned())),
    ]);
    for level in [ModelThinkingLevel::Off, ModelThinkingLevel::High, ModelThinkingLevel::Max] {
        let once = clamp_thinking_level(&m, level);
        assert!(supported_thinking_levels(&m).contains(&once));
        assert_eq!(clamp_thinking_level(&m, once), once);
    }
}

#[test]
fn models_are_equal_checks_id_and_provider() {
    let a = model("a", "p", false);
    let b = model("a", "p", true);
    let c = model("a", "q", false);
    assert!(models_are_equal(&a, &b), "id+provider match");
    assert!(!models_are_equal(&a, &c), "provider differs");
}

#[test]
fn xhigh_max_require_explicit_map_entry() {
    let mut m = model("a", "p", true);
    let entries =
        vec![(ModelThinkingLevel::Off, None), (ModelThinkingLevel::Low, Some("low".to_owned()))];
    m.thinking_level_map = map(entries.clone());
    let levels = supported_thinking_levels(&m);
    assert!(!levels.contains(&ModelThinkingLevel::Xhigh));
    assert!(!levels.contains(&ModelThinkingLevel::Max));
    let mut more = entries;
    more.push((ModelThinkingLevel::Xhigh, Some("xhigh".to_owned())));
    m.thinking_level_map = map(more);
    let levels = supported_thinking_levels(&m);
    assert!(levels.contains(&ModelThinkingLevel::Xhigh));
}

#[test]
fn explicit_null_disables_level() {
    let mut m = model("a", "p", true);
    m.thinking_level_map =
        map(vec![(ModelThinkingLevel::Off, None), (ModelThinkingLevel::Medium, None)]);
    let levels = supported_thinking_levels(&m);
    assert!(!levels.contains(&ModelThinkingLevel::Medium));
}

#[test]
fn level_str_matches_wire_union() {
    assert_eq!(level_str(ModelThinkingLevel::Off), "off");
    assert_eq!(level_str(ModelThinkingLevel::Medium), "medium");
    assert_eq!(level_str(ModelThinkingLevel::Xhigh), "xhigh");
    assert_eq!(level_str(ModelThinkingLevel::Max), "max");
}

#[test]
fn level_names_read_back() {
    for level in EXTENDED_THINKING_LEVELS {
        assert_eq!(parse_thinking_level(level_str(level)), Some(level));
    }
    assert_eq!(parse_thinking_level("huge"), None);
}

#[test]
fn a_level_is_clamped_stored_and_told() {
    let mut s = session(model("a", "p", false));
    s.set_thinking_level(ModelThinkingLevel::High);
    assert_eq!(s.thinking_level(), ModelThinkingLevel::Off);
    assert!(s.outbox.is_empty(), "the level was off before");

    let mut s = session(model("a", "p", true));
    s.set_thinking_level(ModelThinkingLevel::High);
    assert_eq!(s.thinking_level(), ModelThinkingLevel::High);
    assert_eq!(s.settings.default_thinking_level, Some(ModelThinkingLevel::High));
    assert_eq!(
        s.outbox,
        vec![
            Effect::StoreThinkingLevel(ModelThinkingLevel::High),
            Effect::Emit(AgentSessionEvent::ThinkingLevelChanged {
                level: ModelThinkingLevel::High
            }),
            Effect::ToExtensions(AgentSessionEvent::ThinkingLevelChanged {
                level: ModelThinkingLevel::High
            }),
        ]
    );
    s.set_thinking_level(ModelThinkingLevel::High);
    assert_eq!(s.outbox.len(), 3, "nothing happens twice");
}

#[test]
fn levels_go_round() {
    let mut m = model("a", "p", true);
    m.thinking_level_map = map(vec![
        (ModelThinkingLevel::Off, Some("off".to_owned())),
        (ModelThinkingLevel::Low, Some("low".to_owned())),
    ]);
    let mut s = session(m);
    let count = s.available_thinking_levels().len();
    let first = s.thinking_level();
    for _ in 0..count {
        assert!(s.cycle_thinking_level().is_some());
    }
    assert_eq!(s.thinking_level(), first);
    let mut plain = session(model("a", "p", false));
    assert_eq!(plain.cycle_thinking_level(), None);
}

#[test]
fn a_model_without_credentials_is_refused() {
    let mut s = session(model("a", "p", false));
    let refused = s.set_model(model("b", "q", false), Some(false));
    assert_eq!(refused, Err(ModelError::NoAuth("q".to_owned(), "b".to_owned())));
    assert_eq!(s.model().id, "a");
}

#[test]
fn a_selected_model_is_stored_before_it_is_the_default() {
    let mut s = session(model("a", "p", false));
    assert!(matches!(s.set_model(model("a", "p", true), Some(true)), Ok(None)));
    let pending = match s.set_model(model("b", "q", true), Some(true)) {
        Ok(Some(pending)) => pending,
        other => panic!("{other:?}"),
    };
    assert_eq!(s.model().id, "b");
    assert_eq!(pending.thinking, ModelThinkingLevel::Medium);
    let failed = s.model_stored(pending, Err(SessionError::Other("disk".to_owned())), true);
    assert_eq!(failed, Err(ModelError::Session(SessionError::Other("disk".to_owned()))));
    assert_eq!(s.settings.default_model, None);

    let pending = match s.set_model(model("c", "q", true), None) {
        Ok(Some(pending)) => pending,
        other => panic!("{other:?}"),
    };
    assert_eq!(s.model_stored(pending, Ok(()), true), Ok(()));
    assert_eq!(s.settings.default_model, Some("c".to_owned()));
    assert_eq!(s.settings.default_provider, Some("q".to_owned()));
    assert!(matches!(
        s.outbox.last(),
        Some(Effect::TellExtensions(AgentSessionEvent::ModelSelect {
            source: ModelSelectSource::Chosen,
            ..
        }))
    ));
}

#[test]
fn steps_through_models_go_round() {
    let mut s = session(model("b", "p", false));
    s.scoped_models = vec!["a", "b", "c"]
        .into_iter()
        .map(|id| ScopedModel { model: model(id, "p", false), thinking_level: None })
        .collect();
    let forward = s.cycle_model(CycleDirection::Forward, None, None, false);
    assert!(matches!(&forward, Some(r) if r.model.id == "c" && r.is_scoped));
    let again = s.cycle_model(CycleDirection::Forward, None, None, false);
    assert!(matches!(&again, Some(r) if r.model.id == "a"));
    let back = s.cycle_model(CycleDirection::Backward, None, None, false);
    assert!(matches!(&back, Some(r) if r.model.id == "c"));
    let auth = vec![true, false, false];
    assert!(s.cycle_model(CycleDirection::Forward, Some(&auth), None, false).is_none());
    assert_eq!(s.model().id, "c");
}

#[test]
fn a_step_from_outside_the_chosen_models_leads_to_the_first() {
    for direction in [CycleDirection::Forward, CycleDirection::Backward] {
        let mut s = session(model("x", "p", false));
        s.scoped_models = vec!["a", "b", "c"]
            .into_iter()
            .map(|id| ScopedModel { model: model(id, "p", false), thinking_level: None })
            .collect();
        let stepped = s.cycle_model(direction, None, None, false);
        assert!(matches!(&stepped, Some(r) if r.model.id == "a" && r.is_scoped));
    }
    let mut s = session(model("x", "p", false));
    let available = vec![model("a", "p", false), model("b", "p", false)];
    let stepped = s.cycle_model(CycleDirection::Forward, None, Some(available), false);
    assert!(matches!(&stepped, Some(r) if r.model.id == "b" && !r.is_scoped));
}

#[test]
fn steps_through_the_runtime_need_another_model() {
    let mut s = session(model("a", "p", false));
    assert!(s.cycle_model(CycleDirection::Forward, None, None, false).is_none());
    let one = vec![model("a", "p", false)];
    assert!(s.cycle_model(CycleDirection::Forward, None, Some(one), false).is_none());
    let two = vec![model("a", "p", false), model("b", "p", false)];
    let stepped = s.cycle_model(CycleDirection::Backward, None, Some(two), true);
    assert!(matches!(&stepped, Some(r) if r.model.id == "b" && !r.is_scoped));
    assert!(matches!(
        s.outbox.last(),
        Some(Effect::TellExtensions(AgentSessionEvent::ModelSelect {
            source: ModelSelectSource::Cycle,
            ..
        }))
    ));
}

#[test]
fn models_without_credentials_are_left_out() {
    let all = vec![
        ScopedModel { model: model("a", "p", false), thinking_level: None },
        ScopedModel { model: model("b", "p", false), thinking_level: None },
    ];
    let kept = filter_scoped_by_auth(all.clone(), Some(&vec![false, true]));
    assert_eq!(kept.len(), 1);
    assert_eq!(kept[0].model.id, "b");
    assert_eq!(filter_scoped_by_auth(all, None).len(), 2);
}

#[test]
fn a_refreshed_model_is_taken_without_a_word() {
    let mut s = session(model("a", "p", false));
    let mut fresh = model("a", "p", false);
    fresh.context_window = 99;
    s.refresh_selected_model_from_runtime(Some(fresh));
    assert_eq!(s.model().context_window, 99);
    s.refresh_selected_model_from_runtime(None);
    assert_eq!(s.model().context_window, 99);
    assert!(s.outbox.is_empty());
}
