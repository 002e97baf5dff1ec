//! Binding extensions, one bind at a time.

use agent_session::bind::{BindQueue, BindReply, BindStep};
use agent_session::events::{AgentSessionEvent, SessionStartEvent, SessionStartReason};
use agent_session::extension::{ExtensionBindings, ExtensionMode, ResourceReply, ResourceStep};
use agent_session::messages::Model;
use agent_session::session::{
    AgentSession, AgentSessionConfig, Effect, ResolvedCompactionSettings, RetrySettings,
    SessionSettings,
};

fn make_session() -> AgentSession {
    let settings = SessionSettings {
        retry: RetrySettings { enabled: true, max_retries: 3, base_delay_ms: 1_000 },
        compaction: ResolvedCompactionSettings {
            enabled: true,
            reserve_tokens: 1_000,
            keep_recent_tokens: 1_000,
        },
        default_thinking_level: None,
        default_provider: None,
        default_model: None,
        shell_command_prefix: None,
        shell_path: None,
    };
    let model = Model {
        id: "m".to_owned(),
        name: "m".to_owned(),
        api: "test-api".to_owned(),
        provider: "test-provider".to_owned(),
        base_url: String::new(),
        reasoning: false,
        thinking_level_map: None,
        context_window: 8_192,
        max_tokens: 1_024,
    };
    let config = match AgentSessionConfig::test_config("stub".to_owned(), model, settings) {
        Ok(config) => config,
        Err(error) => panic!("{error:?}"),
    };
    match AgentSession::new(config) {
        Ok(session) => session,
        Err(error) => panic!("{error:?}"),
    }
}

fn in_mode(mode: ExtensionMode) -> ExtensionBindings {
    ExtensionBindings { mode: Some(mode), ..ExtensionBindings::default() }
}

/// A runner that wants to hear of starts and names resources: what it is called with.
struct Host {
    session: AgentSession,
    queue: BindQueue,
    calls: Vec<String>,
    finished: Vec<u64>,
}

impl Host {
    fn new(session: AgentSession) -> Self {
        Host { session, queue: BindQueue::new(), calls: vec![], finished: vec![] }
    }

    fn request(&mut self, id: u64, bindings: ExtensionBindings) {
        let queue = std::mem::replace(&mut self.queue, BindQueue::new());
        self.queue = self.session.request_bind(queue, id, bindings);
    }

    fn reply(&mut self, id: u64, reply: BindReply) {
        let queue = std::mem::replace(&mut self.queue, BindQueue::new());
        let (queue, finished) = self.session.advance_bind(queue, id, reply, false);
        self.queue = queue;
        for effect in std::mem::take(&mut self.session.outbox) {
            if let Effect::ToExtensions(AgentSessionEvent::SessionStart {
                reason,
                previous_session_file,
            }) = effect
            {
                let file = previous_session_file.unwrap_or_else(|| "-".to_owned());
                self.calls.push(format!("session_start:{}:{file}", reason.as_str()));
            }
        }
        if let Some((id, result)) = finished {
            assert_eq!(result, Ok(()));
            self.finished.push(id);
        }
    }

    /// Answers the bind whose turn it is; `false` where there is none.
    fn turn(&mut self) -> bool {
        let (id, reply) = match &self.queue.active {
            None => return false,
            Some(active) => {
                let reply = match &active.step {
                    BindStep::BindBridge => BindReply::BridgeBound,
                    BindStep::Resources(ResourceStep::AskHandlers) => {
                        BindReply::Resource(ResourceReply::Handlers(true))
                    }
                    BindStep::Resources(ResourceStep::Discover) => {
                        self.calls.push(format!("resources_discover:{}", active.reason.as_str()));
                        BindReply::Resource(ResourceReply::Discovered(Ok(())))
                    }
                    other => panic!("{other:?}"),
                };
                (active.id, reply)
            }
        };
        self.reply(id, reply);
        true
    }

    fn all_turns(&mut self) {
        while self.turn() {}
    }
}

#[test]
fn bind_emits_stored_session_start_before_discovery() {
    let mut host = Host::new(make_session());
    host.request(1, ExtensionBindings::default());
    host.all_turns();
    let expected =
        vec!["session_start:startup:-".to_owned(), "resources_discover:startup".to_owned()];
    assert_eq!(
        host.calls, expected,
        "first bind must emit session_start exactly once, before discovery"
    );
    host.request(2, ExtensionBindings::default());
    host.all_turns();
    assert_eq!(host.calls, expected, "second bind must not re-emit or rediscover");
    assert_eq!(host.finished, vec![1, 2]);
}

#[test]
fn concurrent_binds_emit_start_once_before_any_discovery() {
    let mut host = Host::new(make_session());
    host.request(1, in_mode(ExtensionMode::Tui));
    host.request(2, in_mode(ExtensionMode::Rpc));
    host.reply(2, BindReply::BridgeBound);
    assert!(host.calls.is_empty(), "the second waits for its turn");
    assert!(host.turn());
    host.reply(2, BindReply::Resource(ResourceReply::Handlers(true)));
    host.request(3, in_mode(ExtensionMode::Print));
    host.all_turns();
    assert_eq!(
        host.calls,
        vec!["session_start:startup:-".to_owned(), "resources_discover:startup".to_owned()],
        "concurrent binds must serialize: one start strictly before one discovery"
    );
    assert_eq!(host.finished, vec![1, 2, 3]);
    assert_eq!(host.session.extension_mode(), Some(ExtensionMode::Print));
}

#[test]
fn bind_emits_replacement_reason_and_previous_file() {
    let mut session = make_session();
    session.pending_session_start = Some(SessionStartEvent {
        reason: SessionStartReason::New,
        previous_session_file: Some("prev.jsonl".to_owned()),
    });
    let mut host = Host::new(session);
    host.request(1, ExtensionBindings::default());
    host.all_turns();
    assert_eq!(
        host.calls,
        vec![
            "session_start:new:prev.jsonl".to_owned(),
            "resources_discover:startup".to_owned(),
        ]
    );
}

#[test]
fn a_bind_that_is_given_up_lets_the_next_have_its_turn() {
    let mut host = Host::new(make_session());
    host.request(1, in_mode(ExtensionMode::Tui));
    host.request(2, in_mode(ExtensionMode::Rpc));
    host.request(3, in_mode(ExtensionMode::Print));
    let queue = std::mem::replace(&mut host.queue, BindQueue::new());
    let queue = host.session.abandon_bind(queue, 2);
    assert_eq!(queue.waiting.len(), 1);
    host.queue = host.session.abandon_bind(queue, 1);
    host.all_turns();
    assert_eq!(host.finished, vec![3]);
    assert_eq!(host.session.extension_mode(), Some(ExtensionMode::Print));
}
