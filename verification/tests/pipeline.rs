use thread_mover::endpoint::EndpointInfo;
use thread_mover::errors::MigrationError;
use thread_mover::gate::Command;
use thread_mover::gate::GateDecision;
use thread_mover::gate::InvocationSource;
use thread_mover::gate::SingleFlight;
use thread_mover::gate::TargetChoice;
use thread_mover::gate::gate_admit;
use thread_mover::gate::gate_conclude;
use thread_mover::gate::parse_command;
use thread_mover::gate::validate_context;
use thread_mover::history::HistoryFetch;
use thread_mover::model::AuthorIdentity;
use thread_mover::model::ChannelKind;
use thread_mover::model::HistoricalMessage;
use thread_mover::model::MemberProfile;
use thread_mover::model::resolve_identity;
use thread_mover::orchestrator::Migration;
use thread_mover::orchestrator::MigrationStep;

fn author(id: u64, name: &str) -> AuthorIdentity {
    AuthorIdentity {
        account_id: id,
        account_name: name.to_string(),
        display_name: format!("{name}-display"),
        member: None,
        avatar_url: None,
        is_bot: false,
    }
}

fn msg(id: u64, author_id: u64, name: &str, content: &str) -> HistoricalMessage {
    HistoricalMessage {
        id,
        author: author(author_id, name),
        content: content.to_string(),
        attachment_urls: vec![],
        embeds: vec![],
    }
}

fn ids(history: &[HistoricalMessage]) -> Vec<u64> {
    history.iter().map(|m| m.id).collect()
}

#[test]
fn history_collates_pages_oldest_first() {
    // Pages arrive newest-first: [[m5,m4,m3],[m2,m1]] must collate to
    // [m1,m2,m3,m4,m5].
    let mut fetch = HistoryFetch::new();
    assert_eq!(fetch.request_cursor(), None);
    fetch.note_page(vec![msg(5, 1, "a", "e"), msg(4, 1, "a", "d"), msg(3, 1, "a", "c")]);
    assert_eq!(fetch.request_cursor(), Some(3));
    assert!(!fetch.is_finished());
    fetch.note_page(vec![msg(2, 1, "a", "b"), msg(1, 1, "a", "a")]);
    assert_eq!(fetch.request_cursor(), Some(1));
    fetch.note_page(vec![]);
    assert!(fetch.is_finished());
    let history = fetch.into_history();
    assert_eq!(ids(&history), vec![1, 2, 3, 4, 5]);
}

#[test]
fn history_filters_bot_messages() {
    let mut bot_msg = msg(4, 9, "robot", "beep");
    bot_msg.author.is_bot = true;
    let mut fetch = HistoryFetch::new();
    fetch.note_page(vec![msg(5, 1, "a", "e"), bot_msg, msg(3, 1, "a", "c")]);
    fetch.note_page(vec![]);
    let history = fetch.into_history();
    assert_eq!(ids(&history), vec![3, 5]);
}

#[test]
fn history_empty_first_page_ends_at_once() {
    let mut fetch = HistoryFetch::new();
    fetch.note_page(vec![]);
    // Paging ended: no further page request is to be issued.
    assert!(fetch.is_finished());
    let history = fetch.into_history();
    assert!(history.is_empty());
}

#[test]
fn history_failure_keeps_accumulated() {
    let mut fetch = HistoryFetch::new();
    fetch.note_page(vec![msg(2, 1, "a", "b"), msg(1, 1, "a", "a")]);
    fetch.note_failure();
    assert!(fetch.is_finished());
    let history = fetch.into_history();
    assert_eq!(ids(&history), vec![1, 2]);
}

#[test]
fn identity_prefers_member_override() {
    let mut a = author(7, "global");
    a.member = Some(MemberProfile {
        account_name: "member".to_string(),
        display_name: "Member Display".to_string(),
    });
    let (account, display) = resolve_identity(&a);
    assert_eq!(account, "member");
    assert_eq!(display, "Member Display");
}

#[test]
fn identity_falls_back_to_global_profile() {
    let a = author(7, "global");
    let (account, display) = resolve_identity(&a);
    assert_eq!(account, "global");
    assert_eq!(display, "global-display");
}

#[test]
fn second_invocation_rejected_while_first_runs() {
    let mut flight = SingleFlight::new();
    let first = gate_admit(Some(Command::MoveThread), &None, 1, &mut flight);
    assert_eq!(first, GateDecision::Admitted);
    let second = gate_admit(Some(Command::MoveThread), &None, 1, &mut flight);
    assert_eq!(second, GateDecision::Reject(MigrationError::AlreadyProcessing));
}

#[test]
fn lock_released_after_failure() {
    let mut flight = SingleFlight::new();
    assert_eq!(gate_admit(Some(Command::MoveThread), &None, 1, &mut flight), GateDecision::Admitted);
    // The migration fails at some step; conclusion still releases the lock.
    let status = gate_conclude(&mut flight, MigrationStep::Fail { error: MigrationError::NoMessages });
    assert_eq!(status, "No messages found");
    // A subsequent invocation succeeds in acquiring.
    assert_eq!(gate_admit(Some(Command::MoveThread), &None, 1, &mut flight), GateDecision::Admitted);
}

#[test]
fn unknown_command_is_ignored() {
    let mut flight = SingleFlight::new();
    assert_eq!(parse_command(&"mvx".to_string()), None);
    let d = gate_admit(None, &None, 1, &mut flight);
    assert_eq!(d, GateDecision::Ignore);
    // The lock was not taken.
    assert_eq!(gate_admit(Some(Command::MoveThread), &None, 1, &mut flight), GateDecision::Admitted);
}

#[test]
fn missing_role_rejected() {
    let mut flight = SingleFlight::new();
    let d = gate_admit(Some(Command::MoveThread), &Some(vec![5, 6]), 7, &mut flight);
    assert_eq!(d, GateDecision::Reject(MigrationError::NotAllowed));
    let d = gate_admit(Some(Command::MoveThread), &Some(vec![5, 6, 7]), 7, &mut flight);
    assert_eq!(d, GateDecision::Admitted);
}

#[test]
fn endpoint_lookup_is_idempotent() {
    // A channel without the marker endpoint asks for provisioning...
    let (mut m, _) = Migration::begin(42, None);
    let step = m.on_endpoints(vec![EndpointInfo { id: 1, name: Some("other".to_string()) }]);
    match step {
        MigrationStep::ProvisionEndpoint { destination, endpoint_name } => {
            assert_eq!(destination, 42);
            assert_eq!(endpoint_name, "MVT_MIGRATOR");
        }
        other => panic!("expected provisioning, got {other:?}"),
    }
    // ...and once the marker endpoint stands, a second acquire finds it and
    // never provisions again.
    let (mut m2, _) = Migration::begin(42, None);
    let step = m2.on_endpoints(vec![
        EndpointInfo { id: 1, name: Some("other".to_string()) },
        EndpointInfo { id: 9, name: Some("MVT_MIGRATOR".to_string()) },
    ]);
    assert_eq!(step, MigrationStep::FetchPage { cursor: None });
}

#[test]
fn end_to_end_three_messages() {
    let mut op = msg(1, 10, "alice", "hello");
    op.attachment_urls = vec!["https://files.example/one.png".to_string()];
    let reply1 = msg(2, 11, "bob", "first reply");
    let reply2 = msg(3, 12, "carol", "second reply");

    let (mut m, step) = Migration::begin(42, Some("topic".to_string()));
    assert_eq!(step, MigrationStep::ListEndpoints { destination: 42 });

    // No pre-existing endpoint: exactly one is created.
    let step = m.on_endpoints(vec![]);
    match step {
        MigrationStep::ProvisionEndpoint { destination, endpoint_name } => {
            assert_eq!(destination, 42);
            assert_eq!(endpoint_name, "MVT_MIGRATOR");
        }
        other => panic!("expected provisioning, got {other:?}"),
    }
    let step = m.on_provisioned(Ok(77));
    assert_eq!(step, MigrationStep::FetchPage { cursor: None });

    // History arrives newest-first; the empty page ends paging.
    let step = m.on_page(Some(vec![reply2, reply1, op]));
    assert_eq!(step, MigrationStep::FetchPage { cursor: Some(1) });
    let step = m.on_page(Some(vec![]));

    // The seed post: OP's content with the attribution marker, mention
    // suppression on, thread creation named after the source thread.
    match step {
        MigrationStep::PostSeed { endpoint, request } => {
            assert_eq!(endpoint, 77);
            assert_eq!(request.thread, None);
            assert_eq!(request.thread_name.as_deref(), Some("topic"));
            assert_eq!(request.content, "\nhello\n||OP: <@10>||\n");
            assert_eq!(request.username, "alice-display - (alice)");
            assert_eq!(request.attachment_urls, vec!["https://files.example/one.png".to_string()]);
            assert!(request.suppress_mentions);
            assert!(request.wait);
        }
        other => panic!("expected the seed post, got {other:?}"),
    }

    // The seed's result carries the created thread; both replies follow, in
    // order, under their own identities, without mention suppression.
    let step = m.on_seed_result(Some(555));
    match step {
        MigrationStep::PostReplay { endpoint, request } => {
            assert_eq!(endpoint, 77);
            assert_eq!(request.thread, Some(555));
            assert_eq!(request.thread_name, None);
            assert_eq!(request.content, "first reply");
            assert_eq!(request.username, "bob-display - (bob)");
            assert!(!request.suppress_mentions);
            assert!(!request.wait);
        }
        other => panic!("expected the first replay, got {other:?}"),
    }
    let step = m.on_replay_issued();
    match step {
        MigrationStep::PostReplay { request, .. } => {
            assert_eq!(request.content, "second reply");
            assert_eq!(request.username, "carol-display - (carol)");
        }
        other => panic!("expected the second replay, got {other:?}"),
    }
    let step = m.on_replay_issued();
    assert_eq!(step, MigrationStep::Succeed { destination: 42, migrated: 3 });

    // The final status references the destination.
    let mut flight = SingleFlight::new();
    assert_eq!(gate_admit(Some(Command::MoveThread), &None, 1, &mut flight), GateDecision::Admitted);
    let status = gate_conclude(&mut flight, step);
    assert_eq!(status, "Message sent to <#42>");
}

#[test]
fn fetch_failure_replays_what_was_accumulated() {
    let (mut m, _) = Migration::begin(42, None);
    m.on_endpoints(vec![EndpointInfo { id: 9, name: Some("MVT_MIGRATOR".to_string()) }]);
    let step = m.on_page(Some(vec![msg(2, 11, "bob", "reply"), msg(1, 10, "alice", "hello")]));
    assert_eq!(step, MigrationStep::FetchPage { cursor: Some(1) });
    // The next request fails: paging ends early, the accumulated two
    // messages are still migrated.
    let step = m.on_page(None);
    match step {
        MigrationStep::PostSeed { request, .. } => {
            assert_eq!(request.content, "\nhello\n||OP: <@10>||\n");
        }
        other => panic!("expected the seed post, got {other:?}"),
    }
    let step = m.on_seed_result(Some(555));
    assert!(matches!(step, MigrationStep::PostReplay { .. }));
    let step = m.on_replay_issued();
    assert_eq!(step, MigrationStep::Succeed { destination: 42, migrated: 2 });
}

#[test]
fn empty_history_concludes_no_messages() {
    let (mut m, _) = Migration::begin(42, None);
    let step = m.on_endpoints(vec![EndpointInfo { id: 9, name: Some("MVT_MIGRATOR".to_string()) }]);
    assert_eq!(step, MigrationStep::FetchPage { cursor: None });
    let step = m.on_page(Some(vec![]));
    assert_eq!(step, MigrationStep::Fail { error: MigrationError::NoMessages });
    let mut flight = SingleFlight::new();
    let status = gate_conclude(&mut flight, step);
    assert_eq!(status, "No messages found");
}

#[test]
fn seed_failure_is_fatal() {
    let (mut m, _) = Migration::begin(42, None);
    m.on_endpoints(vec![EndpointInfo { id: 9, name: Some("MVT_MIGRATOR".to_string()) }]);
    m.on_page(Some(vec![msg(1, 10, "alice", "hello")]));
    let step = m.on_page(Some(vec![]));
    assert!(matches!(step, MigrationStep::PostSeed { .. }));
    let step = m.on_seed_result(None);
    assert_eq!(
        step,
        MigrationStep::Fail {
            error: MigrationError::SendFailed("Unable to send the first message".to_string())
        }
    );
}

#[test]
fn provisioning_rejection_is_fatal() {
    let (mut m, _) = Migration::begin(42, None);
    let step = m.on_endpoints(vec![]);
    assert!(matches!(step, MigrationStep::ProvisionEndpoint { .. }));
    let step = m.on_provisioned(Err("Missing Permissions".to_string()));
    assert_eq!(
        step,
        MigrationStep::Fail {
            error: MigrationError::WebhookCreationFailed("Missing Permissions".to_string())
        }
    );
    let mut flight = SingleFlight::new();
    let status = gate_conclude(&mut flight, step);
    assert_eq!(status, "Unable to create the webhook: Missing Permissions");
}

#[test]
fn non_thread_invocation_rejected() {
    let source = Some(InvocationSource {
        id: 1,
        kind: ChannelKind::Other,
        parent_kind: Some(ChannelKind::Forum),
        name: None,
    });
    let target = Some(TargetChoice { id: 42, kind: ChannelKind::Forum });
    let r = validate_context(&source, &target);
    let e = r.unwrap_err();
    assert_eq!(e.message(), "Invoke the command from a forum thread");
}

#[test]
fn thread_outside_forum_rejected() {
    let source = Some(InvocationSource {
        id: 1,
        kind: ChannelKind::PublicThread,
        parent_kind: Some(ChannelKind::Other),
        name: None,
    });
    let target = Some(TargetChoice { id: 42, kind: ChannelKind::Forum });
    let r = validate_context(&source, &target);
    assert_eq!(r.unwrap_err().message(), "Invoke the command from a forum thread");
}

#[test]
fn non_forum_target_rejected() {
    let source = Some(InvocationSource {
        id: 1,
        kind: ChannelKind::PublicThread,
        parent_kind: Some(ChannelKind::Forum),
        name: Some("topic".to_string()),
    });
    let target = Some(TargetChoice { id: 42, kind: ChannelKind::Other });
    let r = validate_context(&source, &target);
    assert_eq!(r.unwrap_err().message(), "Target channel is not a forum");
    let r = validate_context(&source, &None);
    assert_eq!(r.unwrap_err().message(), "Target channel is not a forum");
}

#[test]
fn missing_channel_rejected() {
    let target = Some(TargetChoice { id: 42, kind: ChannelKind::Forum });
    let r = validate_context(&None, &target);
    assert_eq!(r.unwrap_err().message(), "No channel found");
}

#[test]
fn eligible_context_accepted() {
    let source = Some(InvocationSource {
        id: 1,
        kind: ChannelKind::PublicThread,
        parent_kind: Some(ChannelKind::Forum),
        name: Some("topic".to_string()),
    });
    let target = Some(TargetChoice { id: 42, kind: ChannelKind::Forum });
    assert_eq!(validate_context(&source, &target), Ok(()));
}

#[test]
fn command_parsing() {
    assert_eq!(parse_command(&"mv".to_string()), Some(Command::MoveThread));
    assert_eq!(parse_command(&"move".to_string()), None);
    assert_eq!(parse_command(&"".to_string()), None);
}
