use sea_lantern::correlator::{
    disable_automatic_save_request, enable_automatic_save_request, line_matches,
    list_players_request, run_correlation, save_all_request, CommandRequest, CorrelationEvent,
    CorrelationOutcome, Correlator, Phase,
};
use sea_lantern::dispatch::DispatchQueue;
use sea_lantern::hub::BroadcastHub;

fn save_fixture_lines() -> Vec<String> {
    vec![
        "[INFO] Saving the game (this may take a moment!)".to_string(),
        "[INFO] Saved the game with X players".to_string(),
    ]
}

#[test]
fn save_all_matches_on_the_fixture_log() {
    let mut hub = BroadcastHub::new(16);
    let mut queue = DispatchQueue::new(8);
    let events: Vec<CorrelationEvent> = save_fixture_lines()
        .into_iter()
        .map(CorrelationEvent::LineArrived)
        .collect();
    let outcome = run_correlation(&mut hub, &mut queue, save_all_request(), events);
    match outcome {
        Some(CorrelationOutcome::Matched(line)) => {
            assert_eq!(line, "[INFO] Saved the game with X players");
        }
        other => panic!("expected a match, got {:?}", other),
    }
    // The submitted command is queued for the drainer.
    assert_eq!(queue.pop_next().as_deref(), Some("save-all"));
}

#[test]
fn save_all_discards_unrelated_lines_between_phases() {
    let mut hub = BroadcastHub::new(16);
    let mut queue = DispatchQueue::new(8);
    let events = vec![
        CorrelationEvent::LineArrived("[INFO] Alice joined the game".to_string()),
        CorrelationEvent::LineArrived("[INFO] Saving the game (this may take a moment!)".to_string()),
        CorrelationEvent::LineArrived("[INFO] <Alice> hello".to_string()),
        CorrelationEvent::LineArrived("[INFO] Saved the game with X players".to_string()),
    ];
    let outcome = run_correlation(&mut hub, &mut queue, save_all_request(), events);
    assert!(matches!(outcome, Some(CorrelationOutcome::Matched(_))));
}

#[test]
fn timeout_in_phase_one_resolves_timed_out_and_leaks_no_subscriber() {
    let mut hub = BroadcastHub::new(16);
    let mut queue = DispatchQueue::new(8);
    let before = hub.subscriber_count();
    let events = vec![CorrelationEvent::TimerFired];
    let outcome = run_correlation(&mut hub, &mut queue, save_all_request(), events);
    assert!(matches!(outcome, Some(CorrelationOutcome::TimedOut(1))));
    assert_eq!(hub.subscriber_count(), before);
}

#[test]
fn timeout_in_phase_two_reports_phase_two() {
    let mut hub = BroadcastHub::new(16);
    let mut queue = DispatchQueue::new(8);
    let events = vec![
        CorrelationEvent::LineArrived("[INFO] Saving the game (this may take a moment!)".to_string()),
        CorrelationEvent::TimerFired,
    ];
    let outcome = run_correlation(&mut hub, &mut queue, save_all_request(), events);
    assert!(matches!(outcome, Some(CorrelationOutcome::TimedOut(2))));
}

#[test]
fn closed_queue_resolves_process_unavailable() {
    let mut hub = BroadcastHub::new(16);
    let mut queue = DispatchQueue::new(8);
    queue.close();
    let before = hub.subscriber_count();
    let outcome = run_correlation(&mut hub, &mut queue, save_all_request(), vec![]);
    assert!(matches!(outcome, Some(CorrelationOutcome::ProcessUnavailable)));
    assert_eq!(hub.subscriber_count(), before);
}

#[test]
fn full_queue_resolves_dispatch_failed() {
    let mut hub = BroadcastHub::new(16);
    let mut queue = DispatchQueue::new(1);
    queue.submit(&"stuck".to_string()).unwrap();
    let outcome = run_correlation(&mut hub, &mut queue, save_all_request(), vec![]);
    assert!(matches!(outcome, Some(CorrelationOutcome::DispatchFailed)));
}

#[test]
fn exhausted_events_leave_no_outcome() {
    let mut hub = BroadcastHub::new(16);
    let mut queue = DispatchQueue::new(8);
    let events = vec![CorrelationEvent::LineArrived("[INFO] nothing relevant".to_string())];
    let outcome = run_correlation(&mut hub, &mut queue, save_all_request(), events);
    assert!(outcome.is_none());
}

#[test]
fn two_concurrent_list_correlations_observe_the_same_line() {
    let mut hub = BroadcastHub::new(16);
    let mut first = Correlator::new(list_players_request());
    let mut second = Correlator::new(list_players_request());
    let first_sub = hub.subscribe();
    let second_sub = hub.subscribe();

    let reply = "There are 2 of a max 20 players online: Alice (uuid-1), Bob (uuid-2)".to_string();
    hub.publish(&reply);

    let seen_by_first = hub.take_next(first_sub).unwrap();
    let seen_by_second = hub.take_next(second_sub).unwrap();
    assert_eq!(seen_by_first, seen_by_second);
    assert_eq!(seen_by_first, reply);

    first.step(CorrelationEvent::LineArrived(seen_by_first));
    second.step(CorrelationEvent::LineArrived(seen_by_second));
    assert!(first.is_done());
    assert!(second.is_done());
    match (first.outcome(), second.outcome()) {
        (Some(CorrelationOutcome::Matched(a)), Some(CorrelationOutcome::Matched(b))) => {
            assert_eq!(a, b);
        }
        other => panic!("expected two matches, got {:?}", other),
    }

    hub.unsubscribe(first_sub);
    hub.unsubscribe(second_sub);
    assert_eq!(hub.subscriber_count(), 0);
}

#[test]
fn submit_failure_event_ends_in_dispatch_failed() {
    let mut correlator = Correlator::new(save_all_request());
    correlator.step(CorrelationEvent::SubmitFailed);
    assert!(matches!(
        correlator.outcome(),
        Some(CorrelationOutcome::DispatchFailed)
    ));
}

#[test]
fn line_matching_follows_the_pattern() {
    assert!(line_matches(
        "Saving the game",
        "[INFO] Saving the game (this may take a moment!)"
    ));
    assert!(!line_matches("Saved the game", "[INFO] Saving the game"));
    // An invalid pattern matches nothing.
    assert!(!line_matches("(", "("));
    assert!(line_matches(
        "There are \\d+ of a max \\d+ players online:",
        "There are 0 of a max 20 players online:"
    ));
}

#[test]
fn fixed_policies_carry_the_documented_commands_and_timeouts() {
    let save = save_all_request();
    assert_eq!(save.command, "save-all");
    assert_eq!(save.phases.len(), 2);
    assert_eq!(save.phases[0].pattern, "Saving the game");
    assert_eq!(save.phases[0].timeout_millis, 500);
    assert_eq!(save.phases[1].pattern, "Saved the game");
    assert_eq!(save.phases[1].timeout_millis, 5000);

    let list = list_players_request();
    assert_eq!(list.command, "list uuids");
    assert_eq!(list.phases.len(), 1);

    let on = enable_automatic_save_request();
    assert_eq!(on.command, "save-on");
    let off = disable_automatic_save_request();
    assert_eq!(off.command, "save-off");
}

#[test]
fn custom_request_advances_phase_only_on_match() {
    let request = CommandRequest {
        command: "whitelist reload".to_string(),
        phases: vec![Phase {
            pattern: "Reloaded the whitelist".to_string(),
            timeout_millis: 250,
        }],
    };
    let mut correlator = Correlator::new(request);
    correlator.step(CorrelationEvent::LineArrived("noise".to_string()));
    assert!(!correlator.is_done());
    correlator.step(CorrelationEvent::LineArrived(
        "[INFO] Reloaded the whitelist".to_string(),
    ));
    assert!(correlator.is_done());
}
