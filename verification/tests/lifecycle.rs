use pkg_server::lifecycle::{marker_text, Action, Coordinator, Event, Phase, Stage};
use pkg_server::lifecycle::{EXIT_FAILURE, EXIT_OK, RUN_MARKER_DIR, RUN_MARKER_PATH};

fn drive(events: &[Event]) -> (Coordinator, Vec<Action>) {
    let (mut coordinator, first) = Coordinator::start();
    let mut actions = vec![first];
    for event in events {
        actions.push(coordinator.step(*event));
    }
    (coordinator, actions)
}

#[test]
fn marker_location() {
    assert_eq!(RUN_MARKER_PATH, ".pkg-server/run");
    assert_eq!(RUN_MARKER_DIR, ".pkg-server");
    assert!(RUN_MARKER_PATH.starts_with(RUN_MARKER_DIR));
}

#[test]
fn exit_codes() {
    assert_eq!(EXIT_OK, 0);
    assert_ne!(EXIT_FAILURE, 0);
}

#[test]
fn marker_text_is_decimal_port() {
    assert_eq!(marker_text(8080), "8080");
    assert_eq!(marker_text(0), "0");
    assert_eq!(marker_text(7), "7");
    assert_eq!(marker_text(10), "10");
    assert_eq!(marker_text(443), "443");
    assert_eq!(marker_text(50001), "50001");
    assert_eq!(marker_text(65535), "65535");
}

#[test]
fn marker_text_matches_std_for_every_port() {
    for port in 0..=u16::MAX {
        assert_eq!(marker_text(port), port.to_string());
    }
}

#[test]
fn start_probes_the_marker() {
    let (coordinator, action) = Coordinator::start();
    assert_eq!(action, Action::ProbeMarker);
    assert_eq!(coordinator.stage, Stage::Probing);
    assert_eq!(coordinator.phase(), Phase::Starting);
    assert_eq!(coordinator.port(), None);
}

#[test]
fn clean_start_and_graceful_shutdown() {
    let (coordinator, actions) = drive(&[
        Event::MarkerProbed { present: false },
        Event::ManifestLoaded { ok: true },
        Event::Listening { port: Some(43210) },
        Event::MarkerWritten { ok: true },
        Event::ShutdownRequested,
        Event::Drained { ok: true },
        Event::MarkerRemoved { ok: true },
    ]);
    assert_eq!(
        actions,
        vec![
            Action::ProbeMarker,
            Action::LoadManifest,
            Action::Bind,
            Action::WriteMarker { port: 43210 },
            Action::Serve,
            Action::Drain,
            Action::RemoveMarker,
            Action::Exit { code: 0 },
        ]
    );
    assert_eq!(coordinator.stage, Stage::Exited { code: 0 });
    assert_eq!(coordinator.phase(), Phase::Stopped);
}

#[test]
fn stale_marker_is_removed_before_the_new_one_is_written() {
    let (_, actions) = drive(&[
        Event::MarkerProbed { present: true },
        Event::MarkerRemoved { ok: true },
        Event::ManifestLoaded { ok: true },
        Event::Listening { port: Some(5555) },
    ]);
    assert_eq!(
        actions,
        vec![
            Action::ProbeMarker,
            Action::RemoveMarker,
            Action::LoadManifest,
            Action::Bind,
            Action::WriteMarker { port: 5555 },
        ]
    );
    let removed = actions.iter().position(|a| *a == Action::RemoveMarker).unwrap();
    let written = actions.iter().position(|a| matches!(a, Action::WriteMarker { .. })).unwrap();
    assert!(removed < written);
}

#[test]
fn phases_in_order() {
    let (mut c, _) = Coordinator::start();
    assert_eq!(c.phase(), Phase::Starting);
    c.step(Event::MarkerProbed { present: true });
    assert_eq!(c.phase(), Phase::Starting);
    c.step(Event::MarkerRemoved { ok: true });
    assert_eq!(c.phase(), Phase::Starting);
    c.step(Event::ManifestLoaded { ok: true });
    assert_eq!(c.phase(), Phase::Bound);
    c.step(Event::Listening { port: Some(1) });
    assert_eq!(c.phase(), Phase::Bound);
    assert_eq!(c.port(), Some(1));
    c.step(Event::MarkerWritten { ok: true });
    assert_eq!(c.phase(), Phase::Running);
    assert_eq!(c.port(), Some(1));
    c.step(Event::ShutdownRequested);
    assert_eq!(c.phase(), Phase::ShuttingDown);
    c.step(Event::Drained { ok: true });
    assert_eq!(c.phase(), Phase::Stopped);
    assert_eq!(c.stage, Stage::Removing);
    c.step(Event::MarkerRemoved { ok: true });
    assert_eq!(c.phase(), Phase::Stopped);
    assert_eq!(c.port(), None);
}

#[test]
fn manifest_failure_is_fatal_and_writes_no_marker() {
    let (coordinator, actions) = drive(&[
        Event::MarkerProbed { present: false },
        Event::ManifestLoaded { ok: false },
        Event::Listening { port: Some(80) },
        Event::MarkerWritten { ok: true },
    ]);
    assert_eq!(coordinator.stage, Stage::Exited { code: 1 });
    assert_eq!(actions[2], Action::Exit { code: 1 });
    assert_eq!(actions[3], Action::Ignore);
    assert_eq!(actions[4], Action::Ignore);
    assert!(actions.iter().all(|a| !matches!(a, Action::WriteMarker { .. })));
}

#[test]
fn stale_marker_that_cannot_be_removed_is_fatal() {
    let (coordinator, actions) =
        drive(&[Event::MarkerProbed { present: true }, Event::MarkerRemoved { ok: false }]);
    assert_eq!(actions[2], Action::Exit { code: 1 });
    assert_eq!(coordinator.stage, Stage::Exited { code: 1 });
}

#[test]
fn bind_failure_is_fatal() {
    let (coordinator, actions) = drive(&[
        Event::MarkerProbed { present: false },
        Event::ManifestLoaded { ok: true },
        Event::Listening { port: None },
    ]);
    assert_eq!(actions[3], Action::Exit { code: 1 });
    assert_eq!(coordinator.stage, Stage::Exited { code: 1 });
}

#[test]
fn marker_write_failure_is_fatal() {
    let (coordinator, actions) = drive(&[
        Event::MarkerProbed { present: false },
        Event::ManifestLoaded { ok: true },
        Event::Listening { port: Some(9) },
        Event::MarkerWritten { ok: false },
    ]);
    assert_eq!(actions[4], Action::Exit { code: 1 });
    assert_eq!(coordinator.stage, Stage::Exited { code: 1 });
}

#[test]
fn marker_is_removed_even_when_the_drain_failed() {
    let (coordinator, actions) = drive(&[
        Event::MarkerProbed { present: false },
        Event::ManifestLoaded { ok: true },
        Event::Listening { port: Some(9) },
        Event::MarkerWritten { ok: true },
        Event::ShutdownRequested,
        Event::Drained { ok: false },
        Event::MarkerRemoved { ok: true },
    ]);
    assert_eq!(actions[6], Action::RemoveMarker);
    assert_eq!(actions[7], Action::Exit { code: 0 });
    assert_eq!(coordinator.stage, Stage::Exited { code: 0 });
}

#[test]
fn failed_final_removal_exits_with_failure() {
    let mut c = Coordinator { stage: Stage::Removing };
    assert_eq!(c.step(Event::MarkerRemoved { ok: false }), Action::Exit { code: 1 });
}

#[test]
fn reports_out_of_turn_change_nothing() {
    let mut c = Coordinator { stage: Stage::Serving { port: 77 } };
    assert_eq!(c.step(Event::MarkerProbed { present: true }), Action::Ignore);
    assert_eq!(c.step(Event::Drained { ok: true }), Action::Ignore);
    assert_eq!(c.step(Event::Listening { port: Some(1) }), Action::Ignore);
    assert_eq!(c.stage, Stage::Serving { port: 77 });
    let mut p = Coordinator { stage: Stage::Probing };
    assert_eq!(p.step(Event::ShutdownRequested), Action::Ignore);
    assert_eq!(p.stage, Stage::Probing);
}

#[test]
fn exited_instance_ignores_everything() {
    let mut c = Coordinator { stage: Stage::Exited { code: 0 } };
    assert_eq!(c.step(Event::MarkerProbed { present: false }), Action::Ignore);
    assert_eq!(c.step(Event::ShutdownRequested), Action::Ignore);
    assert_eq!(c.step(Event::MarkerRemoved { ok: true }), Action::Ignore);
    assert_eq!(c.stage, Stage::Exited { code: 0 });
}
