//! The life of one server instance, as a state machine.
//!
//! The machine decides; its caller acts. Each `Action` names one piece of
//! outside work (touch the run marker, load the manifest, bind, serve), and
//! the caller reports how that work went as the next `Event`.
//!
//! The run marker is a small file that publishes the bound port to a
//! supervisor. It is advisory, not a lock: a marker found at startup is
//! taken for the remains of a crashed instance and removed.

use vstd::prelude::*;
use vstd::string::*;

verus! {

/// Directory of the run marker.
pub const RUN_MARKER_DIR: &'static str = ".pkg-server";

/// Location of the run marker.
pub const RUN_MARKER_PATH: &'static str = ".pkg-server/run";

/// Exit status after a graceful shutdown.
pub const EXIT_OK: u8 = 0;

/// Exit status after a fatal failure.
pub const EXIT_FAILURE: u8 = 1;

/// The coarse phases of an instance's life.
#[derive(Debug, Clone, Copy, PartialEq, Eq, Structural)]
pub enum Phase {
    Starting,
    Bound,
    Running,
    ShuttingDown,
    Stopped,
}

/// Where exactly the instance stands: which report it is waiting for.
#[derive(Debug, Clone, Copy, PartialEq, Eq, Structural)]
pub enum Stage {
    /// Waiting to hear whether a marker was left behind.
    Probing,
    /// Waiting for the stale marker to be removed.
    Clearing,
    /// Waiting for credentials and manifest.
    Loading,
    /// Waiting for the listening socket and its port.
    Binding,
    /// Waiting for the marker to be written with this port.
    Publishing { port: u16 },
    /// Serving, until shutdown is requested.
    Serving { port: u16 },
    /// Waiting for the responses in flight to complete.
    Draining,
    /// Waiting for the marker to be removed on the way out.
    Removing,
    /// Over, with this exit status.
    Exited { code: u8 },
}

/// How a piece of outside work went.
#[derive(Debug, Clone, Copy, PartialEq, Eq, Structural)]
pub enum Event {
    /// The marker's location was looked at.
    MarkerProbed { present: bool },
    /// Removing the marker was tried.
    MarkerRemoved { ok: bool },
    /// Loading credentials and manifest was tried.
    ManifestLoaded { ok: bool },
    /// Binding was tried; the port is there if it went well.
    Listening { port: Option<u16> },
    /// Writing the marker was tried.
    MarkerWritten { ok: bool },
    /// The shutdown signal arrived.
    ShutdownRequested,
    /// The listener is closed and no response is in flight any more.
    Drained { ok: bool },
}

/// The outside work to do next.
#[derive(Debug, Clone, Copy, PartialEq, Eq, Structural)]
pub enum Action {
    /// Look whether a marker exists.
    ProbeMarker,
    /// Delete the marker.
    RemoveMarker,
    /// Load credentials, then fetch and parse the manifest.
    LoadManifest,
    /// Bind a listening socket on a port of the system's choosing.
    Bind,
    /// Create the marker's directory and write the port, in decimal, to it.
    WriteMarker { port: u16 },
    /// Accept and serve requests.
    Serve,
    /// Stop accepting and let the responses in flight complete.
    Drain,
    /// Leave the process with this status.
    Exit { code: u8 },
    /// Nothing: the report was not one this stage waits for.
    Ignore,
}

/// The phase that a stage belongs to.
pub open spec fn phase_of(stage: Stage) -> Phase {
    match stage {
        Stage::Probing | Stage::Clearing | Stage::Loading => Phase::Starting,
        Stage::Binding | Stage::Publishing { .. } => Phase::Bound,
        Stage::Serving { .. } => Phase::Running,
        Stage::Draining => Phase::ShuttingDown,
        Stage::Removing | Stage::Exited { .. } => Phase::Stopped,
    }
}

/// The stage and action that follow when `event` is reported in `stage`.
/// A report that the stage does not wait for changes nothing.
pub open spec fn transition(stage: Stage, event: Event) -> (Stage, Action) {
    let failed = (Stage::Exited { code: EXIT_FAILURE }, Action::Exit { code: EXIT_FAILURE });
    match (stage, event) {
        (Stage::Probing, Event::MarkerProbed { present }) => if present {
            (Stage::Clearing, Action::RemoveMarker)
        } else {
            (Stage::Loading, Action::LoadManifest)
        },
        (Stage::Clearing, Event::MarkerRemoved { ok }) => if ok {
            (Stage::Loading, Action::LoadManifest)
        } else {
            failed
        },
        (Stage::Loading, Event::ManifestLoaded { ok }) => if ok {
            (Stage::Binding, Action::Bind)
        } else {
            failed
        },
        (Stage::Binding, Event::Listening { port }) => match port {
            Some(port) => (Stage::Publishing { port }, Action::WriteMarker { port }),
            None => failed,
        },
        (Stage::Publishing { port }, Event::MarkerWritten { ok }) => if ok {
            (Stage::Serving { port }, Action::Serve)
        } else {
            failed
        },
        (Stage::Serving { .. }, Event::ShutdownRequested) => (Stage::Draining, Action::Drain),
        (Stage::Draining, Event::Drained { .. }) => (Stage::Removing, Action::RemoveMarker),
        (Stage::Removing, Event::MarkerRemoved { ok }) => if ok {
            (Stage::Exited { code: EXIT_OK }, Action::Exit { code: EXIT_OK })
        } else {
            failed
        },
        _ => (stage, Action::Ignore),
    }
}

/// The stage reached from `stage` after all of `events`, in order.
pub open spec fn stage_after(stage: Stage, events: Seq<Event>) -> Stage
    decreases events.len(),
{
    if events.len() == 0 {
        stage
    } else {
        stage_after(transition(stage, events[0]).0, events.drop_first())
    }
}

/// The actions asked for while `events` are reported from `stage` on, one
/// for each event.
pub open spec fn actions_after(stage: Stage, events: Seq<Event>) -> Seq<Action>
    decreases events.len(),
{
    if events.len() == 0 {
        Seq::empty()
    } else {
        seq![transition(stage, events[0]).1] + actions_after(
            transition(stage, events[0]).0,
            events.drop_first(),
        )
    }
}

/// The coordinator of one instance.
#[derive(Debug, Clone, Copy, PartialEq, Eq, Structural)]
pub struct Coordinator {
    pub stage: Stage,
}

impl Coordinator {
    /// A fresh instance, and the first thing it asks for: a look at the
    /// marker's location.
    pub fn start() -> (begun: (Coordinator, Action))
        ensures
            begun.0.stage == Stage::Probing,
            begun.1 == Action::ProbeMarker,
    {
        (Coordinator { stage: Stage::Probing }, Action::ProbeMarker)
    }

    /// Takes the report of the last piece of work and says what to do next.
    pub fn step(&mut self, event: Event) -> (action: Action)
        ensures
            (final(self).stage, action) == transition(old(self).stage, event),
    {
        let (next, action) = match (self.stage, event) {
            (Stage::Probing, Event::MarkerProbed { present: true }) => (
                Stage::Clearing,
                Action::RemoveMarker,
            ),
            (Stage::Probing, Event::MarkerProbed { present: false })
            | (Stage::Clearing, Event::MarkerRemoved { ok: true }) => (
                Stage::Loading,
                Action::LoadManifest,
            ),
            (Stage::Loading, Event::ManifestLoaded { ok: true }) => (Stage::Binding, Action::Bind),
            (Stage::Binding, Event::Listening { port: Some(port) }) => (
                Stage::Publishing { port },
                Action::WriteMarker { port },
            ),
            (Stage::Publishing { port }, Event::MarkerWritten { ok: true }) => (
                Stage::Serving { port },
                Action::Serve,
            ),
            (Stage::Serving { .. }, Event::ShutdownRequested) => (Stage::Draining, Action::Drain),
            (Stage::Draining, Event::Drained { .. }) => (Stage::Removing, Action::RemoveMarker),
            (Stage::Removing, Event::MarkerRemoved { ok: true }) => (
                Stage::Exited { code: EXIT_OK },
                Action::Exit { code: EXIT_OK },
            ),
            (Stage::Clearing, Event::MarkerRemoved { ok: false })
            | (Stage::Loading, Event::ManifestLoaded { ok: false })
            | (Stage::Binding, Event::Listening { port: None })
            | (Stage::Publishing { .. }, Event::MarkerWritten { ok: false })
            | (Stage::Removing, Event::MarkerRemoved { ok: false }) => (
                Stage::Exited { code: EXIT_FAILURE },
                Action::Exit { code: EXIT_FAILURE },
            ),
            (stage, _) => (stage, Action::Ignore),
        };
        self.stage = next;
        action
    }

    /// The phase the instance is in.
    pub fn phase(&self) -> (phase: Phase)
        ensures
            phase == phase_of(self.stage),
    {
        match self.stage {
            Stage::Probing | Stage::Clearing | Stage::Loading => Phase::Starting,
            Stage::Binding | Stage::Publishing { .. } => Phase::Bound,
            Stage::Serving { .. } => Phase::Running,
            Stage::Draining => Phase::ShuttingDown,
            Stage::Removing | Stage::Exited { .. } => Phase::Stopped,
        }
    }

    /// The port being published or served, once it is known and while the
    /// instance listens.
    pub fn port(&self) -> (port: Option<u16>)
        ensures
            port == port_of(self.stage),
    {
        match self.stage {
            Stage::Publishing { port } | Stage::Serving { port } => Some(port),
            _ => None,
        }
    }
}

/// The port that a stage carries.
pub open spec fn port_of(stage: Stage) -> Option<u16> {
    match stage {
        Stage::Publishing { port } => Some(port),
        Stage::Serving { port } => Some(port),
        _ => None,
    }
}

/// The place of a phase in the order in which phases are passed.
pub open spec fn phase_rank(phase: Phase) -> nat {
    match phase {
        Phase::Starting => 0,
        Phase::Bound => 1,
        Phase::Running => 2,
        Phase::ShuttingDown => 3,
        Phase::Stopped => 4,
    }
}

/// Whether a stage belongs to startup, before any socket is bound.
pub open spec fn is_starting(stage: Stage) -> bool {
    phase_of(stage) == Phase::Starting
}

/// One action is asked for per event.
pub proof fn lemma_one_action_per_event(stage: Stage, events: Seq<Event>)
    ensures
        actions_after(stage, events).len() == events.len(),
    decreases events.len(),
{
    if events.len() > 0 {
        lemma_one_action_per_event(transition(stage, events[0]).0, events.drop_first());
    }
}

/// The actions after the first are those of the remaining events, from the
/// stage that the first event leads to.
proof fn lemma_later_action(stage: Stage, events: Seq<Event>, at: int)
    requires
        0 < at < events.len(),
    ensures
        actions_after(stage, events).len() == events.len(),
        actions_after(stage, events)[at] == actions_after(
            transition(stage, events[0]).0,
            events.drop_first(),
        )[at - 1],
{
    lemma_one_action_per_event(stage, events);
    lemma_one_action_per_event(transition(stage, events[0]).0, events.drop_first());
}

/// The marker is written only in answer to a successful bind, and with the
/// port that the bind reported.
pub proof fn lemma_marker_holds_bound_port(stage: Stage, event: Event)
    requires
        transition(stage, event).1 is WriteMarker,
    ensures
        stage == Stage::Binding,
        event is Listening,
        event->Listening_port == Some(transition(stage, event).1->WriteMarker_port),
        transition(stage, event).0 == (Stage::Publishing {
            port: transition(stage, event).1->WriteMarker_port,
        }),
{
}

/// The process leaves with status 0 only in answer to the marker's removal
/// on the way out, and that removal is asked for whenever draining ends,
/// however it went.
pub proof fn lemma_clean_exit_follows_removal(stage: Stage, event: Event)
    ensures
        transition(stage, event).1 == (Action::Exit { code: EXIT_OK }) ==> stage == Stage::Removing
            && event == (Event::MarkerRemoved { ok: true }),
        stage == Stage::Draining && event is Drained ==> transition(stage, event) == (
            Stage::Removing,
            Action::RemoveMarker,
        ),
{
}

/// An instance that has exited stays so and asks for nothing more.
pub proof fn lemma_exited_is_final(code: u8, events: Seq<Event>)
    ensures
        stage_after(Stage::Exited { code }, events) == (Stage::Exited { code }),
        actions_after(Stage::Exited { code }, events).len() == events.len(),
        forall|i: int|
            0 <= i < events.len() ==> actions_after(Stage::Exited { code }, events)[i]
                == Action::Ignore,
    decreases events.len(),
{
    let exited = Stage::Exited { code };
    lemma_one_action_per_event(exited, events);
    if events.len() > 0 {
        let rest = events.drop_first();
        lemma_exited_is_final(code, rest);
        assert forall|i: int| 0 <= i < events.len() implies actions_after(exited, events)[i]
            == Action::Ignore by {
            if i > 0 {
                lemma_later_action(exited, events, i);
            }
        }
    }
}

/// In a whole run, whenever the marker is written, the event just reported
/// is the bind, and the port written is the port bound.
pub proof fn lemma_written_port_is_bound_port(stage: Stage, events: Seq<Event>, at: int)
    requires
        0 <= at < events.len(),
        actions_after(stage, events)[at] is WriteMarker,
    ensures
        events[at] is Listening,
        events[at]->Listening_port == Some(actions_after(stage, events)[at]->WriteMarker_port),
    decreases events.len(),
{
    lemma_one_action_per_event(stage, events);
    if at == 0 {
        lemma_marker_holds_bound_port(stage, events[0]);
    } else {
        lemma_later_action(stage, events, at);
        lemma_written_port_is_bound_port(
            transition(stage, events[0]).0,
            events.drop_first(),
            at - 1,
        );
    }
}

/// While a stale marker is being cleared, no marker is written before the
/// removal is reported done.
proof fn lemma_write_waits_for_removal(events: Seq<Event>, at: int)
    requires
        0 <= at < events.len(),
        actions_after(Stage::Clearing, events)[at] is WriteMarker,
    ensures
        exists|j: int| 0 <= j < at && events[j] == (Event::MarkerRemoved { ok: true }),
    decreases events.len(),
{
    let rest = events.drop_first();
    let next = transition(Stage::Clearing, events[0]).0;
    lemma_one_action_per_event(Stage::Clearing, events);
    assert(at > 0);
    lemma_later_action(Stage::Clearing, events, at);
    if events[0] == (Event::MarkerRemoved { ok: true }) {
        assert(0 <= 0 < at && events[0] == (Event::MarkerRemoved { ok: true }));
    } else if next == Stage::Clearing {
        lemma_write_waits_for_removal(rest, at - 1);
        let j = choose|j: int| 0 <= j < at - 1 && rest[j] == (Event::MarkerRemoved { ok: true });
        assert(events[j + 1] == rest[j]);
        assert(0 <= j + 1 < at && events[j + 1] == (Event::MarkerRemoved { ok: true }));
    } else {
        assert(next == Stage::Exited { code: EXIT_FAILURE });
        lemma_exited_is_final(EXIT_FAILURE, rest);
        assert(false);
    }
}

/// Startup over a marker left behind: the first thing asked for is its
/// removal, and if a marker is written later in the run, the removal was
/// reported done before that. So the marker that stands afterwards is the
/// new one.
pub proof fn lemma_stale_marker_removed_before_write(events: Seq<Event>, at: int)
    requires
        0 <= at < events.len(),
        events[0] == (Event::MarkerProbed { present: true }),
    ensures
        actions_after(Stage::Probing, events)[0] == Action::RemoveMarker,
        actions_after(Stage::Probing, events)[at] is WriteMarker ==> exists|j: int|
            0 < j < at && events[j] == (Event::MarkerRemoved { ok: true }),
{
    lemma_one_action_per_event(Stage::Probing, events);
    if actions_after(Stage::Probing, events)[at] is WriteMarker {
        let rest = events.drop_first();
        assert(at > 0);
        lemma_later_action(Stage::Probing, events, at);
        lemma_write_waits_for_removal(rest, at - 1);
        let j = choose|j: int| 0 <= j < at - 1 && rest[j] == (Event::MarkerRemoved { ok: true });
        assert(events[j + 1] == rest[j]);
        assert(0 < j + 1 < at && events[j + 1] == (Event::MarkerRemoved { ok: true }));
    }
}

/// No marker is written unless credentials and manifest were loaded: from
/// any stage of startup, a write of the marker comes after a report that
/// loading went well.
pub proof fn lemma_no_marker_without_manifest(stage: Stage, events: Seq<Event>, at: int)
    requires
        is_starting(stage),
        0 <= at < events.len(),
        actions_after(stage, events)[at] is WriteMarker,
    ensures
        exists|j: int| 0 <= j < at && events[j] == (Event::ManifestLoaded { ok: true }),
    decreases events.len(),
{
    let rest = events.drop_first();
    let next = transition(stage, events[0]).0;
    lemma_one_action_per_event(stage, events);
    assert(at > 0);
    lemma_later_action(stage, events, at);
    if stage == Stage::Loading && events[0] == (Event::ManifestLoaded { ok: true }) {
        assert(0 <= 0 < at && events[0] == (Event::ManifestLoaded { ok: true }));
    } else if is_starting(next) {
        lemma_no_marker_without_manifest(next, rest, at - 1);
        let j = choose|j: int| 0 <= j < at - 1 && rest[j] == (Event::ManifestLoaded { ok: true });
        assert(events[j + 1] == rest[j]);
        assert(0 <= j + 1 < at && events[j + 1] == (Event::ManifestLoaded { ok: true }));
    } else {
        assert(next == Stage::Exited { code: EXIT_FAILURE });
        lemma_exited_is_final(EXIT_FAILURE, rest);
        assert(false);
    }
}

/// Shutdown of a serving instance: the signal asks for a drain, the end of
/// the drain asks for the marker's removal whether or not the drain went
/// well, and the removal done ends the process with status 0.
pub proof fn lemma_shutdown_removes_marker(port: u16, drained: bool)
    ensures
        transition(Stage::Serving { port }, Event::ShutdownRequested) == (
            Stage::Draining,
            Action::Drain,
        ),
        transition(Stage::Draining, Event::Drained { ok: drained }) == (
            Stage::Removing,
            Action::RemoveMarker,
        ),
        transition(Stage::Removing, Event::MarkerRemoved { ok: true }) == (
            Stage::Exited { code: EXIT_OK },
            Action::Exit { code: EXIT_OK },
        ),
{
}

/// The phases are passed in order: no report takes an instance back to an
/// earlier phase.
pub proof fn lemma_phases_advance(stage: Stage, event: Event)
    ensures
        phase_rank(phase_of(stage)) <= phase_rank(phase_of(transition(stage, event).0)),
{
}

/// The decimal digit for a number below ten.
pub open spec fn digit(d: nat) -> char {
    if d == 0 {
        '0'
    } else if d == 1 {
        '1'
    } else if d == 2 {
        '2'
    } else if d == 3 {
        '3'
    } else if d == 4 {
        '4'
    } else if d == 5 {
        '5'
    } else if d == 6 {
        '6'
    } else if d == 7 {
        '7'
    } else if d == 8 {
        '8'
    } else {
        '9'
    }
}

/// A number in decimal, most significant digit first, without leading zeros.
pub open spec fn decimal(n: nat) -> Seq<char>
    decreases n,
{
    if n < 10 {
        seq![digit(n)]
    } else {
        decimal(n / 10).push(digit(n % 10))
    }
}

/// The one-character text of a digit.
fn digit_text(d: u16) -> (text: &'static str)
    requires
        d < 10,
    ensures
        text@ == seq![digit(d as nat)],
{
    proof {
        reveal_strlit("0");
        reveal_strlit("1");
        reveal_strlit("2");
        reveal_strlit("3");
        reveal_strlit("4");
        reveal_strlit("5");
        reveal_strlit("6");
        reveal_strlit("7");
        reveal_strlit("8");
        reveal_strlit("9");
    }
    let text = match d {
        0 => "0",
        1 => "1",
        2 => "2",
        3 => "3",
        4 => "4",
        5 => "5",
        6 => "6",
        7 => "7",
        8 => "8",
        _ => "9",
    };
    assert(text@ =~= seq![digit(d as nat)]);
    text
}

/// The content of the run marker for a port: the port in decimal, and
/// nothing else.
pub fn marker_text(port: u16) -> (text: String)
    ensures
        text@ == decimal(port as nat),
    decreases port,
{
    if port < 10 {
        digit_text(port).to_owned()
    } else {
        let mut text = marker_text(port / 10);
        let last = digit_text(port % 10);
        text.append(last);
        assert(text@ =~= decimal(port as nat));
        text
    }
}

} // verus!
