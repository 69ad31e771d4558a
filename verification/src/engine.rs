//! The monitor loop's decisions as a state machine over plain values:
//! whether polling has started, which sink registration is active, and
//! what each poll tick publishes. The host's loop performs the waiting
//! and the delivery; every decision it acts on is taken here.

use vstd::prelude::*;

use crate::WindowHandle;
use crate::model::Application;

verus! {

/// One record handed to the active sink: the registration it goes to,
/// and the record itself.
pub struct Delivery {
    pub sink: u64,
    pub app: Application,
}

/// The loop's cross-thread state: whether polling has ever been
/// started, and the identity of the active sink registration, if any.
/// The sink object itself lives with the host; registering a new one
/// replaces the previous registration.
pub struct EngineState {
    pub running: bool,
    pub sink: Option<u64>,
}

impl EngineState {
    /// The state at process start: not polling, no sink.
    pub fn new() -> (r: EngineState)
        ensures
            !r.running,
            r.sink is None,
    {
        EngineState { running: false, sink: None }
    }
}

/// The state after a sink registration: only the registration changes.
pub open spec fn registered(state: EngineState, sink_id: u64) -> EngineState {
    EngineState { running: state.running, sink: Some(sink_id) }
}

/// What a publish does: the record goes to the active sink, and is
/// dropped when none is registered.
pub open spec fn publish_spec(state: EngineState, app: Application) -> Option<Delivery> {
    match state.sink {
        Some(id) => Some(Delivery { sink: id, app }),
        None => None,
    }
}

/// Installs the output channel; at most one is active, and a new
/// registration replaces the previous one.
pub fn register_sink(state: &mut EngineState, sink_id: u64)
    ensures
        *final(state) == registered(*old(state), sink_id),
{
    state.sink = Some(sink_id);
}

/// Marks polling as started. Starting is not guarded: the host may
/// spawn a second polling thread by calling it again, a documented
/// rather than prevented behavior.
pub fn start_spy(state: &mut EngineState)
    ensures
        final(state).running,
        final(state).sink == old(state).sink,
{
    state.running = true;
}

/// Whether polling has ever been started (not whether a sink is
/// attached).
pub fn get_spy_status(state: &EngineState) -> (r: bool)
    ensures
        r == state.running,
{
    state.running
}

/// Hands a record to the active sink: the returned delivery names the
/// registration the host must forward it to; `None` drops the record
/// silently.
pub fn send_application_message(state: &EngineState, message: Application) -> (r: Option<
    Delivery,
>)
    ensures
        r == publish_spec(*state, message),
{
    match state.sink {
        Some(id) => Some(Delivery { sink: id, app: message }),
        None => None,
    }
}

/// The first decision of a poll tick: a null foreground handle ends
/// the tick at once, and the loop asks the operating system nothing
/// further about it.
pub fn begin_tick(handle: WindowHandle) -> (r: Option<WindowHandle>)
    ensures
        handle.is_null() ==> r is None,
        !handle.is_null() ==> r == Some(handle),
{
    if handle.is_null() {
        None
    } else {
        Some(handle)
    }
}

/// The deliveries a run of the loop makes from a stream of produced
/// records: one per record while a sink is registered, none otherwise.
/// Publishing never changes the registration, so one state governs the
/// whole stream.
pub open spec fn run_deliveries(state: EngineState, records: Seq<Application>) -> Seq<Delivery>
    decreases records.len(),
{
    if records.len() == 0 {
        Seq::empty()
    } else {
        let rest = run_deliveries(state, records.drop_first());
        match publish_spec(state, records.first()) {
            Some(d) => seq![d] + rest,
            None => rest,
        }
    }
}

/// With no sink registered, a loop fed any stream of records delivers
/// nothing: every record is dropped silently.
pub proof fn lemma_no_sink_no_deliveries(state: EngineState, records: Seq<Application>)
    requires
        state.sink is None,
    ensures
        run_deliveries(state, records).len() == 0,
    decreases records.len(),
{
    if records.len() > 0 {
        lemma_no_sink_no_deliveries(state, records.drop_first());
    }
}

/// Registering sink B after sink A routes every later publish to B
/// alone: the delivery names B, and never A when the two differ.
pub proof fn lemma_sink_replacement(state: EngineState, a: u64, b: u64, app: Application)
    ensures
        publish_spec(registered(registered(state, a), b), app) == Some(
            Delivery { sink: b, app },
        ),
        a != b ==> publish_spec(registered(registered(state, a), b), app) != Some(
            Delivery { sink: a, app },
        ),
{
}

} // verus!
