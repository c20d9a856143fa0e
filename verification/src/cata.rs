//! The dispatch engine: one stage binding a processing unit to its declared
//! endpoints.
//!
//! On each arrival the engine feeds the synchronizer; when a tuple
//! completes it invokes the processing unit once, under exclusive access to
//! the processor state, and hands back one output unit per output endpoint,
//! in endpoint-index order, for the host to deliver. Host events drive the
//! lifecycle hooks; host queries are answered from the endpoint registry.
//!
//! The host delivers arrivals, events and queries from several threads; the
//! engine itself never blocks and never spawns: callers serialize access to
//! one stage, so only one tuple is in flight at a time and a flush cannot
//! race a dispatch.

use vstd::prelude::*;
use crate::caps::{CapsDef, FormatModel, PadCaps, resolve_format, resolve_model};
use crate::lifecycle::{
    change_target, LifecycleState, StateChange, StateChangeError, StateChangeSuccess,
};
use crate::protocol::{
    event_handled, Direction, Event, Query, QueryResponse, MAX_LATENCY, MIN_LATENCY,
};
use crate::zipper::{cleared_slots, slots_after_push, zip_ready, Zipper};

verus! {

/// The error a processing unit reports when it cannot populate its
/// outputs.
#[derive(Debug)]
pub struct ProcessingError;

/// A dispatch error surfaced to the host as a stage-level error condition.
#[derive(Clone, Copy, Debug, PartialEq, Eq, Structural)]
pub enum StageError {
    /// The processing unit failed; the tuple is dropped and no output is
    /// delivered for this cycle.
    ProcessingFailed,
}

/// A construction-time failure: the stage does not become usable.
#[derive(Clone, Copy, Debug, PartialEq, Eq, Structural)]
pub enum ConstructionError {
    /// Two endpoints of the given direction were declared under one name.
    DuplicateName(Direction),
}

/// A configurable property declared by the processing unit.
#[derive(Debug)]
pub struct Property {
    /// The property's name.
    pub name: String,
}

/// A value assigned to a configurable property.
#[derive(Debug)]
pub enum PropertyValue {
    /// A boolean setting.
    Flag(bool),
    /// A numeric setting.
    Number(i64),
    /// A textual setting.
    Text(String),
}

/// The contract every pluggable processing unit implements. The engine
/// assumes nothing about what a unit computes, only its arity: given
/// exactly one unit per input endpoint, index-aligned, it must populate
/// exactly one unit per output endpoint, index-aligned, or fail.
pub trait Process<U> {
    /// Transforms one aligned input tuple into one output vector. The
    /// output vector arrives sized to the output endpoint count and must
    /// keep that length. Called repeatedly from one thread at a time; the
    /// engine serializes calls.
    fn process(&mut self, inbuf: &Vec<U>, outbuf: &mut Vec<U>) -> (r: Result<(), ProcessingError>)
        ensures
            final(outbuf)@.len() == old(outbuf)@.len(),
    ;

    /// Applies a configuration change to the processor state; must not
    /// block.
    fn set_property(&mut self, property: &Property, value: &PropertyValue);
}

/// The mathematical model of one declared endpoint.
pub struct EndpointView {
    /// The endpoint's name.
    pub name: Seq<char>,
    /// The endpoint's declared format.
    pub format: FormatModel,
}

/// The mathematical model of a stage: its endpoint declarations, the
/// synchronizer slots, and the lifecycle flags.
#[verifier::ext_equal]
pub struct EngineView<U> {
    /// The input endpoints, in index order.
    pub inputs: Seq<EndpointView>,
    /// The output endpoints, in index order.
    pub outputs: Seq<EndpointView>,
    /// The synchronizer slots, one per input endpoint.
    pub slots: Seq<Seq<U>>,
    /// The current-or-pending lifecycle state, tracked from the host's
    /// transition requests.
    pub lifecycle: LifecycleState,
    /// Whether the stage is armed for data flow.
    pub running: bool,
}

/// The models of a list of endpoint declarations, in order.
pub open spec fn endpoint_models(defs: Seq<PadCaps>) -> Seq<EndpointView> {
    defs.map_values(
        |d: PadCaps| EndpointView { name: d.name@, format: d.caps@ },
    )
}

/// Whether every name in `defs` is unique.
pub open spec fn names_unique(defs: Seq<PadCaps>) -> bool {
    forall|i: int, j: int| 0 <= i < j < defs.len() ==> defs[i].name@ != defs[j].name@
}

/// The stage after the stop hook: quiescent, with all synchronizer slots
/// reset so no mid-stream unit survives.
pub open spec fn stopped<U>(v: EngineView<U>) -> EngineView<U> {
    EngineView { running: false, slots: cleared_slots(v.slots.len()), ..v }
}

/// The stage after the start hook: armed for data flow.
pub open spec fn started<U>(v: EngineView<U>) -> EngineView<U> {
    EngineView { running: true, ..v }
}

/// What handling one event does to the stage, and whether the event is
/// handled: flush-start and end-of-stream stop the stage; flush-stop
/// starts it again when the current-or-pending state is Playing;
/// acknowledged events change nothing; unrecognized events are left to the
/// host.
pub open spec fn event_step<U>(v: EngineView<U>, e: Event) -> (EngineView<U>, bool) {
    match e {
        Event::FlushStart => (stopped(v), true),
        Event::FlushStop => (
            if v.lifecycle is Playing {
                started(v)
            } else {
                v
            },
            true,
        ),
        Event::EndOfStream => (stopped(v), true),
        Event::Other => (v, false),
        _ => (v, true),
    }
}

/// What one host state transition does to the stage, and what it reports:
/// leaving Playing stops the stage, entering Playing starts it, and the
/// tracked lifecycle state moves to the transition's target;
/// Ready-to-Paused reports that the stage will not preroll.
pub open spec fn change_step<U>(v: EngineView<U>, t: StateChange) -> (
    EngineView<U>,
    StateChangeSuccess,
) {
    let hooked = match t {
        StateChange::PlayingToPaused => stopped(v),
        StateChange::PausedToPlaying => started(v),
        _ => v,
    };
    let moved = EngineView { lifecycle: change_target(t), ..hooked };
    let report = if t is ReadyToPaused {
        StateChangeSuccess::NoPreroll
    } else {
        StateChangeSuccess::Success
    };
    (moved, report)
}

/// The declared format of the endpoint at `idx` in the given direction.
pub open spec fn declared_format<U>(v: EngineView<U>, direction: Direction, idx: int) -> FormatModel {
    match direction {
        Direction::Input => v.inputs[idx].format,
        Direction::Output => v.outputs[idx].format,
    }
}

/// Whether the names in `defs@` are unique.
fn defs_names_unique(defs: &Vec<PadCaps>) -> (b: bool)
    ensures
        b == names_unique(defs@),
{
    let n = defs.len();
    let mut i: usize = 0;
    while i < n
        invariant
            i <= n,
            n == defs@.len(),
            forall|a: int, b: int| 0 <= a < i && a < b < n ==> defs@[a].name@ != defs@[b].name@,
        decreases n - i,
    {
        let mut j: usize = i + 1;
        while j < n
            invariant
                i < j <= n,
                n == defs@.len(),
                forall|b: int| i < b < j ==> defs@[i as int].name@ != defs@[b].name@,
            decreases n - j,
        {
            if defs[i].name == defs[j].name {
                return false;
            }
            j = j + 1;
        }
        i = i + 1;
    }
    true
}

/// One stage: a processing unit bound to its declared endpoints, a
/// synchronizer with one slot per input endpoint, and the lifecycle flags.
pub struct Cata<U, T> {
    sink_pads: Vec<PadCaps>,
    src_pads: Vec<PadCaps>,
    zipper: Zipper<U>,
    lifecycle: LifecycleState,
    running: bool,
    properties: Vec<Property>,
    processor: T,
}

impl<U, T> View for Cata<U, T> {
    type V = EngineView<U>;

    closed spec fn view(&self) -> EngineView<U> {
        EngineView {
            inputs: endpoint_models(self.sink_pads@),
            outputs: endpoint_models(self.src_pads@),
            slots: self.zipper@,
            lifecycle: self.lifecycle,
            running: self.running,
        }
    }
}

impl<U, T: Process<U>> Cata<U, T> {
    /// The stage's construction invariant: one synchronizer slot per input
    /// endpoint, and names unique within each direction.
    pub closed spec fn wf(&self) -> bool {
        &&& self.zipper@.len() == self.sink_pads@.len()
        &&& names_unique(self.sink_pads@)
        &&& names_unique(self.src_pads@)
    }

    /// The number of declared configurable properties.
    pub closed spec fn property_count(&self) -> nat {
        self.properties@.len()
    }

    /// Builds a stage from a processing unit and its static endpoint and
    /// property declarations. Endpoint indices are assigned densely, in
    /// declaration order, per direction. Fails exactly when a name is
    /// duplicated within a direction; the stage then never becomes usable.
    pub fn new(processor: T, properties: Vec<Property>, sink_defs: Vec<PadCaps>, src_defs: Vec<
        PadCaps,
    >) -> (r: Result<Cata<U, T>, ConstructionError>)
        ensures
            !names_unique(sink_defs@) ==> r == Err::<Cata<U, T>, _>(
                ConstructionError::DuplicateName(Direction::Input),
            ),
            names_unique(sink_defs@) && !names_unique(src_defs@) ==> r == Err::<Cata<U, T>, _>(
                ConstructionError::DuplicateName(Direction::Output),
            ),
            names_unique(sink_defs@) && names_unique(src_defs@) ==> (r matches Ok(c) && {
                &&& c.wf()
                &&& c@.inputs == endpoint_models(sink_defs@)
                &&& c@.outputs == endpoint_models(src_defs@)
                &&& c@.slots == cleared_slots::<U>(sink_defs@.len())
                &&& c@.lifecycle == LifecycleState::Null
                &&& !c@.running
                &&& c.property_count() == properties@.len()
            }),
    {
        if !defs_names_unique(&sink_defs) {
            return Err(ConstructionError::DuplicateName(Direction::Input));
        }
        if !defs_names_unique(&src_defs) {
            return Err(ConstructionError::DuplicateName(Direction::Output));
        }
        let zipper = Zipper::with_size(sink_defs.len());
        Ok(
            Cata {
                sink_pads: sink_defs,
                src_pads: src_defs,
                zipper,
                lifecycle: LifecycleState::Null,
                running: false,
                properties,
                processor,
            },
        )
    }

    /// The prepare hook (Null to Ready): allocates format-independent
    /// resources. Advisory in the base engine: a no-op that succeeds.
    pub fn prepare(&mut self) -> (r: Result<(), ()>)
        ensures
            r is Ok,
            final(self)@ == old(self)@,
            final(self).wf() == old(self).wf(),
    {
        Ok(())
    }

    /// The unprepare hook (Ready to Null): releases what prepare acquired.
    /// Advisory in the base engine: a no-op that succeeds.
    pub fn unprepare(&mut self) -> (r: Result<(), ()>)
        ensures
            r is Ok,
            final(self)@ == old(self)@,
            final(self).wf() == old(self).wf(),
    {
        Ok(())
    }

    /// The start hook (Paused to Playing): arms the stage for data flow.
    /// Idempotent: starting an already started stage is a no-op that
    /// succeeds.
    pub fn start(&mut self) -> (r: Result<(), ()>)
        ensures
            r is Ok,
            final(self)@ == started(old(self)@),
            final(self).wf() == old(self).wf(),
    {
        self.running = true;
        Ok(())
    }

    /// The stop hook (Playing to Paused, end-of-stream, flush): quiesces
    /// the stage and resets the synchronizer so no mid-stream unit
    /// survives. Idempotent: stopping an already stopped stage leaves it
    /// stopped and succeeds.
    pub fn stop(&mut self) -> (r: Result<(), ()>)
        ensures
            r is Ok,
            final(self)@ == stopped(old(self)@),
            final(self).wf() == old(self).wf(),
    {
        self.zipper.reset();
        self.running = false;
        Ok(())
    }

    /// Classifies and handles one host-delivered event: flush-start and
    /// end-of-stream stop the stage; flush-stop starts it again when the
    /// current-or-pending state is Playing; the acknowledged events are
    /// handled no-ops; anything else is reported unhandled for the host's
    /// default handling.
    pub fn cata_event(&mut self, event: Event) -> (handled: bool)
        ensures
            final(self)@ == event_step(old(self)@, event).0,
            handled == event_step(old(self)@, event).1,
            handled == event_handled(event),
            final(self).wf() == old(self).wf(),
    {
        match event {
            Event::FlushStart => {
                let _ = self.stop();
                true
            },
            Event::FlushStop => {
                if self.lifecycle == LifecycleState::Playing {
                    let _ = self.start();
                }
                true
            },
            Event::EndOfStream => {
                let _ = self.stop();
                true
            },
            Event::Other => false,
            _ => true,
        }
    }

    /// Answers one host-delivered query: fixed latency and scheduling
    /// reports, unvalidated format acceptance, format resolution through
    /// the endpoint declarations, and no seeking; anything else is
    /// reported unhandled (`None`) for the host's default handling. A
    /// format query must name an endpoint that exists: a query for an
    /// unknown endpoint is a programming-contract violation, not a runtime
    /// condition.
    pub fn cata_query(&self, query: &Query) -> (r: Option<QueryResponse>)
        requires
            match *query {
                Query::Caps { direction, idx, .. } => idx < (match direction {
                    Direction::Input => self@.inputs.len(),
                    Direction::Output => self@.outputs.len(),
                }),
                _ => true,
            },
        ensures
            match *query {
                Query::Latency => r == Some(
                    QueryResponse::Latency {
                        live: false,
                        min_latency: MIN_LATENCY,
                        max_latency: MAX_LATENCY,
                    },
                ),
                Query::Scheduling => r == Some(
                    QueryResponse::Scheduling {
                        sequential: true,
                        push_mode: true,
                        min_size: 1,
                        max_size: -1i32,
                        align: 0,
                    },
                ),
                Query::AcceptCaps => r == Some(QueryResponse::AcceptCaps { accepted: true }),
                Query::Caps { direction, idx, filter } => r matches Some(
                    QueryResponse::Caps { caps },
                ) && caps@ == resolve_model(
                    declared_format(self@, direction, idx as int),
                    match filter {
                        None => None,
                        Some(f) => Some(f@),
                    },
                ),
                Query::Seeking => r == Some(
                    QueryResponse::Seeking { seekable: false, start: 0, stop: 0 },
                ),
                Query::Other => r is None,
            },
    {
        match query {
            Query::Latency => Some(
                QueryResponse::Latency {
                    live: false,
                    min_latency: MIN_LATENCY,
                    max_latency: MAX_LATENCY,
                },
            ),
            Query::Scheduling => Some(
                QueryResponse::Scheduling {
                    sequential: true,
                    push_mode: true,
                    min_size: 1,
                    max_size: -1i32,
                    align: 0,
                },
            ),
            Query::AcceptCaps => Some(QueryResponse::AcceptCaps { accepted: true }),
            Query::Caps { direction, idx, filter } => {
                let pads = match direction {
                    Direction::Input => &self.sink_pads,
                    Direction::Output => &self.src_pads,
                };
                let resolved = resolve_format(&pads[*idx].caps, filter.as_ref());
                Some(QueryResponse::Caps { caps: resolved })
            },
            Query::Seeking => Some(
                QueryResponse::Seeking { seekable: false, start: 0, stop: 0 },
            ),
            Query::Other => None,
        }
    }

    /// Applies one host state transition: runs the hook the transition
    /// maps to (prepare, start, stop or unprepare), moves the tracked
    /// lifecycle state to the transition's target, and reports the result.
    /// Hook failures would abort the transition; the base hooks never
    /// fail.
    pub fn change_state(&mut self, transition: StateChange) -> (r: Result<
        StateChangeSuccess,
        StateChangeError,
    >)
        ensures
            final(self)@ == change_step(old(self)@, transition).0,
            r == Ok::<_, StateChangeError>(change_step(old(self)@, transition).1),
            final(self).wf() == old(self).wf(),
    {
        match transition {
            StateChange::NullToReady => {
                if self.prepare().is_err() {
                    return Err(StateChangeError);
                }
            },
            StateChange::PlayingToPaused => {
                if self.stop().is_err() {
                    return Err(StateChangeError);
                }
            },
            StateChange::ReadyToNull => {
                if self.unprepare().is_err() {
                    return Err(StateChangeError);
                }
            },
            _ => {},
        }

        self.lifecycle = match transition {
            StateChange::NullToReady => LifecycleState::Ready,
            StateChange::ReadyToPaused => LifecycleState::Paused,
            StateChange::PausedToPlaying => LifecycleState::Playing,
            StateChange::PlayingToPaused => LifecycleState::Paused,
            StateChange::PausedToReady => LifecycleState::Ready,
            StateChange::ReadyToNull => LifecycleState::Null,
        };

        let mut report = StateChangeSuccess::Success;
        match transition {
            StateChange::ReadyToPaused => {
                report = StateChangeSuccess::NoPreroll;
            },
            StateChange::PausedToPlaying => {
                if self.start().is_err() {
                    return Err(StateChangeError);
                }
            },
            _ => {},
        }

        Ok(report)
    }

    /// The per-arrival hot path: appends the unit to its endpoint's slot;
    /// if that completes a tuple, invokes the processing unit once on the
    /// freshest unit of every slot and returns one output unit per output
    /// endpoint, in endpoint-index order, for the caller to deliver. With
    /// no completed tuple the unit stays buffered and no output is due. A
    /// processing failure is surfaced as a stage-level error: the tuple is
    /// dropped, never replaced by fabricated output.
    pub fn sink_chain(&mut self, idx: usize, unit: U) -> (r: Result<Option<Vec<U>>, StageError>)
        where U: Default
        requires
            old(self).wf(),
            idx < old(self)@.slots.len(),
        ensures
            final(self).wf(),
            final(self)@.inputs == old(self)@.inputs,
            final(self)@.outputs == old(self)@.outputs,
            final(self)@.lifecycle == old(self)@.lifecycle,
            final(self)@.running == old(self)@.running,
            ({
                let pushed = slots_after_push(old(self)@.slots, idx as int, unit);
                &&& !zip_ready(pushed) ==> r == Ok::<_, StageError>(None::<Vec<U>>)
                    && final(self)@.slots == pushed
                &&& zip_ready(pushed) ==> {
                    &&& final(self)@.slots == cleared_slots::<U>(old(self)@.slots.len())
                    &&& (r matches Ok(out) ==> out matches Some(units) && units@.len() == old(
                        self,
                    )@.outputs.len())
                    &&& (r matches Err(e) ==> e == StageError::ProcessingFailed)
                }
            }),
    {
        self.zipper.push(unit, idx);

        match self.zipper.try_zip() {
            None => Ok(None),
            Some(tuple) => {
                let num_sink_pads = self.sink_pads.len();
                let num_src_pads = self.src_pads.len();

                // The construction invariants of the dispatch contract:
                // violating either would be a stage bug, so both are
                // discharged statically rather than checked at run time.
                assert(tuple@.len() == num_sink_pads);

                let mut outbufs: Vec<U> = Vec::new();
                while outbufs.len() < num_src_pads
                    invariant
                        outbufs@.len() <= num_src_pads,
                    decreases num_src_pads - outbufs@.len(),
                {
                    outbufs.push(U::default());
                }
                assert(outbufs@.len() == num_src_pads);

                match self.processor.process(&tuple, &mut outbufs) {
                    Ok(()) => Ok(Some(outbufs)),
                    Err(_) => Err(StageError::ProcessingFailed),
                }
            },
        }
    }

    /// Routes a configuration change to the processing unit under
    /// exclusive access to the processor state. The identifier indexes the
    /// property declarations the stage was built with.
    pub fn set_property(&mut self, id: usize, value: &PropertyValue)
        requires
            id < old(self).property_count(),
        ensures
            final(self)@ == old(self)@,
            final(self).wf() == old(self).wf(),
            final(self).property_count() == old(self).property_count(),
    {
        self.processor.set_property(&self.properties[id], value);
    }

    /// The number of input endpoints.
    pub fn num_sink_pads(&self) -> (n: usize)
        ensures
            n == self@.inputs.len(),
    {
        self.sink_pads.len()
    }

    /// The number of output endpoints.
    pub fn num_src_pads(&self) -> (n: usize)
        ensures
            n == self@.outputs.len(),
    {
        self.src_pads.len()
    }

    /// The tracked current-or-pending lifecycle state.
    pub fn current_state(&self) -> (s: LifecycleState)
        ensures
            s == self@.lifecycle,
    {
        self.lifecycle
    }

    /// Whether the stage is armed for data flow.
    pub fn is_running(&self) -> (b: bool)
        ensures
            b == self@.running,
    {
        self.running
    }
}

/// Builds a stage directly from a processing-unit type's static endpoint
/// declarations.
pub fn from_caps_def<U, T: Process<U> + CapsDef>(processor: T, properties: Vec<Property>) -> (r:
    Result<Cata<U, T>, ConstructionError>)
    ensures
        r matches Ok(c) ==> c.wf() && c@.lifecycle == LifecycleState::Null && !c@.running
            && c@.slots == cleared_slots::<U>(c@.inputs.len()),
{
    let (sink_defs, src_defs) = T::caps_def();
    Cata::new(processor, properties, sink_defs, src_defs)
}

/// Starting a started stage changes nothing further: the start hook is
/// idempotent.
pub proof fn lemma_start_idempotent<U>(v: EngineView<U>)
    ensures
        started(started(v)) == started(v),
{
}

/// Stopping a stopped stage changes nothing further: the stop hook is
/// idempotent.
pub proof fn lemma_stop_idempotent<U>(v: EngineView<U>)
    ensures
        stopped(stopped(v)) == stopped(v),
{
    assert(stopped(stopped(v)).slots =~~= stopped(v).slots);
    assert(stopped(stopped(v)) =~~= stopped(v));
}

/// A flush-start followed by a flush-stop while the stage's
/// current-or-pending state is Playing performs exactly one stop and then
/// one start, both handled, and leaves every synchronizer slot empty: no
/// stale unit survives a flush.
pub proof fn lemma_flush_cycle<U>(v: EngineView<U>)
    requires
        v.lifecycle is Playing,
    ensures
        ({
            let first = event_step(v, Event::FlushStart);
            let second = event_step(first.0, Event::FlushStop);
            &&& first.1 && second.1
            &&& first.0 == stopped(v)
            &&& second.0 == started(stopped(v))
            &&& second.0.running
            &&& forall|i: int|
                0 <= i < second.0.slots.len() ==> second.0.slots[i].len() == 0
        }),
{
}

} // verus!
