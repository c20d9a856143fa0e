use cata::caps::{MediaFormat, PadCaps};
use cata::cata::{
    from_caps_def, Cata, ConstructionError, Process, ProcessingError, Property, PropertyValue,
    StageError,
};
use cata::identity::Identity;
use cata::lifecycle::{LifecycleState, StateChange, StateChangeSuccess};
use cata::protocol::{Direction, Event, Query, QueryResponse, MAX_LATENCY, MIN_LATENCY};

fn two_in_one_out() -> Cata<u64, Identity> {
    let sink_defs = vec![
        PadCaps { name: "a".to_owned(), caps: MediaFormat::Any },
        PadCaps { name: "b".to_owned(), caps: MediaFormat::Any },
    ];
    let src_defs = vec![PadCaps { name: "out".to_owned(), caps: MediaFormat::Any }];
    Cata::new(Identity {}, Vec::new(), sink_defs, src_defs).expect("unique names")
}

#[test]
fn dispatch_scenario_two_inputs_one_output() {
    let mut c = two_in_one_out();
    // one unit on `a` alone is buffered, no output yet
    assert_eq!(c.sink_chain(0, 1).expect("arrival accepted"), None);
    // the unit on `b` completes the tuple; the pass-through unit copies the
    // first input to the sole output
    let delivered = c.sink_chain(1, 2).expect("arrival accepted").expect("tuple complete");
    assert_eq!(delivered, vec![1]);
    // slots are empty again: three units on `a` before any on `b` stay pending
    assert_eq!(c.sink_chain(0, 3).expect("accepted"), None);
    assert_eq!(c.sink_chain(0, 4).expect("accepted"), None);
    assert_eq!(c.sink_chain(0, 5).expect("accepted"), None);
    // the unit on `b` completes with the freshest unit of `a`; 3 and 4 are discarded
    let delivered = c.sink_chain(1, 6).expect("accepted").expect("tuple complete");
    assert_eq!(delivered, vec![5]);
}

struct Reverser;

impl Process<u64> for Reverser {
    fn process(&mut self, inbuf: &Vec<u64>, outbuf: &mut Vec<u64>) -> Result<(), ProcessingError> {
        for i in 0..outbuf.len() {
            if i < inbuf.len() {
                outbuf[i] = inbuf[inbuf.len() - 1 - i];
            }
        }
        Ok(())
    }

    fn set_property(&mut self, _property: &Property, _value: &PropertyValue) {}
}

#[test]
fn dispatch_arity_three_inputs_two_outputs() {
    let sink_defs = vec![
        PadCaps { name: "x".to_owned(), caps: MediaFormat::Variants(vec![1]) },
        PadCaps { name: "y".to_owned(), caps: MediaFormat::Variants(vec![1]) },
        PadCaps { name: "z".to_owned(), caps: MediaFormat::Variants(vec![1]) },
    ];
    let src_defs = vec![
        PadCaps { name: "p".to_owned(), caps: MediaFormat::Variants(vec![1]) },
        PadCaps { name: "q".to_owned(), caps: MediaFormat::Variants(vec![1]) },
    ];
    let mut c: Cata<u64, Reverser> =
        Cata::new(Reverser, Vec::new(), sink_defs, src_defs).expect("unique names");
    assert_eq!(c.num_sink_pads(), 3);
    assert_eq!(c.num_src_pads(), 2);
    assert_eq!(c.sink_chain(0, 10).expect("accepted"), None);
    assert_eq!(c.sink_chain(1, 11).expect("accepted"), None);
    let delivered = c.sink_chain(2, 12).expect("accepted").expect("tuple complete");
    // exactly one unit per output endpoint, index-aligned
    assert_eq!(delivered.len(), 2);
    assert_eq!(delivered, vec![12, 11]);
}

#[test]
fn identity_fills_extra_outputs_with_default_units() {
    let sink_defs = vec![PadCaps { name: "in".to_owned(), caps: MediaFormat::Any }];
    let src_defs = vec![
        PadCaps { name: "copy".to_owned(), caps: MediaFormat::Any },
        PadCaps { name: "spare".to_owned(), caps: MediaFormat::Any },
    ];
    let mut c: Cata<u64, Identity> =
        Cata::new(Identity {}, Vec::new(), sink_defs, src_defs).expect("unique names");
    let delivered = c.sink_chain(0, 99).expect("accepted").expect("tuple complete");
    // the first output is the copied input; the second keeps its default unit
    assert_eq!(delivered, vec![99, 0]);
}

struct AlwaysFails;

impl Process<u64> for AlwaysFails {
    fn process(&mut self, _inbuf: &Vec<u64>, _outbuf: &mut Vec<u64>) -> Result<(), ProcessingError> {
        Err(ProcessingError)
    }

    fn set_property(&mut self, _property: &Property, _value: &PropertyValue) {}
}

#[test]
fn processing_failure_is_surfaced_and_tuple_dropped() {
    let sink_defs = vec![PadCaps { name: "in".to_owned(), caps: MediaFormat::Any }];
    let src_defs = vec![PadCaps { name: "out".to_owned(), caps: MediaFormat::Any }];
    let mut c: Cata<u64, AlwaysFails> =
        Cata::new(AlwaysFails, Vec::new(), sink_defs, src_defs).expect("unique names");
    assert_eq!(c.sink_chain(0, 9), Err(StageError::ProcessingFailed));
    // the failed tuple was consumed, not retried: the next arrival starts a new cycle
    assert_eq!(c.sink_chain(0, 10), Err(StageError::ProcessingFailed));
}

#[test]
fn duplicate_input_name_is_fatal_at_construction() {
    let sink_defs = vec![
        PadCaps { name: "same".to_owned(), caps: MediaFormat::Any },
        PadCaps { name: "same".to_owned(), caps: MediaFormat::Any },
    ];
    let src_defs = vec![PadCaps { name: "out".to_owned(), caps: MediaFormat::Any }];
    let r: Result<Cata<u64, Identity>, _> = Cata::new(Identity {}, Vec::new(), sink_defs, src_defs);
    assert_eq!(r.err().expect("duplicate"), ConstructionError::DuplicateName(Direction::Input));
}

#[test]
fn duplicate_output_name_is_fatal_at_construction() {
    let sink_defs = vec![PadCaps { name: "in".to_owned(), caps: MediaFormat::Any }];
    let src_defs = vec![
        PadCaps { name: "same".to_owned(), caps: MediaFormat::Any },
        PadCaps { name: "same".to_owned(), caps: MediaFormat::Any },
    ];
    let r: Result<Cata<u64, Identity>, _> = Cata::new(Identity {}, Vec::new(), sink_defs, src_defs);
    assert_eq!(r.err().expect("duplicate"), ConstructionError::DuplicateName(Direction::Output));
}

#[test]
fn lifecycle_transitions_are_tracked_and_reported() {
    let mut c = two_in_one_out();
    assert_eq!(c.current_state(), LifecycleState::Null);
    assert!(!c.is_running());
    assert_eq!(c.change_state(StateChange::NullToReady), Ok(StateChangeSuccess::Success));
    assert_eq!(c.current_state(), LifecycleState::Ready);
    assert_eq!(c.change_state(StateChange::ReadyToPaused), Ok(StateChangeSuccess::NoPreroll));
    assert_eq!(c.current_state(), LifecycleState::Paused);
    assert_eq!(c.change_state(StateChange::PausedToPlaying), Ok(StateChangeSuccess::Success));
    assert_eq!(c.current_state(), LifecycleState::Playing);
    assert!(c.is_running());
    assert_eq!(c.change_state(StateChange::PlayingToPaused), Ok(StateChangeSuccess::Success));
    assert!(!c.is_running());
    assert_eq!(c.change_state(StateChange::PausedToReady), Ok(StateChangeSuccess::Success));
    assert_eq!(c.change_state(StateChange::ReadyToNull), Ok(StateChangeSuccess::Success));
    assert_eq!(c.current_state(), LifecycleState::Null);
}

#[test]
fn start_and_stop_are_idempotent() {
    let mut c = two_in_one_out();
    assert_eq!(c.start(), Ok(()));
    assert!(c.is_running());
    assert_eq!(c.start(), Ok(()));
    assert!(c.is_running());
    assert_eq!(c.stop(), Ok(()));
    assert!(!c.is_running());
    assert_eq!(c.stop(), Ok(()));
    assert!(!c.is_running());
}

#[test]
fn flush_cycle_stops_starts_and_clears_slots() {
    let mut c = two_in_one_out();
    c.change_state(StateChange::NullToReady).expect("ok");
    c.change_state(StateChange::ReadyToPaused).expect("ok");
    c.change_state(StateChange::PausedToPlaying).expect("ok");
    // leave a stale unit in slot `a`
    assert_eq!(c.sink_chain(0, 42).expect("accepted"), None);
    assert!(c.cata_event(Event::FlushStart));
    assert!(!c.is_running());
    assert!(c.cata_event(Event::FlushStop));
    assert!(c.is_running());
    // the stale unit did not survive the flush: `b` alone completes nothing
    assert_eq!(c.sink_chain(1, 43).expect("accepted"), None);
    // and a fresh pair completes with the new unit, not the stale one
    let delivered = c.sink_chain(0, 44).expect("accepted").expect("complete");
    assert_eq!(delivered, vec![44]);
}

#[test]
fn flush_stop_does_not_start_a_stage_that_is_not_playing() {
    let mut c = two_in_one_out();
    assert!(c.cata_event(Event::FlushStop));
    assert!(!c.is_running());
}

#[test]
fn end_of_stream_stops_the_stage() {
    let mut c = two_in_one_out();
    c.start().expect("ok");
    assert!(c.cata_event(Event::EndOfStream));
    assert!(!c.is_running());
}

#[test]
fn acknowledged_events_are_handled_without_state_change() {
    let mut c = two_in_one_out();
    c.start().expect("ok");
    for e in [
        Event::Reconfigure,
        Event::Latency,
        Event::StreamStart,
        Event::Caps,
        Event::Tag,
        Event::Segment,
        Event::Qos,
        Event::StreamGroupDone,
    ] {
        assert!(c.cata_event(e));
        assert!(c.is_running());
        assert_eq!(c.current_state(), LifecycleState::Null);
    }
    assert!(!c.cata_event(Event::Other));
}

#[test]
fn latency_query_reports_fixed_bounds() {
    let c = two_in_one_out();
    match c.cata_query(&Query::Latency).expect("handled") {
        QueryResponse::Latency { live, min_latency, max_latency } => {
            assert!(!live);
            assert_eq!(min_latency, MIN_LATENCY);
            assert_eq!(max_latency, MAX_LATENCY);
            assert_eq!(min_latency, 1000000);
            assert_eq!(max_latency, 100000000);
        },
        other => panic!("wrong response: {:?}", other),
    }
}

#[test]
fn scheduling_query_reports_sequential_push_mode() {
    let c = two_in_one_out();
    match c.cata_query(&Query::Scheduling).expect("handled") {
        QueryResponse::Scheduling { sequential, push_mode, min_size, max_size, align } => {
            assert!(sequential);
            assert!(push_mode);
            assert_eq!(min_size, 1);
            assert_eq!(max_size, -1);
            assert_eq!(align, 0);
        },
        other => panic!("wrong response: {:?}", other),
    }
}

#[test]
fn accept_caps_query_always_accepts() {
    let c = two_in_one_out();
    match c.cata_query(&Query::AcceptCaps).expect("handled") {
        QueryResponse::AcceptCaps { accepted } => assert!(accepted),
        other => panic!("wrong response: {:?}", other),
    }
}

#[test]
fn seeking_query_reports_not_seekable() {
    let c = two_in_one_out();
    match c.cata_query(&Query::Seeking).expect("handled") {
        QueryResponse::Seeking { seekable, start, stop } => {
            assert!(!seekable);
            assert_eq!(start, 0);
            assert_eq!(stop, 0);
        },
        other => panic!("wrong response: {:?}", other),
    }
}

#[test]
fn unknown_query_is_unhandled() {
    let c = two_in_one_out();
    assert!(c.cata_query(&Query::Other).is_none());
}

fn format_engine() -> Cata<u64, Identity> {
    let sink_defs =
        vec![PadCaps { name: "in".to_owned(), caps: MediaFormat::Variants(vec![1, 2, 3]) }];
    let src_defs =
        vec![PadCaps { name: "out".to_owned(), caps: MediaFormat::Variants(vec![4, 5]) }];
    Cata::new(Identity {}, Vec::new(), sink_defs, src_defs).expect("unique names")
}

#[test]
fn caps_query_without_filter_returns_declared_format_unchanged() {
    let c = format_engine();
    let q = Query::Caps { direction: Direction::Input, idx: 0, filter: None };
    match c.cata_query(&q).expect("handled") {
        QueryResponse::Caps { caps: MediaFormat::Variants(v) } => assert_eq!(v, vec![1, 2, 3]),
        other => panic!("wrong response: {:?}", other),
    }
}

#[test]
fn caps_query_with_filter_intersects_preferring_filter_order() {
    let c = format_engine();
    let q = Query::Caps {
        direction: Direction::Input,
        idx: 0,
        filter: Some(MediaFormat::Variants(vec![2, 4, 3, 1])),
    };
    match c.cata_query(&q).expect("handled") {
        QueryResponse::Caps { caps: MediaFormat::Variants(v) } => assert_eq!(v, vec![2, 3, 1]),
        other => panic!("wrong response: {:?}", other),
    }
}

#[test]
fn caps_query_resolves_by_direction() {
    let c = format_engine();
    let q = Query::Caps {
        direction: Direction::Output,
        idx: 0,
        filter: Some(MediaFormat::Variants(vec![5, 1])),
    };
    match c.cata_query(&q).expect("handled") {
        QueryResponse::Caps { caps: MediaFormat::Variants(v) } => assert_eq!(v, vec![5]),
        other => panic!("wrong response: {:?}", other),
    }
}

#[test]
fn caps_query_with_unconstrained_filter_returns_declared_format() {
    let c = format_engine();
    let q = Query::Caps { direction: Direction::Input, idx: 0, filter: Some(MediaFormat::Any) };
    match c.cata_query(&q).expect("handled") {
        QueryResponse::Caps { caps: MediaFormat::Variants(v) } => assert_eq!(v, vec![1, 2, 3]),
        other => panic!("wrong response: {:?}", other),
    }
}

struct PropertyRecorder {
    last: Option<(String, i64)>,
}

impl Process<u64> for PropertyRecorder {
    fn process(&mut self, _inbuf: &Vec<u64>, _outbuf: &mut Vec<u64>) -> Result<(), ProcessingError> {
        Ok(())
    }

    fn set_property(&mut self, property: &Property, value: &PropertyValue) {
        if let PropertyValue::Number(n) = value {
            self.last = Some((property.name.clone(), *n));
        }
    }
}

#[test]
fn set_property_routes_through_the_declared_list() {
    let sink_defs = vec![PadCaps { name: "in".to_owned(), caps: MediaFormat::Any }];
    let src_defs = vec![PadCaps { name: "out".to_owned(), caps: MediaFormat::Any }];
    let properties = vec![
        Property { name: "threshold".to_owned() },
        Property { name: "gain".to_owned() },
    ];
    let mut c: Cata<u64, PropertyRecorder> =
        Cata::new(PropertyRecorder { last: None }, properties, sink_defs, src_defs)
            .expect("unique names");
    c.set_property(1, &PropertyValue::Number(17));
    // the engine's observable state is untouched by a property change
    assert_eq!(c.current_state(), LifecycleState::Null);
    assert!(!c.is_running());
}

#[test]
fn from_caps_def_builds_the_identity_stage() {
    let c: Cata<u64, Identity> = from_caps_def(Identity {}, Vec::new()).expect("unique names");
    assert_eq!(c.num_sink_pads(), 1);
    assert_eq!(c.num_src_pads(), 1);
    let q = Query::Caps { direction: Direction::Input, idx: 0, filter: None };
    match c.cata_query(&q).expect("handled") {
        QueryResponse::Caps { caps: MediaFormat::Any } => {},
        other => panic!("wrong response: {:?}", other),
    }
}
