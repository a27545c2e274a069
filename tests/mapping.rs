use perfetto_protos::trace::Trace;
use perfetto_protos::track_event::track_event::Type;
use protobuf::Message;
use std::collections::HashMap;
use tracing_perfetto_writer::{MapError, OpenedSpan, SliceId, TraceContext, TrackId};

/// One decoded track event: phase, track, name, flow ids, categories and
/// string attributes, with interned strings resolved.
#[derive(Debug, Clone)]
struct Decoded {
    kind: Type,
    track: u64,
    name: String,
    flows: Vec<u64>,
    categories: Vec<String>,
    attrs: Vec<(String, String)>,
}

fn decode(bytes: &[u8]) -> Vec<Decoded> {
    let trace = Trace::parse_from_bytes(bytes).expect("flushed trace decodes");
    let mut names: HashMap<u64, String> = HashMap::new();
    let mut cats: HashMap<u64, String> = HashMap::new();
    let mut keys: HashMap<u64, String> = HashMap::new();
    let mut values: HashMap<u64, String> = HashMap::new();
    let mut out = Vec::new();
    for packet in trace.packet.iter() {
        if let Some(data) = packet.interned_data.as_ref() {
            for n in data.event_names.iter() {
                names.insert(n.iid(), n.name().to_string());
            }
            for c in data.event_categories.iter() {
                cats.insert(c.iid(), c.name().to_string());
            }
            for k in data.debug_annotation_names.iter() {
                keys.insert(k.iid(), k.name().to_string());
            }
            for v in data.debug_annotation_string_values.iter() {
                values.insert(v.iid(), String::from_utf8(v.str().to_vec()).unwrap());
            }
        }
        if packet.has_track_event() {
            let ev = packet.track_event();
            out.push(Decoded {
                kind: ev.type_(),
                track: ev.track_uuid(),
                name: names[&ev.name_iid()].clone(),
                flows: ev.flow_ids.clone(),
                categories: ev.category_iids.iter().map(|i| cats[i].clone()).collect(),
                attrs: ev
                    .debug_annotations
                    .iter()
                    .map(|a| (keys[&a.name_iid()].clone(), values[&a.string_value_iid()].clone()))
                    .collect(),
            });
        }
    }
    out
}

fn no_fields() -> Vec<(String, String)> {
    Vec::new()
}

fn open(tc: &mut TraceContext, span: u64, parent: Option<u64>, name: &str) -> (TrackId, SliceId) {
    let o: OpenedSpan = tc.on_new_span(span, parent, name, "INFO", "src/main.rs", 10, &no_fields()).unwrap();
    (o.track, o.slice)
}

#[test]
fn span_has_one_begin_and_one_end_on_one_track() {
    let mut tc = TraceContext::new();
    let (track, slice) = open(&mut tc, 1, None, "load");
    assert_eq!(tc.on_close(1), Ok(()));
    assert_eq!(tc.on_close(1), Err(MapError::UnknownSpan));
    let events = decode(&tc.flush().unwrap());
    assert_eq!(events.len(), 2);
    assert_eq!(events[0].kind, Type::TYPE_SLICE_BEGIN);
    assert_eq!(events[1].kind, Type::TYPE_SLICE_END);
    assert_eq!(events[0].track, track.0);
    assert_eq!(events[1].track, track.0);
    assert_eq!(events[0].name, "load");
    assert_eq!(events[1].name, "load");
    assert_eq!(events[0].flows, vec![slice.0]);
    assert_eq!(events[0].categories, vec!["INFO".to_string()]);
    assert!(events[1].flows.is_empty());
    assert!(events[1].categories.is_empty());
}

#[test]
fn first_ids_come_from_one_counter() {
    let mut tc = TraceContext::new();
    let (track, slice) = open(&mut tc, 7, None, "a");
    assert_eq!(track, TrackId(0));
    assert_eq!(slice, SliceId(1));
    let (track2, slice2) = open(&mut tc, 8, Some(7), "b");
    assert_eq!(track2, TrackId(0));
    assert_eq!(slice2, SliceId(2));
    assert_eq!(tc.next_id(), Some(3));
}

#[test]
fn same_thread_keeps_its_track() {
    let mut tc = TraceContext::new();
    let (thread, first) = tc.current_thread_track().unwrap();
    let (thread2, second) = tc.current_thread_track().unwrap();
    assert_eq!(thread, thread2);
    assert_eq!(first, second);
    let o = tc.on_new_span(9, None, "c", "INFO", "src/main.rs", 1, &no_fields()).unwrap();
    assert_eq!(o.thread, thread);
    assert_eq!(o.track, first);
    let (a, _) = open(&mut tc, 1, None, "a");
    let (b, _) = open(&mut tc, 2, None, "b");
    assert_eq!(a, first);
    assert_eq!(b, first);
}

#[test]
fn next_ids_strictly_increase() {
    let mut tc = TraceContext::new();
    let mut ids = Vec::new();
    for _ in 0..10 {
        ids.push(tc.next_id().unwrap());
    }
    assert_eq!(ids[0], 0);
    for i in 1..ids.len() {
        assert!(ids[i - 1] < ids[i]);
        assert_eq!(ids[i], ids[i - 1] + 1);
    }
}

#[test]
fn child_begin_carries_parent_slice() {
    let mut tc = TraceContext::new();
    let (_, outer) = open(&mut tc, 1, None, "outer");
    let (_, inner) = open(&mut tc, 2, Some(1), "inner");
    tc.on_close(2).unwrap();
    tc.on_close(1).unwrap();
    let events = decode(&tc.flush().unwrap());
    let inner_begin = events
        .iter()
        .find(|e| e.kind == Type::TYPE_SLICE_BEGIN && e.name == "inner")
        .unwrap();
    assert_eq!(inner_begin.flows, vec![inner.0, outer.0]);
    assert!(inner_begin.flows.contains(&outer.0));
}

#[test]
fn parent_without_record_adds_no_flow() {
    let mut tc = TraceContext::new();
    let (_, slice) = open(&mut tc, 2, Some(99), "orphan");
    let events = decode(&tc.flush().unwrap());
    assert_eq!(events[0].flows, vec![slice.0]);
}

#[test]
fn event_outside_any_span_is_dropped() {
    let mut tc = TraceContext::new();
    let r = tc.on_event(None, "note", "app", "INFO", "src/main.rs", 3, &no_fields());
    assert_eq!(r, Ok(false));
    let events = decode(&tc.flush().unwrap());
    assert!(events.is_empty());
}

#[test]
fn event_inside_span_is_an_instant_on_its_track() {
    let mut tc = TraceContext::new();
    let (track, _) = open(&mut tc, 1, None, "work");
    let fields = vec![("message".to_string(), "Starting work".to_string())];
    let r = tc.on_event(Some(1), "event src/main.rs:12", "basic", "INFO", "src/main.rs", 12, &fields);
    assert_eq!(r, Ok(true));
    let events = decode(&tc.flush().unwrap());
    assert_eq!(events.len(), 2);
    assert_eq!(events[1].kind, Type::TYPE_INSTANT);
    assert_eq!(events[1].track, track.0);
    assert_eq!(events[1].name, "event src/main.rs:12");
    assert_eq!(events[1].categories, vec!["basic".to_string(), "INFO".to_string()]);
    assert_eq!(events[1].attrs, fields);
    assert!(events[1].flows.is_empty());
}

#[test]
fn event_in_unknown_span_is_reported() {
    let mut tc = TraceContext::new();
    let r = tc.on_event(Some(5), "note", "app", "INFO", "src/main.rs", 3, &no_fields());
    assert_eq!(r, Err(MapError::UnknownSpan));
    assert!(decode(&tc.flush().unwrap()).is_empty());
}

#[test]
fn closing_unknown_span_is_reported() {
    let mut tc = TraceContext::new();
    assert_eq!(tc.on_close(3), Err(MapError::UnknownSpan));
}

#[test]
fn creating_a_live_span_again_is_reported() {
    let mut tc = TraceContext::new();
    open(&mut tc, 1, None, "a");
    let r = tc.on_new_span(1, None, "a", "INFO", "src/main.rs", 1, &no_fields());
    assert_eq!(r, Err(MapError::SpanAlreadyOpen));
    assert_eq!(tc.next_id(), Some(2));
    let events = decode(&tc.flush().unwrap());
    assert_eq!(events.len(), 1);
}

#[test]
fn work_span_with_task_field() {
    let mut tc = TraceContext::new();
    let fields = vec![("task".to_string(), "\"task_1\"".to_string())];
    let track = tc.on_new_span(1, None, "work", "INFO", "src/basic.rs", 10, &fields).unwrap().track;
    tc.on_close(1).unwrap();
    let events = decode(&tc.flush().unwrap());
    assert_eq!(events.len(), 2);
    assert_eq!(events[0].kind, Type::TYPE_SLICE_BEGIN);
    assert_eq!(events[0].name, "work");
    assert_eq!(events[1].kind, Type::TYPE_SLICE_END);
    assert_eq!(events[1].name, "work");
    assert_eq!(events[0].track, track.0);
    assert_eq!(events[1].track, track.0);
    assert_eq!(events[0].attrs, fields);
    assert!(events[1].attrs.is_empty());
}

#[test]
fn nested_phases_give_one_pair_per_span() {
    let mut tc = TraceContext::new();
    let (_, phase_1) = open(&mut tc, 1, None, "phase_1");
    let (_, init) = open(&mut tc, 2, Some(1), "initialization");
    tc.on_close(2).unwrap();
    let (_, fin) = open(&mut tc, 3, Some(1), "finalization");
    tc.on_close(3).unwrap();
    tc.on_close(1).unwrap();
    let (_, complex) = open(&mut tc, 4, None, "complex_operation");
    let (_, phase_2) = open(&mut tc, 5, Some(4), "phase_2");
    let (_, processing) = open(&mut tc, 6, Some(5), "processing");
    tc.on_close(6).unwrap();
    tc.on_close(5).unwrap();
    tc.on_close(4).unwrap();
    let events = decode(&tc.flush().unwrap());
    let names = ["phase_1", "initialization", "finalization", "complex_operation", "phase_2", "processing"];
    assert_eq!(events.len(), 2 * names.len());
    for name in names.iter() {
        let begins = events.iter().filter(|e| e.kind == Type::TYPE_SLICE_BEGIN && e.name == *name).count();
        let ends = events.iter().filter(|e| e.kind == Type::TYPE_SLICE_END && e.name == *name).count();
        assert_eq!((begins, ends), (1, 1));
    }
    let flows_of = |name: &str| {
        events.iter().find(|e| e.kind == Type::TYPE_SLICE_BEGIN && e.name == name).unwrap().flows.clone()
    };
    assert_eq!(flows_of("phase_1"), vec![phase_1.0]);
    assert_eq!(flows_of("initialization"), vec![init.0, phase_1.0]);
    assert_eq!(flows_of("finalization"), vec![fin.0, phase_1.0]);
    assert_eq!(flows_of("complex_operation"), vec![complex.0]);
    assert_eq!(flows_of("phase_2"), vec![phase_2.0, complex.0]);
    assert_eq!(flows_of("processing"), vec![processing.0, phase_2.0]);
    assert!(events.iter().all(|e| e.track == events[0].track));
}

#[test]
fn ids_convert_both_ways() {
    assert_eq!(TrackId::from(5u64), TrackId(5));
    assert_eq!(u64::from(SliceId(9)), 9);
    assert_eq!(SliceId::from(3u64).0, 3);
    assert_eq!(u64::from(TrackId(4)), 4);
}

#[test]
fn empty_session_flushes_to_a_trace_without_events() {
    let tc = TraceContext::new();
    let bytes = tc.flush().unwrap();
    assert!(!bytes.is_empty());
    assert!(decode(&bytes).is_empty());
}
