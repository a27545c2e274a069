use vstd::prelude::*;
use crate::model::{Phase, TrackEvent, attrs_view};
use perfetto_writer::Context;

verus! {

/// A perfetto context that encodes into memory. Verus cannot declare the
/// context type itself (its writer parameter is bound by `std::io::Write`), so
/// it is held here, opaque, and known only through the names below.
#[verifier::external_body]
pub struct Encoder {
    inner: Context<Vec<u8>>,
}

/// The track events that a context has recorded and not yet flushed, oldest first.
pub uninterp spec fn events_of(c: Encoder) -> Seq<TrackEvent>;

/// The thread-to-track table of a context.
pub uninterp spec fn thread_tracks_of(c: Encoder) -> Map<i32, u64>;

/// The protobuf encoding of the whole trace that a context holds: its first
/// packet, the interned-data and track-descriptor packets, and the track events
/// of `events_of`, in the order recorded.
pub uninterp spec fn encoded_of(c: Encoder) -> Seq<u8>;

/// The value that the context's id counter hands out next.
pub uninterp spec fn next_id_of(c: Encoder) -> u64;

/// Relies on `Context::new`: a fresh context has recorded no event, knows no
/// thread and starts its id counter at zero.
#[verifier::external_body]
pub(crate) fn new_context() -> (r: Encoder)
    ensures
        events_of(r) =~= Seq::empty(),
        thread_tracks_of(r) =~= Map::empty(),
        next_id_of(r) == 0,
{
    Encoder { inner: Context::new(Vec::new()) }
}

/// Relies on `Context::next_id`: returns the counter and adds one to it.
#[verifier::external_body]
pub(crate) fn take_next_id(c: &mut Encoder) -> (r: u64)
    requires
        next_id_of(*old(c)) < u64::MAX,
    ensures
        r == next_id_of(*old(c)),
        next_id_of(*final(c)) == r + 1,
        events_of(*final(c)) == events_of(*old(c)),
        thread_tracks_of(*final(c)) == thread_tracks_of(*old(c)),
{
    c.inner.next_id()
}

/// Relies on `perfetto_writer::current_thread` and
/// `Context::current_thread_track`: the first gives the calling thread's id,
/// by which the second keys its table. A thread found there keeps its track;
/// a thread seen for the first time gets the counter's value as a new track
/// (declared through `Context::track`), which is then entered in the table.
/// No track event is recorded.
#[verifier::external_body]
pub(crate) fn thread_track(c: &mut Encoder) -> (r: (i32, u64))
    requires
        next_id_of(*old(c)) < u64::MAX,
    ensures
        events_of(*final(c)) == events_of(*old(c)),
        thread_tracks_of(*final(c)).contains_key(r.0),
        thread_tracks_of(*final(c))[r.0] == r.1,
        thread_tracks_of(*old(c)).contains_key(r.0) ==> r.1 == thread_tracks_of(*old(c))[r.0]
            && thread_tracks_of(*final(c)) == thread_tracks_of(*old(c)) && next_id_of(*final(c))
            == next_id_of(*old(c)),
        !thread_tracks_of(*old(c)).contains_key(r.0) ==> r.1 == next_id_of(*old(c))
            && thread_tracks_of(*final(c)) == thread_tracks_of(*old(c)).insert(r.0, r.1)
            && next_id_of(*final(c)) == r.1 + 1,
{
    (perfetto_writer::current_thread(), c.inner.current_thread_track())
}

/// Relies on `EventBuilder` of perfetto-writer: `with_begin`, `with_track_uuid`,
/// `with_source_location`, `with_category`, `with_name`, one `flow_id` per flow
/// and one `debug_str` per attribute, in order, then `build`, which records the
/// event.
#[verifier::external_body]
pub(crate) fn emit_begin(
    c: &mut Encoder,
    track: u64,
    file: &str,
    line: u32,
    category: &str,
    name: &str,
    flows: &Vec<u64>,
    attrs: &Vec<(String, String)>,
)
    ensures
        events_of(*final(c)) == events_of(*old(c)).push(
            TrackEvent {
                phase: Phase::Begin,
                track,
                name: name@,
                categories: seq![category@],
                location: Some((file@, line)),
                flows: flows@,
                attrs: attrs_view(attrs@),
            },
        ),
        thread_tracks_of(*final(c)) == thread_tracks_of(*old(c)),
        next_id_of(*final(c)) == next_id_of(*old(c)),
{
    let mut ev = c.inner.event().with_begin().with_track_uuid(track)
        .with_source_location(file, line).with_now().with_category(category).with_name(name);
    for f in flows.iter() {
        ev.flow_id(*f);
    }
    for (k, v) in attrs.iter() {
        ev.debug_str(k.as_str(), v.as_str());
    }
    ev.build();
}

/// Relies on `EventBuilder` of perfetto-writer: `with_end`, `with_track_uuid`
/// and `with_name`, then `build`, which records the event.
#[verifier::external_body]
pub(crate) fn emit_end(c: &mut Encoder, track: u64, name: &str)
    ensures
        events_of(*final(c)) == events_of(*old(c)).push(
            TrackEvent {
                phase: Phase::End,
                track,
                name: name@,
                categories: Seq::empty(),
                location: None,
                flows: Seq::empty(),
                attrs: Seq::empty(),
            },
        ),
        thread_tracks_of(*final(c)) == thread_tracks_of(*old(c)),
        next_id_of(*final(c)) == next_id_of(*old(c)),
{
    c.inner.event().with_end().with_now().with_track_uuid(track).with_name(name).build();
}

/// Relies on `EventBuilder` of perfetto-writer: `with_instant`,
/// `with_track_uuid`, `with_category` twice (target, then level),
/// `with_source_location`, `with_name` and one `debug_str` per attribute, then
/// `build`, which records the event.
#[verifier::external_body]
pub(crate) fn emit_instant(
    c: &mut Encoder,
    track: u64,
    target: &str,
    level: &str,
    file: &str,
    line: u32,
    name: &str,
    attrs: &Vec<(String, String)>,
)
    ensures
        events_of(*final(c)) == events_of(*old(c)).push(
            TrackEvent {
                phase: Phase::Instant,
                track,
                name: name@,
                categories: seq![target@, level@],
                location: Some((file@, line)),
                flows: Seq::empty(),
                attrs: attrs_view(attrs@),
            },
        ),
        thread_tracks_of(*final(c)) == thread_tracks_of(*old(c)),
        next_id_of(*final(c)) == next_id_of(*old(c)),
{
    let mut ev = c.inner.event().with_instant().with_now().with_track_uuid(track)
        .with_category(target).with_source_location(file, line).with_category(level).with_name(name);
    for (k, v) in attrs.iter() {
        ev.debug_str(k.as_str(), v.as_str());
    }
    ev.build();
}

/// Relies on `Context::flush`, then `Context::into_inner`: the first encodes
/// the whole trace (its first packet, which `Context::new` records, and every
/// packet since) into the in-memory writer, and fails only where the encoding
/// passes protobuf's message size limit; the second hands the writer back.
/// After a successful flush nothing is pending, so the flush inside
/// `into_inner` cannot fail.
#[verifier::external_body]
pub(crate) fn encode_trace(c: Encoder) -> (r: Result<Vec<u8>, ()>)
    ensures
        encoded_of(c).len() <= 0x7fff_ffff ==> r is Ok,
        r matches Ok(b) ==> b@ == encoded_of(c),
        r matches Ok(b) ==> b@.len() > 0,
{
    let mut inner = c.inner;
    inner.flush().map_err(|_| ())?;
    Ok(inner.into_inner())
}

} // verus!
