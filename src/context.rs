use vstd::prelude::*;
use std::collections::HashMap;
use crate::ids::{SliceId, TrackId};
use crate::model::{Phase, TrackEvent, attrs_view};
use crate::writer::{
    Encoder, emit_begin, emit_end, emit_instant, encode_trace, encoded_of, events_of, new_context,
    next_id_of, take_next_id, thread_track, thread_tracks_of,
};

verus! {

broadcast use vstd::std_specs::hash::group_hash_axioms;

/// What the mapper keeps of a live span.
pub struct SpanRecord {
    pub track: TrackId,
    pub slice: SliceId,
    pub name: String,
}

/// The model of a span record.
pub ghost struct SpanView {
    pub track: u64,
    pub slice: u64,
    pub name: Seq<char>,
}

impl View for SpanRecord {
    type V = SpanView;

    open spec fn view(&self) -> SpanView {
        SpanView { track: self.track.0, slice: self.slice.0, name: self.name@ }
    }
}

/// Why a notification could not be mapped.
#[derive(PartialEq, Eq, Structural, Clone, Copy, Debug)]
pub enum MapError {
    /// The id counter cannot hand out the ids that the notification needs.
    IdsExhausted,
    /// A span was created under an id that is still live.
    SpanAlreadyOpen,
    /// The mapper holds no record of the span: the callbacks came out of order.
    UnknownSpan,
}

/// What creating a span handed out: the calling thread, its track and the
/// span's slice.
#[derive(PartialEq, Eq, Structural, Clone, Copy, Debug)]
pub struct OpenedSpan {
    pub thread: i32,
    pub track: TrackId,
    pub slice: SliceId,
}

/// Why the trace could not be written out.
#[derive(PartialEq, Eq, Structural, Clone, Copy, Debug)]
pub enum FlushError {
    Encoding,
}

/// The shared state of one trace session: the encoder (with its id counter
/// and thread-to-track table) and the side table of live spans.
pub struct TraceContext {
    encoder: Encoder,
    issued: u64,
    spans: HashMap<u64, SpanRecord>,
}

/// The begin event of a span with track `track` and slice `slice`; `parent`
/// is the parent's slice where it was known.
pub open spec fn begin_event(
    track: u64,
    slice: u64,
    parent: Option<u64>,
    name: Seq<char>,
    level: Seq<char>,
    file: Seq<char>,
    line: u32,
    attrs: Seq<(Seq<char>, Seq<char>)>,
) -> TrackEvent {
    TrackEvent {
        phase: Phase::Begin,
        track,
        name,
        categories: seq![level],
        location: Some((file, line)),
        flows: match parent {
            Some(p) => seq![slice, p],
            None => seq![slice],
        },
        attrs,
    }
}

/// The end event of a span.
pub open spec fn end_event(track: u64, name: Seq<char>) -> TrackEvent {
    TrackEvent {
        phase: Phase::End,
        track,
        name,
        categories: Seq::empty(),
        location: None,
        flows: Seq::empty(),
        attrs: Seq::empty(),
    }
}

/// The instant event of a point event inside a span on track `track`.
pub open spec fn instant_event(
    track: u64,
    name: Seq<char>,
    target: Seq<char>,
    level: Seq<char>,
    file: Seq<char>,
    line: u32,
    attrs: Seq<(Seq<char>, Seq<char>)>,
) -> TrackEvent {
    TrackEvent {
        phase: Phase::Instant,
        track,
        name,
        categories: seq![target, level],
        location: Some((file, line)),
        flows: Seq::empty(),
        attrs,
    }
}

/// `track` is the track of thread `thread`, taking the thread table from
/// `pre` to `post` and the counter from `pre_next` to `post_next`: either the
/// thread was known and nothing changed, or it is entered with the counter's
/// value.
pub open spec fn assigns_track(
    pre: Map<i32, u64>,
    pre_next: u64,
    post: Map<i32, u64>,
    post_next: u64,
    thread: i32,
    track: u64,
) -> bool {
    ||| pre.contains_key(thread) && track == pre[thread] && post == pre && post_next == pre_next
    ||| !pre.contains_key(thread) && track == pre_next && post == pre.insert(thread, track)
        && post_next == pre_next + 1
}

/// `track` is the track of the calling thread `thread`, resolved between `pre`
/// and `post`.
pub open spec fn resolves_track(pre: TraceContext, post: TraceContext, thread: i32, track: u64) -> bool {
    assigns_track(pre.tracks(), pre.next_id_value(), post.tracks(), post.next_id_value(), thread, track)
}

/// Every begin event in `events` carries its slice as first flow id, below
/// `next`, and no two begin events carry the same slice.
pub open spec fn begins_fresh(events: Seq<TrackEvent>, next: u64) -> bool {
    &&& forall|i: int|
        0 <= i < events.len() && (#[trigger] events[i]).phase == Phase::Begin ==> events[i].flows.len()
            > 0 && events[i].flows[0] < next
    &&& forall|i: int, j: int|
        0 <= i < events.len() && 0 <= j < events.len() && i != j && (#[trigger] events[i]).phase
            == Phase::Begin && (#[trigger] events[j]).phase == Phase::Begin ==> events[i].flows[0]
            != events[j].flows[0]
}

/// `next_id` handed out `id` between `pre` and `post`.
pub open spec fn hands_out(pre: TraceContext, post: TraceContext, id: u64) -> bool {
    id == pre.next_id_value() && post.next_id_value() == pre.next_id_value() + 1
}

/// The parent's slice, where the parent is live.
pub open spec fn parent_slice(pre: TraceContext, parent: Option<u64>) -> Option<u64> {
    match parent {
        Some(p) => if pre.spans().contains_key(p) {
            Some(pre.spans()[p].slice)
        } else {
            None
        },
        None => None,
    }
}

/// Creating span `span` on thread `thread` took `pre` to `post`: the
/// thread's track `track` was resolved, the next id became the slice `slice`, the span's
/// record was entered and its begin event recorded.
pub open spec fn opens_span(
    pre: TraceContext,
    post: TraceContext,
    span: u64,
    parent: Option<u64>,
    name: Seq<char>,
    level: Seq<char>,
    file: Seq<char>,
    line: u32,
    attrs: Seq<(Seq<char>, Seq<char>)>,
    thread: i32,
    track: u64,
    slice: u64,
) -> bool {
    &&& !pre.spans().contains_key(span)
    &&& assigns_track(pre.tracks(), pre.next_id_value(), post.tracks(), slice, thread, track)
    &&& post.next_id_value() == slice + 1
    &&& post.spans() == pre.spans().insert(span, SpanView { track, slice, name })
    &&& post.events() == pre.events().push(
        begin_event(track, slice, parent_slice(pre, parent), name, level, file, line, attrs),
    )
}

/// Closing span `span` took `pre` to `post`: its record was removed and its
/// end event recorded on its track, under its name.
pub open spec fn closes_span(pre: TraceContext, post: TraceContext, span: u64) -> bool {
    &&& pre.spans().contains_key(span)
    &&& post.spans() == pre.spans().remove(span)
    &&& post.events() == pre.events().push(
        end_event(pre.spans()[span].track, pre.spans()[span].name),
    )
    &&& post.tracks() == pre.tracks()
    &&& post.next_id_value() == pre.next_id_value()
}

/// A point event inside live span `span` took `pre` to `post` and gave `r`:
/// `event` (whose track is not looked at) was recorded on the span's track.
/// A span with no record gives `UnknownSpan` and changes nothing.
pub open spec fn maps_event(
    pre: TraceContext,
    post: TraceContext,
    span: u64,
    r: Result<bool, MapError>,
    event: TrackEvent,
) -> bool {
    if pre.spans().contains_key(span) {
        &&& r == Ok::<bool, MapError>(true)
        &&& post.events() == pre.events().push(
            TrackEvent { track: pre.spans()[span].track, ..event },
        )
        &&& post.spans() == pre.spans()
        &&& post.tracks() == pre.tracks()
        &&& post.next_id_value() == pre.next_id_value()
    } else {
        r == Err::<bool, MapError>(MapError::UnknownSpan) && unchanged(pre, post)
    }
}

/// `post` is `pre` with the same events, tracks, counter and live spans.
pub open spec fn unchanged(pre: TraceContext, post: TraceContext) -> bool {
    &&& post.events() == pre.events()
    &&& post.tracks() == pre.tracks()
    &&& post.next_id_value() == pre.next_id_value()
    &&& post.spans() == pre.spans()
}

impl TraceContext {
    /// The track events recorded and not yet flushed, oldest first.
    pub closed spec fn events(self) -> Seq<TrackEvent> {
        events_of(self.encoder)
    }

    /// The thread-to-track table.
    pub closed spec fn tracks(self) -> Map<i32, u64> {
        thread_tracks_of(self.encoder)
    }

    /// The encoding of the whole trace recorded so far.
    pub closed spec fn encoded(self) -> Seq<u8> {
        encoded_of(self.encoder)
    }

    /// The id that the counter hands out next.
    pub closed spec fn next_id_value(self) -> u64 {
        next_id_of(self.encoder)
    }

    /// The records of the live spans, by span id.
    pub closed spec fn spans(self) -> Map<u64, SpanView> {
        self.spans@.map_values(|r: SpanRecord| r@)
    }

    /// Every track was handed out by the counter, and no two threads share one.
    pub closed spec fn wf(self) -> bool {
        &&& self.issued == next_id_of(self.encoder)
        &&& forall|t: i32| #[trigger]
            self.tracks().contains_key(t) ==> self.tracks()[t] < self.next_id_value()
        &&& forall|t1: i32, t2: i32|
            #![trigger self.tracks()[t1], self.tracks()[t2]]
            self.tracks().contains_key(t1) && self.tracks().contains_key(t2) && t1 != t2
                ==> self.tracks()[t1] != self.tracks()[t2]
        &&& begins_fresh(self.events(), self.next_id_value())
    }

    /// Every track of a well-formed context was handed out by the counter.
    pub proof fn lemma_tracks_below_counter(self)
        requires
            self.wf(),
        ensures
            forall|t: i32| #[trigger]
                self.tracks().contains_key(t) ==> self.tracks()[t] < self.next_id_value(),
    {
    }

    /// The begin events of a well-formed context carry distinct slices, all
    /// handed out by the counter.
    pub proof fn lemma_begins_fresh(self)
        requires
            self.wf(),
        ensures
            begins_fresh(self.events(), self.next_id_value()),
    {
    }

    /// No two threads of a well-formed context share a track.
    pub proof fn lemma_tracks_injective(self, t1: i32, t2: i32)
        requires
            self.wf(),
            self.tracks().contains_key(t1),
            self.tracks().contains_key(t2),
            t1 != t2,
        ensures
            self.tracks()[t1] != self.tracks()[t2],
    {
    }

    /// A new, empty trace session.
    pub fn new() -> (r: TraceContext)
        ensures
            r.wf(),
            r.events() =~= Seq::empty(),
            r.tracks() =~= Map::empty(),
            r.spans() =~= Map::empty(),
            r.next_id_value() == 0,
    {
        let r = TraceContext { encoder: new_context(), issued: 0, spans: HashMap::new() };
        assert(r.spans() =~= Map::empty());
        r
    }

    /// Hands out a fresh id, greater than every id handed out before; `None`
    /// once the counter is exhausted.
    pub fn next_id(&mut self) -> (r: Option<u64>)
        requires
            old(self).wf(),
        ensures
            final(self).wf(),
            final(self).events() == old(self).events(),
            final(self).tracks() == old(self).tracks(),
            final(self).spans() == old(self).spans(),
            old(self).next_id_value() < u64::MAX ==> r is Some,
            r matches Some(id) ==> hands_out(*old(self), *final(self), id),
            old(self).next_id_value() == u64::MAX ==> r is None && final(self).next_id_value()
                == old(self).next_id_value(),
    {
        if self.issued == u64::MAX {
            return None;
        }
        let id = take_next_id(&mut self.encoder);
        self.issued = id + 1;
        assert(self.tracks() == old(self).tracks());
        Some(id)
    }

    /// The calling thread's id and track: the table entry of that thread,
    /// allocated from the counter on the thread's first call and the same on
    /// every later one. `None` once the counter is exhausted.
    pub fn current_thread_track(&mut self) -> (r: Option<(i32, TrackId)>)
        requires
            old(self).wf(),
        ensures
            final(self).wf(),
            final(self).events() == old(self).events(),
            final(self).spans() == old(self).spans(),
            r is None <==> old(self).next_id_value() == u64::MAX,
            r is None ==> final(self).tracks() == old(self).tracks()
                && final(self).next_id_value() == old(self).next_id_value(),
            r matches Some(p) ==> resolves_track(*old(self), *final(self), p.0, p.1.0),
            r matches Some(p) ==> final(self).tracks().contains_key(p.0) && final(self).tracks()[p.0]
                == p.1.0,
    {
        if self.issued == u64::MAX {
            return None;
        }
        let (thread, track) = thread_track(&mut self.encoder);
        // A known thread's track is below the counter; a new one is the counter.
        if track == self.issued {
            self.issued = self.issued + 1;
        }
        proof {
            if old(self).tracks().contains_key(thread) {
                assert(old(self).tracks()[thread] < old(self).next_id_value());
            }
        }
        Some((thread, TrackId(track)))
    }

    /// Maps the creation of span `span` (with `parent`, where the host names
    /// one): resolves the thread's track, takes a fresh slice id, records both
    /// with the span's name, and records a begin event that carries the slice
    /// as a flow id, then the parent's slice if the parent is live.
    pub fn on_new_span(
        &mut self,
        span: u64,
        parent: Option<u64>,
        name: &str,
        level: &str,
        file: &str,
        line: u32,
        fields: &Vec<(String, String)>,
    ) -> (r: Result<OpenedSpan, MapError>)
        requires
            old(self).wf(),
        ensures
            final(self).wf(),
            old(self).spans().contains_key(span) ==> r matches Err(MapError::SpanAlreadyOpen),
            !old(self).spans().contains_key(span) && old(self).next_id_value() > u64::MAX - 2
                ==> r matches Err(MapError::IdsExhausted),
            !old(self).spans().contains_key(span) && old(self).next_id_value() <= u64::MAX - 2
                ==> r is Ok,
            r is Err ==> unchanged(*old(self), *final(self)),
            r matches Ok(o) ==> opens_span(
                *old(self),
                *final(self),
                span,
                parent,
                name@,
                level@,
                file@,
                line,
                attrs_view(fields@),
                o.thread,
                o.track.0,
                o.slice.0,
            ),
            r matches Ok(o) ==> final(self).tracks().contains_key(o.thread) && final(self).tracks()[o.thread]
                == o.track.0,
    {
        if self.spans.contains_key(&span) {
            return Err(MapError::SpanAlreadyOpen);
        }
        if self.issued > u64::MAX - 2 {
            return Err(MapError::IdsExhausted);
        }
        let ghost pre = *self;
        let (thread, track) = match self.current_thread_track() {
            Some(p) => p,
            None => {
                proof {
                    assert(false);
                }
                return Err(MapError::IdsExhausted);
            },
        };
        let ghost mid = *self;
        let slice = match self.next_id() {
            Some(s) => s,
            None => {
                proof {
                    assert(false);
                }
                return Err(MapError::IdsExhausted);
            },
        };
        let mut flows: Vec<u64> = Vec::new();
        flows.push(slice);
        if let Some(p) = parent {
            if let Some(rec) = self.spans.get(&p) {
                flows.push(rec.slice.0);
            }
        }
        assert(flows@ == begin_event(
            track.0,
            slice,
            parent_slice(pre, parent),
            name@,
            level@,
            file@,
            line,
            attrs_view(fields@),
        ).flows);
        emit_begin(&mut self.encoder, track.0, file, line, level, name, &flows, fields);
        let record = SpanRecord { track, slice: SliceId(slice), name: name.to_owned() };
        self.spans.insert(span, record);
        assert(self.spans() =~= pre.spans().insert(span, SpanView { track: track.0, slice, name: name@ }));
        assert(self.tracks() == mid.tracks());
        Ok(OpenedSpan { thread, track, slice: SliceId(slice) })
    }

    /// Maps the closing of span `span`: records the end event on the span's
    /// track under its name and drops its record. A span with no record is a
    /// broken callback order and is reported as `UnknownSpan`.
    pub fn on_close(&mut self, span: u64) -> (r: Result<(), MapError>)
        requires
            old(self).wf(),
        ensures
            final(self).wf(),
            !old(self).spans().contains_key(span) ==> (r matches Err(MapError::UnknownSpan))
                && unchanged(*old(self), *final(self)),
            old(self).spans().contains_key(span) ==> r is Ok && closes_span(
                *old(self),
                *final(self),
                span,
            ),
    {
        let ghost pre = *self;
        match self.spans.get(&span) {
            None => Err(MapError::UnknownSpan),
            Some(rec) => {
                emit_end(&mut self.encoder, rec.track.0, rec.name.as_str());
                self.spans.remove(&span);
                assert(self.spans() =~= pre.spans().remove(span));
                assert(self.tracks() == pre.tracks());
                Ok(())
            },
        }
    }

    /// Maps a point event. `span` is the innermost live span around it, as the
    /// host reports it; with none the event is dropped and `Ok(false)` comes
    /// back. Otherwise an instant event is recorded on that span's track and
    /// `Ok(true)` comes back; a span with no record is `UnknownSpan`.
    pub fn on_event(
        &mut self,
        span: Option<u64>,
        name: &str,
        target: &str,
        level: &str,
        file: &str,
        line: u32,
        fields: &Vec<(String, String)>,
    ) -> (r: Result<bool, MapError>)
        requires
            old(self).wf(),
        ensures
            final(self).wf(),
            span is None ==> r == Ok::<bool, MapError>(false) && unchanged(*old(self), *final(self)),
            span matches Some(s) ==> maps_event(
                *old(self),
                *final(self),
                s,
                r,
                instant_event(0, name@, target@, level@, file@, line, attrs_view(fields@)),
            ),
    {
        let ghost pre = *self;
        let s = match span {
            None => return Ok(false),
            Some(s) => s,
        };
        match self.spans.get(&s) {
            None => Err(MapError::UnknownSpan),
            Some(rec) => {
                emit_instant(&mut self.encoder, rec.track.0, target, level, file, line, name, fields);
                assert(self.tracks() == pre.tracks());
                Ok(true)
            },
        }
    }

    /// Encodes the whole trace recorded so far and hands back the bytes. This
    /// ends the session: the context is consumed. A failure (an encoding past
    /// protobuf's 2 GiB message limit) is not retryable: perfetto-writer's
    /// `Context::flush` moves the recorded packets out before it writes them and
    /// offers no call that leaves them in place, so after an error the packets
    /// are gone rather than kept for another attempt.
    pub fn flush(self) -> (r: Result<Vec<u8>, FlushError>)
        ensures
            self.encoded().len() <= 0x7fff_ffff ==> r is Ok,
            r matches Ok(b) ==> b@ == self.encoded(),
            r matches Ok(b) ==> b@.len() > 0,
            r is Err ==> self.encoded().len() > 0x7fff_ffff,
    {
        match encode_trace(self.encoder) {
            Ok(bytes) => Ok(bytes),
            Err(()) => Err(FlushError::Encoding),
        }
    }
}

} // verus!
