use vstd::prelude::*;
use crate::context::{
    TraceContext, assigns_track, begins_fresh, closes_span, end_event, hands_out, maps_event,
    opens_span,
};
use crate::model::{Phase, TrackEvent};

verus! {

/// A live span keeps its record through the creation of another span, the
/// closing of another span and any point event.
pub proof fn lemma_live_record_kept(
    pre: TraceContext,
    post: TraceContext,
    span: u64,
    other: u64,
    parent: Option<u64>,
    name: Seq<char>,
    level: Seq<char>,
    file: Seq<char>,
    line: u32,
    attrs: Seq<(Seq<char>, Seq<char>)>,
    thread: i32,
    track: u64,
    slice: u64,
    r: Result<bool, crate::context::MapError>,
    event: TrackEvent,
)
    requires
        pre.spans().contains_key(span),
        opens_span(pre, post, other, parent, name, level, file, line, attrs, thread, track, slice)
            || (closes_span(pre, post, other) && other != span) || maps_event(
            pre,
            post,
            other,
            r,
            event,
        ),
    ensures
        post.spans().contains_key(span),
        post.spans()[span] == pre.spans()[span],
{
    if opens_span(pre, post, other, parent, name, level, file, line, attrs, thread, track, slice) {
        assert(other != span);
    }
}

/// A span that was created and later closed has exactly one begin and one end
/// event, on the same track and under the same name: creation records the
/// begin, closing (while the span still holds the record its creation made)
/// records the end, and afterwards the span has no record, so it cannot be
/// closed again.
pub proof fn lemma_begin_end_pair(
    s0: TraceContext,
    s1: TraceContext,
    s2: TraceContext,
    s3: TraceContext,
    span: u64,
    parent: Option<u64>,
    name: Seq<char>,
    level: Seq<char>,
    file: Seq<char>,
    line: u32,
    attrs: Seq<(Seq<char>, Seq<char>)>,
    thread: i32,
    track: u64,
    slice: u64,
)
    requires
        opens_span(s0, s1, span, parent, name, level, file, line, attrs, thread, track, slice),
        s2.spans().contains_key(span),
        s2.spans()[span] == s1.spans()[span],
        closes_span(s2, s3, span),
    ensures
        s1.events().len() == s0.events().len() + 1,
        s1.events().last().phase == Phase::Begin,
        s1.events().last().track == track,
        s1.events().last().name == name,
        s3.events() == s2.events().push(end_event(track, name)),
        s3.events().last().phase == Phase::End,
        !s0.spans().contains_key(span),
        !s3.spans().contains_key(span),
{
    assert(s1.spans()[span].track == track);
}

/// Resolving a thread's track only adds an entry to the thread table, and the
/// track handed out is that thread's entry.
pub proof fn lemma_track_table_grows(
    pre: Map<i32, u64>,
    pre_next: u64,
    post: Map<i32, u64>,
    post_next: u64,
    thread: i32,
    track: u64,
)
    requires
        assigns_track(pre, pre_next, post, post_next, thread, track),
    ensures
        pre.submap_of(post),
        post.contains_key(thread),
        post[thread] == track,
{
}

/// Two resolutions of the track of one thread give the same track, when the
/// thread table only grew between them (as every operation of the context
/// lets it).
pub proof fn lemma_same_thread_same_track(
    thread: i32,
    pre1: Map<i32, u64>,
    next1: u64,
    post1: Map<i32, u64>,
    after1: u64,
    track1: u64,
    pre2: Map<i32, u64>,
    next2: u64,
    post2: Map<i32, u64>,
    after2: u64,
    track2: u64,
)
    requires
        assigns_track(pre1, next1, post1, after1, thread, track1),
        post1.submap_of(pre2),
        assigns_track(pre2, next2, post2, after2, thread, track2),
    ensures
        track1 == track2,
{
    assert(post1.dom().contains(thread));
    assert(pre2.dom().contains(thread));
}

/// Two distinct threads never get the same track: the tracks resolved for
/// them both stay in the table of a later well-formed context, where no two
/// threads share a track.
pub proof fn lemma_distinct_threads_distinct_tracks(
    c: TraceContext,
    thread1: i32,
    pre1: Map<i32, u64>,
    next1: u64,
    post1: Map<i32, u64>,
    after1: u64,
    track1: u64,
    thread2: i32,
    pre2: Map<i32, u64>,
    next2: u64,
    post2: Map<i32, u64>,
    after2: u64,
    track2: u64,
)
    requires
        c.wf(),
        assigns_track(pre1, next1, post1, after1, thread1, track1),
        post1.submap_of(c.tracks()),
        assigns_track(pre2, next2, post2, after2, thread2, track2),
        post2.submap_of(c.tracks()),
        thread1 != thread2,
    ensures
        track1 != track2,
{
    assert(post1.dom().contains(thread1));
    assert(c.tracks().dom().contains(thread1));
    assert(post2.dom().contains(thread2));
    assert(c.tracks().dom().contains(thread2));
    c.lemma_tracks_injective(thread1, thread2);
}

/// Ids handed out by successive calls of `next_id` strictly increase, so no
/// two of them are equal.
pub proof fn lemma_ids_strictly_increase(states: Seq<TraceContext>, ids: Seq<u64>)
    requires
        states.len() == ids.len() + 1,
        forall|i: int| 0 <= i < ids.len() ==> #[trigger] hands_out(states[i], states[i + 1], ids[i]),
    ensures
        forall|i: int, j: int| 0 <= i < j < ids.len() ==> ids[i] < ids[j],
{
    assert forall|i: int| 0 <= i < ids.len() implies #[trigger] ids[i] == states[0].next_id_value()
        + i by {
        lemma_counter_after(states, ids, i);
    }
}

proof fn lemma_counter_after(states: Seq<TraceContext>, ids: Seq<u64>, i: int)
    requires
        states.len() == ids.len() + 1,
        forall|i: int| 0 <= i < ids.len() ==> #[trigger] hands_out(states[i], states[i + 1], ids[i]),
        0 <= i <= ids.len(),
    ensures
        states[i].next_id_value() == states[0].next_id_value() + i,
        i < ids.len() ==> ids[i] == states[0].next_id_value() + i,
    decreases i,
{
    if i > 0 {
        lemma_counter_after(states, ids, i - 1);
        assert(hands_out(states[i - 1], states[(i - 1) + 1], ids[i - 1]));
    }
    if i < ids.len() {
        assert(hands_out(states[i], states[i + 1], ids[i]));
    }
}

/// A span created while its parent is live carries the parent's slice among
/// the flow ids of its begin event.
pub proof fn lemma_child_begin_links_parent(
    s0: TraceContext,
    s1: TraceContext,
    s2: TraceContext,
    s3: TraceContext,
    outer: u64,
    inner: u64,
    outer_name: Seq<char>,
    inner_name: Seq<char>,
    level: Seq<char>,
    file: Seq<char>,
    line: u32,
    outer_attrs: Seq<(Seq<char>, Seq<char>)>,
    inner_attrs: Seq<(Seq<char>, Seq<char>)>,
    outer_parent: Option<u64>,
    outer_thread: i32,
    outer_track: u64,
    outer_slice: u64,
    inner_thread: i32,
    inner_track: u64,
    inner_slice: u64,
)
    requires
        opens_span(
            s0,
            s1,
            outer,
            outer_parent,
            outer_name,
            level,
            file,
            line,
            outer_attrs,
            outer_thread,
            outer_track,
            outer_slice,
        ),
        s2.spans().contains_key(outer),
        s2.spans()[outer] == s1.spans()[outer],
        opens_span(
            s2,
            s3,
            inner,
            Some(outer),
            inner_name,
            level,
            file,
            line,
            inner_attrs,
            inner_thread,
            inner_track,
            inner_slice,
        ),
    ensures
        s3.events().last().phase == Phase::Begin,
        s3.events().last().flows == seq![inner_slice, outer_slice],
        s3.events().last().flows.contains(outer_slice),
{
    assert(s1.spans()[outer].slice == outer_slice);
    assert(s3.events().last().flows[1] == outer_slice);
}

/// The slice that creating a span hands out is fresh: it is at least the old
/// counter, the counter ends just above it, and it is no thread's track.
pub proof fn lemma_slice_fresh(
    s0: TraceContext,
    s1: TraceContext,
    span: u64,
    parent: Option<u64>,
    name: Seq<char>,
    level: Seq<char>,
    file: Seq<char>,
    line: u32,
    attrs: Seq<(Seq<char>, Seq<char>)>,
    thread: i32,
    track: u64,
    slice: u64,
)
    requires
        s0.wf(),
        opens_span(s0, s1, span, parent, name, level, file, line, attrs, thread, track, slice),
    ensures
        slice >= s0.next_id_value(),
        s1.next_id_value() == slice + 1,
        forall|t: i32| #[trigger] s1.tracks().contains_key(t) ==> s1.tracks()[t] != slice,
{
    s0.lemma_tracks_below_counter();
}

/// Slices handed out by two span creations, the second made when the counter
/// has not gone below where the first left it, strictly increase.
pub proof fn lemma_slices_increase(
    s0: TraceContext,
    s1: TraceContext,
    s2: TraceContext,
    s3: TraceContext,
    span_a: u64,
    parent_a: Option<u64>,
    name_a: Seq<char>,
    attrs_a: Seq<(Seq<char>, Seq<char>)>,
    thread_a: i32,
    track_a: u64,
    slice_a: u64,
    span_b: u64,
    parent_b: Option<u64>,
    name_b: Seq<char>,
    attrs_b: Seq<(Seq<char>, Seq<char>)>,
    thread_b: i32,
    track_b: u64,
    slice_b: u64,
    level: Seq<char>,
    file: Seq<char>,
    line: u32,
)
    requires
        opens_span(s0, s1, span_a, parent_a, name_a, level, file, line, attrs_a, thread_a, track_a, slice_a),
        s1.next_id_value() <= s2.next_id_value(),
        opens_span(s2, s3, span_b, parent_b, name_b, level, file, line, attrs_b, thread_b, track_b, slice_b),
    ensures
        slice_a < slice_b,
{
}

/// After a span's creation, its begin event is the only begin event that
/// carries its slice first, in that state and in every later well-formed state
/// whose events extend it.
pub proof fn lemma_begin_unique(
    s0: TraceContext,
    s1: TraceContext,
    later: TraceContext,
    span: u64,
    parent: Option<u64>,
    name: Seq<char>,
    level: Seq<char>,
    file: Seq<char>,
    line: u32,
    attrs: Seq<(Seq<char>, Seq<char>)>,
    thread: i32,
    track: u64,
    slice: u64,
)
    requires
        opens_span(s0, s1, span, parent, name, level, file, line, attrs, thread, track, slice),
        later.wf(),
        s1.events().len() <= later.events().len(),
        later.events().subrange(0, s1.events().len() as int) == s1.events(),
    ensures
        later.events()[s1.events().len() - 1].phase == Phase::Begin,
        later.events()[s1.events().len() - 1].flows[0] == slice,
        forall|i: int|
            0 <= i < later.events().len() && (#[trigger] later.events()[i]).phase == Phase::Begin
                && later.events()[i].flows[0] == slice ==> i == s1.events().len() - 1,
{
    let k = s1.events().len() - 1;
    assert(later.events()[k] == later.events().subrange(0, s1.events().len() as int)[k]);
    later.lemma_begins_fresh();
    assert(begins_fresh(later.events(), later.next_id_value()));
    assert forall|i: int|
        0 <= i < later.events().len() && (#[trigger] later.events()[i]).phase == Phase::Begin
            && later.events()[i].flows[0] == slice implies i == k by {
        if i != k {
            assert(later.events()[k].phase == Phase::Begin);
        }
    }
}

} // verus!
