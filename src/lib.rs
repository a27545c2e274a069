//! Maps span and point-event notifications onto perfetto trace packets.
mod context;
mod ids;
mod laws;
mod model;
mod writer;

pub use ids::{SliceId, TrackId};
pub use model::{Phase, TrackEvent, attrs_view};
pub use context::{
    FlushError, MapError, OpenedSpan, SpanRecord, SpanView, TraceContext, assigns_track, begin_event,
    begins_fresh, closes_span, end_event, hands_out, instant_event, maps_event, opens_span, parent_slice,
    resolves_track, unchanged,
};
pub use laws::{
    lemma_begin_end_pair, lemma_begin_unique, lemma_slice_fresh, lemma_slices_increase, lemma_child_begin_links_parent, lemma_distinct_threads_distinct_tracks,
    lemma_ids_strictly_increase, lemma_live_record_kept, lemma_same_thread_same_track,
    lemma_track_table_grows,
};
