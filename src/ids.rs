use vstd::prelude::*;

verus! {

/// The id of a track: one lane of the trace, one per thread.
#[derive(PartialEq, Eq, Structural, Clone, Copy, Debug)]
pub struct TrackId(pub u64);

/// The id of a slice: one span's begin/end pair. It is also the flow id that
/// links a child span's begin back to its parent.
#[derive(PartialEq, Eq, Structural, Clone, Copy, Debug)]
pub struct SliceId(pub u64);

impl From<u64> for TrackId {
    fn from(value: u64) -> (r: TrackId)
        ensures
            r.0 == value,
    {
        TrackId(value)
    }
}

impl vstd::std_specs::convert::FromSpecImpl<u64> for TrackId {
    open spec fn obeys_from_spec() -> bool {
        true
    }

    open spec fn from_spec(v: u64) -> TrackId {
        TrackId(v)
    }
}

impl From<TrackId> for u64 {
    fn from(value: TrackId) -> (r: u64)
        ensures
            r == value.0,
    {
        value.0
    }
}

impl vstd::std_specs::convert::FromSpecImpl<TrackId> for u64 {
    open spec fn obeys_from_spec() -> bool {
        true
    }

    open spec fn from_spec(v: TrackId) -> u64 {
        v.0
    }
}

impl From<u64> for SliceId {
    fn from(value: u64) -> (r: SliceId)
        ensures
            r.0 == value,
    {
        SliceId(value)
    }
}

impl vstd::std_specs::convert::FromSpecImpl<u64> for SliceId {
    open spec fn obeys_from_spec() -> bool {
        true
    }

    open spec fn from_spec(v: u64) -> SliceId {
        SliceId(v)
    }
}

impl From<SliceId> for u64 {
    fn from(value: SliceId) -> (r: u64)
        ensures
            r == value.0,
    {
        value.0
    }
}

impl vstd::std_specs::convert::FromSpecImpl<SliceId> for u64 {
    open spec fn obeys_from_spec() -> bool {
        true
    }

    open spec fn from_spec(v: SliceId) -> u64 {
        v.0
    }
}

} // verus!
