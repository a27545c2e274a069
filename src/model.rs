use vstd::prelude::*;

verus! {

/// The kind of a track event.
#[derive(PartialEq, Eq, Structural, Clone, Copy, Debug)]
pub enum Phase {
    Begin,
    End,
    Instant,
}

/// The content of one track-event packet, as the mapper hands it to the encoder.
/// The timestamp ("now" at emission) is not part of the model.
pub ghost struct TrackEvent {
    pub phase: Phase,
    pub track: u64,
    pub name: Seq<char>,
    pub categories: Seq<Seq<char>>,
    pub location: Option<(Seq<char>, u32)>,
    pub flows: Seq<u64>,
    pub attrs: Seq<(Seq<char>, Seq<char>)>,
}

/// The view of a list of string attributes.
pub open spec fn attrs_view(attrs: Seq<(String, String)>) -> Seq<(Seq<char>, Seq<char>)> {
    attrs.map_values(|p: (String, String)| (p.0@, p.1@))
}

} // verus!
