//! Audio support: in-memory sound clips and the sink rotation.
//!
//! Playback itself is an external collaborator; the engine only decides
//! *which* playback sink a clip goes to.  Sink 0 is reserved for looping
//! music; one-shot effects rotate round-robin through the remaining sinks so
//! that a new effect never cuts off the music and rarely cuts off another
//! effect.

use vstd::prelude::*;
use vstd::slice::slice_to_vec;

verus! {

/// The sink reserved for looping background music.
pub const MUSIC_SINK: usize = 0;

/// How many playback sinks the mixer owns, music sink included.
pub const SINK_COUNT: usize = 8;

/// An in-memory, still-encoded audio clip.
pub struct Sound {
    data: Vec<u8>,
}

impl View for Sound {
    type V = Seq<u8>;

    closed spec fn view(&self) -> Seq<u8> {
        self.data@
    }
}

impl Sound {
    /// A clip holding a copy of the given encoded bytes.
    pub fn from_bytes(bytes: &[u8]) -> (s: Sound)
        ensures
            s@ == bytes@,
    {
        Sound { data: slice_to_vec(bytes) }
    }

    /// The clip's encoded bytes.
    pub fn bytes(&self) -> (b: &Vec<u8>)
        ensures
            b@ == self@,
    {
        &self.data
    }
}

/// Round-robin chooser of the effect sink to play the next one-shot clip on.
pub struct SinkPicker {
    /// The sink the next effect will use; always an effect sink.
    pub next_sink: usize,
}

/// The next sink is a valid effect sink: not the music sink, within range.
pub open spec fn picker_wf(p: SinkPicker) -> bool {
    MUSIC_SINK < p.next_sink < SINK_COUNT
}

impl SinkPicker {
    /// A picker starting at the first effect sink.
    pub fn new() -> (p: SinkPicker)
        ensures
            picker_wf(p),
            p.next_sink == MUSIC_SINK + 1,
    {
        SinkPicker { next_sink: MUSIC_SINK + 1 }
    }

    /// The sink to play the next effect on.  Effects rotate through the
    /// effect sinks in order and never touch the music sink.
    pub fn pick_effect_sink(&mut self) -> (sink: usize)
        requires
            picker_wf(*old(self)),
        ensures
            picker_wf(*final(self)),
            sink == old(self).next_sink,
            MUSIC_SINK < sink < SINK_COUNT,
            final(self).next_sink == (if old(self).next_sink + 1 == SINK_COUNT {
                MUSIC_SINK + 1
            } else {
                old(self).next_sink + 1
            }),
    {
        let sink = self.next_sink;
        self.next_sink = self.next_sink + 1;
        if self.next_sink == SINK_COUNT {
            self.next_sink = MUSIC_SINK + 1;
        }
        sink
    }
}

} // verus!
