//! Logical channel tables: the closed, per-direction set of named channels,
//! each with a label and a fixed base offset inside its direction's wide
//! interleaved frame. A channel occupies two consecutive sample slots
//! (left, right) starting at its base offset.

use vstd::prelude::*;

verus! {

/// Width of the wide interleaved frame on the hardware playback side: the
/// five capture-direction channels at two slots each.
pub const CAPTURE_WIDE_WIDTH: usize = 10;

/// Width of the wide interleaved frame on the hardware capture side.
pub const RENDER_WIDE_WIDTH: usize = 21;

/// Samples each queue holds before the oldest are evicted.
pub const QUEUE_CAPACITY: usize = 1024;

/// The capture-direction channels: each endpoint's capture stream feeds one
/// of these, and the hardware playback stream drains all of them.
#[derive(Clone, Copy, Debug, PartialEq, Eq, Structural)]
pub enum GoXLROutputChannels {
    System,
    Game,
    Chat,
    Music,
    Sample,
}

impl GoXLROutputChannels {
    /// Base offset of the channel's left sample in the wide frame.
    pub open spec fn spec_left(self) -> int {
        match self {
            GoXLROutputChannels::System => 0,
            GoXLROutputChannels::Game => 2,
            GoXLROutputChannels::Chat => 4,
            GoXLROutputChannels::Music => 6,
            GoXLROutputChannels::Sample => 8,
        }
    }

    /// The channel's human-readable label.
    pub open spec fn spec_label(self) -> Seq<char> {
        match self {
            GoXLROutputChannels::System => "System"@,
            GoXLROutputChannels::Game => "Game"@,
            GoXLROutputChannels::Chat => "Chat"@,
            GoXLROutputChannels::Music => "Music"@,
            GoXLROutputChannels::Sample => "Sample"@,
        }
    }

    /// The stable iteration order of the capture-direction channels.
    pub open spec fn spec_all() -> Seq<GoXLROutputChannels> {
        seq![
            GoXLROutputChannels::System,
            GoXLROutputChannels::Game,
            GoXLROutputChannels::Chat,
            GoXLROutputChannels::Music,
            GoXLROutputChannels::Sample,
        ]
    }

    pub fn get_left(&self) -> (r: usize)
        ensures
            r == self.spec_left(),
    {
        match self {
            GoXLROutputChannels::System => 0,
            GoXLROutputChannels::Game => 2,
            GoXLROutputChannels::Chat => 4,
            GoXLROutputChannels::Music => 6,
            GoXLROutputChannels::Sample => 8,
        }
    }

    pub fn get_channel_string(&self) -> (r: &str)
        ensures
            r@ == self.spec_label(),
    {
        match self {
            GoXLROutputChannels::System => "System",
            GoXLROutputChannels::Game => "Game",
            GoXLROutputChannels::Chat => "Chat",
            GoXLROutputChannels::Music => "Music",
            GoXLROutputChannels::Sample => "Sample",
        }
    }

    /// All capture-direction channels, in their stable iteration order.
    pub fn all_channels() -> (r: Vec<GoXLROutputChannels>)
        ensures
            r@ == Self::spec_all(),
    {
        let mut v: Vec<GoXLROutputChannels> = Vec::new();
        v.push(GoXLROutputChannels::System);
        v.push(GoXLROutputChannels::Game);
        v.push(GoXLROutputChannels::Chat);
        v.push(GoXLROutputChannels::Music);
        v.push(GoXLROutputChannels::Sample);
        assert(v@ =~= Self::spec_all());
        v
    }
}

/// The render-direction channels: the hardware capture stream feeds each of
/// these, and each endpoint's render stream drains its own.
#[derive(Clone, Copy, Debug, PartialEq, Eq, Structural)]
pub enum GoXLRInputChannels {
    ChatMic,
    Sampler,
    StreamMix,
}

impl GoXLRInputChannels {
    /// Base offset of the channel's left sample in the wide frame.
    pub open spec fn spec_left(self) -> int {
        match self {
            GoXLRInputChannels::ChatMic => 2,
            GoXLRInputChannels::Sampler => 4,
            GoXLRInputChannels::StreamMix => 0,
        }
    }

    /// The channel's human-readable label.
    pub open spec fn spec_label(self) -> Seq<char> {
        match self {
            GoXLRInputChannels::ChatMic => "ChatMic"@,
            GoXLRInputChannels::Sampler => "Sampler"@,
            GoXLRInputChannels::StreamMix => "StreamMix"@,
        }
    }

    /// The stable iteration order of the render-direction channels.
    pub open spec fn spec_all() -> Seq<GoXLRInputChannels> {
        seq![
            GoXLRInputChannels::ChatMic,
            GoXLRInputChannels::Sampler,
            GoXLRInputChannels::StreamMix,
        ]
    }

    pub fn get_left(&self) -> (r: usize)
        ensures
            r == self.spec_left(),
    {
        match self {
            GoXLRInputChannels::ChatMic => 2,
            GoXLRInputChannels::Sampler => 4,
            GoXLRInputChannels::StreamMix => 0,
        }
    }

    pub fn get_channel_string(&self) -> (r: &str)
        ensures
            r@ == self.spec_label(),
    {
        match self {
            GoXLRInputChannels::ChatMic => "ChatMic",
            GoXLRInputChannels::Sampler => "Sampler",
            GoXLRInputChannels::StreamMix => "StreamMix",
        }
    }

    /// All render-direction channels, in their stable iteration order.
    pub fn all_channels() -> (r: Vec<GoXLRInputChannels>)
        ensures
            r@ == Self::spec_all(),
    {
        let mut v: Vec<GoXLRInputChannels> = Vec::new();
        v.push(GoXLRInputChannels::ChatMic);
        v.push(GoXLRInputChannels::Sampler);
        v.push(GoXLRInputChannels::StreamMix);
        assert(v@ =~= Self::spec_all());
        v
    }
}

/// Base offsets of the capture-direction channels, in iteration order.
pub open spec fn spec_capture_offsets() -> Seq<int> {
    Seq::new(GoXLROutputChannels::spec_all().len(), |i: int| GoXLROutputChannels::spec_all()[i].spec_left())
}

/// Base offsets of the render-direction channels, in iteration order.
pub open spec fn spec_render_offsets() -> Seq<int> {
    Seq::new(GoXLRInputChannels::spec_all().len(), |i: int| GoXLRInputChannels::spec_all()[i].spec_left())
}

/// The capture-direction offset table: one base offset per channel, in
/// iteration order, each inside the wide frame.
pub fn capture_offsets() -> (r: Vec<usize>)
    ensures
        r@.len() == GoXLROutputChannels::spec_all().len(),
        forall|i: int| 0 <= i < r@.len() ==> r@[i] == spec_capture_offsets()[i],
        forall|i: int| 0 <= i < r@.len() ==> r@[i] + 2 <= CAPTURE_WIDE_WIDTH,
{
    let all = GoXLROutputChannels::all_channels();
    let mut r: Vec<usize> = Vec::new();
    let mut i: usize = 0;
    while i < all.len()
        invariant
            i <= all.len(),
            all@ == GoXLROutputChannels::spec_all(),
            r@.len() == i,
            forall|k: int| 0 <= k < i ==> r@[k] == spec_capture_offsets()[k],
            forall|k: int| 0 <= k < i ==> r@[k] + 2 <= CAPTURE_WIDE_WIDTH,
        decreases all.len() - i,
    {
        let c = all[i];
        r.push(c.get_left());
        i += 1;
    }
    r
}

/// The render-direction offset table: one base offset per channel, in
/// iteration order, each inside the wide frame.
pub fn render_offsets() -> (r: Vec<usize>)
    ensures
        r@.len() == GoXLRInputChannels::spec_all().len(),
        forall|i: int| 0 <= i < r@.len() ==> r@[i] == spec_render_offsets()[i],
        forall|i: int| 0 <= i < r@.len() ==> r@[i] + 2 <= RENDER_WIDE_WIDTH,
{
    let all = GoXLRInputChannels::all_channels();
    let mut r: Vec<usize> = Vec::new();
    let mut i: usize = 0;
    while i < all.len()
        invariant
            i <= all.len(),
            all@ == GoXLRInputChannels::spec_all(),
            r@.len() == i,
            forall|k: int| 0 <= k < i ==> r@[k] == spec_render_offsets()[k],
            forall|k: int| 0 <= k < i ==> r@[k] + 2 <= RENDER_WIDE_WIDTH,
        decreases all.len() - i,
    {
        let c = all[i];
        r.push(c.get_left());
        i += 1;
    }
    r
}

} // verus!
