//! Router: owns the per-direction channel tables and sample queues, wires
//! the demultiplexer and multiplexer callbacks to them, and drives the
//! session through its strictly forward states.
//!
//! State machine: `Unconfigured` (tables accepted) to `Wired` (queues
//! allocated, callbacks not yet registered) to `Running` (every channel of
//! both directions registered, routing active) to `Stopped` (callbacks
//! halted, queues released). Partial registration never reaches `Running`.

use vstd::prelude::*;

use crate::queue::{push_all_model, window_model, SampleQueue};
use crate::stream::{channel_slices, demux_endpoint, demux_wide, mux_wide, queue_at, slot, slot_written};

verus! {

/// The two independent routing directions of a session.
#[derive(Clone, Copy, Debug, PartialEq, Eq, Structural)]
pub enum Direction {
    /// Endpoint capture streams feed the queues; the hardware playback
    /// stream drains them.
    Capture,
    /// The hardware capture stream feeds the queues; endpoint render
    /// streams drain them.
    Render,
}

/// Why the router refused a call. Sample-level underrun and overrun are
/// never errors; they are absorbed by the queues' window and eviction
/// policies.
#[derive(Clone, Copy, Debug, PartialEq, Eq, Structural)]
pub enum RouterError {
    /// A channel table was rejected: an offset's two slots do not fit the
    /// wide frame, or two channels overlap.
    InvalidTable,
    /// The call does not belong to the session's current state.
    WrongState,
    /// Running was requested while some channel of either direction has no
    /// registered callback.
    RegistrationIncomplete,
    /// A channel index at or past the direction's channel count.
    UnknownChannel,
    /// A callback's buffer length does not match its frame count, as
    /// reported by the host; the failure is handed back to the host.
    BufferSizeMismatch,
}

/// The lifecycle states of a session, in their strictly forward order.
#[derive(Clone, Copy, Debug, PartialEq, Eq, Structural)]
pub enum SessionState {
    Unconfigured,
    Wired,
    Running,
    Stopped,
}

/// A channel table is valid when every channel's two slots lie inside the
/// wide frame and no two channels overlap.
pub open spec fn valid_table(offsets: Seq<usize>, width: int) -> bool {
    &&& forall|c: int| 0 <= c < offsets.len() ==> #[trigger] offsets[c] + 2 <= width
    &&& forall|c1: int, c2: int|
        0 <= c1 < c2 < offsets.len() ==> offsets[c1] + 2 <= offsets[c2] || offsets[c2] + 2
            <= offsets[c1]
}

/// One direction's channel table, queues and registration flags.
pub struct DirectionBinding {
    width: usize,
    offsets: Vec<usize>,
    queues: Vec<SampleQueue>,
    active: Vec<bool>,
}

impl DirectionBinding {
    /// Width of this direction's wide interleaved frame.
    pub closed spec fn width(&self) -> int {
        self.width as int
    }

    /// Base offset of each channel, in channel order.
    pub closed spec fn offsets(&self) -> Seq<usize> {
        self.offsets@
    }

    /// The per-channel queues, in channel order.
    pub closed spec fn queues(&self) -> Seq<SampleQueue> {
        self.queues@
    }

    /// Which channels have a registered callback.
    pub closed spec fn active(&self) -> Seq<bool> {
        self.active@
    }

    /// How many channels this direction has.
    pub open spec fn channel_count(&self) -> int {
        self.offsets().len() as int
    }

    /// Before wiring, and there are no queues and no registration flags.
    pub open spec fn bare(&self) -> bool {
        self.queues().len() == 0 && self.active().len() == 0
    }

    /// From wiring on: one well-formed queue of the session's capacity and
    /// one registration flag per channel.
    pub open spec fn wired(&self, cap: nat) -> bool {
        &&& self.queues().len() == self.offsets().len()
        &&& self.active().len() == self.offsets().len()
        &&& forall|c: int|
            0 <= c < self.queues().len() ==> (#[trigger] self.queues()[c]).wf()
                && self.queues()[c].cap() == cap
    }

    /// Every channel's callback is registered.
    pub open spec fn all_registered(&self) -> bool {
        forall|c: int| 0 <= c < self.active().len() ==> self.active()[c]
    }

    /// No channel's callback is still registered.
    pub open spec fn all_halted(&self) -> bool {
        forall|c: int| 0 <= c < self.active().len() ==> !self.active()[c]
    }

    /// After teardown: callbacks halted, queues released.
    pub open spec fn released(&self) -> bool {
        &&& self.queues().len() == 0
        &&& self.active().len() == self.offsets().len()
        &&& self.all_halted()
    }
}

/// The session router. It owns both direction bindings; the host's audio
/// units only ever reach the queues through the callback entry points,
/// which refuse every call outside the `Running` state.
pub struct Router {
    state: SessionState,
    capacity: usize,
    capture: DirectionBinding,
    render: DirectionBinding,
}

impl Router {
    /// The session's lifecycle state.
    pub closed spec fn state(&self) -> SessionState {
        self.state
    }

    /// The fixed capacity every queue is created with.
    pub closed spec fn capacity(&self) -> nat {
        self.capacity as nat
    }

    /// The capture-direction binding.
    pub closed spec fn capture(&self) -> DirectionBinding {
        self.capture
    }

    /// The render-direction binding.
    pub closed spec fn render(&self) -> DirectionBinding {
        self.render
    }

    /// Both tables are valid, and each state holds exactly the resources
    /// its stage of the session owns.
    pub open spec fn wf(&self) -> bool {
        &&& valid_table(self.capture().offsets(), self.capture().width())
        &&& valid_table(self.render().offsets(), self.render().width())
        &&& match self.state() {
            SessionState::Unconfigured => self.capture().bare() && self.render().bare(),
            SessionState::Wired => self.capture().wired(self.capacity()) && self.render().wired(
                self.capacity(),
            ),
            SessionState::Running => self.capture().wired(self.capacity()) && self.render().wired(
                self.capacity(),
            ) && self.capture().all_registered() && self.render().all_registered(),
            SessionState::Stopped => self.capture().released() && self.render().released(),
        }
    }

    /// The binding of a direction.
    pub open spec fn binding(&self, dir: Direction) -> DirectionBinding {
        match dir {
            Direction::Capture => self.capture(),
            Direction::Render => self.render(),
        }
    }

    /// Accepts the two channel tables and the queue capacity; the tables
    /// are checked once, here, and never change afterwards. A table whose
    /// channels do not fit their wide frame, or overlap, is a fatal setup
    /// fault.
    pub fn new(
        capture_width: usize,
        capture_offsets: Vec<usize>,
        render_width: usize,
        render_offsets: Vec<usize>,
        capacity: usize,
    ) -> (r: Result<Router, RouterError>)
        ensures
            r is Ok <==> (valid_table(capture_offsets@, capture_width as int) && valid_table(
                render_offsets@,
                render_width as int,
            )),
            r is Err ==> r == Err::<Router, RouterError>(RouterError::InvalidTable),
            r matches Ok(rt) ==> {
                &&& rt.wf()
                &&& rt.state() is Unconfigured
                &&& rt.capacity() == capacity as nat
                &&& rt.capture().width() == capture_width as int
                &&& rt.capture().offsets() == capture_offsets@
                &&& rt.render().width() == render_width as int
                &&& rt.render().offsets() == render_offsets@
            },
    {
        if !table_is_valid(&capture_offsets, capture_width) {
            return Err(RouterError::InvalidTable);
        }
        if !table_is_valid(&render_offsets, render_width) {
            return Err(RouterError::InvalidTable);
        }
        Ok(
            Router {
                state: SessionState::Unconfigured,
                capacity,
                capture: DirectionBinding {
                    width: capture_width,
                    offsets: capture_offsets,
                    queues: Vec::new(),
                    active: Vec::new(),
                },
                render: DirectionBinding {
                    width: render_width,
                    offsets: render_offsets,
                    queues: Vec::new(),
                    active: Vec::new(),
                },
            },
        )
    }

    /// The session's current state.
    pub fn session_state(&self) -> (s: SessionState)
        ensures
            s == self.state(),
    {
        self.state
    }

    /// How many channels a direction has.
    pub fn channel_count(&self, dir: Direction) -> (n: usize)
        ensures
            n == self.binding(dir).channel_count(),
    {
        match dir {
            Direction::Capture => self.capture.offsets.len(),
            Direction::Render => self.render.offsets.len(),
        }
    }

    /// Allocates one empty queue and one cleared registration flag per
    /// channel of both directions; only an unconfigured session can be
    /// wired.
    pub fn wire(&mut self) -> (r: Result<(), RouterError>)
        requires
            old(self).wf(),
        ensures
            final(self).wf(),
            r is Ok <==> old(self).state() is Unconfigured,
            r is Err ==> *final(self) == *old(self) && r == Err::<(), RouterError>(
                RouterError::WrongState,
            ),
            r is Ok ==> {
                &&& final(self).state() is Wired
                &&& final(self).capacity() == old(self).capacity()
                &&& final(self).capture().width() == old(self).capture().width()
                &&& final(self).capture().offsets() == old(self).capture().offsets()
                &&& final(self).render().width() == old(self).render().width()
                &&& final(self).render().offsets() == old(self).render().offsets()
                &&& final(self).capture().wired(old(self).capacity())
                &&& final(self).render().wired(old(self).capacity())
                &&& forall|c: int|
                    0 <= c < final(self).capture().queues().len() ==> (#[trigger] final(self).capture().queues()[c])@ == Seq::<u32>::empty()
                &&& forall|c: int|
                    0 <= c < final(self).render().queues().len() ==> (#[trigger] final(self).render().queues()[c])@ == Seq::<u32>::empty()
                &&& final(self).capture().all_halted()
                &&& final(self).render().all_halted()
            },
    {
        match self.state {
            SessionState::Unconfigured => {
                let ncap = self.capture.offsets.len();
                let nren = self.render.offsets.len();
                self.capture.queues = make_queues(ncap, self.capacity);
                self.capture.active = make_flags(ncap);
                self.render.queues = make_queues(nren, self.capacity);
                self.render.active = make_flags(nren);
                self.state = SessionState::Wired;
                Ok(())
            },
            _ => Err(RouterError::WrongState),
        }
    }

    /// Records that the host accepted a channel's callback registration;
    /// only a wired session registers callbacks.
    pub fn mark_registered(&mut self, dir: Direction, channel: usize) -> (r: Result<
        (),
        RouterError,
    >)
        requires
            old(self).wf(),
        ensures
            final(self).wf(),
            r is Ok <==> (old(self).state() is Wired && channel < old(self).binding(
                dir,
            ).channel_count()),
            !(old(self).state() is Wired) ==> r == Err::<(), RouterError>(RouterError::WrongState),
            old(self).state() is Wired && channel >= old(self).binding(dir).channel_count() ==> r
                == Err::<(), RouterError>(RouterError::UnknownChannel),
            r is Err ==> *final(self) == *old(self),
            r is Ok ==> {
                &&& final(self).state() == old(self).state()
                &&& final(self).capacity() == old(self).capacity()
                &&& final(self).binding(other_direction(dir)) == old(self).binding(
                    other_direction(dir),
                )
                &&& final(self).binding(dir).width() == old(self).binding(dir).width()
                &&& final(self).binding(dir).offsets() == old(self).binding(dir).offsets()
                &&& final(self).binding(dir).queues() == old(self).binding(dir).queues()
                &&& final(self).binding(dir).active() == old(self).binding(dir).active().update(
                    channel as int,
                    true,
                )
            },
    {
        match self.state {
            SessionState::Wired => {
                match dir {
                    Direction::Capture => {
                        if channel >= self.capture.active.len() {
                            return Err(RouterError::UnknownChannel);
                        }
                        self.capture.active[channel] = true;
                        Ok(())
                    },
                    Direction::Render => {
                        if channel >= self.render.active.len() {
                            return Err(RouterError::UnknownChannel);
                        }
                        self.render.active[channel] = true;
                        Ok(())
                    },
                }
            },
            _ => Err(RouterError::WrongState),
        }
    }

    /// Starts routing; a wired session with every channel of both
    /// directions registered is the only one that can start. Partial
    /// registration is a fatal setup error, not a degraded running state.
    pub fn start(&mut self) -> (r: Result<(), RouterError>)
        requires
            old(self).wf(),
        ensures
            final(self).wf(),
            r is Ok <==> (old(self).state() is Wired && old(self).capture().all_registered()
                && old(self).render().all_registered()),
            !(old(self).state() is Wired) ==> r == Err::<(), RouterError>(RouterError::WrongState),
            old(self).state() is Wired && !(old(self).capture().all_registered() && old(self).render().all_registered()) ==> r == Err::<(), RouterError>(
                RouterError::RegistrationIncomplete,
            ),
            r is Err ==> *final(self) == *old(self),
            r is Ok ==> {
                &&& final(self).state() is Running
                &&& final(self).capacity() == old(self).capacity()
                &&& final(self).capture() == old(self).capture()
                &&& final(self).render() == old(self).render()
            },
    {
        match self.state {
            SessionState::Wired => {
                if !all_set(&self.capture.active) {
                    return Err(RouterError::RegistrationIncomplete);
                }
                if !all_set(&self.render.active) {
                    return Err(RouterError::RegistrationIncomplete);
                }
                self.state = SessionState::Running;
                Ok(())
            },
            _ => Err(RouterError::WrongState),
        }
    }

    /// Stops the session: every registered callback of both directions is
    /// halted first, and only then are the queues released, so no callback
    /// can ever observe a released queue. Only a running session stops,
    /// and a stopped session never resumes.
    pub fn stop(&mut self) -> (r: Result<(), RouterError>)
        requires
            old(self).wf(),
        ensures
            final(self).wf(),
            r is Ok <==> old(self).state() is Running,
            r is Err ==> *final(self) == *old(self) && r == Err::<(), RouterError>(
                RouterError::WrongState,
            ),
            r is Ok ==> {
                &&& final(self).state() is Stopped
                &&& final(self).capacity() == old(self).capacity()
                &&& final(self).capture().width() == old(self).capture().width()
                &&& final(self).capture().offsets() == old(self).capture().offsets()
                &&& final(self).render().width() == old(self).render().width()
                &&& final(self).render().offsets() == old(self).render().offsets()
                &&& final(self).capture().released()
                &&& final(self).render().released()
            },
    {
        match self.state {
            SessionState::Running => {
                halt_callbacks(&mut self.capture.active);
                halt_callbacks(&mut self.render.active);
                release_queues(&mut self.capture.queues, &self.capture.active);
                release_queues(&mut self.render.queues, &self.render.active);
                self.state = SessionState::Stopped;
                Ok(())
            },
            _ => Err(RouterError::WrongState),
        }
    }

    /// Endpoint capture callback for one capture-direction channel: pushes
    /// the endpoint's two-channel interleaved buffer into that channel's
    /// queue, in buffer order. Refused outside `Running`, for an unknown
    /// channel, and for a buffer that does not match the frame count.
    pub fn on_endpoint_capture(&mut self, channel: usize, input: &Vec<u32>, frames: usize) -> (r:
        Result<(), RouterError>)
        requires
            old(self).wf(),
        ensures
            final(self).wf(),
            r is Ok <==> (old(self).state() is Running && channel < old(self).capture().channel_count() && input@.len() == frames * 2),
            !(old(self).state() is Running) ==> r == Err::<(), RouterError>(
                RouterError::WrongState,
            ),
            old(self).state() is Running && channel >= old(self).capture().channel_count() ==> r
                == Err::<(), RouterError>(RouterError::UnknownChannel),
            old(self).state() is Running && channel < old(self).capture().channel_count()
                && input@.len() != frames * 2 ==> r == Err::<(), RouterError>(
                RouterError::BufferSizeMismatch,
            ),
            r is Err ==> *final(self) == *old(self),
            r is Ok ==> {
                &&& final(self).state() == old(self).state()
                &&& final(self).capacity() == old(self).capacity()
                &&& final(self).render() == old(self).render()
                &&& final(self).capture().width() == old(self).capture().width()
                &&& final(self).capture().offsets() == old(self).capture().offsets()
                &&& final(self).capture().active() == old(self).capture().active()
                &&& final(self).capture().queues().len() == old(self).capture().queues().len()
                &&& final(self).capture().queues()[channel as int]@ == push_all_model(
                    old(self).capture().queues()[channel as int]@,
                    old(self).capacity(),
                    input@,
                )
                &&& forall|k: int|
                    0 <= k < old(self).capture().queues().len() && k != channel ==> final(self).capture().queues()[k] == old(self).capture().queues()[k]
            },
    {
        match self.state {
            SessionState::Running => {},
            _ => { return Err(RouterError::WrongState) },
        }
        if channel >= self.capture.queues.len() {
            return Err(RouterError::UnknownChannel);
        }
        if !buffer_matches(input.len(), frames, 2) {
            return Err(RouterError::BufferSizeMismatch);
        }
        let q = queue_at(&mut self.capture.queues, channel);
        demux_endpoint(q, input, frames);
        Ok(())
    }

    /// Hardware playback callback: fills the wide interleaved output from
    /// every capture-direction channel's queue at that channel's offsets,
    /// leaving underrun positions and unowned slots untouched. Refused
    /// outside `Running` and for a buffer that does not match the frame
    /// count.
    pub fn on_hardware_render(&self, output: &mut Vec<u32>, frames: usize) -> (r: Result<
        (),
        RouterError,
    >)
        requires
            self.wf(),
        ensures
            r is Ok <==> (self.state() is Running && old(output)@.len() == frames
                * self.capture().width()),
            !(self.state() is Running) ==> r == Err::<(), RouterError>(RouterError::WrongState),
            self.state() is Running && old(output)@.len() != frames * self.capture().width() ==> r
                == Err::<(), RouterError>(RouterError::BufferSizeMismatch),
            r is Err ==> final(output)@ == old(output)@,
            r is Ok ==> {
                &&& final(output)@.len() == old(output)@.len()
                &&& forall|c: int, j: int|
                    0 <= c < self.capture().queues().len() && 0 <= j < 2 * frames && j
                        < self.capture().queues()[c]@.len() ==> final(output)@[slot(
                        self.capture().width(),
                        self.capture().offsets()[c] as int,
                        j,
                    )] == #[trigger] self.capture().queues()[c]@[j]
                &&& forall|i: int|
                    0 <= i < old(output)@.len() && !slot_written(
                        self.capture().offsets(),
                        self.capture().queues(),
                        self.capture().width(),
                        frames as int,
                        i,
                    ) ==> final(output)@[i] == old(output)@[i]
            },
    {
        match self.state {
            SessionState::Running => {},
            _ => { return Err(RouterError::WrongState) },
        }
        if !buffer_matches(output.len(), frames, self.capture.width) {
            return Err(RouterError::BufferSizeMismatch);
        }
        mux_wide(output, &self.capture.queues, &self.capture.offsets, self.capture.width, frames);
        Ok(())
    }

    /// Hardware capture callback: splits each wide interleaved frame
    /// across the render-direction queues, each channel receiving the two
    /// samples at its offsets, oldest frame first. Refused outside
    /// `Running` and for a buffer that does not match the frame count.
    pub fn on_hardware_capture(&mut self, input: &Vec<u32>, frames: usize) -> (r: Result<
        (),
        RouterError,
    >)
        requires
            old(self).wf(),
        ensures
            final(self).wf(),
            r is Ok <==> (old(self).state() is Running && input@.len() == frames * old(self).render().width()),
            !(old(self).state() is Running) ==> r == Err::<(), RouterError>(
                RouterError::WrongState,
            ),
            old(self).state() is Running && input@.len() != frames * old(self).render().width()
                ==> r == Err::<(), RouterError>(RouterError::BufferSizeMismatch),
            r is Err ==> *final(self) == *old(self),
            r is Ok ==> {
                &&& final(self).state() == old(self).state()
                &&& final(self).capacity() == old(self).capacity()
                &&& final(self).capture() == old(self).capture()
                &&& final(self).render().width() == old(self).render().width()
                &&& final(self).render().offsets() == old(self).render().offsets()
                &&& final(self).render().active() == old(self).render().active()
                &&& final(self).render().queues().len() == old(self).render().queues().len()
                &&& forall|c: int|
                    0 <= c < old(self).render().queues().len() ==> (#[trigger] final(self).render().queues()[c])@ == push_all_model(
                        old(self).render().queues()[c]@,
                        old(self).capacity(),
                        channel_slices(
                            input@,
                            frames as nat,
                            old(self).render().width() as nat,
                            old(self).render().offsets()[c] as nat,
                        ),
                    )
            },
    {
        match self.state {
            SessionState::Running => {},
            _ => { return Err(RouterError::WrongState) },
        }
        if !buffer_matches(input.len(), frames, self.render.width) {
            return Err(RouterError::BufferSizeMismatch);
        }
        demux_wide(&mut self.render.queues, &self.render.offsets, self.render.width, input, frames);
        Ok(())
    }

    /// Endpoint render callback for one render-direction channel: fills
    /// the endpoint's two-channel interleaved buffer from that channel's
    /// queue; on underrun only the trailing slots are written and the
    /// leading slots keep the host-supplied contents. Refused outside
    /// `Running`, for an unknown channel, and for a buffer that does not
    /// match the frame count.
    pub fn on_endpoint_render(&self, channel: usize, output: &mut Vec<u32>, frames: usize) -> (r:
        Result<(), RouterError>)
        requires
            self.wf(),
        ensures
            r is Ok <==> (self.state() is Running && channel < self.render().channel_count()
                && old(output)@.len() == frames * 2),
            !(self.state() is Running) ==> r == Err::<(), RouterError>(RouterError::WrongState),
            self.state() is Running && channel >= self.render().channel_count() ==> r == Err::<
                (),
                RouterError,
            >(RouterError::UnknownChannel),
            self.state() is Running && channel < self.render().channel_count() && old(
                output,
            )@.len() != frames * 2 ==> r == Err::<(), RouterError>(RouterError::BufferSizeMismatch),
            r is Err ==> final(output)@ == old(output)@,
            r is Ok ==> final(output)@ == window_model(
                self.render().queues()[channel as int]@,
                old(output)@,
            ),
    {
        match self.state {
            SessionState::Running => {},
            _ => { return Err(RouterError::WrongState) },
        }
        if channel >= self.render.queues.len() {
            return Err(RouterError::UnknownChannel);
        }
        if !buffer_matches(output.len(), frames, 2) {
            return Err(RouterError::BufferSizeMismatch);
        }
        let q = &self.render.queues[channel];
        q.read_window(output);
        Ok(())
    }
}

/// The opposite routing direction.
pub open spec fn other_direction(dir: Direction) -> Direction {
    match dir {
        Direction::Capture => Direction::Render,
        Direction::Render => Direction::Capture,
    }
}

/// Checks a channel table: every channel's two slots inside the wide
/// frame, and no two channels overlapping.
fn table_is_valid(offsets: &Vec<usize>, width: usize) -> (b: bool)
    ensures
        b == valid_table(offsets@, width as int),
{
    let n = offsets.len();
    let mut i: usize = 0;
    while i < n
        invariant
            i <= n,
            n == offsets@.len(),
            forall|c: int| 0 <= c < i ==> #[trigger] offsets@[c] + 2 <= width,
        decreases n - i,
    {
        let off = offsets[i];
        if off > width || width - off < 2 {
            return false;
        }
        i += 1;
    }
    let mut a: usize = 0;
    while a < n
        invariant
            a <= n,
            n == offsets@.len(),
            forall|c: int| 0 <= c < n ==> #[trigger] offsets@[c] + 2 <= width,
            forall|c1: int, c2: int|
                0 <= c1 < a && c1 < c2 < n ==> offsets@[c1] + 2 <= offsets@[c2] || offsets@[c2] + 2
                    <= offsets@[c1],
        decreases n - a,
    {
        let mut b: usize = a + 1;
        while b < n
            invariant
                a + 1 <= b <= n,
                a < n,
                n == offsets@.len(),
                forall|c: int| 0 <= c < n ==> #[trigger] offsets@[c] + 2 <= width,
                forall|c1: int, c2: int|
                    0 <= c1 < a && c1 < c2 < n ==> offsets@[c1] + 2 <= offsets@[c2] || offsets@[c2]
                        + 2 <= offsets@[c1],
                forall|c2: int|
                    a < c2 < b ==> offsets@[a as int] + 2 <= offsets@[c2] || offsets@[c2] + 2
                        <= offsets@[a as int],
            decreases n - b,
        {
            let x = offsets[a];
            let y = offsets[b];
            if !(x + 2 <= y || y + 2 <= x) {
                return false;
            }
            b += 1;
        }
        a += 1;
    }
    true
}

/// Allocates `n` empty queues of the given capacity.
fn make_queues(n: usize, capacity: usize) -> (v: Vec<SampleQueue>)
    ensures
        v@.len() == n,
        forall|c: int|
            0 <= c < n ==> (#[trigger] v@[c]).wf() && v@[c].cap() == capacity as nat && v@[c]@
                == Seq::<u32>::empty(),
{
    let mut v: Vec<SampleQueue> = Vec::new();
    let mut i: usize = 0;
    while i < n
        invariant
            i <= n,
            v@.len() == i,
            forall|c: int|
                0 <= c < i ==> (#[trigger] v@[c]).wf() && v@[c].cap() == capacity as nat && v@[c]@
                    == Seq::<u32>::empty(),
        decreases n - i,
    {
        v.push(SampleQueue::new(capacity));
        i += 1;
    }
    v
}

/// Allocates `n` cleared registration flags.
fn make_flags(n: usize) -> (v: Vec<bool>)
    ensures
        v@.len() == n,
        forall|c: int| 0 <= c < n ==> !(#[trigger] v@[c]),
{
    let mut v: Vec<bool> = Vec::new();
    let mut i: usize = 0;
    while i < n
        invariant
            i <= n,
            v@.len() == i,
            forall|c: int| 0 <= c < i ==> !(#[trigger] v@[c]),
        decreases n - i,
    {
        v.push(false);
        i += 1;
    }
    v
}

/// Whether every flag of a direction is set.
fn all_set(v: &Vec<bool>) -> (b: bool)
    ensures
        b == (forall|c: int| 0 <= c < v@.len() ==> v@[c]),
{
    let mut i: usize = 0;
    while i < v.len()
        invariant
            i <= v@.len(),
            forall|c: int| 0 <= c < i ==> v@[c],
        decreases v@.len() - i,
    {
        if !v[i] {
            return false;
        }
        i += 1;
    }
    true
}

/// Halts every registered callback of a direction, in channel order.
fn halt_callbacks(v: &mut Vec<bool>)
    ensures
        final(v)@.len() == old(v)@.len(),
        forall|c: int| 0 <= c < final(v)@.len() ==> !(#[trigger] final(v)@[c]),
{
    let n = v.len();
    let mut i: usize = 0;
    while i < n
        invariant
            i <= n,
            v@.len() == n,
            forall|c: int| 0 <= c < i ==> !(#[trigger] v@[c]),
        decreases n - i,
    {
        v[i] = false;
        i += 1;
    }
}

/// Releases a direction's queues. Callable only once every callback of
/// that direction has been halted: this is the teardown order that keeps
/// any callback from observing a released queue.
fn release_queues(queues: &mut Vec<SampleQueue>, flags: &Vec<bool>)
    requires
        forall|c: int| 0 <= c < flags@.len() ==> !(#[trigger] flags@[c]),
    ensures
        final(queues)@.len() == 0,
{
    queues.clear();
}

/// Whether a callback's buffer length matches `frames` frames of `width`
/// samples each.
fn buffer_matches(len: usize, frames: usize, width: usize) -> (b: bool)
    ensures
        b == (len == frames * width),
{
    if frames == 0 {
        return len == 0;
    }
    if width > usize::MAX / frames {
        proof {
            vstd::arithmetic::div_mod::lemma_fundamental_div_mod(usize::MAX as int, frames as int);
            assert(frames * width > usize::MAX) by (nonlinear_arith)
                requires
                    frames >= 1,
                    width >= usize::MAX / frames + 1,
                    usize::MAX as int == frames * (usize::MAX / frames) + usize::MAX % frames,
                    usize::MAX % frames < frames,
            ;
        }
        return false;
    }
    proof {
        vstd::arithmetic::div_mod::lemma_fundamental_div_mod(usize::MAX as int, frames as int);
        assert(frames * width <= usize::MAX) by (nonlinear_arith)
            requires
                frames >= 1,
                width <= usize::MAX / frames,
                usize::MAX as int == frames * (usize::MAX / frames) + usize::MAX % frames,
                0 <= usize::MAX % frames,
        ;
    }
    len == frames * width
}

} // verus!
