//! The virtual framebuffer resource: an explicit open / connect / disconnect
//! / close state machine over the virtual-display device, with the raw pixel
//! buffer owned for the connected lifetime.
use vstd::prelude::*;

verus! {

/// One operation performed on the virtual-display device.
#[derive(Clone, Copy, PartialEq, Eq, Structural, Debug)]
pub enum FbEvent {
    Open,
    Connect,
    Disconnect,
    Close,
}

/// The lifecycle state of the device handle.
#[derive(Clone, Copy, PartialEq, Eq, Structural, Debug)]
pub enum FbState {
    Closed,
    Open,
    Connected,
}

/// The error raised when the device handle cannot be acquired; fatal to the
/// session, never retried.
#[derive(Clone, Copy, PartialEq, Eq, Structural, Debug)]
pub enum FbError {
    DeviceUnavailable,
}

/// Which operations the state machine permits in state `s`.
pub open spec fn event_allowed(s: FbState, e: FbEvent) -> bool {
    match e {
        FbEvent::Open => s is Closed,
        FbEvent::Connect => s is Open,
        FbEvent::Disconnect => s is Connected,
        FbEvent::Close => s is Open,
    }
}

/// The state reached by performing `e` in state `s`.
pub open spec fn event_next(s: FbState, e: FbEvent) -> FbState {
    match e {
        FbEvent::Open => FbState::Open,
        FbEvent::Connect => FbState::Connected,
        FbEvent::Disconnect => FbState::Open,
        FbEvent::Close => FbState::Closed,
    }
}

/// The state after performing the whole trace `t`, starting Closed.
pub open spec fn state_after(t: Seq<FbEvent>) -> FbState
    decreases t.len(),
{
    if t.len() == 0 {
        FbState::Closed
    } else {
        event_next(state_after(t.drop_last()), t.last())
    }
}

/// Whether `t` is a trace the state machine can actually perform from
/// Closed: every operation permitted in the state it was issued in.
pub open spec fn trace_valid(t: Seq<FbEvent>) -> bool
    decreases t.len(),
{
    t.len() == 0 || (trace_valid(t.drop_last()) && event_allowed(state_after(t.drop_last()), t.last()))
}

/// How many times `e` occurs in `t`.
pub open spec fn event_count(t: Seq<FbEvent>, e: FbEvent) -> nat
    decreases t.len(),
{
    if t.len() == 0 {
        0
    } else {
        event_count(t.drop_last(), e) + if t.last() == e {
            1nat
        } else {
            0nat
        }
    }
}

/// Along any performable trace, every acquisition is paired with its
/// release: opens never trail closes by more than the one handle, connects
/// never trail disconnects by more than the one registration, and a trace
/// that has come back to Closed has released exactly what it acquired.
pub proof fn lemma_acquire_release_paired(t: Seq<FbEvent>)
    requires
        trace_valid(t),
    ensures
        state_after(t) is Closed ==> {
            &&& event_count(t, FbEvent::Open) == event_count(t, FbEvent::Close)
            &&& event_count(t, FbEvent::Connect) == event_count(t, FbEvent::Disconnect)
        },
        state_after(t) is Open ==> {
            &&& event_count(t, FbEvent::Open) == event_count(t, FbEvent::Close) + 1
            &&& event_count(t, FbEvent::Connect) == event_count(t, FbEvent::Disconnect)
        },
        state_after(t) is Connected ==> {
            &&& event_count(t, FbEvent::Open) == event_count(t, FbEvent::Close) + 1
            &&& event_count(t, FbEvent::Connect) == event_count(t, FbEvent::Disconnect) + 1
        },
    decreases t.len(),
{
    if t.len() > 0 {
        lemma_acquire_release_paired(t.drop_last());
    }
}

/// Owns the device handle's lifecycle and, while connected, the raw pixel
/// buffer. The log records every operation performed on the device, in
/// order.
pub struct VirtualFramebuffer {
    pub state: FbState,
    pub buffer: Option<Vec<u8>>,
    pub log: Vec<FbEvent>,
}

impl VirtualFramebuffer {
    /// The manager is consistent: its log is a performable trace, its state
    /// is the one the trace reaches, and it holds a buffer exactly while
    /// connected.
    pub open spec fn wf(self) -> bool {
        &&& trace_valid(self.log@)
        &&& self.state == state_after(self.log@)
        &&& (self.state is Connected <==> self.buffer is Some)
    }

    /// A fresh manager: nothing acquired, nothing performed.
    pub fn new() -> (r: Self)
        ensures
            r.wf(),
            r.state is Closed,
            r.log@ == Seq::<FbEvent>::empty(),
    {
        VirtualFramebuffer { state: FbState::Closed, buffer: None, log: Vec::new() }
    }

    /// Acquires the device handle. An unavailable device is a fatal
    /// condition: the manager stays Closed and nothing is to be retried.
    pub fn open(&mut self, device_available: bool) -> (r: Result<(), FbError>)
        requires
            old(self).wf(),
            old(self).state is Closed,
        ensures
            final(self).wf(),
            device_available ==> {
                &&& r is Ok
                &&& final(self).state is Open
                &&& final(self).log@ == old(self).log@.push(FbEvent::Open)
            },
            !device_available ==> {
                &&& r == Result::<(), FbError>::Err(FbError::DeviceUnavailable)
                &&& *final(self) == *old(self)
            },
    {
        if device_available {
            self.state = FbState::Open;
            self.log.push(FbEvent::Open);
            proof {
                assert(self.log@.drop_last() =~= old(self).log@);
            }
            Ok(())
        } else {
            Err(FbError::DeviceUnavailable)
        }
    }

    /// Registers a freshly allocated, zeroed pixel buffer of exactly
    /// `width * height * stride` bytes with the device.
    pub fn connect(&mut self, width: usize, height: usize, stride: usize)
        requires
            old(self).wf(),
            old(self).state is Open,
            width * height <= usize::MAX,
            width * height * stride <= usize::MAX,
        ensures
            final(self).wf(),
            final(self).state is Connected,
            final(self).log@ == old(self).log@.push(FbEvent::Connect),
            final(self).buffer is Some,
            final(self).buffer->0@.len() == width * height * stride,
            forall|i: int|
                0 <= i < width * height * stride ==> final(self).buffer->0@[i] == 0u8,
    {
        let pixels = width * height;
        let bytes = pixels * stride;
        let buf = zero_buffer(bytes);
        self.buffer = Some(buf);
        self.state = FbState::Connected;
        self.log.push(FbEvent::Connect);
        proof {
            assert(self.log@.drop_last() =~= old(self).log@);
        }
    }

    /// Withdraws the buffer registration from the device and drops the
    /// buffer; the handle stays open.
    pub fn disconnect(&mut self)
        requires
            old(self).wf(),
            old(self).state is Connected,
        ensures
            final(self).wf(),
            final(self).state is Open,
            final(self).log@ == old(self).log@.push(FbEvent::Disconnect),
    {
        self.buffer = None;
        self.state = FbState::Open;
        self.log.push(FbEvent::Disconnect);
        proof {
            assert(self.log@.drop_last() =~= old(self).log@);
        }
    }

    /// Releases the device handle.
    pub fn close(&mut self)
        requires
            old(self).wf(),
            old(self).state is Open,
        ensures
            final(self).wf(),
            final(self).state is Closed,
            final(self).log@ == old(self).log@.push(FbEvent::Close),
            event_count(final(self).log@, FbEvent::Open) == event_count(
                final(self).log@,
                FbEvent::Close,
            ),
            event_count(final(self).log@, FbEvent::Connect) == event_count(
                final(self).log@,
                FbEvent::Disconnect,
            ),
    {
        self.state = FbState::Closed;
        self.log.push(FbEvent::Close);
        proof {
            assert(self.log@.drop_last() =~= old(self).log@);
            lemma_acquire_release_paired(self.log@);
        }
    }
}

/// Allocates a zeroed byte buffer of length `n`.
fn zero_buffer(n: usize) -> (v: Vec<u8>)
    ensures
        v@.len() == n,
        forall|i: int| 0 <= i < n ==> v@[i] == 0u8,
{
    let mut v: Vec<u8> = Vec::new();
    let mut i: usize = 0;
    while i < n
        invariant
            0 <= i <= n,
            v@.len() == i,
            forall|k: int| 0 <= k < i ==> v@[k] == 0u8,
        decreases n - i,
    {
        v.push(0u8);
        i = i + 1;
    }
    v
}

} // verus!
