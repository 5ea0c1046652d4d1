//! Scan-out buffers on their way to the screen: which output they are shown
//! on, how each frame is submitted, and when a buffer may be reused or freed.

use vstd::prelude::*;

verus! {

/// A display mode, by the resolution it gives.
#[derive(Debug, Clone, Copy, PartialEq, Eq, Structural)]
pub struct Mode {
    pub hdisplay: u16,
    pub vdisplay: u16,
}

/// A connector and the modes it advertises, in the kernel's order.
#[derive(Debug)]
pub struct Connector {
    pub handle: u32,
    pub modes: Vec<Mode>,
}

/// Where frames go: a connector, its mode, and the CRTC that drives it.
#[derive(Debug, Clone, Copy, PartialEq, Eq, Structural)]
pub struct Output {
    pub connector: u32,
    pub mode: Mode,
    pub crtc: u32,
}

/// Why no output could be chosen.
#[derive(Debug, Clone, Copy, PartialEq, Eq, Structural)]
pub enum ModesetError {
    /// The device has no connector.
    NoConnector,
    /// The first connector advertises no mode.
    NoMode,
    /// The device has no CRTC.
    NoCrtc,
}

/// The output that `select_output` settles on: the first connector with its
/// first mode, on the first CRTC.
pub open spec fn first_output(connectors: Seq<Connector>, crtcs: Seq<u32>) -> Result<
    Output,
    ModesetError,
> {
    if connectors.len() == 0 {
        Err(ModesetError::NoConnector)
    } else if connectors[0].modes@.len() == 0 {
        Err(ModesetError::NoMode)
    } else if crtcs.len() == 0 {
        Err(ModesetError::NoCrtc)
    } else {
        Ok(Output { connector: connectors[0].handle, mode: connectors[0].modes@[0], crtc: crtcs[0] })
    }
}

/// Chooses the output from what the kernel enumerated. There is no
/// preference beyond the order of enumeration.
pub fn select_output(connectors: &Vec<Connector>, crtcs: &Vec<u32>) -> (r: Result<
    Output,
    ModesetError,
>)
    ensures
        r == first_output(connectors@, crtcs@),
{
    if connectors.len() == 0 {
        return Err(ModesetError::NoConnector);
    }
    let connector = &connectors[0];
    if connector.modes.len() == 0 {
        return Err(ModesetError::NoMode);
    }
    if crtcs.len() == 0 {
        return Err(ModesetError::NoCrtc);
    }
    Ok(Output { connector: connector.handle, mode: connector.modes[0], crtc: crtcs[0] })
}

/// The number of bytes of one frame in mode `mode`, four per pixel.
pub fn frame_size(mode: Mode) -> (bytes: u64)
    ensures
        bytes == 4 * mode.hdisplay * mode.vdisplay,
{
    let width = mode.hdisplay as u64;
    let height = mode.vdisplay as u64;
    assert(4 * width * height <= 4 * 0xffff * 0xffff) by (nonlinear_arith)
        requires
            width <= 0xffff,
            height <= 0xffff,
    ;
    4 * width * height
}

/// What a scan-out buffer of an output must be like: as large as the
/// output's mode, with 24 bits of colour in 32 bits a pixel.
#[derive(Debug, Clone, Copy, PartialEq, Eq, Structural)]
pub struct BufferRequest {
    pub width: u32,
    pub height: u32,
    pub depth: u32,
    pub bits_per_pixel: u32,
}

/// Where a buffer stands between the renderer and the screen.
#[derive(Debug, Clone, Copy, PartialEq, Eq, Structural)]
pub enum BufferState {
    /// Neither shown nor about to be: free to write, submit or destroy.
    Idle,
    /// Handed to a page flip that has not completed.
    Queued,
    /// The buffer that the CRTC scans out.
    OnScreen,
    /// Destroyed; its number is never used again.
    Destroyed,
}

/// What the kernel is asked to do with a frame.
#[derive(Debug, Clone, Copy, PartialEq, Eq, Structural)]
pub enum Submission {
    /// Set the mode with this framebuffer, at once.
    ModeSet { crtc: u32, framebuffer: u32, connector: u32, mode: Mode },
    /// Queue a page flip to this framebuffer; `event` asks for a
    /// notification when it completes.
    PageFlip { crtc: u32, framebuffer: u32, event: bool },
}

/// Why a buffer operation was refused.
#[derive(Debug, Clone, Copy, PartialEq, Eq, Structural)]
pub enum FlipError {
    /// No buffer has this number.
    UnknownBuffer,
    /// The buffer was destroyed.
    BufferDestroyed,
    /// The buffer is on screen or queued for a flip.
    BufferBusy,
    /// Another page flip has not completed yet.
    FlipPending,
}

struct Buffer {
    framebuffer: u32,
    destroyed: bool,
}

/// The buffers of one output and the state of its page-flip cycle.
pub struct PageFlipManager {
    output: Output,
    buffers: Vec<Buffer>,
    pending: Option<usize>,
    on_screen: Option<usize>,
    started: bool,
}

impl PageFlipManager {
    /// The output that the frames go to.
    pub closed spec fn output(&self) -> Output {
        self.output
    }

    /// The number of buffers ever added.
    pub closed spec fn count(&self) -> nat {
        self.buffers@.len()
    }

    /// The framebuffer of buffer `id`.
    pub closed spec fn framebuffer(&self, id: int) -> u32 {
        self.buffers@[id].framebuffer
    }

    /// The state of buffer `id`.
    pub closed spec fn state(&self, id: int) -> BufferState {
        if self.buffers@[id].destroyed {
            BufferState::Destroyed
        } else if self.pending is Some && self.pending->0 as int == id {
            BufferState::Queued
        } else if self.on_screen is Some && self.on_screen->0 as int == id {
            BufferState::OnScreen
        } else {
            BufferState::Idle
        }
    }

    /// Whether a page flip is under way.
    pub closed spec fn flip_pending(&self) -> bool {
        self.pending is Some
    }

    /// Whether the first frame has been submitted.
    pub closed spec fn started(&self) -> bool {
        self.started
    }

    /// What always holds: at most one buffer is queued and at most one is on
    /// screen, a flip is pending exactly while a buffer is queued, and
    /// nothing is queued or shown before the first frame.
    pub closed spec fn wf(&self) -> bool {
        &&& match self.pending {
            Some(p) => p < self.buffers@.len() && !self.buffers@[p as int].destroyed,
            None => true,
        }
        &&& match self.on_screen {
            Some(s) => s < self.buffers@.len() && !self.buffers@[s as int].destroyed,
            None => true,
        }
        &&& (self.pending is Some ==> self.pending != self.on_screen)
        &&& (!self.started ==> self.pending is None && self.on_screen is None)
    }

    /// The invariant in terms of the buffers' states.
    pub proof fn one_queued_one_on_screen(&self)
        requires
            self.wf(),
        ensures
            forall|a: int, b: int|
                0 <= a < self.count() && 0 <= b < self.count() && self.state(a)
                    == BufferState::Queued && self.state(b) == BufferState::Queued ==> a == b,
            forall|a: int, b: int|
                0 <= a < self.count() && 0 <= b < self.count() && self.state(a)
                    == BufferState::OnScreen && self.state(b) == BufferState::OnScreen ==> a == b,
            self.flip_pending() <==> exists|a: int|
                0 <= a < self.count() && self.state(a) == BufferState::Queued,
            !self.started() ==> forall|a: int|
                0 <= a < self.count() ==> self.state(a) == BufferState::Idle || self.state(a)
                    == BufferState::Destroyed,
    {
        if self.flip_pending() {
            let p = self.pending->0 as int;
            assert(0 <= p < self.count() && self.state(p) == BufferState::Queued);
        }
    }

    /// A manager for `output` without buffers.
    pub fn new(output: Output) -> (m: Self)
        ensures
            m.wf(),
            m.output() == output,
            m.count() == 0,
            !m.flip_pending(),
            !m.started(),
    {
        PageFlipManager { output, buffers: Vec::new(), pending: None, on_screen: None, started: false }
    }

    /// The output that the frames go to.
    pub fn target(&self) -> (output: Output)
        ensures
            output == self.output(),
    {
        self.output
    }

    /// What the buffers of this output must be like.
    pub fn buffer_request(&self) -> (request: BufferRequest)
        ensures
            request == (BufferRequest {
                width: self.output().mode.hdisplay as u32,
                height: self.output().mode.vdisplay as u32,
                depth: 24,
                bits_per_pixel: 32,
            }),
    {
        BufferRequest {
            width: self.output.mode.hdisplay as u32,
            height: self.output.mode.vdisplay as u32,
            depth: 24,
            bits_per_pixel: 32,
        }
    }

    /// The number of buffers ever added.
    pub fn len(&self) -> (n: usize)
        ensures
            n == self.count(),
    {
        self.buffers.len()
    }

    /// Takes in a buffer that the kernel bound to `framebuffer`, and gives
    /// it the next number.
    pub fn add_buffer(&mut self, framebuffer: u32) -> (id: usize)
        requires
            old(self).wf(),
        ensures
            final(self).wf(),
            id == old(self).count(),
            final(self).count() == old(self).count() + 1,
            final(self).framebuffer(id as int) == framebuffer,
            final(self).state(id as int) == BufferState::Idle,
            final(self).output() == old(self).output(),
            final(self).started() == old(self).started(),
            final(self).flip_pending() == old(self).flip_pending(),
            forall|k: int|
                0 <= k < old(self).count() ==> final(self).state(k) == old(self).state(k)
                    && final(self).framebuffer(k) == old(self).framebuffer(k),
    {
        let id = self.buffers.len();
        self.buffers.push(Buffer { framebuffer, destroyed: false });
        id
    }

    /// The state of buffer `id`, if there is such a buffer.
    pub fn buffer_state(&self, id: usize) -> (s: Option<BufferState>)
        ensures
            s == if id < self.count() {
                Some(self.state(id as int))
            } else {
                None
            },
    {
        if id >= self.buffers.len() {
            None
        } else if self.buffers[id].destroyed {
            Some(BufferState::Destroyed)
        } else if self.is_pending(id) {
            Some(BufferState::Queued)
        } else if self.is_on_screen(id) {
            Some(BufferState::OnScreen)
        } else {
            Some(BufferState::Idle)
        }
    }

    fn is_pending(&self, id: usize) -> (b: bool)
        ensures
            b == (self.pending == Some(id)),
    {
        match self.pending {
            Some(p) => p == id,
            None => false,
        }
    }

    fn is_on_screen(&self, id: usize) -> (b: bool)
        ensures
            b == (self.on_screen == Some(id)),
    {
        match self.on_screen {
            Some(s) => s == id,
            None => false,
        }
    }

    /// The buffer to put the next frame into: the first idle one, or none
    /// where every buffer is on screen, queued or destroyed.
    pub fn next_buffer(&self) -> (id: Option<usize>)
        ensures
            match id {
                Some(i) => {
                    &&& i < self.count()
                    &&& self.state(i as int) == BufferState::Idle
                    &&& forall|k: int| 0 <= k < i ==> self.state(k) != BufferState::Idle
                },
                None => forall|k: int| 0 <= k < self.count() ==> self.state(k) != BufferState::Idle,
            },
    {
        let mut i: usize = 0;
        while i < self.buffers.len()
            invariant
                i <= self.count(),
                self.count() == self.buffers@.len(),
                forall|k: int| 0 <= k < i ==> self.state(k) != BufferState::Idle,
            decreases self.buffers@.len() - i,
        {
            if self.may_write(i) {
                return Some(i);
            }
            i = i + 1;
        }
        None
    }

    /// Whether new content may be written into buffer `id`: only while it is
    /// idle.
    pub fn may_write(&self, id: usize) -> (b: bool)
        ensures
            b == (id < self.count() && self.state(id as int) == BufferState::Idle),
    {
        match self.buffer_state(id) {
            Some(BufferState::Idle) => true,
            _ => false,
        }
    }

    /// Submits buffer `id` to the CRTC. The first frame is a mode-set, which
    /// puts the buffer on screen at once; every later frame is a page flip
    /// with a completion event, which leaves the buffer queued until
    /// [`flip_complete`](Self::flip_complete). A refusal changes nothing.
    pub fn submit(&mut self, id: usize) -> (r: Result<Submission, FlipError>)
        requires
            old(self).wf(),
        ensures
            final(self).wf(),
            final(self).output() == old(self).output(),
            final(self).count() == old(self).count(),
            forall|k: int|
                0 <= k < old(self).count() ==> final(self).framebuffer(k) == old(self).framebuffer(
                    k,
                ),
            forall|k: int|
                0 <= k < old(self).count() && k != id ==> final(self).state(k) == old(self).state(
                    k,
                ),
            r is Err ==> *final(self) == *old(self),
            id >= old(self).count() ==> r == Err::<Submission, FlipError>(FlipError::UnknownBuffer),
            id < old(self).count() ==> match old(self).state(id as int) {
                BufferState::Destroyed => r == Err::<Submission, FlipError>(
                    FlipError::BufferDestroyed,
                ),
                BufferState::Queued | BufferState::OnScreen => r == Err::<Submission, FlipError>(
                    FlipError::BufferBusy,
                ),
                BufferState::Idle => if old(self).flip_pending() {
                    r == Err::<Submission, FlipError>(FlipError::FlipPending)
                } else if !old(self).started() {
                    &&& r == Ok::<Submission, FlipError>(
                        Submission::ModeSet {
                            crtc: old(self).output().crtc,
                            framebuffer: old(self).framebuffer(id as int),
                            connector: old(self).output().connector,
                            mode: old(self).output().mode,
                        },
                    )
                    &&& final(self).state(id as int) == BufferState::OnScreen
                    &&& final(self).started()
                    &&& !final(self).flip_pending()
                } else {
                    &&& r == Ok::<Submission, FlipError>(
                        Submission::PageFlip {
                            crtc: old(self).output().crtc,
                            framebuffer: old(self).framebuffer(id as int),
                            event: true,
                        },
                    )
                    &&& final(self).state(id as int) == BufferState::Queued
                    &&& final(self).started()
                    &&& final(self).flip_pending()
                },
            },
    {
        match self.buffer_state(id) {
            None => Err(FlipError::UnknownBuffer),
            Some(BufferState::Destroyed) => Err(FlipError::BufferDestroyed),
            Some(BufferState::Queued) => Err(FlipError::BufferBusy),
            Some(BufferState::OnScreen) => Err(FlipError::BufferBusy),
            Some(BufferState::Idle) => {
                if self.pending.is_some() {
                    return Err(FlipError::FlipPending);
                }
                let framebuffer = self.buffers[id].framebuffer;
                if !self.started {
                    self.started = true;
                    self.on_screen = Some(id);
                    Ok(
                        Submission::ModeSet {
                            crtc: self.output.crtc,
                            framebuffer,
                            connector: self.output.connector,
                            mode: self.output.mode,
                        },
                    )
                } else {
                    self.pending = Some(id);
                    Ok(Submission::PageFlip { crtc: self.output.crtc, framebuffer, event: true })
                }
            },
        }
    }

    /// Takes note of the kernel's flip-completion event: the queued buffer
    /// is on screen now, and the one it replaced is idle. Returns whether a
    /// flip was pending; without one nothing changes.
    pub fn flip_complete(&mut self) -> (completed: bool)
        requires
            old(self).wf(),
        ensures
            final(self).wf(),
            completed == old(self).flip_pending(),
            !completed ==> *final(self) == *old(self),
            !final(self).flip_pending(),
            final(self).output() == old(self).output(),
            final(self).count() == old(self).count(),
            final(self).started() == old(self).started(),
            forall|k: int|
                0 <= k < old(self).count() ==> final(self).framebuffer(k) == old(self).framebuffer(k)
                    && final(self).state(k) == (match old(self).state(k) {
                    BufferState::Queued => BufferState::OnScreen,
                    BufferState::OnScreen => if completed {
                        BufferState::Idle
                    } else {
                        BufferState::OnScreen
                    },
                    other => other,
                }),
    {
        match self.pending {
            Some(p) => {
                self.on_screen = Some(p);
                self.pending = None;
                true
            },
            None => false,
        }
    }

    /// Gives up buffer `id` and returns its framebuffer, which the caller
    /// destroys. A buffer that a pending flip refers to is refused, and so
    /// stays alive until the flip completes. A refusal changes nothing.
    pub fn destroy(&mut self, id: usize) -> (r: Result<u32, FlipError>)
        requires
            old(self).wf(),
        ensures
            final(self).wf(),
            final(self).output() == old(self).output(),
            final(self).count() == old(self).count(),
            final(self).started() == old(self).started(),
            final(self).flip_pending() == old(self).flip_pending(),
            forall|k: int|
                0 <= k < old(self).count() ==> final(self).framebuffer(k) == old(self).framebuffer(
                    k,
                ),
            forall|k: int|
                0 <= k < old(self).count() && k != id ==> final(self).state(k) == old(self).state(
                    k,
                ),
            r is Err ==> *final(self) == *old(self),
            id >= old(self).count() ==> r == Err::<u32, FlipError>(FlipError::UnknownBuffer),
            id < old(self).count() ==> match old(self).state(id as int) {
                BufferState::Destroyed => r == Err::<u32, FlipError>(FlipError::BufferDestroyed),
                BufferState::Queued => r == Err::<u32, FlipError>(FlipError::BufferBusy),
                BufferState::Idle | BufferState::OnScreen => {
                    &&& r == Ok::<u32, FlipError>(old(self).framebuffer(id as int))
                    &&& final(self).state(id as int) == BufferState::Destroyed
                },
            },
    {
        match self.buffer_state(id) {
            None => Err(FlipError::UnknownBuffer),
            Some(BufferState::Destroyed) => Err(FlipError::BufferDestroyed),
            Some(BufferState::Queued) => Err(FlipError::BufferBusy),
            Some(BufferState::OnScreen) => {
                let framebuffer = self.buffers[id].framebuffer;
                self.on_screen = None;
                self.buffers.set(id, Buffer { framebuffer, destroyed: true });
                Ok(framebuffer)
            },
            Some(BufferState::Idle) => {
                let framebuffer = self.buffers[id].framebuffer;
                self.buffers.set(id, Buffer { framebuffer, destroyed: true });
                Ok(framebuffer)
            },
        }
    }
}

} // verus!
