use vstd::prelude::*;

verus! {

/// A step of the program's interaction with the GPU, performed by the caller
/// of a [`Driver`].
#[derive(Clone, Copy, Debug, PartialEq, Eq, Structural)]
pub enum GpuCommand {
    CreateWindow,
    CreateDevice,
    ReportBackend,
    ClaimWindow,
    CreateVertexShader,
    CreateFragmentShader,
    CreateVertexBuffer,
    CreateIndexBuffer,
    CreateTransferBuffer,
    /// Map the transfer buffer, write the staged bytes, unmap it.
    FillTransferBuffer,
    AcquireCommandBuffer,
    BeginCopyPass,
    UploadVertices,
    UploadIndices,
    EndCopyPass,
    SubmitAndAcquireFence,
    WaitForFence,
    ReleaseFence,
    ReleaseTransferBuffer,
    CreatePipeline,
    /// Drain pending input events.
    PollInput,
    /// Advance the rotation by the elapsed time.
    Update,
    AcquireSwapchainTexture,
    BeginRenderPass,
    BindPipeline,
    SetViewport,
    BindVertexBuffer,
    BindIndexBuffer,
    PushWorldTransform,
    PushModelTransform,
    DrawIndexed,
    EndRenderPass,
    /// Release everything still owned, in teardown order.
    Teardown,
}

/// How a command went.
#[derive(Clone, Copy, Debug, PartialEq, Eq, Structural)]
pub enum Outcome {
    Succeeded,
    Failed,
    /// Input polling succeeded and the user asked to quit.
    QuitRequested,
}

/// Where a [`Driver`] is.
#[derive(Clone, Copy, Debug, PartialEq, Eq, Structural)]
pub enum DriverPhase {
    /// Creating GPU objects and uploading the mesh, once.
    Startup,
    /// Rendering frames.
    Frame,
    /// A command failed while a fence was held: the fence is released next.
    Abort,
    /// Everything is released next.
    Teardown,
    /// Nothing is left to do.
    Finished,
}

/// The startup sequence: window and device, the window claimed by the
/// device, shaders and buffers, the one-shot upload through the transfer
/// buffer (staged, copied, submitted and waited on), then the pipeline.
pub open spec fn startup_commands() -> Seq<GpuCommand> {
    seq![
        GpuCommand::CreateWindow,
        GpuCommand::CreateDevice,
        GpuCommand::ReportBackend,
        GpuCommand::ClaimWindow,
        GpuCommand::CreateVertexShader,
        GpuCommand::CreateFragmentShader,
        GpuCommand::CreateVertexBuffer,
        GpuCommand::CreateIndexBuffer,
        GpuCommand::CreateTransferBuffer,
        GpuCommand::FillTransferBuffer,
        GpuCommand::AcquireCommandBuffer,
        GpuCommand::BeginCopyPass,
        GpuCommand::UploadVertices,
        GpuCommand::UploadIndices,
        GpuCommand::EndCopyPass,
        GpuCommand::SubmitAndAcquireFence,
        GpuCommand::WaitForFence,
        GpuCommand::ReleaseFence,
        GpuCommand::ReleaseTransferBuffer,
        GpuCommand::CreatePipeline,
    ]
}

/// One frame: input, update, render, submit.
pub open spec fn frame_commands() -> Seq<GpuCommand> {
    seq![
        GpuCommand::PollInput,
        GpuCommand::Update,
        GpuCommand::AcquireCommandBuffer,
        GpuCommand::AcquireSwapchainTexture,
        GpuCommand::BeginRenderPass,
        GpuCommand::BindPipeline,
        GpuCommand::SetViewport,
        GpuCommand::BindVertexBuffer,
        GpuCommand::BindIndexBuffer,
        GpuCommand::PushWorldTransform,
        GpuCommand::PushModelTransform,
        GpuCommand::DrawIndexed,
        GpuCommand::EndRenderPass,
        GpuCommand::SubmitAndAcquireFence,
        GpuCommand::WaitForFence,
        GpuCommand::ReleaseFence,
    ]
}

/// The length of [`startup_commands`].
pub const STARTUP_LEN: usize = 20;

/// The length of [`frame_commands`].
pub const FRAME_LEN: usize = 16;

/// `commands`, each paired with a successful outcome.
pub open spec fn all_succeeded(commands: Seq<GpuCommand>) -> Seq<(GpuCommand, Outcome)> {
    commands.map_values(|c: GpuCommand| (c, Outcome::Succeeded))
}

/// The abstract state of a [`Driver`]. `history` lists every completed
/// command with its outcome, oldest first.
pub struct DriverView {
    pub phase: DriverPhase,
    pub step: int,
    pub fence_held: bool,
    pub quit: bool,
    pub failed: bool,
    pub history: Seq<(GpuCommand, Outcome)>,
}

impl DriverView {
    /// The command the driver asks for next, if any.
    pub open spec fn current(self) -> Option<GpuCommand> {
        match self.phase {
            DriverPhase::Startup => Some(startup_commands()[self.step]),
            DriverPhase::Frame => Some(frame_commands()[self.step]),
            DriverPhase::Abort => Some(GpuCommand::ReleaseFence),
            DriverPhase::Teardown => Some(GpuCommand::Teardown),
            DriverPhase::Finished => None,
        }
    }

    /// Whether a fence is held at `step` of a sequence whose fence is
    /// acquired at `submit`: after a successful submission and until the
    /// fence has been released.
    pub open spec fn holds_fence_at(step: int, submit: int) -> bool {
        submit < step <= submit + 2
    }

    /// During startup the history is exactly the successful prefix of the
    /// startup sequence; during frames it begins with the whole of it; a fence
    /// is held exactly between a successful submission and its release.
    pub open spec fn wf(self) -> bool {
        match self.phase {
            DriverPhase::Startup => {
                &&& 0 <= self.step < STARTUP_LEN
                &&& !self.quit
                &&& !self.failed
                &&& self.fence_held == Self::holds_fence_at(self.step, 15)
                &&& self.history == all_succeeded(startup_commands().take(self.step))
            },
            DriverPhase::Frame => {
                &&& 0 <= self.step < FRAME_LEN
                &&& !self.failed
                &&& self.fence_held == Self::holds_fence_at(self.step, 13)
                &&& self.history.len() >= STARTUP_LEN
                &&& self.history.take(STARTUP_LEN as int) == all_succeeded(startup_commands())
            },
            DriverPhase::Abort => self.fence_held && self.failed,
            _ => !self.fence_held,
        }
    }

    /// The state after the current command completed with `outcome`.
    pub open spec fn after(self, outcome: Outcome) -> DriverView {
        let cmd = self.current()->Some_0;
        let history = self.history.push((cmd, outcome));
        match self.phase {
            DriverPhase::Startup | DriverPhase::Frame => {
                if outcome == Outcome::Failed {
                    DriverView {
                        phase: if self.fence_held { DriverPhase::Abort } else { DriverPhase::Teardown },
                        step: 0,
                        failed: true,
                        history,
                        ..self
                    }
                } else {
                    let fence_held = if cmd == GpuCommand::SubmitAndAcquireFence {
                        true
                    } else if cmd == GpuCommand::ReleaseFence {
                        false
                    } else {
                        self.fence_held
                    };
                    let quit = self.quit || (cmd == GpuCommand::PollInput && outcome
                        == Outcome::QuitRequested);
                    let next = self.step + 1;
                    let (phase, step) = if self.phase == DriverPhase::Startup {
                        if next == STARTUP_LEN { (DriverPhase::Frame, 0) } else { (DriverPhase::Startup, next) }
                    } else if next < FRAME_LEN {
                        (DriverPhase::Frame, next)
                    } else if quit {
                        (DriverPhase::Teardown, 0)
                    } else {
                        (DriverPhase::Frame, 0)
                    };
                    DriverView { phase, step, fence_held, quit, failed: self.failed, history }
                }
            },
            DriverPhase::Abort => DriverView {
                phase: DriverPhase::Teardown,
                step: 0,
                fence_held: false,
                history,
                ..self
            },
            _ => DriverView { phase: DriverPhase::Finished, step: 0, history, ..self },
        }
    }
}

/// Sequences the program's GPU work: the one-shot startup and upload, then
/// one frame after another until the user quits, then teardown. Any failed
/// command ends the run: a held fence is released, then everything is torn
/// down.
pub struct Driver {
    phase: DriverPhase,
    step: usize,
    fence_held: bool,
    quit: bool,
    failed: bool,
    history: Ghost<Seq<(GpuCommand, Outcome)>>,
}

impl View for Driver {
    type V = DriverView;

    closed spec fn view(&self) -> DriverView {
        DriverView {
            phase: self.phase,
            step: self.step as int,
            fence_held: self.fence_held,
            quit: self.quit,
            failed: self.failed,
            history: self.history@,
        }
    }
}

fn startup_command(i: usize) -> (r: GpuCommand)
    requires
        i < STARTUP_LEN,
    ensures
        r == startup_commands()[i as int],
{
    match i {
        0 => GpuCommand::CreateWindow,
        1 => GpuCommand::CreateDevice,
        2 => GpuCommand::ReportBackend,
        3 => GpuCommand::ClaimWindow,
        4 => GpuCommand::CreateVertexShader,
        5 => GpuCommand::CreateFragmentShader,
        6 => GpuCommand::CreateVertexBuffer,
        7 => GpuCommand::CreateIndexBuffer,
        8 => GpuCommand::CreateTransferBuffer,
        9 => GpuCommand::FillTransferBuffer,
        10 => GpuCommand::AcquireCommandBuffer,
        11 => GpuCommand::BeginCopyPass,
        12 => GpuCommand::UploadVertices,
        13 => GpuCommand::UploadIndices,
        14 => GpuCommand::EndCopyPass,
        15 => GpuCommand::SubmitAndAcquireFence,
        16 => GpuCommand::WaitForFence,
        17 => GpuCommand::ReleaseFence,
        18 => GpuCommand::ReleaseTransferBuffer,
        _ => GpuCommand::CreatePipeline,
    }
}

fn frame_command(i: usize) -> (r: GpuCommand)
    requires
        i < FRAME_LEN,
    ensures
        r == frame_commands()[i as int],
{
    match i {
        0 => GpuCommand::PollInput,
        1 => GpuCommand::Update,
        2 => GpuCommand::AcquireCommandBuffer,
        3 => GpuCommand::AcquireSwapchainTexture,
        4 => GpuCommand::BeginRenderPass,
        5 => GpuCommand::BindPipeline,
        6 => GpuCommand::SetViewport,
        7 => GpuCommand::BindVertexBuffer,
        8 => GpuCommand::BindIndexBuffer,
        9 => GpuCommand::PushWorldTransform,
        10 => GpuCommand::PushModelTransform,
        11 => GpuCommand::DrawIndexed,
        12 => GpuCommand::EndRenderPass,
        13 => GpuCommand::SubmitAndAcquireFence,
        14 => GpuCommand::WaitForFence,
        _ => GpuCommand::ReleaseFence,
    }
}

proof fn lemma_fence_steps(i: int)
    ensures
        0 <= i < STARTUP_LEN ==> (startup_commands()[i] == GpuCommand::SubmitAndAcquireFence <==> i == 15),
        0 <= i < STARTUP_LEN ==> (startup_commands()[i] == GpuCommand::ReleaseFence <==> i == 17),
        0 <= i < FRAME_LEN ==> (frame_commands()[i] == GpuCommand::SubmitAndAcquireFence <==> i == 13),
        0 <= i < FRAME_LEN ==> (frame_commands()[i] == GpuCommand::ReleaseFence <==> i == 15),
{
    if 0 <= i < STARTUP_LEN {
        assert(i == 0 || i == 1 || i == 2 || i == 3 || i == 4 || i == 5 || i == 6 || i == 7 || i == 8
            || i == 9 || i == 10 || i == 11 || i == 12 || i == 13 || i == 14 || i == 15 || i == 16
            || i == 17 || i == 18 || i == 19);
    }
}

/// The commands that only a frame issues: input, update, and everything that
/// acquires a render target, binds, pushes or draws.
pub open spec fn is_frame_only(c: GpuCommand) -> bool {
    match c {
        GpuCommand::PollInput | GpuCommand::Update | GpuCommand::AcquireSwapchainTexture
        | GpuCommand::BeginRenderPass | GpuCommand::BindPipeline | GpuCommand::SetViewport
        | GpuCommand::BindVertexBuffer | GpuCommand::BindIndexBuffer
        | GpuCommand::PushWorldTransform | GpuCommand::PushModelTransform
        | GpuCommand::DrawIndexed | GpuCommand::EndRenderPass => true,
        _ => false,
    }
}

/// Nothing is bound or drawn before the device has claimed the window and the
/// upload has completed: whenever the driver asks for a frame-only command,
/// its history begins with the whole startup sequence, every step of it
/// successful, among them the claim of the window and the wait on the
/// upload's fence.
pub proof fn lemma_frames_follow_startup(v: DriverView)
    requires
        v.wf(),
        v.current() is Some,
        is_frame_only(v.current()->Some_0),
    ensures
        v.phase == DriverPhase::Frame,
        v.history.len() >= STARTUP_LEN,
        v.history.take(STARTUP_LEN as int) == all_succeeded(startup_commands()),
        v.history[3] == (GpuCommand::ClaimWindow, Outcome::Succeeded),
        v.history[16] == (GpuCommand::WaitForFence, Outcome::Succeeded),
{
    if v.phase == DriverPhase::Startup {
        let i = v.step;
        assert(i == 0 || i == 1 || i == 2 || i == 3 || i == 4 || i == 5 || i == 6 || i == 7 || i == 8
            || i == 9 || i == 10 || i == 11 || i == 12 || i == 13 || i == 14 || i == 15 || i == 16
            || i == 17 || i == 18 || i == 19);
    }
    assert(v.history[3] == v.history.take(STARTUP_LEN as int)[3]);
    assert(v.history[16] == v.history.take(STARTUP_LEN as int)[16]);
}

/// Each submission's fence is waited on and released before anything else
/// happens: while a fence is held the driver asks only to wait on it or to
/// release it, it never submits while holding one, and it never tears down
/// while holding one.
pub proof fn lemma_fence_discipline(v: DriverView)
    requires
        v.wf(),
    ensures
        v.fence_held ==> v.current() == Some(GpuCommand::WaitForFence) || v.current() == Some(
            GpuCommand::ReleaseFence,
        ),
        v.current() == Some(GpuCommand::SubmitAndAcquireFence) ==> !v.fence_held,
        v.current() == Some(GpuCommand::Teardown) ==> !v.fence_held,
{
    lemma_fence_steps(v.step);
}

/// A failure ends the run: after any failed command the driver asks at most
/// for the release of a held fence, then for teardown, then for nothing.
pub proof fn lemma_failure_ends_run(v: DriverView, outcome: Outcome)
    requires
        v.wf(),
        v.phase == DriverPhase::Startup || v.phase == DriverPhase::Frame,
    ensures
        ({
            let w = v.after(Outcome::Failed);
            &&& w.wf()
            &&& w.failed
            &&& v.fence_held ==> w.current() == Some(GpuCommand::ReleaseFence)
                && w.after(outcome).current() == Some(GpuCommand::Teardown)
                && w.after(outcome).after(outcome).current() is None
            &&& !v.fence_held ==> w.current() == Some(GpuCommand::Teardown)
                && w.after(outcome).current() is None
        }),
{
}

impl Driver {
    /// A driver at the start of the startup sequence.
    pub fn new() -> (r: Driver)
        ensures
            r@.wf(),
            r@.phase == DriverPhase::Startup,
            r@.step == 0,
            r@.history.len() == 0,
    {
        let r = Driver {
            phase: DriverPhase::Startup,
            step: 0,
            fence_held: false,
            quit: false,
            failed: false,
            history: Ghost(Seq::empty()),
        };
        assert(r@.history =~= all_succeeded(startup_commands().take(0)));
        r
    }

    /// The command to perform next, or `None` once the run is over.
    pub fn next(&self) -> (r: Option<GpuCommand>)
        requires
            self@.wf(),
        ensures
            r == self@.current(),
    {
        match self.phase {
            DriverPhase::Startup => Some(startup_command(self.step)),
            DriverPhase::Frame => Some(frame_command(self.step)),
            DriverPhase::Abort => Some(GpuCommand::ReleaseFence),
            DriverPhase::Teardown => Some(GpuCommand::Teardown),
            DriverPhase::Finished => None,
        }
    }

    /// Whether some command failed.
    pub fn failed(&self) -> (r: bool)
        ensures
            r == self@.failed,
    {
        self.failed
    }

    /// Records how the current command went and moves to the next one.
    pub fn complete(&mut self, outcome: Outcome)
        requires
            old(self)@.wf(),
            old(self)@.phase != DriverPhase::Finished,
            outcome == Outcome::QuitRequested ==> old(self)@.current() == Some(GpuCommand::PollInput),
        ensures
            final(self)@ == old(self)@.after(outcome),
            final(self)@.wf(),
    {
        let ghost cmd = old(self)@.current()->Some_0;
        let ghost pre = old(self)@;
        self.history = Ghost(self.history@.push((cmd, outcome)));
        match self.phase {
            DriverPhase::Startup | DriverPhase::Frame => {
                if outcome == Outcome::Failed {
                    self.phase = if self.fence_held { DriverPhase::Abort } else { DriverPhase::Teardown };
                    self.step = 0;
                    self.failed = true;
                } else {
                    proof {
                        lemma_fence_steps(self.step as int);
                    }
                    let startup = self.phase == DriverPhase::Startup;
                    let c = if startup { startup_command(self.step) } else { frame_command(self.step) };
                    if c == GpuCommand::SubmitAndAcquireFence {
                        self.fence_held = true;
                    } else if c == GpuCommand::ReleaseFence {
                        self.fence_held = false;
                    }
                    if c == GpuCommand::PollInput && outcome == Outcome::QuitRequested {
                        self.quit = true;
                    }
                    let next = self.step + 1;
                    if startup {
                        if next == STARTUP_LEN {
                            self.phase = DriverPhase::Frame;
                            self.step = 0;
                            assert(startup_commands().take(STARTUP_LEN as int) =~= startup_commands());
                            assert(self@.history.take(STARTUP_LEN as int) =~= self@.history);
                        } else {
                            self.step = next;
                        }
                        assert(self@.history =~= all_succeeded(startup_commands().take(next as int)));
                    } else if next < FRAME_LEN {
                        self.step = next;
                    } else if self.quit {
                        self.phase = DriverPhase::Teardown;
                        self.step = 0;
                    } else {
                        self.step = 0;
                    }
                    if !startup {
                        assert(self@.history.take(STARTUP_LEN as int) =~= pre.history.take(STARTUP_LEN as int));
                    }
                }
            },
            DriverPhase::Abort => {
                self.phase = DriverPhase::Teardown;
                self.step = 0;
                self.fence_held = false;
            },
            _ => {
                self.phase = DriverPhase::Finished;
                self.step = 0;
            },
        }
    }
}

} // verus!
