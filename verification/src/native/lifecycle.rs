//! The lifecycle of a backend that the operating system drives by
//! callbacks: from nothing to a window, a graphics context and a running
//! event handler, and back to nothing.
use vstd::prelude::*;
use crate::event::Callback;
use crate::native::trace::{
    count,
    draws,
    effects,
    held_through,
    lemma_count_concat,
    lemma_count_push,
    lemma_effects_push,
    lemma_held_through_concat,
    lemma_held_through_nothing,
    lemma_held_through_push,
    lemma_notified_size_concat,
    lemma_releases_leave_nothing,
    lemma_silent_actions_notify_nothing,
    notified_size,
    notifies,
    releases_of,
    tells_no_size,
    Effectful,
    Resource,
    ResourceEvent,
};
use crate::native::{stored_size, DisplayOp, DisplayState, NativeDisplayData};

verus! {

/// Where a backend stands that the operating system drives by callbacks.
#[derive(Clone, Copy, Debug, PartialEq, Eq, Structural)]
pub enum Stage {
    /// Nothing native exists.
    Uninitialized,
    /// The native window and its surface exist.
    WindowCreated,
    /// The graphics context exists and is current on the owning thread.
    ContextReady,
    /// The event handler exists; frames are drawn and events handed on.
    Running,
    /// Quitting is final; what is held waits to be given back.
    Closing,
    /// Everything has been given back.
    Terminated,
}

/// One thing for the backend to do on the thread that owns the display.
/// Steps are carried out in the order in which they are handed out; one
/// that fails ends the process.
#[derive(Clone, Copy, Debug, PartialEq, Eq, Structural)]
pub enum Step {
    CreateWindow,
    CreateSurface,
    CreateContext,
    /// Make the context current on this thread.
    MakeCurrent,
    /// Resolve the functions of the graphics interface.
    LoadGlFunctions,
    /// Arm the timer that asks for frames.
    ArmFrameTimer,
    /// Have the application create its event handler.
    CreateHandler,
    /// Call the event handler.
    Invoke(Callback),
    SwapBuffers,
    /// Ask the operating system to close the window; a close attempt follows.
    RequestClose,
    /// Make nothing current on this thread.
    ClearCurrent,
    DestroyContext,
    DestroySurface,
    DestroyWindow,
}

impl Effectful for Step {
    open spec fn effect(self) -> Option<ResourceEvent> {
        match self {
            Step::CreateWindow => Some(ResourceEvent::Acquire(Resource::Window)),
            Step::CreateSurface => Some(ResourceEvent::Acquire(Resource::Surface)),
            Step::CreateContext => Some(ResourceEvent::Acquire(Resource::Context)),
            Step::MakeCurrent => Some(ResourceEvent::Acquire(Resource::Current)),
            Step::ClearCurrent => Some(ResourceEvent::Release(Resource::Current)),
            Step::DestroyContext => Some(ResourceEvent::Release(Resource::Context)),
            Step::DestroySurface => Some(ResourceEvent::Release(Resource::Surface)),
            Step::DestroyWindow => Some(ResourceEvent::Release(Resource::Window)),
            _ => None,
        }
    }

    open spec fn callback(self) -> Option<Callback> {
        match self {
            Step::Invoke(callback) => Some(callback),
            _ => None,
        }
    }
}

/// What happens to a backend: what its owner asks of it, what the operating
/// system reports, and what the application does about quitting.
#[derive(Clone, Copy, Debug)]
pub enum Command {
    CreateWindow,
    CreateContext,
    /// Start running.
    Start,
    /// Draw a frame.
    Frame,
    /// The frame was drawn and shown.
    FrameDone,
    /// Hand an event to the event handler.
    Dispatch { callback: Callback },
    /// The operating system reports a framebuffer size, or fails to.
    Resized { size: Option<(i32, i32)> },
    /// The operating system reports a scale, as a bit pattern.
    Rescaled { reported: u32 },
    /// The application asks to quit.
    RequestQuit,
    /// The application takes its request back.
    CancelQuit,
    /// The application finalizes quitting.
    OrderQuit,
    /// The operating system asks the window to close: a close attempt
    /// starts.
    CloseRequested,
    /// The close attempt ends, after the event handler had its say.
    CloseDecided,
    Teardown,
}

/// A command was given at a stage that it is not meant for. Nothing was
/// done about it.
#[derive(Clone, Copy, Debug, PartialEq, Eq, Structural)]
pub struct OutOfOrder {
    pub stage: Stage,
}

impl Stage {
    /// The resources held at a stage, in the order of their acquisition.
    pub open spec fn held(self) -> Seq<Resource> {
        match self {
            Stage::Uninitialized | Stage::Terminated => Seq::empty(),
            Stage::WindowCreated => seq![Resource::Window, Resource::Surface],
            _ => seq![Resource::Window, Resource::Surface, Resource::Context, Resource::Current],
        }
    }

    /// What giving back everything that is held takes, last acquired first.
    pub open spec fn teardown_steps(self) -> Seq<Step> {
        match self {
            Stage::Uninitialized | Stage::Terminated => Seq::empty(),
            Stage::WindowCreated => seq![Step::DestroySurface, Step::DestroyWindow],
            _ => seq![
                Step::ClearCurrent,
                Step::DestroyContext,
                Step::DestroySurface,
                Step::DestroyWindow,
            ],
        }
    }
}

/// A backend as a whole: the stage of its lifecycle and its display state.
pub struct Shell {
    pub stage: Stage,
    pub display: DisplayState,
}

impl Shell {
    /// A backend of which nothing exists yet.
    pub open spec fn initial(high_dpi: bool) -> Shell {
        Shell { stage: Stage::Uninitialized, display: DisplayState::initial(high_dpi) }
    }

    /// What a command makes the backend do. A command that is out of order
    /// makes it do nothing, and the event handler is called only while the
    /// backend runs.
    pub open spec fn steps_for(self, command: Command) -> Seq<Step> {
        match command {
            Command::CreateWindow => if self.stage == Stage::Uninitialized {
                seq![Step::CreateWindow, Step::CreateSurface]
            } else {
                Seq::empty()
            },
            Command::CreateContext => if self.stage == Stage::WindowCreated {
                seq![
                    Step::CreateContext,
                    Step::MakeCurrent,
                    Step::LoadGlFunctions,
                    Step::ArmFrameTimer,
                ]
            } else {
                Seq::empty()
            },
            Command::Start => if self.stage == Stage::ContextReady {
                seq![
                    Step::CreateHandler,
                    Step::Invoke(
                        Callback::Resize {
                            width: self.display.screen_width,
                            height: self.display.screen_height,
                        },
                    ),
                ]
            } else {
                Seq::empty()
            },
            Command::Frame => if self.stage == Stage::Running {
                seq![Step::Invoke(Callback::Update), Step::Invoke(Callback::Draw), Step::SwapBuffers]
            } else {
                Seq::empty()
            },
            Command::FrameDone => if self.stage == Stage::Running && (self.display.quit_requested
                || self.display.quit_ordered) {
                seq![Step::RequestClose]
            } else {
                Seq::empty()
            },
            Command::Dispatch { callback } => if self.stage == Stage::Running {
                seq![Step::Invoke(callback)]
            } else {
                Seq::empty()
            },
            Command::Resized { size } => if self.stage == Stage::Running && stored_size(size)
                != self.display.size() {
                seq![
                    Step::Invoke(
                        Callback::Resize {
                            width: stored_size(size).0,
                            height: stored_size(size).1,
                        },
                    ),
                ]
            } else {
                Seq::empty()
            },
            Command::CloseRequested => if self.stage == Stage::Running
                && self.display.asks_handler() {
                seq![Step::Invoke(Callback::QuitRequested)]
            } else {
                Seq::empty()
            },
            Command::Teardown => self.stage.teardown_steps(),
            _ => Seq::empty(),
        }
    }

    /// The backend after a command.
    pub open spec fn after(self, command: Command) -> Shell {
        match command {
            Command::CreateWindow => if self.stage == Stage::Uninitialized {
                Shell { stage: Stage::WindowCreated, ..self }
            } else {
                self
            },
            Command::CreateContext => if self.stage == Stage::WindowCreated {
                Shell { stage: Stage::ContextReady, ..self }
            } else {
                self
            },
            Command::Start => if self.stage == Stage::ContextReady {
                Shell { stage: Stage::Running, ..self }
            } else {
                self
            },
            Command::Frame => self,
            Command::FrameDone => self,
            Command::Dispatch { callback } => self,
            Command::Resized { size } => Shell {
                display: self.display.apply(DisplayOp::Resize { size }),
                ..self
            },
            Command::Rescaled { reported } => Shell {
                display: self.display.apply(DisplayOp::Rescale { reported }),
                ..self
            },
            Command::RequestQuit => Shell {
                display: self.display.apply(DisplayOp::RequestQuit),
                ..self
            },
            Command::CancelQuit => Shell {
                display: self.display.apply(DisplayOp::CancelQuit),
                ..self
            },
            Command::OrderQuit => Shell { display: self.display.apply(DisplayOp::OrderQuit), ..self },
            Command::CloseRequested => if self.stage == Stage::Running {
                Shell { display: self.display.apply(DisplayOp::CloseRequested), ..self }
            } else {
                self
            },
            Command::CloseDecided => if self.stage == Stage::Running {
                Shell {
                    stage: if self.display.apply(DisplayOp::CloseDecided).quit_ordered {
                        Stage::Closing
                    } else {
                        Stage::Running
                    },
                    display: self.display.apply(DisplayOp::CloseDecided),
                }
            } else {
                self
            },
            Command::Teardown => Shell { stage: Stage::Terminated, ..self },
        }
    }
}

/// The lifecycle of a backend that the operating system drives by
/// callbacks. It moves from stage to stage only by its methods.
pub struct Lifecycle {
    stage: Stage,
}

impl View for Lifecycle {
    type V = Stage;

    closed spec fn view(&self) -> Stage {
        self.stage
    }
}

impl Lifecycle {
    /// The backend as a whole, with the display state `data`.
    pub open spec fn with(&self, data: DisplayState) -> Shell {
        Shell { stage: self@, display: data }
    }

    /// A backend of which nothing exists yet.
    pub fn new() -> (lifecycle: Lifecycle)
        ensures
            lifecycle@ == Stage::Uninitialized,
    {
        Lifecycle { stage: Stage::Uninitialized }
    }

    /// The present stage.
    pub fn stage(&self) -> (stage: Stage)
        ensures
            stage == self@,
    {
        self.stage
    }

    /// Whether the event handler exists, so that events can be handed on.
    pub fn is_running(&self) -> (running: bool)
        ensures
            running == (self@ == Stage::Running),
    {
        self.stage == Stage::Running
    }

    /// Whether the graphics context exists, so that the functions of the
    /// graphics interface can be resolved. Before it exists and after it
    /// was destroyed no function can be.
    pub fn has_context(&self) -> (exists: bool)
        ensures
            exists == (self@ == Stage::ContextReady || self@ == Stage::Running || self@
                == Stage::Closing),
            exists == self@.held().contains(Resource::Context),
    {
        proof {
            let held = self@.held();
            if held.len() == 4 {
                assert(held[2] == Resource::Context);
            }
        }
        self.stage == Stage::ContextReady || self.stage == Stage::Running || self.stage
            == Stage::Closing
    }

    /// Has the native window and its surface created.
    pub fn create_window(&mut self) -> (steps: Result<Vec<Step>, OutOfOrder>)
        ensures
            old(self)@ == Stage::Uninitialized ==> steps is Ok && steps->Ok_0@ == seq![
                Step::CreateWindow,
                Step::CreateSurface,
            ] && final(self)@ == Stage::WindowCreated,
            old(self)@ != Stage::Uninitialized ==> steps == Err::<Vec<Step>, OutOfOrder>(
                OutOfOrder { stage: old(self)@ },
            ) && final(self)@ == old(self)@,
            forall|display: DisplayState|
                final(self).with(display) == (#[trigger] old(self).with(display)).after(
                    Command::CreateWindow,
                ),
            steps is Ok ==> forall|display: DisplayState|
                steps->Ok_0@ == (#[trigger] old(self).with(display)).steps_for(
                    Command::CreateWindow,
                ),
    {
        if self.stage != Stage::Uninitialized {
            return Err(OutOfOrder { stage: self.stage });
        }
        let mut steps: Vec<Step> = Vec::new();
        steps.push(Step::CreateWindow);
        steps.push(Step::CreateSurface);
        assert(steps@ =~= seq![Step::CreateWindow, Step::CreateSurface]);
        self.stage = Stage::WindowCreated;
        Ok(steps)
    }

    /// Has the graphics context created and made current, then the
    /// functions of the graphics interface resolved, and the frame timer
    /// armed.
    pub fn create_context(&mut self) -> (steps: Result<Vec<Step>, OutOfOrder>)
        ensures
            old(self)@ == Stage::WindowCreated ==> steps is Ok && steps->Ok_0@ == seq![
                Step::CreateContext,
                Step::MakeCurrent,
                Step::LoadGlFunctions,
                Step::ArmFrameTimer,
            ] && final(self)@ == Stage::ContextReady,
            old(self)@ != Stage::WindowCreated ==> steps == Err::<Vec<Step>, OutOfOrder>(
                OutOfOrder { stage: old(self)@ },
            ) && final(self)@ == old(self)@,
            forall|display: DisplayState|
                final(self).with(display) == (#[trigger] old(self).with(display)).after(
                    Command::CreateContext,
                ),
            steps is Ok ==> forall|display: DisplayState|
                steps->Ok_0@ == (#[trigger] old(self).with(display)).steps_for(
                    Command::CreateContext,
                ),
    {
        if self.stage != Stage::WindowCreated {
            return Err(OutOfOrder { stage: self.stage });
        }
        let mut steps: Vec<Step> = Vec::new();
        steps.push(Step::CreateContext);
        steps.push(Step::MakeCurrent);
        steps.push(Step::LoadGlFunctions);
        steps.push(Step::ArmFrameTimer);
        assert(steps@ =~= seq![
            Step::CreateContext,
            Step::MakeCurrent,
            Step::LoadGlFunctions,
            Step::ArmFrameTimer,
        ]);
        self.stage = Stage::ContextReady;
        Ok(steps)
    }

    /// Starts running: the application creates its event handler, which is
    /// told the framebuffer size of the moment before anything is drawn.
    pub fn start(&mut self, data: &NativeDisplayData) -> (steps: Result<Vec<Step>, OutOfOrder>)
        ensures
            old(self)@ == Stage::ContextReady ==> steps is Ok && steps->Ok_0@ == old(self).with(
                data@,
            ).steps_for(Command::Start) && final(self)@ == Stage::Running,
            old(self)@ != Stage::ContextReady ==> steps == Err::<Vec<Step>, OutOfOrder>(
                OutOfOrder { stage: old(self)@ },
            ) && final(self)@ == old(self)@,
            final(self).with(data@) == old(self).with(data@).after(Command::Start),
    {
        if self.stage != Stage::ContextReady {
            return Err(OutOfOrder { stage: self.stage });
        }
        let (width, height): (i32, i32) = data.screen_size();
        let mut steps: Vec<Step> = Vec::new();
        steps.push(Step::CreateHandler);
        steps.push(Step::Invoke(Callback::Resize { width, height }));
        assert(steps@ =~= old(self).with(data@).steps_for(Command::Start));
        self.stage = Stage::Running;
        Ok(steps)
    }

    /// One refresh of the display: the event handler updates, then draws,
    /// and the frame is shown. Outside the running stage nothing is drawn.
    pub fn frame(&self) -> (steps: Vec<Step>)
        ensures
            forall|data: DisplayState| steps@ == #[trigger] self.with(data).steps_for(Command::Frame),
            self@ == Stage::Running ==> steps@ == seq![
                Step::Invoke(Callback::Update),
                Step::Invoke(Callback::Draw),
                Step::SwapBuffers,
            ],
            self@ != Stage::Running ==> steps@ == Seq::<Step>::empty(),
    {
        let mut steps: Vec<Step> = Vec::new();
        if self.stage == Stage::Running {
            steps.push(Step::Invoke(Callback::Update));
            steps.push(Step::Invoke(Callback::Draw));
            steps.push(Step::SwapBuffers);
            assert(steps@ =~= seq![
                Step::Invoke(Callback::Update),
                Step::Invoke(Callback::Draw),
                Step::SwapBuffers,
            ]);
        }
        steps
    }

    /// What a frame is followed by, once it was drawn and shown: if the
    /// application has asked to quit by then, be it from within that very
    /// frame, or quitting is final, the operating system is asked to close
    /// the window, which starts a close attempt. To be called after the
    /// steps of `frame` were carried out.
    pub fn after_frame(&self, data: &NativeDisplayData) -> (steps: Vec<Step>)
        ensures
            steps@ == self.with(data@).steps_for(Command::FrameDone),
    {
        let mut steps: Vec<Step> = Vec::new();
        if self.stage == Stage::Running && (data.quit_requested() || data.quit_ordered()) {
            steps.push(Step::RequestClose);
        }
        assert(steps@ =~= self.with(data@).steps_for(Command::FrameDone));
        steps
    }

    /// Hands an event to the event handler, if it exists: events that come
    /// in before the backend runs, or after it stopped running, are dropped.
    pub fn dispatch(&self, callback: Callback) -> (steps: Vec<Step>)
        ensures
            forall|data: DisplayState| steps@ == #[trigger] self.with(data).steps_for(
                Command::Dispatch { callback },
            ),
    {
        let mut steps: Vec<Step> = Vec::new();
        if self.stage == Stage::Running {
            steps.push(Step::Invoke(callback));
            assert(steps@ =~= seq![Step::Invoke(callback)]);
        }
        steps
    }

    /// Takes over the framebuffer size that the operating system
    /// confirmed; `None` stands for a failed query. If the size changed
    /// and the backend runs, the event handler is told the new size, at
    /// once and so before it draws again.
    pub fn resized(&self, data: &mut NativeDisplayData, size: Option<(i32, i32)>) -> (steps: Vec<
        Step,
    >)
        ensures
            steps@ == self.with(old(data)@).steps_for(Command::Resized { size }),
            self.with(final(data)@) == self.with(old(data)@).after(Command::Resized { size }),
    {
        let mut steps: Vec<Step> = Vec::new();
        match data.update_dimensions(size) {
            Some((width, height)) => {
                if self.stage == Stage::Running {
                    steps.push(Step::Invoke(Callback::Resize { width, height }));
                }
            },
            None => {},
        }
        assert(steps@ =~= self.with(old(data)@).steps_for(Command::Resized { size }));
        steps
    }

    /// Starts a close attempt, on a close request of the operating system.
    /// While the backend runs and quitting is not final yet, the event
    /// handler's `quit_requested_event` is invoked, once; from within it
    /// the application may cancel. Otherwise the handler is not asked.
    pub fn close_requested(&self, data: &mut NativeDisplayData) -> (steps: Vec<Step>)
        ensures
            steps@ == self.with(old(data)@).steps_for(Command::CloseRequested),
            self.with(final(data)@) == self.with(old(data)@).after(Command::CloseRequested),
    {
        let mut steps: Vec<Step> = Vec::new();
        if self.stage == Stage::Running {
            let ask: bool = data.close_requested();
            if ask {
                steps.push(Step::Invoke(Callback::QuitRequested));
            }
        }
        assert(steps@ =~= self.with(old(data)@).steps_for(Command::CloseRequested));
        steps
    }

    /// Ends a close attempt, after the event handler had its say. A request
    /// that is still pending becomes final and the backend stops running;
    /// a request that was cancelled leaves it running. The result says
    /// whether the backend is closing.
    pub fn close_decided(&mut self, data: &mut NativeDisplayData) -> (closes: bool)
        ensures
            final(self).with(final(data)@) == old(self).with(old(data)@).after(
                Command::CloseDecided,
            ),
            closes == (final(self)@ == Stage::Closing),
    {
        if self.stage == Stage::Running {
            let closes: bool = data.close_decided();
            if closes {
                self.stage = Stage::Closing;
            }
            closes
        } else {
            self.stage == Stage::Closing
        }
    }

    /// Gives back everything that is held, last acquired first: the context
    /// is unbound and destroyed, then the surface goes, then the window.
    /// What is not held is not given back, so a second teardown does
    /// nothing.
    pub fn teardown(&mut self) -> (steps: Vec<Step>)
        ensures
            steps@ == old(self)@.teardown_steps(),
            final(self)@ == Stage::Terminated,
            forall|display: DisplayState|
                steps@ == (#[trigger] old(self).with(display)).steps_for(Command::Teardown)
                    && final(self).with(display) == old(self).with(display).after(
                    Command::Teardown,
                ),
    {
        let mut steps: Vec<Step> = Vec::new();
        match self.stage {
            Stage::Uninitialized | Stage::Terminated => {},
            Stage::WindowCreated => {
                steps.push(Step::DestroySurface);
                steps.push(Step::DestroyWindow);
            },
            _ => {
                steps.push(Step::ClearCurrent);
                steps.push(Step::DestroyContext);
                steps.push(Step::DestroySurface);
                steps.push(Step::DestroyWindow);
            },
        }
        assert(steps@ =~= old(self)@.teardown_steps());
        self.stage = Stage::Terminated;
        steps
    }
}

/// The backend after a stretch of its life: where it stands, and everything
/// it was told to do, in order.
pub struct DesktopRun {
    pub shell: Shell,
    pub trace: Seq<Step>,
}

/// The backend after `commands`, first to last.
pub open spec fn run_commands(shell: Shell, commands: Seq<Command>) -> DesktopRun
    decreases commands.len(),
{
    if commands.len() == 0 {
        DesktopRun { shell, trace: Seq::empty() }
    } else {
        let before = run_commands(shell, commands.drop_last());
        DesktopRun {
            shell: before.shell.after(commands.last()),
            trace: before.trace + before.shell.steps_for(commands.last()),
        }
    }
}

/// The teardown gives back exactly what is held, last acquired first, and
/// after it nothing is held and a further teardown has nothing to do.
pub proof fn lemma_teardown_in_reverse(stage: Stage)
    ensures
        effects(stage.teardown_steps()) == releases_of(stage.held()),
        held_through(stage.held(), stage.teardown_steps()) == Some(Seq::<Resource>::empty()),
        Stage::Terminated.held() == Seq::<Resource>::empty(),
        Stage::Terminated.teardown_steps() == Seq::<Step>::empty(),
{
    lemma_releases_leave_nothing(stage.held());
    let none = Seq::<Step>::empty();
    assert(effects(none) =~= Seq::<ResourceEvent>::empty());
    match stage {
        Stage::Uninitialized | Stage::Terminated => {
            assert(effects(stage.teardown_steps()) =~= releases_of(stage.held()));
        },
        Stage::WindowCreated => {
            let s1 = none.push(Step::DestroySurface);
            let s2 = s1.push(Step::DestroyWindow);
            lemma_effects_push(none, Step::DestroySurface);
            lemma_effects_push(s1, Step::DestroyWindow);
            assert(s2 =~= stage.teardown_steps());
            assert(effects(s2) =~= releases_of(stage.held()));
        },
        _ => {
            let s1 = none.push(Step::ClearCurrent);
            let s2 = s1.push(Step::DestroyContext);
            let s3 = s2.push(Step::DestroySurface);
            let s4 = s3.push(Step::DestroyWindow);
            lemma_effects_push(none, Step::ClearCurrent);
            lemma_effects_push(s1, Step::DestroyContext);
            lemma_effects_push(s2, Step::DestroySurface);
            lemma_effects_push(s3, Step::DestroyWindow);
            assert(s4 =~= stage.teardown_steps());
            assert(effects(s4) =~= releases_of(stage.held()));
        },
    }
}

/// Steps that call the event handler or do nothing native leave what is
/// held as it is.
proof fn lemma_harmless_steps(held: Seq<Resource>, steps: Seq<Step>)
    requires
        forall|i: int| 0 <= i < steps.len() ==> (#[trigger] steps[i]).effect() is None,
    ensures
        held_through(held, steps) == Some(held),
    decreases steps.len(),
{
    if steps.len() == 0 {
        assert(steps =~= Seq::<Step>::empty());
        lemma_held_through_nothing::<Step>(held);
    } else {
        lemma_harmless_steps(held, steps.drop_last());
        assert(steps =~= steps.drop_last().push(steps.last()));
        lemma_held_through_push(held, steps.drop_last(), steps.last());
    }
}

/// Whatever the command, what the backend is told to do keeps the
/// discipline of resources, and what it holds afterwards is what its new
/// stage says.
pub proof fn lemma_command_keeps_discipline(shell: Shell, command: Command)
    ensures
        held_through(shell.stage.held(), shell.steps_for(command)) == Some(
            shell.after(command).stage.held(),
        ),
{
    let steps = shell.steps_for(command);
    let held = shell.stage.held();
    let none = Seq::<Step>::empty();
    lemma_held_through_nothing::<Step>(held);
    match command {
        Command::CreateWindow => {
            if shell.stage == Stage::Uninitialized {
                let s1 = none.push(Step::CreateWindow);
                lemma_held_through_push(held, none, Step::CreateWindow);
                assert(held =~= Seq::<Resource>::empty());
                let h1 = held.push(Resource::Window);
                assert(!h1.contains(Resource::Surface));
                lemma_held_through_push(held, s1, Step::CreateSurface);
                assert(s1.push(Step::CreateSurface) =~= steps);
                assert(h1.push(Resource::Surface) =~= shell.after(command).stage.held());
            }
        },
        Command::CreateContext => {
            if shell.stage == Stage::WindowCreated {
                let s1 = none.push(Step::CreateContext);
                let s2 = s1.push(Step::MakeCurrent);
                let s3 = s2.push(Step::LoadGlFunctions);
                assert(!held.contains(Resource::Context));
                lemma_held_through_push(held, none, Step::CreateContext);
                let h1 = held.push(Resource::Context);
                assert(!h1.contains(Resource::Current));
                lemma_held_through_push(held, s1, Step::MakeCurrent);
                lemma_held_through_push(held, s2, Step::LoadGlFunctions);
                lemma_held_through_push(held, s3, Step::ArmFrameTimer);
                assert(s3.push(Step::ArmFrameTimer) =~= steps);
                assert(h1.push(Resource::Current) =~= shell.after(command).stage.held());
            }
        },
        Command::Teardown => {
            lemma_teardown_in_reverse(shell.stage);
        },
        _ => {
            lemma_harmless_steps(held, steps);
        },
    }
}

/// Through any stretch of its life the backend keeps the discipline of
/// resources: nothing is acquired twice, only the resource acquired last
/// is released, and what is held in the end is what the stage says.
pub proof fn lemma_commands_keep_discipline(shell: Shell, commands: Seq<Command>)
    ensures
        held_through(shell.stage.held(), run_commands(shell, commands).trace) == Some(
            run_commands(shell, commands).shell.stage.held(),
        ),
    decreases commands.len(),
{
    if commands.len() == 0 {
        lemma_held_through_nothing::<Step>(shell.stage.held());
    } else {
        let before = run_commands(shell, commands.drop_last());
        lemma_commands_keep_discipline(shell, commands.drop_last());
        lemma_command_keeps_discipline(before.shell, commands.last());
        lemma_held_through_concat(
            shell.stage.held(),
            before.trace,
            before.shell.steps_for(commands.last()),
        );
    }
}

/// Over its whole life, however that goes and however it comes to its end,
/// the backend gives back every resource it acquired, in strict reverse
/// order of acquisition and once: after the teardown nothing is held.
pub proof fn lemma_life_ends_with_nothing_held(high_dpi: bool, commands: Seq<Command>)
    ensures
        held_through(
            Seq::<Resource>::empty(),
            run_commands(Shell::initial(high_dpi), commands.push(Command::Teardown)).trace,
        ) == Some(Seq::<Resource>::empty()),
        run_commands(Shell::initial(high_dpi), commands.push(Command::Teardown)).shell.stage
            == Stage::Terminated,
{
    let all = commands.push(Command::Teardown);
    assert(all.drop_last() =~= commands);
    assert(Stage::Uninitialized.held() =~= Seq::<Resource>::empty());
    lemma_commands_keep_discipline(Shell::initial(high_dpi), all);
}

/// Whether a command hands the event handler a resize of the caller's own
/// making. Resizes are the backend's to tell.
pub open spec fn dispatches_resize(command: Command) -> bool {
    command matches Command::Dispatch { callback } && callback is Resize
}

/// While the backend runs, the event handler has been told the framebuffer
/// size that the display holds, whatever happened so far: it is told the
/// size of the moment when it is created, before anything is drawn, and it
/// is told of every change at once. The event handler draws only while the
/// backend runs, and a frame changes no size, so whenever `draw` is called
/// the size it can query is one it has been told.
pub proof fn lemma_draw_sees_notified_size(
    high_dpi: bool,
    commands: Seq<Command>,
    known: (i32, i32),
)
    requires
        forall|i: int| 0 <= i < commands.len() ==> !dispatches_resize(#[trigger] commands[i]),
    ensures
        ({
            let run = run_commands(Shell::initial(high_dpi), commands);
            &&& run.shell.stage == Stage::Running ==> notified_size(known, run.trace)
                == run.shell.display.size()
            &&& draws(run.trace) ==> run.shell.stage == Stage::Running || run.shell.stage
                == Stage::Closing || run.shell.stage == Stage::Terminated
        }),
    decreases commands.len(),
{
    let start = Shell::initial(high_dpi);
    let run = run_commands(start, commands);
    if commands.len() == 0 {
        assert(!draws(run.trace));
    } else {
        let before = run_commands(start, commands.drop_last());
        let command = commands.last();
        let steps = before.shell.steps_for(command);
        assert forall|i: int| 0 <= i < commands.drop_last().len() implies !dispatches_resize(
            #[trigger] commands.drop_last()[i],
        ) by {
            assert(commands.drop_last()[i] == commands[i]);
        }
        lemma_draw_sees_notified_size(high_dpi, commands.drop_last(), known);
        lemma_notified_size_concat(known, before.trace, steps);
        assert(!dispatches_resize(commands[commands.len() - 1]));
        let told = notified_size(known, before.trace);
        match command {
            Command::Start => {
                if before.shell.stage == Stage::ContextReady {
                    assert(notifies(steps.last()) == Some(before.shell.display.size()));
                } else {
                    assert(tells_no_size(steps));
                    lemma_silent_actions_notify_nothing(told, steps);
                }
            },
            Command::Resized { size } => {
                if steps.len() > 0 {
                    assert(notifies(steps.last()) == Some(stored_size(size)));
                } else {
                    assert(tells_no_size(steps));
                    lemma_silent_actions_notify_nothing(told, steps);
                }
            },
            _ => {
                assert(tells_no_size(steps));
                lemma_silent_actions_notify_nothing(told, steps);
            },
        }
        if draws(run.trace) {
            let i = choose|i: int|
                0 <= i < run.trace.len() && (#[trigger] run.trace[i]).callback() == Some(
                    Callback::Draw,
                );
            if i < before.trace.len() {
                assert(before.trace[i] == run.trace[i]);
                assert(draws(before.trace));
            } else {
                assert(steps[i - before.trace.len()] == run.trace[i]);
                assert(steps.len() > 0);
            }
        }
    }
}

/// How often the steps for one command create the event handler and
/// resolve the functions of the graphics interface.
proof fn lemma_count_in_steps(shell: Shell, command: Command)
    ensures
        count(shell.steps_for(command), Step::CreateHandler) == (if command is Start && shell.stage
            == Stage::ContextReady {
            1nat
        } else {
            0nat
        }),
        count(shell.steps_for(command), Step::LoadGlFunctions) == (if command is CreateContext
            && shell.stage == Stage::WindowCreated {
            1nat
        } else {
            0nat
        }),
{
    let steps = shell.steps_for(command);
    let none = Seq::<Step>::empty();
    let h = Step::CreateHandler;
    let l = Step::LoadGlFunctions;
    if steps.len() == 0 {
    } else {
        let s1 = none.push(steps[0]);
        lemma_count_push(none, steps[0], h);
        lemma_count_push(none, steps[0], l);
        if steps.len() == 1 {
            assert(steps =~= s1);
        } else {
            let s2 = s1.push(steps[1]);
            lemma_count_push(s1, steps[1], h);
            lemma_count_push(s1, steps[1], l);
            if steps.len() == 2 {
                assert(steps =~= s2);
            } else {
                let s3 = s2.push(steps[2]);
                lemma_count_push(s2, steps[2], h);
                lemma_count_push(s2, steps[2], l);
                if steps.len() == 3 {
                    assert(steps =~= s3);
                } else {
                    let s4 = s3.push(steps[3]);
                    lemma_count_push(s3, steps[3], h);
                    lemma_count_push(s3, steps[3], l);
                    assert(steps.len() == 4);
                    assert(steps =~= s4);
                }
            }
        }
    }
}

/// The event handler is created once at most, and so are the functions of
/// the graphics interface resolved, and these before the handler is
/// created: both happen on the way to the running stage, which a backend
/// reaches once.
pub proof fn lemma_handler_created_once(high_dpi: bool, commands: Seq<Command>)
    ensures
        ({
            let run = run_commands(Shell::initial(high_dpi), commands);
            let handlers = count(run.trace, Step::CreateHandler);
            let loads = count(run.trace, Step::LoadGlFunctions);
            &&& handlers <= 1
            &&& loads <= 1
            &&& handlers <= loads
            &&& run.shell.stage == Stage::Running || run.shell.stage == Stage::Closing ==> handlers
                == 1 && loads == 1
            &&& run.shell.stage == Stage::ContextReady ==> handlers == 0 && loads == 1
            &&& run.shell.stage == Stage::Uninitialized || run.shell.stage
                == Stage::WindowCreated ==> handlers == 0 && loads == 0
        }),
    decreases commands.len(),
{
    let start = Shell::initial(high_dpi);
    if commands.len() > 0 {
        let before = run_commands(start, commands.drop_last());
        let command = commands.last();
        let steps = before.shell.steps_for(command);
        lemma_handler_created_once(high_dpi, commands.drop_last());
        lemma_count_concat(before.trace, steps, Step::CreateHandler);
        lemma_count_concat(before.trace, steps, Step::LoadGlFunctions);
        lemma_count_in_steps(before.shell, command);
    }
}

/// A close attempt that the application cancels from within the event
/// handler leaves the backend running: the handler is asked once, and
/// afterwards no quit is pending or final.
pub proof fn lemma_cancelled_close_keeps_running(shell: Shell)
    requires
        shell.stage == Stage::Running,
        !shell.display.quit_ordered,
    ensures
        shell.steps_for(Command::CloseRequested) == seq![Step::Invoke(Callback::QuitRequested)],
        shell.after(Command::CloseRequested).after(Command::CancelQuit).after(
            Command::CloseDecided,
        ).stage == Stage::Running,
        !shell.after(Command::CloseRequested).after(Command::CancelQuit).after(
            Command::CloseDecided,
        ).display.quit_ordered,
        !shell.after(Command::CloseRequested).after(Command::CancelQuit).after(
            Command::CloseDecided,
        ).display.quit_requested,
{
}

/// A close attempt that nobody cancels closes the backend, and the event
/// handler is asked once at most: once if quitting was not final, and not
/// at all if it was.
pub proof fn lemma_uncancelled_close_closes(shell: Shell)
    requires
        shell.stage == Stage::Running,
    ensures
        shell.steps_for(Command::CloseRequested).len() <= 1,
        shell.display.quit_ordered ==> shell.steps_for(Command::CloseRequested) == Seq::<
            Step,
        >::empty(),
        shell.after(Command::CloseRequested).after(Command::CloseDecided).stage == Stage::Closing,
        shell.after(Command::CloseRequested).after(Command::CloseDecided).display.quit_ordered,
{
}

/// However the backend came to close, by a close request that the
/// operating system forced on it or by the application's own order to
/// quit, the teardown is the same: the context is unbound and destroyed,
/// the surface is destroyed, the window is destroyed.
pub proof fn lemma_same_teardown_for_every_close(shell: Shell)
    requires
        shell.stage == Stage::Running,
    ensures
        ({
            let forced = shell.after(Command::CloseRequested).after(Command::CloseDecided);
            let ordered = shell.after(Command::OrderQuit).after(Command::CloseRequested).after(
                Command::CloseDecided,
            );
            &&& forced.stage == Stage::Closing
            &&& ordered.stage == Stage::Closing
            &&& forced.steps_for(Command::Teardown) == ordered.steps_for(Command::Teardown)
            &&& forced.steps_for(Command::Teardown) == seq![
                Step::ClearCurrent,
                Step::DestroyContext,
                Step::DestroySurface,
                Step::DestroyWindow,
            ]
        }),
{
}

} // verus!
