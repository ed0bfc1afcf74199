use vstd::prelude::*;

verus! {

/// Exit status after an interrupt-driven shutdown.
pub const EXIT_OK: i32 = 0;

/// Exit status after a failed start-up.
pub const EXIT_FAILURE: i32 = 1;

/// Where the agent is in its life.
#[derive(Debug, Clone, Copy, PartialEq, Eq, Structural)]
pub enum Phase {
    Init,
    Loading,
    Attaching,
    Running,
    ShuttingDown,
    Stopped,
    Aborted,
}

/// What the outside world reports to the controller.
#[derive(Debug, Clone, Copy, PartialEq, Eq, Structural)]
pub enum Event {
    Start,
    Loaded,
    LoadFailed,
    Attached,
    AttachFailed,
    RingOpened,
    RingFailed,
    Interrupted,
    TaskFinished,
    GraceExpired,
}

/// What the controller asks the outside world to do, in order.
#[derive(Debug, Clone, Copy, PartialEq, Eq, Structural)]
pub enum Command {
    /// Load the probe bytecode into the kernel.
    Load,
    /// Attach the loaded probe to the execution entry point.
    Attach,
    /// Open the shared ring buffer of the loaded program.
    OpenRing,
    /// Start the background consumption task.
    SpawnTask,
    /// Signal the consumption task to stop, and wait for it within the grace period.
    CancelTask,
    /// The task outlived its grace period: terminate it and log that as fatal.
    AbortTask,
    /// Release the ring buffer handle.
    CloseRing,
    /// Detach the probe.
    Detach,
    /// Unload the program.
    Unload,
    /// End the process with this status.
    Exit(i32),
}

/// The controller's state: its phase and which resources it holds.
#[derive(Debug, Clone, Copy, PartialEq, Eq, Structural)]
pub struct Controller {
    pub phase: Phase,
    pub loaded: bool,
    pub attached: bool,
    pub ring_open: bool,
    pub task_running: bool,
}

/// The state before anything was done.
pub open spec fn initial() -> Controller {
    Controller {
        phase: Phase::Init,
        loaded: false,
        attached: false,
        ring_open: false,
        task_running: false,
    }
}

/// The resources held agree with the phase.
pub open spec fn wf(c: Controller) -> bool {
    match c.phase {
        Phase::Init | Phase::Loading | Phase::Stopped | Phase::Aborted => !c.loaded && !c.attached
            && !c.ring_open && !c.task_running,
        Phase::Attaching => c.loaded && !c.ring_open && !c.task_running,
        Phase::Running | Phase::ShuttingDown => c.loaded && c.attached && c.ring_open
            && c.task_running,
    }
}

/// A state that holds nothing, in phase `p`.
pub open spec fn bare(p: Phase) -> Controller {
    Controller { phase: p, loaded: false, attached: false, ring_open: false, task_running: false }
}

/// The next state and the commands to carry out, for each state and event;
/// an event that does not fit the state changes nothing.
pub open spec fn transition(c: Controller, ev: Event) -> (Controller, Seq<Command>) {
    if c.phase is Init && ev is Start {
        (Controller { phase: Phase::Loading, ..c }, seq![Command::Load])
    } else if c.phase is Loading && ev is Loaded {
        (Controller { phase: Phase::Attaching, loaded: true, ..c }, seq![Command::Attach])
    } else if c.phase is Loading && ev is LoadFailed {
        (bare(Phase::Aborted), seq![Command::Exit(EXIT_FAILURE)])
    } else if c.phase is Attaching && !c.attached && ev is Attached {
        (Controller { attached: true, ..c }, seq![Command::OpenRing])
    } else if c.phase is Attaching && !c.attached && ev is AttachFailed {
        (bare(Phase::Aborted), seq![Command::Unload, Command::Exit(EXIT_FAILURE)])
    } else if c.phase is Attaching && c.attached && ev is RingOpened {
        (
            Controller { phase: Phase::Running, ring_open: true, task_running: true, ..c },
            seq![Command::SpawnTask],
        )
    } else if c.phase is Attaching && c.attached && ev is RingFailed {
        (
            bare(Phase::Aborted),
            seq![Command::Detach, Command::Unload, Command::Exit(EXIT_FAILURE)],
        )
    } else if c.phase is Running && ev is Interrupted {
        (Controller { phase: Phase::ShuttingDown, ..c }, seq![Command::CancelTask])
    } else if c.phase is ShuttingDown && ev is TaskFinished {
        (
            bare(Phase::Stopped),
            seq![Command::CloseRing, Command::Detach, Command::Unload, Command::Exit(EXIT_OK)],
        )
    } else if c.phase is ShuttingDown && ev is GraceExpired {
        (
            bare(Phase::Stopped),
            seq![
                Command::AbortTask,
                Command::CloseRing,
                Command::Detach,
                Command::Unload,
                Command::Exit(EXIT_OK),
            ],
        )
    } else {
        (c, seq![])
    }
}

/// A state that has ended the process.
pub open spec fn finished(c: Controller) -> bool {
    c.phase is Stopped || c.phase is Aborted
}

/// `cmds` releases every resource that `c` holds and then ends the process
/// with `code`.
pub open spec fn releases_all(c: Controller, cmds: Seq<Command>, code: i32) -> bool {
    &&& cmds.len() > 0
    &&& cmds.last() == Command::Exit(code)
    &&& c.ring_open ==> cmds.contains(Command::CloseRing)
    &&& c.attached ==> cmds.contains(Command::Detach)
    &&& c.loaded ==> cmds.contains(Command::Unload)
    &&& !cmds.contains(Command::SpawnTask)
}

/// Every step keeps the resources held in agreement with the phase.
pub proof fn lemma_step_preserves_wf(c: Controller, ev: Event)
    requires
        wf(c),
    ensures
        wf(transition(c, ev).0),
{
}

/// Every path to the end, a failed start-up or a shutdown, releases whatever
/// was acquired and leaves nothing held; a failed start-up exits with a
/// failure status and never starts the consumption task, a shutdown exits
/// with success.
pub proof fn lemma_exit_releases_all(c: Controller, ev: Event)
    requires
        wf(c),
        !finished(c),
        finished(transition(c, ev).0),
    ensures
        ({
            let (n, cmds) = transition(c, ev);
            &&& !n.loaded && !n.attached && !n.ring_open && !n.task_running
            &&& n.phase is Stopped ==> releases_all(c, cmds, EXIT_OK)
            &&& n.phase is Aborted ==> releases_all(c, cmds, EXIT_FAILURE)
        }),
{
    let (n, cmds) = transition(c, ev);
    if n.phase is Stopped {
        if ev is TaskFinished {
            assert(cmds[0] == Command::CloseRing);
            assert(cmds[1] == Command::Detach);
            assert(cmds[2] == Command::Unload);
        } else {
            assert(cmds[1] == Command::CloseRing);
            assert(cmds[2] == Command::Detach);
            assert(cmds[3] == Command::Unload);
        }
    } else if ev is AttachFailed {
        assert(cmds[0] == Command::Unload);
    } else if ev is RingFailed {
        assert(cmds[0] == Command::Detach);
        assert(cmds[1] == Command::Unload);
    }
}

/// Once the process has ended, no event changes the state or asks for work.
pub proof fn lemma_finished_is_final(c: Controller, ev: Event)
    requires
        finished(c),
    ensures
        transition(c, ev) == (c, Seq::<Command>::empty()),
{
}

impl Controller {
    /// A controller that has done nothing yet.
    pub fn new() -> (r: Controller)
        ensures
            r == initial(),
            wf(r),
    {
        Controller {
            phase: Phase::Init,
            loaded: false,
            attached: false,
            ring_open: false,
            task_running: false,
        }
    }

    fn bare(p: Phase) -> (r: Controller)
        ensures
            r == bare(p),
    {
        Controller { phase: p, loaded: false, attached: false, ring_open: false, task_running: false }
    }

    /// Takes one event: moves to the next state and returns the commands to
    /// carry out, in order.
    pub fn step(&mut self, ev: Event) -> (r: Vec<Command>)
        ensures
            (*final(self), r@) == transition(*old(self), ev),
    {
        let c = *self;
        match (c.phase, ev) {
            (Phase::Init, Event::Start) => {
                self.phase = Phase::Loading;
                vec![Command::Load]
            },
            (Phase::Loading, Event::Loaded) => {
                self.phase = Phase::Attaching;
                self.loaded = true;
                vec![Command::Attach]
            },
            (Phase::Loading, Event::LoadFailed) => {
                *self = Controller::bare(Phase::Aborted);
                vec![Command::Exit(EXIT_FAILURE)]
            },
            (Phase::Attaching, Event::Attached) if !c.attached => {
                self.attached = true;
                vec![Command::OpenRing]
            },
            (Phase::Attaching, Event::AttachFailed) if !c.attached => {
                *self = Controller::bare(Phase::Aborted);
                vec![Command::Unload, Command::Exit(EXIT_FAILURE)]
            },
            (Phase::Attaching, Event::RingOpened) if c.attached => {
                self.phase = Phase::Running;
                self.ring_open = true;
                self.task_running = true;
                vec![Command::SpawnTask]
            },
            (Phase::Attaching, Event::RingFailed) if c.attached => {
                *self = Controller::bare(Phase::Aborted);
                vec![Command::Detach, Command::Unload, Command::Exit(EXIT_FAILURE)]
            },
            (Phase::Running, Event::Interrupted) => {
                self.phase = Phase::ShuttingDown;
                vec![Command::CancelTask]
            },
            (Phase::ShuttingDown, Event::TaskFinished) => {
                *self = Controller::bare(Phase::Stopped);
                vec![Command::CloseRing, Command::Detach, Command::Unload, Command::Exit(EXIT_OK)]
            },
            (Phase::ShuttingDown, Event::GraceExpired) => {
                *self = Controller::bare(Phase::Stopped);
                vec![
                    Command::AbortTask,
                    Command::CloseRing,
                    Command::Detach,
                    Command::Unload,
                    Command::Exit(EXIT_OK),
                ]
            },
            _ => Vec::new(),
        }
    }
}

} // verus!
