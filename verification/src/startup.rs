//! The order of the steps that bring the process up, and how it ends.
//!
//! Startup is a fixed list of steps. Each either succeeds, and the next is
//! due, or fails, and startup is over: nothing is retried and no default
//! stands in for a missing configuration. The configuration is loaded before
//! any native subsystem is opened, so a missing file costs nothing but a
//! file read.

use crate::connection::Mode;
use vstd::prelude::*;

verus! {

/// One step of startup.
#[derive(Clone, Copy, Debug, PartialEq, Eq, Structural)]
pub enum StartupStep {
    /// Ask whether the USB library of this host can notify of hotplug. A
    /// query; it opens nothing.
    CheckHotplug,
    /// Find the per-user configuration directory.
    LocateConfig,
    /// Read the configuration file.
    ReadConfig,
    /// Parse what was read into the set of keyboards.
    ParseConfig,
    /// Open the HID subsystem.
    OpenHid,
    /// Open the USB subsystem.
    OpenUsb,
    /// Register for arrival and removal of every device.
    RegisterHotplug,
}

/// Why startup failed.
#[derive(Clone, Copy, Debug, PartialEq, Eq, Structural)]
pub enum StartupError {
    /// The configuration is missing, unreadable or not of the expected
    /// shape.
    Config { step: StartupStep },
    /// The host lacks hotplug notification, or a native subsystem did not
    /// come up.
    Capability { step: StartupStep },
}

/// Where startup stands after a step.
#[derive(Clone, Copy, Debug, PartialEq, Eq, Structural)]
pub enum Progress {
    /// This step is due.
    Perform { step: StartupStep },
    /// Every step succeeded: the engine can run.
    Ready,
    /// A step failed: the process ends.
    Failed { error: StartupError },
}

/// How the process ends.
#[derive(Clone, Copy, Debug, PartialEq, Eq, Structural)]
pub enum Termination {
    /// A one-shot run visited every configured keyboard.
    Completed,
    /// Startup failed.
    StartupFailed { error: StartupError },
    /// The engine gave up while running: a write failed under the policy to
    /// abort, or the USB event loop broke down.
    RuntimeFailed,
}

/// Name of the configuration file inside the per-user configuration
/// directory.
pub const CONFIG_FILE_NAME: &'static str = "keeb_os_probe.toml";

/// Exit code of a process that did what it came for.
pub const EXIT_SUCCESS: u8 = 0;

/// Exit code of a process that gave up.
pub const EXIT_FAILURE: u8 = 1;

impl StartupStep {
    /// Whether the step loads the configuration.
    pub open spec fn spec_loads_config(self) -> bool {
        self == StartupStep::LocateConfig || self == StartupStep::ReadConfig || self
            == StartupStep::ParseConfig
    }

    /// Whether the step loads the configuration.
    #[verifier::when_used_as_spec(spec_loads_config)]
    pub fn loads_config(self) -> (b: bool)
        ensures
            b == self.spec_loads_config(),
    {
        match self {
            StartupStep::LocateConfig | StartupStep::ReadConfig | StartupStep::ParseConfig => true,
            _ => false,
        }
    }

    /// Whether the step opens a native subsystem, USB or HID.
    pub open spec fn spec_opens_subsystem(self) -> bool {
        self == StartupStep::OpenHid || self == StartupStep::OpenUsb || self
            == StartupStep::RegisterHotplug
    }

    /// Whether the step opens a native subsystem, USB or HID.
    #[verifier::when_used_as_spec(spec_opens_subsystem)]
    pub fn opens_subsystem(self) -> (b: bool)
        ensures
            b == self.spec_opens_subsystem(),
    {
        match self {
            StartupStep::OpenHid | StartupStep::OpenUsb | StartupStep::RegisterHotplug => true,
            _ => false,
        }
    }

    /// The error that a failure of this step is.
    pub open spec fn spec_failure(self) -> StartupError {
        if self.spec_loads_config() {
            StartupError::Config { step: self }
        } else {
            StartupError::Capability { step: self }
        }
    }

    /// The error that a failure of this step is: a configuration error for
    /// the steps that load the configuration, a capability error for the
    /// others.
    #[verifier::when_used_as_spec(spec_failure)]
    pub fn failure(self) -> (error: StartupError)
        ensures
            error == self.spec_failure(),
    {
        if self.loads_config() {
            StartupError::Config { step: self }
        } else {
            StartupError::Capability { step: self }
        }
    }
}

/// The steps of startup in a mode, in the order they are performed. A
/// one-shot run needs no hotplug notification and no USB subsystem.
pub open spec fn startup_steps(mode: Mode) -> Seq<StartupStep> {
    match mode {
        Mode::EventDriven => seq![
            StartupStep::CheckHotplug,
            StartupStep::LocateConfig,
            StartupStep::ReadConfig,
            StartupStep::ParseConfig,
            StartupStep::OpenHid,
            StartupStep::OpenUsb,
            StartupStep::RegisterHotplug,
        ],
        Mode::OneShot => seq![
            StartupStep::LocateConfig,
            StartupStep::ReadConfig,
            StartupStep::ParseConfig,
            StartupStep::OpenHid,
        ],
    }
}

/// Where startup stands once the step at position `i` of the mode's steps
/// has succeeded or failed.
pub open spec fn progress_after(mode: Mode, i: int, succeeded: bool) -> Progress {
    let steps = startup_steps(mode);
    if !succeeded {
        Progress::Failed { error: steps[i].spec_failure() }
    } else if i + 1 < steps.len() {
        Progress::Perform { step: steps[i + 1] }
    } else {
        Progress::Ready
    }
}

/// Whether `i` is the position of `step` among the mode's steps.
pub open spec fn is_position(mode: Mode, step: StartupStep, i: int) -> bool {
    0 <= i < startup_steps(mode).len() && startup_steps(mode)[i] == step
}

/// The position of a step among the steps of a mode, if the mode has it.
fn position(mode: Mode, step: StartupStep) -> (found: Option<u8>)
    ensures
        match found {
            Some(i) => is_position(mode, step, i as int),
            None => forall|i: int| !is_position(mode, step, i),
        },
        forall|i: int| is_position(mode, step, i) ==> found == Some(i as u8),
{
    match mode {
        Mode::EventDriven => match step {
            StartupStep::CheckHotplug => Some(0),
            StartupStep::LocateConfig => Some(1),
            StartupStep::ReadConfig => Some(2),
            StartupStep::ParseConfig => Some(3),
            StartupStep::OpenHid => Some(4),
            StartupStep::OpenUsb => Some(5),
            StartupStep::RegisterHotplug => Some(6),
        },
        Mode::OneShot => match step {
            StartupStep::LocateConfig => Some(0),
            StartupStep::ReadConfig => Some(1),
            StartupStep::ParseConfig => Some(2),
            StartupStep::OpenHid => Some(3),
            _ => None,
        },
    }
}

/// The step at position `i` of a mode, if it has that many.
fn step_at(mode: Mode, i: u8) -> (found: Option<StartupStep>)
    ensures
        match found {
            Some(step) => i < startup_steps(mode).len() && startup_steps(mode)[i as int] == step,
            None => i >= startup_steps(mode).len(),
        },
{
    match mode {
        Mode::EventDriven => {
            if i == 0 {
                Some(StartupStep::CheckHotplug)
            } else if i == 1 {
                Some(StartupStep::LocateConfig)
            } else if i == 2 {
                Some(StartupStep::ReadConfig)
            } else if i == 3 {
                Some(StartupStep::ParseConfig)
            } else if i == 4 {
                Some(StartupStep::OpenHid)
            } else if i == 5 {
                Some(StartupStep::OpenUsb)
            } else if i == 6 {
                Some(StartupStep::RegisterHotplug)
            } else {
                None
            }
        },
        Mode::OneShot => {
            if i == 0 {
                Some(StartupStep::LocateConfig)
            } else if i == 1 {
                Some(StartupStep::ReadConfig)
            } else if i == 2 {
                Some(StartupStep::ParseConfig)
            } else if i == 3 {
                Some(StartupStep::OpenHid)
            } else {
                None
            }
        },
    }
}

/// The step startup begins with.
pub fn first_step(mode: Mode) -> (progress: Progress)
    ensures
        progress == (Progress::Perform { step: startup_steps(mode)[0] }),
{
    match mode {
        Mode::EventDriven => Progress::Perform { step: StartupStep::CheckHotplug },
        Mode::OneShot => Progress::Perform { step: StartupStep::LocateConfig },
    }
}

/// Where startup stands once `step` has succeeded or failed. A failure ends
/// startup with the step's error. After a success the mode's next step is
/// due, or the engine is ready where `step` was the last. A step that the
/// mode does not have leads nowhere: it counts as failed.
pub fn next_step(mode: Mode, step: StartupStep, succeeded: bool) -> (progress: Progress)
    ensures
        forall|i: int| is_position(mode, step, i) ==> progress == progress_after(mode, i, succeeded),
        (forall|i: int| !is_position(mode, step, i)) ==> progress == (Progress::Failed {
            error: step.spec_failure(),
        }),
        !succeeded ==> progress == (Progress::Failed { error: step.spec_failure() }),
{
    if !succeeded {
        return Progress::Failed { error: step.failure() };
    }
    match position(mode, step) {
        Some(i) => match step_at(mode, i + 1) {
            Some(next) => Progress::Perform { step: next },
            None => Progress::Ready,
        },
        None => Progress::Failed { error: step.failure() },
    }
}

impl Termination {
    /// The exit code of a process that ends this way.
    pub open spec fn spec_exit_code(self) -> u8 {
        match self {
            Termination::Completed => EXIT_SUCCESS,
            _ => EXIT_FAILURE,
        }
    }

    /// The exit code of a process that ends this way: zero after a
    /// completed one-shot run, whatever the single probes found; non-zero
    /// after a failed startup or a failure while running.
    #[verifier::when_used_as_spec(spec_exit_code)]
    pub fn exit_code(self) -> (code: u8)
        ensures
            code == self.spec_exit_code(),
            code == 0 <==> self == Termination::Completed,
    {
        match self {
            Termination::Completed => EXIT_SUCCESS,
            _ => EXIT_FAILURE,
        }
    }
}

/// In either mode no native subsystem is opened before the configuration is
/// loaded: every step that loads the configuration comes before every step
/// that opens a subsystem.
pub proof fn lemma_config_precedes_subsystems(mode: Mode, i: int, j: int)
    requires
        0 <= i < startup_steps(mode).len(),
        0 <= j < startup_steps(mode).len(),
        startup_steps(mode)[i].spec_loads_config(),
        startup_steps(mode)[j].spec_opens_subsystem(),
    ensures
        i < j,
{
}

/// A step that fails while the configuration is loaded ends startup with a
/// configuration error, a non-zero exit code, and no step after it.
pub proof fn lemma_config_failure_ends_startup(mode: Mode, i: int)
    requires
        0 <= i < startup_steps(mode).len(),
        startup_steps(mode)[i].spec_loads_config(),
    ensures
        progress_after(mode, i, false) == (Progress::Failed {
            error: StartupError::Config { step: startup_steps(mode)[i] },
        }),
        (Termination::StartupFailed {
            error: StartupError::Config { step: startup_steps(mode)[i] },
        }).spec_exit_code() != 0,
{
}

} // verus!
