//! What an application host is configured with, and the order in which it
//! takes an application through its life.
//!
//! A host is driven from outside, like a scheduled task: the driver asks the
//! lifecycle what comes next, carries it out and asks again, until the answer
//! is `Done`.

use crate::clockwork_config::ClockworkConfig;
use crate::clockwork_logger::LoggerConfig;
use vstd::prelude::*;

verus! {

/// Everything that configures an application host: the runtime, the logger
/// and the application's own part.
pub struct ClockworkAppConfig<T> {
    /// Settings of the runtime.
    pub clockwork: ClockworkConfig,
    /// Settings of the logger.
    pub logger: LoggerConfig,
    /// The application's own configuration, handed to it as it is.
    pub app: T,
}

impl<T> ClockworkAppConfig<T> {
    /// The configuration that decoded sections stand for: the `clockwork`
    /// and `logger` sections may be absent and then have their defaults, the
    /// `app` section is taken as it is.
    pub open spec fn spec_from_sections(
        clockwork: Option<ClockworkConfig>,
        logger: Option<LoggerConfig>,
        app: T,
    ) -> ClockworkAppConfig<T> {
        ClockworkAppConfig {
            clockwork: match clockwork {
                Some(c) => c,
                None => ClockworkConfig::spec_default(),
            },
            logger: match logger {
                Some(l) => l,
                None => LoggerConfig::spec_default(),
            },
            app,
        }
    }

    /// Builds the configuration from decoded sections, filling an absent
    /// `clockwork` or `logger` section with its default.
    pub fn from_sections(
        clockwork: Option<ClockworkConfig>,
        logger: Option<LoggerConfig>,
        app: T,
    ) -> (conf: ClockworkAppConfig<T>)
        ensures
            conf == Self::spec_from_sections(clockwork, logger, app),
    {
        ClockworkAppConfig {
            clockwork: match clockwork {
                Some(c) => c,
                None => ClockworkConfig::default(),
            },
            logger: match logger {
                Some(l) => l,
                None => LoggerConfig::default(),
            },
            app,
        }
    }
}

/// How far an application has come.
#[derive(Clone, Copy, Debug, PartialEq, Eq, Structural)]
pub enum LifecyclePhase {
    /// Nothing has been called yet.
    Created,
    /// `setup` has been called.
    SetupDone,
    /// `run` has been started.
    Running,
    /// `run` is over and `shutdown` has been called. There is no way on from here.
    ShutdownDone,
}

/// What the host does next.
#[derive(Clone, Copy, Debug, PartialEq, Eq, Structural)]
pub enum LifecycleAction {
    /// Make the logger the one that log lines go to.
    ActivateLogger,
    /// Call the application's `setup`.
    Setup,
    /// Run the application's `run` to its end.
    Run,
    /// Call the application's `shutdown`.
    Shutdown,
    /// Return: the application has been through its life.
    Done,
}

/// A lifecycle as contracts see it.
pub struct LifecycleState {
    /// How far the application has come.
    pub phase: LifecyclePhase,
    /// A logger is there and has not been activated yet.
    pub logger_pending: bool,
}

/// The lifecycle of an application that has just been handed to a host.
pub open spec fn created(with_logger: bool) -> LifecycleState {
    LifecycleState { phase: LifecyclePhase::Created, logger_pending: with_logger }
}

/// One step: the state that follows and what the host is asked to do.
pub open spec fn next(life: LifecycleState) -> (LifecycleState, LifecycleAction) {
    match life.phase {
        LifecyclePhase::Created => {
            if life.logger_pending {
                (
                    LifecycleState { phase: LifecyclePhase::Created, logger_pending: false },
                    LifecycleAction::ActivateLogger,
                )
            } else {
                (
                    LifecycleState { phase: LifecyclePhase::SetupDone, logger_pending: false },
                    LifecycleAction::Setup,
                )
            }
        },
        LifecyclePhase::SetupDone => (
            LifecycleState { phase: LifecyclePhase::Running, logger_pending: false },
            LifecycleAction::Run,
        ),
        LifecyclePhase::Running => (
            LifecycleState { phase: LifecyclePhase::ShutdownDone, logger_pending: false },
            LifecycleAction::Shutdown,
        ),
        LifecyclePhase::ShutdownDone => (
            LifecycleState { phase: LifecyclePhase::ShutdownDone, logger_pending: false },
            LifecycleAction::Done,
        ),
    }
}

/// The state after `n` steps.
pub open spec fn life_after(life: LifecycleState, n: nat) -> LifecycleState
    decreases n,
{
    if n == 0 {
        life
    } else {
        next(life_after(life, (n - 1) as nat)).0
    }
}

/// What step `i` asks for.
pub open spec fn life_action_at(life: LifecycleState, i: nat) -> LifecycleAction {
    next(life_after(life, i)).1
}

/// How many steps a lifecycle has behind it, counted from a fresh lifecycle
/// with a logger.
pub open spec fn progress(life: LifecycleState) -> nat {
    match life.phase {
        LifecyclePhase::Created => if life.logger_pending {
            0
        } else {
            1
        },
        LifecyclePhase::SetupDone => 2,
        LifecyclePhase::Running => 3,
        LifecyclePhase::ShutdownDone => 4,
    }
}

/// The order in which a host takes an application through its life.
pub struct Lifecycle {
    phase: LifecyclePhase,
    logger_pending: bool,
}

impl View for Lifecycle {
    type V = LifecycleState;

    closed spec fn view(&self) -> LifecycleState {
        LifecycleState { phase: self.phase, logger_pending: self.logger_pending }
    }
}

impl Lifecycle {
    /// The lifecycle of an application on which nothing has been called yet.
    /// `with_logger` says whether the host has a logger to activate.
    pub fn new(with_logger: bool) -> (life: Self)
        ensures
            life@ == created(with_logger),
    {
        Lifecycle { phase: LifecyclePhase::Created, logger_pending: with_logger }
    }

    /// How far the application has come.
    pub fn phase(&self) -> (phase: LifecyclePhase)
        ensures
            phase == self@.phase,
    {
        self.phase
    }

    /// Says what the host does next and moves on. The host carries the
    /// answer out before it asks again.
    pub fn advance(&mut self) -> (action: LifecycleAction)
        ensures
            (final(self)@, action) == next(old(self)@),
    {
        match self.phase {
            LifecyclePhase::Created => {
                if self.logger_pending {
                    self.logger_pending = false;
                    LifecycleAction::ActivateLogger
                } else {
                    self.phase = LifecyclePhase::SetupDone;
                    LifecycleAction::Setup
                }
            },
            LifecyclePhase::SetupDone => {
                self.logger_pending = false;
                self.phase = LifecyclePhase::Running;
                LifecycleAction::Run
            },
            LifecyclePhase::Running => {
                self.logger_pending = false;
                self.phase = LifecyclePhase::ShutdownDone;
                LifecycleAction::Shutdown
            },
            LifecyclePhase::ShutdownDone => {
                self.logger_pending = false;
                LifecycleAction::Done
            },
        }
    }
}

/// The lifecycle is a straight line: every step that asks for something
/// moves exactly one place forward, and the only step that asks for nothing
/// is the one at the end, which stays there.
pub proof fn lemma_lifecycle_is_linear(life: LifecycleState)
    ensures
        next(life).1 != LifecycleAction::Done ==> progress(next(life).0) == progress(life) + 1,
        next(life).1 == LifecycleAction::Done <==> life.phase == LifecyclePhase::ShutdownDone,
        life.phase == LifecyclePhase::ShutdownDone ==> next(life).0.phase
            == LifecyclePhase::ShutdownDone,
        progress(next(life).0) >= progress(life),
{
}

/// Once shut down, an application stays shut down: every later step answers
/// `Done` and nothing is called again.
pub proof fn lemma_shutdown_is_final(life: LifecycleState, m: nat, n: nat)
    requires
        m <= n,
        life_after(life, m).phase == LifecyclePhase::ShutdownDone,
    ensures
        life_after(life, n).phase == LifecyclePhase::ShutdownDone,
        life_action_at(life, n) == LifecycleAction::Done,
    decreases n,
{
    if n > m {
        lemma_shutdown_is_final(life, m, (n - 1) as nat);
    }
}

/// What a host does, in order. With a logger: activate it, then `setup`,
/// `run`, `shutdown`, and return. Without one: `setup`, `run`, `shutdown`,
/// and return. The logger is activated once and before `setup`; `shutdown`
/// comes after `run` in every case; after `Done` nothing else is ever asked.
pub proof fn lemma_lifecycle_order(with_logger: bool, n: nat)
    ensures
        with_logger ==> {
            &&& life_action_at(created(true), 0) == LifecycleAction::ActivateLogger
            &&& life_action_at(created(true), 1) == LifecycleAction::Setup
            &&& life_action_at(created(true), 2) == LifecycleAction::Run
            &&& life_action_at(created(true), 3) == LifecycleAction::Shutdown
            &&& (n >= 4 ==> life_action_at(created(true), n) == LifecycleAction::Done)
        },
        !with_logger ==> {
            &&& life_action_at(created(false), 0) == LifecycleAction::Setup
            &&& life_action_at(created(false), 1) == LifecycleAction::Run
            &&& life_action_at(created(false), 2) == LifecycleAction::Shutdown
            &&& (n >= 3 ==> life_action_at(created(false), n) == LifecycleAction::Done)
        },
{
    let life = created(with_logger);
    assert(life_after(life, 1) == next(life_after(life, 0)).0);
    assert(life_after(life, 2) == next(life_after(life, 1)).0);
    assert(life_after(life, 3) == next(life_after(life, 2)).0);
    assert(life_after(life, 4) == next(life_after(life, 3)).0);
    if with_logger {
        if n >= 4 {
            lemma_shutdown_is_final(life, 4, n);
        }
    } else {
        if n >= 3 {
            lemma_shutdown_is_final(life, 3, n);
        }
    }
}

} // verus!
