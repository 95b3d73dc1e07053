//! The update scheduler as an explicit state machine.
//!
//! The long-running loop alternates outside work — probing files, the
//! transfer, decoding, sleeping — with decisions. The decisions live here:
//! each phase names the one command to perform, and each (phase, outcome)
//! pair names the next phase. The caller runs the loop, performs each
//! command, and feeds the outcome back in. Every failure is absorbed: no
//! event ever stops the machine, it only steers the cycle.

use vstd::prelude::*;

verus! {

/// How long the scheduler rests between cycles, in seconds.
pub const UPDATE_INTERVAL_SECS: u64 = 86400;

/// Where the machine stands.
#[derive(Clone, Copy, PartialEq, Eq, Structural, Debug)]
pub enum Phase {
    /// Make sure the data directory exists.
    BootEnsureDir,
    /// See whether the current-dataset indirection exists.
    BootProbeLatest,
    /// No dataset yet: install the current period's file.
    BootInstall,
    /// Load whatever the indirection names, if anything.
    BootLoad,
    /// Rest until the next cycle.
    Idle,
    /// See whether the current period's file exists.
    CheckPeriod,
    /// The period's file is missing: install it.
    Install,
    /// A fresh install succeeded: decode and publish it.
    Reload,
    /// Retire stale dataset files.
    Prune,
}

/// What the machine asks its caller to do next.
#[derive(Clone, Copy, PartialEq, Eq, Structural, Debug)]
pub enum Command {
    /// Create the data directory if it is absent.
    EnsureDataDir,
    /// Report whether the current-dataset indirection exists.
    ProbeLatest,
    /// Run the installer for the current period.
    InstallCurrentPeriod,
    /// Decode the file the indirection names and publish it.
    LoadLatest,
    /// Sleep for the update interval.
    Sleep,
    /// Report whether the current period's dataset file exists.
    ProbePeriodFile,
    /// Delete stale dataset files.
    PruneOld,
}

/// What the caller reports back.
#[derive(Clone, Copy, PartialEq, Eq, Structural, Debug)]
pub enum Event {
    /// The data directory exists now (or could not be created).
    DirEnsured(bool),
    /// Whether the current-dataset indirection exists.
    LatestProbed(bool),
    /// Whether the install succeeded (a no-op install counts as success).
    Installed(bool),
    /// Whether a snapshot was decoded and published.
    Loaded(bool),
    /// The rest is over.
    Slept,
    /// Whether the current period's dataset file exists.
    PeriodFileProbed(bool),
    /// Whether pruning ran to completion.
    Pruned(bool),
}

/// The command each phase performs.
pub open spec fn spec_command(p: Phase) -> Command {
    match p {
        Phase::BootEnsureDir => Command::EnsureDataDir,
        Phase::BootProbeLatest => Command::ProbeLatest,
        Phase::BootInstall => Command::InstallCurrentPeriod,
        Phase::BootLoad => Command::LoadLatest,
        Phase::Idle => Command::Sleep,
        Phase::CheckPeriod => Command::ProbePeriodFile,
        Phase::Install => Command::InstallCurrentPeriod,
        Phase::Reload => Command::LoadLatest,
        Phase::Prune => Command::PruneOld,
    }
}

/// The transition table. Bootstrap: ensure the directory, install only when
/// the indirection is absent, then load and enter the cycle. Each cycle:
/// sleep, probe the period's file, install it when missing, reload only
/// after a fresh successful install, and always prune before resting again.
/// A failure never diverts the machine except to skip the dependent reload;
/// an outcome that does not answer the phase's command leaves the machine
/// where it stands.
pub open spec fn spec_step(p: Phase, e: Event) -> Phase {
    match p {
        Phase::BootEnsureDir => match e {
            Event::DirEnsured(ok) => if ok {
                Phase::BootProbeLatest
            } else {
                Phase::BootLoad
            },
            _ => p,
        },
        Phase::BootProbeLatest => match e {
            Event::LatestProbed(exists) => if exists {
                Phase::BootLoad
            } else {
                Phase::BootInstall
            },
            _ => p,
        },
        Phase::BootInstall => match e {
            Event::Installed(_) => Phase::BootLoad,
            _ => p,
        },
        Phase::BootLoad => match e {
            Event::Loaded(_) => Phase::Idle,
            _ => p,
        },
        Phase::Idle => match e {
            Event::Slept => Phase::CheckPeriod,
            _ => p,
        },
        Phase::CheckPeriod => match e {
            Event::PeriodFileProbed(exists) => if exists {
                Phase::Prune
            } else {
                Phase::Install
            },
            _ => p,
        },
        Phase::Install => match e {
            Event::Installed(ok) => if ok {
                Phase::Reload
            } else {
                Phase::Prune
            },
            _ => p,
        },
        Phase::Reload => match e {
            Event::Loaded(_) => Phase::Prune,
            _ => p,
        },
        Phase::Prune => match e {
            Event::Pruned(_) => Phase::Idle,
            _ => p,
        },
    }
}

/// The long-running control loop's state.
pub struct UpdateScheduler {
    phase: Phase,
}

impl UpdateScheduler {
    /// Where the machine stands.
    pub closed spec fn spec_phase(self) -> Phase {
        self.phase
    }

    /// A scheduler about to bootstrap.
    pub fn new() -> (s: UpdateScheduler)
        ensures
            s.spec_phase() == Phase::BootEnsureDir,
    {
        UpdateScheduler { phase: Phase::BootEnsureDir }
    }

    /// The command to perform in the current phase.
    pub fn next_command(&self) -> (c: Command)
        ensures
            c == spec_command(self.spec_phase()),
    {
        match self.phase {
            Phase::BootEnsureDir => Command::EnsureDataDir,
            Phase::BootProbeLatest => Command::ProbeLatest,
            Phase::BootInstall => Command::InstallCurrentPeriod,
            Phase::BootLoad => Command::LoadLatest,
            Phase::Idle => Command::Sleep,
            Phase::CheckPeriod => Command::ProbePeriodFile,
            Phase::Install => Command::InstallCurrentPeriod,
            Phase::Reload => Command::LoadLatest,
            Phase::Prune => Command::PruneOld,
        }
    }

    /// Advances the machine by one reported outcome.
    pub fn on_event(&mut self, e: Event)
        ensures
            final(self).spec_phase() == spec_step(old(self).spec_phase(), e),
    {
        let next = match self.phase {
            Phase::BootEnsureDir => match e {
                Event::DirEnsured(ok) => if ok {
                    Phase::BootProbeLatest
                } else {
                    Phase::BootLoad
                },
                _ => self.phase,
            },
            Phase::BootProbeLatest => match e {
                Event::LatestProbed(exists) => if exists {
                    Phase::BootLoad
                } else {
                    Phase::BootInstall
                },
                _ => self.phase,
            },
            Phase::BootInstall => match e {
                Event::Installed(_) => Phase::BootLoad,
                _ => self.phase,
            },
            Phase::BootLoad => match e {
                Event::Loaded(_) => Phase::Idle,
                _ => self.phase,
            },
            Phase::Idle => match e {
                Event::Slept => Phase::CheckPeriod,
                _ => self.phase,
            },
            Phase::CheckPeriod => match e {
                Event::PeriodFileProbed(exists) => if exists {
                    Phase::Prune
                } else {
                    Phase::Install
                },
                _ => self.phase,
            },
            Phase::Install => match e {
                Event::Installed(ok) => if ok {
                    Phase::Reload
                } else {
                    Phase::Prune
                },
                _ => self.phase,
            },
            Phase::Reload => match e {
                Event::Loaded(_) => Phase::Prune,
                _ => self.phase,
            },
            Phase::Prune => match e {
                Event::Pruned(_) => Phase::Idle,
                _ => self.phase,
            },
        };
        self.phase = next;
    }
}

/// The reload of a cycle is entered only on the heels of a fresh successful
/// install; outside bootstrap, no other path decodes anew, so a period
/// already installed is never fetched or reloaded again.
pub proof fn lemma_reload_needs_fresh_install(p: Phase, e: Event)
    requires
        spec_step(p, e) == Phase::Reload,
        p != Phase::Reload,
    ensures
        p == Phase::Install && e == Event::Installed(true),
{
}

/// Every cycle prunes: from the moment the period file was probed, the
/// machine reaches `Prune` before it rests again, whatever the outcomes.
pub proof fn lemma_cycle_always_prunes(p: Phase, e: Event)
    requires
        p == Phase::CheckPeriod || p == Phase::Install || p == Phase::Reload,
    ensures
        spec_step(p, e) != Phase::Idle,
        spec_step(p, e) == Phase::CheckPeriod ==> p == Phase::CheckPeriod,
        spec_step(p, e) == Phase::Install ==> p == Phase::CheckPeriod || p == Phase::Install,
{
}

} // verus!
