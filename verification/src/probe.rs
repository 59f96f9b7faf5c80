//! The per-version probe protocol: ensure the toolchain is installed, clear
//! the previously resolved dependency snapshot, run the chosen subcommand,
//! and read the exit status as the compiled / did-not-compile verdict.
//!
//! The outside steps run as subprocesses, so the protocol is a state
//! machine: the caller performs each step and reports its outcome.  A failed
//! toolchain installation is a valid verdict ("incompatible"), never an
//! error.

use vstd::prelude::*;
use crate::search::{run_search, start_spec};
use crate::version::BuildCommand;

verus! {

/// Where a probe stands: waiting for the toolchain installation, waiting for
/// the lock artifact to be cleared, waiting for the build, or finished with
/// its verdict.
#[derive(Clone, Copy, PartialEq, Eq, Structural, Debug)]
pub enum ProbePhase {
    NeedInstall,
    NeedLockClear,
    NeedBuild,
    Done(bool),
}

/// One probe of a (project, toolchain version) pair.  `command` is the
/// subcommand the build step must run, chosen from the version.
pub struct Probe {
    pub phase: ProbePhase,
    pub command: BuildCommand,
}

/// A probe's verdict is compiled exactly when the toolchain installed and
/// the build then exited with success.
pub open spec fn probe_verdict_spec(install_ok: bool, build_ok: bool) -> bool {
    install_ok && build_ok
}

impl Probe {
    /// Starts a probe that will run the subcommand `command`, beginning with
    /// the toolchain installation.
    pub fn start(command: BuildCommand) -> (p: Probe)
        ensures
            p.phase == ProbePhase::NeedInstall,
            p.command == command,
    {
        Probe { phase: ProbePhase::NeedInstall, command }
    }

    /// Consumes the toolchain installation outcome: an uninstallable version
    /// is incompatible, and no build is attempted for it; otherwise the lock
    /// artifact must be cleared next, so the resolver re-resolves under the
    /// new toolchain.
    pub fn on_install(&mut self, ok: bool)
        requires
            old(self).phase == ProbePhase::NeedInstall,
        ensures
            final(self).command == old(self).command,
            final(self).phase == if ok {
                ProbePhase::NeedLockClear
            } else {
                ProbePhase::Done(false)
            },
            !ok ==> final(self).phase == ProbePhase::Done(probe_verdict_spec(false, false)),
    {
        if ok {
            self.phase = ProbePhase::NeedLockClear;
        } else {
            self.phase = ProbePhase::Done(false);
        }
    }

    /// Notes that the previously resolved dependency snapshot is gone; the
    /// build step comes next.
    pub fn on_lock_cleared(&mut self)
        requires
            old(self).phase == ProbePhase::NeedLockClear,
        ensures
            final(self).command == old(self).command,
            final(self).phase == ProbePhase::NeedBuild,
    {
        self.phase = ProbePhase::NeedBuild;
    }

    /// Consumes the build outcome: the probe's verdict is exactly the build
    /// subcommand's success.
    pub fn on_build(&mut self, ok: bool)
        requires
            old(self).phase == ProbePhase::NeedBuild,
        ensures
            final(self).command == old(self).command,
            final(self).phase == ProbePhase::Done(probe_verdict_spec(true, ok)),
    {
        self.phase = ProbePhase::Done(ok);
    }

    /// The verdict of a finished probe; `None` while steps remain.
    pub fn verdict(&self) -> (r: Option<bool>)
        ensures
            r == (match self.phase {
                ProbePhase::Done(v) => Some(v),
                _ => None::<bool>,
            }),
    {
        match self.phase {
            ProbePhase::Done(v) => Some(v),
            _ => None,
        }
    }
}

/// Law: when toolchain installation fails for every version in the list,
/// every probe's verdict is "did not compile", so the search completes with
/// no oldest compatible version — and a record built from that outcome
/// carries no error, because a failed installation is a valid oracle answer,
/// not a failure.
pub proof fn lemma_all_installs_failing_is_no_error(
    p: spec_fn(int) -> bool,
    builds: spec_fn(int) -> bool,
    n: usize,
    name: Vec<u8>,
    dependency_spec: Vec<u8>,
    resolved: Option<Vec<u8>>,
    latest: Option<Vec<u8>>,
)
    requires
        forall|i: int| 0 <= i < n ==> #[trigger] p(i) == probe_verdict_spec(false, builds(i)),
    ensures
        run_search(p, start_spec(n)) is None,
        crate::report::crate_record(name, dependency_spec, resolved, None, latest).error is None,
{
    assert(forall|i: int| 0 <= i < n ==> !#[trigger] p(i));
    crate::search::lemma_search_none_when_nothing_compiles(p, n);
}

} // verus!
