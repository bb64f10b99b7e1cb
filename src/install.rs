//! Adding dependencies to a sandbox's manifest, one at a time and in order,
//! stopping at the first failure.
use vstd::prelude::*;
use crate::sandbox::{Sandbox, SandboxView};

verus! {

/// State of an install run.
pub struct InstallView {
    pub sandbox: SandboxView,
    /// The dependency specs asked for, in order.
    pub pending: Seq<Seq<char>>,
    /// How many of them were added.
    pub done: nat,
    /// The add of `pending[done]` failed.
    pub failed: bool,
}

pub open spec fn install_wf(v: InstallView) -> bool {
    v.done <= v.pending.len() && (v.failed ==> v.done < v.pending.len())
}

/// An add is due: nothing failed and something is left.
pub open spec fn install_ready(v: InstallView) -> bool {
    !v.failed && v.done < v.pending.len()
}

/// The state after the due add succeeded (`added`) or failed.
pub open spec fn install_report(v: InstallView, added: bool) -> InstallView {
    if added {
        InstallView {
            sandbox: SandboxView { deps: v.sandbox.deps.push(v.pending[v.done as int]), ..v.sandbox },
            done: v.done + 1,
            ..v
        }
    } else {
        InstallView { failed: true, ..v }
    }
}

/// The state reached when the adds due have the outcomes `outcomes`, in turn.
pub open spec fn install_run(v: InstallView, outcomes: Seq<bool>) -> InstallView
    decreases outcomes.len(),
{
    if outcomes.len() == 0 || !install_ready(v) {
        v
    } else {
        install_run(install_report(v, outcomes[0]), outcomes.drop_first())
    }
}

/// The dependency specs whose add is attempted in that run, in order.
pub open spec fn install_attempts(v: InstallView, outcomes: Seq<bool>) -> Seq<Seq<char>>
    decreases outcomes.len(),
{
    if outcomes.len() == 0 || !install_ready(v) {
        Seq::empty()
    } else {
        seq![v.pending[v.done as int]] + install_attempts(
            install_report(v, outcomes[0]),
            outcomes.drop_first(),
        )
    }
}

proof fn lemma_run_from(v: InstallView, outcomes: Seq<bool>, k: int)
    requires
        !v.failed,
        0 <= k < outcomes.len(),
        v.done + k < v.pending.len(),
        forall|i: int| 0 <= i < k ==> outcomes[i],
        !outcomes[k],
    ensures
        install_run(v, outcomes) == (InstallView {
            sandbox: SandboxView {
                deps: v.sandbox.deps + v.pending.subrange(v.done as int, v.done + k),
                ..v.sandbox
            },
            done: (v.done + k) as nat,
            failed: true,
            ..v
        }),
        install_attempts(v, outcomes) == v.pending.subrange(v.done as int, v.done + k + 1),
    decreases k,
{
    let next = install_report(v, outcomes[0]);
    let rest = outcomes.drop_first();
    if k == 0 {
        assert(install_run(next, rest) == next);
        assert(install_attempts(next, rest) =~= Seq::empty());
        assert(v.sandbox.deps + v.pending.subrange(v.done as int, v.done as int) =~= v.sandbox.deps);
        assert(v.pending.subrange(v.done as int, v.done + 1int) =~= seq![v.pending[v.done as int]]);
    } else {
        assert forall|i: int| 0 <= i < k - 1 implies rest[i] by {
            assert(rest[i] == outcomes[i + 1]);
        }
        lemma_run_from(next, rest, k - 1);
        assert(next.sandbox.deps + next.pending.subrange(next.done as int, next.done + k - 1)
            =~= v.sandbox.deps + v.pending.subrange(v.done as int, v.done + k));
        assert(seq![v.pending[v.done as int]] + v.pending.subrange(next.done as int, next.done + k)
            =~= v.pending.subrange(v.done as int, v.done + k + 1));
    }
}

/// Installing is not atomic and stops at the first failure: when every add
/// before position `k` succeeds and the add at `k` fails, the specs before
/// `k` stay added, the run ends failed, and no spec after `k` is attempted.
pub proof fn lemma_partial_install(v: InstallView, outcomes: Seq<bool>, k: int)
    requires
        v.done == 0,
        !v.failed,
        0 <= k < v.pending.len(),
        k < outcomes.len(),
        forall|i: int| 0 <= i < k ==> outcomes[i],
        !outcomes[k],
    ensures
        install_run(v, outcomes).failed,
        install_run(v, outcomes).sandbox.deps == v.sandbox.deps + v.pending.take(k),
        install_attempts(v, outcomes) == v.pending.take(k + 1),
        !install_ready(install_run(v, outcomes)),
{
    lemma_run_from(v, outcomes, k);
    assert(v.pending.subrange(0, k) =~= v.pending.take(k));
    assert(v.pending.subrange(0, k + 1) =~= v.pending.take(k + 1));
}

/// The run started on `s` for the specs `pending`.
pub open spec fn install_start(s: SandboxView, pending: Seq<Seq<char>>) -> InstallView {
    InstallView { sandbox: s, pending, done: 0, failed: false }
}

/// An install run changes nothing of the sandbox but its manifest, to which
/// it appends its own specs, in order.
pub proof fn lemma_install_appends(v: InstallView, outcomes: Seq<bool>)
    requires
        install_wf(v),
    ensures
        install_wf(install_run(v, outcomes)),
        install_run(v, outcomes).pending == v.pending,
        v.done <= install_run(v, outcomes).done,
        install_run(v, outcomes).sandbox == (SandboxView {
            deps: v.sandbox.deps + v.pending.subrange(
                v.done as int,
                install_run(v, outcomes).done as int,
            ),
            ..v.sandbox
        }),
    decreases outcomes.len(),
{
    let r = install_run(v, outcomes);
    if outcomes.len() == 0 || !install_ready(v) {
        assert(v.sandbox.deps + v.pending.subrange(v.done as int, v.done as int) =~= v.sandbox.deps);
    } else {
        let next = install_report(v, outcomes[0]);
        lemma_install_appends(next, outcomes.drop_first());
        if outcomes[0] {
            assert(next.sandbox.deps + v.pending.subrange(next.done as int, r.done as int)
                =~= v.sandbox.deps + v.pending.subrange(v.done as int, r.done as int));
        }
    }
}

proof fn lemma_all_added(v: InstallView, outcomes: Seq<bool>)
    requires
        install_wf(v),
        !v.failed,
        outcomes.len() >= v.pending.len() - v.done,
        forall|i: int| 0 <= i < outcomes.len() ==> outcomes[i],
    ensures
        install_run(v, outcomes).done == v.pending.len(),
        !install_run(v, outcomes).failed,
    decreases outcomes.len(),
{
    if outcomes.len() > 0 && install_ready(v) {
        let rest = outcomes.drop_first();
        assert forall|i: int| 0 <= i < rest.len() implies rest[i] by {
            assert(rest[i] == outcomes[i + 1]);
        }
        lemma_all_added(install_report(v, outcomes[0]), rest);
    }
}

/// Install runs made one after the other, each with every add succeeding,
/// leave the specs of the first and then those of the second: the manifest
/// that one run of both lists would leave.
pub proof fn lemma_installs_in_sequence(
    s: SandboxView,
    a: Seq<Seq<char>>,
    b: Seq<Seq<char>>,
    outcomes_a: Seq<bool>,
    outcomes_b: Seq<bool>,
)
    requires
        outcomes_a.len() >= a.len(),
        outcomes_b.len() >= b.len(),
        forall|i: int| 0 <= i < outcomes_a.len() ==> outcomes_a[i],
        forall|i: int| 0 <= i < outcomes_b.len() ==> outcomes_b[i],
    ensures
        ({
            let first = install_run(install_start(s, a), outcomes_a);
            let second = install_run(install_start(first.sandbox, b), outcomes_b);
            &&& !first.failed
            &&& !second.failed
            &&& second.sandbox == (SandboxView { deps: s.deps + (a + b), ..s })
        }),
{
    let first = install_run(install_start(s, a), outcomes_a);
    lemma_all_added(install_start(s, a), outcomes_a);
    lemma_install_appends(install_start(s, a), outcomes_a);
    let second = install_run(install_start(first.sandbox, b), outcomes_b);
    lemma_all_added(install_start(first.sandbox, b), outcomes_b);
    lemma_install_appends(install_start(first.sandbox, b), outcomes_b);
    assert(a.subrange(0, a.len() as int) =~= a);
    assert(b.subrange(0, b.len() as int) =~= b);
    assert(s.deps + a + b =~= s.deps + (a + b));
}

/// An install run on a sandbox it owns until `finish`.
pub struct Installer {
    sandbox: Sandbox,
    pending: Vec<String>,
    done: usize,
    failed: bool,
}

/// What an install run asks for next.
pub enum InstallStep {
    /// Add the dependency `spec` to the manifest of the project at `project`.
    Add { project: String, spec: String },
    /// Every spec was added.
    Finished,
    /// An add failed.
    Failed,
}

/// An add failed: the spec that could not be added, and the sandbox with
/// the specs added before it.
pub struct InstallError {
    pub spec: String,
    pub sandbox: Sandbox,
}

impl View for Installer {
    type V = InstallView;

    closed spec fn view(&self) -> InstallView {
        InstallView {
            sandbox: self.sandbox@,
            pending: self.pending@.map_values(|d: String| d@),
            done: self.done as nat,
            failed: self.failed,
        }
    }
}

impl Sandbox {
    /// Starts adding `deps` to the manifest, in order.
    pub fn deps(self, deps: &[&str]) -> (r: Installer)
        ensures
            r@ == install_start(self@, deps@.map_values(|d: &str| d@)),
            install_wf(r@),
    {
        let mut pending: Vec<String> = Vec::new();
        let mut i: usize = 0;
        while i < deps.len()
            invariant
                i <= deps@.len(),
                pending@.len() == i,
                forall|j: int| 0 <= j < i ==> #[trigger] pending@[j]@ == deps@[j]@,
            decreases deps@.len() - i,
        {
            pending.push(deps[i].to_string());
            i += 1;
        }
        let r = Installer { sandbox: self, pending, done: 0, failed: false };
        assert(r@.pending =~= deps@.map_values(|d: &str| d@));
        r
    }
}

impl Installer {
    /// What to do next.
    pub fn step(&self) -> (r: InstallStep)
        requires
            install_wf(self@),
        ensures
            match r {
                InstallStep::Add { project, spec } => install_ready(self@) && project@
                    == self@.sandbox.root && spec@ == self@.pending[self@.done as int],
                InstallStep::Finished => !self@.failed && self@.done == self@.pending.len(),
                InstallStep::Failed => self@.failed,
            },
    {
        if self.failed {
            InstallStep::Failed
        } else if self.done < self.pending.len() {
            InstallStep::Add {
                project: self.sandbox.root().clone(),
                spec: self.pending[self.done].clone(),
            }
        } else {
            InstallStep::Finished
        }
    }

    /// Reports whether the add asked for by `step` succeeded.
    pub fn report(&mut self, added: bool)
        requires
            install_wf(old(self)@),
            install_ready(old(self)@),
        ensures
            final(self)@ == install_report(old(self)@, added),
            install_wf(final(self)@),
    {
        assert(self@.pending.len() == self.pending@.len());
        if added {
            let d = self.done;
            let n = self.pending.len();
            assert(d < n);
            let spec = self.pending[d].clone();
            self.sandbox.record_dep(spec);
            self.done = d + 1;
        } else {
            self.failed = true;
        }
        assert(self@.pending =~= old(self)@.pending);
    }

    /// Ends the run, handing the sandbox back.
    pub fn finish(self) -> (r: Result<Sandbox, InstallError>)
        requires
            install_wf(self@),
            !install_ready(self@),
        ensures
            match r {
                Ok(s) => !self@.failed && s@ == self@.sandbox,
                Err(e) => self@.failed && e.spec@ == self@.pending[self@.done as int] && e.sandbox@
                    == self@.sandbox,
            },
    {
        if self.failed {
            let spec = self.pending[self.done].clone();
            Err(InstallError { spec, sandbox: self.sandbox })
        } else {
            Ok(self.sandbox)
        }
    }
}

} // verus!
