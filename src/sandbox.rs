//! The sandbox: one scaffolded project workspace and what the library knows
//! of its contents.
use vstd::prelude::*;
use crate::layout::{fresh_id, home_spec, is_workspace_id, root_spec, workspace_home, workspace_root};

verus! {

/// What a sandbox's workspace holds, as far as its operations have changed it.
pub struct SandboxView {
    /// Project root.
    pub root: Seq<char>,
    /// Dependency specs added to the manifest, in the order they were added.
    pub deps: Seq<Seq<char>>,
    /// Entry-point program last written, or `None` for the scaffolded one.
    pub program: Option<Seq<char>>,
    /// The output file is known to be absent.
    pub output_clear: bool,
}

/// A scaffolded project workspace, exclusively owned: every operation on it
/// takes the sandbox by value and hands it back when done, so at most one
/// operation is ever in flight on one workspace.
pub struct Sandbox {
    root_dir: String,
    deps: Vec<String>,
    program: Option<String>,
    output_clear: bool,
}

/// Where a new sandbox is to be provisioned: its home directory, to be
/// created, and the root of the project to be scaffolded there under
/// `layout::PROJECT_NAME`.
pub struct Provision {
    pub home: String,
    pub root: String,
}

pub open spec fn opt_view(o: Option<String>) -> Option<Seq<char>> {
    match o {
        Some(s) => Some(s@),
        None => None,
    }
}

impl View for Sandbox {
    type V = SandboxView;

    closed spec fn view(&self) -> SandboxView {
        SandboxView {
            root: self.root_dir@,
            deps: self.deps@.map_values(|d: String| d@),
            program: opt_view(self.program),
            output_clear: self.output_clear,
        }
    }
}

impl Sandbox {
    /// Plans a new sandbox under `base`, in a home directory named by a
    /// fresh random identifier.
    pub fn new(base: &str) -> (r: Provision)
        ensures
            exists|id: Seq<char>|
                is_workspace_id(id) && r.home@ == home_spec(base@, id) && r.root@ == root_spec(
                    base@,
                    id,
                ),
    {
        let id = fresh_id();
        Sandbox::new_with_id(base, id.as_str())
    }

    /// Plans a new sandbox under `base` whose home is named `id`.
    pub fn new_with_id(base: &str, id: &str) -> (r: Provision)
        ensures
            r.home@ == home_spec(base@, id@),
            r.root@ == root_spec(base@, id@),
    {
        Provision { home: workspace_home(base, id), root: workspace_root(base, id) }
    }

    /// The sandbox of a provisioned project: nothing added, the scaffolded
    /// entry point, no output file.
    pub fn provisioned(p: Provision) -> (r: Sandbox)
        ensures
            r@ == (SandboxView {
                root: p.root@,
                deps: Seq::empty(),
                program: None,
                output_clear: true,
            }),
    {
        let r = Sandbox { root_dir: p.root, deps: Vec::new(), program: None, output_clear: true };
        assert(r@.deps =~= Seq::empty());
        r
    }

    /// The project root.
    pub fn root(&self) -> (r: &String)
        ensures
            r@ == self@.root,
    {
        &self.root_dir
    }

    /// Dependency specs added so far, in order.
    pub fn installed(&self) -> (r: &Vec<String>)
        ensures
            r@.map_values(|d: String| d@) == self@.deps,
    {
        &self.deps
    }

    /// The entry-point program last written by an evaluation.
    pub fn program(&self) -> (r: &Option<String>)
        ensures
            opt_view(*r) == self@.program,
    {
        &self.program
    }

    /// Whether the output file is known to be absent.
    pub fn output_clear(&self) -> (r: bool)
        ensures
            r == self@.output_clear,
    {
        self.output_clear
    }

    /// Records that `spec` was added to the manifest.
    pub(crate) fn record_dep(&mut self, spec: String)
        ensures
            final(self)@ == (SandboxView { deps: old(self)@.deps.push(spec@), ..old(self)@ }),
    {
        self.deps.push(spec);
        assert(self@.deps =~= old(self)@.deps.push(spec@));
    }

    /// Records that the entry point now holds `program`.
    pub(crate) fn record_program(&mut self, program: String)
        ensures
            final(self)@ == (SandboxView { program: Some(program@), ..old(self)@ }),
    {
        self.program = Some(program);
    }

    /// Records whether the output file is known to be absent.
    pub(crate) fn record_output_clear(&mut self, clear: bool)
        ensures
            final(self)@ == (SandboxView { output_clear: clear, ..old(self)@ }),
    {
        self.output_clear = clear;
    }
}

} // verus!
