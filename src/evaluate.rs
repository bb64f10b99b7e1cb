//! One evaluation: write the synthesized program into the sandbox, build and
//! run it, read back and parse what it wrote, and remove the output file.
use vstd::prelude::*;
use proc_macro2::TokenStream;
use crate::layout::{is_within, join, join_spec};
use crate::program::{program_text, token_text_of, wrapper_program, wrapper_source, ENTRY_POINT, OUTPUT_FILE};
use crate::sandbox::{opt_view, Sandbox, SandboxView};

verus! {

/// Where an evaluation stands.
#[derive(PartialEq, Eq, Structural, Clone, Copy)]
pub enum EvalStage {
    /// Remove an output file left by an earlier evaluation.
    ClearOutput,
    WriteProgram,
    BuildAndRun,
    ReadOutput,
    ParseOutput,
    RemoveOutput,
    Succeeded,
    Failed(EvalError),
}

/// Why an evaluation failed.
#[derive(PartialEq, Eq, Structural, Clone, Copy, Debug)]
pub enum EvalError {
    /// A file could not be written, read or removed, or the build tool could
    /// not be run; a program that did not compile or that stopped abnormally
    /// leaves no output file and so ends here too.
    Io,
    /// The output text is not a value of the requested type.
    Parse,
}

/// State of an evaluation.
pub struct EvalView<T> {
    pub sandbox: SandboxView,
    /// The program being evaluated.
    pub program: Seq<char>,
    pub stage: EvalStage,
    /// The text read from the output file.
    pub text: Seq<char>,
    /// The parsed value.
    pub value: Option<T>,
}

/// Path of the entry-point source file of the project at `root`.
pub open spec fn entry_path(root: Seq<char>) -> Seq<char> {
    join_spec(root, ENTRY_POINT@)
}

/// Path of the output file of the project at `root`.
pub open spec fn output_path(root: Seq<char>) -> Seq<char> {
    join_spec(root, OUTPUT_FILE@)
}

/// Every file an evaluation names lies within the project root.
pub proof fn lemma_files_within_root(root: Seq<char>)
    ensures
        is_within(entry_path(root), root),
        is_within(output_path(root), root),
{
    assert(entry_path(root).take(root.len() as int + 1) =~= root + seq!['/']);
    assert(output_path(root).take(root.len() as int + 1) =~= root + seq!['/']);
}

/// A fresh evaluation of `program`; a stale output file is removed first.
pub open spec fn eval_start<T>(s: SandboxView, program: Seq<char>) -> EvalView<T> {
    EvalView {
        sandbox: s,
        program,
        stage: if s.output_clear {
            EvalStage::WriteProgram
        } else {
            EvalStage::ClearOutput
        },
        text: Seq::empty(),
        value: None,
    }
}

/// The stages whose action is a file or build operation with no result.
pub open spec fn awaits_io(stage: EvalStage) -> bool {
    stage == EvalStage::ClearOutput || stage == EvalStage::WriteProgram || stage
        == EvalStage::BuildAndRun || stage == EvalStage::RemoveOutput
}

/// The state after the operation of such a stage succeeded (`ok`) or failed.
pub open spec fn eval_io<T>(v: EvalView<T>, ok: bool) -> EvalView<T> {
    if !ok {
        EvalView { stage: EvalStage::Failed(EvalError::Io), ..v }
    } else {
        match v.stage {
            EvalStage::ClearOutput => EvalView {
                sandbox: SandboxView { output_clear: true, ..v.sandbox },
                stage: EvalStage::WriteProgram,
                ..v
            },
            EvalStage::WriteProgram => EvalView {
                sandbox: SandboxView { program: Some(v.program), ..v.sandbox },
                stage: EvalStage::BuildAndRun,
                ..v
            },
            EvalStage::BuildAndRun => EvalView {
                sandbox: SandboxView { output_clear: false, ..v.sandbox },
                stage: EvalStage::ReadOutput,
                ..v
            },
            _ => EvalView {
                sandbox: SandboxView { output_clear: true, ..v.sandbox },
                stage: EvalStage::Succeeded,
                ..v
            },
        }
    }
}

/// The state after reading the output file gave `text`, or nothing.
pub open spec fn eval_read<T>(v: EvalView<T>, text: Option<Seq<char>>) -> EvalView<T> {
    match text {
        Some(t) => EvalView { stage: EvalStage::ParseOutput, text: t, ..v },
        None => EvalView { stage: EvalStage::Failed(EvalError::Io), ..v },
    }
}

/// The state after parsing the text gave `value`, or nothing.
pub open spec fn eval_parsed<T>(v: EvalView<T>, value: Option<T>) -> EvalView<T> {
    match value {
        Some(x) => EvalView { stage: EvalStage::RemoveOutput, value: Some(x), ..v },
        None => EvalView { stage: EvalStage::Failed(EvalError::Parse), ..v },
    }
}

/// The stage is over.
pub open spec fn eval_ended(stage: EvalStage) -> bool {
    stage == EvalStage::Succeeded || stage is Failed
}

pub open spec fn eval_wf<T>(v: EvalView<T>) -> bool {
    &&& (v.stage == EvalStage::WriteProgram || v.stage == EvalStage::BuildAndRun)
        ==> v.sandbox.output_clear
    &&& (v.stage == EvalStage::BuildAndRun || v.stage == EvalStage::ReadOutput || v.stage
        == EvalStage::ParseOutput || v.stage == EvalStage::RemoveOutput || v.stage
        == EvalStage::Succeeded) ==> v.sandbox.program == Some(v.program)
    &&& (v.stage == EvalStage::RemoveOutput || v.stage == EvalStage::Succeeded) ==> v.value is Some
    &&& v.stage == EvalStage::Succeeded ==> v.sandbox.output_clear
    &&& !(v.stage == EvalStage::RemoveOutput || v.stage == EvalStage::Succeeded || v.stage is Failed)
        ==> v.value is None
}

/// A report made to an evaluation.
pub enum EvalEvent<T> {
    /// A file or build operation succeeded or failed.
    Io(bool),
    /// The output file read as this text, or could not be read.
    Read(Option<Seq<char>>),
    /// The text parsed as this value, or did not parse.
    Parsed(Option<T>),
}

/// The state after one report; a report that the stage does not await
/// changes nothing.
pub open spec fn eval_apply<T>(v: EvalView<T>, e: EvalEvent<T>) -> EvalView<T> {
    match e {
        EvalEvent::Io(ok) => if awaits_io(v.stage) {
            eval_io(v, ok)
        } else {
            v
        },
        EvalEvent::Read(text) => if v.stage == EvalStage::ReadOutput {
            eval_read(v, text)
        } else {
            v
        },
        EvalEvent::Parsed(value) => if v.stage == EvalStage::ParseOutput {
            eval_parsed(v, value)
        } else {
            v
        },
    }
}

/// The state after the reports `events`, in turn.
pub open spec fn eval_run<T>(v: EvalView<T>, events: Seq<EvalEvent<T>>) -> EvalView<T>
    decreases events.len(),
{
    if events.len() == 0 {
        v
    } else {
        eval_run(eval_apply(v, events[0]), events.drop_first())
    }
}

proof fn lemma_run_keeps<T>(v: EvalView<T>, events: Seq<EvalEvent<T>>)
    requires
        eval_wf(v),
    ensures
        eval_wf(eval_run(v, events)),
        eval_run(v, events).program == v.program,
        eval_run(v, events).sandbox.root == v.sandbox.root,
        eval_run(v, events).sandbox.deps == v.sandbox.deps,
        v.stage is Failed ==> eval_run(v, events) == v,
    decreases events.len(),
{
    if events.len() > 0 {
        lemma_run_keeps(eval_apply(v, events[0]), events.drop_first());
    }
}

/// A successful evaluation leaves no output file behind, and the entry
/// point holds the program it evaluated, whatever reports led to success.
pub proof fn lemma_success_is_clean<T>(s: SandboxView, program: Seq<char>, events: Seq<EvalEvent<T>>)
    ensures
        eval_run(eval_start::<T>(s, program), events).stage == EvalStage::Succeeded ==> {
            let r = eval_run(eval_start::<T>(s, program), events);
            r.sandbox.output_clear && r.sandbox.program == Some(program) && r.value is Some
        },
{
    lemma_run_keeps(eval_start::<T>(s, program), events);
}

/// An evaluation whose program left no output file to read (it did not
/// compile, or it stopped abnormally) fails with an I/O error whatever is
/// reported after, and holds no value.
pub proof fn lemma_failure_surfaced<T>(v: EvalView<T>, events: Seq<EvalEvent<T>>)
    requires
        eval_wf(v),
        v.stage == EvalStage::ReadOutput,
    ensures
        eval_run(v, seq![EvalEvent::Read(None)] + events).stage == EvalStage::Failed(EvalError::Io),
        eval_run(v, seq![EvalEvent::Read(None)] + events).value is None,
{
    let all = seq![EvalEvent::Read(None)] + events;
    assert(all.drop_first() =~= events);
    lemma_run_keeps(eval_apply(v, all[0]), events);
}

/// An evaluation changes neither the project root nor the manifest of the
/// sandbox it was handed.
pub proof fn lemma_eval_keeps_manifest<T>(s: SandboxView, program: Seq<char>, events: Seq<EvalEvent<T>>)
    ensures
        eval_run(eval_start::<T>(s, program), events).sandbox.root == s.root,
        eval_run(eval_start::<T>(s, program), events).sandbox.deps == s.deps,
{
    lemma_run_keeps(eval_start::<T>(s, program), events);
}

/// An evaluation on a sandbox it owns until `finish`; `T` is the type of
/// the value read back.
pub struct Evaluation<T> {
    sandbox: Sandbox,
    program: String,
    stage: EvalStage,
    text: String,
    value: Option<T>,
}

/// What an evaluation asks for next. Paths are absolute when the project
/// root is.
pub enum EvalStep {
    /// Remove the file at `path`; a file that is already absent counts as
    /// removed.
    RemoveFile { path: String },
    /// Create or truncate the file at `path` and write `contents` to it.
    WriteFile { path: String, contents: String },
    /// Build and run the project at `project`, from that directory. A build
    /// tool that cannot be started, or that exits with a failure status,
    /// counts as a failure; a program that did not compile or that panicked
    /// also leaves no output file to read.
    BuildAndRun { project: String },
    /// Read the whole file at `path` as text.
    ReadFile { path: String },
    /// Parse `text` as a value of the requested type.
    Parse { text: String },
    /// Nothing is left to do.
    Finished,
}

impl<T> View for Evaluation<T> {
    type V = EvalView<T>;

    closed spec fn view(&self) -> EvalView<T> {
        EvalView {
            sandbox: self.sandbox@,
            program: self.program@,
            stage: self.stage,
            text: self.text@,
            value: self.value,
        }
    }
}

impl Sandbox {
    fn start_eval<T>(self, program: String) -> (r: Evaluation<T>)
        ensures
            r@ == eval_start::<T>(self@, program@),
            eval_wf(r@),
    {
        let stage = if self.output_clear() {
            EvalStage::WriteProgram
        } else {
            EvalStage::ClearOutput
        };
        Evaluation { sandbox: self, program, stage, text: String::new(), value: None }
    }

    /// Starts evaluating the expression `expr`: the program is that of
    /// `wrapper_source` on the source text that the tokens print as.
    pub fn eval<T>(self, expr: TokenStream) -> (r: Evaluation<T>)
        ensures
            r@ == eval_start::<T>(self@, program_text(token_text_of(expr))),
            eval_wf(r@),
    {
        self.start_eval(wrapper_program(&expr))
    }

    /// Starts evaluating the expression whose source text is `expr`.
    pub fn eval_text<T>(self, expr: &str) -> (r: Evaluation<T>)
        ensures
            r@ == eval_start::<T>(self@, program_text(expr@)),
            eval_wf(r@),
    {
        self.start_eval(wrapper_source(expr))
    }
}

impl<T> Evaluation<T> {
    /// What to do next.
    pub fn step(&self) -> (r: EvalStep)
        ensures
            match r {
                EvalStep::RemoveFile { path } => (self@.stage == EvalStage::ClearOutput
                    || self@.stage == EvalStage::RemoveOutput) && path@ == output_path(
                    self@.sandbox.root,
                ),
                EvalStep::WriteFile { path, contents } => self@.stage == EvalStage::WriteProgram
                    && path@ == entry_path(self@.sandbox.root) && contents@ == self@.program,
                EvalStep::BuildAndRun { project } => self@.stage == EvalStage::BuildAndRun
                    && project@ == self@.sandbox.root,
                EvalStep::ReadFile { path } => self@.stage == EvalStage::ReadOutput && path@
                    == output_path(self@.sandbox.root),
                EvalStep::Parse { text } => self@.stage == EvalStage::ParseOutput && text@
                    == self@.text,
                EvalStep::Finished => eval_ended(self@.stage),
            },
    {
        let root = self.sandbox.root();
        match self.stage {
            EvalStage::ClearOutput | EvalStage::RemoveOutput => EvalStep::RemoveFile {
                path: join(root.as_str(), OUTPUT_FILE),
            },
            EvalStage::WriteProgram => EvalStep::WriteFile {
                path: join(root.as_str(), ENTRY_POINT),
                contents: self.program.clone(),
            },
            EvalStage::BuildAndRun => EvalStep::BuildAndRun { project: root.clone() },
            EvalStage::ReadOutput => EvalStep::ReadFile { path: join(root.as_str(), OUTPUT_FILE) },
            EvalStage::ParseOutput => EvalStep::Parse { text: self.text.clone() },
            _ => EvalStep::Finished,
        }
    }

    /// Reports whether the file or build operation asked for succeeded.
    pub fn report_io(&mut self, ok: bool)
        requires
            eval_wf(old(self)@),
            awaits_io(old(self)@.stage),
        ensures
            final(self)@ == eval_io(old(self)@, ok),
            eval_wf(final(self)@),
    {
        if !ok {
            self.stage = EvalStage::Failed(EvalError::Io);
            return ;
        }
        match self.stage {
            EvalStage::ClearOutput => {
                self.sandbox.record_output_clear(true);
                self.stage = EvalStage::WriteProgram;
            },
            EvalStage::WriteProgram => {
                self.sandbox.record_program(self.program.clone());
                self.stage = EvalStage::BuildAndRun;
            },
            EvalStage::BuildAndRun => {
                self.sandbox.record_output_clear(false);
                self.stage = EvalStage::ReadOutput;
            },
            _ => {
                self.sandbox.record_output_clear(true);
                self.stage = EvalStage::Succeeded;
            },
        }
    }

    /// Reports the text read from the output file, or `None` where it could
    /// not be read.
    pub fn report_read(&mut self, text: Option<String>)
        requires
            eval_wf(old(self)@),
            old(self)@.stage == EvalStage::ReadOutput,
        ensures
            final(self)@ == eval_read(old(self)@, opt_view(text)),
            eval_wf(final(self)@),
    {
        match text {
            Some(t) => {
                self.text = t;
                self.stage = EvalStage::ParseOutput;
            },
            None => {
                self.stage = EvalStage::Failed(EvalError::Io);
            },
        }
    }

    /// Reports the value parsed from the text, or `None` where it did not
    /// parse.
    pub fn report_parsed(&mut self, value: Option<T>)
        requires
            eval_wf(old(self)@),
            old(self)@.stage == EvalStage::ParseOutput,
        ensures
            final(self)@ == eval_parsed(old(self)@, value),
            eval_wf(final(self)@),
    {
        match value {
            Some(x) => {
                self.value = Some(x);
                self.stage = EvalStage::RemoveOutput;
            },
            None => {
                self.stage = EvalStage::Failed(EvalError::Parse);
            },
        }
    }

    /// Ends the evaluation, handing the sandbox back with the value or the
    /// failure.
    pub fn finish(self) -> (r: (Sandbox, Result<T, EvalError>))
        requires
            eval_wf(self@),
            eval_ended(self@.stage),
        ensures
            r.0@ == self@.sandbox,
            match self@.stage {
                EvalStage::Failed(e) => r.1 == Err::<T, EvalError>(e),
                _ => r.1 == Ok::<T, EvalError>(self@.value->Some_0) && r.0@.output_clear
                    && r.0@.program == Some(self@.program),
            },
    {
        let Evaluation { sandbox, stage, value, .. } = self;
        match stage {
            EvalStage::Failed(e) => (sandbox, Err(e)),
            _ => match value {
                Some(x) => (sandbox, Ok(x)),
                None => (sandbox, Err(EvalError::Io)),
            },
        }
    }
}

} // verus!
