//! The run of one snippet, as a machine that the host drives: the machine says
//! what is to be done next, the host does it and reports back.

use vstd::prelude::*;
use vstd::utf8::*;
use crate::data::{DataHolder, DataView};
use crate::error::{clone_outcome, outcome_view, ErrorView, SniprunError};
use crate::executor::{Executor, ExecutorView};
use crate::interpreter::{
    compile_verdict, run_verdict, select_code, stream_of, InterpreterKind,
};
use crate::level::SupportLevel;
use crate::process::{text_of, Command, CommandView, OutputView, ProcessOutput};

verus! {

/// How far a run has come, as the run itself holds it.
#[derive(Debug)]
enum Stage {
    Preparing,
    Staging,
    Compiling,
    Running,
    Finished(Result<String, SniprunError>),
}

/// How far a run has come.
pub ghost enum StageView {
    /// The executor's scratch directory is to be created.
    Preparing,
    /// The selected text is to be written to the staging file.
    Staging,
    /// The compiler is to be run on the staged file.
    Compiling,
    /// The staged or compiled text is to be run.
    Running,
    /// The run is over, with this result.
    Finished(Result<Seq<char>, ErrorView>),
}

impl View for Stage {
    type V = StageView;

    closed spec fn view(&self) -> StageView {
        match self {
            Stage::Preparing => StageView::Preparing,
            Stage::Staging => StageView::Staging,
            Stage::Compiling => StageView::Compiling,
            Stage::Running => StageView::Running,
            Stage::Finished(outcome) => StageView::Finished(outcome_view(*outcome)),
        }
    }
}

/// What a run asks of its host.
#[derive(Debug, PartialEq, Eq)]
pub enum Action {
    /// Create the directory `path` and its parents, unless it exists.
    CreateDir { path: String },
    /// Create or truncate the file `path` and write `contents` to it.
    WriteFile { path: String, contents: String },
    /// Run `command`, wait for it to end, and capture both output streams.
    Spawn { command: Command },
    /// Nothing is left to do: the run has ended with `result`.
    Finish { result: Result<String, SniprunError> },
}

/// The mathematical content of an [`Action`].
pub ghost enum ActionView {
    CreateDir { path: Seq<char> },
    WriteFile { path: Seq<char>, contents: Seq<char> },
    Spawn { command: CommandView },
    Finish { result: Result<Seq<char>, ErrorView> },
}

impl View for Action {
    type V = ActionView;

    open spec fn view(&self) -> ActionView {
        match self {
            Action::CreateDir { path } => ActionView::CreateDir { path: path@ },
            Action::WriteFile { path, contents } => ActionView::WriteFile {
                path: path@,
                contents: contents@,
            },
            Action::Spawn { command } => ActionView::Spawn { command: command@ },
            Action::Finish { result } => ActionView::Finish { result: outcome_view(*result) },
        }
    }
}

/// What the host reports back.
#[derive(Debug, PartialEq, Eq)]
pub enum Event {
    /// The directory stands, or the file is written.
    Ready,
    /// The process that was run has ended and left this behind.
    Exited(ProcessOutput),
}

/// The mathematical content of an [`Event`].
pub ghost enum EventView {
    Ready,
    Exited(OutputView),
}

impl View for Event {
    type V = EventView;

    open spec fn view(&self) -> EventView {
        match self {
            Event::Ready => EventView::Ready,
            Event::Exited(output) => EventView::Exited(output@),
        }
    }
}

/// The mathematical content of a [`Pipeline`]: the executor that the run is
/// with, and how far the run has come.
pub ghost struct PipelineView {
    pub executor: ExecutorView,
    pub stage: StageView,
}

impl PipelineView {
    /// The run of an executor of `kind` on the context `data` at `level`,
    /// before anything has happened.
    pub open spec fn start(kind: InterpreterKind, data: DataView, level: SupportLevel) -> PipelineView {
        PipelineView { executor: ExecutorView::fresh(kind, data, level), stage: StageView::Preparing }
    }

    /// A run is at the compiling stage only with an executor that compiles.
    pub open spec fn wf(self) -> bool {
        self.stage is Compiling ==> self.executor.kind.compiler(self.executor.data.work_dir) is Some
    }

    /// What the run asks of its host at this point.
    pub open spec fn request(self) -> ActionView {
        let kind = self.executor.kind;
        let work_dir = self.executor.data.work_dir;
        match self.stage {
            StageView::Preparing => ActionView::CreateDir { path: kind.scratch_dir(work_dir) },
            StageView::Staging => ActionView::WriteFile {
                path: kind.source_path(work_dir),
                contents: self.executor.code,
            },
            StageView::Compiling => ActionView::Spawn { command: kind.compiler(work_dir)->0 },
            StageView::Running => ActionView::Spawn { command: kind.launcher(work_dir) },
            StageView::Finished(result) => ActionView::Finish { result },
        }
    }

    /// Whether `event` answers what the run asks for: a directory or a file is
    /// answered by `Ready`, a process by its report, whatever the report holds.
    /// A finished run takes no event.
    pub open spec fn accepts(self, event: EventView) -> bool {
        match (self.stage, event) {
            (StageView::Preparing, EventView::Ready) => true,
            (StageView::Staging, EventView::Ready) => true,
            (StageView::Compiling, EventView::Exited(_)) => true,
            (StageView::Running, EventView::Exited(_)) => true,
            _ => false,
        }
    }

    /// The run after the scratch directory stands: the text is selected; where
    /// the executor names another kind for it, the run starts over with an
    /// executor of that kind for the same context and level; else the text is
    /// dressed and is to be staged.
    pub open spec fn prepared(self) -> PipelineView {
        let code = select_code(self.executor.data, self.executor.level);
        match self.executor.kind.delegate(code) {
            Some(kind) => PipelineView::start(kind, self.executor.data, self.executor.level),
            None => PipelineView {
                executor: ExecutorView {
                    code: self.executor.kind.boilerplate(code),
                    ..self.executor
                },
                stage: StageView::Staging,
            },
        }
    }

    /// The run after the text is staged: the compiler is next where the target
    /// is compiled, else the text is run as it is.
    pub open spec fn staged(self) -> PipelineView {
        if self.executor.kind.compiler(self.executor.data.work_dir) is Some {
            PipelineView { stage: StageView::Compiling, ..self }
        } else {
            PipelineView { stage: StageView::Running, ..self }
        }
    }

    /// The run after the compiler's report `output`: the program is run where
    /// the compiler succeeded, else the run is over with a compilation error.
    pub open spec fn compiled(self, output: OutputView) -> PipelineView {
        match compile_verdict(output, self.executor.kind.diagnostic(output)) {
            Ok(_) => PipelineView { stage: StageView::Running, ..self },
            Err(error) => PipelineView { stage: StageView::Finished(Err(error)), ..self },
        }
    }

    /// The run after the program's report `output`: over, with the executor's
    /// verdict on the report.
    pub open spec fn ran(self, output: OutputView) -> PipelineView {
        PipelineView {
            stage: StageView::Finished(run_verdict(output, self.executor.kind.reports_on())),
            ..self
        }
    }

    /// The run after `event`. An event that the run does not accept leaves it
    /// as it is.
    pub open spec fn next(self, event: EventView) -> PipelineView {
        if !self.accepts(event) {
            self
        } else {
            match (self.stage, event) {
                (StageView::Preparing, _) => self.prepared(),
                (StageView::Staging, _) => self.staged(),
                (StageView::Compiling, EventView::Exited(output)) => self.compiled(output),
                (StageView::Running, EventView::Exited(output)) => self.ran(output),
                _ => self,
            }
        }
    }

    /// The run after the events of `events`, one after the other.
    pub open spec fn after(self, events: Seq<EventView>) -> PipelineView
        decreases events.len(),
    {
        if events.len() == 0 {
            self
        } else {
            self.next(events.first()).after(events.drop_first())
        }
    }

    /// The result of the run, once it is over.
    pub open spec fn result(self) -> Option<Result<Seq<char>, ErrorView>> {
        match self.stage {
            StageView::Finished(result) => Some(result),
            _ => None,
        }
    }
}

/// A finished run stays as it is, whatever the host reports, and asks for
/// nothing but to be ended.
pub proof fn lemma_finished_run_stays(run: PipelineView, events: Seq<EventView>)
    requires
        run.stage is Finished,
    ensures
        run.after(events) == run,
        run.request() == (ActionView::Finish { result: run.stage->Finished_0 }),
    decreases events.len(),
{
    if events.len() > 0 {
        lemma_finished_run_stays(run, events.drop_first());
    }
}

/// A run whose executor names another kind for the selected text ends as the
/// run of an executor of that kind ends which is made for the same context at
/// the same level: once the first executor's scratch directory stands, the
/// run is the fresh run of the other, and so is everything that follows.
pub proof fn lemma_handover_runs_delegate(
    kind: InterpreterKind,
    delegate: InterpreterKind,
    data: DataView,
    level: SupportLevel,
    events: Seq<EventView>,
)
    requires
        kind.delegate(select_code(data, level)) == Some(delegate),
    ensures
        PipelineView::start(kind, data, level).next(EventView::Ready) == PipelineView::start(
            delegate,
            data,
            level,
        ),
        PipelineView::start(kind, data, level).after(seq![EventView::Ready] + events)
            == PipelineView::start(delegate, data, level).after(events),
        PipelineView::start(kind, data, level).after(seq![EventView::Ready] + events).result()
            == PipelineView::start(delegate, data, level).after(events).result(),
{
    let all = seq![EventView::Ready] + events;
    assert(all.first() == EventView::Ready);
    assert(all.drop_first() =~= events);
}

/// A run whose executor names no other kind goes on with that executor: once
/// the scratch directory stands, the dressed text is to be staged.
pub proof fn lemma_no_handover_stages(kind: InterpreterKind, data: DataView, level: SupportLevel)
    requires
        kind.delegate(select_code(data, level)) is None,
    ensures
        PipelineView::start(kind, data, level).next(EventView::Ready).request() == (
        ActionView::WriteFile {
            path: kind.source_path(data.work_dir),
            contents: kind.boilerplate(select_code(data, level)),
        }),
{
}

/// A compiler that reports failure ends the run with a compilation error, and
/// the program is never run: whatever the host reports afterwards, the run
/// stays finished with that error and asks for no process.
pub proof fn lemma_failed_build_ends_run(
    run: PipelineView,
    output: OutputView,
    events: Seq<EventView>,
)
    requires
        run.stage is Compiling,
        !output.success,
    ensures
        run.next(EventView::Exited(output)).result() == Some(
            Err::<Seq<char>, ErrorView>(
                ErrorView::CompilationError(run.executor.kind.diagnostic(output)),
            ),
        ),
        run.next(EventView::Exited(output)).after(events) == run.next(EventView::Exited(output)),
        run.next(EventView::Exited(output)).after(events).request() is Finish,
{
    lemma_finished_run_stays(run.next(EventView::Exited(output)), events);
}

/// A compiler that reports success lets the run go on to the program.
pub proof fn lemma_passed_build_runs(run: PipelineView, output: OutputView)
    requires
        run.stage is Compiling,
        output.success,
    ensures
        run.next(EventView::Exited(output)).request() == (ActionView::Spawn {
            command: run.executor.kind.launcher(run.executor.data.work_dir),
        }),
{
}

/// A program that reports failure always ends the run with a runtime error,
/// which carries the text read out of its standard error: the bytes decoded,
/// where they are well-formed UTF-8.
pub proof fn lemma_failed_run_reports_stderr(run: PipelineView, output: OutputView)
    requires
        run.stage is Running,
        !output.success,
    ensures
        run.accepts(EventView::Exited(output)),
        run.next(EventView::Exited(output)).result() == Some(
            Err::<Seq<char>, ErrorView>(ErrorView::RuntimeError(text_of(output.stderr))),
        ),
        valid_utf8(output.stderr) ==> run.next(EventView::Exited(output)).result() == Some(
            Err::<Seq<char>, ErrorView>(ErrorView::RuntimeError(decode_utf8(output.stderr))),
        ),
{
}

/// A program that reports success ends the run with the text read out of the
/// stream that its executor reports on.
pub proof fn lemma_passed_run_reports_output(run: PipelineView, output: OutputView)
    requires
        run.stage is Running,
        output.success,
    ensures
        run.next(EventView::Exited(output)).result() == Some(
            Ok::<Seq<char>, ErrorView>(
                text_of(stream_of(output, run.executor.kind.reports_on())),
            ),
        ),
{
}

/// The run of one snippet with one of the shipped executors. The host asks
/// what is [`pending`](Pipeline::pending), does it, and reports with
/// [`step`](Pipeline::step), until the action is `Finish`.
#[derive(Debug)]
pub struct Pipeline {
    executor: Executor,
    stage: Stage,
}

impl View for Pipeline {
    type V = PipelineView;

    closed spec fn view(&self) -> PipelineView {
        PipelineView { executor: self.executor@, stage: self.stage@ }
    }
}

impl Pipeline {
    #[verifier::type_invariant]
    spec fn well_formed(self) -> bool {
        self@.wf()
    }

    /// A run of an executor of `kind` on the context `data` at `level`.
    pub fn new(kind: InterpreterKind, data: DataHolder, level: SupportLevel) -> (r: Pipeline)
        ensures
            r@ == PipelineView::start(kind, data@, level),
            r@.wf(),
    {
        Pipeline { executor: Executor::new(kind, data, level), stage: Stage::Preparing }
    }

    /// The kind of executor that the run is with at this point.
    pub fn kind(&self) -> (r: InterpreterKind)
        ensures
            r == self@.executor.kind,
    {
        self.executor.kind()
    }

    /// Whether the run is over.
    pub fn is_finished(&self) -> (r: bool)
        ensures
            r == self@.stage is Finished,
    {
        match &self.stage {
            Stage::Finished(_) => true,
            _ => false,
        }
    }

    /// What the host is to do next.
    pub fn pending(&self) -> (r: Action)
        ensures
            r@ == self@.request(),
    {
        proof {
            use_type_invariant(self);
        }
        match &self.stage {
            Stage::Preparing => Action::CreateDir { path: self.executor.get_work_dir() },
            Stage::Staging => Action::WriteFile {
                path: self.executor.get_main_file_path(),
                contents: self.executor.get_code(),
            },
            Stage::Compiling => Action::Spawn { command: self.executor.get_compiler().unwrap() },
            Stage::Running => Action::Spawn { command: self.executor.get_launcher() },
            Stage::Finished(result) => Action::Finish { result: clone_outcome(result) },
        }
    }

    /// Whether `event` answers what the run asks for.
    pub fn accepts(&self, event: &Event) -> (r: bool)
        ensures
            r == self@.accepts(event@),
    {
        match (&self.stage, event) {
            (Stage::Preparing, Event::Ready) => true,
            (Stage::Staging, Event::Ready) => true,
            (Stage::Compiling, Event::Exited(_)) => true,
            (Stage::Running, Event::Exited(_)) => true,
            _ => false,
        }
    }

    /// Takes the host's report and moves the run on. Returns the run after the
    /// event, and whether the event was accepted; one that was not leaves the
    /// run as it is.
    pub fn step(self, event: Event) -> (r: (Pipeline, bool))
        ensures
            r.1 == self@.accepts(event@),
            r.0@ == self@.next(event@),
            r.0@.wf(),
    {
        proof {
            use_type_invariant(&self);
        }
        if !self.accepts(&event) {
            return (self, false);
        }
        let Pipeline { executor, stage } = self;
        let mut executor = executor;
        let next = match (stage, event) {
            (Stage::Preparing, _) => {
                let _ = executor.fetch_code();
                match executor.fallback() {
                    Some(kind) => Pipeline::new(
                        kind,
                        executor.get_data(),
                        executor.get_current_level(),
                    ),
                    None => match executor.add_boilerplate() {
                        Ok(()) => Pipeline { executor, stage: Stage::Staging },
                        Err(error) => Pipeline { executor, stage: Stage::Finished(Err(error)) },
                    },
                }
            },
            (Stage::Staging, _) => {
                if executor.get_compiler().is_some() {
                    Pipeline { executor, stage: Stage::Compiling }
                } else {
                    match executor.build(None) {
                        Ok(()) => Pipeline { executor, stage: Stage::Running },
                        Err(error) => Pipeline { executor, stage: Stage::Finished(Err(error)) },
                    }
                }
            },
            (Stage::Compiling, Event::Exited(output)) => {
                match executor.build(Some(output)) {
                    Ok(()) => Pipeline { executor, stage: Stage::Running },
                    Err(error) => Pipeline { executor, stage: Stage::Finished(Err(error)) },
                }
            },
            (Stage::Running, Event::Exited(output)) => {
                let result = executor.execute(output);
                Pipeline { executor, stage: Stage::Finished(result) }
            },
            (stage, _) => Pipeline { executor, stage },
        };
        (next, true)
    }
}

} // verus!
