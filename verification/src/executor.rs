//! The shipped executors as one type, so that a run can pass from one of them
//! to another.

use vstd::prelude::*;
use crate::data::{DataHolder, DataView};
use crate::error::{outcome_view, status_view, ErrorView, SniprunError};
use crate::interpreter::{
    compile_verdict, fetched, run_verdict, select_code, with_code, Interpreter, InterpreterKind,
    InterpreterView, Stream,
};
use crate::interpreters::lua_nvim::Lua_nvim;
use crate::interpreters::lua_original::Lua_original;
use crate::interpreters::rust::Rust;
use crate::level::SupportLevel;
use crate::process::{Command, CommandView, OutputView, ProcessOutput};

verus! {

impl InterpreterKind {
    /// The stable name of the executor of this kind.
    pub open spec fn name(self) -> Seq<char> {
        match self {
            InterpreterKind::Rust => Rust::name(),
            InterpreterKind::LuaNvim => Lua_nvim::name(),
            InterpreterKind::LuaOriginal => Lua_original::name(),
        }
    }

    /// The highest level that the executor of this kind can ever support.
    pub open spec fn max_support_level(self) -> SupportLevel {
        match self {
            InterpreterKind::Rust => Rust::max_support_level(),
            InterpreterKind::LuaNvim => Lua_nvim::max_support_level(),
            InterpreterKind::LuaOriginal => Lua_original::max_support_level(),
        }
    }

    /// The directory of the executor of this kind below the scratch root.
    pub open spec fn scratch_dir(self, work_dir: Seq<char>) -> Seq<char> {
        match self {
            InterpreterKind::Rust => Rust::scratch_dir(work_dir),
            InterpreterKind::LuaNvim => Lua_nvim::scratch_dir(work_dir),
            InterpreterKind::LuaOriginal => Lua_original::scratch_dir(work_dir),
        }
    }

    /// The path of the file that the executor of this kind stages its text in.
    pub open spec fn source_path(self, work_dir: Seq<char>) -> Seq<char> {
        match self {
            InterpreterKind::Rust => Rust::source_path(work_dir),
            InterpreterKind::LuaNvim => Lua_nvim::source_path(work_dir),
            InterpreterKind::LuaOriginal => Lua_original::source_path(work_dir),
        }
    }

    /// `code` as the executor of this kind dresses it for its toolchain.
    pub open spec fn boilerplate(self, code: Seq<char>) -> Seq<char> {
        match self {
            InterpreterKind::Rust => Rust::boilerplate(code),
            InterpreterKind::LuaNvim => Lua_nvim::boilerplate(code),
            InterpreterKind::LuaOriginal => Lua_original::boilerplate(code),
        }
    }

    /// The compiler's command line, where the target of this kind is compiled.
    pub open spec fn compiler(self, work_dir: Seq<char>) -> Option<CommandView> {
        match self {
            InterpreterKind::Rust => Rust::compiler(work_dir),
            InterpreterKind::LuaNvim => Lua_nvim::compiler(work_dir),
            InterpreterKind::LuaOriginal => Lua_original::compiler(work_dir),
        }
    }

    /// The command line by which the executor of this kind runs its text.
    pub open spec fn launcher(self, work_dir: Seq<char>) -> CommandView {
        match self {
            InterpreterKind::Rust => Rust::launcher(work_dir),
            InterpreterKind::LuaNvim => Lua_nvim::launcher(work_dir),
            InterpreterKind::LuaOriginal => Lua_original::launcher(work_dir),
        }
    }

    /// The stream on which the toolchain of this kind reports a successful run.
    pub open spec fn reports_on(self) -> Stream {
        match self {
            InterpreterKind::Rust => Rust::reports_on(),
            InterpreterKind::LuaNvim => Lua_nvim::reports_on(),
            InterpreterKind::LuaOriginal => Lua_original::reports_on(),
        }
    }

    /// The text that a compilation error of this kind carries.
    pub open spec fn diagnostic(self, output: OutputView) -> Seq<char> {
        match self {
            InterpreterKind::Rust => Rust::diagnostic(output),
            InterpreterKind::LuaNvim => Lua_nvim::diagnostic(output),
            InterpreterKind::LuaOriginal => Lua_original::diagnostic(output),
        }
    }

    /// The kind of executor that should run `code` in place of this one, if
    /// any.
    pub open spec fn delegate(self, code: Seq<char>) -> Option<InterpreterKind> {
        match self {
            InterpreterKind::Rust => Rust::delegate(code),
            InterpreterKind::LuaNvim => Lua_nvim::delegate(code),
            InterpreterKind::LuaOriginal => Lua_original::delegate(code),
        }
    }
}

/// No two kinds of executor hand over to each other, whatever the text, and
/// none hands over to itself: a run changes hands at most once.
pub proof fn lemma_delegation_is_acyclic(
    first: InterpreterKind,
    second: InterpreterKind,
    code: Seq<char>,
    other_code: Seq<char>,
)
    requires
        first.delegate(code) == Some(second),
    ensures
        first != second,
        second.delegate(other_code) is None,
{
}

/// No executor reads above its declared maximum: at whatever level it
/// operates, it selects the text that it selects at the lower of that level
/// and the maximum of its kind.
pub proof fn lemma_selection_stays_within_maximum(
    kind: InterpreterKind,
    data: DataView,
    level: SupportLevel,
)
    ensures
        select_code(data, level) == select_code(data, level.lower(kind.max_support_level())),
{
}

/// Executors of different kinds stage below the same scratch root in
/// different directories.
pub proof fn lemma_scratch_dirs_differ(
    first: InterpreterKind,
    second: InterpreterKind,
    work_dir: Seq<char>,
)
    requires
        first != second,
    ensures
        first.scratch_dir(work_dir) != second.scratch_dir(work_dir),
{
    reveal_strlit("/rust-original");
    reveal_strlit("/nvim-lua");
    reveal_strlit("/lua-original");
    assert(InterpreterKind::Rust.scratch_dir(work_dir).len() == work_dir.len() + 14);
    assert(InterpreterKind::LuaNvim.scratch_dir(work_dir).len() == work_dir.len() + 9);
    assert(InterpreterKind::LuaOriginal.scratch_dir(work_dir).len() == work_dir.len() + 13);
}

/// An executor of one of the shipped kinds, set up for a run.
#[derive(Debug)]
pub enum Executor {
    Rust(Rust),
    LuaNvim(Lua_nvim),
    LuaOriginal(Lua_original),
}

/// The mathematical content of an [`Executor`]: its kind, and what every
/// executor holds.
pub ghost struct ExecutorView {
    pub kind: InterpreterKind,
    pub data: DataView,
    pub level: SupportLevel,
    pub code: Seq<char>,
}

impl ExecutorView {
    /// The executor of `kind` holding `state`.
    pub open spec fn of(kind: InterpreterKind, state: InterpreterView) -> ExecutorView {
        ExecutorView { kind, data: state.data, level: state.level, code: state.code }
    }

    /// What the executor holds, without its kind.
    pub open spec fn state(self) -> InterpreterView {
        InterpreterView { data: self.data, level: self.level, code: self.code }
    }

    /// The executor of the same kind holding `state`.
    pub open spec fn with_state(self, state: InterpreterView) -> ExecutorView {
        ExecutorView::of(self.kind, state)
    }

    /// The executor of `kind` for the context `data` at `level`, with nothing
    /// selected yet.
    pub open spec fn fresh(kind: InterpreterKind, data: DataView, level: SupportLevel) -> ExecutorView {
        ExecutorView { kind, data, level, code: Seq::empty() }
    }
}

impl View for Executor {
    type V = ExecutorView;

    open spec fn view(&self) -> ExecutorView {
        match self {
            Executor::Rust(it) => ExecutorView::of(InterpreterKind::Rust, it@),
            Executor::LuaNvim(it) => ExecutorView::of(InterpreterKind::LuaNvim, it@),
            Executor::LuaOriginal(it) => ExecutorView::of(InterpreterKind::LuaOriginal, it@),
        }
    }
}

impl Executor {
    /// An executor of `kind` for the context `data` at `level`, with nothing
    /// selected yet.
    pub fn new(kind: InterpreterKind, data: DataHolder, level: SupportLevel) -> (r: Executor)
        ensures
            r@ == ExecutorView::fresh(kind, data@, level),
    {
        match kind {
            InterpreterKind::Rust => Executor::Rust(*Rust::new_with_level(data, level)),
            InterpreterKind::LuaNvim => Executor::LuaNvim(*Lua_nvim::new_with_level(data, level)),
            InterpreterKind::LuaOriginal => Executor::LuaOriginal(
                *Lua_original::new_with_level(data, level),
            ),
        }
    }

    /// The kind of this executor.
    pub fn kind(&self) -> (r: InterpreterKind)
        ensures
            r == self@.kind,
    {
        match self {
            Executor::Rust(_) => InterpreterKind::Rust,
            Executor::LuaNvim(_) => InterpreterKind::LuaNvim,
            Executor::LuaOriginal(_) => InterpreterKind::LuaOriginal,
        }
    }

    /// The executor's stable name.
    pub fn get_name(&self) -> (r: String)
        ensures
            r@ == self@.kind.name(),
    {
        match self {
            Executor::Rust(_) => Rust::get_name(),
            Executor::LuaNvim(_) => Lua_nvim::get_name(),
            Executor::LuaOriginal(_) => Lua_original::get_name(),
        }
    }

    /// The level that the executor operates at.
    pub fn get_current_level(&self) -> (r: SupportLevel)
        ensures
            r == self@.level,
    {
        match self {
            Executor::Rust(it) => it.get_current_level(),
            Executor::LuaNvim(it) => it.get_current_level(),
            Executor::LuaOriginal(it) => it.get_current_level(),
        }
    }

    /// A copy of the context that the executor was made for.
    pub fn get_data(&self) -> (r: DataHolder)
        ensures
            r@ == self@.data,
    {
        match self {
            Executor::Rust(it) => it.get_data(),
            Executor::LuaNvim(it) => it.get_data(),
            Executor::LuaOriginal(it) => it.get_data(),
        }
    }

    /// Selects the text to execute, as every executor does.
    pub fn fetch_code(&mut self) -> (r: Result<(), SniprunError>)
        ensures
            r is Ok,
            final(self)@ == old(self)@.with_state(fetched(old(self)@.state())),
    {
        match self {
            Executor::Rust(it) => it.fetch_code(),
            Executor::LuaNvim(it) => it.fetch_code(),
            Executor::LuaOriginal(it) => it.fetch_code(),
        }
    }

    /// Selects the text anew and names the kind of executor that should run it
    /// in this one's place, if there is one.
    pub fn fallback(&mut self) -> (r: Option<InterpreterKind>)
        ensures
            final(self)@ == old(self)@.with_state(fetched(old(self)@.state())),
            r == final(self)@.kind.delegate(final(self)@.code),
    {
        match self {
            Executor::Rust(it) => it.fallback(),
            Executor::LuaNvim(it) => it.fallback(),
            Executor::LuaOriginal(it) => it.fallback(),
        }
    }

    /// Dresses the selected text for the toolchain.
    pub fn add_boilerplate(&mut self) -> (r: Result<(), SniprunError>)
        ensures
            r is Ok,
            final(self)@ == old(self)@.with_state(
                with_code(old(self)@.state(), old(self)@.kind.boilerplate(old(self)@.code)),
            ),
    {
        match self {
            Executor::Rust(it) => it.add_boilerplate(),
            Executor::LuaNvim(it) => it.add_boilerplate(),
            Executor::LuaOriginal(it) => it.add_boilerplate(),
        }
    }

    /// Judges the build from the compiler's report, `None` where no compiler
    /// was run.
    pub fn build(&mut self, compiled: Option<ProcessOutput>) -> (r: Result<(), SniprunError>)
        ensures
            final(self)@ == old(self)@,
            compiled is None ==> r is Ok,
            compiled matches Some(output)
                ==> status_view(r) == compile_verdict(output@, old(self)@.kind.diagnostic(output@)),
    {
        match self {
            Executor::Rust(it) => it.build(compiled),
            Executor::LuaNvim(it) => it.build(compiled),
            Executor::LuaOriginal(it) => it.build(compiled),
        }
    }

    /// Judges the run from the report of the launched process.
    pub fn execute(&mut self, output: ProcessOutput) -> (r: Result<String, SniprunError>)
        ensures
            final(self)@ == old(self)@,
            outcome_view(r) == run_verdict(output@, old(self)@.kind.reports_on()),
    {
        match self {
            Executor::Rust(it) => it.execute(output),
            Executor::LuaNvim(it) => it.execute(output),
            Executor::LuaOriginal(it) => it.execute(output),
        }
    }

    /// The text selected for execution.
    pub fn get_code(&self) -> (r: String)
        ensures
            r@ == self@.code,
    {
        match self {
            Executor::Rust(it) => it.get_code(),
            Executor::LuaNvim(it) => it.get_code(),
            Executor::LuaOriginal(it) => it.get_code(),
        }
    }

    /// The directory that the host creates for this executor.
    pub fn get_work_dir(&self) -> (r: String)
        ensures
            r@ == self@.kind.scratch_dir(self@.data.work_dir),
    {
        match self {
            Executor::Rust(it) => it.get_work_dir(),
            Executor::LuaNvim(it) => it.get_work_dir(),
            Executor::LuaOriginal(it) => it.get_work_dir(),
        }
    }

    /// The file that the host writes the selected text to.
    pub fn get_main_file_path(&self) -> (r: String)
        ensures
            r@ == self@.kind.source_path(self@.data.work_dir),
    {
        match self {
            Executor::Rust(it) => it.get_main_file_path(),
            Executor::LuaNvim(it) => it.get_main_file_path(),
            Executor::LuaOriginal(it) => it.get_main_file_path(),
        }
    }

    /// The compiler's command line, `None` where the target is interpreted.
    pub fn get_compiler(&self) -> (r: Option<Command>)
        ensures
            r is Some <==> self@.kind.compiler(self@.data.work_dir) is Some,
            r matches Some(command) ==> Some(command@) == self@.kind.compiler(self@.data.work_dir),
    {
        match self {
            Executor::Rust(it) => it.get_compiler(),
            Executor::LuaNvim(it) => it.get_compiler(),
            Executor::LuaOriginal(it) => it.get_compiler(),
        }
    }

    /// The command line that runs what was staged or compiled.
    pub fn get_launcher(&self) -> (r: Command)
        ensures
            r@ == self@.kind.launcher(self@.data.work_dir),
    {
        match self {
            Executor::Rust(it) => it.get_launcher(),
            Executor::LuaNvim(it) => it.get_launcher(),
            Executor::LuaOriginal(it) => it.get_launcher(),
        }
    }
}

} // verus!
