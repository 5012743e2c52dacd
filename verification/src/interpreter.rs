//! The contract that every language executor fulfils.

use vstd::prelude::*;
use vstd::utf8::*;
use crate::data::{DataHolder, DataView};
use crate::error::{outcome_view, status_view, ErrorView, SniprunError};
use crate::level::SupportLevel;
use crate::process::{read_text, text_of, Command, CommandView, OutputView, ProcessOutput};
use crate::text::{is_blank_text, is_spaces_only, without_blanks, without_spaces};

verus! {

/// The executors that ship with the library.
#[derive(Clone, Copy, Debug, PartialEq, Eq, Structural)]
pub enum InterpreterKind {
    /// Rust, compiled with `rustc`.
    Rust,
    /// Lua as the editor embeds it, run inside a headless editor.
    LuaNvim,
    /// Plain Lua, run by the stand-alone interpreter.
    LuaOriginal,
}

/// One of a process's two output streams.
#[derive(Clone, Copy, Debug, PartialEq, Eq, Structural)]
pub enum Stream {
    Stdout,
    Stderr,
}

/// The mathematical content of an executor: the context it was made for, the
/// level it operates at, and the text it has selected for execution.
pub ghost struct InterpreterView {
    pub data: DataView,
    pub level: SupportLevel,
    pub code: Seq<char>,
}

/// The block of `data` is worth running at `level`: something is left of it
/// once its whitespace is taken out, and the level reaches blocks.
pub open spec fn reads_bloc(data: DataView, level: SupportLevel) -> bool {
    without_blanks(data.current_bloc).len() > 0 && level.covers(SupportLevel::Bloc)
}

/// The line of `data` is worth running at `level`: something is left of it
/// once its spaces are taken out, and the level reaches lines.
pub open spec fn reads_line(data: DataView, level: SupportLevel) -> bool {
    without_spaces(data.current_line).len() > 0 && level.covers(SupportLevel::Line)
}

/// The text that an executor at `level` selects out of `data`: the block where
/// it is worth running, else the line where that is, else nothing.
pub open spec fn select_code(data: DataView, level: SupportLevel) -> Seq<char> {
    if reads_bloc(data, level) {
        data.current_bloc
    } else if reads_line(data, level) {
        data.current_line
    } else {
        Seq::empty()
    }
}

/// Both texts of `data` are empty once stripped, or `level` allows no reading
/// at all.
pub open spec fn nothing_to_read(data: DataView, level: SupportLevel) -> bool {
    ||| without_blanks(data.current_bloc).len() == 0 && without_spaces(data.current_line).len() == 0
    ||| level == SupportLevel::Unsupported
}

/// `view` with `code` as the selected text.
pub open spec fn with_code(view: InterpreterView, code: Seq<char>) -> InterpreterView {
    InterpreterView { code, ..view }
}

/// `view` after the text to execute has been selected.
pub open spec fn fetched(view: InterpreterView) -> InterpreterView {
    with_code(view, select_code(view.data, view.level))
}

/// The bytes of the stream `which` of `output`.
pub open spec fn stream_of(output: OutputView, which: Stream) -> Seq<u8> {
    match which {
        Stream::Stdout => output.stdout,
        Stream::Stderr => output.stderr,
    }
}

/// The verdict on a compiler's report: failure exactly when the compiler
/// reported failure, with `diagnostic` as the error's text.
pub open spec fn compile_verdict(output: OutputView, diagnostic: Seq<char>) -> Result<(), ErrorView> {
    if output.success {
        Ok(())
    } else {
        Err(ErrorView::CompilationError(diagnostic))
    }
}

/// The verdict on a run from whether it succeeded and the text it left: the
/// text after success, a runtime error that carries the text after failure.
pub open spec fn run_outcome(success: bool, text: Seq<char>) -> Result<Seq<char>, ErrorView> {
    if success {
        Ok(text)
    } else {
        Err(ErrorView::RuntimeError(text))
    }
}

/// The stream of `output` that an executor reads which reports its successful
/// runs on `reports_on`: that stream after success, standard error after
/// failure.
pub open spec fn stream_read(output: OutputView, reports_on: Stream) -> Seq<u8> {
    if output.success {
        stream_of(output, reports_on)
    } else {
        output.stderr
    }
}

/// The verdict on a run's report: after success the text of the stream that
/// the executor reports on, after failure the text of standard error as a
/// runtime error.
pub open spec fn run_verdict(output: OutputView, reports_on: Stream) -> Result<Seq<char>, ErrorView> {
    run_outcome(output.success, text_of(stream_read(output, reports_on)))
}

/// The capabilities of a language executor. One value serves one run: it is
/// made from the run's context, selects the text to execute, dresses it for its
/// toolchain, and judges what the toolchain reports. An executor neither
/// touches the file system nor starts a process: it says what is to be written
/// and run, and is told what came of it.
pub trait Interpreter: Sized {
    /// The mathematical content of this executor.
    spec fn view(&self) -> InterpreterView;

    /// The executor's stable name.
    spec fn name() -> Seq<char>;

    /// The language tags that the executor claims.
    spec fn supported_languages() -> Seq<Seq<char>>;

    /// The highest level that the executor can ever support.
    spec fn max_support_level() -> SupportLevel;

    /// The executor's own directory below the scratch root `work_dir`.
    spec fn scratch_dir(work_dir: Seq<char>) -> Seq<char>;

    /// The path of the file that the selected text is staged in.
    spec fn source_path(work_dir: Seq<char>) -> Seq<char>;

    /// `code` with the scaffolding that makes it a complete unit for the
    /// executor's toolchain.
    spec fn boilerplate(code: Seq<char>) -> Seq<char>;

    /// The compiler's command line, where the executor's target is compiled.
    spec fn compiler(work_dir: Seq<char>) -> Option<CommandView>;

    /// The command line that runs the staged or compiled text.
    spec fn launcher(work_dir: Seq<char>) -> CommandView;

    /// The stream on which the toolchain reports a successful run.
    spec fn reports_on() -> Stream;

    /// The text that a compilation error carries for the compiler's report
    /// `output`.
    spec fn diagnostic(output: OutputView) -> Seq<char>;

    /// The executor that should run `code` in this one's place, if any.
    spec fn delegate(code: Seq<char>) -> Option<InterpreterKind>;

    /// An executor for the context `data` at `level`, with nothing selected
    /// yet.
    fn new_with_level(data: DataHolder, level: SupportLevel) -> (r: Box<Self>)
        ensures
            r@ == (InterpreterView { data: data@, level, code: Seq::empty() }),
    ;

    /// The executor's stable name, by which it is looked up and shown.
    fn get_name() -> (r: String)
        ensures
            r@ == Self::name(),
    ;

    /// The language tags that the executor claims to handle.
    fn get_supported_languages() -> (r: Vec<String>)
        ensures
            r.deep_view() == Self::supported_languages(),
    ;

    /// The level that the executor operates at.
    fn get_current_level(&self) -> (r: SupportLevel)
        ensures
            r == self@.level,
    ;

    /// Sets the level that the executor operates at; context and selected text
    /// stay.
    fn set_current_level(&mut self, level: SupportLevel)
        ensures
            final(self)@ == (InterpreterView { level, ..old(self)@ }),
    ;

    /// A copy of the context that the executor was made for.
    fn get_data(&self) -> (r: DataHolder)
        ensures
            r@ == self@.data,
    ;

    /// The highest level that the executor can ever support.
    fn get_max_support_level() -> (r: SupportLevel)
        ensures
            r == Self::max_support_level(),
    ;

    /// Selects the text to execute: the block, where something is left of it
    /// once whitespace is stripped and the level reaches blocks; else the line,
    /// where something is left of it once spaces are stripped and the level
    /// reaches lines; else the empty text. Always succeeds.
    fn fetch_code(&mut self) -> (r: Result<(), SniprunError>)
        ensures
            r is Ok,
            final(self)@ == fetched(old(self)@),
            reads_bloc(old(self)@.data, old(self)@.level)
                ==> final(self)@.code == old(self)@.data.current_bloc,
            !reads_bloc(old(self)@.data, old(self)@.level)
                && reads_line(old(self)@.data, old(self)@.level)
                ==> final(self)@.code == old(self)@.data.current_line,
            nothing_to_read(old(self)@.data, old(self)@.level)
                ==> final(self)@.code == Seq::<char>::empty(),
    ;

    /// Dresses the selected text for the toolchain. Always succeeds.
    fn add_boilerplate(&mut self) -> (r: Result<(), SniprunError>)
        ensures
            r is Ok,
            final(self)@ == with_code(old(self)@, Self::boilerplate(old(self)@.code)),
    ;

    /// Selects the text anew and names the executor that should run it in this
    /// one's place, if there is one.
    fn fallback(&mut self) -> (r: Option<InterpreterKind>)
        ensures
            final(self)@ == fetched(old(self)@),
            r == Self::delegate(final(self)@.code),
    ;

    /// Judges the build from the compiler's report, `None` where no compiler
    /// was run: a compilation error exactly when a compiler reported failure.
    fn build(&mut self, compiled: Option<ProcessOutput>) -> (r: Result<(), SniprunError>)
        ensures
            final(self)@ == old(self)@,
            compiled is None ==> r is Ok,
            compiled matches Some(output)
                ==> status_view(r) == compile_verdict(output@, Self::diagnostic(output@)),
    ;

    /// Judges the run from the report of the launched process: after success
    /// the text of the stream that the toolchain reports on, after failure a
    /// runtime error with the text of standard error. Bytes that are not
    /// well-formed UTF-8 are read lossily.
    fn execute(&mut self, output: ProcessOutput) -> (r: Result<String, SniprunError>)
        ensures
            final(self)@ == old(self)@,
            outcome_view(r) == run_verdict(output@, Self::reports_on()),
            output.success ==> outcome_view(r) == Ok::<Seq<char>, ErrorView>(
                text_of(stream_of(output@, Self::reports_on())),
            ),
            !output.success ==> outcome_view(r) == Err::<Seq<char>, ErrorView>(
                ErrorView::RuntimeError(text_of(output.stderr@)),
            ),
            !output.success && valid_utf8(output.stderr@) ==> outcome_view(r) == Err::<
                Seq<char>,
                ErrorView,
            >(ErrorView::RuntimeError(decode_utf8(output.stderr@))),
    ;

    /// The text selected for execution.
    fn get_code(&self) -> (r: String)
        ensures
            r@ == self@.code,
    ;

    /// The directory that the host creates for this executor before anything
    /// is staged.
    fn get_work_dir(&self) -> (r: String)
        ensures
            r@ == Self::scratch_dir(self@.data.work_dir),
    ;

    /// The file that the host writes the selected text to.
    fn get_main_file_path(&self) -> (r: String)
        ensures
            r@ == Self::source_path(self@.data.work_dir),
    ;

    /// The compiler's command line, `None` where the target is interpreted.
    fn get_compiler(&self) -> (r: Option<Command>)
        ensures
            r is Some <==> Self::compiler(self@.data.work_dir) is Some,
            r matches Some(command) ==> Some(command@) == Self::compiler(self@.data.work_dir),
    ;

    /// The command line that runs what was staged or compiled.
    fn get_launcher(&self) -> (r: Command)
        ensures
            r@ == Self::launcher(self@.data.work_dir),
    ;

    /// The stream on which the toolchain reports a successful run.
    fn get_reports_on() -> (r: Stream)
        ensures
            r == Self::reports_on(),
    ;
}

/// The verdict on a run from whether it succeeded and the text it left.
pub fn judge_run(success: bool, text: String) -> (r: Result<String, SniprunError>)
    ensures
        outcome_view(r) == run_outcome(success, text@),
{
    if success {
        Ok(text)
    } else {
        Err(SniprunError::RuntimeError(text))
    }
}

/// The verdict on the report of a launched process, for an executor that
/// reports its successful runs on `reports_on`.
pub fn judge_report(output: ProcessOutput, reports_on: Stream) -> (r: Result<String, SniprunError>)
    ensures
        outcome_view(r) == run_verdict(output@, reports_on),
{
    let text = if output.success {
        match reports_on {
            Stream::Stdout => read_text(&output.stdout),
            Stream::Stderr => read_text(&output.stderr),
        }
    } else {
        read_text(&output.stderr)
    };
    judge_run(output.success, text)
}

/// The text that an executor at `level` selects out of `data`.
pub fn pick_code(data: &DataHolder, level: SupportLevel) -> (r: String)
    ensures
        r@ == select_code(data@, level),
{
    if !is_blank_text(data.current_bloc.as_str()) && level.at_least(SupportLevel::Bloc) {
        data.current_bloc.clone()
    } else if !is_spaces_only(data.current_line.as_str()) && level.at_least(SupportLevel::Line) {
        data.current_line.clone()
    } else {
        String::new()
    }
}

} // verus!
