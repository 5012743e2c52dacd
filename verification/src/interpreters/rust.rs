//! Rust, compiled with `rustc` and run as a native binary.

use vstd::prelude::*;
use crate::data::DataHolder;
use crate::error::SniprunError;
use crate::interpreter::{
    judge_report, pick_code, Interpreter, InterpreterKind, InterpreterView, Stream,
};
use crate::level::SupportLevel;
use crate::process::{Command, CommandView, OutputView, ProcessOutput};

verus! {

/// The executor for Rust. It wraps the selected text into a `main` function,
/// has `rustc` compile the staged file into its scratch directory, and runs
/// the binary that results.
#[derive(Debug)]
pub struct Rust {
    support_level: SupportLevel,
    data: DataHolder,
    code: String,
    rust_work_dir: String,
    bin_path: String,
    main_file_path: String,
}

impl Rust {
    /// The staging paths are the ones that the context's scratch root fixes.
    #[verifier::type_invariant]
    spec fn paths_fit(self) -> bool {
        &&& self.rust_work_dir@ == Self::scratch_dir(self.data@.work_dir)
        &&& self.main_file_path@ == Self::source_path(self.data@.work_dir)
        &&& self.bin_path@ == Self::binary_path(self.data@.work_dir)
    }

    /// The path of the binary that the compiler leaves in the scratch
    /// directory.
    pub open spec fn binary_path(work_dir: Seq<char>) -> Seq<char> {
        Self::scratch_dir(work_dir) + "/main"@
    }

    /// The binary carries the name of the staged file without its extension.
    pub proof fn lemma_binary_path_drops_extension(work_dir: Seq<char>)
        ensures
            Self::source_path(work_dir).len() >= 3,
            Self::binary_path(work_dir) == Self::source_path(work_dir).subrange(
                0,
                Self::source_path(work_dir).len() - 3,
            ),
    {
        reveal_strlit("/main");
        reveal_strlit("/main.rs");
        assert(Self::binary_path(work_dir) =~= Self::source_path(work_dir).subrange(
            0,
            Self::source_path(work_dir).len() - 3,
        ));
    }
}

impl Clone for Rust {
    /// A copy that holds the same context, level and selected text.
    fn clone(&self) -> (r: Self)
        ensures
            r@ == self@,
    {
        proof {
            use_type_invariant(self);
        }
        Rust {
            support_level: self.support_level,
            data: self.data.clone(),
            code: self.code.clone(),
            rust_work_dir: self.rust_work_dir.clone(),
            bin_path: self.bin_path.clone(),
            main_file_path: self.main_file_path.clone(),
        }
    }
}

impl Interpreter for Rust {
    closed spec fn view(&self) -> InterpreterView {
        InterpreterView { data: self.data@, level: self.support_level, code: self.code@ }
    }

    open spec fn name() -> Seq<char> {
        "rust-original"@
    }

    open spec fn supported_languages() -> Seq<Seq<char>> {
        seq!["rust"@, "rust-lang"@, "rs"@]
    }

    open spec fn max_support_level() -> SupportLevel {
        SupportLevel::Bloc
    }

    open spec fn scratch_dir(work_dir: Seq<char>) -> Seq<char> {
        work_dir + "/rust-original"@
    }

    open spec fn source_path(work_dir: Seq<char>) -> Seq<char> {
        Self::scratch_dir(work_dir) + "/main.rs"@
    }

    open spec fn boilerplate(code: Seq<char>) -> Seq<char> {
        "fn main() {"@ + code + "}"@
    }

    open spec fn compiler(work_dir: Seq<char>) -> Option<CommandView> {
        Some(
            CommandView {
                program: "rustc"@,
                args: seq!["--out-dir"@, Self::scratch_dir(work_dir), Self::source_path(work_dir)],
            },
        )
    }

    open spec fn launcher(work_dir: Seq<char>) -> CommandView {
        CommandView { program: Self::binary_path(work_dir), args: Seq::empty() }
    }

    open spec fn reports_on() -> Stream {
        Stream::Stdout
    }

    open spec fn diagnostic(output: OutputView) -> Seq<char> {
        Seq::empty()
    }

    open spec fn delegate(code: Seq<char>) -> Option<InterpreterKind> {
        None
    }

    fn new_with_level(data: DataHolder, support_level: SupportLevel) -> (r: Box<Rust>) {
        let rwd = data.work_dir.clone().concat("/rust-original");
        let mfp = rwd.clone().concat("/main.rs");
        let bp = rwd.clone().concat("/main");
        Box::new(
            Rust {
                data,
                support_level,
                code: String::new(),
                rust_work_dir: rwd,
                bin_path: bp,
                main_file_path: mfp,
            },
        )
    }

    fn get_supported_languages() -> (r: Vec<String>) {
        let r = vec!["rust".to_owned(), "rust-lang".to_owned(), "rs".to_owned()];
        assert(r.deep_view() =~= Self::supported_languages());
        r
    }

    fn get_name() -> (r: String) {
        "rust-original".to_owned()
    }

    fn get_current_level(&self) -> (r: SupportLevel) {
        self.support_level
    }

    fn set_current_level(&mut self, level: SupportLevel) {
        proof {
            use_type_invariant(&*self);
        }
        self.support_level = level;
    }

    fn get_data(&self) -> (r: DataHolder) {
        self.data.clone()
    }

    fn get_max_support_level() -> (r: SupportLevel) {
        SupportLevel::Bloc
    }

    fn fetch_code(&mut self) -> (r: Result<(), SniprunError>) {
        proof {
            use_type_invariant(&*self);
        }
        self.code = pick_code(&self.data, self.support_level);
        Ok(())
    }

    fn add_boilerplate(&mut self) -> (r: Result<(), SniprunError>) {
        proof {
            use_type_invariant(&*self);
        }
        self.code = "fn main() {".to_owned().concat(self.code.as_str()).concat("}");
        Ok(())
    }

    fn fallback(&mut self) -> (r: Option<InterpreterKind>) {
        let _ = self.fetch_code();
        None
    }

    fn build(&mut self, compiled: Option<ProcessOutput>) -> (r: Result<(), SniprunError>) {
        match compiled {
            Some(output) => {
                if output.success {
                    Ok(())
                } else {
                    Err(SniprunError::CompilationError(String::new()))
                }
            },
            None => Ok(()),
        }
    }

    fn execute(&mut self, output: ProcessOutput) -> (r: Result<String, SniprunError>) {
        judge_report(output, Stream::Stdout)
    }

    fn get_code(&self) -> (r: String) {
        self.code.clone()
    }

    fn get_work_dir(&self) -> (r: String) {
        proof {
            use_type_invariant(self);
        }
        self.rust_work_dir.clone()
    }

    fn get_main_file_path(&self) -> (r: String) {
        proof {
            use_type_invariant(self);
        }
        self.main_file_path.clone()
    }

    fn get_compiler(&self) -> (r: Option<Command>) {
        proof {
            use_type_invariant(self);
        }
        let args = vec![
            "--out-dir".to_owned(),
            self.rust_work_dir.clone(),
            self.main_file_path.clone(),
        ];
        let command = Command { program: "rustc".to_owned(), args };
        assert(command@.args =~= Self::compiler(self@.data.work_dir)->0.args);
        Some(command)
    }

    fn get_launcher(&self) -> (r: Command) {
        proof {
            use_type_invariant(self);
        }
        let command = Command { program: self.bin_path.clone(), args: Vec::new() };
        assert(command@.args =~= Seq::<Seq<char>>::empty());
        command
    }

    fn get_reports_on() -> (r: Stream) {
        Stream::Stdout
    }
}

} // verus!
