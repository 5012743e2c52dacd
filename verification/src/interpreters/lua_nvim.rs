//! Lua as the editor embeds it, run inside a headless editor.

use vstd::prelude::*;
use crate::data::DataHolder;
use crate::error::SniprunError;
use crate::interpreter::{
    judge_report, pick_code, Interpreter, InterpreterKind, InterpreterView, Stream,
};
use crate::level::SupportLevel;
use crate::process::{Command, CommandView, OutputView, ProcessOutput};
use crate::text::{contains, contains_text};

verus! {

/// The executor for Lua that talks to the editor. It stages the selected text
/// as it is and has a headless editor load the staged file. Text that never
/// mentions the editor is plain Lua, and is handed over to the executor for
/// that.
#[derive(Debug)]
#[allow(non_camel_case_types)]
pub struct Lua_nvim {
    support_level: SupportLevel,
    data: DataHolder,
    code: String,
    lua_work_dir: String,
    main_file_path: String,
}

impl Lua_nvim {
    /// The staging paths are the ones that the context's scratch root fixes.
    #[verifier::type_invariant]
    spec fn paths_fit(self) -> bool {
        &&& self.lua_work_dir@ == Self::scratch_dir(self.data@.work_dir)
        &&& self.main_file_path@ == Self::source_path(self.data@.work_dir)
    }

    /// The word that marks text as written for the editor.
    pub open spec fn marker() -> Seq<char> {
        "nvim"@
    }
}

impl Clone for Lua_nvim {
    /// A copy that holds the same context, level and selected text.
    fn clone(&self) -> (r: Self)
        ensures
            r@ == self@,
    {
        proof {
            use_type_invariant(self);
        }
        Lua_nvim {
            support_level: self.support_level,
            data: self.data.clone(),
            code: self.code.clone(),
            lua_work_dir: self.lua_work_dir.clone(),
            main_file_path: self.main_file_path.clone(),
        }
    }
}

impl Interpreter for Lua_nvim {
    closed spec fn view(&self) -> InterpreterView {
        InterpreterView { data: self.data@, level: self.support_level, code: self.code@ }
    }

    open spec fn name() -> Seq<char> {
        "lua_nvim"@
    }

    open spec fn supported_languages() -> Seq<Seq<char>> {
        seq!["lua"@]
    }

    open spec fn max_support_level() -> SupportLevel {
        SupportLevel::Bloc
    }

    open spec fn scratch_dir(work_dir: Seq<char>) -> Seq<char> {
        work_dir + "/nvim-lua"@
    }

    open spec fn source_path(work_dir: Seq<char>) -> Seq<char> {
        Self::scratch_dir(work_dir) + "/main.lua"@
    }

    open spec fn boilerplate(code: Seq<char>) -> Seq<char> {
        code
    }

    open spec fn compiler(work_dir: Seq<char>) -> Option<CommandView> {
        None
    }

    open spec fn launcher(work_dir: Seq<char>) -> CommandView {
        CommandView {
            program: "nvim"@,
            args: seq![
                "--headless"@,
                "-c"@,
                "luafile "@ + Self::source_path(work_dir),
                "-c"@,
                "q!"@,
            ],
        }
    }

    open spec fn reports_on() -> Stream {
        Stream::Stderr
    }

    open spec fn diagnostic(output: OutputView) -> Seq<char> {
        Seq::empty()
    }

    open spec fn delegate(code: Seq<char>) -> Option<InterpreterKind> {
        if contains_text(code, Self::marker()) {
            None
        } else {
            Some(InterpreterKind::LuaOriginal)
        }
    }

    fn new_with_level(data: DataHolder, level: SupportLevel) -> (r: Box<Lua_nvim>) {
        let bwd = data.work_dir.clone().concat("/nvim-lua");
        let mfp = bwd.clone().concat("/main.lua");
        Box::new(
            Lua_nvim {
                data,
                support_level: level,
                code: String::new(),
                lua_work_dir: bwd,
                main_file_path: mfp,
            },
        )
    }

    fn get_name() -> (r: String) {
        "lua_nvim".to_owned()
    }

    fn get_supported_languages() -> (r: Vec<String>) {
        let r = vec!["lua".to_owned()];
        assert(r.deep_view() =~= Self::supported_languages());
        r
    }

    fn get_current_level(&self) -> (r: SupportLevel) {
        self.support_level
    }

    fn set_current_level(&mut self, level: SupportLevel) {
        proof {
            use_type_invariant(&*self);
        }
        self.support_level = level;
    }

    fn get_data(&self) -> (r: DataHolder) {
        self.data.clone()
    }

    fn get_max_support_level() -> (r: SupportLevel) {
        SupportLevel::Bloc
    }

    fn fallback(&mut self) -> (r: Option<InterpreterKind>) {
        let _ = self.fetch_code();
        if !contains(self.code.as_str(), "nvim") {
            return Some(InterpreterKind::LuaOriginal);
        }
        None
    }

    fn fetch_code(&mut self) -> (r: Result<(), SniprunError>) {
        proof {
            use_type_invariant(&*self);
        }
        self.code = pick_code(&self.data, self.support_level);
        Ok(())
    }

    fn add_boilerplate(&mut self) -> (r: Result<(), SniprunError>) {
        Ok(())
    }

    fn build(&mut self, compiled: Option<ProcessOutput>) -> (r: Result<(), SniprunError>) {
        match compiled {
            Some(output) => {
                if output.success {
                    Ok(())
                } else {
                    Err(SniprunError::CompilationError(String::new()))
                }
            },
            None => Ok(()),
        }
    }

    fn execute(&mut self, output: ProcessOutput) -> (r: Result<String, SniprunError>) {
        judge_report(output, Stream::Stderr)
    }

    fn get_code(&self) -> (r: String) {
        self.code.clone()
    }

    fn get_work_dir(&self) -> (r: String) {
        proof {
            use_type_invariant(self);
        }
        self.lua_work_dir.clone()
    }

    fn get_main_file_path(&self) -> (r: String) {
        proof {
            use_type_invariant(self);
        }
        self.main_file_path.clone()
    }

    fn get_compiler(&self) -> (r: Option<Command>) {
        None
    }

    fn get_launcher(&self) -> (r: Command) {
        proof {
            use_type_invariant(self);
        }
        let args = vec![
            "--headless".to_owned(),
            "-c".to_owned(),
            "luafile ".to_owned().concat(self.main_file_path.as_str()),
            "-c".to_owned(),
            "q!".to_owned(),
        ];
        let command = Command { program: "nvim".to_owned(), args };
        assert(command@.args =~= Self::launcher(self@.data.work_dir).args);
        command
    }

    fn get_reports_on() -> (r: Stream) {
        Stream::Stderr
    }
}

} // verus!
