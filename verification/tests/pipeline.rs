use sniprun::data::DataHolder;
use sniprun::error::SniprunError;
use sniprun::interpreter::InterpreterKind;
use sniprun::level::SupportLevel;
use sniprun::pipeline::{Action, Event, Pipeline};
use sniprun::process::{Command, ProcessOutput};

fn data(bloc: &str, line: &str, work_dir: &str) -> DataHolder {
    DataHolder {
        current_bloc: String::from(bloc),
        current_line: String::from(line),
        work_dir: String::from(work_dir),
    }
}

fn exited(success: bool, stdout: &str, stderr: &str) -> Event {
    Event::Exited(ProcessOutput {
        success,
        stdout: stdout.as_bytes().to_vec(),
        stderr: stderr.as_bytes().to_vec(),
    })
}

fn strings(items: &[&str]) -> Vec<String> {
    items.iter().map(|s| String::from(*s)).collect()
}

fn advance(run: Pipeline, event: Event) -> Pipeline {
    let (next, accepted) = run.step(event);
    assert!(accepted);
    next
}

/// Drives a run with `events` and returns every action it asked for, the
/// first one included.
fn trace(mut run: Pipeline, events: Vec<Event>) -> Vec<Action> {
    let mut actions = vec![run.pending()];
    for event in events {
        run = advance(run, event);
        actions.push(run.pending());
    }
    actions
}

#[test]
fn compiled_snippet_runs_to_its_output() {
    let run = Pipeline::new(InterpreterKind::Rust, data("1+1;", "", "/tmp/run1"), SupportLevel::Bloc);
    assert_eq!(run.kind(), InterpreterKind::Rust);
    assert!(!run.is_finished());
    assert_eq!(run.pending(), Action::CreateDir { path: String::from("/tmp/run1/rust-original") });
    let run = advance(run, Event::Ready);
    assert_eq!(
        run.pending(),
        Action::WriteFile {
            path: String::from("/tmp/run1/rust-original/main.rs"),
            contents: String::from("fn main() {1+1;}"),
        }
    );
    let run = advance(run, Event::Ready);
    assert_eq!(
        run.pending(),
        Action::Spawn {
            command: Command {
                program: String::from("rustc"),
                args: strings(&["--out-dir", "/tmp/run1/rust-original", "/tmp/run1/rust-original/main.rs"]),
            }
        }
    );
    let run = advance(run, exited(true, "", ""));
    assert_eq!(
        run.pending(),
        Action::Spawn {
            command: Command { program: String::from("/tmp/run1/rust-original/main"), args: Vec::new() }
        }
    );
    assert!(!run.is_finished());
    let run = advance(run, exited(true, "", ""));
    assert!(run.is_finished());
    assert_eq!(run.pending(), Action::Finish { result: Ok(String::new()) });
}

#[test]
fn compiled_snippet_with_syntax_error_ends_at_the_build() {
    let run = Pipeline::new(InterpreterKind::Rust, data("let = ;", "", "/tmp/run1"), SupportLevel::Bloc);
    let run = advance(run, Event::Ready);
    assert_eq!(
        run.pending(),
        Action::WriteFile {
            path: String::from("/tmp/run1/rust-original/main.rs"),
            contents: String::from("fn main() {let = ;}"),
        }
    );
    let run = advance(run, Event::Ready);
    let run = advance(run, exited(false, "", "error: expected pattern, found `=`"));
    assert!(run.is_finished());
    assert_eq!(
        run.pending(),
        Action::Finish { result: Err(SniprunError::CompilationError(String::new())) }
    );
}

#[test]
fn failed_build_never_asks_for_the_program() {
    let run = Pipeline::new(InterpreterKind::Rust, data("oops", "", "/w"), SupportLevel::Bloc);
    let run = advance(run, Event::Ready);
    let run = advance(run, Event::Ready);
    let mut run = advance(run, exited(false, "", "error"));
    let finished = run.pending();
    for event in [Event::Ready, exited(true, "out", ""), exited(false, "", "err"), Event::Ready] {
        let (next, accepted) = run.step(event);
        assert!(!accepted);
        assert_eq!(next.pending(), finished);
        assert!(!matches!(next.pending(), Action::Spawn { .. }));
        run = next;
    }
}

#[test]
fn failed_program_ends_with_runtime_error_carrying_stderr() {
    let run = Pipeline::new(InterpreterKind::Rust, data("panic!();", "", "/w"), SupportLevel::Bloc);
    let run = advance(run, Event::Ready);
    let run = advance(run, Event::Ready);
    let run = advance(run, exited(true, "", ""));
    let run = advance(run, exited(false, "before", "thread 'main' panicked at main.rs:1"));
    assert_eq!(
        run.pending(),
        Action::Finish {
            result: Err(SniprunError::RuntimeError(String::from("thread 'main' panicked at main.rs:1")))
        }
    );
}

#[test]
fn program_output_is_the_result() {
    let run = Pipeline::new(InterpreterKind::Rust, data("println!(\"4\");", "", "/w"), SupportLevel::Bloc);
    let run = advance(run, Event::Ready);
    let run = advance(run, Event::Ready);
    let run = advance(run, exited(true, "", "warning: unused"));
    let run = advance(run, exited(true, "4\n", "noise"));
    assert_eq!(run.pending(), Action::Finish { result: Ok(String::from("4\n")) });
}

#[test]
fn dialect_snippet_stays_with_the_dialect_executor() {
    let code = "print(vim.api.nvim_get_current_line())";
    let run = Pipeline::new(InterpreterKind::LuaNvim, data(code, "", "/w"), SupportLevel::Bloc);
    assert_eq!(run.pending(), Action::CreateDir { path: String::from("/w/nvim-lua") });
    let run = advance(run, Event::Ready);
    assert_eq!(run.kind(), InterpreterKind::LuaNvim);
    assert_eq!(
        run.pending(),
        Action::WriteFile { path: String::from("/w/nvim-lua/main.lua"), contents: String::from(code) }
    );
    let run = advance(run, Event::Ready);
    assert_eq!(
        run.pending(),
        Action::Spawn {
            command: Command {
                program: String::from("nvim"),
                args: strings(&["--headless", "-c", "luafile /w/nvim-lua/main.lua", "-c", "q!"]),
            }
        }
    );
    let run = advance(run, exited(true, "", "a line"));
    assert_eq!(run.pending(), Action::Finish { result: Ok(String::from("a line")) });
}

#[test]
fn dialect_executor_failure_is_a_runtime_error() {
    let run = Pipeline::new(InterpreterKind::LuaNvim, data("nvim()", "", "/w"), SupportLevel::Bloc);
    let run = advance(run, Event::Ready);
    let run = advance(run, Event::Ready);
    let run = advance(run, exited(false, "", "E5112"));
    assert_eq!(
        run.pending(),
        Action::Finish { result: Err(SniprunError::RuntimeError(String::from("E5112"))) }
    );
}

#[test]
fn snippet_without_marker_falls_back_to_the_base_executor() {
    let events = || vec![Event::Ready, Event::Ready, exited(true, "hello\n", "")];
    let context = || data("print('hello')", "print('hello')", "/tmp/run1");

    let run = Pipeline::new(InterpreterKind::LuaNvim, context(), SupportLevel::Bloc);
    assert_eq!(run.pending(), Action::CreateDir { path: String::from("/tmp/run1/nvim-lua") });
    let run = advance(run, Event::Ready);
    assert_eq!(run.kind(), InterpreterKind::LuaOriginal);
    let delegated = trace(run, events());

    let direct = trace(Pipeline::new(InterpreterKind::LuaOriginal, context(), SupportLevel::Bloc), events());
    assert_eq!(delegated, direct);
    assert_eq!(
        delegated,
        vec![
            Action::CreateDir { path: String::from("/tmp/run1/lua-original") },
            Action::WriteFile {
                path: String::from("/tmp/run1/lua-original/main.lua"),
                contents: String::from("print('hello')"),
            },
            Action::Spawn {
                command: Command {
                    program: String::from("lua"),
                    args: strings(&["/tmp/run1/lua-original/main.lua"]),
                }
            },
            Action::Finish { result: Ok(String::from("hello\n")) },
        ]
    );
}

#[test]
fn fallback_skips_the_dialect_executor_stages() {
    let run = Pipeline::new(InterpreterKind::LuaNvim, data("print(1)", "", "/w"), SupportLevel::Bloc);
    let actions = trace(run, vec![Event::Ready, Event::Ready, Event::Ready, exited(true, "1\n", "")]);
    for action in actions.iter().skip(1) {
        match action {
            Action::CreateDir { path } => assert_eq!(path, "/w/lua-original"),
            Action::WriteFile { path, .. } => assert_eq!(path, "/w/lua-original/main.lua"),
            Action::Spawn { command } => assert_eq!(command.program, "lua"),
            Action::Finish { result } => assert_eq!(result, &Ok(String::from("1\n"))),
        }
    }
    assert_eq!(actions.len(), 5);
}

#[test]
fn fallback_surfaces_the_delegate_error_unchanged() {
    let events = || vec![Event::Ready, Event::Ready, exited(false, "", "lua: main.lua:1: boom")];
    let context = || data("error('boom')", "", "/w");
    let run = advance(Pipeline::new(InterpreterKind::LuaNvim, context(), SupportLevel::Bloc), Event::Ready);
    let delegated = trace(run, events());
    let direct = trace(Pipeline::new(InterpreterKind::LuaOriginal, context(), SupportLevel::Bloc), events());
    assert_eq!(delegated, direct);
    assert_eq!(
        delegated.last(),
        Some(&Action::Finish {
            result: Err(SniprunError::RuntimeError(String::from("lua: main.lua:1: boom")))
        })
    );
}

#[test]
fn fallback_keeps_context_and_level() {
    for level in [SupportLevel::Line, SupportLevel::Bloc, SupportLevel::File] {
        let context = || data("a = 1\nprint(a)", "print(a)", "/w");
        let run = advance(Pipeline::new(InterpreterKind::LuaNvim, context(), level), Event::Ready);
        assert_eq!(run.kind(), InterpreterKind::LuaOriginal);
        let delegated = trace(run, vec![Event::Ready]);
        let direct = trace(Pipeline::new(InterpreterKind::LuaOriginal, context(), level), vec![Event::Ready]);
        assert_eq!(delegated, direct);
    }
}

#[test]
fn empty_snippet_at_dialect_executor_falls_back() {
    let run = Pipeline::new(InterpreterKind::LuaNvim, data("", "", "/w"), SupportLevel::Bloc);
    let run = advance(run, Event::Ready);
    assert_eq!(run.kind(), InterpreterKind::LuaOriginal);
    let run = advance(run, Event::Ready);
    assert_eq!(
        run.pending(),
        Action::WriteFile { path: String::from("/w/lua-original/main.lua"), contents: String::new() }
    );
}

#[test]
fn interpreted_snippet_skips_the_compiler() {
    let run = Pipeline::new(InterpreterKind::LuaOriginal, data("print(1)", "", "/w"), SupportLevel::Bloc);
    let actions = trace(run, vec![Event::Ready, Event::Ready]);
    assert_eq!(
        actions[2],
        Action::Spawn { command: Command { program: String::from("lua"), args: strings(&["/w/lua-original/main.lua"]) } }
    );
}

#[test]
fn pending_does_not_move_the_run() {
    let run = Pipeline::new(InterpreterKind::Rust, data("1+1;", "", "/w"), SupportLevel::Bloc);
    assert_eq!(run.pending(), run.pending());
    let run = advance(run, Event::Ready);
    assert_eq!(run.pending(), run.pending());
}

#[test]
fn event_that_does_not_answer_is_refused() {
    let run = Pipeline::new(InterpreterKind::Rust, data("1+1;", "", "/w"), SupportLevel::Bloc);
    assert!(run.accepts(&Event::Ready));
    assert!(!run.accepts(&exited(true, "", "")));
    let before = run.pending();
    let (run, accepted) = run.step(exited(true, "", ""));
    assert!(!accepted);
    assert_eq!(run.pending(), before);

    let run = advance(run, Event::Ready);
    assert!(run.accepts(&Event::Ready));
    assert!(!run.accepts(&exited(false, "", "")));
    let run = advance(run, Event::Ready);
    assert!(!run.accepts(&Event::Ready));
    assert!(run.accepts(&exited(false, "", "")));
    let before = run.pending();
    let (run, accepted) = run.step(Event::Ready);
    assert!(!accepted);
    assert_eq!(run.pending(), before);
    let run = advance(run, exited(true, "", ""));
    assert!(!run.accepts(&Event::Ready));
    assert!(run.accepts(&exited(true, "", "")));
}

#[test]
fn failed_program_with_ill_formed_stderr_ends_with_runtime_error() {
    let run = Pipeline::new(InterpreterKind::Rust, data("1+1;", "", "/w"), SupportLevel::Bloc);
    let run = advance(run, Event::Ready);
    let run = advance(run, Event::Ready);
    let run = advance(run, Event::Exited(ProcessOutput { success: true, stdout: vec![0xff], stderr: vec![0xfe] }));
    let bad = || Event::Exited(ProcessOutput { success: false, stdout: Vec::new(), stderr: vec![0xff] });
    assert!(run.accepts(&bad()));
    let run = advance(run, bad());
    assert!(run.is_finished());
    assert_eq!(
        run.pending(),
        Action::Finish { result: Err(SniprunError::RuntimeError(String::from("\u{fffd}"))) }
    );
}

#[test]
fn program_output_that_is_ill_formed_is_read_lossily() {
    let run = Pipeline::new(InterpreterKind::LuaOriginal, data("print(1)", "", "/w"), SupportLevel::Bloc);
    let run = advance(run, Event::Ready);
    let run = advance(run, Event::Ready);
    let run = advance(run, Event::Exited(ProcessOutput { success: true, stdout: vec![0x31, 0xff, 0x0a], stderr: vec![0xff] }));
    assert_eq!(run.pending(), Action::Finish { result: Ok(String::from("1\u{fffd}\n")) });
}

#[test]
fn block_of_other_whitespace_gives_way_to_the_line() {
    let run = Pipeline::new(InterpreterKind::Rust, data("\u{c}", "let a = 1;", "/w"), SupportLevel::Bloc);
    let run = advance(run, Event::Ready);
    assert_eq!(
        run.pending(),
        Action::WriteFile {
            path: String::from("/w/rust-original/main.rs"),
            contents: String::from("fn main() {let a = 1;}"),
        }
    );
}

#[test]
fn finished_run_takes_no_event() {
    let run = Pipeline::new(InterpreterKind::LuaOriginal, data("print(1)", "", "/w"), SupportLevel::Bloc);
    let run = advance(run, Event::Ready);
    let run = advance(run, Event::Ready);
    let run = advance(run, exited(true, "1\n", ""));
    assert!(run.is_finished());
    assert!(!run.accepts(&Event::Ready));
    assert!(!run.accepts(&exited(true, "", "")));
    let (run, accepted) = run.step(Event::Ready);
    assert!(!accepted);
    assert_eq!(run.pending(), Action::Finish { result: Ok(String::from("1\n")) });
}

#[test]
fn unsupported_level_stages_empty_text() {
    let run = Pipeline::new(InterpreterKind::Rust, data("1+1;", "1+1;", "/w"), SupportLevel::Unsupported);
    let run = advance(run, Event::Ready);
    assert_eq!(
        run.pending(),
        Action::WriteFile { path: String::from("/w/rust-original/main.rs"), contents: String::from("fn main() {}") }
    );
}
