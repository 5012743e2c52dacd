use sniprun::data::DataHolder;
use sniprun::interpreter::{pick_code, Interpreter};
use sniprun::interpreters::lua_nvim::Lua_nvim;
use sniprun::interpreters::lua_original::Lua_original;
use sniprun::interpreters::rust::Rust;
use sniprun::level::SupportLevel;

fn context(bloc: &str, line: &str) -> DataHolder {
    DataHolder {
        current_bloc: String::from(bloc),
        current_line: String::from(line),
        work_dir: String::from("/tmp/run1"),
    }
}

const LEVELS: [SupportLevel; 5] = [
    SupportLevel::Unsupported,
    SupportLevel::Line,
    SupportLevel::Bloc,
    SupportLevel::Import,
    SupportLevel::File,
];

#[test]
fn fetch_prefers_block_at_block_level_and_above() {
    for level in [SupportLevel::Bloc, SupportLevel::Import, SupportLevel::File] {
        let mut lua = Lua_nvim::new_with_level(context("local a = 1\nprint(a)", "print(a)"), level);
        assert_eq!(lua.fetch_code(), Ok(()));
        assert_eq!(lua.get_code(), "local a = 1\nprint(a)");
        let mut rust = Rust::new_with_level(context("1+1;", ""), level);
        assert_eq!(rust.fetch_code(), Ok(()));
        assert_eq!(rust.get_code(), "1+1;");
    }
}

#[test]
fn fetch_keeps_block_verbatim() {
    let bloc = "  \n\tlet x = 1;  \r\n";
    let mut rust = Rust::new_with_level(context(bloc, "let x = 1;"), SupportLevel::Bloc);
    rust.fetch_code().unwrap();
    assert_eq!(rust.get_code(), bloc);
}

#[test]
fn fetch_takes_line_when_block_is_blank() {
    let mut lua = Lua_nvim::new_with_level(context(" \t\r\n", "print(1)"), SupportLevel::Bloc);
    assert_eq!(lua.fetch_code(), Ok(()));
    assert_eq!(lua.get_code(), "print(1)");
    let mut lua = Lua_original::new_with_level(context("", "print(1)"), SupportLevel::File);
    assert_eq!(lua.fetch_code(), Ok(()));
    assert_eq!(lua.get_code(), "print(1)");
}

#[test]
fn fetch_takes_line_when_block_is_other_whitespace() {
    let mut rust = Rust::new_with_level(context("\u{c}", "let a = 1;"), SupportLevel::Bloc);
    assert_eq!(rust.fetch_code(), Ok(()));
    assert_eq!(rust.get_code(), "let a = 1;");
    let mut lua = Lua_nvim::new_with_level(context("\u{c}", "a = 1"), SupportLevel::Bloc);
    assert_eq!(lua.fetch_code(), Ok(()));
    assert_eq!(lua.get_code(), "a = 1");
    let mut lua = Lua_original::new_with_level(context("\u{a0}\u{2003}\u{b}\n", "a = 1"), SupportLevel::File);
    assert_eq!(lua.fetch_code(), Ok(()));
    assert_eq!(lua.get_code(), "a = 1");
}

#[test]
fn fetch_yields_nothing_when_block_is_other_whitespace_and_line_is_empty() {
    let mut rust = Rust::new_with_level(context("\u{c}", ""), SupportLevel::Bloc);
    assert_eq!(rust.fetch_code(), Ok(()));
    assert_eq!(rust.get_code(), "");
    let mut lua = Lua_nvim::new_with_level(context("\u{85}\u{3000}", "  "), SupportLevel::Bloc);
    assert_eq!(lua.fetch_code(), Ok(()));
    assert_eq!(lua.get_code(), "");
}

#[test]
fn fetch_takes_line_when_level_is_line() {
    let mut lua = Lua_nvim::new_with_level(context("a = 1\nb = 2", "b = 2"), SupportLevel::Line);
    assert_eq!(lua.fetch_code(), Ok(()));
    assert_eq!(lua.get_code(), "b = 2");
    let mut rust = Rust::new_with_level(context("let a = 1;", "  let a = 1;"), SupportLevel::Line);
    assert_eq!(rust.fetch_code(), Ok(()));
    assert_eq!(rust.get_code(), "  let a = 1;");
}

#[test]
fn fetch_line_is_judged_by_spaces_alone() {
    let mut lua = Lua_nvim::new_with_level(context("", "\t"), SupportLevel::Line);
    lua.fetch_code().unwrap();
    assert_eq!(lua.get_code(), "\t");
    let mut lua = Lua_nvim::new_with_level(context("\t", "   "), SupportLevel::Bloc);
    lua.fetch_code().unwrap();
    assert_eq!(lua.get_code(), "");
    let mut lua = Lua_nvim::new_with_level(context("", "\u{c}"), SupportLevel::Bloc);
    lua.fetch_code().unwrap();
    assert_eq!(lua.get_code(), "\u{c}");
}

#[test]
fn fetch_yields_nothing_when_both_are_empty() {
    for level in LEVELS {
        let mut lua = Lua_nvim::new_with_level(context("", ""), level);
        assert_eq!(lua.fetch_code(), Ok(()));
        assert_eq!(lua.get_code(), "");
        let mut rust = Rust::new_with_level(context(" \n ", "  "), level);
        assert_eq!(rust.fetch_code(), Ok(()));
        assert_eq!(rust.get_code(), "");
    }
}

#[test]
fn fetch_yields_nothing_when_unsupported() {
    let mut lua = Lua_nvim::new_with_level(context("print(1)", "print(1)"), SupportLevel::Unsupported);
    assert_eq!(lua.fetch_code(), Ok(()));
    assert_eq!(lua.get_code(), "");
    let mut rust = Rust::new_with_level(context("1+1;", "1+1;"), SupportLevel::Unsupported);
    assert_eq!(rust.fetch_code(), Ok(()));
    assert_eq!(rust.get_code(), "");
    let mut lua = Lua_original::new_with_level(context("print(1)", "print(1)"), SupportLevel::Unsupported);
    assert_eq!(lua.fetch_code(), Ok(()));
    assert_eq!(lua.get_code(), "");
}

#[test]
fn fetch_yields_nothing_at_line_level_with_blank_line() {
    let mut lua = Lua_nvim::new_with_level(context("print(1)", "  "), SupportLevel::Line);
    lua.fetch_code().unwrap();
    assert_eq!(lua.get_code(), "");
}

#[test]
fn fetch_replaces_what_was_selected_before() {
    let mut rust = Rust::new_with_level(context("1+1;", "2+2;"), SupportLevel::Bloc);
    rust.fetch_code().unwrap();
    rust.add_boilerplate().unwrap();
    assert_eq!(rust.get_code(), "fn main() {1+1;}");
    rust.set_current_level(SupportLevel::Line);
    rust.fetch_code().unwrap();
    assert_eq!(rust.get_code(), "2+2;");
}

#[test]
fn fetch_leaves_context_and_level_alone() {
    let mut lua = Lua_nvim::new_with_level(context("a", "b"), SupportLevel::Bloc);
    lua.fetch_code().unwrap();
    assert_eq!(lua.get_data(), context("a", "b"));
    assert_eq!(lua.get_current_level(), SupportLevel::Bloc);
}

#[test]
fn pick_code_follows_the_same_policy() {
    assert_eq!(pick_code(&context("bloc", "line"), SupportLevel::File), "bloc");
    assert_eq!(pick_code(&context("bloc", "line"), SupportLevel::Bloc), "bloc");
    assert_eq!(pick_code(&context("bloc", "line"), SupportLevel::Line), "line");
    assert_eq!(pick_code(&context("bloc", "line"), SupportLevel::Unsupported), "");
    assert_eq!(pick_code(&context("\n", "line"), SupportLevel::Bloc), "line");
    assert_eq!(pick_code(&context("\n", " "), SupportLevel::Bloc), "");
}
