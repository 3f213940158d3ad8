use violet::library::vshell::{
    edit_line, is_whitespace, split_whitespace, str_to_chars, Command, KeyAction, ShellAction, VShell, BACK_SPACE, DEL,
    ENTER, HELP_COMMAND, NULL,
};

fn chars(s: &str) -> Vec<char> {
    s.chars().collect()
}

fn text(v: &[char]) -> String {
    v.iter().collect()
}

const DUMMY_COMMAND: usize = 7;

#[test]
fn test_add_and_search_cmd() {
    let mut shell = VShell::new();
    let cmd = Command::new("dummy", DUMMY_COMMAND);
    shell.add_cmd(cmd.copy());
    let found = shell.search_cmd("dummy").expect("registered command");
    assert_eq!(found.name, cmd.name);
    assert_eq!(found.func, cmd.func);
    assert!(shell.search_cmd("notfound").is_none());
}

#[test]
fn test_execute_cmd_with_args() {
    let mut shell = VShell::new();
    shell.add_cmd(Command::new("dummy", DUMMY_COMMAND));
    match shell.interpret(&chars("dummy foo bar")) {
        ShellAction::Execute(cmd, args) => {
            assert_eq!(cmd.name, "dummy");
            assert_eq!(cmd.func, DUMMY_COMMAND);
            let args: Vec<String> = args.iter().map(|a| text(a)).collect();
            assert_eq!(args, ["foo", "bar"]);
        }
        _ => panic!("the command should run"),
    }
}

#[test]
fn test_get_line_backspace() {
    let mut line = Vec::new();
    assert_eq!(edit_line(&mut line, b'a'), KeyAction::Echo('a'));
    assert_eq!(edit_line(&mut line, b'b'), KeyAction::Echo('b'));
    assert_eq!(edit_line(&mut line, BACK_SPACE), KeyAction::Erase);
    assert_eq!(edit_line(&mut line, b'c'), KeyAction::Echo('c'));
    assert_eq!(edit_line(&mut line, DEL), KeyAction::Erase);
    assert_eq!(edit_line(&mut line, DEL), KeyAction::Erase);
    assert_eq!(edit_line(&mut line, DEL), KeyAction::Ignore);
    assert_eq!(edit_line(&mut line, NULL), KeyAction::Ignore);
    assert_eq!(edit_line(&mut line, b'x'), KeyAction::Echo('x'));
    assert_eq!(edit_line(&mut line, ENTER), KeyAction::Enter);
    assert_eq!(text(&line), "x");
}

#[test]
fn vshell_new_has_help() {
    let shell = VShell::new();
    assert_eq!(shell.prompt(), "Violet%");
    let help = shell.search_cmd("help").expect("built-in help");
    assert_eq!(help.func, HELP_COMMAND);
}

#[test]
fn vshell_first_command_of_a_name_wins() {
    let mut shell = VShell::new();
    shell.add_cmd(Command::new("x", 1));
    shell.add_cmd(Command::new("x", 2));
    assert_eq!(shell.search_cmd("x").map(|c| c.func), Some(1));
}

#[test]
fn vshell_interpret_exit_notfound_nothing() {
    let shell = VShell::new();
    assert!(matches!(shell.interpret(&chars("  exit  ")), ShellAction::Exit));
    match shell.interpret(&chars("frob 1")) {
        ShellAction::NotFound(n) => assert_eq!(text(&n), "frob"),
        _ => panic!("frob is no command"),
    }
    assert!(matches!(shell.interpret(&chars(" \t ")), ShellAction::Nothing));
    assert!(matches!(shell.interpret(&chars("")), ShellAction::Nothing));
}

#[test]
fn vshell_exit_command_runs_when_registered() {
    let mut shell = VShell::new();
    shell.add_cmd(Command::new("exit", 9));
    assert!(matches!(shell.interpret(&chars("exit")), ShellAction::Execute(_, _)));
}

#[test]
fn vshell_split_whitespace() {
    let ws = split_whitespace(&chars("\t vm  list\u{3000}now "));
    let ws: Vec<String> = ws.iter().map(|w| text(w)).collect();
    assert_eq!(ws, ["vm", "list", "now"]);
    assert!(split_whitespace(&chars("   ")).is_empty());
}

#[test]
fn vshell_is_whitespace_matches_std() {
    for c in ['\t', '\n', ' ', '\u{85}', '\u{a0}', '\u{2003}', '\u{3000}', 'a', '0', '\u{200b}', '%'] {
        assert_eq!(is_whitespace(c), c.is_whitespace(), "{:?}", c);
    }
}

#[test]
fn vshell_str_to_chars() {
    assert_eq!(str_to_chars("vm ü"), vec!['v', 'm', ' ', 'ü']);
    assert!(str_to_chars("").is_empty());
}
