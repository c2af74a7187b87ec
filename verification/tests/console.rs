use arta::repl::{
    builtin_command, expand_lowered, expand_shortcuts, next_depth, run_repl, ReplSession, ReplStep,
};

fn run(step: ReplStep) -> String {
    match step {
        ReplStep::Run(command) => command,
        other => panic!("unexpected {:?}", other),
    }
}

#[test]
fn shortcuts() {
    assert_eq!(expand_shortcuts("cd /tmp"), "ENTER FOLDER /tmp");
    assert_eq!(expand_shortcuts("CD My Dir"), "ENTER FOLDER My Dir");
    assert_eq!(expand_shortcuts("cd"), "EXIT");
    assert_eq!(expand_shortcuts(".."), "EXIT");
    assert_eq!(expand_shortcuts("ls"), "SELECT FILES *");
    assert_eq!(expand_shortcuts("ls /var"), "SELECT FILES * FROM /var");
    assert_eq!(expand_shortcuts("lsx"), "lsx");
    assert_eq!(expand_shortcuts("cat /etc/hosts"), "ENTER FILE /etc/hosts");
    assert_eq!(expand_shortcuts("cat"), "SELECT CONTENT *");
    assert_eq!(expand_shortcuts("Vars"), "SHOW VARIABLES");
    assert_eq!(expand_shortcuts("variables"), "SHOW VARIABLES");
    assert_eq!(expand_shortcuts("ctx"), "SHOW CONTEXT");
    assert_eq!(expand_shortcuts("CONTEXT"), "SHOW CONTEXT");
    assert_eq!(expand_shortcuts("SELECT CPU *"), "SELECT CPU *");
    assert_eq!(expand_shortcuts(""), "");
}

#[test]
fn builtin_commands() {
    let mut session = ReplSession::new();
    assert!(matches!(session.feed("  exit "), ReplStep::Quit));
    assert!(matches!(session.feed("QUIT"), ReplStep::Quit));
    assert!(matches!(session.feed("q"), ReplStep::Quit));
    assert!(matches!(session.feed("help"), ReplStep::Help));
    assert!(matches!(session.feed("?"), ReplStep::Help));
    assert!(matches!(session.feed("clear"), ReplStep::Clear));
    assert!(matches!(session.feed("cls"), ReplStep::Clear));
    assert!(matches!(session.feed("pwd"), ReplStep::Pwd));
    assert!(matches!(session.feed("containers"), ReplStep::Containers));
    assert!(matches!(session.feed(""), ReplStep::Nothing));
    assert!(matches!(session.feed("   \t"), ReplStep::Nothing));
    assert!(!session.in_block());
}

#[test]
fn one_line_commands_run_at_once() {
    let mut session = ReplSession::new();
    assert_eq!(run(session.feed("  SELECT CPU *  ")), "SELECT CPU *");
    assert_eq!(run(session.feed("ls /tmp")), "SELECT FILES * FROM /tmp");
    assert_eq!(
        run(session.feed("FOR f IN SELECT FILES * DO EXIT END FOR")),
        "FOR f IN SELECT FILES * DO EXIT END FOR"
    );
}

#[test]
fn blocks_are_gathered_over_lines() {
    let mut session = ReplSession::new();
    assert!(matches!(session.feed("FOR f IN SELECT FILES * DO"), ReplStep::Nothing));
    assert!(session.in_block());
    assert_eq!(session.prompt("default", "/tmp"), "  ...> ");
    // built-in commands and shortcuts are plain text inside a block
    assert!(matches!(session.feed("help"), ReplStep::Nothing));
    assert!(matches!(session.feed(""), ReplStep::Nothing));
    assert!(matches!(session.feed("IF SELECT CPU usage > 1 THEN"), ReplStep::Nothing));
    assert_eq!(session.prompt("default", "/tmp"), "    ...> ");
    assert!(matches!(session.feed("ls"), ReplStep::Nothing));
    assert!(matches!(session.feed("END IF"), ReplStep::Nothing));
    assert_eq!(
        run(session.feed("END FOR")),
        "FOR f IN SELECT FILES * DO help  IF SELECT CPU usage > 1 THEN ls END IF END FOR"
    );
    assert!(!session.in_block());
}

#[test]
fn interrupt_drops_an_open_block() {
    let mut session = ReplSession::new();
    assert!(!session.interrupt());
    assert!(matches!(session.feed("LIFE MONITOR CPU DO"), ReplStep::Nothing));
    assert!(session.interrupt());
    assert!(!session.in_block());
    assert_eq!(run(session.feed("RESET")), "RESET");
}

#[test]
fn prompts() {
    let session = ReplSession::new();
    assert_eq!(session.prompt("default", "~/src"), "arta [~/src]> ");
    assert_eq!(session.prompt("box", "/tmp"), "arta [box] [/tmp]> ");
}

#[test]
fn the_loop_is_not_in_the_library() {
    match run_repl() {
        Err(arta::error::ArtaError::ExecutionError(m)) => {
            assert_eq!(m, "REPL not enabled. Rebuild with --features repl")
        }
        other => panic!("unexpected {:?}", other),
    }
}

#[test]
fn keywords_open_and_close_blocks_in_either_case() {
    let mut session = ReplSession::new();
    assert!(matches!(session.feed("for f in select files * do"), ReplStep::Nothing));
    assert!(session.in_block());
    assert!(matches!(session.feed("if select cpu usage > 1 then"), ReplStep::Nothing));
    assert!(matches!(session.feed("end if"), ReplStep::Nothing));
    assert_eq!(
        run(session.feed("end for")),
        "for f in select files * do if select cpu usage > 1 then end if end for"
    );
    assert!(!session.in_block());
    // the dotless i is an I in upper case
    assert!(matches!(session.feed("life monitor cpu do"), ReplStep::Nothing));
    assert!(session.in_block());
    assert_eq!(run(session.feed("end l\u{131}fe")), "life monitor cpu do end l\u{131}fe");
    assert!(!session.in_block());
}

#[test]
fn on_a_folded_line_the_rules_are_exact() {
    assert_eq!(expand_lowered("LS /Var", "ls /var"), "SELECT FILES * FROM /Var");
    assert_eq!(expand_lowered("CD", "cd"), "EXIT");
    assert_eq!(expand_lowered("CAT x", "cat x"), "ENTER FILE x");
    // the line is taken as lowered: nothing is folded here
    assert_eq!(expand_lowered("LS /Var", "LS /Var"), "LS /Var");
    // a line shorter than its lowered form gives what is behind, if anything
    assert_eq!(expand_lowered("ab", "cd x"), "ENTER FOLDER ");
    assert!(matches!(builtin_command("quit"), Some(ReplStep::Quit)));
    assert!(matches!(builtin_command("?"), Some(ReplStep::Help)));
    assert!(matches!(builtin_command("containers"), Some(ReplStep::Containers)));
    assert!(builtin_command("QUIT").is_none());
    assert!(builtin_command("select cpu *").is_none());
    assert_eq!(next_depth(0, "FOR F IN SELECT FILES * DO"), 1);
    assert_eq!(next_depth(0, "IF SELECT CPU USAGE > 1 THEN"), 1);
    assert_eq!(next_depth(2, "END FOR"), 1);
    assert_eq!(next_depth(0, "END LIFE"), 0);
    assert_eq!(next_depth(1, "FOR F IN SELECT FILES * DO EXIT END FOR"), 1);
    assert_eq!(next_depth(1, "for f in select files * do"), 1);
    assert_eq!(next_depth(usize::MAX, "X DO"), usize::MAX);
}
