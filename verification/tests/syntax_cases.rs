use arta::ast::{
    ActionCommand, Command, CompareOp, ContainerCommand, ContextCommand, FieldList, LetValue,
    LogicalOp, PrintExpr, QueryTarget, Value,
};
use arta::error::ArtaError;
use arta::lexer::{tokenize, Keyword, TokenKind};
use arta::number::Number;
use arta::parser::{parse_command, parse_script};

fn failure(text: &str) -> String {
    match parse_command(text) {
        Err(ArtaError::ParseError(m)) => m,
        other => panic!("unexpected {:?}", other),
    }
}

#[test]
fn malformed_commands_name_the_fragment() {
    assert_eq!(failure(""), "Expected a statement, found end of input at offset 0");
    assert_eq!(failure("   "), "Expected a statement, found end of input at offset 3");
    assert_eq!(failure("SELECT"), "Expected a query target, found end of input at offset 6");
    assert_eq!(failure("SELECT BANANA *"), "Expected a query target, found 'BANANA' at offset 7");
    assert_eq!(failure("SELECT CPU"), "Expected a field, found end of input at offset 10");
    assert_eq!(failure("SELECT CPU * FROM"), "Expected a path, found end of input at offset 17");
    assert_eq!(
        failure("SELECT CPU * WHERE cpu"),
        "Expected an operator, found end of input at offset 22"
    );
    assert_eq!(
        failure("SELECT CPU * WHERE cpu > ;"),
        "Expected a value, found ';' at offset 25"
    );
    assert_eq!(
        failure("SELECT CPU * SELECT MEMORY *"),
        "Expected the end of the command, found 'SELECT' at offset 13"
    );
    assert_eq!(failure("SELECT CPU a,"), "Expected a field, found end of input at offset 13");
    assert_eq!(failure("FROB x"), "Expected a statement, found 'FROB' at offset 0");
    assert_eq!(failure("DELETE /tmp"), "Expected FILES, found '/tmp' at offset 7");
    assert_eq!(failure("DELETE FILES /tmp"), "Expected FROM, found '/tmp' at offset 13");
    assert_eq!(failure("KILL PROCESS"), "Expected WHERE, found end of input at offset 12");
    assert_eq!(failure("KILL node"), "Expected PROCESS, found 'node' at offset 5");
    assert_eq!(failure("LET = 5"), "Expected a name, found '=' at offset 4");
    assert_eq!(failure("LET x 5"), "Expected an operator, found '5' at offset 6");
    assert_eq!(failure("LET x ="), "Expected a value, found end of input at offset 7");
    assert_eq!(failure("ENTER /tmp"), "Expected FOLDER, found '/tmp' at offset 6");
    assert_eq!(
        failure("SHOW STUFF"),
        "Expected CONTEXT, VARIABLES or HISTORY, found 'STUFF' at offset 5"
    );
    assert_eq!(failure("PRINT"), "Expected an expression, found end of input at offset 5");
    assert_eq!(failure("PRINT a,"), "Expected an expression, found end of input at offset 8");
    assert_eq!(
        failure("EXPLAIN LET x = 1"),
        "Expected SELECT, DELETE or KILL, found 'LET' at offset 8"
    );
    assert_eq!(failure("SWITCH box"), "Expected CONTAINER, found 'box' at offset 7");
    assert_eq!(failure("LIST CONTAINER"), "Expected CONTAINERS, found 'CONTAINER' at offset 5");
    assert_eq!(
        failure("EXPORT CONTAINER a /x"),
        "Expected TO, found '/x' at offset 19"
    );
    assert_eq!(failure("DESTROY CONTAINER"), "Expected a name, found end of input at offset 17");
}

#[test]
fn malformed_blocks() {
    assert_eq!(
        failure("FOR f IN SELECT FILES * DO SELECT CPU *"),
        "Expected END, found end of input at offset 39"
    );
    assert_eq!(
        failure("FOR f IN SELECT FILES * DO SELECT CPU * END IF"),
        "Expected FOR, found 'IF' at offset 44"
    );
    assert_eq!(failure("FOR IN"), "Expected IN, found end of input at offset 6");
    assert_eq!(failure("FOR f SELECT"), "Expected IN, found 'SELECT' at offset 6");
    assert_eq!(failure("FOR f IN FILES"), "Expected SELECT, found 'FILES' at offset 9");
    assert_eq!(
        failure("IF SELECT MEMORY used > 1 SELECT CPU * END IF"),
        "Expected THEN, found 'SELECT' at offset 26"
    );
    assert_eq!(
        failure("IF SELECT MEMORY used > 1 THEN EXIT ELSE"),
        "Expected END, found end of input at offset 40"
    );
    assert_eq!(
        failure("LIFE MONITOR FILES DO EXIT END LIFE"),
        "Expected a resource to monitor, found 'FILES' at offset 13"
    );
    assert_eq!(failure("LIFE BATTERY"), "Expected MONITOR, found 'BATTERY' at offset 5");
    assert_eq!(
        failure("CREATE CONTAINER b WITH SPEED DO EXIT END CONTAINER"),
        "Expected ALLOW ACTIONS or READONLY, found 'SPEED' at offset 24"
    );
    assert_eq!(
        failure("CREATE CONTAINER b WITH ALLOW DO EXIT END CONTAINER"),
        "Expected ACTIONS, found 'DO' at offset 30"
    );
    assert_eq!(
        failure("FOR f IN SELECT FILES * DO FROB END FOR"),
        "Expected a statement, found 'FROB' at offset 27"
    );
    assert_eq!(failure("END FOR"), "Expected a statement, found 'END' at offset 0");
}

#[test]
fn characters_that_start_no_token() {
    assert_eq!(failure("SELECT CPU @"), "Expected a token, found '@' at offset 11");
    assert_eq!(failure("LET x = \"open"), "Expected a token, found '\"' at offset 8");
    assert_eq!(failure("LET x ! 5"), "Expected a token, found '!' at offset 6");
    assert_eq!(failure("LET x = -"), "Expected a token, found '-' at offset 8");
    match parse_script("SELECT CPU *; $") {
        Err(ArtaError::ParseError(m)) => {
            assert_eq!(m, "Expected a token, found '$' at offset 14")
        }
        other => panic!("unexpected {:?}", other),
    }
}

#[test]
fn numbers_and_sizes_out_of_reach() {
    assert_eq!(
        failure("LET x = 99999999999999999999999"),
        "Expected a number within range, found '99999999999999999999999' at offset 8"
    );
    assert_eq!(
        failure("LET x = 10XB"),
        "Expected a size with a number and one of the units B, KB, MB, GB, TB, found '10XB' at offset 8"
    );
    assert_eq!(
        failure("SELECT PROCESS * WHERE memory > 5mbs"),
        "Expected a size with a number and one of the units B, KB, MB, GB, TB, found '5mbs' at offset 32"
    );
    assert_eq!(
        failure("LET x = -5MB"),
        "Expected a size with a number and one of the units B, KB, MB, GB, TB, found '-5MB' at offset 8"
    );
}

#[test]
fn a_script_fails_as_a_whole() {
    assert!(parse_script("SELECT CPU *; SELECT; SELECT MEMORY *").is_err());
    assert!(parse_script("SELECT CPU * END").is_err());
    assert_eq!(parse_script("").unwrap().statements.len(), 0);
    assert_eq!(parse_script("\n -- only a comment\n").unwrap().statements.len(), 0);
    assert_eq!(parse_script("SELECT CPU *\nSELECT MEMORY *\n").unwrap().statements.len(), 2);
    assert_eq!(parse_script("EXIT EXIT;EXIT;").unwrap().statements.len(), 3);
    assert!(parse_script(";").is_err());
    assert!(parse_script("EXIT;;").is_err());
}

#[test]
fn comments_end_with_their_line() {
    let script = parse_script("SELECT CPU * -- trailing\nSELECT DISK * FROM / # x\n// all\nEXIT")
        .unwrap();
    assert_eq!(script.statements.len(), 3);
    match &script.statements[1] {
        Command::Query(q) => assert_eq!(q.from_path.as_deref(), Some("/")),
        other => panic!("unexpected {:?}", other),
    }
    // `//` right after FROM is a comment, not a path
    assert!(parse_command("SELECT DISK * FROM //x").is_err());
}

#[test]
fn tokens() {
    let chars: Vec<char> = "select Foo_1.x 12 1.5 -3 7kb \"a b\" /p/q ~/r a/b >= != < * , ;".chars().collect();
    let tokens = tokenize(&chars).unwrap();
    let kinds: Vec<TokenKind> = tokens.iter().map(|t| t.kind).collect();
    assert_eq!(
        kinds,
        vec![
            TokenKind::Word(Keyword::Select),
            TokenKind::Word(Keyword::Other),
            TokenKind::Number,
            TokenKind::Number,
            TokenKind::Number,
            TokenKind::Size,
            TokenKind::Text,
            TokenKind::Path,
            TokenKind::Path,
            TokenKind::Path,
            TokenKind::GreaterEqual,
            TokenKind::NotEqual,
            TokenKind::Less,
            TokenKind::Star,
            TokenKind::Comma,
            TokenKind::Semicolon,
        ]
    );
    assert_eq!((tokens[1].start, tokens[1].end), (7, 14));
    assert_eq!((tokens[6].start, tokens[6].end), (29, 34));
    assert_eq!(tokenize(&"a ^".chars().collect()), Err(2));
    assert_eq!(tokenize(&"".chars().collect()), Ok(vec![]));
}

#[test]
fn conditions_chain_to_the_right() {
    let cmd = parse_command("SELECT PROCESS * WHERE cpu > 10 AND name LIKE \"n%\" OR memory <= 1GB")
        .unwrap();
    let clause = match cmd {
        Command::Query(q) => q.where_clause.unwrap(),
        other => panic!("unexpected {:?}", other),
    };
    assert_eq!(clause.conditions.len(), 1);
    let first = &clause.conditions[0];
    assert_eq!(first.condition.field, "cpu");
    assert_eq!(first.condition.operator, CompareOp::GreaterThan);
    let (op1, second) = first.next.as_ref().unwrap();
    assert_eq!(*op1, LogicalOp::And);
    assert_eq!(second.condition.field, "name");
    assert_eq!(second.condition.operator, CompareOp::Like);
    assert!(matches!(&second.condition.value, Value::String(s) if s == "n%"));
    let (op2, third) = second.next.as_ref().unwrap();
    assert_eq!(*op2, LogicalOp::Or);
    assert_eq!(third.condition.field, "memory");
    assert!(matches!(third.condition.value, Value::Size(1073741824)));
    assert!(third.next.is_none());
}

#[test]
fn values() {
    let value = |text: &str| match parse_command(&format!("SELECT CPU * WHERE f = {}", text)) {
        Ok(Command::Query(q)) => q.where_clause.unwrap().conditions.remove(0).condition.value,
        other => panic!("unexpected {:?}", other),
    };
    assert!(matches!(value("\"\""), Value::String(s) if s.is_empty()));
    assert!(matches!(value("12.5"), Value::Number(Number { micros: 12_500_000 })));
    assert!(matches!(value("-3"), Value::Number(Number { micros: -3_000_000 })));
    assert!(matches!(value("1.5kb"), Value::Size(1536)));
    assert!(matches!(value("TRUE"), Value::Boolean(true)));
    assert!(matches!(value("false"), Value::Boolean(false)));
    assert!(matches!(value("limit"), Value::Identifier(s) if s == "limit"));
    assert!(matches!(value("file.size"), Value::Identifier(s) if s == "file.size"));
    let operators = [
        ("=", CompareOp::Equal),
        ("!=", CompareOp::NotEqual),
        (">", CompareOp::GreaterThan),
        (">=", CompareOp::GreaterThanOrEqual),
        ("<", CompareOp::LessThan),
        ("<=", CompareOp::LessThanOrEqual),
        ("like", CompareOp::Like),
        ("Contains", CompareOp::Contains),
        ("MATCHES", CompareOp::Matches),
    ];
    for (text, expected) in operators {
        match parse_command(&format!("KILL PROCESS WHERE name {} 1", text)) {
            Ok(Command::Action(ActionCommand::KillProcess(k))) => {
                assert_eq!(k.where_clause.conditions[0].condition.operator, expected)
            }
            other => panic!("unexpected {:?}", other),
        }
    }
    assert!(parse_command("SELECT CPU * WHERE cpu>10").is_ok());
}

#[test]
fn let_values() {
    let value = |text: &str| match parse_command(&format!("LET v = {}", text)) {
        Ok(Command::Let(l)) => l.value,
        other => panic!("unexpected {:?}", other),
    };
    assert!(matches!(value("word"), LetValue::String(s) if s == "word"));
    assert!(matches!(value("\"~/notes\""), LetValue::Path(s) if s == "~/notes"));
    assert!(matches!(value("\"~notes\""), LetValue::String(s) if s == "~notes"));
    assert!(matches!(value("~/notes"), LetValue::Path(s) if s == "~/notes"));
    assert!(matches!(value("./x"), LetValue::Path(s) if s == "./x"));
    assert!(matches!(value("sub/dir"), LetValue::Path(s) if s == "sub/dir"));
    assert!(matches!(value("FALSE"), LetValue::Boolean(false)));
    assert!(matches!(value("0.25"), LetValue::Number(Number { micros: 250_000 })));
    assert!(matches!(value("2TB"), LetValue::Size(2199023255552)));
}

#[test]
fn print_expressions() {
    let exprs = |text: &str| match parse_command(text) {
        Ok(Command::Print(p)) => p.expressions,
        other => panic!("unexpected {:?}", other),
    };
    let e = exprs("PRINT cpu");
    assert!(matches!(&e[0], PrintExpr::Variable(v) if v == "cpu"));
    let e = exprs("PRINT cpu, memory usage");
    assert!(matches!(&e[0], PrintExpr::Variable(v) if v == "cpu"));
    assert!(matches!(
        &e[1],
        PrintExpr::QueryField { target: QueryTarget::Memory, field } if field == "usage"
    ));
    let script = parse_script("PRINT battery\nSELECT CPU *").unwrap();
    assert_eq!(script.statements.len(), 2);
    match &script.statements[0] {
        Command::Print(p) => {
            assert!(matches!(&p.expressions[0], PrintExpr::Variable(v) if v == "battery"))
        }
        other => panic!("unexpected {:?}", other),
    }
}

#[test]
fn other_statements() {
    assert!(matches!(
        parse_command("exit context;"),
        Ok(Command::Context(ContextCommand::Exit))
    ));
    assert!(matches!(
        parse_command("Kill Processes Where pid = 1"),
        Ok(Command::Action(ActionCommand::KillProcess(_)))
    ));
    assert!(matches!(
        parse_command("SELECT PROCESSES *"),
        Ok(Command::Query(q)) if q.target == QueryTarget::Process
    ));
    match parse_command("SELECT MEMORY total, used, free").unwrap() {
        Command::Query(q) => match q.fields {
            FieldList::Fields(f) => assert_eq!(f, vec!["total", "used", "free"]),
            other => panic!("unexpected {:?}", other),
        },
        other => panic!("unexpected {:?}", other),
    }
    match parse_command("EXPLAIN DELETE FILES FROM \"/a b\" WHERE ext = \"log\"").unwrap() {
        Command::Explain(inner) => match *inner {
            Command::Action(ActionCommand::DeleteFiles(d)) => {
                assert_eq!(d.path, "/a b");
                assert!(d.where_clause.is_some());
            }
            other => panic!("unexpected {:?}", other),
        },
        other => panic!("unexpected {:?}", other),
    }
    match parse_command("CREATE CONTAINER c WITH READONLY DO END CONTAINER").unwrap() {
        Command::Container(ContainerCommand::Create(c)) => {
            assert!(c.options.readonly);
            assert!(!c.options.allow_actions);
            assert!(c.body.is_empty());
        }
        other => panic!("unexpected {:?}", other),
    }
    match parse_command("IF DISK usage > 90 THEN EXIT END IF").unwrap() {
        Command::If(i) => assert_eq!(i.condition.target, QueryTarget::Disk),
        other => panic!("unexpected {:?}", other),
    }
}
