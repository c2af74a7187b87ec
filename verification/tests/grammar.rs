use arta::ast::{
    ActionCommand, Command, CompareOp, ContainerCommand, ContextCommand, FieldList, LetValue,
    LifeTarget, PrintExpr, QueryTarget, ShowTarget,
};
use arta::parser::{parse_command, parse_script};
use arta::size::parse_size_value;
#[test]
fn test_parse_cpu_query() {
    let cmd = parse_command("SELECT CPU *").unwrap();
    match cmd {
        Command::Query(q) => {
            assert_eq!(q.target, QueryTarget::Cpu);
            assert!(matches!(q.fields, FieldList::All));
        }
        _ => panic!("Expected Query command"),
    }
}

#[test]
fn test_parse_memory_query_with_fields() {
    let cmd = parse_command("SELECT MEMORY total, used, free").unwrap();
    match cmd {
        Command::Query(q) => {
            assert_eq!(q.target, QueryTarget::Memory);
        }
        _ => panic!("Expected Query command"),
    }
}

#[test]
fn test_parse_disk_query_with_from() {
    let cmd = parse_command("SELECT DISK * FROM /").unwrap();
    match cmd {
        Command::Query(q) => {
            assert_eq!(q.target, QueryTarget::Disk);
            assert_eq!(q.from_path, Some("/".to_string()));
        }
        _ => panic!("Expected Query command"),
    }
}

#[test]
fn test_parse_process_query_with_where() {
    let cmd = parse_command("SELECT PROCESS * WHERE cpu > 10").unwrap();
    match cmd {
        Command::Query(q) => {
            assert_eq!(q.target, QueryTarget::Process);
            assert!(q.where_clause.is_some());
        }
        _ => panic!("Expected Query command"),
    }
}

#[test]
fn test_parse_delete_command() {
    let cmd = parse_command("DELETE FILES FROM /tmp WHERE size > 100MB").unwrap();
    match cmd {
        Command::Action(ActionCommand::DeleteFiles(d)) => {
            assert_eq!(d.path, "/tmp");
            assert!(d.where_clause.is_some());
        }
        _ => panic!("Expected DeleteFiles command"),
    }
}

#[test]
fn test_parse_kill_command() {
    let cmd = parse_command("KILL PROCESS WHERE name = \"node\"").unwrap();
    match cmd {
        Command::Action(ActionCommand::KillProcess(k)) => {
            assert!(k.where_clause.conditions.len() > 0);
        }
        _ => panic!("Expected KillProcess command"),
    }
}

#[test]
fn test_parse_explain() {
    let cmd = parse_command("EXPLAIN SELECT CPU *").unwrap();
    match cmd {
        Command::Explain(inner) => match *inner {
            Command::Query(q) => assert_eq!(q.target, QueryTarget::Cpu),
            _ => panic!("Expected Query inside Explain"),
        },
        _ => panic!("Expected Explain command"),
    }
}

#[test]
fn test_parse_size_values() {
    assert_eq!(parse_size_value("100MB").unwrap(), 100 * 1024 * 1024);
    assert_eq!(parse_size_value("1GB").unwrap(), 1024 * 1024 * 1024);
    assert_eq!(parse_size_value("500KB").unwrap(), 500 * 1024);
}

#[test]
fn test_case_insensitivity() {
    assert!(parse_command("select cpu *").is_ok());
    assert!(parse_command("SELECT CPU *").is_ok());
    assert!(parse_command("Select Cpu *").is_ok());
}

#[test]
fn test_trailing_semicolon() {
    assert!(parse_command("SELECT CPU *;").is_ok());
    assert!(parse_command("SELECT CPU *").is_ok());
}

// Context command tests
#[test]
fn test_parse_enter_folder() {
    let cmd = parse_command("ENTER FOLDER /tmp").unwrap();
    match cmd {
        Command::Context(ContextCommand::EnterFolder(path)) => {
            assert_eq!(path, "/tmp");
        }
        _ => panic!("Expected EnterFolder command"),
    }
}

#[test]
fn test_parse_enter_file() {
    let cmd = parse_command("ENTER FILE /etc/passwd").unwrap();
    match cmd {
        Command::Context(ContextCommand::EnterFile(path)) => {
            assert_eq!(path, "/etc/passwd");
        }
        _ => panic!("Expected EnterFile command"),
    }
}

#[test]
fn test_parse_exit_context() {
    let cmd = parse_command("EXIT CONTEXT").unwrap();
    assert!(matches!(cmd, Command::Context(ContextCommand::Exit)));

    let cmd2 = parse_command("EXIT").unwrap();
    assert!(matches!(cmd2, Command::Context(ContextCommand::Exit)));
}

#[test]
fn test_parse_reset_context() {
    let cmd = parse_command("RESET CONTEXT").unwrap();
    assert!(matches!(cmd, Command::Context(ContextCommand::Reset)));

    let cmd2 = parse_command("RESET").unwrap();
    assert!(matches!(cmd2, Command::Context(ContextCommand::Reset)));
}

#[test]
fn test_parse_show_context() {
    let cmd = parse_command("SHOW CONTEXT").unwrap();
    match cmd {
        Command::Context(ContextCommand::Show(target)) => {
            assert_eq!(target, ShowTarget::Context);
        }
        _ => panic!("Expected Show Context command"),
    }
}

#[test]
fn test_parse_show_variables() {
    let cmd = parse_command("SHOW VARIABLES").unwrap();
    match cmd {
        Command::Context(ContextCommand::Show(target)) => {
            assert_eq!(target, ShowTarget::Variables);
        }
        _ => panic!("Expected Show Variables command"),
    }
}

#[test]
fn test_parse_show_history() {
    let cmd = parse_command("SHOW HISTORY").unwrap();
    match cmd {
        Command::Context(ContextCommand::Show(target)) => {
            assert_eq!(target, ShowTarget::History);
        }
        _ => panic!("Expected Show History command"),
    }
}

#[test]
fn test_parse_content_query() {
    let cmd = parse_command("SELECT CONTENT *").unwrap();
    match cmd {
        Command::Query(q) => {
            assert_eq!(q.target, QueryTarget::Content);
        }
        _ => panic!("Expected Query command"),
    }
}

#[test]
fn test_parse_files_query() {
    let cmd = parse_command("SELECT FILES * FROM /tmp").unwrap();
    match cmd {
        Command::Query(q) => {
            assert_eq!(q.target, QueryTarget::Files);
            assert_eq!(q.from_path, Some("/tmp".to_string()));
        }
        _ => panic!("Expected Query command"),
    }
}

// LET command tests
#[test]
fn test_parse_let_string() {
    let cmd = parse_command("LET name = \"hello\"").unwrap();
    match cmd {
        Command::Let(l) => {
            assert_eq!(l.name, "name");
            match l.value {
                LetValue::String(s) => assert_eq!(s, "hello"),
                _ => panic!("Expected String value"),
            }
        }
        _ => panic!("Expected Let command"),
    }
}

#[test]
fn test_parse_let_number() {
    let cmd = parse_command("LET threshold = 80").unwrap();
    match cmd {
        Command::Let(l) => {
            assert_eq!(l.name, "threshold");
            match l.value {
                LetValue::Number(n) => assert!((n.micros as f64 / 1e6 - 80.0).abs() < 0.001),
                _ => panic!("Expected Number value"),
            }
        }
        _ => panic!("Expected Let command"),
    }
}

#[test]
fn test_parse_let_path() {
    let cmd = parse_command("LET my_path = /tmp").unwrap();
    match cmd {
        Command::Let(l) => {
            assert_eq!(l.name, "my_path");
            match l.value {
                LetValue::Path(p) => assert_eq!(p, "/tmp"),
                _ => panic!("Expected Path value"),
            }
        }
        _ => panic!("Expected Let command"),
    }
}

#[test]
fn test_parse_let_size() {
    let cmd = parse_command("LET max_size = 100MB").unwrap();
    match cmd {
        Command::Let(l) => {
            assert_eq!(l.name, "max_size");
            match l.value {
                LetValue::Size(s) => assert_eq!(s, 100 * 1024 * 1024),
                _ => panic!("Expected Size value"),
            }
        }
        _ => panic!("Expected Let command"),
    }
}

#[test]
fn test_parse_let_boolean() {
    let cmd = parse_command("LET enabled = true").unwrap();
    match cmd {
        Command::Let(l) => {
            assert_eq!(l.name, "enabled");
            match l.value {
                LetValue::Boolean(b) => assert!(b),
                _ => panic!("Expected Boolean value"),
            }
        }
        _ => panic!("Expected Let command"),
    }
}

#[test]
fn test_parse_let_quoted_path() {
    let cmd = parse_command("LET my_path = \"/tmp/my folder\"").unwrap();
    match cmd {
        Command::Let(l) => {
            assert_eq!(l.name, "my_path");
            match l.value {
                LetValue::Path(p) => assert_eq!(p, "/tmp/my folder"),
                _ => panic!("Expected Path value"),
            }
        }
        _ => panic!("Expected Let command"),
    }
}

// FOR loop tests
#[test]
fn test_parse_for_loop_basic() {
    let cmd = parse_command(
        "FOR file IN SELECT FILES * FROM /tmp DO SELECT CONTENT * FROM file END FOR",
    )
    .unwrap();
    match cmd {
        Command::For(f) => {
            assert_eq!(f.iterator_var, "file");
            assert_eq!(f.source_query.target, QueryTarget::Files);
            assert_eq!(f.body.len(), 1);
        }
        _ => panic!("Expected For command"),
    }
}

#[test]
fn test_parse_for_loop_with_where() {
    let cmd = parse_command("FOR f IN SELECT FILES * FROM /tmp WHERE extension = \"log\" DO SELECT CONTENT * END FOR").unwrap();
    match cmd {
        Command::For(f) => {
            assert_eq!(f.iterator_var, "f");
            assert!(f.source_query.where_clause.is_some());
        }
        _ => panic!("Expected For command"),
    }
}

#[test]
fn test_parse_for_loop_multiple_body_statements() {
    let cmd = parse_command(
        "FOR file IN SELECT FILES * FROM /tmp DO LET x = 1; SELECT CPU * END FOR",
    )
    .unwrap();
    match cmd {
        Command::For(f) => {
            assert_eq!(f.body.len(), 2);
        }
        _ => panic!("Expected For command"),
    }
}

#[test]
fn test_parse_for_loop_processes() {
    let cmd =
        parse_command("FOR proc IN SELECT PROCESS * WHERE cpu > 10 DO SELECT MEMORY * END FOR")
            .unwrap();
    match cmd {
        Command::For(f) => {
            assert_eq!(f.iterator_var, "proc");
            assert_eq!(f.source_query.target, QueryTarget::Process);
        }
        _ => panic!("Expected For command"),
    }
}

// IF statement tests
#[test]
fn test_parse_if_basic() {
    let cmd = parse_command("IF SELECT MEMORY used_percent > 80 THEN SELECT PROCESS * END IF")
        .unwrap();
    match cmd {
        Command::If(i) => {
            assert_eq!(i.condition.target, QueryTarget::Memory);
            assert_eq!(i.condition.field, "used_percent");
            assert_eq!(i.condition.operator, CompareOp::GreaterThan);
            assert_eq!(i.then_body.len(), 1);
            assert!(i.else_body.is_none());
        }
        _ => panic!("Expected If command"),
    }
}

#[test]
fn test_parse_if_with_else() {
    let cmd = parse_command(
        "IF SELECT CPU usage > 90 THEN SELECT PROCESS * ELSE SELECT SYSTEM * END IF",
    )
    .unwrap();
    match cmd {
        Command::If(i) => {
            assert_eq!(i.condition.target, QueryTarget::Cpu);
            assert_eq!(i.then_body.len(), 1);
            assert!(i.else_body.is_some());
            assert_eq!(i.else_body.unwrap().len(), 1);
        }
        _ => panic!("Expected If command"),
    }
}

#[test]
fn test_parse_if_multiple_statements() {
    let cmd = parse_command("IF SELECT DISK used_percent > 90 THEN LET warning = true; SELECT FILES * FROM /tmp END IF").unwrap();
    match cmd {
        Command::If(i) => {
            assert_eq!(i.then_body.len(), 2);
        }
        _ => panic!("Expected If command"),
    }
}

// Nested control flow tests
#[test]
fn test_parse_nested_if_in_for() {
    let cmd = parse_command("FOR file IN SELECT FILES * FROM /tmp DO IF SELECT MEMORY used_percent > 80 THEN SELECT CPU * END IF END FOR").unwrap();
    match cmd {
        Command::For(f) => {
            assert_eq!(f.body.len(), 1);
            match &f.body[0] {
                Command::If(i) => {
                    assert_eq!(i.condition.target, QueryTarget::Memory);
                }
                _ => panic!("Expected nested If command"),
            }
        }
        _ => panic!("Expected For command"),
    }
}

#[test]
fn test_parse_nested_for_in_for() {
    let cmd = parse_command("FOR dir IN SELECT FILES * FROM /tmp DO FOR file IN SELECT FILES * FROM dir DO SELECT CONTENT * END FOR END FOR").unwrap();
    match cmd {
        Command::For(outer) => {
            assert_eq!(outer.iterator_var, "dir");
            assert_eq!(outer.body.len(), 1);
            match &outer.body[0] {
                Command::For(inner) => {
                    assert_eq!(inner.iterator_var, "file");
                }
                _ => panic!("Expected nested For command"),
            }
        }
        _ => panic!("Expected For command"),
    }
}

// LIFE monitoring tests
#[test]
fn test_parse_life_battery() {
    let cmd = parse_command("LIFE MONITOR BATTERY DO PRINT BATTERY level END LIFE").unwrap();
    match cmd {
        Command::Life(l) => {
            assert_eq!(l.target, LifeTarget::Battery);
            assert_eq!(l.body.len(), 1);
        }
        _ => panic!("Expected Life command"),
    }
}

#[test]
fn test_parse_life_memory() {
    let cmd = parse_command("LIFE MONITOR MEMORY DO SELECT MEMORY * END LIFE").unwrap();
    match cmd {
        Command::Life(l) => {
            assert_eq!(l.target, LifeTarget::Memory);
        }
        _ => panic!("Expected Life command"),
    }
}

#[test]
fn test_parse_life_cpu_multiple_statements() {
    let cmd = parse_command(
        "LIFE MONITOR CPU DO PRINT CPU usage; SELECT PROCESS * WHERE cpu > 50 END LIFE",
    )
    .unwrap();
    match cmd {
        Command::Life(l) => {
            assert_eq!(l.target, LifeTarget::Cpu);
            assert_eq!(l.body.len(), 2);
        }
        _ => panic!("Expected Life command"),
    }
}

// PRINT command tests
#[test]
fn test_parse_print_string() {
    let cmd = parse_command("PRINT \"Hello World\"").unwrap();
    match cmd {
        Command::Print(p) => {
            assert_eq!(p.expressions.len(), 1);
            match &p.expressions[0] {
                PrintExpr::String(s) => assert_eq!(s, "Hello World"),
                _ => panic!("Expected String expression"),
            }
        }
        _ => panic!("Expected Print command"),
    }
}

#[test]
fn test_parse_print_query_field() {
    let cmd = parse_command("PRINT BATTERY level").unwrap();
    match cmd {
        Command::Print(p) => {
            assert_eq!(p.expressions.len(), 1);
            match &p.expressions[0] {
                PrintExpr::QueryField { target, field } => {
                    assert_eq!(*target, QueryTarget::Battery);
                    assert_eq!(field, "level");
                }
                _ => panic!("Expected QueryField expression"),
            }
        }
        _ => panic!("Expected Print command"),
    }
}

#[test]
fn test_parse_print_multiple() {
    let cmd = parse_command("PRINT BATTERY level, \"status:\", BATTERY state").unwrap();
    match cmd {
        Command::Print(p) => {
            assert_eq!(p.expressions.len(), 3);
        }
        _ => panic!("Expected Print command"),
    }
}

// Script parsing tests
#[test]
fn test_parse_script_single_statement() {
    let script = parse_script("SELECT CPU *").unwrap();
    assert_eq!(script.statements.len(), 1);
}

#[test]
fn test_parse_script_multiple_statements() {
    let script = parse_script("SELECT CPU *; SELECT MEMORY *; SELECT BATTERY *").unwrap();
    assert_eq!(script.statements.len(), 3);
}

#[test]
fn test_parse_script_with_comments() {
    let script = parse_script(
        "\n        -- This is a comment\n        SELECT CPU *;\n        # Another comment style\n        SELECT MEMORY *;\n        // Yet another comment\n        SELECT BATTERY *\n    ",
    )
    .unwrap();
    assert_eq!(script.statements.len(), 3);
}

#[test]
fn test_parse_script_with_variables_and_loops() {
    let script = parse_script(
        "\n        LET threshold = 80;\n        IF SELECT MEMORY usage > threshold THEN\n            SELECT PROCESS * WHERE memory > 100MB\n        END IF;\n        FOR file IN SELECT FILES * FROM /tmp DO\n            SELECT CONTENT *\n        END FOR\n    ",
    )
    .unwrap();
    assert_eq!(script.statements.len(), 3);
}

// Container command tests
#[test]
fn test_parse_create_container_basic() {
    let cmd =
        parse_command("CREATE CONTAINER \"sandbox\" DO SELECT CPU * END CONTAINER").unwrap();
    match cmd {
        Command::Container(ContainerCommand::Create(c)) => {
            assert_eq!(c.name, "sandbox");
            assert_eq!(c.body.len(), 1);
            assert!(!c.options.allow_actions);
            assert!(!c.options.readonly);
        }
        _ => panic!("Expected Create Container command"),
    }
}

#[test]
fn test_parse_create_container_with_options() {
    let cmd = parse_command("CREATE CONTAINER \"sandbox\" WITH ALLOW ACTIONS, READONLY DO SELECT CPU * END CONTAINER").unwrap();
    match cmd {
        Command::Container(ContainerCommand::Create(c)) => {
            assert_eq!(c.name, "sandbox");
            assert!(c.options.allow_actions);
            assert!(c.options.readonly);
        }
        _ => panic!("Expected Create Container command"),
    }
}

#[test]
fn test_parse_create_container_identifier_name() {
    let cmd =
        parse_command("CREATE CONTAINER mycontainer DO SELECT CPU * END CONTAINER").unwrap();
    match cmd {
        Command::Container(ContainerCommand::Create(c)) => {
            assert_eq!(c.name, "mycontainer");
        }
        _ => panic!("Expected Create Container command"),
    }
}

#[test]
fn test_parse_create_container_multiple_statements() {
    let cmd = parse_command(
        "CREATE CONTAINER \"test\" DO LET x = 1; SELECT CPU *; SELECT MEMORY * END CONTAINER",
    )
    .unwrap();
    match cmd {
        Command::Container(ContainerCommand::Create(c)) => {
            assert_eq!(c.body.len(), 3);
        }
        _ => panic!("Expected Create Container command"),
    }
}

#[test]
fn test_parse_switch_container() {
    let cmd = parse_command("SWITCH CONTAINER \"sandbox\"").unwrap();
    match cmd {
        Command::Container(ContainerCommand::Switch(name)) => {
            assert_eq!(name, "sandbox");
        }
        _ => panic!("Expected Switch Container command"),
    }
}

#[test]
fn test_parse_list_containers() {
    let cmd = parse_command("LIST CONTAINERS").unwrap();
    match cmd {
        Command::Container(ContainerCommand::List) => {}
        _ => panic!("Expected List Containers command"),
    }
}

#[test]
fn test_parse_destroy_container() {
    let cmd = parse_command("DESTROY CONTAINER \"sandbox\"").unwrap();
    match cmd {
        Command::Container(ContainerCommand::Destroy(name)) => {
            assert_eq!(name, "sandbox");
        }
        _ => panic!("Expected Destroy Container command"),
    }
}

#[test]
fn test_parse_export_container() {
    let cmd = parse_command("EXPORT CONTAINER \"sandbox\" TO /tmp/sandbox.arta").unwrap();
    match cmd {
        Command::Container(ContainerCommand::Export(e)) => {
            assert_eq!(e.name, "sandbox");
            assert_eq!(e.path, "/tmp/sandbox.arta");
        }
        _ => panic!("Expected Export Container command"),
    }
}

#[test]
fn test_parse_container_with_life() {
    let cmd = parse_command("CREATE CONTAINER \"monitor\" DO LIFE MONITOR BATTERY DO PRINT BATTERY level END LIFE END CONTAINER").unwrap();
    match cmd {
        Command::Container(ContainerCommand::Create(c)) => {
            assert_eq!(c.name, "monitor");
            assert_eq!(c.body.len(), 1);
            match &c.body[0] {
                Command::Life(l) => {
                    assert_eq!(l.target, LifeTarget::Battery);
                }
                _ => panic!("Expected Life command inside container"),
            }
        }
        _ => panic!("Expected Create Container command"),
    }
}
