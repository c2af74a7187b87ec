use arta::actions::{
    delete_files, delete_report, kill_processes, kill_report, KillOutcome,
    MAX_FILES_PER_OPERATION, MAX_PROCESSES_PER_OPERATION,
};
use arta::ast::{CompareOp, Condition, ConditionExpr, Value, WhereClause};
use arta::context::PathKind;
use arta::error::ArtaError;
use arta::filters::{
    compare_numbers, compare_strings, file_meets_condition, holds_protected,
    is_protected_process, matches_condition, matches_file_condition, matches_file_filter,
    matches_file_where_clause, matches_process_condition, matches_where_clause,
    process_meets_condition, FileInfo, ProcessMatch,
};
use arta::number::Number;
use arta::results::{FileEntry, ProcessInfo};

fn clause(field: &str, operator: CompareOp, value: Value) -> WhereClause {
    WhereClause {
        conditions: vec![ConditionExpr {
            condition: Condition { field: field.to_string(), operator, value },
            next: None,
        }],
    }
}

fn number(n: i128) -> Value {
    Value::Number(Number { micros: n * 1_000_000 })
}

fn file(name: &str, size: u64, extension: &str) -> FileInfo {
    FileInfo {
        path: format!("/dir/{}", name),
        name: name.to_string(),
        size,
        extension: extension.to_string(),
    }
}

fn process(pid: u32, name: &str, cpu: i128, memory: u64) -> ProcessMatch {
    ProcessMatch { pid, name: name.to_string(), cpu: Number { micros: cpu * 1_000_000 }, memory }
}

#[test]
fn test_delete_files_dry_run() {
    let listing = vec![file("test.txt", 13, "txt")];
    // Create WHERE clause for size > 0
    let where_clause = clause("size", CompareOp::GreaterThan, number(0));
    let picked = delete_files("/dir", PathKind::Folder, &listing, Some(&where_clause)).unwrap();
    let result = delete_report(&listing, &picked, true, &vec![]);
    assert!(result.dry_run);
    assert_eq!(result.affected_count, 1);
    assert_eq!(result.details, vec!["Would delete: /dir/test.txt (13 bytes)"]);
    assert_eq!(result.action_type, "DELETE FILES");
}

#[test]
fn test_delete_requires_where_clause() {
    let result = delete_files("/dir", PathKind::Folder, &vec![], None);
    assert!(result.is_err());
    match result {
        Err(ArtaError::SecurityError(m)) => assert_eq!(
            m,
            "DELETE without WHERE clause is too dangerous. Add a WHERE clause to filter files."
        ),
        other => panic!("unexpected {:?}", other),
    }
}

#[test]
fn test_scan_processes_with_filter() {
    // A filter that matches nothing
    let where_clause = clause(
        "name",
        CompareOp::Equal,
        Value::String("nonexistent_process_12345".to_string()),
    );
    let processes = vec![process(1, "init", 0, 10), process(200, "node", 5, 20)];
    let picked = kill_processes(&processes, &where_clause).unwrap();
    let result = kill_report(&processes, &picked, true, &vec![]);
    assert!(result.dry_run);
    assert_eq!(result.affected_count, 0);
}

#[test]
fn test_kill_dry_run_no_matches() {
    let where_clause = clause("pid", CompareOp::Equal, number(999999));
    let processes = vec![process(1, "init", 0, 10), process(200, "node", 5, 20)];
    let picked = kill_processes(&processes, &where_clause).unwrap();
    let result = kill_report(&processes, &picked, true, &vec![]);
    assert_eq!(result.affected_count, 0);
    assert_eq!(result.details, vec!["No matching processes found"]);
}

#[test]
fn test_protected_processes() {
    assert!(is_protected_process("systemd"));
    assert!(is_protected_process("init"));
    assert!(is_protected_process("launchd"));
    assert!(!is_protected_process("node"));
    assert!(!is_protected_process("python"));
}

#[test]
fn test_compare_numbers() {
    assert!(compare_numbers(10, 5, &CompareOp::GreaterThan));
    assert!(compare_numbers(5, 10, &CompareOp::LessThan));
    assert!(compare_numbers(5, 5, &CompareOp::Equal));
}

#[test]
fn test_compare_strings() {
    assert!(compare_strings("hello", "hello", &CompareOp::Equal, false));
    assert!(compare_strings("hello world", "world", &CompareOp::Contains, false));
}

#[test]
fn protected_names_match_inside_and_in_any_case() {
    assert!(is_protected_process("SystemD-journal"));
    assert!(is_protected_process("windowserver"));
    assert!(is_protected_process("my_kernel_task_helper"));
    assert!(is_protected_process("INIT"));
    assert!(!is_protected_process(""));
    assert!(!is_protected_process("ini"));
}

#[test]
fn number_operators() {
    assert!(compare_numbers(5, 5, &CompareOp::GreaterThanOrEqual));
    assert!(compare_numbers(5, 5, &CompareOp::LessThanOrEqual));
    assert!(compare_numbers(5, 6, &CompareOp::NotEqual));
    assert!(!compare_numbers(5, 5, &CompareOp::NotEqual));
    assert!(!compare_numbers(5, 5, &CompareOp::Like));
    assert!(!compare_numbers(5, 5, &CompareOp::Contains));
    assert!(!compare_numbers(5, 5, &CompareOp::Matches));
}

#[test]
fn text_operators_with_and_without_case() {
    assert!(compare_strings("Hello", "hello", &CompareOp::Equal, true));
    assert!(!compare_strings("Hello", "hello", &CompareOp::Equal, false));
    assert!(compare_strings("Hello", "hello", &CompareOp::NotEqual, false));
    assert!(!compare_strings("Hello", "hello", &CompareOp::NotEqual, true));
    assert!(compare_strings("Hello World", "WORLD", &CompareOp::Contains, true));
    assert!(!compare_strings("Hello World", "WORLD", &CompareOp::Contains, false));
    assert!(!compare_strings("a", "a", &CompareOp::Matches, true));
    assert!(!compare_strings("a", "a", &CompareOp::GreaterThan, true));
}

#[test]
fn like_is_a_whole_match_with_percent_wildcards() {
    assert!(compare_strings("report.log", "%.log", &CompareOp::Like, true));
    assert!(compare_strings("REPORT.LOG", "rep%", &CompareOp::Like, true));
    assert!(!compare_strings("REPORT.LOG", "rep%", &CompareOp::Like, false));
    assert!(!compare_strings("report.log", "epor", &CompareOp::Like, true));
    assert!(compare_strings("report.log", "%epor%", &CompareOp::Like, true));
    // the pattern is a regular expression otherwise
    assert!(compare_strings("reportXlog", "report.log", &CompareOp::Like, true));
    // a pattern that is no regular expression matches nothing
    assert!(!compare_strings("(", "(", &CompareOp::Like, true));
}

#[test]
fn file_conditions() {
    let f = file("Notes.TXT", 2048, "TXT");
    let size = |op, v| Condition { field: "SIZE".to_string(), operator: op, value: v };
    assert!(matches_file_condition(&f, &size(CompareOp::GreaterThan, Value::Size(2047))));
    assert!(!matches_file_condition(&f, &size(CompareOp::GreaterThan, Value::Size(2048))));
    assert!(matches_file_condition(&f, &size(CompareOp::Equal, number(2048))));
    assert!(matches_file_condition(
        &f,
        &size(CompareOp::Equal, Value::Number(Number { micros: 2_048_900_000 }))
    ));
    assert!(matches_file_condition(
        &f,
        &size(CompareOp::GreaterThan, Value::Number(Number { micros: -5_000_000 }))
    ));
    assert!(!matches_file_condition(&f, &size(CompareOp::Equal, Value::Boolean(true))));
    let name = Condition {
        field: "name".to_string(),
        operator: CompareOp::Equal,
        value: Value::String("notes.txt".to_string()),
    };
    assert!(matches_file_condition(&f, &name));
    let ext = Condition {
        field: "ext".to_string(),
        operator: CompareOp::Equal,
        value: Value::String("txt".to_string()),
    };
    assert!(matches_file_condition(&f, &ext));
    let ext_number =
        Condition { field: "extension".to_string(), operator: CompareOp::Equal, value: number(1) };
    assert!(!matches_file_condition(&f, &ext_number));
    let unknown =
        Condition { field: "colour".to_string(), operator: CompareOp::Equal, value: number(1) };
    assert!(matches_file_condition(&f, &unknown));
}

#[test]
fn only_the_first_comparison_of_an_expression_decides() {
    let f = file("a.txt", 10, "txt");
    let chain = WhereClause {
        conditions: vec![ConditionExpr {
            condition: Condition {
                field: "size".to_string(),
                operator: CompareOp::GreaterThan,
                value: number(5),
            },
            next: Some((
                arta::ast::LogicalOp::And,
                Box::new(ConditionExpr {
                    condition: Condition {
                        field: "size".to_string(),
                        operator: CompareOp::GreaterThan,
                        value: number(500),
                    },
                    next: None,
                }),
            )),
        }],
    };
    assert!(matches_file_where_clause(&f, &chain));
    let two = WhereClause {
        conditions: vec![
            ConditionExpr {
                condition: Condition {
                    field: "size".to_string(),
                    operator: CompareOp::GreaterThan,
                    value: number(5),
                },
                next: None,
            },
            ConditionExpr {
                condition: Condition {
                    field: "size".to_string(),
                    operator: CompareOp::GreaterThan,
                    value: number(500),
                },
                next: None,
            },
        ],
    };
    assert!(!matches_file_where_clause(&f, &two));
    assert!(matches_file_where_clause(&f, &WhereClause { conditions: vec![] }));
}

#[test]
fn process_conditions() {
    let p = process(42, "Node", 12, 4096);
    let cond = |field: &str, op, v| Condition { field: field.to_string(), operator: op, value: v };
    assert!(matches_process_condition(&p, &cond("pid", CompareOp::Equal, number(42))));
    assert!(!matches_process_condition(&p, &cond("pid", CompareOp::Equal, Value::Size(42))));
    assert!(matches_process_condition(
        &p,
        &cond("name", CompareOp::Equal, Value::String("node".to_string()))
    ));
    assert!(matches_process_condition(&p, &cond("cpu", CompareOp::GreaterThan, number(10))));
    assert!(!matches_process_condition(&p, &cond("cpu", CompareOp::GreaterThan, number(12))));
    assert!(matches_process_condition(&p, &cond("memory", CompareOp::Equal, Value::Size(4096))));
    assert!(matches_process_condition(&p, &cond("memory", CompareOp::LessThan, number(5000))));
    assert!(!matches_process_condition(
        &p,
        &cond("memory", CompareOp::Equal, Value::String("x".to_string()))
    ));
    assert!(matches_process_condition(&p, &cond("other", CompareOp::Equal, number(0))));
    let listed = ProcessInfo {
        pid: 42,
        name: "Node".to_string(),
        cpu: Number { micros: 12_000_000 },
        memory: 4096,
        status: "Run".to_string(),
        user: None,
    };
    // listings compare texts exactly
    assert!(!matches_condition(
        &listed,
        &cond("name", CompareOp::Equal, Value::String("node".to_string()))
    ));
    assert!(matches_condition(
        &listed,
        &cond("name", CompareOp::Equal, Value::String("Node".to_string()))
    ));
    assert!(matches_where_clause(
        &listed,
        &clause("cpu", CompareOp::GreaterThanOrEqual, number(12))
    ));
    let entry = FileEntry {
        name: "a".to_string(),
        path: "/a".to_string(),
        size: 0,
        is_dir: false,
        modified: None,
        extension: None,
    };
    assert!(!matches_file_filter(&entry, &clause("size", CompareOp::GreaterThan, number(5))));
}

#[test]
fn a_filter_narrows_a_listing() {
    let entry = |name: &str, size: u64, extension: Option<&str>| FileEntry {
        name: name.to_string(),
        path: format!("/dir/{}", name),
        size,
        is_dir: false,
        modified: None,
        extension: extension.map(|e| e.to_string()),
    };
    let log = entry("app.LOG", 7, Some("LOG"));
    let bare = entry("Makefile", 3, None);
    let by_size = clause("size", CompareOp::GreaterThan, number(5));
    assert!(matches_file_filter(&log, &by_size));
    assert!(!matches_file_filter(&bare, &by_size));
    let by_extension = clause("EXT", CompareOp::Equal, Value::String("log".to_string()));
    assert!(matches_file_filter(&log, &by_extension));
    assert!(!matches_file_filter(&bare, &by_extension));
    let none = clause("extension", CompareOp::Equal, Value::String(String::new()));
    assert!(matches_file_filter(&bare, &none));
    let by_name = clause("name", CompareOp::Contains, Value::String("APP".to_string()));
    assert!(matches_file_filter(&log, &by_name));
    // every expression has to hold
    let both = WhereClause {
        conditions: vec![
            ConditionExpr {
                condition: Condition {
                    field: "size".to_string(),
                    operator: CompareOp::GreaterThan,
                    value: number(5),
                },
                next: None,
            },
            ConditionExpr {
                condition: Condition {
                    field: "name".to_string(),
                    operator: CompareOp::Contains,
                    value: Value::String("zzz".to_string()),
                },
                next: None,
            },
        ],
    };
    assert!(!matches_file_filter(&log, &both));
    // a field that files do not have narrows nothing
    assert!(matches_file_filter(&bare, &clause("pid", CompareOp::Equal, number(1))));
    // a listing shows what a DELETE with the same filter would pick
    let listing = vec![file("app.LOG", 7, "LOG"), file("Makefile", 3, "")];
    let picked = delete_files("/dir", PathKind::Folder, &listing, Some(&by_size)).unwrap();
    assert_eq!(picked, vec![0]);
}

#[test]
fn case_is_folded_as_the_letters_of_every_script_are() {
    // CONTAINS lowers both sides, letter by letter of any script
    assert!(compare_strings("\u{dc}BUNG", "\u{fc}bung", &CompareOp::Contains, true));
    assert!(compare_strings("\u{fc}bung.txt", "\u{dc}BUNG", &CompareOp::Contains, true));
    assert!(!compare_strings("\u{dc}BUNG", "\u{fc}bung", &CompareOp::Contains, false));
    assert!(compare_strings("\u{394}\u{395}\u{39b}\u{3a4}\u{391}", "\u{3b4}\u{3b5}\u{3bb}", &CompareOp::Contains, true));
    // a capital sigma at the end of a word lowers to the final sigma
    assert!(!compare_strings("\u{391}\u{3a3}", "\u{3c3}", &CompareOp::Contains, true));
    assert!(compare_strings("\u{391}\u{3a3}", "\u{3c2}", &CompareOp::Contains, true));
    // equality folds the ASCII letters alone
    assert!(compare_strings("ABC", "abc", &CompareOp::Equal, true));
    assert!(!compare_strings("\u{dc}BUNG", "\u{fc}bung", &CompareOp::Equal, true));
    assert!(compare_strings("\u{dc}BUNG", "\u{fc}bung", &CompareOp::NotEqual, true));
    // the kelvin sign lowers to the letter k
    assert!(is_protected_process("\u{212a}ernel"));
    assert!(is_protected_process("\u{212a}ERNEL_TASK"));
    assert!(!is_protected_process("\u{212a}"));
    assert!(is_protected_process("WindowServer"));
    // DELETE picks a file whose name holds the text in another case
    let listing = vec![file("\u{dc}BUNG.txt", 1, "txt"), file("other.txt", 1, "txt")];
    let filter = clause("name", CompareOp::Contains, Value::String("\u{fc}bung".to_string()));
    let picked = delete_files("/dir", PathKind::Folder, &listing, Some(&filter)).unwrap();
    assert_eq!(picked, vec![0]);
    // KILL spares a protected process however its name is written
    let listed = vec![process(7, "\u{212a}ernel", 99, 1), process(8, "worker", 99, 1)];
    let busy = clause("cpu", CompareOp::GreaterThan, number(50));
    match kill_processes(&listed, &busy) {
        Ok(picked) => assert_eq!(picked, vec![1]),
        Err(e) => panic!("unexpected {:?}", e),
    }
    // the name of a field is lowered too
    assert!(!matches_file_condition(
        &file("a", 1, "txt"),
        &Condition { field: "SIZE".to_string(), operator: CompareOp::GreaterThan, value: number(5) }
    ));
}

#[test]
fn on_a_lowered_name_the_rules_are_exact() {
    assert!(holds_protected("systemd"));
    assert!(holds_protected("my_kernel_task_helper"));
    assert!(holds_protected("windowserver"));
    assert!(!holds_protected("node"));
    // the name is taken as lowered: nothing is folded here
    assert!(!holds_protected("SYSTEMD"));
    assert!(!holds_protected("WindowServer"));
    let big = Condition { field: "SIZE".to_string(), operator: CompareOp::GreaterThan, value: number(5) };
    assert!(file_meets_condition(&file("a", 9, "txt"), "size", &big));
    assert!(!file_meets_condition(&file("a", 1, "txt"), "size", &big));
    // with the name as it was written the field is unknown, and holds of all
    assert!(file_meets_condition(&file("a", 1, "txt"), "SIZE", &big));
    let pid = Condition { field: "Pid".to_string(), operator: CompareOp::Equal, value: number(7) };
    assert!(process_meets_condition(7, "a", Number { micros: 0 }, 0, "pid", &pid, true));
    assert!(!process_meets_condition(8, "a", Number { micros: 0 }, 0, "pid", &pid, true));
    assert!(process_meets_condition(8, "a", Number { micros: 0 }, 0, "Pid", &pid, true));
}

#[test]
fn delete_refusals() {
    let filter = clause("size", CompareOp::GreaterThan, number(0));
    match delete_files("/nope", PathKind::Missing, &vec![], Some(&filter)) {
        Err(ArtaError::PathNotFound(p)) => assert_eq!(p, "/nope"),
        other => panic!("unexpected {:?}", other),
    }
    match delete_files("/file", PathKind::File, &vec![], Some(&filter)) {
        Err(ArtaError::ExecutionError(m)) => assert_eq!(m, "/file is not a directory"),
        other => panic!("unexpected {:?}", other),
    }
    // the path is looked at before the filter
    assert!(matches!(
        delete_files("/nope", PathKind::Missing, &vec![], None),
        Err(ArtaError::PathNotFound(_))
    ));
    let many: Vec<FileInfo> =
        (0..101).map(|i| file(&format!("f{}", i), 1, "")).collect();
    match delete_files("/dir", PathKind::Folder, &many, Some(&filter)) {
        Err(ArtaError::SecurityError(m)) => assert_eq!(
            m,
            "Too many files to delete (101 > 100). Please use a more specific WHERE clause."
        ),
        other => panic!("unexpected {:?}", other),
    }
    let exactly: Vec<FileInfo> =
        (0..100).map(|i| file(&format!("f{}", i), 1, "")).collect();
    assert_eq!(
        delete_files("/dir", PathKind::Folder, &exactly, Some(&filter)).unwrap().len(),
        MAX_FILES_PER_OPERATION
    );
}

#[test]
fn delete_picks_in_order_and_reports() {
    let listing = vec![file("a", 0, ""), file("b", 5, ""), file("c", 9, "")];
    let filter = clause("size", CompareOp::GreaterThan, number(0));
    let picked = delete_files("/dir", PathKind::Folder, &listing, Some(&filter)).unwrap();
    assert_eq!(picked, vec![1, 2]);
    let report = delete_report(&listing, &picked, false, &vec![None, Some("denied".to_string())]);
    assert!(!report.dry_run);
    assert_eq!(report.affected_count, 1);
    assert_eq!(report.details, vec!["Deleted: /dir/b", "Failed to delete /dir/c: denied"]);
    let preview = delete_report(&listing, &picked, true, &vec![]);
    assert_eq!(preview.affected_count, 2);
    assert_eq!(
        preview.details,
        vec!["Would delete: /dir/b (5 bytes)", "Would delete: /dir/c (9 bytes)"]
    );
}

#[test]
fn kill_skips_protected_and_limits() {
    let filter = clause("cpu", CompareOp::GreaterThanOrEqual, number(0));
    let processes = vec![
        process(1, "systemd", 1, 1),
        process(2, "node", 1, 1),
        process(3, "Kernel_Task", 1, 1),
        process(4, "python", 1, 1),
    ];
    let picked = kill_processes(&processes, &filter).unwrap();
    assert_eq!(picked, vec![1, 3]);
    let report = kill_report(
        &processes,
        &picked,
        false,
        &vec![KillOutcome::Killed, KillOutcome::Gone],
    );
    assert_eq!(report.action_type, "KILL PROCESS");
    assert_eq!(report.affected_count, 1);
    assert_eq!(
        report.details,
        vec!["Killed: node (PID 2)", "Process no longer exists: python (PID 4)"]
    );
    let failed = kill_report(
        &processes,
        &picked,
        false,
        &vec![KillOutcome::Failed, KillOutcome::Killed],
    );
    assert_eq!(
        failed.details,
        vec!["Failed to kill: node (PID 2)", "Killed: python (PID 4)"]
    );
    let preview = kill_report(&processes, &picked, true, &vec![]);
    assert_eq!(preview.affected_count, 2);
    assert_eq!(
        preview.details,
        vec!["Would kill: node (PID 2)", "Would kill: python (PID 4)"]
    );
    let many: Vec<ProcessMatch> = (0..11).map(|i| process(i, "worker", 1, 1)).collect();
    match kill_processes(&many, &filter) {
        Err(ArtaError::SecurityError(m)) => assert_eq!(
            m,
            "Too many processes to kill (11 > 10). Please use a more specific WHERE clause."
        ),
        other => panic!("unexpected {:?}", other),
    }
    let ten: Vec<ProcessMatch> = (0..10).map(|i| process(i, "worker", 1, 1)).collect();
    assert_eq!(kill_processes(&ten, &filter).unwrap().len(), MAX_PROCESSES_PER_OPERATION);
}
