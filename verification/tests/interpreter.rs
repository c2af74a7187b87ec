use arta::ast::QueryTarget;
use arta::bridge::Timestamp;
use arta::container::ContainerManager;
use arta::context::{PathKind, PathProbe, VariableValue};
use arta::engine::{Request, Response, Step};
use arta::error::ArtaError;
use arta::machine::Interpreter;
use arta::number::Number;
use arta::parser::parse_script;
use arta::policy::{ExecutionContext, OutputFormat};
use arta::results::{
    ActionResult, BatteryEntry, BatteryInfo, CpuInfo, ExecutionResult, FileEntry, MemoryInfo,
    ProcessInfo, ResultData,
};
use arta::statements::ActionPlan;

fn now() -> Timestamp {
    Timestamp { secs: 1431648000, nanos: 0 }
}

fn policy(dry_run: bool, allow_actions: bool) -> ExecutionContext {
    ExecutionContext { dry_run, allow_actions, output_format: OutputFormat::Human, verbose: false }
}

fn memory(used: u64) -> ResultData {
    ResultData::Memory(MemoryInfo {
        total: 1000,
        used,
        free: 1000 - used,
        available: 1000 - used,
        usage_percent: Number::percent_of(used, 1000),
    })
}

fn cpu(usage: i128) -> ResultData {
    ResultData::Cpu(CpuInfo {
        cores: 8,
        usage: Number { micros: usage * 1_000_000 },
        brand: "Test CPU".to_string(),
        frequency: 2400,
    })
}

fn entry(name: &str, size: u64) -> FileEntry {
    FileEntry {
        name: name.to_string(),
        path: format!("/data/{}", name),
        size,
        is_dir: false,
        modified: None,
        extension: name.rsplit_once('.').map(|(_, e)| e.to_string()),
    }
}

struct Run {
    results: Vec<ExecutionResult>,
    /// What the bodies of `LIFE` blocks handed over to be shown.
    fired: Vec<ExecutionResult>,
    error: Option<ArtaError>,
    requests: Vec<String>,
    registry: ContainerManager,
}

/// Runs a script against a host that answers each request with `answer`.
fn run_with(
    text: &str,
    policy: ExecutionContext,
    mut answer: impl FnMut(&Request, usize) -> Response,
) -> Run {
    let script = parse_script(text).unwrap();
    let mut registry = ContainerManager::new("/start".to_string(), now());
    let mut machine = Interpreter::new(&script, policy, "default");
    let mut results = Vec::new();
    let mut fired = Vec::new();
    let mut requests = Vec::new();
    let mut error = None;
    let mut response = None;
    let mut steps = 0;
    loop {
        steps += 1;
        assert!(steps < 10_000, "the run does not end");
        match machine.step(&mut registry, response.take(), now()) {
            Step::Running => {}
            Step::Need(request) => {
                let line = match &request {
                    Request::Query(plan) => format!(
                        "query {:?} path={:?} filter={}",
                        plan.target,
                        plan.path,
                        plan.filter.is_some()
                    ),
                    Request::Action(ActionPlan::DeleteFiles { path, filter, dry_run }) => {
                        format!("delete {} filter={} dry={}", path, filter.is_some(), dry_run)
                    }
                    Request::Action(ActionPlan::KillProcess { dry_run, .. }) => {
                        format!("kill dry={}", dry_run)
                    }
                    Request::Probe { path } => format!("probe {}", path),
                    Request::Write { path, .. } => format!("write {}", path),
                    Request::Pause { seconds } => format!("pause {}", seconds),
                };
                response = Some(answer(&request, requests.len()));
                requests.push(line);
            }
            Step::Yield(result) => results.push(result),
            Step::Fired(result) => fired.push(result),
            Step::Finished => break,
            Step::Failed(e) => {
                error = Some(e);
                break;
            }
        }
    }
    assert!(machine.is_over());
    assert!(matches!(machine.step(&mut registry, None, now()), Step::Finished));
    Run { results, fired, error, requests, registry }
}

fn run(text: &str) -> Run {
    run_with(text, policy(false, false), |request, _| match request {
        Request::Query(plan) => Response::Sample(Ok(match plan.target {
            QueryTarget::Memory => memory(400),
            QueryTarget::Files => ResultData::Files(vec![entry("a.txt", 1), entry("b", 2)]),
            _ => cpu(50),
        })),
        Request::Probe { path } => Response::Probe(PathProbe {
            path: path.clone(),
            kind: if path.ends_with(".txt") { PathKind::File } else { PathKind::Folder },
            canonical: Ok(path.clone()),
        }),
        Request::Write { .. } => Response::Written(Ok(())),
        Request::Pause { .. } => Response::Resumed { cancelled: true },
        Request::Action(_) => Response::Action(Ok(ActionResult {
            action_type: "DELETE FILES".to_string(),
            affected_count: 0,
            dry_run: true,
            details: vec![],
        })),
    })
}

fn text_of(result: &ExecutionResult) -> String {
    match &result.data {
        ResultData::Message(m) => m.clone(),
        ResultData::Explanation(m) => m.clone(),
        other => panic!("no text in {:?}", other),
    }
}

fn texts(run: &Run) -> Vec<String> {
    run.results.iter().map(text_of).collect()
}

#[test]
fn a_query_yields_its_sample() {
    let run = run("SELECT MEMORY *");
    assert!(run.error.is_none());
    assert_eq!(run.requests, vec!["query Memory path=None filter=false"]);
    assert_eq!(run.results.len(), 1);
    match &run.results[0].data {
        ResultData::Memory(info) => {
            assert!(info.total > 0);
            assert_eq!(info.used, 400);
        }
        other => panic!("unexpected {:?}", other),
    }
    assert!(run.results[0].message.is_none());
}

#[test]
fn let_binds_and_reports() {
    let run = run("LET x = 80; LET p = /tmp; LET x = \"two words\"; LET s = 1.5KB; LET b = TRUE");
    assert_eq!(
        texts(&run),
        vec![
            "Variable 'x' set to 80",
            "Variable 'p' set to /tmp",
            "Variable 'x' set to \"two words\"",
            "Variable 's' set to 1.5 KB",
            "Variable 'b' set to true",
        ]
    );
    let ctx = run.registry.active().context();
    assert!(matches!(ctx.get_variable("x"), Some(VariableValue::String(s)) if s == "two words"));
    assert!(matches!(ctx.get_variable("s"), Some(VariableValue::Size(1536))));
    assert_eq!(ctx.variables().len(), 4);
}

#[test]
fn actions_are_refused_without_permission() {
    let text = "LET before = 1; DELETE FILES FROM /data WHERE size > 0; LET after = 2";
    let run = run_with(text, policy(false, false), |_, _| panic!("nothing is to be asked"));
    match &run.error {
        Some(ArtaError::SecurityError(m)) => assert_eq!(
            m,
            "Actions not enabled. Use --allow-actions flag to enable system modifications"
        ),
        other => panic!("unexpected {:?}", other),
    }
    assert_eq!(texts(&run), vec!["Variable 'before' set to 1"]);
    assert!(run.registry.active().context().get_variable("after").is_none());
    let kill = run_with("KILL PROCESS WHERE pid = 1", policy(false, false), |_, _| {
        panic!("nothing is to be asked")
    });
    assert!(matches!(kill.error, Some(ArtaError::SecurityError(_))));
}

#[test]
fn a_dry_run_previews_an_action() {
    let preview = |request: &Request, _: usize| match request {
        Request::Action(ActionPlan::DeleteFiles { dry_run, .. }) => {
            assert!(*dry_run);
            Response::Action(Ok(ActionResult {
                action_type: "DELETE FILES".to_string(),
                affected_count: 1,
                dry_run: true,
                details: vec!["Would delete: /data/a.txt (1 bytes)".to_string()],
            }))
        }
        other => panic!("unexpected {:?}", other),
    };
    let run = run_with("DELETE FILES FROM /data WHERE size > 0", policy(true, false), preview);
    assert!(run.error.is_none());
    assert_eq!(run.requests, vec!["delete /data filter=true dry=true"]);
    match &run.results[0].data {
        ResultData::ActionResult(a) => {
            assert!(a.dry_run);
            assert_eq!(a.affected_count, 1);
            assert_eq!(a.details, vec!["Would delete: /data/a.txt (1 bytes)"]);
        }
        other => panic!("unexpected {:?}", other),
    }
    let allowed = run_with(
        "LET d = /var/log; DELETE FILES FROM d; KILL PROCESS WHERE pid = 1",
        policy(false, true),
        |_, _| {
            Response::Action(Ok(ActionResult {
                action_type: "x".to_string(),
                affected_count: 0,
                dry_run: false,
                details: vec![],
            }))
        },
    );
    assert_eq!(allowed.requests, vec!["delete /var/log filter=false dry=false", "kill dry=false"]);
}

#[test]
fn for_over_nothing_runs_nothing() {
    let run = run_with(
        "FOR f IN SELECT FILES * FROM /empty DO LET seen = 1; EXIT END FOR",
        policy(false, false),
        |request, _| match request {
            Request::Query(_) => Response::Sample(Ok(ResultData::Files(vec![]))),
            other => panic!("unexpected {:?}", other),
        },
    );
    assert!(run.error.is_none());
    assert_eq!(texts(&run), vec!["FOR loop completed (no items)"]);
    assert_eq!(run.requests, vec!["query Files path=Some(\"/empty\") filter=false"]);
    let ctx = run.registry.active().context();
    assert!(ctx.get_variable("seen").is_none());
    assert!(ctx.get_variable("f").is_none());
    let processes = run_with(
        "FOR p IN SELECT PROCESS * DO LET seen = 1 END FOR",
        policy(false, false),
        |_, _| Response::Sample(Ok(ResultData::Processes(vec![]))),
    );
    assert_eq!(texts(&processes), vec!["FOR loop completed (no items)"]);
}

#[test]
fn for_runs_its_body_for_every_item_in_one_session() {
    let run = run(
        "LET n = 0; FOR f IN SELECT FILES * DO PRINT f, f.name, f.size, f.is_dir; LET last = f END FOR; PRINT last",
    );
    assert!(run.error.is_none());
    assert_eq!(run.results.len(), 3);
    assert_eq!(text_of(&run.results[0]), "Variable 'n' set to 0");
    match &run.results[1].data {
        ResultData::Multiple(inner) => {
            let lines: Vec<String> = inner.iter().map(text_of).collect();
            assert_eq!(
                lines,
                vec![
                    "/data/a.txt \"a.txt\" 1 B false",
                    "Variable 'last' set to \"f\"",
                    "/data/b \"b\" 2 B false",
                    "Variable 'last' set to \"f\"",
                ]
            );
        }
        other => panic!("unexpected {:?}", other),
    }
    assert_eq!(run.results[1].message.as_deref(), Some("FOR loop completed"));
    assert_eq!(text_of(&run.results[2]), "\"f\"");
    let ctx = run.registry.active().context();
    assert!(matches!(ctx.get_variable("f"), Some(VariableValue::Path(p)) if p == "/data/b"));
    assert!(matches!(ctx.get_variable("f.path"), Some(VariableValue::Path(p)) if p == "/data/b"));
    // the extension of the first file stays bound: the second has none
    assert!(matches!(
        ctx.get_variable("f.extension"),
        Some(VariableValue::String(e)) if e == "txt"
    ));
}

#[test]
fn for_over_processes_binds_their_fields() {
    let run = run_with(
        "FOR p IN SELECT PROCESS * WHERE cpu > 1 DO PRINT p, p.pid, p.cpu, p.memory END FOR",
        policy(false, false),
        |request, _| match request {
            Request::Query(plan) => {
                assert!(plan.filter.is_some());
                Response::Sample(Ok(ResultData::Processes(vec![ProcessInfo {
                    pid: 42,
                    name: "node".to_string(),
                    cpu: Number { micros: 12_500_000 },
                    memory: 2048,
                    status: "Run".to_string(),
                    user: None,
                }])))
            }
            other => panic!("unexpected {:?}", other),
        },
    );
    match &run.results[0].data {
        ResultData::Multiple(inner) => {
            assert_eq!(text_of(&inner[0]), "\"node\" 42 12.5 2.0 KB")
        }
        other => panic!("unexpected {:?}", other),
    }
}

#[test]
fn for_needs_files_or_processes() {
    let run = run_with(
        "FOR f IN SELECT CPU * DO EXIT END FOR",
        policy(false, false),
        |_, _| Response::Sample(Ok(cpu(1))),
    );
    match &run.error {
        Some(ArtaError::ExecutionError(m)) => {
            assert_eq!(m, "FOR loop source must be a FILES or PROCESS query")
        }
        other => panic!("unexpected {:?}", other),
    }
}

#[test]
fn if_takes_the_branch_that_holds() {
    let run = run("LET limit = 300; IF SELECT MEMORY used > limit THEN LET hit = 1 ELSE LET hit = 0 END IF");
    assert_eq!(texts(&run), vec!["Variable 'limit' set to 300", "Variable 'hit' set to 1"]);
    let other = run_with(
        "IF SELECT MEMORY used_percent > 80 THEN LET hit = 1 ELSE LET hit = 0; LET more = 2 END IF",
        policy(false, false),
        |_, _| Response::Sample(Ok(memory(400))),
    );
    assert_eq!(other.requests, vec!["query Memory path=None filter=false"]);
    match &other.results[0].data {
        ResultData::Multiple(inner) => {
            let lines: Vec<String> = inner.iter().map(text_of).collect();
            assert_eq!(lines, vec!["Variable 'hit' set to 0", "Variable 'more' set to 2"]);
        }
        other => panic!("unexpected {:?}", other),
    }
    assert!(other.results[0].message.is_none());
    let skipped = run_with(
        "IF SELECT MEMORY used_percent > 80 THEN LET hit = 1 END IF",
        policy(false, false),
        |_, _| Response::Sample(Ok(memory(400))),
    );
    assert!(matches!(skipped.results[0].data, ResultData::Empty));
    assert_eq!(skipped.results[0].message.as_deref(), Some("IF condition was false"));
    assert!(skipped.registry.active().context().get_variable("hit").is_none());
}

#[test]
fn if_compares_with_a_tolerance_of_a_thousandth() {
    let holds = |text: &str| {
        let run = run_with(text, policy(false, false), |_, _| Response::Sample(Ok(memory(400))));
        assert!(run.error.is_none(), "{:?}", run.error);
        !matches!(run.results[0].data, ResultData::Empty)
    };
    assert!(holds("IF MEMORY used_percent = 40 THEN EXPLAIN SELECT CPU * END IF"));
    assert!(holds("IF MEMORY used_percent = 40.0009 THEN EXPLAIN SELECT CPU * END IF"));
    assert!(!holds("IF MEMORY used_percent = 40.001 THEN EXPLAIN SELECT CPU * END IF"));
    assert!(holds("IF MEMORY used_percent != 40.001 THEN EXPLAIN SELECT CPU * END IF"));
    assert!(holds("IF MEMORY total >= 1000B THEN EXPLAIN SELECT CPU * END IF"));
    assert!(!holds("IF MEMORY free < 600 THEN EXPLAIN SELECT CPU * END IF"));
    assert!(holds("IF MEMORY available <= 600 THEN EXPLAIN SELECT CPU * END IF"));
}

#[test]
fn if_errors() {
    let failing = |text: &str| {
        let run = run_with(text, policy(false, false), |request, _| match request {
            Request::Query(plan) => Response::Sample(Ok(match plan.target {
                QueryTarget::Battery => ResultData::Battery(BatteryInfo { batteries: vec![] }),
                QueryTarget::Cpu => cpu(5),
                _ => memory(400),
            })),
            other => panic!("unexpected {:?}", other),
        });
        match run.error {
            Some(ArtaError::ExecutionError(m)) => m,
            other => panic!("unexpected {:?}", other),
        }
    };
    assert_eq!(
        failing("IF SELECT NETWORK sent > 1 THEN EXIT END IF"),
        "IF condition not supported for NETWORK queries yet"
    );
    assert_eq!(
        failing("IF SELECT MEMORY colour > 1 THEN EXIT END IF"),
        "Unknown MEMORY field: colour"
    );
    assert_eq!(
        failing("IF SELECT CPU usage > nothing THEN EXIT END IF"),
        "Unknown variable: nothing"
    );
    assert_eq!(
        failing("LET t = \"x\"; IF SELECT CPU usage > t THEN EXIT END IF"),
        "Variable 't' is not a number"
    );
    assert_eq!(
        failing("IF SELECT CPU usage > \"high\" THEN EXIT END IF"),
        "IF condition value must be a number or size"
    );
    assert_eq!(
        failing("IF SELECT CPU usage LIKE 5 THEN EXIT END IF"),
        "IF condition only supports numeric comparisons"
    );
    // a machine without battery counts as full
    let run = run_with(
        "IF SELECT BATTERY level >= 100 THEN LET full = 1 END IF",
        policy(false, false),
        |_, _| Response::Sample(Ok(ResultData::Battery(BatteryInfo { batteries: vec![] }))),
    );
    assert_eq!(texts(&run), vec!["Variable 'full' set to 1"]);
}

#[test]
fn print_joins_with_single_spaces() {
    let run = run_with(
        "LET who = \"me\"; PRINT \"hello\", who, nobody, BATTERY level, \"end\", CPU cores, MEMORY usage",
        policy(false, false),
        |request, _| match request {
            Request::Query(plan) => Response::Sample(Ok(match plan.target {
                QueryTarget::Battery => ResultData::Battery(BatteryInfo {
                    batteries: vec![BatteryEntry {
                        state: "Full".to_string(),
                        percentage: Number { micros: 99_900_000 },
                        time_to_empty: None,
                        time_to_full: None,
                    }],
                }),
                QueryTarget::Cpu => cpu(5),
                _ => memory(333),
            })),
            other => panic!("unexpected {:?}", other),
        },
    );
    assert!(run.error.is_none());
    assert_eq!(
        text_of(&run.results[1]),
        "hello \"me\" <undefined: nobody> 99% end 8 33.3%"
    );
    assert_eq!(
        run.requests,
        vec![
            "query Battery path=None filter=false",
            "query Cpu path=None filter=false",
            "query Memory path=None filter=false",
        ]
    );
    let refused = run_with("PRINT FILES name", policy(false, false), |_, _| panic!("no request"));
    match refused.error {
        Some(ArtaError::ExecutionError(m)) => assert_eq!(m, "PRINT not supported for FILES queries"),
        other => panic!("unexpected {:?}", other),
    }
}

#[test]
fn context_statements() {
    let run = run("ENTER FOLDER /data; ENTER FILE a.txt; SELECT CONTENT *; EXIT; EXIT; SHOW HISTORY; RESET; SHOW CONTEXT");
    assert!(run.error.is_none(), "{:?}", run.error);
    assert_eq!(
        run.requests,
        vec![
            "probe /data",
            "probe /data/a.txt",
            "query Content path=Some(\"/data/a.txt\") filter=false",
        ]
    );
    assert_eq!(text_of(&run.results[0]), "Entered folder: /data");
    assert_eq!(text_of(&run.results[1]), "Entered file: /data/a.txt");
    assert_eq!(text_of(&run.results[3]), "Exited to: /data");
    assert_eq!(text_of(&run.results[4]), "Exited to: /start");
    match &run.results[5].data {
        ResultData::ContextInfo(info) => assert_eq!(
            info.history,
            vec![
                "00:00:00: ENTER FOLDER Some(\"/data\")",
                "00:00:00: ENTER FILE Some(\"/data/a.txt\")",
                "00:00:00: EXIT FILE None",
                "00:00:00: EXIT FOLDER Some(\"/data\")",
            ]
        ),
        other => panic!("unexpected {:?}", other),
    }
    assert_eq!(text_of(&run.results[6]), "Context reset to initial state");
    match &run.results[7].data {
        ResultData::ContextInfo(info) => {
            assert_eq!(info.current_folder, "/start");
            assert_eq!(info.folder_depth, 1);
            assert!(info.current_file.is_none());
            assert!(info.history.is_empty());
        }
        other => panic!("unexpected {:?}", other),
    }
}

#[test]
fn exit_at_root_fails_the_script() {
    let run = run("LET a = 1; EXIT; LET b = 2");
    assert_eq!(texts(&run), vec!["Variable 'a' set to 1"]);
    assert!(matches!(run.error, Some(ArtaError::ExecutionError(_))));
    assert!(run.registry.active().context().get_variable("b").is_none());
}

#[test]
fn content_needs_a_file() {
    let run = run("SELECT CONTENT *");
    match run.error {
        Some(ArtaError::ExecutionError(m)) => assert_eq!(
            m,
            "No file in context. Use 'ENTER FILE <path>' or 'SELECT CONTENT * FROM <path>'"
        ),
        other => panic!("unexpected {:?}", other),
    }
    let with_path = run_with(
        "LET target = notes.txt; SELECT CONTENT * FROM target; SELECT FILES *; SELECT DISK * FROM /mnt",
        policy(false, false),
        |_, _| Response::Sample(Ok(cpu(1))),
    );
    assert_eq!(
        with_path.requests,
        vec![
            "query Content path=Some(\"/start/notes.txt\") filter=false",
            "query Files path=Some(\"/start\") filter=false",
            "query Disk path=Some(\"/mnt\") filter=false",
        ]
    );
}

#[test]
fn a_failure_of_the_host_ends_the_run() {
    let run = run_with(
        "LET a = 1; SELECT CPU *; LET b = 2",
        policy(false, false),
        |_, _| Response::Sample(Err(ArtaError::IoError("sampler broke".to_string()))),
    );
    assert_eq!(texts(&run), vec!["Variable 'a' set to 1"]);
    match run.error {
        Some(ArtaError::IoError(m)) => assert_eq!(m, "sampler broke"),
        other => panic!("unexpected {:?}", other),
    }
    let wrong = run_with("SELECT CPU *", policy(false, false), |_, _| Response::Written(Ok(())));
    match wrong.error {
        Some(ArtaError::ExecutionError(m)) => assert_eq!(m, "Unexpected answer from the host"),
        other => panic!("unexpected {:?}", other),
    }
}

#[test]
fn containers_in_a_script() {
    let run = run(
        "CREATE CONTAINER box WITH ALLOW ACTIONS DO LET inside = 1; ENTER FOLDER /data END CONTAINER; LET outside = 2; LIST CONTAINERS; SWITCH CONTAINER box; LET later = 3; EXPORT CONTAINER box TO /out/box.arta; DESTROY CONTAINER box; LIST CONTAINERS",
    );
    assert!(run.error.is_none(), "{:?}", run.error);
    assert_eq!(run.requests, vec!["probe /data", "write /out/box.arta"]);
    match &run.results[0].data {
        ResultData::ContainerResult(info) => {
            assert_eq!(info.operation, "CREATE");
            assert_eq!(info.container_name.as_deref(), Some("box"));
            assert_eq!(info.message, "Container 'box' created with 2 initialization commands");
        }
        other => panic!("unexpected {:?}", other),
    }
    match &run.results[2].data {
        ResultData::ContainerResult(info) => {
            let list = info.containers.as_ref().unwrap();
            assert_eq!(list.len(), 2);
            assert!(list[0].is_active);
            assert_eq!(list[1].name, "box");
            assert!(list[1].allow_actions);
            assert!(!list[1].is_active);
        }
        other => panic!("unexpected {:?}", other),
    }
    match &run.results[3].data {
        ResultData::ContainerResult(info) => {
            assert_eq!(info.message, "Switched to container 'box'")
        }
        other => panic!("unexpected {:?}", other),
    }
    match &run.results[5].data {
        ResultData::ContainerResult(info) => {
            assert_eq!(info.message, "Container 'box' exported to '/out/box.arta'")
        }
        other => panic!("unexpected {:?}", other),
    }
    match &run.results[6].data {
        ResultData::ContainerResult(info) => assert_eq!(info.message, "Container 'box' destroyed"),
        other => panic!("unexpected {:?}", other),
    }
    // the script runs in the container that it started in
    let ctx = run.registry.active().context();
    assert_eq!(run.registry.active_name(), "default");
    assert!(ctx.get_variable("outside").is_some());
    assert!(ctx.get_variable("later").is_some());
    assert!(ctx.get_variable("inside").is_none());
    assert_eq!(run.registry.count(), 1);
}

#[test]
fn container_bodies_run_in_the_new_container() {
    let run = run("CREATE CONTAINER box DO LET inside = 1 END CONTAINER");
    let boxed = run.registry.get("box").unwrap();
    assert!(boxed.context().get_variable("inside").is_some());
    assert!(run.registry.active().context().get_variable("inside").is_none());
    assert_eq!(boxed.context().current_folder(), "/start");
    let twice = run_with(
        "CREATE CONTAINER box DO EXIT END CONTAINER",
        policy(false, false),
        |_, _| panic!("no request"),
    );
    assert!(twice.error.is_some());
    let destroy = run_with("DESTROY CONTAINER default", policy(false, false), |_, _| {
        panic!("no request")
    });
    match destroy.error {
        Some(ArtaError::ExecutionError(m)) => assert_eq!(m, "Cannot destroy the default container"),
        other => panic!("unexpected {:?}", other),
    }
}

#[test]
fn explain_runs_nothing() {
    let run = run_with(
        "EXPLAIN DELETE FILES FROM /data",
        policy(false, false),
        |_, _| panic!("no request"),
    );
    assert_eq!(
        texts(&run),
        vec!["EXPLAIN: Would delete files from '/data' (all files - DANGEROUS!)"]
    );
}

#[test]
fn life_fires_on_change_until_cancelled() {
    let mut samples = vec![50, 50, 52, 52].into_iter();
    let mut pauses = 0;
    let run = run_with(
        "LIFE MONITOR CPU DO PRINT \"changed\" END LIFE; LET after = 1",
        policy(false, false),
        move |request, _| match request {
            Request::Query(_) => Response::Sample(Ok(cpu(samples.next().unwrap()))),
            Request::Pause { seconds } => {
                assert_eq!(*seconds, 1);
                pauses += 1;
                Response::Resumed { cancelled: pauses == 4 }
            }
            other => panic!("unexpected {:?}", other),
        },
    );
    assert!(run.error.is_none(), "{:?}", run.error);
    assert_eq!(run.fired.iter().map(text_of).collect::<Vec<_>>(), vec!["changed", "changed"]);
    assert_eq!(texts(&run), vec!["LIFE monitoring completed", "Variable 'after' set to 1"]);
    assert_eq!(
        run.requests,
        vec![
            "query Cpu path=None filter=false",
            "pause 1",
            "query Cpu path=None filter=false",
            "pause 1",
            "query Cpu path=None filter=false",
            "pause 1",
            "query Cpu path=None filter=false",
            "pause 1",
        ]
    );
}

#[test]
fn nested_blocks() {
    let run = run(
        "FOR f IN SELECT FILES * DO IF SELECT MEMORY used > 100 THEN LET big = f.size END IF END FOR",
    );
    match &run.results[0].data {
        ResultData::Multiple(inner) => {
            let lines: Vec<String> = inner.iter().map(text_of).collect();
            assert_eq!(
                lines,
                vec!["Variable 'big' set to \"f.size\"", "Variable 'big' set to \"f.size\""]
            );
        }
        other => panic!("unexpected {:?}", other),
    }
    let empty = run_with("", policy(false, false), |_, _| panic!("no request"));
    assert!(empty.results.is_empty());
    assert!(empty.error.is_none());
}

#[test]
fn life_compares_with_the_sample_right_before() {
    let usage = |micros: i128| {
        ResultData::Cpu(CpuInfo {
            cores: 1,
            usage: Number { micros },
            brand: String::new(),
            frequency: 0,
        })
    };
    let mut samples = vec![50_000_000, 50_600_000, 51_200_000, 52_200_000].into_iter();
    let mut pauses = 0;
    let run = run_with(
        "LIFE MONITOR CPU DO PRINT \"changed\" END LIFE",
        policy(false, false),
        move |request, _| match request {
            Request::Query(_) => Response::Sample(Ok(usage(samples.next().unwrap()))),
            Request::Pause { .. } => {
                pauses += 1;
                Response::Resumed { cancelled: pauses == 4 }
            }
            other => panic!("unexpected {:?}", other),
        },
    );
    assert!(run.error.is_none(), "{:?}", run.error);
    // the first sample and the last, which is a point above the third
    assert_eq!(run.fired.iter().map(text_of).collect::<Vec<_>>(), vec!["changed", "changed"]);
    assert_eq!(texts(&run), vec!["LIFE monitoring completed"]);
}

#[test]
fn history_shows_the_time_of_day() {
    let script = parse_script("RESET; SHOW HISTORY").unwrap();
    let mut registry = ContainerManager::new("/start".to_string(), now());
    let mut machine = Interpreter::new(&script, policy(false, false), "default");
    let at = Timestamp { secs: 1431648000 + 13 * 3600 + 7 * 60 + 59, nanos: 5 };
    let mut shown = Vec::new();
    loop {
        match machine.step(&mut registry, None, at) {
            Step::Running => {}
            Step::Yield(result) => shown.push(result),
            Step::Finished => break,
            other => panic!("unexpected {:?}", other),
        }
    }
    match &shown[1].data {
        ResultData::ContextInfo(info) => {
            assert_eq!(info.history, vec!["13:07:59: RESET CONTEXT None"])
        }
        other => panic!("unexpected {:?}", other),
    }
    let before_1970 = Timestamp { secs: -1, nanos: 0 };
    let mut registry = ContainerManager::new("/start".to_string(), now());
    let mut machine = Interpreter::new(&script, policy(false, false), "default");
    let mut shown = Vec::new();
    loop {
        match machine.step(&mut registry, None, before_1970) {
            Step::Running => {}
            Step::Yield(result) => shown.push(result),
            Step::Finished => break,
            other => panic!("unexpected {:?}", other),
        }
    }
    match &shown[1].data {
        ResultData::ContextInfo(info) => {
            assert_eq!(info.history, vec!["23:59:59: RESET CONTEXT None"])
        }
        other => panic!("unexpected {:?}", other),
    }
}

#[test]
fn one_outcome_for_each_statement_that_completes() {
    let mut pauses = 0;
    let run = run_with(
        "LET a = 1; FOR f IN SELECT FILES * DO LET b = 2; PRINT \"x\" END FOR; LIFE MONITOR CPU DO PRINT \"y\"; PRINT \"z\" END LIFE; IF SELECT MEMORY used > 100 THEN LET c = 3; LET d = 4 END IF; CREATE CONTAINER box DO LET e = 5 END CONTAINER; RESET",
        policy(false, false),
        move |request, _| match request {
            Request::Query(plan) => Response::Sample(Ok(match plan.target {
                QueryTarget::Memory => memory(400),
                QueryTarget::Files => ResultData::Files(vec![entry("a.txt", 1), entry("b", 2)]),
                _ => cpu(50),
            })),
            Request::Pause { .. } => {
                pauses += 1;
                Response::Resumed { cancelled: pauses == 2 }
            }
            other => panic!("unexpected {:?}", other),
        },
    );
    assert!(run.error.is_none(), "{:?}", run.error);
    // six statements, six outcomes; what the LIFE block showed is none of them
    assert_eq!(run.results.len(), 6);
    assert_eq!(run.fired.iter().map(text_of).collect::<Vec<_>>(), vec!["y", "z"]);
    // a run that fails has yielded the outcomes of the statements before
    let failing = run_with(
        "LET a = 1; LET b = 2; KILL PROCESS WHERE pid = 1; LET c = 3",
        policy(false, false),
        |_, _| panic!("no request"),
    );
    assert!(failing.error.is_some());
    assert_eq!(failing.results.len(), 2);
    assert!(failing.fired.is_empty());
}

#[test]
fn history_shows_dashes_for_a_moment_that_cannot_be_written() {
    let shown_at = |secs: i64, nanos: u32| {
        let script = parse_script("RESET; SHOW HISTORY").unwrap();
        let mut registry = ContainerManager::new("/start".to_string(), now());
        let mut machine = Interpreter::new(&script, policy(false, false), "default");
        let at = Timestamp { secs, nanos };
        let mut shown = Vec::new();
        loop {
            match machine.step(&mut registry, None, at) {
                Step::Running => {}
                Step::Yield(result) => shown.push(result),
                Step::Finished => break,
                other => panic!("unexpected {:?}", other),
            }
        }
        match &shown[1].data {
            ResultData::ContextInfo(info) => info.history[0].clone(),
            other => panic!("unexpected {:?}", other),
        }
    };
    assert_eq!(shown_at(8_210_266_876_799, 0), "23:59:59: RESET CONTEXT None");
    assert_eq!(shown_at(8_210_266_876_800, 0), "--:--:--: RESET CONTEXT None");
    assert_eq!(shown_at(-8_334_601_228_800, 0), "00:00:00: RESET CONTEXT None");
    assert_eq!(shown_at(-8_334_601_228_801, 0), "--:--:--: RESET CONTEXT None");
    assert_eq!(shown_at(i64::MIN, 0), "--:--:--: RESET CONTEXT None");
    assert_eq!(shown_at(i64::MAX, 5), "--:--:--: RESET CONTEXT None");
    assert_eq!(shown_at(3_599, 1_999_999_999), "00:59:60: RESET CONTEXT None");
    assert_eq!(shown_at(3_598, 1_000_000_000), "--:--:--: RESET CONTEXT None");
    assert_eq!(shown_at(3_599, 2_000_000_000), "--:--:--: RESET CONTEXT None");
    assert_eq!(shown_at(-61, 1_500_000_000), "23:58:60: RESET CONTEXT None");
    assert_eq!(shown_at(86_399, 999_999_999), "23:59:59: RESET CONTEXT None");
}
