use arta::ast::{CompareOp, Condition, ConditionExpr, Value, WhereClause};
use arta::content::query_content;
use arta::life::MonitorState;
use arta::listing::{arrange_files, arrange_processes};
use arta::number::Number;
use arta::output::{format_human, format_state, pad_left, pad_right};
use arta::results::{
    message, ActionResult, BatteryEntry, BatteryInfo, ContainerInfo, ContainerResultInfo,
    ContentInfo, ContextInfo, CpuInfo, DiskEntry, DiskInfo, ExecutionResult, FileEntry,
    MemoryInfo, NetworkInfo, NetworkInterface, ProcessInfo, ResultData, SystemInfo,
};

fn n(micros: i128) -> Number {
    Number { micros }
}

fn shown(data: ResultData) -> String {
    format_human(&ExecutionResult { data, message: None })
}

fn size(bytes: u64) -> String {
    bytesize::ByteSize(bytes).to_string()
}

#[test]
fn padding() {
    assert_eq!(pad_left("ab", 5), "   ab");
    assert_eq!(pad_right("ab", 5), "ab   ");
    assert_eq!(pad_left("abcdef", 5), "abcdef");
    assert_eq!(pad_right("", 0), "");
    assert_eq!(pad_right("äö", 3), "äö ");
}

#[test]
fn cpu_and_memory() {
    let cpu = shown(ResultData::Cpu(CpuInfo {
        cores: 8,
        usage: n(12_340_000),
        brand: "Chip".to_string(),
        frequency: 3200,
    }));
    assert_eq!(
        cpu,
        "CPU Information\n---------------\nCores:     8\nUsage:     12.3%\nBrand:     Chip\nFrequency: 3200 MHz"
    );
    let memory = shown(ResultData::Memory(MemoryInfo {
        total: 2048,
        used: 512,
        free: 100,
        available: 1536,
        usage_percent: n(25_000_000),
    }));
    assert_eq!(
        memory,
        format!(
            "Memory Information\n------------------\nTotal:     {}\nUsed:      512 B\nFree:      100 B\nAvailable: {}\nUsage:     25.0%",
            size(2048),
            size(1536)
        )
    );
}

#[test]
fn disks_network_system_battery() {
    let disks = shown(ResultData::Disk(DiskInfo {
        disks: vec![DiskEntry {
            name: "sda".to_string(),
            mount_point: "/".to_string(),
            total: 500,
            used: 200,
            free: 300,
            usage_percent: n(40_000_000),
            file_system: "ext4".to_string(),
        }],
    }));
    assert_eq!(
        disks,
        "Disk Information\n----------------\n\n/ (ext4)\n  Total: 500 B | Used: 200 B | Free: 300 B | Usage: 40.0%\n"
    );
    assert_eq!(
        shown(ResultData::Disk(DiskInfo { disks: vec![] })),
        "Disk Information\n----------------\n"
    );
    let network = shown(ResultData::Network(NetworkInfo {
        interfaces: vec![NetworkInterface {
            name: "eth0".to_string(),
            received: 10,
            transmitted: 20,
            packets_received: 0,
            packets_transmitted: 0,
        }],
    }));
    assert_eq!(
        network,
        "Network Interfaces\n------------------\n\neth0\n  Received: 10 B | Transmitted: 20 B\n"
    );
    let system = shown(ResultData::System(SystemInfo {
        hostname: "box".to_string(),
        os_name: "Linux".to_string(),
        os_version: "6".to_string(),
        kernel_version: "6.1".to_string(),
        uptime: 7500,
    }));
    assert_eq!(
        system,
        "System Information\n------------------\nHostname:       box\nOS:             Linux 6\nKernel:         6.1\nUptime:         2h 5m"
    );
    assert_eq!(
        shown(ResultData::Battery(BatteryInfo { batteries: vec![] })),
        "No batteries found"
    );
    let battery = shown(ResultData::Battery(BatteryInfo {
        batteries: vec![
            BatteryEntry {
                state: "Discharging".to_string(),
                percentage: n(87_960_000),
                time_to_empty: Some("2h 5m".to_string()),
                time_to_full: None,
            },
            BatteryEntry {
                state: "Charging".to_string(),
                percentage: n(5_000_000),
                time_to_empty: None,
                time_to_full: Some("30m".to_string()),
            },
        ],
    }));
    assert_eq!(
        battery,
        "Battery Information\n-------------------\n\nBattery 1\n  State: Discharging | Charge: 88.0% | Time to empty: 2h 5m\n\nBattery 2\n  State: Charging | Charge: 5.0% | Time to full: 30m\n"
    );
}

fn process(pid: u32, name: &str) -> ProcessInfo {
    ProcessInfo {
        pid,
        name: name.to_string(),
        cpu: n(1_500_000),
        memory: 100,
        status: "Run".to_string(),
        user: None,
    }
}

#[test]
fn process_and_file_listings() {
    assert_eq!(shown(ResultData::Processes(vec![])), "No matching processes found");
    let one = shown(ResultData::Processes(vec![process(
        42,
        "a_process_with_a_very_long_name",
    )]));
    assert_eq!(
        one,
        format!(
            "Processes\n---------\n{:<8} {:<20} {:>8} {:>12}\n{}\n{:<8} {:<20} {:>7}% {:>12}\n",
            "PID",
            "NAME",
            "CPU%",
            "MEMORY",
            "-".repeat(52),
            42,
            "a_process_with_a_...",
            "1.5",
            "100 B"
        )
    );
    let many: Vec<ProcessInfo> = (0..23).map(|i| process(i, "p")).collect();
    let text = shown(ResultData::Processes(many));
    assert_eq!(text.lines().count(), 4 + 20 + 2);
    assert!(text.ends_with("\n... and 3 more processes\n"));
    assert_eq!(shown(ResultData::Files(vec![])), "No files found");
    let files = shown(ResultData::Files(vec![
        FileEntry {
            name: "src".to_string(),
            path: "/src".to_string(),
            size: 4096,
            is_dir: true,
            modified: None,
            extension: None,
        },
        FileEntry {
            name: "a.txt".to_string(),
            path: "/a.txt".to_string(),
            size: 12,
            is_dir: false,
            modified: Some("2024-01-02 03:04".to_string()),
            extension: Some("txt".to_string()),
        },
    ]));
    assert_eq!(
        files,
        format!(
            "Files\n-----\n{:<30} {:>12} {:<20}\n{}\n{:<30} {:>12} {:<20}\n{:<30} {:>12} {:<20}\n",
            "NAME",
            "SIZE",
            "MODIFIED",
            "-".repeat(64),
            "src/",
            "-",
            "-",
            "a.txt",
            "12 B",
            "2024-01-02 03:04"
        )
    );
    let lots: Vec<FileEntry> = (0..51)
        .map(|i| FileEntry {
            name: format!("f{}", i),
            path: String::new(),
            size: 0,
            is_dir: false,
            modified: None,
            extension: None,
        })
        .collect();
    assert!(shown(ResultData::Files(lots)).ends_with("\n... and 1 more files\n"));
}

#[test]
fn content_action_context_container() {
    let content = shown(ResultData::Content(ContentInfo {
        file_path: "/a.txt".to_string(),
        lines: vec!["one".to_string(), "two".to_string()],
        total_lines: 5,
        file_size: 12,
    }));
    assert_eq!(
        content,
        format!(
            "File: /a.txt\nSize: 12 B | Lines: 5\n{}\none\ntwo\n\n... 3 more lines\n",
            "-".repeat(60)
        )
    );
    let action = shown(ResultData::ActionResult(ActionResult {
        action_type: "DELETE FILES".to_string(),
        affected_count: 2,
        dry_run: true,
        details: vec!["Would delete: /a (1 bytes)".to_string()],
    }));
    assert_eq!(
        action,
        "DELETE FILES Result\n-------------------\n[DRY RUN] No changes were made\n\nAffected: 2 items\n\n  Would delete: /a (1 bytes)\n"
    );
    let context = shown(ResultData::ContextInfo(ContextInfo {
        current_folder: "/w".to_string(),
        current_file: Some("/w/f".to_string()),
        folder_depth: 2,
        variables: vec![("x".to_string(), "1".to_string())],
        history: vec!["12:00:00: RESET CONTEXT None".to_string()],
    }));
    assert_eq!(
        context,
        "Current Context\n---------------\nFolder: /w\nFile:   /w/f\nDepth:  2\n\nVariables\n---------\n  x = 1\n\nHistory\n-------\n  12:00:00: RESET CONTEXT None\n"
    );
    let nothing = shown(ResultData::ContextInfo(ContextInfo {
        current_folder: String::new(),
        current_file: None,
        folder_depth: 0,
        variables: vec![],
        history: vec![],
    }));
    assert_eq!(nothing, "No context information");
    let only_variables = shown(ResultData::ContextInfo(ContextInfo {
        current_folder: String::new(),
        current_file: None,
        folder_depth: 0,
        variables: vec![("x".to_string(), "1".to_string())],
        history: vec![],
    }));
    assert_eq!(only_variables, "Variables\n---------\n  x = 1\n");
    let container = shown(ResultData::ContainerResult(ContainerResultInfo {
        operation: "LIST".to_string(),
        container_name: None,
        containers: Some(vec![ContainerInfo {
            name: "default".to_string(),
            allow_actions: false,
            readonly: true,
            is_active: true,
        }]),
        message: "Container list".to_string(),
    }));
    assert_eq!(
        container,
        format!(
            "Container: LIST\n---------------\nContainer list\n\n{:<20} {:>12} {:>12} {:>8}\n{}\n{:<20} {:>12} {:>12} {:>8}\n",
            "NAME",
            "ALLOW_ACTIONS",
            "READONLY",
            "ACTIVE",
            "-".repeat(56),
            "default",
            "no",
            "yes",
            "*"
        )
    );
    let created = shown(ResultData::ContainerResult(ContainerResultInfo {
        operation: "CREATE".to_string(),
        container_name: Some("box".to_string()),
        containers: None,
        message: "made".to_string(),
    }));
    assert_eq!(created, "Container: CREATE\n-----------------\nName: box\nmade\n");
}

#[test]
fn texts_and_several() {
    assert_eq!(shown(ResultData::Message("hi".to_string())), "hi");
    assert_eq!(shown(ResultData::Explanation("why".to_string())), "why");
    assert_eq!(shown(ResultData::Empty), "");
    assert_eq!(shown(ResultData::Multiple(vec![])), "");
    assert_eq!(
        shown(ResultData::Multiple(vec![
            message("a".to_string()),
            ExecutionResult {
                data: ResultData::Multiple(vec![message("b".to_string()), message("c".to_string())]),
                message: None
            },
        ])),
        "a\n---\n\nb\n---\n\nc"
    );
}

#[test]
fn monitor_lines() {
    assert_eq!(
        format_state(&MonitorState::Battery { percentage: n(80_500_000), charging: true }, "12:00:00"),
        "[12:00:00] Battery: 81% (Charging)"
    );
    assert_eq!(
        format_state(&MonitorState::Battery { percentage: n(80_499_999), charging: false }, "t"),
        "[t] Battery: 80% (Discharging)"
    );
    assert_eq!(
        format_state(
            &MonitorState::Memory { used: 3 * 1024 * 1024 * 1024 / 2, total: 4 * 1024 * 1024 * 1024 },
            "t"
        ),
        "[t] Memory: 1.5 GB / 4.0 GB (37.5%)"
    );
    assert_eq!(
        format_state(&MonitorState::Disk { used: 0, total: 0 }, "t"),
        "[t] Disk: 0.0 GB / 0.0 GB (0.0%)"
    );
    assert_eq!(format_state(&MonitorState::Cpu { usage: n(12_340_000) }, "t"), "[t] CPU: 12.3%");
    assert_eq!(
        format_state(
            &MonitorState::Network { bytes_sent: 1024 * 1024, bytes_recv: u128::MAX },
            "t"
        ),
        "[t] Network: Sent 1.0 MB, Recv 17592186044416.0 MB"
    );
    assert_eq!(format_state(&MonitorState::Processes { count: 7 }, "t"), "[t] Processes: 7");
}

fn search(field: &str, text: &str) -> WhereClause {
    WhereClause {
        conditions: vec![ConditionExpr {
            condition: Condition {
                field: field.to_string(),
                operator: CompareOp::Contains,
                value: Value::String(text.to_string()),
            },
            next: None,
        }],
    }
}

#[test]
fn content_lines() {
    let lines: Vec<String> = vec!["alpha", "beta", "alphabet", "gamma"]
        .into_iter()
        .map(String::from)
        .collect();
    let all = query_content("/f", &lines, 99, None);
    assert_eq!(all.file_path, "/f");
    assert_eq!(all.file_size, 99);
    assert_eq!(all.total_lines, 4);
    assert_eq!(all.lines, lines);
    let found = query_content("/f", &lines, 99, Some(&search("Content", "alpha")));
    assert_eq!(found.lines, vec!["   1: alpha", "   3: alphabet"]);
    assert_eq!(found.total_lines, 4);
    let by_line = query_content("/f", &lines, 99, Some(&search("line", "Alpha")));
    assert!(by_line.lines.is_empty());
    let other_field = query_content("/f", &lines, 99, Some(&search("size", "alpha")));
    assert_eq!(other_field.lines, lines);
    let long: Vec<String> = (1..=20000).map(|i| format!("line {}", i)).collect();
    let first = query_content("/f", &long, 0, None);
    assert_eq!(first.lines.len(), 100);
    assert_eq!(first.lines[99], "line 100");
    assert_eq!(first.total_lines, 20000);
    let wide = query_content("/f", &long, 0, Some(&search("content", "line 12345")));
    assert_eq!(wide.lines, vec!["12345: line 12345"]);
}

#[test]
fn listings_are_put_in_order() {
    let entry = |name: &str, size: u64| FileEntry {
        name: name.to_string(),
        path: format!("/{}", name),
        size,
        is_dir: false,
        modified: None,
        extension: None,
    };
    let files = vec![entry("b", 1), entry("a", 2), entry("B", 3), entry("ab", 4), entry("a", 5), entry("", 6), entry("é", 7)];
    let mut expected: Vec<(String, u64)> = files.iter().map(|f| (f.name.clone(), f.size)).collect();
    expected.sort_by(|x, y| x.0.cmp(&y.0));
    let sorted: Vec<(String, u64)> =
        arrange_files(&files).into_iter().map(|f| (f.name, f.size)).collect();
    assert_eq!(sorted, expected);
    assert_eq!(
        sorted.iter().map(|f| f.1).collect::<Vec<u64>>(),
        vec![6, 3, 2, 5, 4, 1, 7]
    );
    assert!(arrange_files(&vec![]).is_empty());
    let proc = |pid: u32, name: &str, cpu: i128| ProcessInfo {
        pid,
        name: name.to_string(),
        cpu: n(cpu),
        memory: 0,
        status: String::new(),
        user: None,
    };
    let processes = vec![proc(1, "a", 5), proc(2, "b", 9), proc(3, "a", 5), proc(4, "c", 7), proc(5, "a", 9)];
    let all: Vec<u32> = arrange_processes(&processes, None).iter().map(|p| p.pid).collect();
    assert_eq!(all, vec![2, 5, 4, 1, 3]);
    let named = WhereClause {
        conditions: vec![ConditionExpr {
            condition: Condition {
                field: "name".to_string(),
                operator: CompareOp::Equal,
                value: Value::String("a".to_string()),
            },
            next: None,
        }],
    };
    let some: Vec<u32> =
        arrange_processes(&processes, Some(&named)).iter().map(|p| p.pid).collect();
    assert_eq!(some, vec![5, 1, 3]);
}
