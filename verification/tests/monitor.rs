use arta::ast::{LifeTarget, QueryTarget};
use arta::error::ArtaError;
use arta::life::{
    fires, is_charging, lowered_target, monitor_target, sample_state, sample_target, LiveMonitor,
    MonitorState,
};
use arta::number::Number;
use arta::policy::{ExecutionContext, OutputFormat};
use arta::results::{
    BatteryEntry, BatteryInfo, CpuInfo, DiskInfo, MemoryInfo, NetworkInfo, NetworkInterface,
    ResultData,
};

fn num(value: f64) -> Number {
    Number { micros: (value * 1_000_000.0).round() as i128 }
}

#[test]
fn test_monitor_state_battery_change() {
    let s1 = MonitorState::Battery { percentage: num(80.0), charging: false };
    let s2 = MonitorState::Battery { percentage: num(80.5), charging: false };
    let s3 = MonitorState::Battery { percentage: num(82.0), charging: false };
    let s4 = MonitorState::Battery { percentage: num(80.0), charging: true };

    assert!(!s1.has_changed(&s2)); // Less than 1% difference
    assert!(s1.has_changed(&s3)); // 2% difference
    assert!(s1.has_changed(&s4)); // Charging state changed
}

#[test]
fn test_monitor_state_cpu_change() {
    let s1 = MonitorState::Cpu { usage: num(50.0) };
    let s2 = MonitorState::Cpu { usage: num(50.5) };
    let s3 = MonitorState::Cpu { usage: num(52.0) };

    assert!(!s1.has_changed(&s2)); // Less than 1% difference
    assert!(s1.has_changed(&s3)); // 2% difference
}

#[test]
fn battery_change_is_symmetric_and_exact_at_one_point() {
    let a = MonitorState::Battery { percentage: num(80.0), charging: false };
    let b = MonitorState::Battery { percentage: num(81.0), charging: false };
    let c = MonitorState::Battery { percentage: num(80.999999), charging: false };
    assert!(a.has_changed(&b));
    assert!(b.has_changed(&a));
    assert!(!a.has_changed(&c));
    let flipped = MonitorState::Battery { percentage: num(80.2), charging: true };
    assert!(flipped.has_changed(&a));
}

#[test]
fn memory_and_disk_change_beyond_one_percent_of_previous() {
    let previous = MonitorState::Memory { used: 1000, total: 5000 };
    assert!(!MonitorState::Memory { used: 1010, total: 5000 }.has_changed(&previous));
    assert!(MonitorState::Memory { used: 1011, total: 5000 }.has_changed(&previous));
    assert!(MonitorState::Memory { used: 989, total: 5000 }.has_changed(&previous));
    assert!(!MonitorState::Memory { used: 990, total: 5000 }.has_changed(&previous));
    let disk = MonitorState::Disk { used: 0, total: 10 };
    assert!(!MonitorState::Disk { used: 0, total: 99 }.has_changed(&disk));
    assert!(MonitorState::Disk { used: 1, total: 10 }.has_changed(&disk));
    let big = MonitorState::Disk { used: u64::MAX, total: u64::MAX };
    assert!(MonitorState::Disk { used: 0, total: u64::MAX }.has_changed(&big));
}

#[test]
fn network_processes_and_mixed_kinds() {
    let n = MonitorState::Network { bytes_sent: 1, bytes_recv: 2 };
    assert!(!n.has_changed(&MonitorState::Network { bytes_sent: 1, bytes_recv: 2 }));
    assert!(n.has_changed(&MonitorState::Network { bytes_sent: 1, bytes_recv: 3 }));
    assert!(n.has_changed(&MonitorState::Network { bytes_sent: 0, bytes_recv: 2 }));
    let p = MonitorState::Processes { count: 5 };
    assert!(!p.has_changed(&MonitorState::Processes { count: 5 }));
    assert!(p.has_changed(&MonitorState::Processes { count: 6 }));
    assert!(p.has_changed(&n));
}

#[test]
fn monitor_fires_on_first_sample_and_on_change() {
    let mut monitor = LiveMonitor::new(
        LifeTarget::Cpu,
        3,
        ExecutionContext {
            dry_run: false,
            allow_actions: false,
            output_format: OutputFormat::Human,
            verbose: false,
        },
    );
    assert!(!monitor.is_running());
    assert_eq!(monitor.interval_secs(), 3);
    assert_eq!(monitor.target(), LifeTarget::Cpu);
    assert_eq!(monitor.sample_target(), QueryTarget::Cpu);
    monitor.start();
    assert!(monitor.is_running());
    assert!(monitor.observe(MonitorState::Cpu { usage: num(10.0) }));
    assert!(!monitor.observe(MonitorState::Cpu { usage: num(10.9) }));
    // compared with the sample right before, not with the one that fired
    assert!(!monitor.observe(MonitorState::Cpu { usage: num(11.0) }));
    assert!(!monitor.observe(MonitorState::Cpu { usage: num(11.9) }));
    assert!(monitor.observe(MonitorState::Cpu { usage: num(12.9) }));
    assert!(monitor.observe(MonitorState::Cpu { usage: num(11.9) }));
    monitor.stop();
    assert!(!monitor.is_running());
    monitor.start();
    assert!(monitor.observe(MonitorState::Cpu { usage: num(11.9) }));
}

#[test]
fn states_of_samples() {
    let battery = ResultData::Battery(BatteryInfo {
        batteries: vec![BatteryEntry {
            state: "Charging".to_string(),
            percentage: num(55.5),
            time_to_empty: None,
            time_to_full: None,
        }],
    });
    assert_eq!(
        sample_state(LifeTarget::Battery, &battery),
        Some(MonitorState::Battery { percentage: num(55.5), charging: true })
    );
    let full = ResultData::Battery(BatteryInfo {
        batteries: vec![BatteryEntry {
            state: "Full".to_string(),
            percentage: num(100.0),
            time_to_empty: None,
            time_to_full: None,
        }],
    });
    assert_eq!(
        sample_state(LifeTarget::Battery, &full),
        Some(MonitorState::Battery { percentage: num(100.0), charging: false })
    );
    assert_eq!(
        sample_state(LifeTarget::Battery, &ResultData::Battery(BatteryInfo { batteries: vec![] })),
        Some(MonitorState::Battery { percentage: num(100.0), charging: false })
    );
    let memory = ResultData::Memory(MemoryInfo {
        total: 100,
        used: 40,
        free: 60,
        available: 60,
        usage_percent: num(40.0),
    });
    assert_eq!(
        sample_state(LifeTarget::Memory, &memory),
        Some(MonitorState::Memory { used: 40, total: 100 })
    );
    assert_eq!(sample_state(LifeTarget::Cpu, &memory), None);
    let cpu = ResultData::Cpu(CpuInfo {
        cores: 4,
        usage: num(12.5),
        brand: "x".to_string(),
        frequency: 1,
    });
    assert_eq!(
        sample_state(LifeTarget::Cpu, &cpu),
        Some(MonitorState::Cpu { usage: num(12.5) })
    );
    assert_eq!(
        sample_state(LifeTarget::Disk, &ResultData::Disk(DiskInfo { disks: vec![] })),
        Some(MonitorState::Disk { used: 0, total: 0 })
    );
    let net = ResultData::Network(NetworkInfo {
        interfaces: vec![
            NetworkInterface {
                name: "a".to_string(),
                received: u64::MAX,
                transmitted: 5,
                packets_received: 0,
                packets_transmitted: 0,
            },
            NetworkInterface {
                name: "b".to_string(),
                received: 1,
                transmitted: 7,
                packets_received: 0,
                packets_transmitted: 0,
            },
        ],
    });
    assert_eq!(
        sample_state(LifeTarget::Network, &net),
        Some(MonitorState::Network { bytes_sent: 12, bytes_recv: u64::MAX as u128 + 1 })
    );
    assert_eq!(
        sample_state(LifeTarget::Processes, &ResultData::Processes(vec![])),
        Some(MonitorState::Processes { count: 0 })
    );
    assert_eq!(sample_target(LifeTarget::Processes), QueryTarget::Process);
    assert!(fires(&None, &MonitorState::Processes { count: 0 }));
    assert!(!fires(
        &Some(MonitorState::Processes { count: 0 }),
        &MonitorState::Processes { count: 0 }
    ));
}

#[test]
fn targets_by_name() {
    assert_eq!(monitor_target("battery").unwrap(), LifeTarget::Battery);
    assert_eq!(monitor_target("Memory").unwrap(), LifeTarget::Memory);
    assert_eq!(monitor_target("CPU").unwrap(), LifeTarget::Cpu);
    assert_eq!(monitor_target("disk").unwrap(), LifeTarget::Disk);
    assert_eq!(monitor_target("network").unwrap(), LifeTarget::Network);
    assert_eq!(monitor_target("processes").unwrap(), LifeTarget::Processes);
    match monitor_target("process") {
        Err(ArtaError::InvalidTarget(name)) => assert_eq!(name, "process"),
        other => panic!("unexpected {:?}", other),
    }
    assert!(monitor_target("").is_err());
}

#[test]
fn a_slow_drift_never_fires() {
    let mut monitor = LiveMonitor::new(
        LifeTarget::Cpu,
        1,
        ExecutionContext {
            dry_run: false,
            allow_actions: false,
            output_format: OutputFormat::Human,
            verbose: false,
        },
    );
    monitor.start();
    assert!(monitor.observe(MonitorState::Cpu { usage: num(50.0) }));
    assert!(!monitor.observe(MonitorState::Cpu { usage: num(50.6) }));
    assert!(!monitor.observe(MonitorState::Cpu { usage: num(51.2) }));
    assert!(!monitor.observe(MonitorState::Cpu { usage: num(51.8) }));
    assert!(monitor.observe(MonitorState::Cpu { usage: num(52.8) }));
}

#[test]
fn on_a_lowered_text_the_rules_are_exact() {
    assert_eq!(lowered_target("cpu"), Some(LifeTarget::Cpu));
    assert_eq!(lowered_target("battery"), Some(LifeTarget::Battery));
    assert_eq!(lowered_target("memory"), Some(LifeTarget::Memory));
    assert_eq!(lowered_target("disk"), Some(LifeTarget::Disk));
    assert_eq!(lowered_target("network"), Some(LifeTarget::Network));
    assert_eq!(lowered_target("processes"), Some(LifeTarget::Processes));
    // the name is taken as lowered: nothing is folded here
    assert_eq!(lowered_target("CPU"), None);
    assert_eq!(lowered_target("gpu"), None);
    assert!(is_charging("charging"));
    assert!(is_charging("discharging"));
    assert!(!is_charging("Charging"));
    assert!(!is_charging("full"));
    assert!(matches!(monitor_target("NetWork"), Ok(LifeTarget::Network)));
    let battery = ResultData::Battery(BatteryInfo {
        batteries: vec![BatteryEntry {
            state: "CHARGING".to_string(),
            percentage: num(10.0),
            time_to_empty: None,
            time_to_full: None,
        }],
    });
    assert_eq!(
        sample_state(LifeTarget::Battery, &battery),
        Some(MonitorState::Battery { percentage: num(10.0), charging: true })
    );
}
