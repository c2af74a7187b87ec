use arta::ast::{CompareOp, QueryTarget, Value};
use arta::context::{Context, VariableValue};
use arta::error::ArtaError;
use arta::fields::{
    compare_values, get_battery_field_value, get_cpu_field_value, get_disk_field_value,
    get_memory_field_value, get_query_field_value, numeric_field_value, query_field_value,
};
use arta::number::Number;
use arta::results::{
    BatteryEntry, BatteryInfo, CpuInfo, DiskEntry, DiskInfo, MemoryInfo, NetworkInfo,
    NetworkInterface, ResultData, SystemInfo,
};

fn n(micros: i128) -> Number {
    Number { micros }
}

fn memory() -> ResultData {
    ResultData::Memory(MemoryInfo {
        total: 16_000_000_000,
        used: 4_000_000_000,
        free: 11_000_000_000,
        available: 12_000_000_000,
        usage_percent: n(25_000_000),
    })
}

fn cpu() -> ResultData {
    ResultData::Cpu(CpuInfo { cores: 8, usage: n(12_340_000), brand: "Chip".to_string(), frequency: 3200 })
}

fn disk() -> ResultData {
    ResultData::Disk(DiskInfo {
        disks: vec![DiskEntry {
            name: "sda".to_string(),
            mount_point: "/".to_string(),
            total: 500,
            used: 200,
            free: 300,
            usage_percent: n(40_060_000),
            file_system: "ext4".to_string(),
        }],
    })
}

fn battery() -> ResultData {
    ResultData::Battery(BatteryInfo {
        batteries: vec![BatteryEntry {
            state: "Discharging".to_string(),
            percentage: n(87_900_000),
            time_to_empty: Some("2h 5m".to_string()),
            time_to_full: None,
        }],
    })
}

fn system() -> ResultData {
    ResultData::System(SystemInfo {
        hostname: "box".to_string(),
        os_name: "Linux".to_string(),
        os_version: "6".to_string(),
        kernel_version: "6.1".to_string(),
        uptime: 99,
    })
}

fn network() -> ResultData {
    ResultData::Network(NetworkInfo {
        interfaces: vec![NetworkInterface {
            name: "eth0".to_string(),
            received: 10,
            transmitted: 2_000_000,
            packets_received: 1,
            packets_transmitted: 1,
        }],
    })
}

fn size(bytes: u64) -> String {
    bytesize::ByteSize(bytes).to_string()
}

#[test]
fn fields_as_numbers() {
    let m = memory();
    assert_eq!(get_memory_field_value(&m, "TOTAL").unwrap(), n(16_000_000_000_000_000));
    assert_eq!(get_memory_field_value(&m, "used_bytes").unwrap(), n(4_000_000_000_000_000));
    assert_eq!(get_memory_field_value(&m, "free").unwrap(), n(11_000_000_000_000_000));
    assert_eq!(get_memory_field_value(&m, "available").unwrap(), n(12_000_000_000_000_000));
    assert_eq!(get_memory_field_value(&m, "percent").unwrap(), n(25_000_000));
    assert!(get_memory_field_value(&cpu(), "total").is_err());
    let c = cpu();
    assert_eq!(get_cpu_field_value(&c, "usage").unwrap(), n(12_340_000));
    assert_eq!(get_cpu_field_value(&c, "core_count").unwrap(), n(8_000_000));
    assert_eq!(get_cpu_field_value(&c, "frequency_mhz").unwrap(), n(3_200_000_000));
    match get_cpu_field_value(&c, "Colour") {
        Err(ArtaError::ExecutionError(m)) => assert_eq!(m, "Unknown CPU field: Colour"),
        other => panic!("unexpected {:?}", other),
    }
    let d = disk();
    assert_eq!(get_disk_field_value(&d, "total").unwrap(), n(500_000_000));
    assert_eq!(get_disk_field_value(&d, "available").unwrap(), n(300_000_000));
    assert_eq!(get_disk_field_value(&d, "usage").unwrap(), n(40_060_000));
    match get_disk_field_value(&ResultData::Disk(DiskInfo { disks: vec![] }), "total") {
        Err(ArtaError::ExecutionError(m)) => assert_eq!(m, "No disks found"),
        other => panic!("unexpected {:?}", other),
    }
    let b = battery();
    assert_eq!(get_battery_field_value(&b, "charge").unwrap(), n(87_900_000));
    assert!(get_battery_field_value(&b, "state").is_err());
    assert_eq!(
        get_battery_field_value(&ResultData::Battery(BatteryInfo { batteries: vec![] }), "x")
            .unwrap(),
        n(100_000_000)
    );
}

#[test]
fn comparisons() {
    let mut ctx = Context::new("/".to_string());
    ctx.set_variable("limit".to_string(), VariableValue::Size(10));
    let value = Value::Identifier("limit".to_string());
    assert!(compare_values(n(10_000_000), &CompareOp::Equal, &value, &ctx).unwrap());
    assert!(compare_values(n(10_000_999), &CompareOp::Equal, &value, &ctx).unwrap());
    assert!(!compare_values(n(10_001_000), &CompareOp::Equal, &value, &ctx).unwrap());
    assert!(compare_values(n(10_001_000), &CompareOp::NotEqual, &value, &ctx).unwrap());
    assert!(compare_values(n(10_000_001), &CompareOp::GreaterThan, &value, &ctx).unwrap());
    assert!(!compare_values(n(10_000_000), &CompareOp::LessThan, &value, &ctx).unwrap());
    assert!(compare_values(n(10_000_000), &CompareOp::LessThanOrEqual, &value, &ctx).unwrap());
    assert!(compare_values(n(10_000_000), &CompareOp::GreaterThanOrEqual, &value, &ctx).unwrap());
    assert!(compare_values(n(1), &CompareOp::Contains, &value, &ctx).is_err());
    assert!(compare_values(n(1), &CompareOp::Equal, &Value::Boolean(true), &ctx).is_err());
}

#[test]
fn fields_as_texts() {
    let text = |target, field: &str, sample: &ResultData| {
        get_query_field_value(target, field, sample).unwrap()
    };
    assert_eq!(text(QueryTarget::Battery, "level", &battery()), "87%");
    assert_eq!(text(QueryTarget::Battery, "STATUS", &battery()), "Discharging");
    assert_eq!(text(QueryTarget::Battery, "remaining", &battery()), "2h 5m");
    assert_eq!(text(QueryTarget::Battery, "time_to_full", &battery()), "N/A");
    assert_eq!(
        text(
            QueryTarget::Battery,
            "anything",
            &ResultData::Battery(BatteryInfo { batteries: vec![] })
        ),
        "No battery"
    );
    assert_eq!(text(QueryTarget::Memory, "total", &memory()), size(16_000_000_000));
    assert_eq!(text(QueryTarget::Memory, "used", &memory()), size(4_000_000_000));
    assert_eq!(text(QueryTarget::Memory, "free", &memory()), size(11_000_000_000));
    assert_eq!(text(QueryTarget::Memory, "available", &memory()), size(12_000_000_000));
    assert_eq!(text(QueryTarget::Memory, "usage", &memory()), "25.0%");
    assert_eq!(text(QueryTarget::Cpu, "usage", &cpu()), "12.3%");
    assert_eq!(text(QueryTarget::Cpu, "cores", &cpu()), "8");
    assert_eq!(text(QueryTarget::Cpu, "frequency", &cpu()), "3200 MHz");
    assert_eq!(text(QueryTarget::Cpu, "brand", &cpu()), "Chip");
    assert_eq!(text(QueryTarget::Disk, "total", &disk()), "500 B");
    assert_eq!(text(QueryTarget::Disk, "used", &disk()), "200 B");
    assert_eq!(text(QueryTarget::Disk, "available", &disk()), "300 B");
    assert_eq!(text(QueryTarget::Disk, "percent", &disk()), "40.1%");
    assert_eq!(text(QueryTarget::Disk, "mount", &disk()), "/");
    assert_eq!(
        text(QueryTarget::Disk, "x", &ResultData::Disk(DiskInfo { disks: vec![] })),
        "No disks"
    );
    assert_eq!(text(QueryTarget::System, "hostname", &system()), "box");
    assert_eq!(text(QueryTarget::System, "os", &system()), "Linux");
    assert_eq!(text(QueryTarget::System, "version", &system()), "6");
    assert_eq!(text(QueryTarget::System, "kernel", &system()), "6.1");
    assert_eq!(text(QueryTarget::System, "uptime", &system()), "99 seconds");
    assert_eq!(text(QueryTarget::Network, "name", &network()), "eth0");
    assert_eq!(text(QueryTarget::Network, "sent", &network()), size(2_000_000));
    assert_eq!(text(QueryTarget::Network, "received", &network()), "10 B");
    assert_eq!(
        text(
            QueryTarget::Network,
            "x",
            &ResultData::Network(NetworkInfo { interfaces: vec![] })
        ),
        "No network interfaces"
    );
}

#[test]
fn field_text_errors() {
    let error = |target, field: &str, sample: &ResultData| {
        match get_query_field_value(target, field, sample) {
            Err(ArtaError::ExecutionError(m)) => m,
            other => panic!("unexpected {:?}", other),
        }
    };
    assert_eq!(error(QueryTarget::Battery, "x", &battery()), "Unknown BATTERY field: x");
    assert_eq!(error(QueryTarget::Memory, "x", &memory()), "Unknown MEMORY field: x");
    assert_eq!(error(QueryTarget::Cpu, "x", &cpu()), "Unknown CPU field: x");
    assert_eq!(error(QueryTarget::Disk, "x", &disk()), "Unknown DISK field: x");
    assert_eq!(error(QueryTarget::System, "x", &system()), "Unknown SYSTEM field: x");
    assert_eq!(error(QueryTarget::Network, "x", &network()), "Unknown NETWORK field: x");
    assert_eq!(
        error(QueryTarget::Process, "x", &cpu()),
        "PRINT not supported for PROCESS queries"
    );
    assert_eq!(error(QueryTarget::Cpu, "usage", &memory()), "Sample does not match CPU");
}

#[test]
fn the_name_of_a_field_counts_in_lower_case() {
    let s = system();
    assert_eq!(get_query_field_value(QueryTarget::System, "KERNEL", &s).unwrap(), "6.1");
    // the kelvin sign lowers to the letter k
    assert_eq!(get_query_field_value(QueryTarget::System, "\u{212a}ernel", &s).unwrap(), "6.1");
    assert_eq!(query_field_value(QueryTarget::System, "KERNEL", "kernel", &s).unwrap(), "6.1");
    match query_field_value(QueryTarget::System, "KERNEL", "KERNEL", &s) {
        Err(ArtaError::ExecutionError(m)) => assert_eq!(m, "Unknown SYSTEM field: KERNEL"),
        other => panic!("unexpected {:?}", other),
    }
    let m = memory();
    assert_eq!(
        numeric_field_value(QueryTarget::Memory, "Total", "total", &m).unwrap(),
        n(16_000_000_000_000_000)
    );
    assert!(numeric_field_value(QueryTarget::Memory, "Total", "Total", &m).is_err());
    match numeric_field_value(QueryTarget::Files, "size", "size", &m) {
        Err(ArtaError::ExecutionError(m)) => {
            assert_eq!(m, "IF condition not supported for FILES queries yet")
        }
        other => panic!("unexpected {:?}", other),
    }
}
