//! Results as text for a reader.

use vstd::prelude::*;
use vstd::string::StringExecFns;
use crate::ast::texts_view;
use crate::bridge::{format_size, size_text};
use crate::life::MonitorState;
use crate::number::Number;
use crate::render::{truncate, truncated};
use crate::results::{
    pairs_view, ActionResult, BatteryEntry, BatteryInfo, ContainerInfo, ContainerResultInfo,
    ContentInfo, ContextInfo, CpuInfo, DiskEntry, DiskInfo, ExecutionResult, FileEntry, MemoryInfo,
    NetworkInfo, NetworkInterface, ProcessInfo, ResultData, SystemInfo,
};
use crate::text::{chars_of, decimal, decimal_text, join, push_decimal};

verus! {

broadcast use {
    vstd::seq::axiom_seq_index_decreases,
    vstd::seq::axiom_seq_subrange_decreases,
    vstd::std_specs::vec::axiom_vec_index_decreases,
};

/// `count` times the character `c`.
pub open spec fn repeated(c: char, count: nat) -> Seq<char> {
    Seq::new(count, |i: int| c)
}

/// `s`, followed by blanks up to the width `width`.
pub open spec fn padded_right(s: Seq<char>, width: nat) -> Seq<char> {
    if s.len() >= width {
        s
    } else {
        s + repeated(' ', (width - s.len()) as nat)
    }
}

/// `s`, preceded by blanks up to the width `width`.
pub open spec fn padded_left(s: Seq<char>, width: nat) -> Seq<char> {
    if s.len() >= width {
        s
    } else {
        repeated(' ', (width - s.len()) as nat) + s
    }
}

/// The texts of the first `count` of `items`, one after the other.
pub open spec fn rows<T>(items: Seq<T>, each: spec_fn(T) -> Seq<char>, count: nat) -> Seq<char>
    decreases count,
{
    if count == 0 || count > items.len() {
        Seq::empty()
    } else {
        rows(items, each, (count - 1) as nat) + each(items[count - 1])
    }
}

/// The smaller of `n` and `limit`.
pub open spec fn at_most(n: nat, limit: nat) -> nat {
    if n > limit {
        limit
    } else {
        n
    }
}

fn push_repeated(out: &mut String, c: char, count: usize)
    ensures
        final(out)@ == old(out)@ + repeated(c, count as nat),
{
    let mut i: usize = 0;
    assert(old(out)@ + repeated(c, 0) =~= old(out)@);
    while i < count
        invariant
            i <= count,
            out@ == old(out)@ + repeated(c, i as nat),
        decreases count - i,
    {
        out.push(c);
        assert((old(out)@ + repeated(c, i as nat)).push(c) =~= old(out)@ + repeated(
            c,
            (i + 1) as nat,
        ));
        i = i + 1;
    }
}

/// `s`, followed by blanks up to the width `width`.
pub fn pad_right(s: &str, width: usize) -> (r: String)
    ensures
        r@ == padded_right(s@, width as nat),
{
    let n = chars_of(s).len();
    let mut out = String::from_str(s);
    if n < width {
        push_repeated(&mut out, ' ', width - n);
    }
    out
}

/// `s`, preceded by blanks up to the width `width`.
pub fn pad_left(s: &str, width: usize) -> (r: String)
    ensures
        r@ == padded_left(s@, width as nat),
{
    let n = chars_of(s).len();
    if n < width {
        let mut out = String::new();
        push_repeated(&mut out, ' ', width - n);
        out.append(s);
        assert(out@ =~= repeated(' ', (width - n) as nat) + s@);
        out
    } else {
        String::from_str(s)
    }
}

fn line_of(c: char, count: usize) -> (r: String)
    ensures
        r@ == repeated(c, count as nat),
{
    let mut out = String::new();
    push_repeated(&mut out, c, count);
    assert(Seq::<char>::empty() + repeated(c, count as nat) =~= repeated(c, count as nat));
    out
}

/// A flag as `yes` or `no`.
pub open spec fn yes_no(flag: bool) -> Seq<char> {
    if flag {
        "yes"@
    } else {
        "no"@
    }
}

fn yes_or_no(flag: bool) -> (r: &'static str)
    ensures
        r@ == yes_no(flag),
{
    if flag {
        "yes"
    } else {
        "no"
    }
}

/// A sample of the processor as text.
pub open spec fn cpu_text(info: CpuInfo) -> Seq<char> {
    "CPU Information\n---------------\nCores:     "@ + decimal(info.cores as nat)
        + "\nUsage:     "@ + info.usage.fixed_text() + "%\nBrand:     "@ + info.brand@
        + "\nFrequency: "@ + decimal(info.frequency as nat) + " MHz"@
}

fn show_cpu(info: &CpuInfo) -> (r: String)
    ensures
        r@ == cpu_text(*info),
{
    let mut out = String::from_str("CPU Information\n---------------\nCores:     ");
    push_decimal(&mut out, info.cores as u128);
    out.append("\nUsage:     ");
    out.append(info.usage.to_fixed_text().as_str());
    out.append("%\nBrand:     ");
    out.append(info.brand.as_str());
    out.append("\nFrequency: ");
    push_decimal(&mut out, info.frequency as u128);
    out.append(" MHz");
    out
}

/// A sample of main memory as text.
pub open spec fn memory_text(info: MemoryInfo) -> Seq<char> {
    "Memory Information\n------------------\nTotal:     "@ + size_text(info.total)
        + "\nUsed:      "@ + size_text(info.used) + "\nFree:      "@ + size_text(info.free)
        + "\nAvailable: "@ + size_text(info.available) + "\nUsage:     "@
        + info.usage_percent.fixed_text() + "%"@
}

fn show_memory(info: &MemoryInfo) -> (r: String)
    ensures
        r@ == memory_text(*info),
{
    let mut out = String::from_str("Memory Information\n------------------\nTotal:     ");
    out.append(format_size(info.total).as_str());
    out.append("\nUsed:      ");
    out.append(format_size(info.used).as_str());
    out.append("\nFree:      ");
    out.append(format_size(info.free).as_str());
    out.append("\nAvailable: ");
    out.append(format_size(info.available).as_str());
    out.append("\nUsage:     ");
    out.append(info.usage_percent.to_fixed_text().as_str());
    out.append("%");
    out
}

/// The lines of one file system.
pub open spec fn disk_row(disk: DiskEntry) -> Seq<char> {
    "\n"@ + disk.mount_point@ + " ("@ + disk.file_system@ + ")\n  Total: "@ + size_text(
        disk.total,
    ) + " | Used: "@ + size_text(disk.used) + " | Free: "@ + size_text(disk.free)
        + " | Usage: "@ + disk.usage_percent.fixed_text() + "%\n"@
}

fn show_disk_row(disk: &DiskEntry) -> (r: String)
    ensures
        r@ == disk_row(*disk),
{
    let mut out = String::from_str("\n");
    out.append(disk.mount_point.as_str());
    out.append(" (");
    out.append(disk.file_system.as_str());
    out.append(")\n  Total: ");
    out.append(format_size(disk.total).as_str());
    out.append(" | Used: ");
    out.append(format_size(disk.used).as_str());
    out.append(" | Free: ");
    out.append(format_size(disk.free).as_str());
    out.append(" | Usage: ");
    out.append(disk.usage_percent.to_fixed_text().as_str());
    out.append("%\n");
    out
}

/// The mounted file systems as text.
pub open spec fn disks_text(info: DiskInfo) -> Seq<char> {
    "Disk Information\n----------------\n"@ + rows(
        info.disks@,
        |d: DiskEntry| disk_row(d),
        info.disks.len() as nat,
    )
}

fn show_disks(info: &DiskInfo) -> (r: String)
    ensures
        r@ == disks_text(*info),
{
    let mut out = String::from_str("Disk Information\n----------------\n");
    let ghost head = out@;
    let ghost each = |d: DiskEntry| disk_row(d);
    let mut i: usize = 0;
    assert(out@ =~= head + rows(info.disks@, each, 0));
    while i < info.disks.len()
        invariant
            i <= info.disks.len(),
            each == |d: DiskEntry| disk_row(d),
            out@ =~= head + rows(info.disks@, each, i as nat),
        decreases info.disks.len() - i,
    {
        out.append(show_disk_row(&info.disks[i]).as_str());
        i = i + 1;
    }
    out
}

/// The lines of one network interface.
pub open spec fn interface_row(interface: NetworkInterface) -> Seq<char> {
    "\n"@ + interface.name@ + "\n  Received: "@ + size_text(interface.received)
        + " | Transmitted: "@ + size_text(interface.transmitted) + "\n"@
}

fn show_interface_row(interface: &NetworkInterface) -> (r: String)
    ensures
        r@ == interface_row(*interface),
{
    let mut out = String::from_str("\n");
    out.append(interface.name.as_str());
    out.append("\n  Received: ");
    out.append(format_size(interface.received).as_str());
    out.append(" | Transmitted: ");
    out.append(format_size(interface.transmitted).as_str());
    out.append("\n");
    out
}

/// The network interfaces as text.
pub open spec fn network_text(info: NetworkInfo) -> Seq<char> {
    "Network Interfaces\n------------------\n"@ + rows(
        info.interfaces@,
        |n: NetworkInterface| interface_row(n),
        info.interfaces.len() as nat,
    )
}

fn show_network(info: &NetworkInfo) -> (r: String)
    ensures
        r@ == network_text(*info),
{
    let mut out = String::from_str("Network Interfaces\n------------------\n");
    let ghost head = out@;
    let ghost each = |n: NetworkInterface| interface_row(n);
    let mut i: usize = 0;
    assert(out@ =~= head + rows(info.interfaces@, each, 0));
    while i < info.interfaces.len()
        invariant
            i <= info.interfaces.len(),
            each == |n: NetworkInterface| interface_row(n),
            out@ =~= head + rows(info.interfaces@, each, i as nat),
        decreases info.interfaces.len() - i,
    {
        out.append(show_interface_row(&info.interfaces[i]).as_str());
        i = i + 1;
    }
    out
}

/// What the machine says of itself, as text.
pub open spec fn system_text(info: SystemInfo) -> Seq<char> {
    "System Information\n------------------\nHostname:       "@ + info.hostname@
        + "\nOS:             "@ + info.os_name@ + " "@ + info.os_version@
        + "\nKernel:         "@ + info.kernel_version@ + "\nUptime:         "@ + decimal(
        (info.uptime / 3600) as nat,
    ) + "h "@ + decimal(((info.uptime % 3600) / 60) as nat) + "m"@
}

fn show_system(info: &SystemInfo) -> (r: String)
    ensures
        r@ == system_text(*info),
{
    let mut out = String::from_str("System Information\n------------------\nHostname:       ");
    out.append(info.hostname.as_str());
    out.append("\nOS:             ");
    out.append(info.os_name.as_str());
    out.append(" ");
    out.append(info.os_version.as_str());
    out.append("\nKernel:         ");
    out.append(info.kernel_version.as_str());
    out.append("\nUptime:         ");
    push_decimal(&mut out, (info.uptime / 3600) as u128);
    out.append("h ");
    push_decimal(&mut out, ((info.uptime % 3600) / 60) as u128);
    out.append("m");
    out
}

/// The lines of one battery.
pub open spec fn battery_row(battery: BatteryEntry, number: nat) -> Seq<char> {
    "\nBattery "@ + decimal(number) + "\n  State: "@ + battery.state@ + " | Charge: "@
        + battery.percentage.fixed_text() + "%"@ + match battery.time_to_empty {
        Some(t) => " | Time to empty: "@ + t@,
        None => ""@,
    } + match battery.time_to_full {
        Some(t) => " | Time to full: "@ + t@,
        None => ""@,
    } + "\n"@
}

fn show_battery_row(battery: &BatteryEntry, number: usize) -> (r: String)
    ensures
        r@ == battery_row(*battery, number as nat),
{
    let mut out = String::from_str("\nBattery ");
    push_decimal(&mut out, number as u128);
    out.append("\n  State: ");
    out.append(battery.state.as_str());
    out.append(" | Charge: ");
    out.append(battery.percentage.to_fixed_text().as_str());
    out.append("%");
    let empty = match &battery.time_to_empty {
        Some(t) => join(" | Time to empty: ", t.as_str()),
        None => String::from_str(""),
    };
    out.append(empty.as_str());
    let full = match &battery.time_to_full {
        Some(t) => join(" | Time to full: ", t.as_str()),
        None => String::from_str(""),
    };
    out.append(full.as_str());
    out.append("\n");
    out
}

/// The rows of the first `count` batteries, numbered from 1.
pub open spec fn battery_rows(batteries: Seq<BatteryEntry>, count: nat) -> Seq<char>
    decreases count,
{
    if count == 0 || count > batteries.len() {
        Seq::empty()
    } else {
        battery_rows(batteries, (count - 1) as nat) + battery_row(batteries[count - 1], count)
    }
}

/// The batteries as text.
pub open spec fn batteries_text(info: BatteryInfo) -> Seq<char> {
    if info.batteries.len() == 0 {
        "No batteries found"@
    } else {
        "Battery Information\n-------------------\n"@ + battery_rows(
            info.batteries@,
            info.batteries.len() as nat,
        )
    }
}

fn show_batteries(info: &BatteryInfo) -> (r: String)
    ensures
        r@ == batteries_text(*info),
{
    if info.batteries.len() == 0 {
        return String::from_str("No batteries found");
    }
    let mut out = String::from_str("Battery Information\n-------------------\n");
    let ghost head = out@;
    let mut i: usize = 0;
    assert(out@ =~= head + battery_rows(info.batteries@, 0));
    while i < info.batteries.len()
        invariant
            i <= info.batteries.len(),
            out@ =~= head + battery_rows(info.batteries@, i as nat),
        decreases info.batteries.len() - i,
    {
        out.append(show_battery_row(&info.batteries[i], i + 1).as_str());
        i = i + 1;
    }
    out
}

/// The line of one process.
pub open spec fn process_row(process: ProcessInfo) -> Seq<char> {
    padded_right(decimal(process.pid as nat), 8) + " "@ + padded_right(
        truncated(process.name@, 20),
        20,
    ) + " "@ + padded_left(process.cpu.fixed_text(), 7) + "% "@ + padded_left(
        size_text(process.memory),
        12,
    ) + "\n"@
}

fn show_process_row(process: &ProcessInfo) -> (r: String)
    ensures
        r@ == process_row(*process),
{
    let mut out = pad_right(decimal_text(process.pid as u128).as_str(), 8);
    out.append(" ");
    out.append(pad_right(truncate(process.name.as_str(), 20).as_str(), 20).as_str());
    out.append(" ");
    out.append(pad_left(process.cpu.to_fixed_text().as_str(), 7).as_str());
    out.append("% ");
    out.append(pad_left(format_size(process.memory).as_str(), 12).as_str());
    out.append("\n");
    out
}

/// The most processes that a listing shows.
pub const SHOWN_PROCESSES: usize = 20;

/// The most files that a listing shows.
pub const SHOWN_FILES: usize = 50;

/// A listing of processes as text: a table of at most `SHOWN_PROCESSES` rows.
pub open spec fn processes_text(processes: Vec<ProcessInfo>) -> Seq<char> {
    if processes.len() == 0 {
        "No matching processes found"@
    } else {
        "Processes\n---------\n"@ + padded_right("PID"@, 8) + " "@ + padded_right("NAME"@, 20)
            + " "@ + padded_left("CPU%"@, 8) + " "@ + padded_left("MEMORY"@, 12) + "\n"@
            + repeated('-', 52) + "\n"@ + rows(
            processes@,
            |p: ProcessInfo| process_row(p),
            at_most(processes.len() as nat, SHOWN_PROCESSES as nat),
        ) + if processes.len() > SHOWN_PROCESSES {
            "\n... and "@ + decimal((processes.len() - SHOWN_PROCESSES) as nat)
                + " more processes\n"@
        } else {
            ""@
        }
    }
}

fn show_processes(processes: &Vec<ProcessInfo>) -> (r: String)
    ensures
        r@ == processes_text(*processes),
{
    if processes.len() == 0 {
        return String::from_str("No matching processes found");
    }
    let mut out = String::from_str("Processes\n---------\n");
    out.append(pad_right("PID", 8).as_str());
    out.append(" ");
    out.append(pad_right("NAME", 20).as_str());
    out.append(" ");
    out.append(pad_left("CPU%", 8).as_str());
    out.append(" ");
    out.append(pad_left("MEMORY", 12).as_str());
    out.append("\n");
    out.append(line_of('-', 52).as_str());
    out.append("\n");
    let ghost head = out@;
    let ghost each = |p: ProcessInfo| process_row(p);
    let shown = if processes.len() > SHOWN_PROCESSES {
        SHOWN_PROCESSES
    } else {
        processes.len()
    };
    let mut i: usize = 0;
    assert(out@ =~= head + rows(processes@, each, 0));
    while i < shown
        invariant
            i <= shown <= processes.len(),
            each == |p: ProcessInfo| process_row(p),
            out@ =~= head + rows(processes@, each, i as nat),
        decreases shown - i,
    {
        out.append(show_process_row(&processes[i]).as_str());
        i = i + 1;
    }
    let more = if processes.len() > SHOWN_PROCESSES {
        let mut text = String::from_str("\n... and ");
        push_decimal(&mut text, (processes.len() - SHOWN_PROCESSES) as u128);
        text.append(" more processes\n");
        text
    } else {
        String::from_str("")
    };
    out.append(more.as_str());
    out
}

/// The line of one entry of a folder.
pub open spec fn file_row(file: FileEntry) -> Seq<char> {
    padded_right(
        truncated(
            if file.is_dir {
                file.name@ + "/"@
            } else {
                file.name@
            },
            30,
        ),
        30,
    ) + " "@ + padded_left(
        if file.is_dir {
            "-"@
        } else {
            size_text(file.size)
        },
        12,
    ) + " "@ + padded_right(
        match file.modified {
            Some(m) => m@,
            None => "-"@,
        },
        20,
    ) + "\n"@
}

fn show_file_row(file: &FileEntry) -> (r: String)
    ensures
        r@ == file_row(*file),
{
    let name = if file.is_dir {
        join(file.name.as_str(), "/")
    } else {
        file.name.clone()
    };
    let size = if file.is_dir {
        String::from_str("-")
    } else {
        format_size(file.size)
    };
    let modified = match &file.modified {
        Some(m) => m.clone(),
        None => String::from_str("-"),
    };
    let mut out = pad_right(truncate(name.as_str(), 30).as_str(), 30);
    out.append(" ");
    out.append(pad_left(size.as_str(), 12).as_str());
    out.append(" ");
    out.append(pad_right(modified.as_str(), 20).as_str());
    out.append("\n");
    out
}

/// A listing of a folder as text: a table of at most `SHOWN_FILES` rows.
pub open spec fn files_text(files: Vec<FileEntry>) -> Seq<char> {
    if files.len() == 0 {
        "No files found"@
    } else {
        "Files\n-----\n"@ + padded_right("NAME"@, 30) + " "@ + padded_left("SIZE"@, 12) + " "@
            + padded_right("MODIFIED"@, 20) + "\n"@ + repeated('-', 64) + "\n"@ + rows(
            files@,
            |f: FileEntry| file_row(f),
            at_most(files.len() as nat, SHOWN_FILES as nat),
        ) + if files.len() > SHOWN_FILES {
            "\n... and "@ + decimal((files.len() - SHOWN_FILES) as nat) + " more files\n"@
        } else {
            ""@
        }
    }
}

fn show_files(files: &Vec<FileEntry>) -> (r: String)
    ensures
        r@ == files_text(*files),
{
    if files.len() == 0 {
        return String::from_str("No files found");
    }
    let mut out = String::from_str("Files\n-----\n");
    out.append(pad_right("NAME", 30).as_str());
    out.append(" ");
    out.append(pad_left("SIZE", 12).as_str());
    out.append(" ");
    out.append(pad_right("MODIFIED", 20).as_str());
    out.append("\n");
    out.append(line_of('-', 64).as_str());
    out.append("\n");
    let ghost head = out@;
    let ghost each = |f: FileEntry| file_row(f);
    let shown = if files.len() > SHOWN_FILES {
        SHOWN_FILES
    } else {
        files.len()
    };
    let mut i: usize = 0;
    assert(out@ =~= head + rows(files@, each, 0));
    while i < shown
        invariant
            i <= shown <= files.len(),
            each == |f: FileEntry| file_row(f),
            out@ =~= head + rows(files@, each, i as nat),
        decreases shown - i,
    {
        out.append(show_file_row(&files[i]).as_str());
        i = i + 1;
    }
    let more = if files.len() > SHOWN_FILES {
        let mut text = String::from_str("\n... and ");
        push_decimal(&mut text, (files.len() - SHOWN_FILES) as u128);
        text.append(" more files\n");
        text
    } else {
        String::from_str("")
    };
    out.append(more.as_str());
    out
}

/// The first `count` of `lines`, each with `before` in front of it and a
/// line end behind it.
pub open spec fn listed_lines(lines: Seq<Seq<char>>, before: Seq<char>, count: nat) -> Seq<char>
    decreases count,
{
    if count == 0 || count > lines.len() {
        Seq::empty()
    } else {
        listed_lines(lines, before, (count - 1) as nat) + before + lines[count - 1] + "\n"@
    }
}

fn push_lines(out: &mut String, lines: &Vec<String>, before: &str)
    ensures
        final(out)@ == old(out)@ + listed_lines(texts_view(*lines), before@, lines.len() as nat),
{
    let ghost head = out@;
    let mut i: usize = 0;
    assert(out@ =~= head + listed_lines(texts_view(*lines), before@, 0));
    while i < lines.len()
        invariant
            i <= lines.len(),
            out@ =~= head + listed_lines(texts_view(*lines), before@, i as nat),
        decreases lines.len() - i,
    {
        out.append(before);
        out.append(lines[i].as_str());
        out.append("\n");
        assert(texts_view(*lines)[i as int] == lines[i as int]@);
        i = i + 1;
    }
}

/// Lines of a file as text.
pub open spec fn content_text(content: ContentInfo) -> Seq<char> {
    "File: "@ + content.file_path@ + "\nSize: "@ + size_text(content.file_size)
        + " | Lines: "@ + decimal(content.total_lines as nat) + "\n"@ + repeated('-', 60)
        + "\n"@ + listed_lines(texts_view(content.lines), ""@, content.lines.len() as nat)
        + if content.lines.len() < content.total_lines {
        "\n... "@ + decimal((content.total_lines - content.lines.len()) as nat)
            + " more lines\n"@
    } else {
        ""@
    }
}

fn show_content(content: &ContentInfo) -> (r: String)
    ensures
        r@ == content_text(*content),
{
    let mut out = String::from_str("File: ");
    out.append(content.file_path.as_str());
    out.append("\nSize: ");
    out.append(format_size(content.file_size).as_str());
    out.append(" | Lines: ");
    push_decimal(&mut out, content.total_lines as u128);
    out.append("\n");
    out.append(line_of('-', 60).as_str());
    out.append("\n");
    push_lines(&mut out, &content.lines, "");
    let more = if content.lines.len() < content.total_lines {
        let mut text = String::from_str("\n... ");
        push_decimal(&mut text, (content.total_lines - content.lines.len()) as u128);
        text.append(" more lines\n");
        text
    } else {
        String::from_str("")
    };
    out.append(more.as_str());
    out
}

/// The report of an action as text.
pub open spec fn action_text(action: ActionResult) -> Seq<char> {
    action.action_type@ + " Result\n"@ + repeated('-', action.action_type@.len() + 7) + "\n"@
        + if action.dry_run {
        "[DRY RUN] No changes were made\n\n"@
    } else {
        ""@
    } + "Affected: "@ + decimal(action.affected_count as nat) + " items\n\n"@ + listed_lines(
        texts_view(action.details),
        "  "@,
        action.details.len() as nat,
    )
}

fn show_action(action: &ActionResult) -> (r: String)
    ensures
        r@ == action_text(*action),
{
    let n = chars_of(action.action_type.as_str()).len();
    let mut out = String::from_str(action.action_type.as_str());
    out.append(" Result\n");
    let mut rule = String::new();
    push_repeated(&mut rule, '-', n);
    push_repeated(&mut rule, '-', 7);
    assert(rule@ =~= repeated('-', (n + 7) as nat));
    out.append(rule.as_str());
    out.append("\n");
    out.append(
        if action.dry_run {
            "[DRY RUN] No changes were made\n\n"
        } else {
            ""
        },
    );
    out.append("Affected: ");
    push_decimal(&mut out, action.affected_count as u128);
    out.append(" items\n\n");
    push_lines(&mut out, &action.details, "  ");
    out
}

/// The lines `  name = value` of the first `count` pairs.
pub open spec fn pair_lines(pairs: Seq<(Seq<char>, Seq<char>)>, count: nat) -> Seq<char>
    decreases count,
{
    if count == 0 || count > pairs.len() {
        Seq::empty()
    } else {
        pair_lines(pairs, (count - 1) as nat) + "  "@ + pairs[count - 1].0 + " = "@
            + pairs[count - 1].1 + "\n"@
    }
}

/// The part of a context display that names the place.
pub open spec fn place_part(info: ContextInfo) -> Seq<char> {
    if info.current_folder@.len() == 0 {
        Seq::empty()
    } else {
        "Current Context\n---------------\nFolder: "@ + info.current_folder@ + "\n"@
            + match info.current_file {
            Some(f) => "File:   "@ + f@ + "\n"@,
            None => ""@,
        } + "Depth:  "@ + decimal(info.folder_depth as nat) + "\n"@
    }
}

/// `so_far` with a titled part added, after an empty line where `so_far`
/// holds anything; `so_far` itself where the part holds nothing.
pub open spec fn with_part(so_far: Seq<char>, title: Seq<char>, part: Seq<char>, holds: bool) -> Seq<
    char,
> {
    if !holds {
        so_far
    } else if so_far.len() > 0 {
        so_far + "\n"@ + title + part
    } else {
        title + part
    }
}

/// What `SHOW` displays, as text.
pub open spec fn context_text(info: ContextInfo) -> Seq<char> {
    let place = place_part(info);
    let variables = with_part(
        place,
        "Variables\n---------\n"@,
        pair_lines(pairs_view(info.variables), info.variables.len() as nat),
        info.variables.len() > 0,
    );
    let all = with_part(
        variables,
        "History\n-------\n"@,
        listed_lines(texts_view(info.history), "  "@, info.history.len() as nat),
        info.history.len() > 0,
    );
    if all.len() == 0 {
        "No context information"@
    } else {
        all
    }
}

fn show_place(info: &ContextInfo) -> (r: String)
    ensures
        r@ == place_part(*info),
{
    if chars_of(info.current_folder.as_str()).len() == 0 {
        return String::new();
    }
    let mut out = String::from_str("Current Context\n---------------\nFolder: ");
    out.append(info.current_folder.as_str());
    out.append("\n");
    let file = match &info.current_file {
        Some(f) => {
            let mut text = String::from_str("File:   ");
            text.append(f.as_str());
            text.append("\n");
            text
        },
        None => String::from_str(""),
    };
    out.append(file.as_str());
    out.append("Depth:  ");
    push_decimal(&mut out, info.folder_depth as u128);
    out.append("\n");
    out
}

fn add_part(so_far: String, title: &str, part: &str, holds: bool) -> (r: String)
    ensures
        r@ == with_part(so_far@, title@, part@, holds),
{
    if !holds {
        return so_far;
    }
    let mut out = so_far;
    if chars_of(out.as_str()).len() > 0 {
        out.append("\n");
        out.append(title);
        out.append(part);
    } else {
        out = String::from_str(title);
        out.append(part);
    }
    out
}

fn show_context(info: &ContextInfo) -> (r: String)
    ensures
        r@ == context_text(*info),
{
    let place = show_place(info);
    let mut variables = String::new();
    let mut i: usize = 0;
    while i < info.variables.len()
        invariant
            i <= info.variables.len(),
            variables@ =~= pair_lines(pairs_view(info.variables), i as nat),
        decreases info.variables.len() - i,
    {
        variables.append("  ");
        variables.append(info.variables[i].0.as_str());
        variables.append(" = ");
        variables.append(info.variables[i].1.as_str());
        variables.append("\n");
        i = i + 1;
    }
    let with_variables = add_part(
        place,
        "Variables\n---------\n",
        variables.as_str(),
        info.variables.len() > 0,
    );
    let mut history = String::new();
    push_lines(&mut history, &info.history, "  ");
    assert(history@ =~= listed_lines(texts_view(info.history), "  "@, info.history.len() as nat));
    let all = add_part(
        with_variables,
        "History\n-------\n",
        history.as_str(),
        info.history.len() > 0,
    );
    if chars_of(all.as_str()).len() == 0 {
        String::from_str("No context information")
    } else {
        all
    }
}

/// The line of one container.
pub open spec fn container_row(container: ContainerInfo) -> Seq<char> {
    padded_right(container.name@, 20) + " "@ + padded_left(yes_no(container.allow_actions), 12)
        + " "@ + padded_left(yes_no(container.readonly), 12) + " "@ + padded_left(
        if container.is_active {
            "*"@
        } else {
            ""@
        },
        8,
    ) + "\n"@
}

fn show_container_row(container: &ContainerInfo) -> (r: String)
    ensures
        r@ == container_row(*container),
{
    let mut out = pad_right(container.name.as_str(), 20);
    out.append(" ");
    out.append(pad_left(yes_or_no(container.allow_actions), 12).as_str());
    out.append(" ");
    out.append(pad_left(yes_or_no(container.readonly), 12).as_str());
    out.append(" ");
    out.append(
        pad_left(
            if container.is_active {
                "*"
            } else {
                ""
            },
            8,
        ).as_str(),
    );
    out.append("\n");
    out
}

/// The table of containers.
pub open spec fn container_list_text(containers: Vec<ContainerInfo>) -> Seq<char> {
    "\n"@ + padded_right("NAME"@, 20) + " "@ + padded_left("ALLOW_ACTIONS"@, 12) + " "@
        + padded_left("READONLY"@, 12) + " "@ + padded_left("ACTIVE"@, 8) + "\n"@ + repeated(
        '-',
        56,
    ) + "\n"@ + rows(containers@, |c: ContainerInfo| container_row(c), containers.len() as nat)
}

fn show_container_list(containers: &Vec<ContainerInfo>) -> (r: String)
    ensures
        r@ == container_list_text(*containers),
{
    let mut out = String::from_str("\n");
    out.append(pad_right("NAME", 20).as_str());
    out.append(" ");
    out.append(pad_left("ALLOW_ACTIONS", 12).as_str());
    out.append(" ");
    out.append(pad_left("READONLY", 12).as_str());
    out.append(" ");
    out.append(pad_left("ACTIVE", 8).as_str());
    out.append("\n");
    out.append(line_of('-', 56).as_str());
    out.append("\n");
    let ghost head = out@;
    let ghost each = |c: ContainerInfo| container_row(c);
    let mut i: usize = 0;
    assert(out@ =~= head + rows(containers@, each, 0));
    while i < containers.len()
        invariant
            i <= containers.len(),
            each == |c: ContainerInfo| container_row(c),
            out@ =~= head + rows(containers@, each, i as nat),
        decreases containers.len() - i,
    {
        out.append(show_container_row(&containers[i]).as_str());
        i = i + 1;
    }
    out
}

/// The outcome of a container statement as text.
pub open spec fn container_text(info: ContainerResultInfo) -> Seq<char> {
    "Container: "@ + info.operation@ + "\n"@ + repeated('-', info.operation@.len() + 11)
        + "\n"@ + match info.container_name {
        Some(name) => "Name: "@ + name@ + "\n"@,
        None => ""@,
    } + info.message@ + "\n"@ + match info.containers {
        Some(list) => container_list_text(list),
        None => ""@,
    }
}

fn show_container(info: &ContainerResultInfo) -> (r: String)
    ensures
        r@ == container_text(*info),
{
    let n = chars_of(info.operation.as_str()).len();
    let mut out = String::from_str("Container: ");
    out.append(info.operation.as_str());
    out.append("\n");
    let mut rule = String::new();
    push_repeated(&mut rule, '-', n);
    push_repeated(&mut rule, '-', 11);
    assert(rule@ =~= repeated('-', (n + 11) as nat));
    out.append(rule.as_str());
    out.append("\n");
    let name = match &info.container_name {
        Some(name) => {
            let mut text = String::from_str("Name: ");
            text.append(name.as_str());
            text.append("\n");
            text
        },
        None => String::from_str(""),
    };
    out.append(name.as_str());
    out.append(info.message.as_str());
    out.append("\n");
    let list = match &info.containers {
        Some(list) => show_container_list(list),
        None => String::from_str(""),
    };
    out.append(list.as_str());
    out
}

/// The texts of the first `count` outcomes, set apart by `---`.
pub open spec fn several_text(results: Vec<ExecutionResult>, count: nat) -> Seq<char>
    decreases results, count,
{
    if count == 0 || count > results.len() {
        Seq::empty()
    } else if count == 1 {
        human_text(results[0])
    } else {
        several_text(results, (count - 1) as nat) + "\n---\n\n"@ + human_text(results[count - 1])
    }
}

/// An outcome as text for a reader.
pub open spec fn human_text(result: ExecutionResult) -> Seq<char>
    decreases result,
{
    match result.data {
        ResultData::Cpu(info) => cpu_text(info),
        ResultData::Memory(info) => memory_text(info),
        ResultData::Disk(info) => disks_text(info),
        ResultData::Network(info) => network_text(info),
        ResultData::System(info) => system_text(info),
        ResultData::Battery(info) => batteries_text(info),
        ResultData::Processes(list) => processes_text(list),
        ResultData::Files(list) => files_text(list),
        ResultData::Content(info) => content_text(info),
        ResultData::ActionResult(info) => action_text(info),
        ResultData::ContextInfo(info) => context_text(info),
        ResultData::Explanation(text) => text@,
        ResultData::Message(text) => text@,
        ResultData::ContainerResult(info) => container_text(info),
        ResultData::Multiple(results) => several_text(results, results.len() as nat),
        ResultData::Empty => ""@,
    }
}

/// Writes an outcome as text for a reader.
pub fn format_human(result: &ExecutionResult) -> (r: String)
    ensures
        r@ == human_text(*result),
    decreases result,
{
    match &result.data {
        ResultData::Cpu(info) => show_cpu(info),
        ResultData::Memory(info) => show_memory(info),
        ResultData::Disk(info) => show_disks(info),
        ResultData::Network(info) => show_network(info),
        ResultData::System(info) => show_system(info),
        ResultData::Battery(info) => show_batteries(info),
        ResultData::Processes(list) => show_processes(list),
        ResultData::Files(list) => show_files(list),
        ResultData::Content(info) => show_content(info),
        ResultData::ActionResult(info) => show_action(info),
        ResultData::ContextInfo(info) => show_context(info),
        ResultData::Explanation(text) => text.clone(),
        ResultData::Message(text) => text.clone(),
        ResultData::ContainerResult(info) => show_container(info),
        ResultData::Multiple(results) => show_several(results),
        ResultData::Empty => String::from_str(""),
    }
}

fn show_several(results: &Vec<ExecutionResult>) -> (r: String)
    ensures
        r@ == several_text(*results, results.len() as nat),
    decreases results,
{
    let mut out = String::new();
    let mut i: usize = 0;
    while i < results.len()
        invariant
            i <= results.len(),
            out@ =~= several_text(*results, i as nat),
        decreases results.len() - i,
    {
        if i > 0 {
            out.append("\n---\n\n");
        }
        out.append(format_human(&results[i]).as_str());
        i = i + 1;
    }
    out
}

/// A byte count in units of `unit` bytes, to millionths.
pub open spec fn in_units(bytes: u64, unit: u64) -> Number
    recommends
        unit > 0,
{
    Number { micros: ((bytes * 1_000_000) / (unit as int)) as i128 }
}

/// A count of bytes as a `u64`, held at `u64::MAX`.
pub open spec fn held(bytes: u128) -> u64 {
    if bytes > u64::MAX {
        u64::MAX
    } else {
        bytes as u64
    }
}

/// The percent that `part` is of `whole`, and 0 of nothing.
pub open spec fn percent(part: u64, whole: u64) -> Number {
    if whole == 0 {
        Number { micros: 0 }
    } else {
        Number { micros: ((part * 100_000_000) / (whole as int)) as i128 }
    }
}

/// The whole number that is nearest to `n`, halves away from zero.
pub open spec fn rounded_text(n: Number) -> Seq<char> {
    n.sign_text() + decimal((n.magnitude() + 500_000) / 1_000_000)
}

/// The line that reports a sample of a monitored resource at the time
/// `clock`.
pub open spec fn state_text(state: MonitorState, clock: Seq<char>) -> Seq<char> {
    "["@ + clock + "] "@ + match state {
        MonitorState::Battery { percentage, charging } => "Battery: "@ + rounded_text(
            percentage,
        ) + "% ("@ + if charging {
            "Charging"@
        } else {
            "Discharging"@
        } + ")"@,
        MonitorState::Memory { used, total } => "Memory: "@ + in_units(
            used,
            1_073_741_824,
        ).fixed_text() + " GB / "@ + in_units(total, 1_073_741_824).fixed_text() + " GB ("@
            + percent(used, total).fixed_text() + "%)"@,
        MonitorState::Cpu { usage } => "CPU: "@ + usage.fixed_text() + "%"@,
        MonitorState::Disk { used, total } => "Disk: "@ + in_units(
            used,
            1_073_741_824,
        ).fixed_text() + " GB / "@ + in_units(total, 1_073_741_824).fixed_text() + " GB ("@
            + percent(used, total).fixed_text() + "%)"@,
        MonitorState::Network { bytes_sent, bytes_recv } => "Network: Sent "@ + in_units(
            held(bytes_sent),
            1_048_576,
        ).fixed_text() + " MB, Recv "@ + in_units(held(bytes_recv), 1_048_576).fixed_text()
            + " MB"@,
        MonitorState::Processes { count } => "Processes: "@ + decimal(count as nat),
    }
}

fn units(bytes: u64, unit: u64) -> (r: Number)
    requires
        unit > 0,
    ensures
        r == in_units(bytes, unit),
{
    Number { micros: ((bytes as i128) * 1_000_000) / (unit as i128) }
}

fn hold(bytes: u128) -> (r: u64)
    ensures
        r == held(bytes),
{
    if bytes > 0xffff_ffff_ffff_ffff {
        u64::MAX
    } else {
        bytes as u64
    }
}

fn rounded(n: &Number) -> (r: String)
    ensures
        r@ == rounded_text(*n),
{
    let mut out = String::new();
    if n.micros < 0 {
        out.push('-');
    }
    assert(out@ =~= n.sign_text());
    push_decimal(&mut out, (n.abs_micros() + 500_000) / 1_000_000);
    out
}

fn usage_of(label: &str, used: u64, total: u64) -> (r: String)
    ensures
        r@ == label@ + in_units(used, 1_073_741_824).fixed_text() + " GB / "@ + in_units(
            total,
            1_073_741_824,
        ).fixed_text() + " GB ("@ + percent(used, total).fixed_text() + "%)"@,
{
    let mut out = String::from_str(label);
    out.append(units(used, 1_073_741_824).to_fixed_text().as_str());
    out.append(" GB / ");
    out.append(units(total, 1_073_741_824).to_fixed_text().as_str());
    out.append(" GB (");
    out.append(Number::percent_of(used, total).to_fixed_text().as_str());
    out.append("%)");
    out
}

/// Writes the line that reports a sample of a monitored resource at the
/// time `clock`.
pub fn format_state(state: &MonitorState, clock: &str) -> (r: String)
    ensures
        r@ == state_text(*state, clock@),
{
    let body = match state {
        MonitorState::Battery { percentage, charging } => {
            let mut text = String::from_str("Battery: ");
            text.append(rounded(percentage).as_str());
            text.append("% (");
            text.append(
                if *charging {
                    "Charging"
                } else {
                    "Discharging"
                },
            );
            text.append(")");
            text
        },
        MonitorState::Memory { used, total } => usage_of("Memory: ", *used, *total),
        MonitorState::Cpu { usage } => {
            let mut text = String::from_str("CPU: ");
            text.append(usage.to_fixed_text().as_str());
            text.append("%");
            text
        },
        MonitorState::Disk { used, total } => usage_of("Disk: ", *used, *total),
        MonitorState::Network { bytes_sent, bytes_recv } => {
            let mut text = String::from_str("Network: Sent ");
            text.append(units(hold(*bytes_sent), 1_048_576).to_fixed_text().as_str());
            text.append(" MB, Recv ");
            text.append(units(hold(*bytes_recv), 1_048_576).to_fixed_text().as_str());
            text.append(" MB");
            text
        },
        MonitorState::Processes { count } => {
            let mut text = String::from_str("Processes: ");
            push_decimal(&mut text, *count as u128);
            text
        },
    };
    let mut out = String::from_str("[");
    out.append(clock);
    out.append("] ");
    out.append(body.as_str());
    out
}

} // verus!
