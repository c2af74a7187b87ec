//! What queries, actions and statements yield.

use vstd::prelude::*;
use crate::ast::{opt_text_view, texts_view};
use crate::number::Number;

verus! {

broadcast use vstd::std_specs::vec::axiom_vec_index_decreases;

/// A sample of the processor.
#[derive(Debug)]
pub struct CpuInfo {
    pub cores: usize,
    /// Load in percent.
    pub usage: Number,
    pub brand: String,
    /// Clock in MHz.
    pub frequency: u64,
}

/// A sample of main memory, in bytes.
#[derive(Debug)]
pub struct MemoryInfo {
    pub total: u64,
    pub used: u64,
    pub free: u64,
    pub available: u64,
    pub usage_percent: Number,
}

/// The mounted file systems.
#[derive(Debug)]
pub struct DiskInfo {
    pub disks: Vec<DiskEntry>,
}

/// One mounted file system, in bytes.
#[derive(Debug)]
pub struct DiskEntry {
    pub name: String,
    pub mount_point: String,
    pub total: u64,
    pub used: u64,
    pub free: u64,
    pub usage_percent: Number,
    pub file_system: String,
}

/// The network interfaces.
#[derive(Debug)]
pub struct NetworkInfo {
    pub interfaces: Vec<NetworkInterface>,
}

/// The counters of one network interface.
#[derive(Debug)]
pub struct NetworkInterface {
    pub name: String,
    pub received: u64,
    pub transmitted: u64,
    pub packets_received: u64,
    pub packets_transmitted: u64,
}

/// What the machine says of itself.
#[derive(Debug)]
pub struct SystemInfo {
    pub hostname: String,
    pub os_name: String,
    pub os_version: String,
    pub kernel_version: String,
    /// Seconds since boot.
    pub uptime: u64,
}

/// The batteries.
#[derive(Debug)]
pub struct BatteryInfo {
    pub batteries: Vec<BatteryEntry>,
}

/// One battery.
#[derive(Debug)]
pub struct BatteryEntry {
    pub state: String,
    /// Charge in percent.
    pub percentage: Number,
    pub time_to_empty: Option<String>,
    pub time_to_full: Option<String>,
}

/// One running process.
#[derive(Debug)]
pub struct ProcessInfo {
    pub pid: u32,
    pub name: String,
    /// Load in percent.
    pub cpu: Number,
    /// Resident memory in bytes.
    pub memory: u64,
    pub status: String,
    pub user: Option<String>,
}

/// One entry of a folder.
#[derive(Debug)]
pub struct FileEntry {
    pub name: String,
    pub path: String,
    pub size: u64,
    pub is_dir: bool,
    pub modified: Option<String>,
    pub extension: Option<String>,
}

/// Lines of a file.
#[derive(Debug)]
pub struct ContentInfo {
    pub file_path: String,
    pub lines: Vec<String>,
    pub total_lines: usize,
    pub file_size: u64,
}

/// What an action did, or would do under a dry run.
#[derive(Debug)]
pub struct ActionResult {
    pub action_type: String,
    pub affected_count: usize,
    pub dry_run: bool,
    pub details: Vec<String>,
}

/// What `SHOW` displays.
#[derive(Debug)]
pub struct ContextInfo {
    pub current_folder: String,
    pub current_file: Option<String>,
    pub folder_depth: usize,
    pub variables: Vec<(String, String)>,
    pub history: Vec<String>,
}

/// The outcome of a container statement.
#[derive(Debug)]
pub struct ContainerResultInfo {
    pub operation: String,
    pub container_name: Option<String>,
    pub containers: Option<Vec<ContainerInfo>>,
    pub message: String,
}

/// One line of the container list.
#[derive(Debug)]
pub struct ContainerInfo {
    pub name: String,
    pub allow_actions: bool,
    pub readonly: bool,
    pub is_active: bool,
}

/// The outcome of one statement.
#[derive(Debug)]
pub struct ExecutionResult {
    pub data: ResultData,
    pub message: Option<String>,
}

/// The payload of an outcome.
#[derive(Debug)]
pub enum ResultData {
    Cpu(CpuInfo),
    Memory(MemoryInfo),
    Disk(DiskInfo),
    Network(NetworkInfo),
    System(SystemInfo),
    Battery(BatteryInfo),
    Processes(Vec<ProcessInfo>),
    Files(Vec<FileEntry>),
    Content(ContentInfo),
    ActionResult(ActionResult),
    ContextInfo(ContextInfo),
    Explanation(String),
    Message(String),
    ContainerResult(ContainerResultInfo),
    /// The outcomes of the statements of a block, in order.
    Multiple(Vec<ExecutionResult>),
    /// Nothing, as after an `IF` whose condition failed and that has no `ELSE`.
    Empty,
}

/// The model of `ActionResult`.
pub ghost struct ActionResultView {
    pub action_type: Seq<char>,
    pub affected_count: nat,
    pub dry_run: bool,
    pub details: Seq<Seq<char>>,
}

/// The model of `ContextInfo`.
pub ghost struct ContextInfoView {
    pub current_folder: Seq<char>,
    pub current_file: Option<Seq<char>>,
    pub folder_depth: nat,
    pub variables: Seq<(Seq<char>, Seq<char>)>,
    pub history: Seq<Seq<char>>,
}

/// The model of `ContainerInfo`.
pub ghost struct ContainerInfoView {
    pub name: Seq<char>,
    pub allow_actions: bool,
    pub readonly: bool,
    pub is_active: bool,
}

/// The model of `ContainerResultInfo`.
pub ghost struct ContainerResultView {
    pub operation: Seq<char>,
    pub container_name: Option<Seq<char>>,
    pub containers: Option<Seq<ContainerInfoView>>,
    pub message: Seq<char>,
}

/// The model of `ExecutionResult`.
pub ghost struct ResultView {
    pub data: DataView,
    pub message: Option<Seq<char>>,
}

/// The model of a payload. A record that a provider sampled stands for
/// itself; what the library builds is modelled by its characters.
pub ghost enum DataView {
    Cpu(CpuInfo),
    Memory(MemoryInfo),
    Disk(DiskInfo),
    Network(NetworkInfo),
    System(SystemInfo),
    Battery(BatteryInfo),
    Processes(Vec<ProcessInfo>),
    Files(Vec<FileEntry>),
    Content(ContentInfo),
    ActionResult(ActionResultView),
    ContextInfo(ContextInfoView),
    Explanation(Seq<char>),
    Message(Seq<char>),
    ContainerResult(ContainerResultView),
    Multiple(Seq<ResultView>),
    Empty,
}

impl ActionResult {
    pub open spec fn view(&self) -> ActionResultView {
        ActionResultView {
            action_type: self.action_type@,
            affected_count: self.affected_count as nat,
            dry_run: self.dry_run,
            details: texts_view(self.details),
        }
    }
}

/// The models of a list of name and value pairs, in order.
pub open spec fn pairs_view(pairs: Vec<(String, String)>) -> Seq<(Seq<char>, Seq<char>)> {
    Seq::new(pairs.len() as nat, |i: int| (pairs[i].0@, pairs[i].1@))
}

impl ContextInfo {
    pub open spec fn view(&self) -> ContextInfoView {
        ContextInfoView {
            current_folder: self.current_folder@,
            current_file: opt_text_view(self.current_file),
            folder_depth: self.folder_depth as nat,
            variables: pairs_view(self.variables),
            history: texts_view(self.history),
        }
    }
}

impl ContainerInfo {
    pub open spec fn view(&self) -> ContainerInfoView {
        ContainerInfoView {
            name: self.name@,
            allow_actions: self.allow_actions,
            readonly: self.readonly,
            is_active: self.is_active,
        }
    }
}

impl ContainerResultInfo {
    pub open spec fn view(&self) -> ContainerResultView {
        ContainerResultView {
            operation: self.operation@,
            container_name: opt_text_view(self.container_name),
            containers: match self.containers {
                Some(list) => Some(Seq::new(list.len() as nat, |i: int| list[i]@)),
                None => None,
            },
            message: self.message@,
        }
    }
}

/// The models of a list of outcomes, in order.
pub open spec fn results_view(results: Vec<ExecutionResult>) -> Seq<ResultView>
    decreases results,
{
    Seq::new(
        results.len() as nat,
        |i: int|
            if 0 <= i < results.len() {
                results[i].view()
            } else {
                arbitrary()
            },
    )
}

impl ExecutionResult {
    pub open spec fn view(&self) -> ResultView
        decreases self,
    {
        ResultView {
            data: match self.data {
                ResultData::Cpu(info) => DataView::Cpu(info),
                ResultData::Memory(info) => DataView::Memory(info),
                ResultData::Disk(info) => DataView::Disk(info),
                ResultData::Network(info) => DataView::Network(info),
                ResultData::System(info) => DataView::System(info),
                ResultData::Battery(info) => DataView::Battery(info),
                ResultData::Processes(list) => DataView::Processes(list),
                ResultData::Files(list) => DataView::Files(list),
                ResultData::Content(info) => DataView::Content(info),
                ResultData::ActionResult(info) => DataView::ActionResult(info@),
                ResultData::ContextInfo(info) => DataView::ContextInfo(info@),
                ResultData::Explanation(text) => DataView::Explanation(text@),
                ResultData::Message(text) => DataView::Message(text@),
                ResultData::ContainerResult(info) => DataView::ContainerResult(info@),
                ResultData::Multiple(results) => DataView::Multiple(results_view(results)),
                ResultData::Empty => DataView::Empty,
            },
            message: opt_text_view(self.message),
        }
    }
}

/// An outcome that holds a text and nothing else.
pub open spec fn message_result(text: Seq<char>) -> ResultView {
    ResultView { data: DataView::Message(text), message: None }
}

/// An outcome that holds a text and nothing else.
pub fn message(text: String) -> (r: ExecutionResult)
    ensures
        r@ == message_result(text@),
{
    ExecutionResult { data: ResultData::Message(text), message: None }
}

} // verus!
