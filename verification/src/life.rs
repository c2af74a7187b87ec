//! Live monitoring: what of a sample counts as a change, and the monitor
//! that fires on a change and otherwise stays quiet.

use vstd::prelude::*;
use vstd::string::StringExecFns;
use crate::error::{ArtaError, ErrorView};
use crate::ast::{LifeTarget, QueryTarget};
use crate::number::Number;
use crate::policy::ExecutionContext;
use crate::results::{NetworkInterface, ResultData};
use crate::bridge::{lowercase, to_lowercase};
use crate::text::{chars_contain, chars_of, contains};

verus! {

/// What of a sampled resource matters for change detection.
#[derive(Debug, Clone, Copy, PartialEq, Eq, Structural)]
pub enum MonitorState {
    Battery { percentage: Number, charging: bool },
    Memory { used: u64, total: u64 },
    Cpu { usage: Number },
    Disk { used: u64, total: u64 },
    Network { bytes_sent: u128, bytes_recv: u128 },
    Processes { count: usize },
}

/// How far two byte counts are apart.
pub open spec fn byte_gap(a: u64, b: u64) -> nat {
    if a >= b {
        (a - b) as nat
    } else {
        (b - a) as nat
    }
}

impl MonitorState {
    /// Whether this sample differs materially from the `previous` one.
    ///
    /// A battery changes with a percentage that moved by a whole point or
    /// more, or with the charging flag; a processor with a load that moved by
    /// a whole point or more; memory and disks with used bytes that moved by
    /// more than one percent of what was used before; the network with any
    /// counter; the processes with their number. Samples of different
    /// resources always differ.
    pub open spec fn changed_from(self, previous: MonitorState) -> bool {
        match (self, previous) {
            (
                MonitorState::Battery { percentage: p1, charging: c1 },
                MonitorState::Battery { percentage: p2, charging: c2 },
            ) => c1 != c2 || p1.gap(p2) >= 1_000_000,
            (MonitorState::Memory { used: u1, .. }, MonitorState::Memory { used: u2, .. }) => byte_gap(
                u1,
                u2,
            ) > u2 / 100,
            (MonitorState::Cpu { usage: u1 }, MonitorState::Cpu { usage: u2 }) => u1.gap(u2)
                >= 1_000_000,
            (MonitorState::Disk { used: u1, .. }, MonitorState::Disk { used: u2, .. }) => byte_gap(
                u1,
                u2,
            ) > u2 / 100,
            (
                MonitorState::Network { bytes_sent: s1, bytes_recv: r1 },
                MonitorState::Network { bytes_sent: s2, bytes_recv: r2 },
            ) => s1 != s2 || r1 != r2,
            (MonitorState::Processes { count: c1 }, MonitorState::Processes { count: c2 }) => c1
                != c2,
            _ => true,
        }
    }

    /// Whether this sample differs materially from the `previous` one.
    pub fn has_changed(&self, previous: &MonitorState) -> (r: bool)
        ensures
            r == self.changed_from(*previous),
    {
        match (*self, *previous) {
            (
                MonitorState::Battery { percentage: p1, charging: c1 },
                MonitorState::Battery { percentage: p2, charging: c2 },
            ) => c1 != c2 || p1.distance(&p2) >= 1_000_000,
            (MonitorState::Memory { used: u1, .. }, MonitorState::Memory { used: u2, .. }) => {
                let diff = if u1 > u2 {
                    u1 - u2
                } else {
                    u2 - u1
                };
                diff > u2 / 100
            },
            (MonitorState::Cpu { usage: u1 }, MonitorState::Cpu { usage: u2 }) => u1.distance(&u2)
                >= 1_000_000,
            (MonitorState::Disk { used: u1, .. }, MonitorState::Disk { used: u2, .. }) => {
                let diff = if u1 > u2 {
                    u1 - u2
                } else {
                    u2 - u1
                };
                diff > u2 / 100
            },
            (
                MonitorState::Network { bytes_sent: s1, bytes_recv: r1 },
                MonitorState::Network { bytes_sent: s2, bytes_recv: r2 },
            ) => s1 != s2 || r1 != r2,
            (MonitorState::Processes { count: c1 }, MonitorState::Processes { count: c2 }) => c1
                != c2,
            _ => true,
        }
    }
}

/// A battery whose percentage moved by less than a point, with the charging
/// flag as it was, has not changed; one whose percentage moved by a point or
/// more has; and one whose charging flag flipped has, whatever the
/// percentage.
pub proof fn lemma_battery_change(p1: Number, c1: bool, p2: Number, c2: bool)
    ensures
        c1 != c2 ==> (MonitorState::Battery { percentage: p1, charging: c1 }).changed_from(
            MonitorState::Battery { percentage: p2, charging: c2 },
        ),
        c1 == c2 ==> ((MonitorState::Battery { percentage: p1, charging: c1 }).changed_from(
            MonitorState::Battery { percentage: p2, charging: c2 },
        ) <==> p1.gap(p2) >= 1_000_000),
{
}

/// The sum of the sent bytes of the first `count` interfaces.
pub open spec fn sent_total(interfaces: Seq<NetworkInterface>, count: nat) -> nat
    decreases count,
{
    if count == 0 || count > interfaces.len() {
        0
    } else {
        sent_total(interfaces, (count - 1) as nat) + interfaces[count - 1].transmitted as nat
    }
}

/// The sum of the received bytes of the first `count` interfaces.
pub open spec fn received_total(interfaces: Seq<NetworkInterface>, count: nat) -> nat
    decreases count,
{
    if count == 0 || count > interfaces.len() {
        0
    } else {
        received_total(interfaces, (count - 1) as nat) + interfaces[count - 1].received as nat
    }
}

/// The query that samples a monitored resource.
pub open spec fn sampled_by(target: LifeTarget) -> QueryTarget {
    match target {
        LifeTarget::Battery => QueryTarget::Battery,
        LifeTarget::Memory => QueryTarget::Memory,
        LifeTarget::Cpu => QueryTarget::Cpu,
        LifeTarget::Disk => QueryTarget::Disk,
        LifeTarget::Network => QueryTarget::Network,
        LifeTarget::Processes => QueryTarget::Process,
    }
}

/// Whether the state of a battery, in lower case, says that it is
/// charging.
pub open spec fn says_charging(lowered: Seq<char>) -> bool {
    contains(lowered, "charging"@)
}

/// What of a sample matters for the monitoring of `target`, or `None` where
/// the sample is of another resource.
///
/// A machine without a battery counts as full and not charging, one without
/// a disk as empty. Of several batteries or disks the first counts.
pub open spec fn state_of_sample(target: LifeTarget, sample: ResultData) -> Option<MonitorState> {
    match (target, sample) {
        (LifeTarget::Battery, ResultData::Battery(info)) => Some(
            if info.batteries.len() > 0 {
                MonitorState::Battery {
                    percentage: info.batteries[0].percentage,
                    charging: says_charging(lowercase(info.batteries[0].state@)),
                }
            } else {
                MonitorState::Battery {
                    percentage: Number { micros: 100_000_000 },
                    charging: false,
                }
            },
        ),
        (LifeTarget::Memory, ResultData::Memory(info)) => Some(
            MonitorState::Memory { used: info.used, total: info.total },
        ),
        (LifeTarget::Cpu, ResultData::Cpu(info)) => Some(MonitorState::Cpu { usage: info.usage }),
        (LifeTarget::Disk, ResultData::Disk(info)) => Some(
            if info.disks.len() > 0 {
                MonitorState::Disk { used: info.disks[0].used, total: info.disks[0].total }
            } else {
                MonitorState::Disk { used: 0, total: 0 }
            },
        ),
        (LifeTarget::Network, ResultData::Network(info)) => Some(
            MonitorState::Network {
                bytes_sent: sent_total(info.interfaces@, info.interfaces.len() as nat) as u128,
                bytes_recv: received_total(info.interfaces@, info.interfaces.len() as nat) as u128,
            },
        ),
        (LifeTarget::Processes, ResultData::Processes(list)) => Some(
            MonitorState::Processes { count: list.len() },
        ),
        _ => None,
    }
}

/// Whether the state of a battery, in lower case, says that it is
/// charging.
pub fn is_charging(lowered: &str) -> (r: bool)
    ensures
        r == says_charging(lowered@),
{
    chars_contain(&chars_of(lowered), &chars_of("charging"))
}

/// What of `sample` matters for the monitoring of `target`.
pub fn sample_state(target: LifeTarget, sample: &ResultData) -> (r: Option<MonitorState>)
    ensures
        r == state_of_sample(target, *sample),
{
    match (target, sample) {
        (LifeTarget::Battery, ResultData::Battery(info)) => Some(
            if info.batteries.len() > 0 {
                let state = to_lowercase(info.batteries[0].state.as_str());
                MonitorState::Battery {
                    percentage: info.batteries[0].percentage,
                    charging: is_charging(state.as_str()),
                }
            } else {
                MonitorState::Battery {
                    percentage: Number { micros: 100_000_000 },
                    charging: false,
                }
            },
        ),
        (LifeTarget::Memory, ResultData::Memory(info)) => Some(
            MonitorState::Memory { used: info.used, total: info.total },
        ),
        (LifeTarget::Cpu, ResultData::Cpu(info)) => Some(
            MonitorState::Cpu { usage: info.usage },
        ),
        (LifeTarget::Disk, ResultData::Disk(info)) => Some(
            if info.disks.len() > 0 {
                MonitorState::Disk { used: info.disks[0].used, total: info.disks[0].total }
            } else {
                MonitorState::Disk { used: 0, total: 0 }
            },
        ),
        (LifeTarget::Network, ResultData::Network(info)) => {
            let mut sent: u128 = 0;
            let mut received: u128 = 0;
            let mut i: usize = 0;
            while i < info.interfaces.len()
                invariant
                    i <= info.interfaces.len(),
                    sent == sent_total(info.interfaces@, i as nat),
                    received == received_total(info.interfaces@, i as nat),
                    sent <= i * 0xffff_ffff_ffff_ffff,
                    received <= i * 0xffff_ffff_ffff_ffff,
                decreases info.interfaces.len() - i,
            {
                sent = sent + info.interfaces[i].transmitted as u128;
                received = received + info.interfaces[i].received as u128;
                i = i + 1;
            }
            Some(MonitorState::Network { bytes_sent: sent, bytes_recv: received })
        },
        (LifeTarget::Processes, ResultData::Processes(list)) => Some(
            MonitorState::Processes { count: list.len() },
        ),
        _ => None,
    }
}

/// The query that samples a monitored resource.
pub fn sample_target(target: LifeTarget) -> (r: QueryTarget)
    ensures
        r == sampled_by(target),
{
    match target {
        LifeTarget::Battery => QueryTarget::Battery,
        LifeTarget::Memory => QueryTarget::Memory,
        LifeTarget::Cpu => QueryTarget::Cpu,
        LifeTarget::Disk => QueryTarget::Disk,
        LifeTarget::Network => QueryTarget::Network,
        LifeTarget::Processes => QueryTarget::Process,
    }
}

/// Whether a monitor fires on `sample` where `last` is the sample that came
/// right before it: on the first sample, and on a sample that differs
/// materially from the one before.
pub fn fires(last: &Option<MonitorState>, sample: &MonitorState) -> (r: bool)
    ensures
        r == should_fire(*last, *sample),
{
    match last {
        None => true,
        Some(previous) => sample.has_changed(previous),
    }
}

/// The resource that a name stands for, in either case.
pub open spec fn target_named(name: Seq<char>) -> Option<LifeTarget> {
    target_by(lowercase(name))
}

/// The resource that a name in lower case stands for.
pub open spec fn target_by(l: Seq<char>) -> Option<LifeTarget> {
    if l == "battery"@ {
        Some(LifeTarget::Battery)
    } else if l == "memory"@ {
        Some(LifeTarget::Memory)
    } else if l == "cpu"@ {
        Some(LifeTarget::Cpu)
    } else if l == "disk"@ {
        Some(LifeTarget::Disk)
    } else if l == "network"@ {
        Some(LifeTarget::Network)
    } else if l == "processes"@ {
        Some(LifeTarget::Processes)
    } else {
        None
    }
}

fn named(name: &Vec<char>, word: &str) -> (r: bool)
    ensures
        r == (name@ == word@),
{
    crate::text::chars_eq(name, &chars_of(word))
}

/// Finds the resource that a name stands for: `battery`, `memory`, `cpu`,
/// `disk`, `network` or `processes`, in either case.
pub fn monitor_target(name: &str) -> (r: Result<LifeTarget, ArtaError>)
    ensures
        match target_named(name@) {
            Some(target) => r == Ok::<LifeTarget, ArtaError>(target),
            None => r is Err && r->Err_0@ == ErrorView::InvalidTarget(name@),
        },
{
    let lowered = to_lowercase(name);
    match lowered_target(lowered.as_str()) {
        Some(target) => Ok(target),
        None => Err(ArtaError::InvalidTarget(String::from_str(name))),
    }
}

/// Finds the resource that a name in lower case stands for.
pub fn lowered_target(lowered: &str) -> (r: Option<LifeTarget>)
    ensures
        r == target_by(lowered@),
{
    let l = chars_of(lowered);
    if named(&l, "battery") {
        Some(LifeTarget::Battery)
    } else if named(&l, "memory") {
        Some(LifeTarget::Memory)
    } else if named(&l, "cpu") {
        Some(LifeTarget::Cpu)
    } else if named(&l, "disk") {
        Some(LifeTarget::Disk)
    } else if named(&l, "network") {
        Some(LifeTarget::Network)
    } else if named(&l, "processes") {
        Some(LifeTarget::Processes)
    } else {
        None
    }
}

/// The monitor of one resource. It is idle until started; while it samples
/// it remembers the sample that came last, and no other.
#[derive(Debug)]
pub struct LiveMonitor {
    target: LifeTarget,
    interval_secs: u64,
    running: bool,
    last: Option<MonitorState>,
}

impl LiveMonitor {
    /// The monitored resource.
    pub closed spec fn target_spec(&self) -> LifeTarget {
        self.target
    }

    /// The seconds between two samples.
    pub closed spec fn interval_spec(&self) -> u64 {
        self.interval_secs
    }

    /// Whether the monitor samples.
    pub closed spec fn running(&self) -> bool {
        self.running
    }

    /// The sample that came last.
    pub closed spec fn last(&self) -> Option<MonitorState> {
        self.last
    }

    /// An idle monitor of `target` that is to sample every `interval_secs`
    /// seconds.
    pub fn new(target: LifeTarget, interval_secs: u64, _exec_ctx: ExecutionContext) -> (r: Self)
        ensures
            r.target_spec() == target,
            r.interval_spec() == interval_secs,
            !r.running(),
            r.last() is None,
    {
        LiveMonitor { target, interval_secs, running: false, last: None }
    }

    /// Begins to sample. The next sample fires in any case.
    pub fn start(&mut self)
        ensures
            final(self).running(),
            final(self).last() is None,
            final(self).target_spec() == old(self).target_spec(),
            final(self).interval_spec() == old(self).interval_spec(),
    {
        self.running = true;
        self.last = None;
    }

    /// Goes idle.
    pub fn stop(&mut self)
        ensures
            !final(self).running(),
            final(self).last() == old(self).last(),
            final(self).target_spec() == old(self).target_spec(),
            final(self).interval_spec() == old(self).interval_spec(),
    {
        self.running = false;
    }

    /// Whether the monitor samples.
    pub fn is_running(&self) -> (r: bool)
        ensures
            r == self.running(),
    {
        self.running
    }

    /// The monitored resource.
    pub fn target(&self) -> (r: LifeTarget)
        ensures
            r == self.target_spec(),
    {
        self.target
    }

    /// How many seconds to wait between two samples.
    pub fn interval_secs(&self) -> (r: u64)
        ensures
            r == self.interval_spec(),
    {
        self.interval_secs
    }

    /// The query that samples the monitored resource.
    pub fn sample_target(&self) -> (r: QueryTarget)
        ensures
            r == sampled_by(self.target_spec()),
    {
        match self.target {
            LifeTarget::Battery => QueryTarget::Battery,
            LifeTarget::Memory => QueryTarget::Memory,
            LifeTarget::Cpu => QueryTarget::Cpu,
            LifeTarget::Disk => QueryTarget::Disk,
            LifeTarget::Network => QueryTarget::Network,
            LifeTarget::Processes => QueryTarget::Process,
        }
    }

    /// What of `sample` matters for this monitor.
    pub fn get_current_state(&self, sample: &ResultData) -> (r: Option<MonitorState>)
        ensures
            r == state_of_sample(self.target_spec(), *sample),
    {
        sample_state(self.target, sample)
    }

    /// Takes a sample and says whether the monitor fires on it: on the first
    /// sample since the start, and on every sample that differs materially
    /// from the one right before it. The sample becomes the one to compare
    /// the next with, whether or not the monitor fires.
    pub fn observe(&mut self, sample: MonitorState) -> (fires: bool)
        ensures
            fires == should_fire(old(self).last(), sample),
            final(self).last() == Some(sample),
            final(self).running() == old(self).running(),
            final(self).target_spec() == old(self).target_spec(),
            final(self).interval_spec() == old(self).interval_spec(),
    {
        let fires = match &self.last {
            None => true,
            Some(previous) => sample.has_changed(previous),
        };
        self.last = Some(sample);
        fires
    }
}

/// Whether a monitor fires on `sample` where `last` is the sample that came
/// right before it: on the first sample, and on a sample that differs
/// materially from the one before.
pub open spec fn should_fire(last: Option<MonitorState>, sample: MonitorState) -> bool {
    match last {
        None => true,
        Some(previous) => sample.changed_from(previous),
    }
}

/// What a monitor that held `last` holds after it took `samples` in order.
pub open spec fn held_after(last: Option<MonitorState>, samples: Seq<MonitorState>) -> Option<
    MonitorState,
> {
    if samples.len() == 0 {
        last
    } else {
        Some(samples.last())
    }
}

/// Whether a monitor that was started and then took `samples` in order
/// fired on the sample at `i`.
pub open spec fn fired_at(samples: Seq<MonitorState>, i: int) -> bool {
    should_fire(held_after(None, samples.take(i)), samples[i])
}

/// A started monitor fires on its first sample, and on a later one exactly
/// where it differs materially from the sample right before it, whether or
/// not the monitor fired on that one.
pub proof fn lemma_compared_with_the_sample_before(samples: Seq<MonitorState>, i: int)
    requires
        0 <= i < samples.len(),
    ensures
        fired_at(samples, i) == (i == 0 || samples[i].changed_from(samples[i - 1])),
{
    if i > 0 {
        assert(samples.take(i).last() == samples[i - 1]);
    }
}

/// CPU samples that each lie less than one point from the one before never
/// fire after the first, however far they drift together.
pub proof fn lemma_slow_drift_is_silent(samples: Seq<MonitorState>, i: int)
    requires
        0 < i < samples.len(),
        samples[i - 1] is Cpu,
        samples[i] is Cpu,
        samples[i]->Cpu_usage.micros - samples[i - 1]->Cpu_usage.micros < 1_000_000,
        samples[i - 1]->Cpu_usage.micros - samples[i]->Cpu_usage.micros < 1_000_000,
    ensures
        !fired_at(samples, i),
{
    lemma_compared_with_the_sample_before(samples, i);
}

} // verus!
