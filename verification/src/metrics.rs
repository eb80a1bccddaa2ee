//! Live sampling of system and per-process resource usage.
//!
//! The collector owns a refreshable OS handle; each `refresh` re-reads the
//! live figures, averages the per-core CPU utilisation, and appends one
//! point to each of two bounded histories (CPU, used memory). The process
//! snapshot is handed out sorted by resident memory, descending.
//!
//! Quantities are integers: CPU in whole percent, memory in bytes, time
//! in milliseconds since the collector was built.

use vstd::prelude::*;
use crate::history::{HistoryPoint, HISTORY_CAP, bounded_push, chronological, history_push,
    lemma_history_chronological};
use crate::settings::SortMode;

verus! {

broadcast use vstd::seq_lib::group_to_multiset_ensures, vstd::seq::Seq::lemma_filter_push;

/// One process's instantaneous state, re-created wholesale on every
/// refresh; only the pid value ties samples across refreshes.
#[derive(Debug, PartialEq)]
pub struct ProcessInfo {
    pub pid: u32,
    /// Best-effort decoded display name; a decode problem never fails a
    /// refresh.
    pub name: String,
    /// CPU since the previous refresh, in whole percent, truncated; may
    /// exceed 100 on multi-core saturation.
    pub cpu_percent: u64,
    /// Resident memory in bytes.
    pub memory_bytes: u64,
}

impl Clone for ProcessInfo {
    /// An identical sample.
    fn clone(&self) -> (r: Self)
        ensures
            r == *self,
    {
        ProcessInfo {
            pid: self.pid,
            name: self.name.clone(),
            cpu_percent: self.cpu_percent,
            memory_bytes: self.memory_bytes,
        }
    }
}

#[verifier::external_type_specification]
#[verifier::external_body]
pub struct ExSystem(sysinfo::System);

#[verifier::external_type_specification]
#[verifier::external_body]
pub struct ExInstant(std::time::Instant);

pub assume_specification[ std::time::Instant::now ]() -> std::time::Instant;

pub assume_specification[ std::time::Instant::elapsed ](start: &std::time::Instant)
    -> core::time::Duration;

pub assume_specification[ core::time::Duration::as_millis ](d: &core::time::Duration) -> u128;

/// Relies on sysinfo::System::new_all: a handle on the OS process, CPU and
/// memory tables, fully populated once.
#[verifier::external_body]
fn system_new_all() -> sysinfo::System {
    sysinfo::System::new_all()
}

/// Relies on sysinfo::System::refresh_all: re-reads every figure the
/// handle carries.
#[verifier::external_body]
fn system_refresh_all(sys: &mut sysinfo::System) {
    sys.refresh_all();
}

/// Relies on sysinfo::System::refresh_processes_specifics: re-reads CPU
/// and memory figures of every live process, dropping dead ones.
#[verifier::external_body]
fn refresh_process_metrics(sys: &mut sysinfo::System) {
    sys.refresh_processes_specifics(
        sysinfo::ProcessesToUpdate::All,
        true,
        sysinfo::ProcessRefreshKind::new().with_cpu().with_memory(),
    );
}

/// Relies on sysinfo::System::refresh_cpu_all: re-reads per-core
/// utilisation.
#[verifier::external_body]
fn refresh_cpu_readings(sys: &mut sysinfo::System) {
    sys.refresh_cpu_all();
}

/// Relies on sysinfo::System::refresh_memory: re-reads the memory totals.
#[verifier::external_body]
fn refresh_memory_readings(sys: &mut sysinfo::System) {
    sys.refresh_memory();
}

/// Relies on sysinfo::System::cpus and sysinfo::Cpu::cpu_usage: one entry
/// per logical core, the core's utilisation since the previous refresh,
/// truncated to whole percent. The machine decides the values; nothing is
/// promised of them.
#[verifier::external_body]
fn core_loads_percent(sys: &sysinfo::System) -> Vec<u64> {
    sys.cpus().iter().map(|c| c.cpu_usage() as u64).collect()
}

/// Relies on sysinfo::System::used_memory: RAM in use, in bytes.
#[verifier::external_body]
fn used_memory_bytes(sys: &sysinfo::System) -> u64 {
    sys.used_memory()
}

/// Relies on sysinfo::System::total_memory: installed RAM, in bytes.
#[verifier::external_body]
fn total_memory_bytes(sys: &sysinfo::System) -> u64 {
    sys.total_memory()
}

/// Relies on sysinfo::System::processes and the accessors
/// sysinfo::Pid::as_u32, sysinfo::Process::name (decoded best-effort),
/// sysinfo::Process::cpu_usage (truncated to whole percent) and
/// sysinfo::Process::memory (bytes): the live process table, one sample
/// per process, in no promised order.
#[verifier::external_body]
fn snapshot_processes(sys: &sysinfo::System) -> Vec<ProcessInfo> {
    sys.processes()
        .iter()
        .map(|(pid, p)| ProcessInfo {
            pid: pid.as_u32(),
            name: p.name().to_string_lossy().to_string(),
            cpu_percent: p.cpu_usage() as u64,
            memory_bytes: p.memory(),
        })
        .collect()
}

/// Sum of a sequence of core loads.
pub open spec fn sum_of(s: Seq<u64>) -> int
    decreases s.len(),
{
    if s.len() == 0 {
        0
    } else {
        sum_of(s.drop_last()) + s.last()
    }
}

/// Arithmetic mean of the per-core loads, truncated; zero cores mean zero
/// utilisation — never a division fault.
pub fn mean_percent(loads: &Vec<u64>) -> (r: u64)
    ensures
        loads@.len() == 0 ==> r == 0,
        loads@.len() > 0 ==> r == sum_of(loads@) / (loads@.len() as int),
{
    let n: usize = loads.len();
    if n == 0 {
        return 0;
    }
    let mut sum: u128 = 0;
    let mut k: usize = 0;
    while k < n
        invariant
            k <= n,
            n == loads@.len(),
            sum == sum_of(loads@.subrange(0, k as int)),
            sum <= (k as int) * (u64::MAX as int),
        decreases n - k,
    {
        proof {
            assert(loads@.subrange(0, k as int + 1).drop_last() =~= loads@.subrange(0, k as int));
            vstd::arithmetic::mul::lemma_mul_inequality(
                k as int + 1,
                n as int,
                u64::MAX as int,
            );
            vstd::arithmetic::mul::lemma_mul_inequality(
                n as int,
                0x1_0000_0000_0000_0000,
                u64::MAX as int,
            );
        }
        sum = sum + (loads[k] as u128);
        k = k + 1;
    }
    proof {
        assert(loads@.subrange(0, n as int) =~= loads@);
        vstd::arithmetic::div_mod::lemma_div_is_ordered(
            sum as int,
            (n as int) * (u64::MAX as int),
            n as int,
        );
        vstd::arithmetic::div_mod::lemma_div_multiples_vanish(u64::MAX as int, n as int);
    }
    (sum / (n as u128)) as u64
}

/// The column a sort mode orders by.
pub open spec fn sort_key(p: ProcessInfo, mode: SortMode) -> u64 {
    match mode {
        SortMode::Memory => p.memory_bytes,
        SortMode::Cpu => p.cpu_percent,
    }
}

/// Non-increasing in the mode's column from first to last.
pub open spec fn sorted_desc(s: Seq<ProcessInfo>, mode: SortMode) -> bool {
    forall|i: int, j: int| 0 <= i <= j < s.len() ==> sort_key(s[i], mode) >= sort_key(s[j], mode)
}

fn key_of(p: &ProcessInfo, mode: SortMode) -> (k: u64)
    ensures
        k == sort_key(*p, mode),
{
    match mode {
        SortMode::Memory => p.memory_bytes,
        SortMode::Cpu => p.cpu_percent,
    }
}

/// Sort a snapshot by the mode's column, descending: the same samples, in
/// non-increasing order.
pub fn sort_processes(list: Vec<ProcessInfo>, mode: SortMode) -> (r: Vec<ProcessInfo>)
    ensures
        sorted_desc(r@, mode),
        r@.to_multiset() == list@.to_multiset(),
        r@.len() == list@.len(),
{
    let mut v = list;
    let ghost orig = v@;
    let n: usize = v.len();
    let mut i: usize = 1;
    while i < n
        invariant
            v@.len() == n,
            n == orig.len(),
            v@.to_multiset() == orig.to_multiset(),
            1 <= i,
            n == 0 || i <= n,
            forall|a: int, b: int| 0 <= a <= b < i && b < n ==> sort_key(v@[a], mode)
                >= sort_key(v@[b], mode),
        decreases n - i,
    {
        let mut j: usize = i;
        loop
            invariant
                j <= i < n,
                v@.len() == n,
                v@.to_multiset() == orig.to_multiset(),
                forall|a: int, b: int| 0 <= a <= b <= i && a != j && b != j ==> sort_key(
                    v@[a],
                    mode,
                ) >= sort_key(v@[b], mode),
                forall|b: int| j < b <= i ==> sort_key(v@[j as int], mode) >= sort_key(
                    v@[b],
                    mode,
                ),
            ensures
                j <= i < n,
                v@.len() == n,
                v@.to_multiset() == orig.to_multiset(),
                forall|a: int, b: int| 0 <= a <= b <= i && a != j && b != j ==> sort_key(
                    v@[a],
                    mode,
                ) >= sort_key(v@[b], mode),
                forall|b: int| j < b <= i ==> sort_key(v@[j as int], mode) >= sort_key(
                    v@[b],
                    mode,
                ),
                j == 0 || sort_key(v@[j as int - 1], mode) >= sort_key(v@[j as int], mode),
            decreases j,
        {
            if j == 0 {
                break;
            }
            let kprev: u64 = key_of(&v[j - 1], mode);
            let kcur: u64 = key_of(&v[j], mode);
            if kprev >= kcur {
                break;
            }
            let ghost before = v@;
            let moved = v.remove(j);
            v.insert(j - 1, moved);
            proof {
                assert(v@ =~= before.update(j as int, before[j as int - 1]).update(
                    j as int - 1,
                    before[j as int],
                ));
                assert(before[j as int] == moved);
                assert(before.to_multiset().count(moved) > 0);
                assert(v@.to_multiset() =~= before.to_multiset());
            }
            j = j - 1;
        }
        proof {
            assert forall|a: int, b: int| 0 <= a <= b <= i implies sort_key(v@[a], mode)
                >= sort_key(v@[b], mode) by {
                if a != j && b != j {
                } else if b == j as int && a < b {
                    assert(sort_key(v@[j as int - 1], mode) >= sort_key(v@[j as int], mode));
                    if a < j as int - 1 {
                        assert(sort_key(v@[a], mode) >= sort_key(v@[j as int - 1], mode));
                    }
                }
            }
        }
        i = i + 1;
    }
    v
}

/// The collector: the OS handle, the construction instant, and the two
/// bounded histories.
pub struct MetricsCollector {
    system: sysinfo::System,
    start: std::time::Instant,
    cpu_history: Vec<HistoryPoint>,
    memory_history: Vec<HistoryPoint>,
}

impl MetricsCollector {
    /// The CPU history, oldest first.
    pub closed spec fn cpu_hist(self) -> Seq<HistoryPoint> {
        self.cpu_history@
    }

    /// The used-memory history, oldest first.
    pub closed spec fn mem_hist(self) -> Seq<HistoryPoint> {
        self.memory_history@
    }

    /// Well-formedness: both histories within the capacity, chronological,
    /// of equal length, and sampled at the same instants.
    pub open spec fn wf(self) -> bool {
        &&& self.cpu_hist().len() <= HISTORY_CAP
        &&& self.mem_hist().len() <= HISTORY_CAP
        &&& chronological(self.cpu_hist())
        &&& chronological(self.mem_hist())
        &&& self.cpu_hist().len() == self.mem_hist().len()
        &&& forall|k: int| 0 <= k < self.cpu_hist().len() ==> self.cpu_hist()[k].elapsed_ms
            == self.mem_hist()[k].elapsed_ms
    }

    /// A fresh collector over a fully populated OS handle, with empty
    /// histories.
    pub fn new() -> (r: MetricsCollector)
        ensures
            r.wf(),
            r.cpu_hist().len() == 0,
            r.mem_hist().len() == 0,
    {
        let mut system = system_new_all();
        system_refresh_all(&mut system);
        MetricsCollector {
            system,
            start: std::time::Instant::now(),
            cpu_history: Vec::new(),
            memory_history: Vec::new(),
        }
    }

    /// Milliseconds since construction, saturating; the clamp against the
    /// last recorded point keeps the histories chronological whatever the
    /// clock reports.
    fn next_timestamp(&self) -> (t: u64)
        ensures
            self.cpu_hist().len() > 0 ==> t >= self.cpu_hist().last().elapsed_ms,
    {
        let d = self.start.elapsed();
        let ms: u128 = d.as_millis();
        let raw: u64 = if ms > u64::MAX as u128 {
            u64::MAX
        } else {
            ms as u64
        };
        let len: usize = self.cpu_history.len();
        if len > 0 {
            let last: u64 = self.cpu_history[len - 1].elapsed_ms;
            if raw < last {
                last
            } else {
                raw
            }
        } else {
            raw
        }
    }

    /// Re-read every live figure and append one point to each history:
    /// the mean per-core CPU utilisation and the used memory, both at the
    /// same timestamp, no older than the previous point; each history
    /// keeps at most `HISTORY_CAP` points, evicting its oldest.
    pub fn refresh(&mut self)
        requires
            old(self).wf(),
        ensures
            final(self).wf(),
            final(self).cpu_hist() == bounded_push(
                old(self).cpu_hist(),
                final(self).cpu_hist().last(),
            ),
            final(self).mem_hist() == bounded_push(
                old(self).mem_hist(),
                final(self).mem_hist().last(),
            ),
            final(self).cpu_hist().last().elapsed_ms == final(self).mem_hist().last().elapsed_ms,
            old(self).cpu_hist().len() > 0 ==> final(self).cpu_hist().last().elapsed_ms >= old(
                self,
            ).cpu_hist().last().elapsed_ms,
    {
        refresh_process_metrics(&mut self.system);
        refresh_cpu_readings(&mut self.system);
        refresh_memory_readings(&mut self.system);

        let t: u64 = self.next_timestamp();

        let loads = core_loads_percent(&self.system);
        let cpu_value: u64 = mean_percent(&loads);
        let used: u64 = used_memory_bytes(&self.system);

        proof {
            lemma_history_chronological(
                self.cpu_hist(),
                HistoryPoint { elapsed_ms: t, value: cpu_value },
            );
            lemma_history_chronological(
                self.mem_hist(),
                HistoryPoint { elapsed_ms: t, value: used },
            );
        }
        history_push(&mut self.cpu_history, HistoryPoint { elapsed_ms: t, value: cpu_value });
        history_push(&mut self.memory_history, HistoryPoint { elapsed_ms: t, value: used });
    }

    /// Every currently known process, sorted by resident memory,
    /// descending — the canonical order of the snapshot.
    pub fn get_processes(&self) -> (r: Vec<ProcessInfo>)
        ensures
            sorted_desc(r@, SortMode::Memory),
    {
        sort_processes(snapshot_processes(&self.system), SortMode::Memory)
    }

    /// Read-only view of the CPU history, oldest first.
    pub fn get_cpu_history(&self) -> (r: &Vec<HistoryPoint>)
        ensures
            r@ == self.cpu_hist(),
    {
        &self.cpu_history
    }

    /// Read-only view of the used-memory history, oldest first.
    pub fn get_memory_history(&self) -> (r: &Vec<HistoryPoint>)
        ensures
            r@ == self.mem_hist(),
    {
        &self.memory_history
    }

    /// Installed memory in bytes, as the OS reports it.
    pub fn get_total_memory_bytes(&self) -> u64 {
        total_memory_bytes(&self.system)
    }
}

/// Law: a well-formed collector — as `new` builds it and every `refresh`
/// leaves it — holds at most `HISTORY_CAP` points in either history,
/// however many refreshes have run.
pub proof fn lemma_collector_history_bound(c: MetricsCollector)
    requires
        c.wf(),
    ensures
        c.cpu_hist().len() <= HISTORY_CAP,
        c.mem_hist().len() <= HISTORY_CAP,
{
}

/// Points at or after this timestamp belong to the chart window.
pub open spec fn at_or_after(start_ms: u64) -> spec_fn(HistoryPoint) -> bool {
    |p: HistoryPoint| p.elapsed_ms >= start_ms
}

/// Where a chart window of `window_ms` ending at `latest_ms` begins, never
/// before the origin.
pub fn chart_window_start(latest_ms: u64, window_ms: u64) -> (r: u64)
    ensures
        r == if latest_ms > window_ms {
            latest_ms - window_ms
        } else {
            0
        },
{
    if latest_ms > window_ms {
        latest_ms - window_ms
    } else {
        0
    }
}

/// The points of a history that fall inside the chart window: exactly
/// those at or after `start_ms`, in their original order.
pub fn points_since(h: &Vec<HistoryPoint>, start_ms: u64) -> (r: Vec<HistoryPoint>)
    ensures
        r@ == h@.filter(at_or_after(start_ms)),
{
    let mut out: Vec<HistoryPoint> = Vec::new();
    let mut k: usize = 0;
    while k < h.len()
        invariant
            k <= h@.len(),
            out@ == h@.subrange(0, k as int).filter(at_or_after(start_ms)),
        decreases h@.len() - k,
    {
        let p: HistoryPoint = h[k];
        if p.elapsed_ms >= start_ms {
            out.push(p);
        }
        k = k + 1;
        proof {
            assert(h@.subrange(0, k as int) =~= h@.subrange(0, k as int - 1).push(
                h@[k as int - 1],
            ));
        }
    }
    proof {
        assert(h@.subrange(0, h@.len() as int) =~= h@);
    }
    out
}

} // verus!
