use memwatch::history::HistoryPoint;
use memwatch::metrics::{
    chart_window_start, mean_percent, points_since, sort_processes, MetricsCollector, ProcessInfo,
};
use memwatch::settings::SortMode;

fn sample(pid: u32, name: &str, cpu: u64, mem: u64) -> ProcessInfo {
    ProcessInfo { pid, name: name.to_string(), cpu_percent: cpu, memory_bytes: mem }
}

#[test]
fn mean_of_no_cores_is_zero() {
    // A system reporting zero logical cores must not divide by zero.
    let loads: Vec<u64> = Vec::new();
    assert_eq!(mean_percent(&loads), 0);
}

#[test]
fn mean_is_the_truncated_average() {
    assert_eq!(mean_percent(&vec![10, 20, 30]), 20);
    assert_eq!(mean_percent(&vec![1, 2]), 1);
    assert_eq!(mean_percent(&vec![7]), 7);
    assert_eq!(mean_percent(&vec![0, 0, 0, 0]), 0);
    assert_eq!(mean_percent(&vec![u64::MAX, u64::MAX]), u64::MAX);
}

#[test]
fn sort_handles_empty_and_singleton() {
    let sorted = sort_processes(Vec::new(), SortMode::Memory);
    assert!(sorted.is_empty());

    let one = vec![sample(1, "a", 5, 100)];
    let sorted = sort_processes(one, SortMode::Memory);
    assert_eq!(sorted.len(), 1);
    assert_eq!(sorted[0].pid, 1);
}

#[test]
fn sort_by_memory_is_non_increasing() {
    let list = vec![
        sample(1, "low", 1, 10),
        sample(2, "high", 2, 5000),
        sample(3, "mid", 3, 700),
        sample(4, "zero", 4, 0),
        sample(5, "high2", 5, 5000),
    ];
    let sorted = sort_processes(list, SortMode::Memory);
    assert_eq!(sorted.len(), 5);
    for w in sorted.windows(2) {
        assert!(w[0].memory_bytes >= w[1].memory_bytes);
    }
    assert_eq!(sorted[0].memory_bytes, 5000);
    assert_eq!(sorted[4].memory_bytes, 0);
}

#[test]
fn sort_keeps_equal_memory_ties() {
    let list = vec![sample(1, "a", 0, 42), sample(2, "b", 0, 42), sample(3, "c", 0, 42)];
    let sorted = sort_processes(list, SortMode::Memory);
    assert_eq!(sorted.len(), 3);
    let mut pids: Vec<u32> = sorted.iter().map(|p| p.pid).collect();
    pids.sort();
    assert_eq!(pids, vec![1, 2, 3]);
    for w in sorted.windows(2) {
        assert!(w[0].memory_bytes >= w[1].memory_bytes);
    }
}

#[test]
fn sort_by_cpu_orders_on_the_cpu_column() {
    let list = vec![sample(1, "a", 10, 999), sample(2, "b", 90, 1), sample(3, "c", 50, 500)];
    let sorted = sort_processes(list, SortMode::Cpu);
    let cpus: Vec<u64> = sorted.iter().map(|p| p.cpu_percent).collect();
    assert_eq!(cpus, vec![90, 50, 10]);
}

#[test]
fn chart_window_start_never_precedes_origin() {
    assert_eq!(chart_window_start(10_000, 3_000), 7_000);
    assert_eq!(chart_window_start(3_000, 10_000), 0);
    assert_eq!(chart_window_start(0, 120_000), 0);
    assert_eq!(chart_window_start(120_000, 120_000), 0);
}

#[test]
fn points_since_keeps_exactly_the_window() {
    let h = vec![
        HistoryPoint { elapsed_ms: 0, value: 1 },
        HistoryPoint { elapsed_ms: 500, value: 2 },
        HistoryPoint { elapsed_ms: 1_000, value: 3 },
        HistoryPoint { elapsed_ms: 1_500, value: 4 },
    ];
    let kept = points_since(&h, 1_000);
    assert_eq!(kept.len(), 2);
    assert_eq!(kept[0].value, 3);
    assert_eq!(kept[1].value, 4);

    let all = points_since(&h, 0);
    assert_eq!(all.len(), 4);

    let none = points_since(&h, 2_000);
    assert!(none.is_empty());
}

#[test]
fn refresh_appends_one_point_per_history() {
    let mut collector = MetricsCollector::new();
    assert!(collector.get_cpu_history().is_empty());
    assert!(collector.get_memory_history().is_empty());

    collector.refresh();
    assert_eq!(collector.get_cpu_history().len(), 1);
    assert_eq!(collector.get_memory_history().len(), 1);

    collector.refresh();
    assert_eq!(collector.get_cpu_history().len(), 2);
    assert_eq!(collector.get_memory_history().len(), 2);

    let cpu = collector.get_cpu_history();
    let mem = collector.get_memory_history();
    assert!(cpu[0].elapsed_ms <= cpu[1].elapsed_ms);
    assert_eq!(cpu[0].elapsed_ms, mem[0].elapsed_ms);
    assert_eq!(cpu[1].elapsed_ms, mem[1].elapsed_ms);
}

#[test]
fn snapshot_is_sorted_by_memory_descending() {
    let mut collector = MetricsCollector::new();
    collector.refresh();
    let processes = collector.get_processes();
    for w in processes.windows(2) {
        assert!(w[0].memory_bytes >= w[1].memory_bytes);
    }
    // A live system reports some installed memory.
    assert!(collector.get_total_memory_bytes() > 0);
}
