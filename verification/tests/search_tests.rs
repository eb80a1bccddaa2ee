use memwatch::metrics::ProcessInfo;
use memwatch::search::{filter_processes, process_matches, u32_to_decimal};

fn sample(pid: u32, name: &str) -> ProcessInfo {
    ProcessInfo { pid, name: name.to_string(), cpu_percent: 0, memory_bytes: 0 }
}

#[test]
fn decimal_rendering_is_exact() {
    assert_eq!(u32_to_decimal(0), "0");
    assert_eq!(u32_to_decimal(7), "7");
    assert_eq!(u32_to_decimal(42), "42");
    assert_eq!(u32_to_decimal(1000), "1000");
    assert_eq!(u32_to_decimal(u32::MAX), "4294967295");
}

#[test]
fn matching_is_case_insensitive_on_both_sides() {
    let p = sample(10, "Firefox");
    assert!(process_matches(&p, &"fire".to_string()));
    assert!(process_matches(&p, &"fox".to_string()));
    assert!(!process_matches(&p, &"chrome".to_string()));
}

#[test]
fn query_can_match_the_pid_digits() {
    let p = sample(91234, "shell");
    assert!(process_matches(&p, &"123".to_string()));
    assert!(process_matches(&p, &"91234".to_string()));
    assert!(!process_matches(&p, &"567".to_string()));
}

#[test]
fn empty_query_keeps_every_sample() {
    let list = vec![sample(1, "a"), sample(2, "b")];
    let kept = filter_processes(&list, &String::new());
    assert_eq!(kept.len(), 2);
    assert_eq!(kept[0].pid, 1);
    assert_eq!(kept[1].pid, 2);
}

#[test]
fn query_keeps_exactly_the_matches_in_order() {
    let list = vec![
        sample(100, "Firefox"),
        sample(200, "kernel_task"),
        sample(300, "FIREWALL"),
        sample(400, "editor"),
    ];
    // An upper-case query still matches: both sides are lowercased.
    let kept = filter_processes(&list, &"FIRE".to_string());
    let pids: Vec<u32> = kept.iter().map(|p| p.pid).collect();
    assert_eq!(pids, vec![100, 300]);

    let by_pid = filter_processes(&list, &"00".to_string());
    assert_eq!(by_pid.len(), 4);

    let none = filter_processes(&list, &"no such thing".to_string());
    assert!(none.is_empty());
}
