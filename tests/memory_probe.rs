use malloc_tuner::{fitness_value, memory_from_listing, score, MemoryScan, MemoryStats};

const AGENT: &str = "/opt/datadog-agent/bin/agent/agent run                                1000";
const PROCESS: &str = "/opt/datadog-agent/embedded/bin/process-agent --cfgpath=/etc/datadog-agent/datadog.yaml 2000";
const SECURITY: &str = "/opt/datadog-agent/embedded/bin/security-agent -c /etc/datadog-agent/datadog.yaml start 1500";
const TRACE: &str = "/opt/datadog-agent/embedded/bin/trace-agent --config=/etc/datadog-agent/datadog.yaml 500";

#[test]
fn missing_role_gives_no_score() {
    let text = format!("{AGENT}\n{PROCESS}\n{SECURITY}\nps -aeo cmd,rss --no-headers 1200\n");
    assert!(memory_from_listing(text.as_bytes()).is_none());
}

#[test]
fn four_roles_sum_to_score() {
    let text = format!("/bin/sh 300\n{AGENT}\n{PROCESS}\n{SECURITY}\n{TRACE}\n");
    let m = memory_from_listing(text.as_bytes()).unwrap();
    assert_eq!(m.total(), 5000);
    assert_eq!(fitness_value(Some(m)), Some(5000));
}

#[test]
fn last_match_wins() {
    let text = format!("{AGENT}\n{PROCESS}\n{SECURITY}\n{TRACE}\nagent run 4000");
    assert_eq!(memory_from_listing(text.as_bytes()).unwrap().total(), 8000);
}

#[test]
fn unreadable_lines_are_skipped() {
    let text = format!(
        "{AGENT}\n{PROCESS}\n{SECURITY}\n{TRACE}\nagent run 99999999999999999999999\nprocess-agent 7\nprocess-agent x 7x\n"
    );
    assert_eq!(memory_from_listing(text.as_bytes()).unwrap().total(), 5000);
}

#[test]
fn chunks_scan_in_order() {
    let mut scan = MemoryScan::new();
    scan.scan_chunk(format!("{AGENT}\n{PROCESS}\n").as_bytes());
    assert!(scan.finish().is_none());
    scan.scan_chunk(format!("{SECURITY}\n{TRACE}").as_bytes());
    assert_eq!(scan.finish().unwrap().total(), 5000);
}

#[test]
fn agent_line_shapes() {
    let rest = format!("{PROCESS}\n{SECURITY}\n{TRACE}\n");
    assert_eq!(memory_from_listing(format!("{rest}agent run12").as_bytes()).unwrap().total(), 4012);
    assert!(memory_from_listing(format!("{rest}agent run 12 ").as_bytes()).is_none());
    assert!(memory_from_listing(format!("{rest}agent runs 12").as_bytes()).is_none());
}

#[test]
fn tagged_line_needs_two_spaces() {
    let rest = format!("{AGENT}\n{SECURITY}\n{TRACE}\n");
    assert!(memory_from_listing(format!("{rest}process-agent 12").as_bytes()).is_none());
    assert_eq!(memory_from_listing(format!("{rest}process-agent  12").as_bytes()).unwrap().total(), 3012);
}

#[test]
fn non_positive_role_gives_no_reading() {
    assert!(MemoryStats::new(0, 1, 1, 1).is_none());
    assert!(MemoryStats::new(1, 0, 1, 1).is_none());
    assert!(MemoryStats::new(1, 1, 0, 1).is_none());
    assert!(MemoryStats::new(1, 1, 1, 0).is_none());
    assert_eq!(score(0, 2000, 1500, 500), None);
}

#[test]
fn large_positive_reading_is_valid() {
    let m = MemoryStats::new(usize::MAX, 1, 1, 1).unwrap();
    assert!(!m.total_fits());
    assert_eq!(score(usize::MAX, 1, 1, 1), None);
    assert_eq!(fitness_value(Some(m)), None);
    assert!(MemoryStats::new(usize::MAX - 3, 1, 1, 1).unwrap().total_fits());
}

#[test]
fn positive_roles_give_exact_sum() {
    assert_eq!(MemoryStats::new(1000, 2000, 1500, 500).unwrap().total(), 5000);
    assert_eq!(score(1000, 2000, 1500, 500), Some(5000));
    assert_eq!(score(1, 1, 1, 1), Some(4));
}

#[test]
fn fitness_of_invalid_run_is_absent() {
    assert_eq!(fitness_value(None), None);
    let big = MemoryStats::new(usize::MAX - 3, 1, 1, 1);
    assert_eq!(fitness_value(big), None);
}
