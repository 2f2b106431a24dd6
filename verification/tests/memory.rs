use zenmonitor::agent::memory::{memory_breakdown, parse_proc_meminfo, read_meminfo_counters, MeminfoCounters};

const SAMPLE: &str = r#"
MemTotal:       16384000 kB
MemFree:         2048000 kB
MemAvailable:    8192000 kB
Buffers:          512000 kB
Cached:          4096000 kB
SwapTotal:       2048000 kB
SwapFree:        1024000 kB
SReclaimable:     256000 kB
"#;

fn mb(kb: u64) -> f64 {
    kb as f64 / 1024.0
}

#[test]
fn test_parse_proc_meminfo() {
    let sample = SAMPLE;
    let info = parse_proc_meminfo(sample).unwrap();
    let total_mb = mb(info.total_kb);
    let available_mb = mb(info.available_kb);
    let used_mb = total_mb - available_mb;
    let cached_mb = mb(info.cached_kb);
    assert!((total_mb - 16000.0).abs() < 1.0);
    assert!((available_mb - 8000.0).abs() < 1.0);
    assert!((used_mb - 8000.0).abs() < 1.0);
    assert!(cached_mb > 0.0);
}

#[test]
fn meminfo_breakdown_exact_values() {
    let info = parse_proc_meminfo(SAMPLE).unwrap();
    assert_eq!(info.total_kb, 16384000);
    assert_eq!(info.available_kb, 8192000);
    assert_eq!(info.used_kb, 8192000);
    assert_eq!(info.cached_kb, 4096000 + 256000);
    assert_eq!(info.buffers_kb, 512000);
    assert_eq!(info.swap_total_kb, 2048000);
    assert_eq!(info.swap_used_kb, 1024000);
}

#[test]
fn meminfo_used_is_total_minus_available_not_free() {
    let text = "MemTotal: 1000 kB\nMemFree: 100 kB\nMemAvailable: 700 kB\n";
    let info = parse_proc_meminfo(text).unwrap();
    assert_eq!(info.used_kb, 300);
}

#[test]
fn meminfo_estimates_missing_available() {
    let text = "MemTotal: 1000 kB\nMemFree: 100 kB\nBuffers: 20 kB\nCached: 300 kB\nSReclaimable: 5 kB\n";
    let info = parse_proc_meminfo(text).unwrap();
    assert_eq!(info.available_kb, 425);
    assert_eq!(info.used_kb, 575);
    assert_eq!(info.cached_kb, 305);
}

#[test]
fn meminfo_later_line_wins_and_bad_values_read_zero() {
    let c = read_meminfo_counters("MemTotal: 5 kB\nMemTotal: 7 kB\nMemFree: x kB\nBuffers:\nCached: +12\nSwapTotal: -3\n");
    assert_eq!(c.total_kb, 7);
    assert_eq!(c.free_kb, 0);
    assert_eq!(c.buffers_kb, 0);
    assert_eq!(c.cached_kb, 12);
    assert_eq!(c.swap_total_kb, 0);
}

#[test]
fn meminfo_whitespace_and_crlf() {
    let c = read_meminfo_counters("  MemTotal:\t\t42 kB\r\nSwapFree:\u{a0}9\r\n");
    assert_eq!(c.total_kb, 42);
    assert_eq!(c.swap_free_kb, 9);
}

#[test]
fn meminfo_overflowing_value_reads_zero() {
    let c = read_meminfo_counters("MemTotal: 18446744073709551615\nMemFree: 18446744073709551616\n");
    assert_eq!(c.total_kb, u64::MAX);
    assert_eq!(c.free_kb, 0);
}

#[test]
fn meminfo_swap_free_above_total_is_refused() {
    assert!(parse_proc_meminfo("SwapTotal: 1\nSwapFree: 2\n").is_none());
}

#[test]
fn meminfo_estimate_overflow_is_refused() {
    let c = MeminfoCounters {
        total_kb: 1,
        free_kb: u64::MAX,
        available_kb: 0,
        buffers_kb: 1,
        cached_kb: 0,
        swap_total_kb: 0,
        swap_free_kb: 0,
        slab_reclaimable_kb: 0,
    };
    assert!(memory_breakdown(&c).is_none());
}

#[test]
fn meminfo_empty_text_reads_zero() {
    let info = parse_proc_meminfo("").unwrap();
    assert_eq!(info.total_kb, 0);
    assert_eq!(info.used_kb, 0);
}

#[test]
fn meminfo_lines_without_read_keys_change_nothing() {
    let base = "MemTotal: 1000 kB\nMemAvailable: 600 kB\nCached: 50 kB\n";
    let with_extra = "SwapCached: 999 kB\nMemTotal: 1000 kB\nActive(file): 5 kB\nHugePages_Total: 0\nMemTotal:\nMemAvailable: 600 kB\n\n   \nCached: 50 kB\nMemFree\n";
    let a = parse_proc_meminfo(base).unwrap();
    let b = parse_proc_meminfo(with_extra).unwrap();
    assert_eq!(a.total_kb, b.total_kb);
    assert_eq!(a.used_kb, b.used_kb);
    assert_eq!(a.cached_kb, b.cached_kb);
    assert_eq!(a.available_kb, b.available_kb);
    assert_eq!(a.buffers_kb, b.buffers_kb);
    assert_eq!(a.swap_total_kb, b.swap_total_kb);
    assert_eq!(a.swap_used_kb, b.swap_used_kb);
}
