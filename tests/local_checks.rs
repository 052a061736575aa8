use i3_status_checks::cpu::{CpuArgs, CpuDisplayStyle, CpuStats};
use i3_status_checks::disk_io::{DiskCounters, DiskIoSample, DiskIoStats};
use i3_status_checks::disk_usage::{DiskDisplay, DiskSpace, DiskStats, DiskUsageArgs};
use i3_status_checks::display::{define_threshold_color, BytesUnit, I3StatusRustColorState};
use i3_status_checks::mem::{MemArgs, MemStats, MemoryDisplay};
use i3_status_checks::perfmode::{PerfModeArgs, PerfModeStyle, PerformanceMode};
use i3_status_checks::reachability::{IcmpCheck, TcpCheck, TcpCheckArgs};

fn state(c: &I3StatusRustColorState) -> String {
    c.to_string()
}

#[test]
fn test_cpu_stats_print() {
    let stats = CpuStats::from_core_usage(&vec![55, 1000, 123, 999]);
    assert_eq!(stats.cpu_usage_all_cores, vec![5, 100, 12, 99]);
    // (55 + 1000 + 123 + 999) / 4 = 544.25 tenths
    assert_eq!(stats.cpu_usage_average_tenths, 544);
    assert_eq!(stats.i3blocks_print(CpuDisplayStyle::All), "05% 100% 12% 99%");
    assert_eq!(stats.i3blocks_print(CpuDisplayStyle::Average), "54.4%");
    let full = CpuStats::new(vec![100], 1000);
    assert_eq!(full.i3blocks_print(CpuDisplayStyle::Average), "100");
}

#[test]
fn cpu_without_cores_reads_zero() {
    let stats = CpuStats::from_core_usage(&vec![]);
    assert!(stats.cpu_usage_all_cores.is_empty());
    assert_eq!(stats.cpu_usage_average_tenths, 0);
    assert_eq!(stats.i3blocks_print(CpuDisplayStyle::All), "");
}

#[test]
fn cpu_display_is_coloured_by_average() {
    let stats = CpuStats::new(vec![70, 72], 710);
    let args = CpuArgs { critical: 80, warning: 60, display: CpuDisplayStyle::Average };
    let d = stats.display(&args);
    assert_eq!(d.long_line, "71.0%");
    assert_eq!(d.short_line, "71.0%");
    assert_eq!(state(d.color.as_ref().unwrap()), "Warning");
}

#[test]
fn threshold_bands() {
    assert_eq!(state(&define_threshold_color(60, 70, 80, 590)), "Idle");
    assert_eq!(state(&define_threshold_color(60, 70, 80, 600)), "Good");
    assert_eq!(state(&define_threshold_color(60, 70, 80, 700)), "Warning");
    assert_eq!(state(&define_threshold_color(60, 70, 80, 800)), "Critical");
    assert_eq!(state(&define_threshold_color(60, 70, 80, 1000)), "Critical");
    // equal bounds collapse to one cut point, critical winning the tie
    assert_eq!(state(&define_threshold_color(50, 50, 50, 500)), "Critical");
    assert_eq!(state(&define_threshold_color(50, 50, 50, 499)), "Idle");
}

#[test]
fn threshold_is_monotonic_on_a_sweep() {
    let rank = |c: &I3StatusRustColorState| match c {
        I3StatusRustColorState::I3StatusRustStateIdle => 0,
        I3StatusRustColorState::I3StatusRustStateInfo => 1,
        I3StatusRustColorState::I3StatusRustStateGood => 2,
        I3StatusRustColorState::I3StatusRustStateWarning => 3,
        I3StatusRustColorState::I3StatusRustStateCritical => 4,
        I3StatusRustColorState::HtmlColorCode(_) => 0,
    };
    let mut last = 0;
    for v in 0..1200u64 {
        let r = rank(&define_threshold_color(20, 45, 90, v));
        assert!(r >= last);
        last = r;
    }
}

#[test]
fn test_mem_stats_print() {
    let gib: u64 = 1024 * 1024 * 1024;
    let stats = MemStats::from_meminfo(16 * gib, Some(10 * gib), Some(gib / 2)).ok().unwrap();
    assert_eq!(stats.usage_bytes, 5 * gib + gib / 2);
    assert_eq!(stats.total_bytes, 16 * gib);
    assert_eq!(stats.used_percent, 34);
    assert_eq!(stats.i3blocks_print(BytesUnit::Gb, MemoryDisplay::Used), "5.5G");
    assert_eq!(stats.i3blocks_print(BytesUnit::Gb, MemoryDisplay::Remaining), "10.5G");
    assert_eq!(stats.i3blocks_print(BytesUnit::Mb, MemoryDisplay::Used), "5632.0M");
    assert_eq!(stats.i3blocks_print(BytesUnit::Kb, MemoryDisplay::Used), "5767168.0K");
    assert_eq!(stats.i3blocks_print(BytesUnit::Gb, MemoryDisplay::UsedPercentage), "34%");
    assert_eq!(stats.i3blocks_print(BytesUnit::Gb, MemoryDisplay::RemainingPercentage), "66%");
}

#[test]
fn mem_missing_counters_are_errors() {
    let e = MemStats::from_meminfo(100, None, Some(1)).err().unwrap();
    assert_eq!(e.message, "available memory not found");
    let e = MemStats::from_meminfo(100, Some(1), None).err().unwrap();
    assert_eq!(e.message, "shared memory not found");
}

#[test]
fn mem_display_uses_midpoint_as_danger() {
    let stats = MemStats::from_meminfo(100, Some(25), Some(0)).ok().unwrap();
    let args = MemArgs { critical: 80, warning: 60, unit: BytesUnit::Kb, display: MemoryDisplay::UsedPercentage };
    let d = stats.display(&args);
    assert_eq!(d.long_line, "75%");
    assert_eq!(state(d.color.as_ref().unwrap()), "Warning");
}

#[test]
fn disk_usage_print() {
    let gib: u64 = 1024 * 1024 * 1024;
    let stats = DiskStats::from_space(100 * gib, 25 * gib);
    assert_eq!(stats.usage_mb, 75 * gib);
    assert_eq!(stats.used_percent, 75);
    assert_eq!(stats.i3blocks_print(BytesUnit::Gb, DiskDisplay::Used), "75.0G");
    assert_eq!(stats.i3blocks_print(BytesUnit::Gb, DiskDisplay::Remaining), "25.0G");
    assert_eq!(stats.i3blocks_print(BytesUnit::Mb, DiskDisplay::Remaining), "25600.0M");
    let half = DiskStats::from_space(2 * gib, gib / 2);
    assert_eq!(half.i3blocks_print(BytesUnit::Gb, DiskDisplay::Used), "1.5G");
    assert_eq!(stats.i3blocks_print(BytesUnit::Gb, DiskDisplay::UsedPercentage), "75%");
    assert_eq!(stats.i3blocks_print(BytesUnit::Gb, DiskDisplay::RemainingPercentage), "25%");
    let args = DiskUsageArgs {
        path: "/".to_string(),
        critical_used_percentage: 80,
        warning_used_percentage: 60,
        unit: BytesUnit::Gb,
        display: DiskDisplay::Remaining,
    };
    let d = stats.display(&args);
    assert_eq!(d.long_line, "25.0G");
    assert_eq!(state(d.color.as_ref().unwrap()), "Warning");
}

#[test]
fn empty_disk_reads_zero_percent() {
    let stats = DiskStats::from_space(0, 0);
    assert_eq!(stats.used_percent, 0);
    assert_eq!(stats.i3blocks_print(BytesUnit::Kb, DiskDisplay::RemainingPercentage), "100%");
}

fn sample(reads: u64, writes: u64, iowait_milli: u128) -> DiskIoSample {
    DiskIoSample { reads, writes, iowait_milli }
}

#[test]
fn test_diskio_stats_print() {
    // samples are one second apart: the difference is the rate per second
    let stats = DiskIoStats::from_samples(sample(1000, 2000, 5000), sample(1002, 4048, 9000));
    assert_eq!(stats.read_mb_milli, 2000);
    assert_eq!(stats.write_mb_milli, 2_048_000);
    assert_eq!(stats.io_wait_milli, 4000);
    let pretty = stats.pretty_content(None);
    let d = pretty.to_i3blocks_display(&stats, 10, 100);
    assert_eq!(
        d.long_line,
        "  2.0MB/s <span color='#F5737E'>  2.0GB/s</span> 4.0%"
    );
    assert_eq!(d.short_line, d.long_line);
    assert!(d.color.is_none());
}

#[test]
fn unit_auto_selection_steps_one_level() {
    // 0.5 MB/s goes down to KB, 2048 MB/s up to GB, 500 MB/s stays in MB
    let stats = DiskIoStats { read_mb_milli: 500, write_mb_milli: 2_048_000, io_wait_milli: 0 };
    let p = stats.pretty_content(None);
    assert_eq!(p.read_unit, BytesUnit::Kb);
    assert_eq!(p.read_tenths, 5120);
    assert_eq!(p.write_unit, BytesUnit::Gb);
    assert_eq!(p.write_tenths, 20);
    let stats = DiskIoStats { read_mb_milli: 500_000, write_mb_milli: 0, io_wait_milli: 0 };
    let p = stats.pretty_content(None);
    assert_eq!(p.read_unit, BytesUnit::Mb);
    assert_eq!(p.read_tenths, 5000);
    let p = stats.pretty_content(Some(BytesUnit::Kb));
    assert_eq!(p.read_unit, BytesUnit::Kb);
    assert_eq!(p.read_tenths, 5_120_000);
}

#[test]
fn equal_samples_give_zero() {
    let s = sample(123_456, 654_321, 77_000);
    let stats = DiskIoStats::from_samples(s, s);
    assert_eq!(stats.read_mb_milli, 0);
    assert_eq!(stats.write_mb_milli, 0);
    assert_eq!(stats.io_wait_milli, 0);
}

#[test]
fn reset_counter_reads_as_no_growth() {
    let stats = DiskIoStats::from_samples(sample(50, 50, 50), sample(10, 10, 10));
    assert_eq!(stats.read_mb_milli, 0);
    assert_eq!(stats.io_wait_milli, 0);
}

#[test]
fn iowait_is_the_mean_of_cpu_lines() {
    let text = "cpu  10 0 5 100 40 0 0\ncpu0 5 0 2 50 20 0 0\nintr 1 2 3\nctxt 99\n";
    assert_eq!(DiskIoStats::get_iowait(text).ok().unwrap(), 30_000);
    let text = "cpu 1 2 3 4 5 6\ncpu0 1 2 3 4 6 6\ncpu1 1 2 3 4 6 6";
    assert_eq!(DiskIoStats::get_iowait(text).ok().unwrap(), 5_666);
    assert_eq!(DiskIoStats::get_iowait("cpu 0 0 0 0 0 0").ok().unwrap(), 0);
}

#[test]
fn unreadable_iowait_is_an_error() {
    let e = DiskIoStats::get_iowait("cpu 1 2 3 4\n").err().unwrap();
    assert_eq!(e.message, "can't parse iowait value");
    let e = DiskIoStats::get_iowait("cpu 1 2 3 4 x5 6\n").err().unwrap();
    assert_eq!(e.message, "can't parse iowait value");
    // no cpu line at all is malformed too
    assert!(DiskIoStats::get_iowait("intr 1\n").is_err());
    assert!(DiskIoStats::get_iowait("").is_err());
}

#[test]
fn device_lookup() {
    let entries = vec![
        DiskCounters { name: "sda".to_string(), reads: 1, writes: 2 },
        DiskCounters { name: "nvme0n1".to_string(), reads: 30, writes: 40 },
    ];
    let counters = DiskIoStats::device_counters(&entries, &"nvme0n1".to_string()).ok().unwrap();
    assert_eq!(counters, (30, 40));
    let s = DiskIoStats::sample(counters, "cpu 0 0 0 0 7 0\n").ok().unwrap();
    assert_eq!((s.reads, s.writes, s.iowait_milli), (30, 40, 7000));
    let e = DiskIoStats::sample(counters, "ctxt 1\n").err().unwrap();
    assert_eq!(e.message, "can't parse iowait value");
    let e = DiskIoStats::device_counters(&entries, &"sdb".to_string()).err().unwrap();
    assert_eq!(e.message, "device `sdb` not found");
}

#[test]
fn test_perfmode_print() {
    let mode = PerformanceMode::parse("low-power\n").ok().unwrap();
    assert_eq!(mode, PerformanceMode::LowPower);
    assert_eq!(mode.i3blocks_print(PerfModeStyle::Text), "Low Power");
    assert_eq!(mode.i3blocks_print(PerfModeStyle::Icons), "\u{f299}");
    let d = PerformanceMode::Performance.display(&PerfModeArgs { display: PerfModeStyle::Text });
    assert_eq!(d.long_line, "Performance");
    assert_eq!(d.short_line, "Performance");
    assert_eq!(PerformanceMode::parse("  balanced ").ok().unwrap(), PerformanceMode::Balanced);
}

#[test]
fn unknown_perfmode_is_an_error() {
    let e = PerformanceMode::parse("quiet\n").err().unwrap();
    assert_eq!(e.message, "unknown performance mode: `quiet\n`");
}

#[test]
fn test_icmp_check_connectivity() {
    assert!(IcmpCheck::from_ping(Ok(())).ok().unwrap().available);
    let down = IcmpCheck::from_ping(Err("Resource temporarily unavailable (os error 11)".to_string()));
    assert!(!down.ok().unwrap().available);
    let e = IcmpCheck::from_ping(Err("Operation not permitted (os error 1)".to_string())).err().unwrap();
    assert_eq!(e.message, "Operation not permitted (os error 1)");
}

#[test]
fn availability_texts() {
    let up = "up".to_string();
    let shown = IcmpCheck { available: true }.display(&Some(up.clone()), &None).unwrap();
    assert_eq!(shown.long_line, "up");
    assert_eq!(shown.short_line, "up");
    assert!(IcmpCheck { available: false }.display(&Some(up), &None).is_none());
    let args = TcpCheckArgs {
        host: "example.org".to_string(),
        port: 443,
        availability_text: None,
        unavailability_text: Some("down".to_string()),
    };
    assert_eq!(TcpCheck { available: false }.display(&args).unwrap().long_line, "down");
    assert!(TcpCheck { available: true }.display(&args).is_none());
    assert_eq!(TcpCheck::address(&args.host, args.port), "example.org:443");
}

#[test]
fn largest_counters_do_not_overflow() {
    let stats = DiskIoStats::from_samples(sample(0, 0, 0), sample(u64::MAX, u64::MAX, u128::MAX));
    assert_eq!(stats.read_mb_milli, u64::MAX as u128 * 1000);
    assert_eq!(stats.io_wait_milli, u128::MAX);
    let p = stats.pretty_content(None);
    assert_eq!(p.read_unit, BytesUnit::Gb);
    let d = p.to_i3blocks_display(&stats, u64::MAX, u64::MAX);
    assert!(d.long_line.contains("GB/s"));
    let big = MemStats::from_meminfo(u64::MAX, Some(0), Some(0)).ok().unwrap();
    assert_eq!(big.used_percent, 100);
    assert_eq!(big.i3blocks_print(BytesUnit::Kb, MemoryDisplay::RemainingPercentage), "0%");
    let text = format!("cpu 0 0 0 0 {} 0\n", u64::MAX);
    assert_eq!(DiskIoStats::get_iowait(&text).ok().unwrap(), u64::MAX as u128 * 1000);
    let text = "cpu 0 0 0 0 18446744073709551616 0\n";
    assert!(DiskIoStats::get_iowait(text).is_err());
}

#[test]
fn disk_is_found_by_mount_point() {
    let disks = vec![
        DiskSpace { mount_point: "/".to_string(), total: 100, available: 40 },
        DiskSpace { mount_point: "/home".to_string(), total: 200, available: 50 },
    ];
    let stats = DiskStats::get_disk_stats(&disks, &"/home".to_string()).ok().unwrap();
    assert_eq!((stats.total_mb, stats.usage_mb, stats.used_percent), (200, 150, 75));
    let e = DiskStats::get_disk_stats(&disks, &"/mnt".to_string()).err().unwrap();
    assert_eq!(e.message, "Disk /mnt not found");
}

#[test]
fn exact_halves_round_to_even() {
    let gib: u64 = 1024 * 1024 * 1024;
    // 256 bytes is 0.25 KB, 1.25 GiB and 1.75 GiB are exact halves in tenths
    let small = MemStats { usage_bytes: 256, total_bytes: 1024, used_percent: 25 };
    assert_eq!(small.i3blocks_print(BytesUnit::Kb, MemoryDisplay::Used), "0.2K");
    let m = MemStats { usage_bytes: gib + gib / 4, total_bytes: 3 * gib, used_percent: 41 };
    assert_eq!(m.i3blocks_print(BytesUnit::Gb, MemoryDisplay::Used), "1.2G");
    assert_eq!(m.i3blocks_print(BytesUnit::Gb, MemoryDisplay::Remaining), "1.8G");
    let d = DiskStats::from_space(4 * gib, 2 * gib + 3 * gib / 4);
    assert_eq!(d.i3blocks_print(BytesUnit::Gb, DiskDisplay::Used), "1.2G");
    assert_eq!(d.i3blocks_print(BytesUnit::Gb, DiskDisplay::Remaining), "2.8G");
    assert_eq!(CpuStats::from_core_usage(&vec![5, 0]).cpu_usage_average_tenths, 2);
    assert_eq!(CpuStats::from_core_usage(&vec![5, 10]).cpu_usage_average_tenths, 8);
    let s = DiskIoStats { read_mb_milli: 250, write_mb_milli: 1350, io_wait_milli: 50 };
    let p = s.pretty_content(Some(BytesUnit::Mb));
    assert_eq!((p.read_tenths, p.write_tenths, p.io_wait_tenths), (2, 14, 0));
}
