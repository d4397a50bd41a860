use sandbench::bench::csv_row;
use sandbench::bench::EvalType;
use sandbench::density::density_row;
use sandbench::density::free_mem_mb_from;
use sandbench::density::should_stop;
use sandbench::density::skips_port_probe;
use sandbench::density::DENSITY_HEADER;
use sandbench::latency::latency_report;
use sandbench::latency::LATENCY_HEADER;
use sandbench::numfmt::parse_u128;
use sandbench::numfmt::parse_u64;
use sandbench::numfmt::u128_to_string;
use sandbench::numfmt::u64_to_string;
use sandbench::numfmt::u8_to_hex2;

#[test]
fn decimal_formatting_is_exact() {
    assert_eq!(u64_to_string(0), "0");
    assert_eq!(u64_to_string(7), "7");
    assert_eq!(u64_to_string(65535), "65535");
    assert_eq!(u64_to_string(u64::MAX), "18446744073709551615");
    assert_eq!(u128_to_string(0), "0");
    assert_eq!(u128_to_string(123456789012345678901234567890), "123456789012345678901234567890");
}

#[test]
fn hex_formatting_is_two_lowercase_digits() {
    assert_eq!(u8_to_hex2(0), "00");
    assert_eq!(u8_to_hex2(2), "02");
    assert_eq!(u8_to_hex2(0xab), "ab");
    assert_eq!(u8_to_hex2(0xff), "ff");
}

#[test]
fn decimal_parsing_accepts_digits_only() {
    assert_eq!(parse_u64("1024"), Some(1024));
    assert_eq!(parse_u64("0"), Some(0));
    assert_eq!(parse_u64("18446744073709551615"), Some(u64::MAX));
    assert_eq!(parse_u64("18446744073709551616"), None);
    assert_eq!(parse_u64(""), None);
    assert_eq!(parse_u64("12a"), None);
    assert_eq!(parse_u64("-5"), None);
    assert_eq!(parse_u64(" 5"), None);
    assert_eq!(parse_u128("340282366920938463463374607431768211455"), Some(u128::MAX));
    assert_eq!(parse_u128("340282366920938463463374607431768211456"), None);
    assert_eq!(parse_u128("x"), None);
}

#[test]
fn csv_rows_have_exact_shape() {
    assert_eq!(csv_row("Process", "PRESETUP", 42), "Process,PRESETUP,42");
    assert_eq!(LATENCY_HEADER, "SYSTEM,OP_TYPE,LATENCY_MICROSECONDS");
    assert_eq!(DENSITY_HEADER, "SYSTEM,OP_TYPE,ITERATION, FREE_MEMORY");
}

#[test]
fn latency_report_rows_cover_all_samples() {
    let rows = latency_report("Process", 10, 20, &vec![5, 7, 9]);
    assert_eq!(
        rows,
        vec![
            "Process,FIRST_EXECUTION,5".to_string(),
            "Process,COLD_START_EXECUTION,35".to_string(),
            "Process,EXECUTION,7".to_string(),
            "Process,EXECUTION,9".to_string(),
        ]
    );
}

#[test]
fn latency_report_with_one_sample_has_no_execution_rows() {
    let rows = latency_report("X", 1, 2, &vec![3]);
    assert_eq!(rows, vec!["X,FIRST_EXECUTION,3".to_string(), "X,COLD_START_EXECUTION,6".to_string()]);
}

#[test]
fn free_memory_reads_second_token_as_kilobytes() {
    assert_eq!(free_mem_mb_from("MemFree:        2048000 kB"), Some(2000));
    assert_eq!(free_mem_mb_from("MemFree: 1023 kB"), Some(0));
    assert_eq!(free_mem_mb_from("MemFree:"), None);
    assert_eq!(free_mem_mb_from("MemFree: abc kB"), None);
    assert_eq!(free_mem_mb_from(""), None);
}

#[test]
fn density_row_has_exact_shape() {
    assert_eq!(density_row("Unikraft", 3, 777), "Unikraft,FREE_MEM_MB,3,777");
}

#[test]
fn density_loop_stops_under_the_limit() {
    assert!(should_stop(511, 512));
    assert!(!should_stop(512, 512));
    assert!(!should_stop(4096, 512));
}

#[test]
fn only_firecracker_skips_the_port_probe() {
    assert!(skips_port_probe("Firecracker"));
    assert!(!skips_port_probe("Firecracker-Snapshot"));
    assert!(!skips_port_probe("Process"));
    assert!(!skips_port_probe("Unikraft"));
    assert!(!skips_port_probe("Hyperlight"));
}

#[test]
fn eval_types_read_from_their_names() {
    assert_eq!(EvalType::from_string("firecracker"), Some(EvalType::Firecracker));
    assert_eq!(EvalType::from_string("firecracker-snapshot"), Some(EvalType::FirecrackerSnapshot));
    assert_eq!(EvalType::from_string("unikraft"), Some(EvalType::Unikraft));
    assert_eq!(EvalType::from_string("process"), Some(EvalType::Process));
    assert_eq!(EvalType::from_string("hyperlight"), Some(EvalType::Hyperlight));
    assert_eq!(EvalType::from_string("qemu"), None);
    assert_eq!(EvalType::from_string(""), None);
}
