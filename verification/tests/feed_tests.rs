use mmap_bench::feeds::{io_bytes, tlb_shootdown_count, SECTOR_SIZE};

const INTERRUPTS: &str = "\
           CPU0       CPU1       CPU2       CPU3
  0:         36          0          0          0   IO-APIC   2-edge      timer
 24:          0       1043          0          0   PCI-MSI 512000-edge      nvme0q0
NMI:          3          4          5          6   Non-maskable interrupts
TLB:       1200        345         10          5   TLB shootdowns
TRM:          0          0          0          0   Thermal event interrupts
";

const DISKSTATS: &str = "\
   8       0 sda 5000 10 999999 400 1 2 3 4 0 5 6
 259       0 nvme0n1 1000 0 2048 300 50 0 4096 20 0 310 320
 259       1 nvme0n1p1 900 0 1024 250 40 0 2048 10 0 255 260
 259       2 nvme1n1 10 0 8 1 0 0 0 0 0 1 1
";

#[test]
fn shootdowns_are_summed_over_processors() {
    assert_eq!(tlb_shootdown_count(INTERRUPTS.as_bytes()), 1560);
}

#[test]
fn shootdown_count_skips_the_first_field() {
    assert_eq!(tlb_shootdown_count(b"7 TLB 5 6"), 11);
    assert_eq!(tlb_shootdown_count(b"100 200 TLB"), 200);
}

#[test]
fn shootdown_count_ignores_fields_that_are_no_numbers() {
    assert_eq!(tlb_shootdown_count(b"TLB: 1 x 2 3y +4 -5 6.0"), 7);
    assert_eq!(tlb_shootdown_count(b"TLB: TLB shootdowns"), 0);
    assert_eq!(tlb_shootdown_count(b"TLB"), 0);
}

#[test]
fn only_the_first_marked_line_counts() {
    assert_eq!(tlb_shootdown_count(b"x 1\nTLB: 2 3\nTLB: 100\n"), 5);
    assert_eq!(tlb_shootdown_count(b"aTLBb 9 9\nTLB: 1"), 18);
}

#[test]
fn feed_without_marker_counts_zero() {
    assert_eq!(tlb_shootdown_count(b""), 0);
    assert_eq!(tlb_shootdown_count(b"\n\n"), 0);
    assert_eq!(tlb_shootdown_count(b"NMI: 3 4\nTL B: 5\ntlb: 6\n"), 0);
    assert_eq!(tlb_shootdown_count(b"T\nLB: 5\n"), 0);
}

#[test]
fn shootdown_count_reads_carriage_return_line_ends() {
    assert_eq!(tlb_shootdown_count(b"NMI: 1\r\nTLB: 1 2\r\nTRM: 9\r\n"), 3);
}

#[test]
fn shootdown_sum_wraps_at_64_bits() {
    assert_eq!(tlb_shootdown_count(b"TLB: 18446744073709551615 1"), 0);
    assert_eq!(tlb_shootdown_count(b"TLB: 18446744073709551615 18446744073709551615"), u64::MAX - 1);
    assert_eq!(tlb_shootdown_count(b"TLB: 18446744073709551616 3"), 3);
}

#[test]
fn sector_size_is_512() {
    assert_eq!(SECTOR_SIZE, 512);
}

#[test]
fn sectors_of_nvme_lines_are_summed_as_bytes() {
    assert_eq!(io_bytes(DISKSTATS.as_bytes()), (2048 + 1024 + 8) * 512);
}

#[test]
fn one_sector_is_512_bytes() {
    assert_eq!(io_bytes(b"259 0 nvme0n1 1 2 1 4"), 512);
    assert_eq!(io_bytes(b"259 0 nvme0n1 1 2 3 4"), 1536);
}

#[test]
fn io_lines_need_a_sixth_field() {
    assert_eq!(io_bytes(b"259 0 nvme0n1 1 2"), 0);
    assert_eq!(io_bytes(b"nvme"), 0);
    assert_eq!(io_bytes(b"nvme 1 2 3 4"), 0);
    assert_eq!(io_bytes(b"259 0 nvme0n1 1 2 3"), 1536);
    assert_eq!(io_bytes(b"259 0 nvme0n1 1 2 3 4 5 6 7 8"), 1536);
}

#[test]
fn io_lines_without_device_marker_are_ignored() {
    assert_eq!(io_bytes(b""), 0);
    assert_eq!(io_bytes(b"8 0 sda 1 2 3 4\n8 1 sdb 1 2 3 4\n"), 0);
    assert_eq!(io_bytes(b"8 0 NVME0 1 2 3 4\n"), 0);
}

#[test]
fn io_sector_field_must_be_a_number() {
    assert_eq!(io_bytes(b"259 0 nvme0n1 1 2 x 4"), 0);
    assert_eq!(io_bytes(b"259 0 nvme0n1 1 2 -3 4"), 0);
    assert_eq!(io_bytes(b"259 0 nvme0n1 1 2 18446744073709551616 4"), 0);
    assert_eq!(io_bytes(b"259 0 nvme0n1 1 2 x 4\n259 1 nvme0n1p1 1 2 2 4\n"), 1024);
}

#[test]
fn device_marker_may_stand_in_any_field() {
    assert_eq!(io_bytes(b"a b c d e 2 nvme"), 1024);
    assert_eq!(io_bytes(b"a b c d e 2 g nvme"), 1024);
}

#[test]
fn io_bytes_wrap_at_64_bits() {
    assert_eq!(io_bytes(b"259 0 nvme0n1 1 2 36028797018963968 4"), 0);
    assert_eq!(io_bytes(b"259 0 nvme0n1 1 2 36028797018963969 4"), 512);
    assert_eq!(
        io_bytes(b"259 0 nvme0n1 1 2 36028797018963967 4\n259 0 nvme0n2 1 2 2 4\n"),
        512
    );
}
