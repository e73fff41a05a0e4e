use mmap_bench::config::{AccessMode, Config, Hint, Launch};
use mmap_bench::counters::CounterStore;
use mmap_bench::feeds::{io_bytes, tlb_shootdown_count};
use mmap_bench::monitor::{Monitor, Sample};
use mmap_bench::region::Region;
use mmap_bench::report::format_record;
use mmap_bench::sampling::Sampler;
use mmap_bench::scan::{random_touch, sequential_pass};

#[test]
fn four_mib_target_scanned_by_one_worker_for_three_intervals() {
    let config = Config { path: String::from("target.bin"), threads: 1, seq: 1, hint: 0 };
    assert_eq!(config.mode(), AccessMode::Sequential);
    assert_eq!(config.advice(), Hint::Normal);
    let length = 4 * 1024 * 1024u64;
    assert_eq!(config.plan_launch(length), Launch::Run { length, workers: 1 });
    let bytes = vec![3u8; length as usize];
    let region = Region::new(&bytes).unwrap();
    assert_eq!(region.len() as u64, length);
    let store = CounterStore::new();
    let mut monitor = Monitor::prime(None, None);
    let mut lines = Vec::new();
    let mut drained_total = 0u64;
    for interval in 1..=3u64 {
        for _ in 0..interval {
            let walk = sequential_pass(&region, &store);
            assert_eq!(walk.start, 0);
            assert_eq!(walk.touches, 32768);
            assert_eq!(walk.checksum, 3 * 32768);
        }
        let touches = store.drain_touch_count();
        drained_total += touches;
        let record = monitor.tick(Sample {
            elapsed_secs: interval,
            elapsed_nanos: 0,
            touches,
            batches: store.drain_cpu_iterations(),
            shootdowns: None,
            io_bytes: None,
        });
        lines.push(format_record(&config, &record));
    }
    assert_eq!(drained_total, 6 * 32768);
    assert_eq!(lines[0], "target.bin,1,0,1,1.00,0.12,0,0.00,0");
    assert_eq!(lines[1], "target.bin,1,0,1,2.00,0.25,0,0.00,0");
    assert_eq!(lines[2], "target.bin,1,0,1,3.00,0.38,0,0.00,0");
}

#[test]
fn one_byte_target_is_mapped_and_read_at_offset_zero() {
    let config = Config { path: String::from("one.bin"), threads: 2, seq: 0, hint: 1 };
    assert_eq!(config.mode(), AccessMode::Random);
    assert_eq!(config.advice(), Hint::Random);
    assert_eq!(config.plan_launch(1), Launch::Run { length: 1, workers: 2 });
    let bytes = [200u8];
    let region = Region::new(&bytes).unwrap();
    let store = CounterStore::new();
    let mut sampler = Sampler::new();
    for _ in 0..500 {
        let touch = random_touch(&region, &store, &mut sampler);
        assert_eq!(touch.offset, 0);
        assert_eq!(touch.value, 200);
    }
    let walk = sequential_pass(&region, &store);
    assert_eq!(walk.start, 0);
    assert_eq!(walk.checksum, 200 * 32768);
    assert_eq!(store.drain_touch_count(), 500 + 32768);
}

#[test]
fn zero_length_target_starts_nothing() {
    let config = Config { path: String::from("empty.bin"), threads: 8, seq: 1, hint: 2 };
    assert_eq!(config.plan_launch(0), Launch::Skip);
    assert!(Region::new(&[]).is_none());
}

#[test]
fn records_follow_the_feeds_from_interval_to_interval() {
    let config = Config { path: String::from("/dev/nvme0n1"), threads: 2, seq: 0, hint: 1 };
    let interrupts = ["TLB: 100 50 TLB shootdowns\n", "TLB: 160 90 TLB shootdowns\n", "NMI: 1 2\n"];
    let diskstats = [
        "259 0 nvme0n1 1 0 2097152 9\n",
        "259 0 nvme0n1 1 0 6291456 9\n",
        "259 0 nvme0n1 1 0 6291456 9\n",
    ];
    let mut monitor = Monitor::prime(
        Some(tlb_shootdown_count(interrupts[0].as_bytes())),
        Some(io_bytes(diskstats[0].as_bytes())),
    );
    let first = monitor.tick(Sample {
        elapsed_secs: 1,
        elapsed_nanos: 1234567,
        touches: 524288,
        batches: 17,
        shootdowns: Some(tlb_shootdown_count(interrupts[1].as_bytes())),
        io_bytes: Some(io_bytes(diskstats[1].as_bytes())),
    });
    assert_eq!(format_record(&config, &first), "/dev/nvme0n1,0,1,2,1.00,2.00,100,2.00,17");
    let second = monitor.tick(Sample {
        elapsed_secs: 2,
        elapsed_nanos: 2345678,
        touches: 0,
        batches: 16,
        shootdowns: Some(tlb_shootdown_count(interrupts[2].as_bytes())),
        io_bytes: Some(io_bytes(diskstats[2].as_bytes())),
    });
    assert_eq!(format_record(&config, &second), "/dev/nvme0n1,0,1,2,2.00,0.00,0,0.00,16");
}
