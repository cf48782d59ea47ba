use basic_practice::bench::{
    duration_avg, duration_median, duration_min, faster, read_work_while_locked, scenarios,
    BenchConfig, Element, READ_INNER_LOOPS_DEFAULT, TOTAL_READS_PER_RUN, TOTAL_WRITES_PER_RUN,
};

#[test]
fn scenarios_match_the_table() {
    let s = scenarios();
    assert_eq!(s[0].name, "READ_ONLY + fat_read (RwLock이 이기기 쉬운 구조)");
    assert_eq!((s[0].num_readers, s[0].num_writers), (32, 0));
    assert_eq!(s[0].read_inner_loops, 1024);
    assert_eq!(s[1].name, "read_heavy + fat_read (RwLock 유리 후보)");
    assert_eq!((s[1].reads_per_reader, s[1].writes_per_writer), (37_500, 10_000));
    assert_eq!(s[1].read_inner_loops, READ_INNER_LOOPS_DEFAULT);
    assert_eq!(s[2].name, "balanced + fat_read");
    assert_eq!((s[2].num_readers, s[2].num_writers), (8, 8));
    assert_eq!(s[3].name, "write_heavy + thin_read (Mutex 유리 후보)");
    assert_eq!((s[3].num_readers, s[3].num_writers), (2, 16));
    assert_eq!(s[3].read_inner_loops, 1);
}

#[test]
fn scenarios_have_equal_totals() {
    let s = scenarios();
    for cfg in s.iter() {
        assert_eq!(cfg.num_readers * cfg.reads_per_reader, TOTAL_READS_PER_RUN);
    }
    assert_eq!(s[0].total_writes_expected(), 0);
    for cfg in s.iter().skip(1) {
        assert_eq!(cfg.total_writes_expected(), TOTAL_WRITES_PER_RUN as usize);
    }
}

#[test]
fn total_writes_expected_multiplies() {
    let cfg = BenchConfig {
        name: "x",
        num_readers: 1,
        num_writers: 3,
        reads_per_reader: 1,
        writes_per_writer: 7,
        read_inner_loops: 1,
    };
    assert_eq!(cfg.total_writes_expected(), 21);
}

#[test]
fn read_work_sums_with_wraparound() {
    assert_eq!(read_work_while_locked(&Element { data: 5 }, 0), 0);
    assert_eq!(read_work_while_locked(&Element { data: 5 }, 512), 2560);
    assert_eq!(read_work_while_locked(&Element { data: -3 }, 4), -12);
    let big = read_work_while_locked(&Element { data: i32::MAX }, 2);
    assert_eq!(big, i32::MAX.wrapping_add(i32::MAX));
    assert_eq!(big, -2);
}

#[test]
fn median_sorts_in_place() {
    let mut v: Vec<u128> = vec![50, 10, 40, 30, 20, 70, 60];
    assert_eq!(duration_median(&mut v), 40);
    assert_eq!(v, vec![10, 20, 30, 40, 50, 60, 70]);
    let mut w: Vec<u128> = vec![4, 1, 3, 2];
    assert_eq!(duration_median(&mut w), 3);
    assert_eq!(w, vec![1, 2, 3, 4]);
    let mut one: Vec<u128> = vec![9];
    assert_eq!(duration_median(&mut one), 9);
}

#[test]
fn median_keeps_duplicates() {
    let mut v: Vec<u128> = vec![5, 5, 1, 5, 1];
    assert_eq!(duration_median(&mut v), 5);
    assert_eq!(v, vec![1, 1, 5, 5, 5]);
}

#[test]
fn min_and_avg() {
    let v: Vec<u128> = vec![30, 10, 20];
    assert_eq!(duration_min(&v), 10);
    assert_eq!(duration_avg(&v), 20);
    let w: Vec<u128> = vec![1, 2];
    assert_eq!(duration_avg(&w), 1);
    let big: Vec<u128> = vec![(1u128 << 64) + 5];
    assert_eq!(duration_avg(&big), 5);
}

#[test]
fn faster_names_the_winner() {
    assert_eq!(faster(1, 2), "Mutex");
    assert_eq!(faster(3, 2), "RwLock");
    assert_eq!(faster(2, 2), "동일");
}
