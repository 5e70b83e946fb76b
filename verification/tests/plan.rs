use part_upload::error::ErrorKind;
use part_upload::plan::{plan, CHUNK_SIZE, MAX_TOTAL_SIZE};

const MIB: u64 = 1024 * 1024;

#[test]
fn chunk_size_is_five_mebibytes() {
    assert_eq!(CHUNK_SIZE as u64, 5 * MIB);
    assert_eq!(MAX_TOTAL_SIZE, CHUNK_SIZE as u64 * u32::MAX as u64);
}

#[test]
fn empty_file_is_refused() {
    assert_eq!(plan(0), Err(ErrorKind::InvalidSize));
}

#[test]
fn part_count_around_one_chunk() {
    let chunk = CHUNK_SIZE as u64;
    assert_eq!(plan(chunk - 1).unwrap().part_count(), 1);
    assert_eq!(plan(chunk).unwrap().part_count(), 1);
    assert_eq!(plan(chunk + 1).unwrap().part_count(), 2);
}

#[test]
fn one_byte_is_one_part() {
    let p = plan(1).unwrap();
    assert_eq!(p.total_size(), 1);
    assert_eq!(p.chunk_size(), CHUNK_SIZE);
    assert_eq!(p.part_count(), 1);
    assert_eq!(p.part_length(1), Some(1));
    assert_eq!(p.part_range(1), Some((0, 1)));
}

#[test]
fn part_count_is_the_ceiling() {
    let chunk = CHUNK_SIZE as u64;
    assert_eq!(plan(2 * chunk).unwrap().part_count(), 2);
    assert_eq!(plan(2 * chunk + 1).unwrap().part_count(), 3);
    assert_eq!(plan(7 * chunk - 1).unwrap().part_count(), 7);
    assert_eq!(plan(100 * chunk).unwrap().part_count(), 100);
    assert_eq!(plan(1_000_000_007).unwrap().part_count(), 191);
}

#[test]
fn twelve_mebibytes_is_five_five_two() {
    let p = plan(12 * MIB).unwrap();
    assert_eq!(p.part_count(), 3);
    assert_eq!(p.part_length(1), Some((5 * MIB) as u32));
    assert_eq!(p.part_length(2), Some((5 * MIB) as u32));
    assert_eq!(p.part_length(3), Some((2 * MIB) as u32));
    assert_eq!(p.part_range(1), Some((0, 5 * MIB)));
    assert_eq!(p.part_range(2), Some((5 * MIB, 10 * MIB)));
    assert_eq!(p.part_range(3), Some((10 * MIB, 12 * MIB)));
}

#[test]
fn parts_outside_the_plan_do_not_exist() {
    let p = plan(12 * MIB).unwrap();
    assert_eq!(p.part_length(0), None);
    assert_eq!(p.part_length(4), None);
    assert_eq!(p.part_length(u32::MAX), None);
    assert_eq!(p.part_range(0), None);
    assert_eq!(p.part_range(4), None);
}

#[test]
fn part_lengths_add_up_to_the_file() {
    let chunk = CHUNK_SIZE as u64;
    let sizes = [
        1,
        2,
        chunk - 1,
        chunk,
        chunk + 1,
        3 * chunk,
        3 * chunk + 17,
        12 * MIB,
        1_000_000_007,
        40 * chunk - 1,
    ];
    for total in sizes {
        let p = plan(total).unwrap();
        let count = p.part_count();
        let mut sum: u64 = 0;
        let mut offset: u64 = 0;
        for n in 1..=count {
            let len = p.part_length(n).unwrap();
            if n < count {
                assert_eq!(len, CHUNK_SIZE);
            } else {
                assert!(len > 0 && len <= CHUNK_SIZE);
            }
            let (start, end) = p.part_range(n).unwrap();
            assert_eq!(start, offset);
            assert_eq!(end - start, len as u64);
            offset = end;
            sum += len as u64;
        }
        assert_eq!(sum, total);
        assert_eq!(offset, total);
    }
}

#[test]
fn largest_file_has_the_most_parts() {
    let p = plan(MAX_TOTAL_SIZE).unwrap();
    assert_eq!(p.part_count(), u32::MAX);
    assert_eq!(p.part_length(u32::MAX), Some(CHUNK_SIZE));
    assert_eq!(
        p.part_range(u32::MAX),
        Some((MAX_TOTAL_SIZE - CHUNK_SIZE as u64, MAX_TOTAL_SIZE))
    );
    let q = plan(MAX_TOTAL_SIZE - CHUNK_SIZE as u64 + 1).unwrap();
    assert_eq!(q.part_count(), u32::MAX);
    assert_eq!(q.part_length(u32::MAX), Some(1));
}
