use llamavision::protocol::{reader_step, writer_step, ReadStep, WriteStep};
use llamavision::state::{
    clear_ready, is_ready, read_index, set_ready, swap_indexes, write_index, READY_BIT,
    WRITE_INDEX_BIT,
};

#[test]
fn bit_positions() {
    assert_eq!(WRITE_INDEX_BIT, 0);
    assert_eq!(READY_BIT, 1);
}

#[test]
fn indexes_of_words() {
    assert_eq!(write_index(0), 0);
    assert_eq!(read_index(0), 1);
    assert_eq!(write_index(1), 1);
    assert_eq!(read_index(1), 0);
    assert_eq!(write_index(0b110), 0);
    assert_eq!(read_index(0b111), 0);
    assert_eq!(write_index(u32::MAX), 1);
    assert_eq!(read_index(u32::MAX), 0);
}

#[test]
fn swap_flips_only_the_index_bit() {
    assert_eq!(swap_indexes(0), 1);
    assert_eq!(swap_indexes(1), 0);
    assert_eq!(swap_indexes(0b110), 0b111);
    assert_eq!(swap_indexes(u32::MAX), u32::MAX - 1);
    assert_eq!(swap_indexes(swap_indexes(0xdead_beef)), 0xdead_beef);
}

#[test]
fn ready_flag() {
    assert!(!is_ready(0));
    assert!(!is_ready(1));
    assert!(is_ready(2));
    assert!(is_ready(3));
    assert_eq!(set_ready(0), 2);
    assert_eq!(set_ready(1), 3);
    assert_eq!(set_ready(2), 2);
    assert_eq!(clear_ready(3), 1);
    assert_eq!(clear_ready(0), 0);
    assert_eq!(clear_ready(u32::MAX), u32::MAX - 2);
    assert_eq!(set_ready(0xf0), 0xf2);
}

#[test]
fn writer_decisions() {
    assert_eq!(writer_step(0), WriteStep::Write { slot: 0, publish: 3 });
    assert_eq!(writer_step(1), WriteStep::Write { slot: 1, publish: 2 });
    assert_eq!(writer_step(2), WriteStep::Wait);
    assert_eq!(writer_step(3), WriteStep::Wait);
    assert_eq!(writer_step(0x10), WriteStep::Write { slot: 0, publish: 0x13 });
}

#[test]
fn reader_decisions() {
    assert_eq!(reader_step(0), ReadStep::Wait);
    assert_eq!(reader_step(1), ReadStep::Wait);
    assert_eq!(reader_step(3), ReadStep::Read { release: 1, slot: 0 });
    assert_eq!(reader_step(2), ReadStep::Read { release: 0, slot: 1 });
}

#[test]
fn read_finds_the_slot_just_written() {
    let mut s: u32 = 0;
    for _ in 0..5 {
        let (w, p) = match writer_step(s) {
            WriteStep::Write { slot, publish } => (slot, publish),
            WriteStep::Wait => panic!("writer must not wait on an empty buffer"),
        };
        assert_eq!(writer_step(p), WriteStep::Wait);
        let (r, rel) = match reader_step(p) {
            ReadStep::Read { release, slot } => (slot, release),
            ReadStep::Wait => panic!("reader must find the published value"),
        };
        assert_eq!(r, w);
        assert_eq!(reader_step(rel), ReadStep::Wait);
        match writer_step(rel) {
            WriteStep::Write { slot, .. } => assert_ne!(slot, r),
            WriteStep::Wait => panic!("writer must go on after a read"),
        }
        s = rel;
    }
}
