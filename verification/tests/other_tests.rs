use llamavision::audio::{sample_from_bytes, samples_from_chunk};
use llamavision::cli::{log_level, Verbosity};
use llamavision::display::{paint_row, Pixel};
use llamavision::history::push_row;
use llamavision::window::{advance_window, window_ready};
use std::collections::VecDeque;

#[test]
fn samples_are_little_endian_twos_complement() {
    assert_eq!(sample_from_bytes(0x00, 0x00), 0);
    assert_eq!(sample_from_bytes(0x01, 0x00), 1);
    assert_eq!(sample_from_bytes(0x00, 0x01), 256);
    assert_eq!(sample_from_bytes(0xff, 0x7f), i16::MAX);
    assert_eq!(sample_from_bytes(0x00, 0x80), i16::MIN);
    assert_eq!(sample_from_bytes(0xff, 0xff), -1);
    assert_eq!(sample_from_bytes(0x34, 0x12), 0x1234);
}

#[test]
fn chunk_is_cut_at_its_offset() {
    let data = [9u8, 9, 0x01, 0x00, 0xff, 0xff, 0x00, 0x80, 9];
    assert_eq!(samples_from_chunk(&data, 2, 6), vec![1, -1, i16::MIN]);
    assert_eq!(samples_from_chunk(&data, 2, 0), Vec::<i16>::new());
    assert_eq!(samples_from_chunk(&data, 3, 2), vec![-256]);
    let whole: Vec<u8> = vec![0x10, 0x00, 0x20, 0x00];
    assert_eq!(samples_from_chunk(&whole, 0, 4), vec![16, 32]);
}

#[test]
fn verbosity_from_flags() {
    assert_eq!(log_level(0), Verbosity::Warn);
    assert_eq!(log_level(1), Verbosity::Info);
    assert_eq!(log_level(2), Verbosity::Debug);
    assert_eq!(log_level(3), Verbosity::Trace);
    assert_eq!(log_level(200), Verbosity::Trace);
}

#[test]
fn history_keeps_the_newest_rows_first() {
    let mut rows: VecDeque<u32> = VecDeque::new();
    for k in 1..=5u32 {
        push_row(&mut rows, k, 3);
        assert!(rows.len() <= 3);
    }
    assert_eq!(rows, VecDeque::from(vec![5, 4, 3]));
    push_row(&mut rows, 6, 3);
    assert_eq!(rows, VecDeque::from(vec![6, 5, 4]));
}

#[test]
fn history_grows_until_full() {
    let mut rows: VecDeque<&str> = VecDeque::new();
    push_row(&mut rows, "a", 2);
    assert_eq!(rows, VecDeque::from(vec!["a"]));
    push_row(&mut rows, "b", 2);
    assert_eq!(rows, VecDeque::from(vec!["b", "a"]));
    push_row(&mut rows, "c", 2);
    assert_eq!(rows, VecDeque::from(vec!["c", "b"]));
}

#[test]
fn window_moves_by_half_its_width() {
    let mut q: VecDeque<u32> = (0..10).collect();
    advance_window(&mut q, 4);
    assert_eq!(q, (2..10).collect::<VecDeque<u32>>());
    advance_window(&mut q, 5);
    assert_eq!(q, (4..10).collect::<VecDeque<u32>>());
    advance_window(&mut q, 1);
    assert_eq!(q, (4..10).collect::<VecDeque<u32>>());
}

#[test]
fn row_is_painted_at_its_line() {
    let mut pixels = vec![7u8; 2 * 8];
    let colors = [Pixel { r: 1, g: 2, b: 3 }, Pixel { r: 4, g: 5, b: 6 }];
    paint_row(&mut pixels, 8, 1, &colors);
    assert_eq!(&pixels[..8], &[7u8; 8]);
    assert_eq!(&pixels[8..], &[1, 2, 3, 4, 5, 6, 7, 7]);
    paint_row(&mut pixels, 8, 0, &colors[..1]);
    assert_eq!(&pixels[..8], &[1, 2, 3, 7, 7, 7, 7, 7]);
}

#[test]
fn empty_row_paints_nothing() {
    let mut pixels = vec![0u8; 3];
    paint_row(&mut pixels, 1000, 1000, &[]);
    assert_eq!(pixels, vec![0, 0, 0]);
}

#[test]
fn window_ready_when_a_whole_window_is_queued() {
    let q: VecDeque<u8> = (0..4).collect();
    assert!(window_ready(&q, 4));
    assert!(window_ready(&q, 0));
    assert!(!window_ready(&q, 5));
}

#[test]
fn window_moves_with_only_half_queued() {
    let mut q: VecDeque<u8> = (0..3).collect();
    advance_window(&mut q, 6);
    assert!(q.is_empty());
}
