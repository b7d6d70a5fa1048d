use llamavision::pingpong::{ping_pong, Attempt, PingPong};
use std::sync::atomic::Ordering;

#[test]
fn nothing_to_read_at_first() {
    let (_w, r) = ping_pong(7u32);
    let mut seen = None;
    assert!(!r.try_read(|v: &u32| seen = Some(*v)));
    assert_eq!(seen, None);
}

#[test]
fn read_gives_back_the_write() {
    let (w, r) = ping_pong(0u32);
    assert!(w.try_write(|v: &mut u32| *v = 42));
    let mut seen = None;
    assert!(r.try_read(|v: &u32| seen = Some(*v)));
    assert_eq!(seen, Some(42));
}

#[test]
fn second_write_waits_for_the_reader() {
    let (w, r) = ping_pong(0u32);
    assert!(w.try_write(|v: &mut u32| *v = 1));
    let mut ran = false;
    assert!(!w.try_write(|v: &mut u32| {
        *v = 2;
        ran = true;
    }));
    assert!(!ran);
    let mut seen = None;
    assert!(r.try_read(|v: &u32| seen = Some(*v)));
    assert_eq!(seen, Some(1));
    assert!(!r.try_read(|_: &u32| panic!("nothing new was written")));
}

#[test]
fn values_alternate_between_the_slots() {
    let (w, r) = ping_pong(Vec::<i16>::new());
    for round in 0..6i16 {
        assert!(w.try_write(|v: &mut Vec<i16>| {
            v.clear();
            v.push(round);
            v.push(-round);
        }));
        let mut seen = Vec::new();
        assert!(r.try_read(|v: &Vec<i16>| seen = v.clone()));
        assert_eq!(seen, vec![round, -round]);
    }
}

#[test]
fn writer_sees_the_slot_it_left_two_writes_ago() {
    // The writer's closure gets the slot as it was left: the first two
    // writes find the initial value and its clone, the third the first write.
    let (w, r) = ping_pong(5u32);
    let mut found = Vec::new();
    for k in 0..3u32 {
        assert!(w.try_write(|v: &mut u32| {
            found.push(*v);
            *v = 100 + k;
        }));
        assert!(r.try_read(|_: &u32| {}));
    }
    assert_eq!(found, vec![5, 5, 100]);
}

#[test]
fn blocked_attempts_hand_the_callback_back() {
    let (w, r) = ping_pong(0u8);
    match r.attempt_read(|_: &u8| {}) {
        Attempt::Blocked { seen, .. } => assert_eq!(seen, 0),
        Attempt::Done { .. } => panic!("nothing was written"),
    }
    match w.attempt_write(|v: &mut u8| *v = 9) {
        Attempt::Done { seen, slot, stored } => {
            assert_eq!(seen, 0);
            assert_eq!(slot, 0);
            assert_eq!(stored, 3);
        }
        Attempt::Blocked { .. } => panic!("the buffer was empty"),
    }
    match w.attempt_write(|v: &mut u8| *v = 10) {
        Attempt::Blocked { callback, seen } => {
            assert_eq!(seen, 3);
            let mut x = 0u8;
            callback(&mut x);
            assert_eq!(x, 10);
        }
        Attempt::Done { .. } => panic!("the reader had not read"),
    }
    let mut seen = 0u8;
    match r.attempt_read(|v: &u8| seen = *v) {
        Attempt::Done { seen: word, slot, stored } => {
            assert_eq!(word, 3);
            assert_eq!(slot, 0);
            assert_eq!(stored, 1);
            assert_eq!(seen, 9);
        }
        Attempt::Blocked { .. } => panic!("a value was written"),
    }
}

#[test]
fn state_word_follows_the_attempts() {
    let (w, r) = ping_pong(0u8);
    assert_eq!(w.state_word().load(Ordering::SeqCst), 0);
    assert!(w.try_write(|v: &mut u8| *v = 1));
    assert_eq!(w.state_word().load(Ordering::SeqCst), 3);
    assert_eq!(r.state_word().load(Ordering::SeqCst), 3);
    assert!(r.try_read(|_: &u8| {}));
    assert_eq!(r.state_word().load(Ordering::SeqCst), 1);
}

#[test]
fn new_buffer_is_shareable() {
    let p = PingPong::new(String::from("x"));
    let q = std::sync::Arc::new(p);
    assert_eq!(std::sync::Arc::strong_count(&q), 1);
}

#[test]
fn attempts_follow_the_slots_round_after_round() {
    let (w, r) = ping_pong(0u32);
    let expected = [(0u32, 0usize, 3u32, 1u32), (1, 1, 2, 0), (0, 0, 3, 1)];
    for (k, &(seen_w, slot_w, stored_w, stored_r)) in expected.iter().enumerate() {
        match w.attempt_write(|v: &mut u32| *v = k as u32) {
            Attempt::Done { seen, slot, stored } => {
                assert_eq!((seen, slot, stored), (seen_w, slot_w, stored_w));
            }
            Attempt::Blocked { .. } => panic!("the reader had read"),
        }
        let mut got = None;
        match r.attempt_read(|v: &u32| got = Some(*v)) {
            Attempt::Done { seen, slot, stored } => {
                assert_eq!(seen, stored_w);
                assert_eq!(slot, slot_w);
                assert_eq!(stored, stored_r);
            }
            Attempt::Blocked { .. } => panic!("a value was written"),
        }
        assert_eq!(got, Some(k as u32));
    }
}

#[test]
fn writer_knows_whether_the_reader_is_there() {
    let (w, r) = ping_pong(0u8);
    assert!(w.has_reader());
    drop(r);
    assert!(!w.has_reader());
}
