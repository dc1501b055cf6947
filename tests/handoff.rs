use readahead_iterator::protocol::{classify, proceed, settle};
use readahead_iterator::{Arrival, IntoReadahead, Pump, Readahead};

fn drain<I: Iterator<Item = T>, T>(pump: &mut Pump<I, T>, r: &mut Readahead<T>) -> Vec<T> {
    let mut out = Vec::new();
    loop {
        if pump.running() {
            pump.step();
        }
        match r.next() {
            Some(x) => out.push(x),
            None => return out,
        }
    }
}

#[test]
fn classify_tells_messages_apart() {
    assert!(matches!(classify(Some(Some(7))), Arrival::Item(7)));
    assert!(matches!(classify::<i32>(Some(None)), Arrival::End));
    assert!(matches!(classify::<i32>(None), Arrival::Hangup));
}

#[test]
fn settle_keeps_going_on_items_only() {
    assert_eq!(settle(Arrival::Item(5)), (true, Some(5)));
    assert_eq!(settle::<i32>(Arrival::End), (false, None));
    assert_eq!(settle::<i32>(Arrival::Hangup), (false, None));
}

#[test]
fn proceed_needs_a_delivered_item() {
    assert!(proceed(true, true));
    assert!(!proceed(true, false));
    assert!(!proceed(false, true));
    assert!(!proceed(false, false));
}

#[test]
fn order_is_kept_for_every_buffer_size() {
    let expected: Vec<u32> = (0..10).map(|i| i * i).collect();
    for size in [1usize, 5, 10, 20] {
        let (mut pump, mut r) = (0..10u32).map(|i| i * i).readahead(size);
        assert_eq!(drain(&mut pump, &mut r), expected);
    }
}

#[test]
fn pulls_after_the_end_stay_empty() {
    let (mut pump, mut r) = vec!['a', 'b', 'c'].into_iter().readahead(2);
    assert_eq!(drain(&mut pump, &mut r), vec!['a', 'b', 'c']);
    assert!(!r.active());
    for _ in 0..6 {
        assert_eq!(r.next(), None);
    }
}

#[test]
fn empty_producer_ends_at_once() {
    let (mut pump, mut r) = Vec::<u8>::new().into_iter().readahead(1);
    assert!(r.active());
    assert!(!pump.step());
    assert!(!pump.running());
    assert_eq!(r.next(), None);
    assert!(!r.active());
}

#[test]
fn stopped_pump_stays_stopped() {
    let (mut pump, mut r) = vec![1u8].into_iter().readahead(4);
    assert!(pump.running());
    assert!(pump.step());
    assert!(!pump.step());
    assert!(!pump.step());
    assert_eq!(r.next(), Some(1));
    assert_eq!(r.next(), None);
}

#[test]
fn pump_runs_ahead_up_to_capacity() {
    let (mut pump, mut r) = (10..).readahead(3);
    assert!(pump.step());
    assert!(pump.step());
    assert!(pump.step());
    assert_eq!(r.next(), Some(10));
    assert!(pump.step());
    assert_eq!(r.next(), Some(11));
    assert_eq!(r.next(), Some(12));
    assert_eq!(r.next(), Some(13));
}

#[test]
fn abandoned_readahead_stops_pump() {
    let (mut pump, mut r) = (0u64..).readahead(3);
    let mut prefix = Vec::new();
    while prefix.len() < 100 {
        assert!(pump.step());
        prefix.push(r.next().unwrap());
    }
    assert_eq!(prefix, (0u64..100).collect::<Vec<u64>>());
    drop(r);
    assert!(!pump.step());
    assert!(!pump.running());
    assert!(!pump.step());
}

#[test]
fn dead_pump_leaves_buffered_items() {
    let (mut pump, mut r) = (0..).readahead(5);
    assert!(pump.step());
    assert!(pump.step());
    drop(pump);
    assert_eq!(r.next(), Some(0));
    assert_eq!(r.next(), Some(1));
    assert_eq!(r.next(), None);
    assert_eq!(r.next(), None);
}
