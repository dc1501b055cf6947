use readahead_iterator::{IntoReadahead, Pump, Readahead};

/// Alternates one pump step with one pull until `limit` items have come
/// back or the readahead ends; a channel of capacity one or more never
/// makes either side wait this way.
fn take<I: Iterator<Item = T>, T>(pump: &mut Pump<I, T>, r: &mut Readahead<T>, limit: usize) -> Vec<T> {
    let mut out = Vec::new();
    while out.len() < limit {
        if pump.running() {
            pump.step();
        }
        match r.next() {
            Some(x) => out.push(x),
            None => break,
        }
    }
    out
}

#[test]
fn iterate_integers() {
    const N: usize = 100;
    let (mut pump, mut r) = (0..N).map(|i| i * 3).readahead(50);
    let s: usize = take(&mut pump, &mut r, usize::MAX).into_iter().sum();
    assert_eq!(s, 3 * (N * (N - 1)) / 2);
}

/// Continuing to read after the producer ends gets more Nones.
#[test]
fn read_past_end() {
    let (mut pump, mut rah) = (0..10).map(|i| i).readahead(50);
    while pump.step() {}
    for i in 0..20 {
        let v = rah.next();
        if i < 10 {
            assert_eq!(v, Some(i));
        } else {
            assert_eq!(v, None);
        }
    }
}

#[test]
fn take_exact_count() {
    let (mut pump, mut r) = (0..10).readahead(5);
    let values = take(&mut pump, &mut r, 10);
    assert_eq!(values, vec![0, 1, 2, 3, 4, 5, 6, 7, 8, 9]);
}

#[test]
fn take_fewer_items() {
    let (mut pump, mut r) = (0..10).readahead(5);
    let values = take(&mut pump, &mut r, 5);
    assert_eq!(values, vec![0, 1, 2, 3, 4]);
}

#[test]
fn take_more_items() {
    let (mut pump, mut r) = (0..5).readahead(3);
    let values = take(&mut pump, &mut r, 10);
    assert_eq!(values, vec![0, 1, 2, 3, 4]);
}

#[test]
fn unbounded_input() {
    let (mut pump, mut r) = (0..).into_iter().readahead(3);
    take(&mut pump, &mut r, 100).into_iter().for_each(|x| println!("{}", x));
}

/// The pump's side ends without the end marker: the readahead sees that as
/// the end, without panicking.
#[test]
fn sender_exits_unexpectedly() {
    let (mut pump, mut r) = (1..).readahead(4);
    assert!(pump.step());
    drop(pump);
    assert_eq!(r.next(), Some(1));
    assert_eq!(r.next(), None);
    assert_eq!(r.next(), None);
}

/// The producer panics on its second item. The thread that runs the pump
/// dies on it, which drops the pump without an end marker; here the pump
/// is dropped at that point.
#[test]
fn receiver_doesnt_panic_if_sender_panics() {
    let vals = vec![false, true];
    let iter = vals.into_iter().map(|v| if v { panic!() } else { 2 });
    let (mut pump, mut r) = iter.readahead(1);
    assert!(pump.step());
    drop(pump);
    assert_eq!(r.next(), Some(2));
    assert_eq!(r.next(), None);
    assert_eq!(r.next(), None);
}
