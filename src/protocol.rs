//! The handoff protocol between a pump and its readahead: the decisions
//! each side takes, and a model of the two sides joined by a bounded FIFO
//! channel, over which the protocol's laws are proved.
use vstd::prelude::*;

verus! {

/// What one receive on the consumer's side can bring.
pub enum Arrival<T> {
    /// A producer item.
    Item(T),
    /// The end marker that the pump sends once the producer is exhausted.
    End,
    /// The pump is gone without having sent the end marker, as when the
    /// producer panics on the pump's thread. This ends the sequence just as
    /// the end marker does: the consumer keeps every item sent before, and
    /// does not learn that the producer failed, which is the price of never
    /// raising the producer's failure on the consumer's side.
    Hangup,
}

/// The arrival that a raw receive result stands for: a message, which is an
/// item or the end marker, or no message because the sending end is gone.
pub open spec fn arrival_of<T>(received: Option<Option<T>>) -> Arrival<T> {
    match received {
        Some(Some(x)) => Arrival::Item(x),
        Some(None) => Arrival::End,
        None => Arrival::Hangup,
    }
}

/// What the consumer does on an arrival: whether it stays active, and what
/// its pull returns. Both the end marker and a hangup end the sequence.
pub open spec fn after_arrival<T>(a: Arrival<T>) -> (bool, Option<T>) {
    match a {
        Arrival::Item(x) => (true, Some(x)),
        Arrival::End => (false, None),
        Arrival::Hangup => (false, None),
    }
}

/// Whether the pump goes on after handing over `message`: only after an
/// item that the channel took.
pub open spec fn pump_goes_on<T>(message: Option<T>, delivered: bool) -> bool {
    message is Some && delivered
}

/// The first element of a sequence, if any.
pub open spec fn head_of<T>(s: Seq<T>) -> Option<T> {
    if s.len() > 0 {
        Some(s[0])
    } else {
        None
    }
}


/// A model of a pump and a readahead joined by a channel, as a whole.
pub struct Handoff<T> {
    /// What the producer has yet to yield.
    pub pending: Seq<T>,
    /// The items in the channel, oldest first.
    pub queue: Seq<T>,
    /// Whether the end marker stands in the channel behind `queue`.
    pub marked: bool,
    /// The capacity the channel was made with.
    pub capacity: nat,
    /// Whether the pump is running.
    pub pumping: bool,
    /// Whether the receiving end of the channel is still held.
    pub attached: bool,
    /// Whether the readahead is active.
    pub active: bool,
    /// The items that the readahead's pulls have returned, in order.
    pub taken: Seq<T>,
}

/// One thing that can happen next.
pub enum Move {
    /// The pump takes a step.
    Pump,
    /// The consumer pulls from the readahead.
    Pull,
    /// The consumer drops the readahead.
    Abandon,
    /// The producer faults and the pump dies.
    Fault,
}

/// How many messages the channel can hold before a send waits. A channel of
/// capacity zero still passes one message at a time, by rendezvous.
pub open spec fn slots(capacity: nat) -> nat {
    if capacity == 0 {
        1
    } else {
        capacity
    }
}

/// The messages that stand in the channel: the items, and the end marker.
pub open spec fn occupancy<T>(s: Handoff<T>) -> nat {
    s.queue.len() + if s.marked {
        1nat
    } else {
        0nat
    }
}

/// A fresh pump and readahead over `source`, on a channel of `capacity`.
pub open spec fn start<T>(source: Seq<T>, capacity: nat) -> Handoff<T> {
    Handoff {
        pending: source,
        queue: Seq::empty(),
        marked: false,
        capacity,
        pumping: true,
        attached: true,
        active: true,
        taken: Seq::empty(),
    }
}

/// What a receive in state `s` brings, when it does not wait.
pub open spec fn received<T>(s: Handoff<T>) -> Option<Option<T>> {
    if s.queue.len() > 0 {
        Some(Some(s.queue[0]))
    } else if s.marked {
        Some(None)
    } else {
        None
    }
}

/// Whether `m` can happen in `s` without waiting: a send waits while the
/// channel is full and the readahead is held, a receive waits while the
/// channel is empty and the pump runs.
pub open spec fn enabled<T>(s: Handoff<T>, m: Move) -> bool {
    match m {
        Move::Pump => s.pumping && (occupancy(s) < slots(s.capacity) || !s.attached),
        Move::Pull => !s.active || s.queue.len() > 0 || s.marked || !s.pumping,
        Move::Abandon => s.attached,
        Move::Fault => s.pumping,
    }
}

/// The readahead lets go of the channel: what stood in it is dropped.
pub open spec fn detach<T>(s: Handoff<T>) -> Handoff<T> {
    Handoff { attached: false, active: false, queue: Seq::empty(), marked: false, ..s }
}

/// The state after `m`, which must be enabled in `s`.
pub open spec fn apply<T>(s: Handoff<T>, m: Move) -> Handoff<T> {
    match m {
        Move::Pump => {
            let message = head_of(s.pending);
            let rest = if s.pending.len() > 0 {
                s.pending.drop_first()
            } else {
                s.pending
            };
            let after = Handoff {
                pending: rest,
                pumping: pump_goes_on(message, s.attached),
                ..s
            };
            if !s.attached {
                after
            } else {
                match message {
                    Some(x) => Handoff { queue: s.queue.push(x), ..after },
                    None => Handoff { marked: true, ..after },
                }
            }
        },
        Move::Pull => {
            if !s.active {
                s
            } else {
                let (keep, out) = after_arrival(arrival_of(received(s)));
                let taken = match out {
                    Some(x) => s.taken.push(x),
                    None => s.taken,
                };
                if keep {
                    Handoff { queue: s.queue.drop_first(), taken, ..s }
                } else {
                    detach(Handoff { taken, ..s })
                }
            }
        },
        Move::Abandon => detach(s),
        Move::Fault => Handoff { pumping: false, ..s },
    }
}

/// One move, where it can happen; otherwise the state stays as it is.
pub open spec fn step<T>(s: Handoff<T>, m: Move) -> Handoff<T> {
    if enabled(s, m) {
        apply(s, m)
    } else {
        s
    }
}

/// The state after a run of moves.
pub open spec fn run<T>(s: Handoff<T>, moves: Seq<Move>) -> Handoff<T>
    decreases moves.len(),
{
    if moves.len() == 0 {
        s
    } else {
        run(step(s, moves[0]), moves.drop_first())
    }
}

/// A run in which the consumer keeps the readahead and the producer does
/// not fault.
pub open spec fn undisturbed(moves: Seq<Move>) -> bool {
    forall|i: int| 0 <= i < moves.len() ==> (#[trigger] moves[i] is Pump || moves[i] is Pull)
}

/// Whether `p` is a prefix of `s`.
pub open spec fn is_prefix<T>(p: Seq<T>, s: Seq<T>) -> bool {
    p.len() <= s.len() && p == s.take(p.len() as int)
}

/// What holds in every state reached from `start(source, _)`.
pub open spec fn consistent<T>(source: Seq<T>, s: Handoff<T>) -> bool {
    &&& occupancy(s) <= slots(s.capacity)
    &&& is_prefix(s.taken, source)
    &&& s.attached ==> s.taken + s.queue + s.pending == source
    &&& s.marked ==> s.pending.len() == 0 && !s.pumping
    &&& s.active ==> s.attached
    &&& !s.attached ==> s.queue.len() == 0 && !s.marked && !s.active
}

/// What holds besides in every state of an undisturbed run.
pub open spec fn orderly<T>(source: Seq<T>, s: Handoff<T>) -> bool {
    &&& s.attached == s.active
    &&& s.active && !s.pumping ==> s.marked
    &&& !s.active ==> s.taken == source
}

proof fn lemma_step_consistent<T>(source: Seq<T>, s: Handoff<T>, m: Move)
    requires
        consistent(source, s),
    ensures
        consistent(source, step(s, m)),
        (m is Pump || m is Pull) && orderly(source, s) ==> orderly(source, step(s, m)),
{
    if enabled(s, m) {
        let t = apply(s, m);
        match m {
            Move::Pump => {
                if s.attached && s.pending.len() > 0 {
                    assert(s.taken + t.queue + t.pending =~= s.taken + s.queue + s.pending);
                }
            },
            Move::Pull => {
                if s.active && s.queue.len() > 0 {
                    assert(t.taken + t.queue + t.pending =~= s.taken + s.queue + s.pending);
                    assert(is_prefix(t.taken, source)) by {
                        assert(source.take(t.taken.len() as int) =~= t.taken);
                    }
                }
                if s.active && s.queue.len() == 0 && s.marked {
                    assert(s.taken =~= source);
                }
            },
            _ => {},
        }
    }
}

proof fn lemma_run_consistent<T>(source: Seq<T>, s: Handoff<T>, moves: Seq<Move>)
    requires
        consistent(source, s),
    ensures
        consistent(source, run(s, moves)),
        undisturbed(moves) && orderly(source, s) ==> orderly(source, run(s, moves)),
    decreases moves.len(),
{
    if moves.len() > 0 {
        lemma_step_consistent(source, s, moves[0]);
        if undisturbed(moves) {
            assert(moves[0] is Pump || moves[0] is Pull);
            assert(undisturbed(moves.drop_first())) by {
                assert forall|i: int| 0 <= i < moves.drop_first().len() implies
                    (#[trigger] moves.drop_first()[i] is Pump || moves.drop_first()[i] is Pull) by {
                    assert(moves.drop_first()[i] == moves[i + 1]);
                }
            }
        }
        lemma_run_consistent(source, step(s, moves[0]), moves.drop_first());
    }
}

proof fn lemma_start_consistent<T>(source: Seq<T>, capacity: nat)
    ensures
        consistent(source, start(source, capacity)),
        orderly(source, start(source, capacity)),
{
    assert(source.take(0) =~= Seq::<T>::empty());
    assert(Seq::<T>::empty() + Seq::<T>::empty() + source =~= source);
}

/// The channel never holds more messages than it has room for: the pump
/// runs at most that far ahead of the consumer.
pub proof fn lemma_backpressure<T>(source: Seq<T>, capacity: nat, moves: Seq<Move>)
    ensures
        occupancy(run(start(source, capacity), moves)) <= slots(capacity),
{
    lemma_start_consistent(source, capacity);
    lemma_run_consistent(source, start(source, capacity), moves);
    lemma_run_keeps_capacity(start(source, capacity), moves);
}

proof fn lemma_run_keeps_capacity<T>(s: Handoff<T>, moves: Seq<Move>)
    ensures
        run(s, moves).capacity == s.capacity,
    decreases moves.len(),
{
    if moves.len() > 0 {
        lemma_run_keeps_capacity(step(s, moves[0]), moves.drop_first());
    }
}

/// Whatever happens, the items the consumer receives are the producer's
/// first items, in the producer's order; and once the readahead ends on a
/// run where the consumer kept it and the producer did not fault, they are
/// all of the producer's items.
pub proof fn lemma_order_preserved<T>(source: Seq<T>, capacity: nat, moves: Seq<Move>)
    ensures
        is_prefix(run(start(source, capacity), moves).taken, source),
        undisturbed(moves) && !run(start(source, capacity), moves).active ==>
            run(start(source, capacity), moves).taken == source,
{
    lemma_start_consistent(source, capacity);
    lemma_run_consistent(source, start(source, capacity), moves);
}

/// The items received over a run that ends the readahead undisturbed do not
/// depend on the channel's capacity, nor on how the two sides interleave.
pub proof fn lemma_capacity_independent<T>(
    source: Seq<T>,
    capacity1: nat,
    moves1: Seq<Move>,
    capacity2: nat,
    moves2: Seq<Move>,
)
    requires
        undisturbed(moves1),
        undisturbed(moves2),
        !run(start(source, capacity1), moves1).active,
        !run(start(source, capacity2), moves2).active,
    ensures
        run(start(source, capacity1), moves1).taken == run(start(source, capacity2), moves2).taken,
{
    lemma_order_preserved(source, capacity1, moves1);
    lemma_order_preserved(source, capacity2, moves2);
}

/// Once the readahead has ended, it stays ended and returns nothing more,
/// whatever happens next.
pub proof fn lemma_end_is_final<T>(s: Handoff<T>, moves: Seq<Move>)
    requires
        !s.active,
    ensures
        !run(s, moves).active,
        run(s, moves).taken == s.taken,
    decreases moves.len(),
{
    if moves.len() > 0 {
        lemma_end_is_final(step(s, moves[0]), moves.drop_first());
    }
}

/// A run of `n` pulls.
pub open spec fn pulls(n: nat) -> Seq<Move> {
    Seq::new(n, |i: int| Move::Pull)
}

/// While the readahead is active, the two sides never wait on each other
/// at once: a pull or a pump step can always happen.
pub proof fn lemma_no_deadlock<T>(source: Seq<T>, capacity: nat, moves: Seq<Move>)
    ensures
        run(start(source, capacity), moves).active ==>
            enabled(run(start(source, capacity), moves), Move::Pull)
            || enabled(run(start(source, capacity), moves), Move::Pump),
{
    lemma_start_consistent(source, capacity);
    lemma_run_consistent(source, start(source, capacity), moves);
}

/// Once the consumer has dropped the readahead, the pump's next step does
/// not wait and stops it; from then on nothing stands in the channel,
/// nothing more is received, and the pump pulls at most one more item from
/// the producer, whatever happens.
pub proof fn lemma_abandon_stops_pump<T>(s: Handoff<T>, moves: Seq<Move>)
    requires
        !s.attached,
        !s.active,
        s.queue.len() == 0,
    ensures
        s.pumping ==> enabled(s, Move::Pump) && !step(s, Move::Pump).pumping,
        !run(s, moves).attached,
        !run(s, moves).active,
        run(s, moves).queue.len() == 0,
        run(s, moves).taken == s.taken,
        run(s, moves).pending.len() + 1 >= s.pending.len(),
        !s.pumping ==> run(s, moves).pending == s.pending && !run(s, moves).pumping,
    decreases moves.len(),
{
    if moves.len() > 0 {
        lemma_abandon_stops_pump(step(s, moves[0]), moves.drop_first());
    }
}

/// Once the pump is gone, for whatever reason, no pull ever waits.
pub proof fn lemma_pull_never_waits<T>(s: Handoff<T>, moves: Seq<Move>)
    requires
        !s.pumping,
    ensures
        !run(s, moves).pumping,
        enabled(run(s, moves), Move::Pull),
    decreases moves.len(),
{
    if moves.len() > 0 {
        lemma_pull_never_waits(step(s, moves[0]), moves.drop_first());
    }
}

/// When the pump dies, by a fault of the producer or otherwise, the
/// consumer still receives every item that stands in the channel, and the
/// pull after them ends the readahead.
pub proof fn lemma_fault_drains<T>(source: Seq<T>, s: Handoff<T>)
    requires
        consistent(source, s),
        !s.pumping,
        s.active,
    ensures
        !run(s, pulls(s.queue.len() + 1)).active,
        run(s, pulls(s.queue.len() + 1)).taken == s.taken + s.queue,
    decreases s.queue.len(),
{
    let n = (s.queue.len() + 1) as nat;
    let s1 = step(s, Move::Pull);
    assert(pulls(n).drop_first() =~= pulls((n - 1) as nat));
    assert(pulls(n)[0] == Move::Pull);
    lemma_step_consistent(source, s, Move::Pull);
    assert(run(s, pulls(n)) == run(s1, pulls((n - 1) as nat)));
    if s.queue.len() > 0 {
        assert(s1.active);
        assert(s1.queue.len() + 1 == n - 1);
        assert(s1.taken + s1.queue =~= s.taken + s.queue);
        lemma_fault_drains(source, s1);
    } else {
        assert(pulls(0).len() == 0);
        assert(run(s1, pulls(0)) == s1);
        assert(!s1.active);
        assert(s.taken + s.queue =~= s.taken);
    }
}

/// Tells a raw receive result apart.
pub fn classify<T>(received: Option<Option<T>>) -> (a: Arrival<T>)
    ensures
        a == arrival_of(received),
{
    match received {
        Some(Some(x)) => Arrival::Item(x),
        Some(None) => Arrival::End,
        None => Arrival::Hangup,
    }
}

/// The consumer's decision on an arrival.
pub fn settle<T>(a: Arrival<T>) -> (r: (bool, Option<T>))
    ensures
        r == after_arrival(a),
{
    match a {
        Arrival::Item(x) => (true, Some(x)),
        Arrival::End => (false, None),
        Arrival::Hangup => (false, None),
    }
}

/// The pump's decision after a send: `was_item` tells whether the message
/// was an item (not the end marker), `delivered` whether the channel took it.
pub fn proceed(was_item: bool, delivered: bool) -> (more: bool)
    ensures
        more == (was_item && delivered),
{
    was_item && delivered
}

} // verus!
