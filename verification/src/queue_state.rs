//! The sequence of work that the handles of one queue share, as a plain value.

use std::collections::VecDeque;
use vstd::prelude::*;

verus! {

/// The item that a pull hands out: the oldest, if there is any.
pub open spec fn front<T>(items: Seq<T>) -> Option<T> {
    if items.len() > 0 {
        Some(items[0])
    } else {
        None
    }
}

/// What a pull leaves: all but the oldest item.
pub open spec fn behind<T>(items: Seq<T>) -> Seq<T> {
    if items.len() > 0 {
        items.drop_first()
    } else {
        items
    }
}

/// Work items in the order in which they were pushed. Its view is that
/// sequence, oldest first.
pub struct QueueState<T> {
    items: VecDeque<T>,
}

impl<T> View for QueueState<T> {
    type V = Seq<T>;

    closed spec fn view(&self) -> Seq<T> {
        self.items@
    }
}

impl<T> QueueState<T> {
    /// An empty sequence.
    pub fn new() -> (state: Self)
        ensures
            state@ == Seq::<T>::empty(),
    {
        QueueState { items: VecDeque::new() }
    }

    /// An empty sequence with room for `capacity` items. The room is a hint
    /// only: it changes nothing that can be observed.
    pub fn with_capacity(capacity: usize) -> (state: Self)
        ensures
            state@ == Seq::<T>::empty(),
    {
        QueueState { items: VecDeque::with_capacity(capacity) }
    }

    /// Appends `item` and returns the number of items then present.
    pub fn push(&mut self, item: T) -> (count: usize)
        ensures
            final(self)@ == old(self)@.push(item),
            count == old(self)@.len() + 1,
    {
        self.items.push_back(item);
        self.items.len()
    }

    /// Removes and returns the oldest item; `None`, and no change, when there
    /// is none.
    pub fn pull(&mut self) -> (item: Option<T>)
        ensures
            item == front(old(self)@),
            final(self)@ == behind(old(self)@),
    {
        self.items.pop_front()
    }

    /// The number of items.
    pub fn len(&self) -> (count: usize)
        ensures
            count == self@.len(),
    {
        self.items.len()
    }
}

/// One operation on the sequence, by whichever handle performed it.
pub enum Op<T> {
    /// A push of the item.
    Push(T),
    /// A pull, whether or not it found an item.
    Pull,
}

/// The sequence after one operation.
pub open spec fn apply<T>(items: Seq<T>, op: Op<T>) -> Seq<T> {
    match op {
        Op::Push(item) => items.push(item),
        Op::Pull => behind(items),
    }
}

/// The sequence after the operations `ops`, performed in that order.
pub open spec fn run<T>(items: Seq<T>, ops: Seq<Op<T>>) -> Seq<T>
    decreases ops.len(),
{
    if ops.len() == 0 {
        items
    } else {
        apply(run(items, ops.drop_last()), ops.last())
    }
}

/// The items that the pushes among `ops` put in, in order.
pub open spec fn pushed<T>(ops: Seq<Op<T>>) -> Seq<T>
    decreases ops.len(),
{
    if ops.len() == 0 {
        Seq::empty()
    } else {
        match ops.last() {
            Op::Push(item) => pushed(ops.drop_last()).push(item),
            Op::Pull => pushed(ops.drop_last()),
        }
    }
}

/// The items that the pulls among `ops` handed out, in order. A pull that
/// found the sequence empty handed out none.
pub open spec fn pulled<T>(items: Seq<T>, ops: Seq<Op<T>>) -> Seq<T>
    decreases ops.len(),
{
    if ops.len() == 0 {
        Seq::empty()
    } else {
        let earlier = pulled(items, ops.drop_last());
        match (ops.last(), front(run(items, ops.drop_last()))) {
            (Op::Pull, Some(item)) => earlier.push(item),
            _ => earlier,
        }
    }
}

/// One push for each of `items`, in order.
pub open spec fn pushes_of<T>(items: Seq<T>) -> Seq<Op<T>> {
    Seq::new(items.len(), |i: int| Op::Push(items[i]))
}

/// `count` pulls.
pub open spec fn pulls<T>(count: nat) -> Seq<Op<T>> {
    Seq::new(count, |i: int| Op::Pull)
}

/// Nothing is lost, doubled or reordered: whatever pushes and pulls are
/// performed, and in whatever order, the items handed out so far followed by
/// the items still waiting are the items that were there at the start followed
/// by the items pushed since.
pub proof fn law_fifo<T>(items: Seq<T>, ops: Seq<Op<T>>)
    ensures
        pulled(items, ops) + run(items, ops) == items + pushed(ops),
    decreases ops.len(),
{
    if ops.len() == 0 {
        assert(Seq::<T>::empty() + items == items + Seq::<T>::empty());
    } else {
        let before = ops.drop_last();
        law_fifo(items, before);
        let out = pulled(items, before);
        let waiting = run(items, before);
        match ops.last() {
            Op::Push(item) => {
                assert(out + waiting.push(item) == (out + waiting).push(item));
                assert((items + pushed(before)).push(item) == items + pushed(before).push(item));
            },
            Op::Pull => {
                if waiting.len() > 0 {
                    assert(out.push(waiting[0]) + waiting.drop_first() == out + waiting);
                }
            },
        }
    }
}

/// The length of a queue that started empty is the number of pushes less the
/// number of pulls that found an item.
pub proof fn law_len<T>(ops: Seq<Op<T>>)
    ensures
        pulled(Seq::<T>::empty(), ops).len() <= pushed(ops).len(),
        run(Seq::<T>::empty(), ops).len() == pushed(ops).len() - pulled(Seq::<T>::empty(), ops).len(),
{
    let start = Seq::<T>::empty();
    law_fifo(start, ops);
    assert((pulled(start, ops) + run(start, ops)).len() == (start + pushed(ops)).len());
}

/// Operations performed one after the other: the second lot starts from the
/// sequence that the first lot left.
pub proof fn lemma_run_concat<T>(items: Seq<T>, first: Seq<Op<T>>, second: Seq<Op<T>>)
    ensures
        run(items, first + second) == run(run(items, first), second),
        pulled(items, first + second) == pulled(items, first) + pulled(run(items, first), second),
        pushed(first + second) == pushed(first) + pushed(second),
    decreases second.len(),
{
    if second.len() == 0 {
        assert(first + second == first);
        assert(pulled(items, first) + Seq::<T>::empty() == pulled(items, first));
        assert(pushed(first) + Seq::<T>::empty() == pushed(first));
    } else {
        let all = first + second;
        assert(all.drop_last() == first + second.drop_last());
        assert(all.last() == second.last());
        lemma_run_concat(items, first, second.drop_last());
        let a = pulled(items, first);
        let b = pulled(run(items, first), second.drop_last());
        let c = pushed(first);
        let d = pushed(second.drop_last());
        match (second.last(), front(run(run(items, first), second.drop_last()))) {
            (Op::Pull, Some(item)) => {
                assert((a + b).push(item) == a + b.push(item));
            },
            _ => {},
        }
        match second.last() {
            Op::Push(item) => {
                assert((c + d).push(item) == c + d.push(item));
            },
            Op::Pull => {},
        }
    }
}

/// Pushes alone hand nothing out and put in exactly their items.
pub proof fn lemma_pushes_only<T>(items: Seq<T>)
    ensures
        pushed(pushes_of(items)) == items,
        pulled(Seq::<T>::empty(), pushes_of(items)) == Seq::<T>::empty(),
    decreases items.len(),
{
    let ops = pushes_of(items);
    if items.len() > 0 {
        lemma_pushes_only(items.drop_last());
        assert(ops.drop_last() == pushes_of(items.drop_last()));
        assert(ops.last() == Op::Push(items.last()));
        assert(items.drop_last().push(items.last()) == items);
    }
}

/// Pulls alone put nothing in, and each of them that finds an item shortens
/// the sequence by one.
pub proof fn lemma_pulls_only<T>(items: Seq<T>, count: nat)
    ensures
        pushed(pulls::<T>(count)) == Seq::<T>::empty(),
        count <= items.len() ==> run(items, pulls(count)).len() == items.len() - count,
    decreases count,
{
    let ops = pulls::<T>(count);
    if count > 0 {
        lemma_pulls_only(items, (count - 1) as nat);
        assert(ops.drop_last() == pulls::<T>((count - 1) as nat));
        assert(ops.last() == Op::<T>::Pull);
    }
}

/// Items pushed onto an empty queue, with no pull before the last push, come
/// back in the order in which they were pushed: as many pulls as there were
/// pushes hand out exactly those items, oldest first, and leave the queue
/// empty.
pub proof fn law_pushed_order_is_pulled_order<T>(items: Seq<T>)
    ensures
        pulled(Seq::<T>::empty(), pushes_of(items) + pulls(items.len())) == items,
        run(Seq::<T>::empty(), pushes_of(items) + pulls(items.len())) == Seq::<T>::empty(),
{
    let start = Seq::<T>::empty();
    let ins = pushes_of(items);
    let outs = pulls::<T>(items.len());
    let ops = ins + outs;
    lemma_run_concat(start, ins, outs);
    lemma_pushes_only(items);
    law_fifo(start, ins);
    assert(start + run(start, ins) == run(start, ins));
    assert(start + items == items);
    lemma_pulls_only(run(start, ins), items.len());
    assert(pushed(ops) == items) by {
        assert(items + Seq::<T>::empty() == items);
    }
    law_fifo(start, ops);
    assert(run(start, ops).len() == 0);
    assert(pulled(start, ops) + run(start, ops) == pulled(start, ops));
}

} // verus!
