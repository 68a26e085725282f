//! A lazy sequence that puts a separator run between each two items of a
//! source.

use vstd::arithmetic::div_mod::lemma_fundamental_div_mod_converse;
use vstd::prelude::*;

verus! {

/// The items of `items` in their order, with all of `separator` between each
/// two neighbours: nothing stands before the first item or after the last.
pub open spec fn interspersed<A>(items: Seq<A>, separator: Seq<A>) -> Seq<A>
    decreases items.len(),
{
    if items.len() == 0 {
        Seq::empty()
    } else if items.len() == 1 {
        seq![items[0]]
    } else {
        interspersed(items.drop_last(), separator) + separator + seq![items.last()]
    }
}

/// How many elements `interspersed` yields for `items` items and a separator
/// of `separator` elements.
pub open spec fn interspersed_len(items: nat, separator: nat) -> nat {
    if items == 0 {
        0
    } else {
        (items + (items - 1) * separator) as nat
    }
}

/// The length of one block of the interspersed sequence: an item and the
/// separator that follows it.
pub open spec fn block_len<A>(separator: Seq<A>) -> int {
    separator.len() as int + 1
}

/// The interspersed sequence has one element for each item and one separator
/// run for each item but the first.
pub proof fn lemma_interspersed_len<A>(items: Seq<A>, separator: Seq<A>)
    ensures
        interspersed(items, separator).len() == interspersed_len(items.len(), separator.len()),
    decreases items.len(),
{
    if items.len() >= 2 {
        let rest = items.drop_last();
        lemma_interspersed_len(rest, separator);
        assert((items.len() - 1) * separator.len() == (rest.len() - 1) * separator.len()
            + separator.len()) by (nonlinear_arith)
            requires
                rest.len() == items.len() - 1,
        ;
    } else if items.len() == 1 {
        assert((items.len() - 1) * separator.len() == 0) by (nonlinear_arith)
            requires
                items.len() == 1,
        ;
    }
}

/// Element by element: the interspersed sequence is made of blocks of
/// `block_len(separator)` elements, each an item followed by the separator, and
/// the last block is cut after its item.
pub proof fn lemma_interspersed_index<A>(items: Seq<A>, separator: Seq<A>, index: int)
    requires
        0 <= index < interspersed(items, separator).len(),
    ensures
        0 <= index / block_len(separator) < items.len(),
        0 <= index % block_len(separator) <= separator.len(),
        index % block_len(separator) == 0 ==> interspersed(items, separator)[index]
            == items[index / block_len(separator)],
        index % block_len(separator) != 0 ==> interspersed(items, separator)[index]
            == separator[index % block_len(separator) - 1],
    decreases items.len(),
{
    let block = block_len(separator);
    if items.len() == 1 {
        lemma_fundamental_div_mod_converse(index, block, 0, 0);
    } else {
        let rest = items.drop_last();
        let head = interspersed(rest, separator);
        lemma_interspersed_len(rest, separator);
        assert(head.len() == (items.len() - 2) * block + 1) by (nonlinear_arith)
            requires
                head.len() == (items.len() - 1) + (items.len() - 2) * separator.len(),
                block == 1 + separator.len(),
        ;
        if index < head.len() {
            lemma_interspersed_index(rest, separator, index);
        } else if index < head.len() + separator.len() {
            let within = index - head.len();
            lemma_fundamental_div_mod_converse(index, block, items.len() - 2, within + 1);
        } else {
            assert(index == (items.len() - 1) * block) by (nonlinear_arith)
                requires
                    index == (items.len() - 2) * block + 1 + separator.len(),
                    block == 1 + separator.len(),
            ;
            lemma_fundamental_div_mod_converse(index, block, items.len() - 1, 0);
        }
    }
}

/// Each item of the source opens a block: item `k` stands at the start of
/// block `k`, that is at index `k * block_len(separator)`.
pub proof fn lemma_interspersed_items<A>(items: Seq<A>, separator: Seq<A>, k: int)
    requires
        0 <= k < items.len(),
    ensures
        0 <= k * block_len(separator) < interspersed(items, separator).len(),
        interspersed(items, separator)[k * block_len(separator)] == items[k],
{
    let block = block_len(separator);
    let index = k * block;
    lemma_interspersed_len(items, separator);
    assert(0 <= index <= (items.len() - 1) * block) by (nonlinear_arith)
        requires
            index == k * block,
            0 <= k <= items.len() - 1,
            block >= 1,
    ;
    assert((items.len() - 1) * block == (items.len() - 1) * separator.len() + items.len() - 1)
        by (nonlinear_arith)
        requires
            block == separator.len() + 1,
    ;
    lemma_fundamental_div_mod_converse(index, block, k, 0);
    lemma_interspersed_index(items, separator, index);
}

/// With an empty separator the sequence is the source itself.
pub proof fn lemma_interspersed_empty_separator<A>(items: Seq<A>)
    ensures
        interspersed(items, Seq::empty()) == items,
{
    let spaced = interspersed(items, Seq::<A>::empty());
    lemma_interspersed_len(items, Seq::<A>::empty());
    assert forall|index: int| 0 <= index < spaced.len() implies spaced[index] == items[index] by {
        lemma_interspersed_index(items, Seq::<A>::empty(), index);
    }
}

/// An empty source gives an empty sequence, whatever the separator is.
pub proof fn lemma_interspersed_empty_source<A>(separator: Seq<A>)
    ensures
        interspersed(Seq::<A>::empty(), separator) == Seq::<A>::empty(),
{
}

/// What the next pull hands out, as long as the source has an item left.
enum Step {
    /// The next item of the source.
    PutNext,
    /// The separator's element at this index.
    PutSeparator(usize),
}

/// How far the sequence has come: the number of source items handed out, and
/// the step that follows.
struct Cursor {
    taken: usize,
    step: Step,
}

/// A forward-only sequence over a borrowed source that hands out the source's
/// items with the separator between each two of them.
///
/// Nothing is built in advance: each pull looks at most one item ahead in the
/// source, and the only storage is the separator itself.
pub struct FlatIntersperse<'a, T> {
    separator: Vec<&'a T>,
    source: &'a [T],
    cursor: Cursor,
}

impl<'a, T> FlatIntersperse<'a, T> {
    /// The separator run can only have begun after an item, and it only goes
    /// past its first element while the source has an item to follow it.
    #[verifier::type_invariant]
    closed spec fn inv(self) -> bool {
        &&& self.cursor.taken <= self.source@.len()
        &&& match self.cursor.step {
            Step::PutNext => self.separator@.len() > 0 && self.cursor.taken == self.source@.len()
                ==> self.cursor.taken == 0,
            Step::PutSeparator(i) => {
                &&& i < self.separator@.len()
                &&& self.cursor.taken >= 1
                &&& self.cursor.taken == self.source@.len() ==> i == 0
            },
        }
    }

    /// The number of elements handed out so far.
    closed spec fn position(self) -> int {
        match self.cursor.step {
            Step::PutNext => self.cursor.taken * block_len(self.separator@),
            Step::PutSeparator(i) => (self.cursor.taken - 1) * block_len(self.separator@) + 1 + i,
        }
    }

    /// The whole sequence, from the first pull on.
    closed spec fn whole(self) -> Seq<T> {
        interspersed(self.source@, self.separator@.unref())
    }

    /// A sequence over `source` that puts `separator` between each two items.
    pub fn new(source: &'a [T], separator: Vec<&'a T>) -> (sequence: Self)
        ensures
            sequence@ == interspersed(source@, separator@.unref()),
    {
        let sequence = FlatIntersperse {
            separator,
            source,
            cursor: Cursor { taken: 0, step: Step::PutNext },
        };
        assert(sequence.position() == 0) by (nonlinear_arith)
            requires
                sequence.position() == 0 * block_len(sequence.separator@),
        ;
        sequence
    }

    /// Hands out the next element, or `None` once the source's last item is out.
    pub fn next(&mut self) -> (item: Option<&'a T>)
        ensures
            old(self)@.len() == 0 ==> item is None && final(self)@ == old(self)@,
            old(self)@.len() > 0 ==> final(self)@ == old(self)@.drop_first() && (item matches Some(
                element,
            ) && *element == old(self)@[0]),
    {
        proof {
            use_type_invariant(&*self);
            self.lemma_position();
        }
        let ghost position = self.position();
        let source: &'a [T] = self.source;
        let taken = self.cursor.taken;
        if taken >= source.len() {
            return None;
        }
        proof {
            lemma_interspersed_index(self.source@, self.separator@.unref(), position);
        }
        let ghost block = block_len(self.separator@);
        let separator_len = self.separator.len();
        let item: &'a T = match self.cursor.step {
            Step::PutNext => {
                let step = if separator_len > 0 {
                    Step::PutSeparator(0)
                } else {
                    Step::PutNext
                };
                self.cursor = Cursor { taken: taken + 1, step };
                proof {
                    lemma_fundamental_div_mod_converse(position, block, taken as int, 0);
                    assert((taken + 1) * block == taken * block + block) by (nonlinear_arith);
                }
                &source[taken]
            },
            Step::PutSeparator(i) => {
                let next_i = i + 1;
                let step = if next_i == separator_len {
                    Step::PutNext
                } else {
                    Step::PutSeparator(next_i)
                };
                self.cursor = Cursor { taken, step };
                proof {
                    lemma_fundamental_div_mod_converse(position, block, taken - 1, i + 1);
                    assert(taken * block == (taken - 1) * block + block) by (nonlinear_arith);
                }
                self.separator[i]
            },
        };
        Some(item)
    }

    /// Pulls until the end and returns what came out, in order.
    pub fn collect(self) -> (items: Vec<&'a T>)
        ensures
            items@.unref() == self@,
    {
        let mut rest = self;
        let mut items: Vec<&'a T> = Vec::new();
        loop
            invariant
                items@.unref() + rest@ == self@,
            ensures
                items@.unref() == self@,
            decreases rest@.len(),
        {
            match rest.next() {
                Some(item) => items.push(item),
                None => break ,
            }
        }
        items
    }

    /// The position never passes the end, and it reaches the end exactly when
    /// the source has no item left.
    proof fn lemma_position(self)
        requires
            self.inv(),
        ensures
            0 <= self.position() <= self.whole().len(),
            self.position() == self.whole().len() <==> self.cursor.taken == self.source@.len(),
    {
        let block = block_len(self.separator@);
        let items = self.source@.len() as int;
        let taken = self.cursor.taken as int;
        lemma_interspersed_len(self.source@, self.separator@.unref());
        assert(self.whole().len() == if items == 0 {
            0
        } else {
            (items - 1) * block + 1
        }) by (nonlinear_arith)
            requires
                self.whole().len() == interspersed_len(items as nat, self.separator@.len()),
                block == self.separator@.len() + 1,
                items >= 0,
        ;
        assert(taken < items ==> taken * block <= (items - 1) * block) by (nonlinear_arith)
            requires
                block >= 1,
                taken >= 0,
        ;
        assert(taken >= 1 ==> (taken - 1) * block >= 0) by (nonlinear_arith)
            requires
                block >= 1,
        ;
        assert(taken == items ==> taken * block == (items - 1) * block + block)
            by (nonlinear_arith);
        assert(1 <= taken < items ==> (taken - 1) * block + block <= (items - 1) * block)
            by (nonlinear_arith)
            requires
                block >= 1,
        ;
        assert(0 * block == 0);
    }
}

impl<'a, T> View for FlatIntersperse<'a, T> {
    type V = Seq<T>;

    /// The elements still to come, in the order of the pulls.
    closed spec fn view(&self) -> Seq<T> {
        self.whole().skip(self.position())
    }
}

} // verus!
