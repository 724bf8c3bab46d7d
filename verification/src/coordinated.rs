//! Coordinated property lists: the multi-value timing properties
//! (`animation-*`, `transition-*`, the timeline properties), each a list of
//! its own length that is read by cycling over the declared values.

use vstd::prelude::*;

verus! {

/// A value that can stand in one slot of a list: copied freely and compared
/// exactly.
pub trait SingleValue: Copy + Sized {
    /// Whether two values are the same value.
    fn same_as(&self, other: &Self) -> (same: bool)
        ensures
            same == (*self == *other),
    ;
}

/// The error of handing a list no value at all: a list of no values could
/// not be read by cycling.
#[derive(Clone, Copy, Debug, PartialEq, Eq, Structural)]
pub struct EmptyList;

/// What a list is: its physical slots, how many of them were declared, and
/// the value that new slots start with.
pub struct ListModel<T> {
    pub slots: Seq<T>,
    pub count: nat,
    pub initial: T,
}

impl<T> ListModel<T> {
    /// At least one value is declared, and every declared value has a slot.
    pub open spec fn wf(self) -> bool {
        1 <= self.count <= self.slots.len()
    }

    /// The declared values, in order.
    pub open spec fn declared(self) -> Seq<T> {
        self.slots.take(self.count as int)
    }

    /// The value read at `index`: shorter lists repeat from their start.
    pub open spec fn at(self, index: int) -> T {
        self.slots[index % (self.count as int)]
    }

    /// The slots grown to at least `len`, new slots holding the initial
    /// value. Nothing is ever taken away.
    pub open spec fn grown(self, len: nat) -> Self {
        ListModel {
            slots: Seq::new(
                if len > self.slots.len() { len } else { self.slots.len() },
                |i: int| if i < self.slots.len() { self.slots[i] } else { self.initial },
            ),
            count: self.count,
            initial: self.initial,
        }
    }

    /// The list after `values` were declared: they overwrite the first slots,
    /// later slots keep what they held.
    pub open spec fn declare(self, values: Seq<T>) -> Self {
        ListModel {
            slots: Seq::new(
                self.grown(values.len()).slots.len(),
                |i: int|
                    if i < values.len() {
                        values[i]
                    } else {
                        self.grown(values.len()).slots[i]
                    },
            ),
            count: values.len(),
            initial: self.initial,
        }
    }

    /// The list of a property that was never set: one slot, declared, that
    /// holds the initial value.
    pub open spec fn single(initial: T) -> Self {
        ListModel { slots: seq![initial], count: 1, initial }
    }

    /// Whether the list declares `value` and nothing else.
    pub open spec fn shows_only(self, value: T) -> bool {
        self.count == 1 && self.slots[0] == value
    }

    /// Two lists are equal when their counts and all their slots are.
    pub open spec fn same_list(self, other: Self) -> bool {
        self.count == other.count && self.slots == other.slots
    }
}

/// One coordinated property list.
pub struct CoordinatedPropertyList<T> {
    slots: Vec<T>,
    count: usize,
    initial: T,
}

impl<T: SingleValue> View for CoordinatedPropertyList<T> {
    type V = ListModel<T>;

    closed spec fn view(&self) -> ListModel<T> {
        ListModel { slots: self.slots@, count: self.count as nat, initial: self.initial }
    }
}

impl<T: SingleValue> Clone for CoordinatedPropertyList<T> {
    fn clone(&self) -> (copy: Self)
        ensures
            copy@ == self@,
    {
        let mut slots: Vec<T> = Vec::new();
        let mut i: usize = 0;
        while i < self.slots.len()
            invariant
                i <= self.slots@.len(),
                slots@.len() == i,
                forall|j: int| 0 <= j < i ==> slots@[j] == self.slots@[j],
            decreases self.slots@.len() - i,
        {
            slots.push(self.slots[i]);
            i += 1;
        }
        assert(slots@ =~= self.slots@);
        CoordinatedPropertyList { slots, count: self.count, initial: self.initial }
    }
}

impl<T: SingleValue> CoordinatedPropertyList<T> {
    /// The list's invariant: see [`ListModel::wf`].
    pub open spec fn wf(&self) -> bool {
        self@.wf()
    }

    /// The list of a property that was never set: its one initial value.
    pub fn new(initial: T) -> (list: Self)
        ensures
            list.wf(),
            list@ == ListModel::single(initial),
    {
        let mut slots: Vec<T> = Vec::new();
        slots.push(initial);
        assert(slots@ =~= seq![initial]);
        CoordinatedPropertyList { slots, count: 1, initial }
    }

    /// How many values were declared.
    pub fn count(&self) -> (count: usize)
        ensures
            count == self@.count,
    {
        self.count
    }

    /// How many slots the list holds, declared or not.
    pub fn physical_len(&self) -> (len: usize)
        ensures
            len == self@.slots.len(),
    {
        self.slots.len()
    }

    /// Grows the list to at least `len` slots; new slots hold the initial
    /// value. Never shrinks.
    pub fn ensure_len(&mut self, len: usize)
        ensures
            final(self)@ == old(self)@.grown(len as nat),
            old(self).wf() ==> final(self).wf(),
    {
        while self.slots.len() < len
            invariant
                self.count == old(self).count,
                self.initial == old(self).initial,
                old(self).slots@.len() <= self.slots@.len(),
                self.slots@.len() <= len || self.slots@.len() == old(self).slots@.len(),
                forall|i: int|
                    0 <= i < old(self).slots@.len() ==> self.slots@[i] == old(self).slots@[i],
                forall|i: int|
                    old(self).slots@.len() <= i < self.slots@.len() ==> self.slots@[i]
                        == self.initial,
            decreases len - self.slots.len(),
        {
            self.slots.push(self.initial);
        }
        assert(self@.slots =~= old(self)@.grown(len as nat).slots);
    }

    /// Declares `values` as the property's list: the count becomes their
    /// number and they overwrite the first slots. An empty `values` is
    /// rejected and leaves the list as it was.
    pub fn set(&mut self, values: &[T]) -> (outcome: Result<(), EmptyList>)
        requires
            old(self).wf(),
        ensures
            final(self).wf(),
            values@.len() == 0 ==> outcome == Err::<(), EmptyList>(EmptyList) && final(self)@
                == old(self)@,
            values@.len() > 0 ==> outcome == Ok::<(), EmptyList>(()) && final(self)@ == old(
                self,
            )@.declare(values@),
    {
        let len = values.len();
        if len == 0 {
            return Err(EmptyList);
        }
        self.ensure_len(len);
        let ghost grown = self@;
        let mut i: usize = 0;
        while i < len
            invariant
                i <= len,
                len == values@.len(),
                len <= self.slots@.len(),
                self.slots@.len() == grown.slots.len(),
                self.count == old(self).count,
                self.initial == old(self).initial,
                forall|j: int| 0 <= j < i ==> self.slots@[j] == values@[j],
                forall|j: int| i <= j < self.slots@.len() ==> self.slots@[j] == grown.slots[j],
            decreases len - i,
        {
            self.slots[i] = values[i];
            i += 1;
        }
        self.count = len;
        assert(self@.slots =~= old(self)@.declare(values@).slots);
        Ok(())
    }

    /// The value at `index`, cycling over the declared values.
    pub fn at(&self, index: usize) -> (value: T)
        requires
            self.wf(),
        ensures
            value == self@.at(index as int),
    {
        self.slots[index % self.count]
    }

    /// Takes over the declared values of `other` and their count.
    pub fn copy_from(&mut self, other: &Self)
        requires
            old(self).wf(),
            other.wf(),
        ensures
            final(self).wf(),
            final(self)@ == old(self)@.declare(other@.declared()),
    {
        let len = other.count;
        self.ensure_len(len);
        let ghost grown = self@;
        let mut i: usize = 0;
        while i < len
            invariant
                i <= len,
                len == other.count,
                other.wf(),
                len <= self.slots@.len(),
                self.slots@.len() == grown.slots.len(),
                self.count == old(self).count,
                self.initial == old(self).initial,
                forall|j: int| 0 <= j < i ==> self.slots@[j] == other.slots@[j],
                forall|j: int| i <= j < self.slots@.len() ==> self.slots@[j] == grown.slots[j],
            decreases len - i,
        {
            self.slots[i] = other.slots[i];
            i += 1;
        }
        self.count = len;
        assert(self@.slots =~= old(self)@.declare(other@.declared()).slots);
    }

    /// Resets the property to what `other` declares: the same as
    /// [`copy_from`](Self::copy_from).
    pub fn reset(&mut self, other: &Self)
        requires
            old(self).wf(),
            other.wf(),
        ensures
            final(self).wf(),
            final(self)@ == old(self)@.declare(other@.declared()),
    {
        self.copy_from(other)
    }

    /// Whether two lists are equal: the counts are compared first, then
    /// every slot.
    pub fn equals(&self, other: &Self) -> (equal: bool)
        ensures
            equal == self@.same_list(other@),
    {
        if self.count != other.count || self.slots.len() != other.slots.len() {
            return false;
        }
        let len = self.slots.len();
        let mut i: usize = 0;
        while i < len
            invariant
                i <= len,
                len == self.slots@.len(),
                len == other.slots@.len(),
                forall|j: int| 0 <= j < i ==> self.slots@[j] == other.slots@[j],
            decreases len - i,
        {
            if !self.slots[i].same_as(&other.slots[i]) {
                return false;
            }
            i += 1;
        }
        assert(self.slots@ =~= other.slots@);
        true
    }
}

/// Growing takes nothing away: the slots that were there keep what they
/// held, and the list is never shorter than it was or than was asked for.
pub proof fn growing_never_shrinks<T>(list: ListModel<T>, len: nat, index: int)
    requires
        0 <= index < list.slots.len(),
    ensures
        list.grown(len).slots.len() >= list.slots.len(),
        list.grown(len).slots.len() >= len,
        list.grown(len).slots[index] == list.slots[index],
        list.grown(len).count == list.count,
{
}

/// What was declared is what is read: the declared values are the values
/// given, and each index shows the value at the index taken modulo their
/// number.
pub proof fn declared_values_are_read_back<T>(list: ListModel<T>, values: Seq<T>, index: int)
    requires
        values.len() > 0,
        0 <= index,
    ensures
        list.declare(values).wf(),
        list.declare(values).declared() == values,
        list.declare(values).at(index) == values[index % (values.len() as int)],
{
    assert(list.declare(values).declared() =~= values);
}

/// A list that took over the values of another shows what the other shows,
/// at every index, whatever either held before.
pub proof fn copied_list_shows_the_same<T>(list: ListModel<T>, source: ListModel<T>, index: int)
    requires
        source.wf(),
        0 <= index,
    ensures
        list.declare(source.declared()).count == source.count,
        list.declare(source.declared()).declared() == source.declared(),
        list.declare(source.declared()).at(index) == source.at(index),
{
    declared_values_are_read_back(list, source.declared(), index);
}

/// A list equals itself.
pub proof fn same_list_is_reflexive<T>(list: ListModel<T>)
    ensures
        list.same_list(list),
{
}

/// Equality of lists does not depend on the side.
pub proof fn same_list_is_symmetric<T>(a: ListModel<T>, b: ListModel<T>)
    ensures
        a.same_list(b) == b.same_list(a),
{
}

/// Lists whose counts differ are not equal.
pub proof fn counts_differ_lists_differ<T>(a: ListModel<T>, b: ListModel<T>)
    requires
        a.count != b.count,
    ensures
        !a.same_list(b),
{
}

/// Reading past the declared values repeats them from the start.
pub proof fn reading_cycles<T>(list: ListModel<T>, index: int)
    requires
        list.wf(),
        0 <= index,
    ensures
        list.at(index) == list.declared()[index % (list.count as int)],
        list.at(index + list.count) == list.at(index),
        list.count == 1 ==> list.at(index) == list.at(0),
{
    vstd::arithmetic::div_mod::lemma_mod_add_multiples_vanish(index, list.count as int);
    if list.count == 1 {
        assert(index % 1 == 0);
    }
}

} // verus!
