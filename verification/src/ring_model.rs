//! The mathematical model of a single-producer/single-consumer ring buffer.
//!
//! A buffer is described by its capacity, the sequence of every value the
//! producer has published so far, and the number of values the consumer has
//! read. Both cursors only ever grow: the write cursor is the length of that
//! sequence, the read cursor the number of reads. The physical slot of a cursor
//! is the cursor modulo the capacity.

use vstd::prelude::*;

verus! {

/// The physical slot that `cursor` addresses in a buffer of `capacity` slots.
pub open spec fn slot_of(capacity: nat, cursor: int) -> int {
    cursor % (capacity as int)
}

/// Two cursors less than `capacity` apart never address the same slot.
pub proof fn lemma_slots_distinct(capacity: nat, first: int, second: int)
    requires
        0 < capacity,
        first < second,
        second - first < capacity,
    ensures
        slot_of(capacity, first) != slot_of(capacity, second),
{
    let n = capacity as int;
    if first % n == second % n {
        vstd::arithmetic::div_mod::lemma_fundamental_div_mod(first, n);
        vstd::arithmetic::div_mod::lemma_fundamental_div_mod(second, n);
        let d = second / n - first / n;
        assert(second - first == n * d) by (nonlinear_arith)
            requires
                first == n * (first / n) + first % n,
                second == n * (second / n) + second % n,
                first % n == second % n,
                d == second / n - first / n,
        ;
        assert(false) by (nonlinear_arith)
            requires
                0 < n * d < n,
                0 < n,
        ;
    }
}

/// What producer and consumer can observe of a ring buffer.
#[verifier::ext_equal]
pub struct RingModel<T> {
    /// Number of slots.
    pub capacity: nat,
    /// Every value ever published, in the order of publication.
    pub published: Seq<T>,
    /// Number of values the consumer has read.
    pub read: nat,
}

impl<T> RingModel<T> {
    /// A buffer of `capacity` slots in which nothing was published yet.
    pub open spec fn fresh(capacity: nat) -> Self {
        RingModel { capacity, published: Seq::empty(), read: 0 }
    }

    /// Number of values published so far.
    pub open spec fn write_cursor(self) -> nat {
        self.published.len()
    }

    /// Number of values read so far.
    pub open spec fn read_cursor(self) -> nat {
        self.read
    }

    /// Number of values published and not read yet.
    pub open spec fn outstanding(self) -> nat {
        if self.read <= self.published.len() {
            (self.published.len() - self.read) as nat
        } else {
            0
        }
    }

    /// The cursors are in order, no more than `capacity` values are
    /// outstanding, and the write cursor is a count the machine can hold.
    pub open spec fn wf(self) -> bool {
        &&& 0 < self.capacity
        &&& self.read <= self.published.len()
        &&& self.published.len() - self.read <= self.capacity
        &&& self.published.len() <= usize::MAX
    }

    /// The values the consumer has read, oldest first.
    pub open spec fn consumed(self) -> Seq<T> {
        self.published.take(self.read as int)
    }

    /// The values waiting to be read, oldest first.
    pub open spec fn unread(self) -> Seq<T> {
        self.published.skip(self.read as int)
    }

    /// Nothing waits to be read.
    pub open spec fn is_empty(self) -> bool {
        self.outstanding() == 0
    }

    /// Every slot holds a value that waits to be read.
    pub open spec fn is_full(self) -> bool {
        self.outstanding() == self.capacity
    }

    /// Number of values that can still be published before a read is needed:
    /// the number of free slots, or the distance of the write cursor from the
    /// largest count the machine can hold if that is smaller.
    pub open spec fn room(self) -> nat {
        let free = self.capacity - self.outstanding();
        let headroom = usize::MAX - self.published.len();
        if free <= 0 || headroom <= 0 {
            0
        } else if free <= headroom {
            free as nat
        } else {
            headroom as nat
        }
    }

    /// At least one more value can be published.
    pub open spec fn has_room(self) -> bool {
        self.room() > 0
    }

    /// Slot `index` exists and holds no value that is waiting to be read.
    pub open spec fn is_free(self, index: int) -> bool {
        &&& 0 <= index < self.capacity
        &&& forall|cursor: int|
            self.read <= cursor < self.published.len() ==> #[trigger] slot_of(self.capacity, cursor)
                != index
    }

    /// The buffer after `value` was published.
    pub open spec fn publish(self, value: T) -> Self {
        RingModel { published: self.published.push(value), ..self }
    }

    /// The buffer after the producer offered `value`: published if there was
    /// room, unchanged if not.
    pub open spec fn try_write(self, value: T) -> Self {
        if self.has_room() {
            self.publish(value)
        } else {
            self
        }
    }

    /// The buffer after all of `values` were published, in order.
    pub open spec fn write_all(self, values: Seq<T>) -> Self {
        RingModel { published: self.published + values, ..self }
    }

    /// The buffer after the producer offered each of `values` in turn, with no
    /// read in between.
    pub open spec fn offer_each(self, values: Seq<T>) -> Self
        decreases values.len(),
    {
        if values.len() == 0 {
            self
        } else {
            self.offer_each(values.drop_last()).try_write(values.last())
        }
    }

    /// The buffer after the consumer read `count` values.
    pub open spec fn advance(self, count: nat) -> Self {
        RingModel { read: self.read + count, ..self }
    }

    /// The value the next read returns, if one is waiting.
    pub open spec fn front(self) -> Option<T> {
        if self.read < self.published.len() {
            Some(self.published[self.read as int])
        } else {
            None
        }
    }

    /// The buffer after one attempt to read: advanced by one if a value was
    /// waiting, unchanged if not.
    pub open spec fn try_read(self) -> Self {
        if self.read < self.published.len() {
            self.advance(1)
        } else {
            self
        }
    }

    /// The buffer after the consumer read everything that was waiting.
    pub open spec fn drained(self) -> Self {
        self.advance(self.outstanding())
    }

    /// A fresh buffer is well formed and empty, with room for `capacity`
    /// values.
    pub proof fn lemma_fresh(capacity: nat)
        requires
            0 < capacity <= usize::MAX,
        ensures
            Self::fresh(capacity).wf(),
            Self::fresh(capacity).is_empty(),
            Self::fresh(capacity).room() == capacity,
            Self::fresh(capacity).unread() =~= Seq::<T>::empty(),
    {
    }

    /// In a buffer with room, the slot of the write cursor is free.
    pub proof fn lemma_write_slot_is_free(self)
        requires
            self.wf(),
            self.outstanding() < self.capacity,
        ensures
            self.is_free(slot_of(self.capacity, self.write_cursor() as int)),
    {
        let n = self.capacity as int;
        let w = self.published.len() as int;
        vstd::arithmetic::div_mod::lemma_mod_bound(w, n);
        assert forall|cursor: int| self.read <= cursor < w implies #[trigger] slot_of(
            self.capacity,
            cursor,
        ) != slot_of(self.capacity, w) by {
            lemma_slots_distinct(self.capacity, cursor, w);
        }
    }

    /// Offering a value keeps the buffer well formed. The value is appended to
    /// what waits to be read exactly if there was room; nothing that waited is
    /// touched either way.
    pub proof fn lemma_try_write(self, value: T)
        requires
            self.wf(),
        ensures
            self.try_write(value).wf(),
            self.try_write(value).consumed() =~= self.consumed(),
            self.has_room() ==> self.try_write(value).unread() =~= self.unread().push(value),
            self.has_room() ==> self.try_write(value).room() == self.room() - 1,
            !self.has_room() ==> self.try_write(value) == self,
    {
    }

    /// Reading keeps the buffer well formed, hands out the oldest waiting
    /// value and leaves the rest waiting in order.
    pub proof fn lemma_try_read(self)
        requires
            self.wf(),
        ensures
            self.try_read().wf(),
            self.try_read().published == self.published,
            self.front() is Some <==> !self.is_empty(),
            self.front() is Some ==> self.front() == Some(self.unread()[0]),
            self.front() is Some ==> self.try_read().unread() =~= self.unread().skip(1),
            self.front() is Some ==> self.try_read().consumed() =~= self.consumed().push(
                self.front().unwrap(),
            ),
            self.front() is None ==> self.try_read() == self,
    {
    }

    /// What the consumer has read is always a prefix of what the producer has
    /// published, and together with what still waits it is all of it: nothing
    /// is lost, duplicated or reordered.
    pub proof fn lemma_reads_are_prefix_of_writes(self)
        requires
            self.wf(),
        ensures
            self.consumed().is_prefix_of(self.published),
            self.consumed() + self.unread() =~= self.published,
            self.consumed().len() == self.read_cursor(),
            self.unread().len() == self.outstanding(),
    {
    }

    /// Values published while there is room for all of them come out of the
    /// buffer after the values that were already waiting, in the order in
    /// which they went in.
    pub proof fn lemma_first_in_first_out(self, values: Seq<T>)
        requires
            self.wf(),
            values.len() <= self.room(),
        ensures
            self.write_all(values).wf(),
            self.write_all(values).unread() =~= self.unread() + values,
            self.write_all(values).drained().consumed() =~= self.consumed() + self.unread()
                + values,
            self.write_all(values).room() == self.room() - values.len(),
    {
    }

    /// Offering values one by one publishes as many of them as there is room
    /// for, from the front; once one is rejected, so are all that follow.
    pub proof fn lemma_offer_each(self, values: Seq<T>)
        requires
            self.wf(),
        ensures
            self.offer_each(values).wf(),
            values.len() <= self.room() ==> self.offer_each(values) == self.write_all(values),
            values.len() > self.room() ==> self.offer_each(values) == self.write_all(
                values.take(self.room() as int),
            ),
            values.len() >= self.room() ==> !self.offer_each(values).has_room(),
        decreases values.len(),
    {
        if values.len() > 0 {
            let front = values.drop_last();
            self.lemma_offer_each(front);
            self.offer_each(front).lemma_try_write(values.last());
        }
    }

    /// Writing exactly `capacity` values into an empty buffer, with no read in
    /// between, fills it: all of them wait to be read, the cursors are
    /// `capacity` apart, and any further write is turned away by the capacity
    /// check, leaving the buffer and what waits in it as they were. This holds
    /// of every buffer whose write cursor is at least `capacity` away from the
    /// largest count the machine can hold, so of every fresh one.
    pub proof fn lemma_capacity_boundary(self, values: Seq<T>, further: T)
        requires
            self.wf(),
            self.is_empty(),
            values.len() == self.capacity,
            self.write_cursor() + self.capacity <= usize::MAX,
        ensures
            ({
                let filled = self.offer_each(values);
                &&& filled.wf()
                &&& filled.write_cursor() - filled.read_cursor() == self.capacity
                &&& filled.is_full()
                &&& filled.unread() =~= values
                &&& !filled.has_room()
                &&& filled.try_write(further) == filled
            }),
    {
        self.lemma_offer_each(values);
    }
}

} // verus!
