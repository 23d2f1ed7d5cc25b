//! A fixed-capacity ring buffer for exactly one producer and one consumer.
//!
//! The buffer owns its slots. It separates mechanism from policy: the producer
//! stages a value with [`RingBuffer::write_slot`] and makes it visible with
//! [`RingBuffer::publish`], after having checked itself that there is room;
//! [`RingBuffer::try_write`] bundles check, staging and publication for
//! producers that write one value at a time. The consumer takes values with
//! [`RingBuffer::try_read`]. Nothing here blocks or allocates after
//! construction: "full" and "empty" are states that callers observe through
//! the cursors, and waiting is left to them.
//!
//! Exclusive access is the single-producer/single-consumer discipline made a
//! matter of ownership: every operation that changes the buffer takes
//! `&mut self`, so a host that shares a buffer between threads has to hand it
//! from one to the other.

use crate::ring_model::{lemma_slots_distinct, slot_of, RingModel};
use vstd::prelude::*;

verus! {

/// Number of slots of the buffers a trade processor is built with.
pub const BUFFER_SIZE: usize = 1024;

/// A ring buffer over values of type `T`.
///
/// Its view is the [`RingModel`] of what was published and read so far. The
/// slots themselves show through [`RingBuffer::slot`] only: a slot keeps its
/// value after the value was read, until the producer writes it again.
pub struct RingBuffer<T> {
    slots: Vec<T>,
    read: usize,
    write: usize,
    published: Ghost<Seq<T>>,
}

impl<T> View for RingBuffer<T> {
    type V = RingModel<T>;

    closed spec fn view(&self) -> RingModel<T> {
        RingModel {
            capacity: self.slots@.len(),
            published: self.published@,
            read: self.read as nat,
        }
    }
}

impl<T: Copy> RingBuffer<T> {
    /// The value that physical slot `index` holds.
    pub closed spec fn slot(&self, index: int) -> T {
        self.slots@[index]
    }

    /// The stored cursor and slots agree with the model: the write cursor
    /// counts the published values, and every value that waits to be read sits
    /// in the slot of its cursor.
    pub closed spec fn consistent(&self) -> bool {
        &&& self.write as nat == self.published@.len()
        &&& forall|cursor: int|
            self.read <= cursor < self.write ==> self.slots@[#[trigger] slot_of(
                self.slots@.len(),
                cursor,
            )] == self.published@[cursor]
    }

    /// The buffer is a valid one: its model is well formed and its storage
    /// agrees with it. Construction establishes this and every operation
    /// keeps it.
    pub open spec fn wf(&self) -> bool {
        &&& self@.wf()
        &&& self.consistent()
    }

    /// Creates an empty buffer of `capacity` slots, each holding `fill` until
    /// it is first written.
    pub fn new(capacity: usize, fill: T) -> (buffer: Self)
        requires
            capacity > 0,
        ensures
            buffer.wf(),
            buffer@ == RingModel::<T>::fresh(capacity as nat),
            forall|index: int| 0 <= index < capacity ==> buffer.slot(index) == fill,
    {
        let mut slots: Vec<T> = Vec::new();
        let mut filled: usize = 0;
        while filled < capacity
            invariant
                filled <= capacity,
                slots@.len() == filled,
                forall|index: int| 0 <= index < filled ==> slots@[index] == fill,
            decreases capacity - filled,
        {
            slots.push(fill);
            filled = filled + 1;
        }
        RingBuffer { slots, read: 0, write: 0, published: Ghost(Seq::empty()) }
    }

    /// Returns the number of slots.
    pub fn capacity(&self) -> (capacity: usize)
        ensures
            capacity == self@.capacity,
    {
        self.slots.len()
    }

    /// Returns the write cursor: the number of values published so far.
    pub fn write_position(&self) -> (position: usize)
        requires
            self.wf(),
        ensures
            position == self@.write_cursor(),
    {
        self.write
    }

    /// Returns the read cursor: the number of values read so far.
    pub fn read_position(&self) -> (position: usize)
        ensures
            position == self@.read_cursor(),
    {
        self.read
    }

    /// Returns the number of values published and not read yet.
    pub fn outstanding(&self) -> (count: usize)
        requires
            self.wf(),
        ensures
            count == self@.outstanding(),
            count == self@.write_cursor() - self@.read_cursor(),
            count <= self@.capacity,
    {
        self.write - self.read
    }

    /// Returns whether nothing waits to be read.
    pub fn is_empty(&self) -> (empty: bool)
        requires
            self.wf(),
        ensures
            empty == self@.is_empty(),
    {
        self.write == self.read
    }

    /// Returns whether every slot holds a value that waits to be read.
    pub fn is_full(&self) -> (full: bool)
        requires
            self.wf(),
        ensures
            full == self@.is_full(),
            full == (self@.write_cursor() - self@.read_cursor() == self@.capacity),
    {
        self.write - self.read == self.slots.len()
    }

    /// The capacity check of the producer protocol: returns whether a value
    /// can be staged in the slot of the write cursor and published. That is so
    /// when fewer than `capacity` values are outstanding, unless the write
    /// cursor has reached the largest count the machine can hold.
    pub fn has_room(&self) -> (room: bool)
        requires
            self.wf(),
        ensures
            room == self@.has_room(),
            room == (self@.outstanding() < self@.capacity && self@.write_cursor() < usize::MAX),
    {
        self.write - self.read < self.slots.len() && self.write < usize::MAX
    }

    /// Returns the physical slot that `cursor` addresses.
    pub fn slot_index(&self, cursor: usize) -> (index: usize)
        requires
            self.wf(),
        ensures
            index == slot_of(self@.capacity, cursor as int),
            index < self@.capacity,
    {
        cursor % self.slots.len()
    }

    /// Stages `value` in physical slot `physical_index`. Nothing becomes
    /// visible to the consumer. The buffer checks neither bounds nor
    /// occupancy: the caller has made sure that the slot exists and holds no
    /// value that still waits to be read, which is so for the slot of the
    /// write cursor whenever [`Self::has_room`] holds.
    pub fn write_slot(&mut self, physical_index: usize, value: T)
        requires
            old(self).wf(),
            old(self)@.is_free(physical_index as int),
        ensures
            final(self).wf(),
            final(self)@ == old(self)@,
            final(self).slot(physical_index as int) == value,
            forall|index: int|
                0 <= index < old(self)@.capacity && index != physical_index ==> final(self).slot(
                    index,
                ) == old(self).slot(index),
    {
        self.slots.set(physical_index, value);
    }

    /// Advances the write cursor by one, which hands the value staged in the
    /// slot of the old write cursor to the consumer. The caller has checked
    /// that there is room.
    pub fn publish(&mut self)
        requires
            old(self).wf(),
            old(self)@.has_room(),
        ensures
            final(self).wf(),
            final(self)@ == old(self)@.publish(
                old(self).slot(slot_of(old(self)@.capacity, old(self)@.write_cursor() as int)),
            ),
            forall|index: int|
                0 <= index < old(self)@.capacity ==> final(self).slot(index) == old(self).slot(
                    index,
                ),
    {
        proof {
            let capacity = self.slots@.len();
            let staged = self.slots@[slot_of(capacity, self.write as int)];
            assert forall|cursor: int| self.read <= cursor < self.write implies #[trigger] slot_of(
                capacity,
                cursor,
            ) != slot_of(capacity, self.write as int) by {
                lemma_slots_distinct(capacity, cursor, self.write as int);
            }
            self.published@ = self.published@.push(staged);
        }
        self.write = self.write + 1;
    }

    /// The producer protocol for one value: checks for room, and if there is
    /// room stages `value` in the slot of the write cursor and publishes it.
    /// Returns whether the value was published. A value that is turned away
    /// changes nothing: no slot is written.
    pub fn try_write(&mut self, value: T) -> (accepted: bool)
        requires
            old(self).wf(),
        ensures
            final(self).wf(),
            accepted == old(self)@.has_room(),
            final(self)@ == old(self)@.try_write(value),
            accepted ==> final(self).slot(
                slot_of(old(self)@.capacity, old(self)@.write_cursor() as int),
            ) == value,
            forall|index: int|
                0 <= index < old(self)@.capacity && !(accepted && index == slot_of(
                    old(self)@.capacity,
                    old(self)@.write_cursor() as int,
                )) ==> final(self).slot(index) == old(self).slot(index),
    {
        if self.has_room() {
            let index = self.slot_index(self.write);
            proof {
                self@.lemma_write_slot_is_free();
            }
            self.write_slot(index, value);
            self.publish();
            true
        } else {
            false
        }
    }

    /// Takes the oldest value that waits to be read, if there is one, and
    /// frees its slot for the producer. The slot keeps the value until it is
    /// written again.
    pub fn try_read(&mut self) -> (value: Option<T>)
        requires
            old(self).wf(),
        ensures
            final(self).wf(),
            value == old(self)@.front(),
            final(self)@ == old(self)@.try_read(),
            forall|index: int|
                0 <= index < old(self)@.capacity ==> final(self).slot(index) == old(self).slot(
                    index,
                ),
    {
        if self.read < self.write {
            let index = self.read % self.slots.len();
            let value = self.slots[index];
            assert(index == slot_of(self.slots@.len(), self.read as int));
            self.read = self.read + 1;
            Some(value)
        } else {
            None
        }
    }
}

} // verus!
