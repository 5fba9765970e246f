use vstd::prelude::*;

verus! {

/// Single-slot state exchange from one writer to its readers: the latest
/// sample together with the timestamp it was written under, published as one
/// pair. A slot starts without data; a write replaces payload and timestamp
/// together, so a reader either sees no data at all or a pair that one
/// single write produced — never a mix of two writes. No operation takes the
/// data away again: once the slot holds a pair it holds one forever.
pub struct SensorBuffer<T: Copy> {
    pub data: Option<T>,
    pub timestamp_us: u64,
}

impl<T: Copy> SensorBuffer<T> {
    /// Whether the slot has been written at least once.
    pub open spec fn has_data(self) -> bool {
        self.data is Some
    }

    /// What a read yields: the stored pair, or nothing before the first write.
    pub open spec fn contents(self) -> Option<(T, u64)> {
        match self.data {
            Option::Some(v) => Option::Some((v, self.timestamp_us)),
            Option::None => Option::None,
        }
    }

    /// The slot as it is before any write.
    pub open spec fn vacant() -> SensorBuffer<T> {
        SensorBuffer { data: Option::None, timestamp_us: 0 }
    }

    /// The slot after `write(value, timestamp_us)`.
    pub open spec fn with_written(self, value: T, timestamp_us: u64) -> SensorBuffer<T> {
        SensorBuffer { data: Option::Some(value), timestamp_us }
    }

    /// Creates an empty slot, holding no sample yet.
    pub fn new() -> (r: SensorBuffer<T>)
        ensures
            r == SensorBuffer::<T>::vacant(),
            !r.has_data(),
            r.contents() is None,
    {
        SensorBuffer { data: Option::None, timestamp_us: 0 }
    }

    /// Publishes a sample: replaces payload and timestamp as one pair and
    /// marks the slot as holding data.
    pub fn write(&mut self, value: T, timestamp_us: u64)
        ensures
            *final(self) == old(self).with_written(value, timestamp_us),
            final(self).has_data(),
            final(self).contents() == Option::<(T, u64)>::Some((value, timestamp_us)),
    {
        self.data = Option::Some(value);
        self.timestamp_us = timestamp_us;
    }

    /// Reads the latest sample: the payload/timestamp pair of the most
    /// recent write, or nothing if the slot was never written.
    pub fn read(&self) -> (r: Option<(T, u64)>)
        ensures
            r == self.contents(),
            r is Some <==> self.has_data(),
    {
        match self.data {
            Option::Some(v) => Option::Some((v, self.timestamp_us)),
            Option::None => Option::None,
        }
    }

    /// Whether a sample is available, without touching the payload.
    pub fn is_valid(&self) -> (r: bool)
        ensures
            r == self.has_data(),
    {
        self.data.is_some()
    }
}

impl<T: Copy> Default for SensorBuffer<T> {
    /// The default slot is the empty one.
    fn default() -> (r: Self)
        ensures
            r == SensorBuffer::<T>::vacant(),
            !r.has_data(),
    {
        SensorBuffer::new()
    }
}

/// Law: a slot never yields a sample before a write — a fresh slot reads as
/// nothing and reports no data — and after a write of `(value, timestamp_us)`
/// it holds data and reads as exactly that pair; since no operation removes
/// data and reads do not change the slot, both stay true for every later
/// read until the next write.
pub proof fn lemma_publish<T: Copy>(s: SensorBuffer<T>, value: T, timestamp_us: u64)
    ensures
        SensorBuffer::<T>::vacant().contents() is None,
        !SensorBuffer::<T>::vacant().has_data(),
        s.with_written(value, timestamp_us).contents()
            == Option::<(T, u64)>::Some((value, timestamp_us)),
        s.with_written(value, timestamp_us).has_data(),
{
}

} // verus!
