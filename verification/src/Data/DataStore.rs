use vstd::prelude::*;
use vstd::string::StringSliceAdditionalSpecFns;
use crate::Data::Statistics::StationStatistic;

verus! {

/// The number of records that a store holds before it asks to be written
/// out, where nothing else was configured.
pub const DEFAULT_BUFFER_SIZE: usize = 1000;

/// `b` is the code of a decimal digit.
pub open spec fn is_digit(b: u8) -> bool {
    0x30 <= b <= 0x39
}

/// Every byte of `bytes` is a decimal digit.
pub open spec fn all_digits(bytes: Seq<u8>) -> bool {
    forall|i: int| 0 <= i < bytes.len() ==> is_digit(#[trigger] bytes[i])
}

/// The number that the digits of `bytes` write in base ten; the empty
/// sequence writes zero.
pub open spec fn decimal_value(bytes: Seq<u8>) -> nat
    decreases bytes.len(),
{
    if bytes.len() == 0 {
        0
    } else {
        (decimal_value(bytes.drop_last()) * 10 + (bytes.last() - 0x30)) as nat
    }
}

/// A number written with more digits is no smaller than the number that its
/// leading digits write.
pub proof fn lemma_decimal_value_grows(bytes: Seq<u8>, k: int)
    requires
        all_digits(bytes),
        0 <= k <= bytes.len(),
    ensures
        decimal_value(bytes.subrange(0, k)) <= decimal_value(bytes),
    decreases bytes.len() - k,
{
    if k == bytes.len() {
        assert(bytes.subrange(0, k) =~= bytes);
    } else {
        let longer = bytes.subrange(0, k + 1);
        assert(longer.drop_last() =~= bytes.subrange(0, k));
        assert(longer.last() == bytes[k]);
        assert(is_digit(bytes[k]));
        lemma_decimal_value_grows(bytes, k + 1);
    }
}

/// Reads a number written in decimal digits. There is a result exactly where
/// `s` holds nothing but digits and the number fits in 32 bits.
pub fn parse_u32(s: &str) -> (r: Option<u32>)
    ensures
        r is Some <==> all_digits(s.spec_bytes()) && decimal_value(s.spec_bytes()) <= u32::MAX,
        r is Some ==> r->0 == decimal_value(s.spec_bytes()),
{
    let bytes = s.as_bytes();
    let mut out: u32 = 0;
    let mut i: usize = 0;
    while i < bytes.len()
        invariant
            0 <= i <= bytes.len(),
            bytes@ == s.spec_bytes(),
            all_digits(bytes@.subrange(0, i as int)),
            out == decimal_value(bytes@.subrange(0, i as int)),
        decreases bytes.len() - i,
    {
        let b = bytes[i];
        if b < 0x30 || b > 0x39 {
            assert(!is_digit(bytes@[i as int]));
            return None;
        }
        let ghost longer = bytes@.subrange(0, i + 1);
        proof {
            assert(longer.drop_last() =~= bytes@.subrange(0, i as int));
            assert(longer.last() == b);
            assert forall|k: int| 0 <= k < longer.len() implies is_digit(#[trigger] longer[k]) by {
                if k < i {
                    assert(longer[k] == bytes@.subrange(0, i as int)[k]);
                }
            }
        }
        let wide: u64 = out as u64 * 10 + (b - 0x30) as u64;
        if wide > u32::MAX as u64 {
            proof {
                if all_digits(bytes@) {
                    lemma_decimal_value_grows(bytes@, i + 1);
                }
            }
            return None;
        }
        out = wide as u32;
        i = i + 1;
    }
    assert(bytes@.subrange(0, i as int) =~= bytes@);
    Some(out)
}

/// The number of records that a store is to hold: the configured number
/// where one was configured and reads as a number, the default where none
/// was configured.
pub fn buffer_size(configured: Option<&str>) -> (r: Option<usize>)
    ensures
        configured is None ==> r == Some(DEFAULT_BUFFER_SIZE),
        configured is Some ==> (r is Some <==> all_digits(configured->0.spec_bytes())
            && decimal_value(configured->0.spec_bytes()) <= u32::MAX),
        configured is Some && r is Some ==> r->0 == decimal_value(configured->0.spec_bytes()),
{
    match configured {
        Some(t) => match parse_u32(t) {
            Some(n) => Some(n as usize),
            None => None,
        },
        None => Some(DEFAULT_BUFFER_SIZE),
    }
}

/// A buffer of snapshots that fills up to its capacity and is then handed
/// out as one batch to whoever writes it down.
pub struct DataStore {
    dataBuffer: Vec<StationStatistic>,
    limit: usize,
}

impl DataStore {
    /// The records that wait to be written, oldest first.
    pub closed spec fn buffered(&self) -> Seq<StationStatistic> {
        self.dataBuffer@
    }

    /// The number of records that the store holds before it hands them out.
    pub closed spec fn capacity(&self) -> usize {
        self.limit
    }

    /// The store has room for a record, and never holds more records than
    /// its capacity.
    pub open spec fn wf(&self) -> bool {
        0 < self.capacity() && self.buffered().len() <= self.capacity()
    }

    /// An empty store that holds up to `capacity` records.
    pub fn new(capacity: usize) -> (store: Self)
        requires
            capacity > 0,
        ensures
            store.wf(),
            store.buffered() == Seq::<StationStatistic>::empty(),
            store.capacity() == capacity,
    {
        DataStore { dataBuffer: Vec::new(), limit: capacity }
    }

    /// Takes `data` into the store. A store that is full first hands out all
    /// that it holds, oldest first, to be written down; `data` is then the
    /// first record of the next batch.
    pub fn add_data(&mut self, data: StationStatistic) -> (batch: Option<Vec<StationStatistic>>)
        requires
            old(self).wf(),
        ensures
            final(self).wf(),
            final(self).capacity() == old(self).capacity(),
            batch is Some <==> old(self).buffered().len() >= old(self).capacity(),
            batch is Some ==> batch->0@ == old(self).buffered() && final(self).buffered() == seq![
                data,
            ],
            batch is None ==> final(self).buffered() == old(self).buffered().push(data),
    {
        let batch = if self.dataBuffer.len() >= self.limit {
            Some(self.take_batch())
        } else {
            None
        };
        self.dataBuffer.push(data);
        proof {
            if batch is Some {
                assert(final(self).dataBuffer@ =~= seq![data]);
            }
        }
        batch
    }

    /// Hands out all that the store holds, oldest first, and leaves it empty.
    pub fn take_batch(&mut self) -> (batch: Vec<StationStatistic>)
        ensures
            batch@ == old(self).buffered(),
            final(self).buffered() == Seq::<StationStatistic>::empty(),
            final(self).capacity() == old(self).capacity(),
    {
        let mut batch: Vec<StationStatistic> = Vec::new();
        std::mem::swap(&mut batch, &mut self.dataBuffer);
        batch
    }

    /// How many records wait to be written.
    pub fn len(&self) -> (count: usize)
        ensures
            count == self.buffered().len(),
    {
        self.dataBuffer.len()
    }
}

} // verus!
