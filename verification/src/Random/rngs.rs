use vstd::prelude::*;
use std::time::{Duration, SystemTime};
use crate::Errors::SimError;

verus! {

/// The modulus of the generator, a prime.
pub const MODULUS: i32 = 2147483647;

/// The multiplier that leads from one number of a stream to the next.
pub const MULTIPLIER: i32 = 48271;

/// The seed that stream 0 holds after 10000 draws from the seed 1.
pub const CHECK: i32 = 399268537;

/// The number of streams.
pub const STREAMS: usize = 256;

/// The multiplier that leads from the first seed of a stream to that of the next stream.
pub const A256: i32 = 22925;

/// The seed that every stream starts with.
pub const DEFAULT: i32 = 123456789;

/// The successor of the seed `x` under `multiplier`: their product modulo
/// `MODULUS`, with `MODULUS` standing in for a remainder of zero.
pub open spec fn lehmer(multiplier: int, x: int) -> int {
    let t = (multiplier * x) % (MODULUS as int);
    if t > 0 {
        t
    } else {
        MODULUS as int
    }
}

/// The first seed of stream `j` when stream 0 starts from `first`.
pub open spec fn stream_seed(first: int, j: nat) -> int
    decreases j,
{
    if j == 0 {
        first
    } else {
        lehmer(A256 as int, stream_seed(first, (j - 1) as nat))
    }
}

/// The seed that a request for `n` gives: `n` itself, reduced, where it is
/// positive; else the reading of the clock, reduced.
pub open spec fn chosen_seed(n: i32, clock: Option<u128>) -> Result<i32, SimError> {
    if n > 0 {
        Ok((n % MODULUS) as i32)
    } else {
        match clock {
            Some(millis) => Ok((millis % (MODULUS as u128)) as i32),
            None => Err(SimError::ClockUnavailable),
        }
    }
}

#[verifier::external_type_specification]
#[verifier::external_body]
pub struct ExSystemTime(SystemTime);

/// `std::time::SystemTime::now`: the reading of the system clock. Nothing is
/// claimed of it.
#[verifier::external_body]
fn system_now() -> (now: SystemTime) {
    SystemTime::now()
}

/// `std::time::SystemTime::duration_since`, taken from the Unix epoch: the
/// time that has passed since then, or nothing where the clock stands before
/// it. Nothing is claimed of the result.
#[verifier::external_body]
fn since_epoch(now: &SystemTime) -> (elapsed: Option<Duration>) {
    match now.duration_since(std::time::UNIX_EPOCH) {
        Ok(elapsed) => Some(elapsed),
        Err(_) => None,
    }
}

/// `std::time::Duration::as_millis`: the whole milliseconds of a duration.
/// Nothing is claimed of the result.
#[verifier::external_body]
fn whole_millis(elapsed: &Duration) -> (millis: u128) {
    elapsed.as_millis()
}

/// The seed for a request `n`, given what the clock read.
pub fn seed_of(n: i32, clock: Option<u128>) -> (r: Result<i32, SimError>)
    ensures
        r == chosen_seed(n, clock),
        r is Ok ==> 0 <= r->Ok_0 < MODULUS,
{
    if n > 0 {
        Ok(n % MODULUS)
    } else {
        match clock {
            Some(millis) => Ok((millis % (MODULUS as u128)) as i32),
            None => Err(SimError::ClockUnavailable),
        }
    }
}

/// One step of the generator from the seed `x`, computed without leaving
/// the range of `i32`.
pub fn next_in_stream(x: i32) -> (next: i32)
    requires
        0 <= x <= MODULUS,
    ensures
        next == lehmer(MULTIPLIER as int, x as int),
        0 < next <= MODULUS,
{
    let q: i32 = MODULUS / MULTIPLIER;
    let r: i32 = MODULUS % MULTIPLIER;
    assert(q == 44488 && r == 3399);
    let t: i32 = MULTIPLIER * (x % q) - r * (x / q);
    assert(48271 * (x as int) == 2147483647 * ((x as int) / 44488) + (t as int));
    if t > 0 {
        t
    } else {
        t + MODULUS
    }
}

/// The first seed of the stream that follows the one whose first seed is `x`.
pub fn next_stream_seed(x: i32) -> (next: i32)
    requires
        0 <= x <= MODULUS,
    ensures
        next == lehmer(A256 as int, x as int),
        0 < next <= MODULUS,
{
    let q: i32 = MODULUS / A256;
    let r: i32 = MODULUS % A256;
    assert(q == 93674 && r == 7197);
    let t: i32 = A256 * (x % q) - r * (x / q);
    assert(22925 * (x as int) == 2147483647 * ((x as int) / 93674) + (t as int));
    if t > 0 {
        t
    } else {
        t + MODULUS
    }
}

/// A generator of 256 streams of numbers. Each stream holds its own seed, so
/// that drawing from one stream leaves the numbers of every other untouched.
pub struct RandomGenerator {
    seed: Vec<i32>,
    stream: usize,
    initialized: bool,
}

impl RandomGenerator {
    /// The seed that each stream holds.
    pub closed spec fn seeds(&self) -> Seq<i32> {
        self.seed@
    }

    /// The stream that is drawn from.
    pub closed spec fn selected(&self) -> usize {
        self.stream
    }

    /// Whether the streams were given seeds of their own.
    pub closed spec fn planted(&self) -> bool {
        self.initialized
    }

    /// There is one seed for each stream, each within the generator's range,
    /// and the selected stream is one of them.
    pub open spec fn wf(&self) -> bool {
        &&& self.seeds().len() == STREAMS
        &&& self.selected() < STREAMS
        &&& forall|j: int| 0 <= j < STREAMS ==> 0 <= (#[trigger] self.seeds()[j]) <= MODULUS
    }

    /// Every stream holds the default seed, and stream 0 is selected.
    pub fn new() -> (generator: Self)
        ensures
            generator.wf(),
            generator.selected() == 0,
            !generator.planted(),
            forall|j: int| 0 <= j < STREAMS ==> generator.seeds()[j] == DEFAULT,
    {
        let mut seed: Vec<i32> = Vec::new();
        let mut j: usize = 0;
        while j < STREAMS
            invariant
                0 <= j <= STREAMS,
                seed@.len() == j,
                forall|k: int| 0 <= k < j ==> seed@[k] == DEFAULT,
            decreases STREAMS - j,
        {
            seed.push(DEFAULT);
            j = j + 1;
        }
        RandomGenerator { seed, stream: 0, initialized: false }
    }

    /// Draws the next number of the selected stream: the stream's seed moves
    /// on by one step of the generator, and the new seed is the number drawn.
    /// Divided by `MODULUS` it is the variate between 0 and 1.
    pub fn Random(&mut self) -> (drawn: i32)
        requires
            old(self).wf(),
        ensures
            final(self).wf(),
            drawn == lehmer(MULTIPLIER as int, old(self).seeds()[old(self).selected() as int] as int),
            final(self).seeds() == old(self).seeds().update(old(self).selected() as int, drawn),
            final(self).selected() == old(self).selected(),
            final(self).planted() == old(self).planted(),
            0 < drawn <= MODULUS,
    {
        let next = next_in_stream(self.seed[self.stream]);
        self.seed[self.stream] = next;
        next
    }

    /// Gives every stream a seed of its own. Stream 0 gets the seed chosen
    /// by `n`, as `PutSeed` chooses it; each further stream gets the seed of
    /// the stream before it, moved on by the jump multiplier. The selected
    /// stream stays selected.
    pub fn PlantSeeds(&mut self, n: i32) -> (r: Result<(), SimError>)
        requires
            old(self).wf(),
        ensures
            final(self).wf(),
            final(self).selected() == old(self).selected(),
            n > 0 ==> r is Ok,
            r is Ok ==> final(self).planted(),
            r is Ok && n > 0 ==> final(self).seeds()[0] == n % MODULUS,
            r is Ok ==> 0 <= final(self).seeds()[0] < MODULUS,
            r is Ok ==> forall|j: nat|
                j < STREAMS ==> (#[trigger] final(self).seeds()[j as int]) == stream_seed(
                    final(self).seeds()[0] as int,
                    j,
                ),
            r is Err ==> r == Err::<(), SimError>(SimError::ClockUnavailable),
            r is Err ==> final(self).seeds() == old(self).seeds() && final(self).planted() == old(
                self,
            ).planted(),
    {
        let s = self.stream;
        self.stream = 0;
        let put = self.PutSeed(n);
        self.stream = s;
        match put {
            Err(e) => Err(e),
            Ok(_) => {
                self.initialized = true;
                let mut j: usize = 1;
                while j < STREAMS
                    invariant
                        1 <= j <= STREAMS,
                        self.wf(),
                        self.stream == s,
                        self.initialized,
                        n > 0 ==> self.seed@[0] == n % MODULUS,
                        0 <= self.seed@[0] < MODULUS,
                        forall|k: nat|
                            k < j ==> (#[trigger] self.seed@[k as int]) == stream_seed(
                                self.seed@[0] as int,
                                k,
                            ),
                    decreases STREAMS - j,
                {
                    let next = next_stream_seed(self.seed[j - 1]);
                    let ghost before = self.seed@;
                    self.seed[j] = next;
                    proof {
                        assert(stream_seed(before[0] as int, j as nat) == lehmer(
                            A256 as int,
                            stream_seed(before[0] as int, (j - 1) as nat),
                        ));
                        assert(before[(j - 1) as int] == stream_seed(
                            before[0] as int,
                            (j - 1) as nat,
                        ));
                        assert forall|k: nat| k < j + 1 implies (#[trigger] self.seed@[k as int])
                            == stream_seed(self.seed@[0] as int, k) by {
                            if k < j {
                                assert(self.seed@[k as int] == before[k as int]);
                            }
                        }
                    }
                    j = j + 1;
                }
                Ok(())
            },
        }
    }

    /// Sets the seed of the selected stream: to `n`, reduced, where `n` is
    /// positive, else to the reading of the system clock, reduced. Where the
    /// clock cannot be read, the seed stays as it was.
    pub fn PutSeed(&mut self, n: i32) -> (r: Result<(), SimError>)
        requires
            old(self).wf(),
        ensures
            final(self).wf(),
            final(self).selected() == old(self).selected(),
            final(self).planted() == old(self).planted(),
            n > 0 ==> r is Ok,
            n > 0 ==> final(self).seeds() == old(self).seeds().update(
                old(self).selected() as int,
                (n % MODULUS) as i32,
            ),
            r is Ok ==> final(self).seeds() == old(self).seeds().update(
                old(self).selected() as int,
                final(self).seeds()[old(self).selected() as int],
            ),
            r is Ok ==> 0 <= final(self).seeds()[old(self).selected() as int] < MODULUS,
            r is Err ==> r == Err::<(), SimError>(SimError::ClockUnavailable),
            r is Err ==> final(self).seeds() == old(self).seeds(),
    {
        let clock = if n > 0 {
            None
        } else {
            read_clock()
        };
        match seed_of(n, clock) {
            Ok(x) => {
                self.seed[self.stream] = x;
                assert(self.seed@ =~= old(self).seed@.update(self.stream as int, x));
                Ok(())
            },
            Err(e) => Err(e),
        }
    }

    /// The seed of the selected stream.
    pub fn GetSeed(&self) -> (seed: i32)
        requires
            self.wf(),
        ensures
            seed == self.seeds()[self.selected() as int],
    {
        self.seed[self.stream]
    }

    /// Selects the stream `index`, counted round the number of streams. The
    /// first selection of a stream other than 0 plants the default seeds, if
    /// none were planted before.
    pub fn SelectStream(&mut self, index: usize)
        requires
            old(self).wf(),
        ensures
            final(self).wf(),
            final(self).selected() == index % STREAMS,
            old(self).planted() || index % STREAMS == 0 ==> final(self).seeds() == old(
                self,
            ).seeds() && final(self).planted() == old(self).planted(),
            !old(self).planted() && index % STREAMS != 0 ==> final(self).planted() && forall|j: nat|
                j < STREAMS ==> (#[trigger] final(self).seeds()[j as int]) == stream_seed(
                    DEFAULT as int,
                    j,
                ),
    {
        self.stream = index % STREAMS;
        if !self.initialized && self.stream != 0 {
            let _ = self.PlantSeeds(DEFAULT);
            assert(self.seed@[0] == DEFAULT);
        }
    }
}

/// The system clock in whole milliseconds since the Unix epoch, where it can
/// be read so.
fn read_clock() -> (clock: Option<u128>) {
    let now = system_now();
    match since_epoch(&now) {
        Some(elapsed) => Some(whole_millis(&elapsed)),
        None => None,
    }
}

} // verus!
