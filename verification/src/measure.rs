//! A meter for the throughput of a byte source: total bytes, the window
//! that feeds the moving average, and what is left of an expected size.

use std::time::{Duration, Instant};
use vstd::prelude::*;

verus! {

/// Minimum update rate for the moving average, in nanoseconds: a window
/// that is shorter gives no sample, to avoid instability due to too short
/// read times.
pub const UPDATE_RATE_NANOS: u128 = 10_000_000;

/// `std::time::Instant`, a moment on the monotonic clock. Nothing inside it
/// is seen here.
#[verifier::external_type_specification]
#[verifier::external_body]
pub struct ExInstant(std::time::Instant);

/// `Instant::now` gives the present moment. Nothing is claimed of it.
pub assume_specification[ std::time::Instant::now ]() -> Instant;

/// `Instant::elapsed` gives the time that has passed since the instant.
/// Nothing is claimed of it.
pub assume_specification[ std::time::Instant::elapsed ](start: &Instant) -> Duration;

/// `Duration::as_nanos` gives the whole span in nanoseconds. Nothing is
/// claimed of it: a span shows nothing else of itself here.
pub assume_specification[ std::time::Duration::as_nanos ](span: &Duration) -> u128;

/// The current measurement interval.
#[derive(Debug)]
struct Buffer {
    time: Instant,
    read: usize,
}

impl Buffer {
    fn new() -> (r: Self)
        ensures
            r.read == 0,
    {
        Self { time: Instant::now(), read: 0 }
    }
}

/// What a meter has counted, as a mathematical value.
pub ghost struct Meter {
    /// The expected total byte count, set only at construction.
    pub size_hint: Option<nat>,
    /// Cumulative bytes successfully read.
    pub total: nat,
    /// Bytes read since the current window began.
    pub window: nat,
}

impl Meter {
    /// A meter that has counted nothing and expects no size.
    pub open spec fn new() -> Meter {
        Meter { size_hint: None, total: 0, window: 0 }
    }

    /// A meter that has counted nothing and expects `size_hint` bytes.
    pub open spec fn with_size_hint(size_hint: nat) -> Meter {
        Meter { size_hint: Some(size_hint), total: 0, window: 0 }
    }

    /// Whether a window that has lasted `elapsed` nanoseconds is long
    /// enough to be folded into the average.
    pub open spec fn is_due(elapsed: nat) -> bool {
        elapsed >= UPDATE_RATE_NANOS
    }

    /// The meter after a successful read of `read` bytes that ended
    /// `elapsed` nanoseconds after the window began.
    pub open spec fn after(self, read: nat, elapsed: nat) -> Meter {
        Meter {
            size_hint: self.size_hint,
            total: self.total + read,
            window: if Self::is_due(elapsed) {
                0
            } else {
                self.window + read
            },
        }
    }

    /// The sample that such a read folds into the average, as bytes and
    /// nanoseconds: the whole window, when it is due.
    pub open spec fn sample(self, read: nat, elapsed: nat) -> Option<(nat, nat)> {
        if Self::is_due(elapsed) {
            Some((self.window + read, elapsed))
        } else {
            None
        }
    }

    /// The meter after a sequence of successful reads, each given as its
    /// bytes and the nanoseconds elapsed in its window.
    pub open spec fn after_all(self, reads: Seq<(nat, nat)>) -> Meter
        decreases reads.len(),
    {
        if reads.len() == 0 {
            self
        } else {
            self.after_all(reads.drop_last()).after(reads.last().0, reads.last().1)
        }
    }

    /// The bytes still expected: absent without a size hint, and absent
    /// once the source has delivered more than the hint.
    pub open spec fn remaining(self) -> Option<nat> {
        match self.size_hint {
            Some(size_hint) => if self.total <= size_hint {
                Some((size_hint - self.total) as nat)
            } else {
                None
            },
            None => None,
        }
    }
}

/// The bytes that a sequence of reads returned, added up.
pub open spec fn bytes_read(reads: Seq<(nat, nat)>) -> nat
    decreases reads.len(),
{
    if reads.len() == 0 {
        0
    } else {
        bytes_read(reads.drop_last()) + reads.last().0
    }
}

/// One measurement for the moving average: the bytes of a whole window and
/// the time that the window lasted.
#[derive(Clone, Copy, Debug, PartialEq, Eq, Structural)]
pub struct Sample {
    /// Bytes read in the window.
    pub bytes: usize,
    /// Length of the window in nanoseconds.
    pub nanos: u128,
}

impl View for Sample {
    type V = (nat, nat);

    open spec fn view(&self) -> (nat, nat) {
        (self.bytes as nat, self.nanos as nat)
    }
}

/// The view of a sample that may be absent.
pub open spec fn sample_view(sample: Option<Sample>) -> Option<(nat, nat)> {
    match sample {
        Some(sample) => Some(sample@),
        None => None,
    }
}

/// The counters of a meter.
#[derive(Debug)]
struct Counters {
    size_hint: Option<usize>,
    /// Total amount of bytes read
    total: usize,
    buf: Buffer,
}

impl View for Counters {
    type V = Meter;

    closed spec fn view(&self) -> Meter {
        Meter {
            size_hint: match self.size_hint {
                Some(size_hint) => Some(size_hint as nat),
                None => None,
            },
            total: self.total as nat,
            window: self.buf.read as nat,
        }
    }
}

impl Counters {
    #[verifier::type_invariant]
    spec fn window_within_total(self) -> bool {
        self.buf.read <= self.total
    }

    closed spec fn window_start(&self) -> Instant {
        self.buf.time
    }

    fn new(size_hint: Option<usize>) -> (r: Self)
        ensures
            r@.total == 0,
            r@.window == 0,
            match size_hint {
                Some(size_hint) => r@.size_hint == Some(size_hint as nat),
                None => r@.size_hint is None,
            },
    {
        Self { size_hint, total: 0, buf: Buffer::new() }
    }

    fn account(&mut self, read: usize, elapsed: u128) -> (r: Option<Sample>)
        requires
            old(self)@.total + read <= usize::MAX,
        ensures
            final(self)@ == old(self)@.after(read as nat, elapsed as nat),
            sample_view(r) == old(self)@.sample(read as nat, elapsed as nat),
            !Meter::is_due(elapsed as nat) ==> final(self).window_start() == old(
                self,
            ).window_start(),
    {
        proof {
            use_type_invariant(&*self);
        }
        // Update total bytes read
        self.total += read;
        self.buf.read += read;
        let mut sample: Option<Sample> = None;
        // Hand out the window if the minimum update rate has been surpassed
        if elapsed >= UPDATE_RATE_NANOS {
            sample = Some(Sample { bytes: self.buf.read, nanos: elapsed });
            self.buf = Buffer::new();
        }
        sample
    }
}

/// Counts what is read from a wrapped byte source.
#[derive(Debug)]
pub struct MeasuringReader<R> {
    /// Wrapped reader
    inner: R,
    counters: Counters,
}

impl<R> View for MeasuringReader<R> {
    type V = Meter;

    closed spec fn view(&self) -> Meter {
        self.counters@
    }
}

impl<R> MeasuringReader<R> {
    /// The wrapped reader.
    pub closed spec fn inner(&self) -> R {
        self.inner
    }

    /// The moment at which the current window began.
    pub closed spec fn window_start(&self) -> Instant {
        self.counters.window_start()
    }

    /// Wrap a byte source with no size hint.
    pub fn new(inner: R) -> (r: Self)
        ensures
            r@ == Meter::new(),
            r.inner() == inner,
    {
        Self { inner, counters: Counters::new(None) }
    }

    /// Wrap a byte source and record an expected total byte count.
    pub fn with_size_hint(inner: R, size_hint: usize) -> (r: Self)
        ensures
            r@ == Meter::with_size_hint(size_hint as nat),
            r.inner() == inner,
    {
        Self { inner, counters: Counters::new(Some(size_hint)) }
    }

    /// Cumulative bytes successfully read.
    pub fn total(&self) -> (r: usize)
        ensures
            r == self@.total,
    {
        self.counters.total
    }

    /// The expected total byte count, if one was given.
    pub fn size_hint(&self) -> (r: Option<usize>)
        ensures
            match r {
                Some(size_hint) => self@.size_hint == Some(size_hint as nat),
                None => self@.size_hint is None,
            },
    {
        self.counters.size_hint
    }

    /// The bytes that remain of the expected size: absent when no size hint
    /// was given and when more than the hint has been read.
    pub fn remaining(&self) -> (r: Option<usize>)
        ensures
            match r {
                Some(left) => self@.remaining() == Some(left as nat),
                None => self@.remaining() is None,
            },
    {
        match self.counters.size_hint {
            Some(size_hint) => if self.counters.total <= size_hint {
                Some(size_hint - self.counters.total)
            } else {
                None
            },
            None => None,
        }
    }

    /// The wrapped reader, to read from. What it reads is counted by
    /// [`MeasuringReader::read`].
    pub fn get_mut(&mut self) -> (r: &mut R)
        ensures
            *r == old(self).inner(),
            final(self).inner() == *final(r),
            final(self)@ == old(self)@,
            final(self).window_start() == old(self).window_start(),
    {
        &mut self.inner
    }

    /// Take in the outcome of one read from the wrapped source and hand it
    /// back unchanged.
    ///
    /// A successful read is counted as [`MeasuringReader::account`] counts
    /// it, with the time that the clock shows to have passed since the
    /// window began; with it comes the sample to fold into the average, if
    /// the window was due. A failed read changes nothing.
    pub fn read<E>(&mut self, outcome: Result<usize, E>) -> (r: (Result<usize, E>, Option<Sample>))
        requires
            outcome matches Ok(read) ==> old(self)@.total + read <= usize::MAX,
        ensures
            r.0 == outcome,
            outcome is Err ==> *final(self) == *old(self) && r.1 is None,
            outcome matches Ok(read) ==> {
                &&& final(self).inner() == old(self).inner()
                &&& exists|elapsed: nat|
                    {
                        &&& final(self)@ == #[trigger] old(self)@.after(read as nat, elapsed)
                        &&& sample_view(r.1) == old(self)@.sample(read as nat, elapsed)
                    }
                &&& r.1 is None ==> final(self).window_start() == old(self).window_start()
            },
    {
        match outcome {
            Ok(read) => {
                let elapsed = self.counters.buf.time.elapsed();
                let sample = self.account(read, elapsed.as_nanos());
                (Ok(read), sample)
            },
            Err(error) => (Err(error), None),
        }
    }

    /// Count a successful read of `read` bytes that ended `elapsed`
    /// nanoseconds after the window began.
    ///
    /// A window of at least the minimum update rate is handed out whole, as
    /// the sample to fold into the average, and a new window begins; a
    /// shorter one goes on.
    pub fn account(&mut self, read: usize, elapsed: u128) -> (r: Option<Sample>)
        requires
            old(self)@.total + read <= usize::MAX,
        ensures
            final(self)@ == old(self)@.after(read as nat, elapsed as nat),
            sample_view(r) == old(self)@.sample(read as nat, elapsed as nat),
            final(self).inner() == old(self).inner(),
            !Meter::is_due(elapsed as nat) ==> final(self).window_start() == old(
                self,
            ).window_start(),
    {
        self.counters.account(read, elapsed)
    }
}

/// The total is the sum of what the reads returned: after any sequence of
/// successful reads it has grown by exactly their bytes, whatever the clock
/// showed.
pub proof fn lemma_total_is_sum_of_reads(meter: Meter, reads: Seq<(nat, nat)>)
    ensures
        meter.after_all(reads).total == meter.total + bytes_read(reads),
    decreases reads.len(),
{
    if reads.len() > 0 {
        lemma_total_is_sum_of_reads(meter, reads.drop_last());
    }
}

/// The total never decreases, and a read of no bytes leaves it as it is.
pub proof fn lemma_total_is_monotonic(meter: Meter, read: nat, elapsed: nat)
    ensures
        meter.after(read, elapsed).total >= meter.total,
        read == 0 ==> meter.after(read, elapsed).total == meter.total,
{
}

/// A read of no bytes takes part in the timing like any other but adds
/// nothing: a window that goes on keeps its bytes, and a window that is due
/// is handed out with the bytes it had.
pub proof fn lemma_empty_read_adds_nothing(meter: Meter, elapsed: nat)
    ensures
        meter.after(0, elapsed).total == meter.total,
        !Meter::is_due(elapsed) ==> meter.after(0, elapsed) == meter,
        Meter::is_due(elapsed) ==> meter.sample(0, elapsed) == Some((meter.window, elapsed)),
{
}

/// Reads within a window shorter than the minimum update rate give no
/// sample, so the average stays as it is; the window keeps their bytes.
pub proof fn lemma_short_window_gives_no_sample(meter: Meter, read: nat, elapsed: nat)
    requires
        elapsed < UPDATE_RATE_NANOS,
    ensures
        meter.sample(read, elapsed) is None,
        meter.after(read, elapsed).window == meter.window + read,
{
}

/// The size hint is set only at construction: no sequence of reads changes
/// it. Without a hint nothing is ever said to remain.
pub proof fn lemma_size_hint_is_fixed(meter: Meter, reads: Seq<(nat, nat)>)
    ensures
        meter.after_all(reads).size_hint == meter.size_hint,
        meter.size_hint is None ==> meter.after_all(reads).remaining() is None,
    decreases reads.len(),
{
    if reads.len() > 0 {
        lemma_size_hint_is_fixed(meter, reads.drop_last());
    }
}

/// While the total is within the size hint, what remains is their
/// difference; when a sequence of reads reaches the hint, nothing remains.
pub proof fn lemma_remaining_is_the_difference(size_hint: nat, reads: Seq<(nat, nat)>)
    ensures
        ({
            let meter = Meter::with_size_hint(size_hint).after_all(reads);
            &&& meter.total == bytes_read(reads)
            &&& meter.total <= size_hint ==> meter.remaining() == Some((size_hint - meter.total) as nat)
            &&& meter.total == size_hint ==> meter.remaining() == Some(0nat)
            &&& meter.total > size_hint ==> meter.remaining() is None
        }),
{
    lemma_total_is_sum_of_reads(Meter::with_size_hint(size_hint), reads);
    lemma_size_hint_is_fixed(Meter::with_size_hint(size_hint), reads);
}

/// The window never holds more than the total.
pub proof fn lemma_window_within_total(meter: Meter, reads: Seq<(nat, nat)>)
    requires
        meter.window <= meter.total,
    ensures
        meter.after_all(reads).window <= meter.after_all(reads).total,
    decreases reads.len(),
{
    if reads.len() > 0 {
        lemma_window_within_total(meter, reads.drop_last());
    }
}

} // verus!
