//! The statistics of a batch: how many files were converted, their sizes
//! before and after, and the time the batch took.
//!
//! Only conversions that succeeded count. The numbers that are not whole
//! (seconds, average sizes) are given as exact ratios of integers.

use vstd::prelude::*;
use crate::error::ConvertError;

verus! {

/// How the conversion of one file ended.
#[derive(Clone, Debug)]
pub enum ConversionOutcome {
    /// The file was converted; the size in bytes of the file written.
    Success(u64),
    /// The conversion failed.
    Failure(ConvertError),
}

/// What the statistics keep of one file that was attempted.
#[derive(Clone, Copy, Debug, PartialEq, Eq, Structural)]
pub enum Tallied {
    Converted { input_bytes: u64, output_bytes: u64 },
    Failed,
}

/// What is kept of a file of `input_bytes` bytes whose conversion ended in
/// `outcome`.
pub open spec fn tallied(input_bytes: u64, outcome: ConversionOutcome) -> Tallied {
    match outcome {
        ConversionOutcome::Success(output_bytes) => Tallied::Converted { input_bytes, output_bytes },
        ConversionOutcome::Failure(_) => Tallied::Failed,
    }
}

/// The number of converted files among those attempted.
pub open spec fn converted_count(log: Seq<Tallied>) -> nat
    decreases log.len(),
{
    if log.len() == 0 {
        0
    } else {
        converted_count(log.drop_last()) + if log.last() is Converted {
            1nat
        } else {
            0nat
        }
    }
}

/// The sizes of the converted files before conversion, summed up.
pub open spec fn input_total(log: Seq<Tallied>) -> nat
    decreases log.len(),
{
    if log.len() == 0 {
        0
    } else {
        input_total(log.drop_last()) + match log.last() {
            Tallied::Converted { input_bytes, .. } => input_bytes as nat,
            Tallied::Failed => 0nat,
        }
    }
}

/// The sizes of the files that the conversions wrote, summed up.
pub open spec fn output_total(log: Seq<Tallied>) -> nat
    decreases log.len(),
{
    if log.len() == 0 {
        0
    } else {
        output_total(log.drop_last()) + match log.last() {
            Tallied::Converted { output_bytes, .. } => output_bytes as nat,
            Tallied::Failed => 0nat,
        }
    }
}

/// The mean of `count` values that sum up to `total`, as numerator and
/// denominator; of no values, zero.
pub open spec fn mean_of(total: nat, count: nat) -> (nat, nat) {
    if count == 0 {
        (0, 1)
    } else {
        (total, count)
    }
}

/// No more files are converted than were attempted, and no converted file is
/// larger than a `u64` says.
pub proof fn lemma_totals_bounded(log: Seq<Tallied>)
    ensures
        converted_count(log) <= log.len(),
        input_total(log) <= converted_count(log) * u64::MAX,
        output_total(log) <= converted_count(log) * u64::MAX,
    decreases log.len(),
{
    if log.len() > 0 {
        lemma_totals_bounded(log.drop_last());
        let n = converted_count(log.drop_last());
        assert((n + 1) * u64::MAX == n * u64::MAX + u64::MAX) by (nonlinear_arith);
    }
}

/// A batch in which nothing was converted has the average sizes zero.
pub proof fn lemma_nothing_converted_means_zero(log: Seq<Tallied>)
    requires
        converted_count(log) == 0,
    ensures
        mean_of(input_total(log), converted_count(log)) == (0nat, 1nat),
        mean_of(output_total(log), converted_count(log)) == (0nat, 1nat),
        input_total(log) == 0,
        output_total(log) == 0,
{
    lemma_totals_bounded(log);
}

/// A failed conversion changes none of the statistics.
pub proof fn lemma_failure_counts_nothing(log: Seq<Tallied>)
    ensures
        converted_count(log.push(Tallied::Failed)) == converted_count(log),
        input_total(log.push(Tallied::Failed)) == input_total(log),
        output_total(log.push(Tallied::Failed)) == output_total(log),
{
    assert(log.push(Tallied::Failed).drop_last() =~= log);
}

/// A converted file counts once, with both of its sizes.
pub proof fn lemma_success_counts_once(log: Seq<Tallied>, input_bytes: u64, output_bytes: u64)
    ensures
        converted_count(log.push(Tallied::Converted { input_bytes, output_bytes }))
            == converted_count(log) + 1,
        input_total(log.push(Tallied::Converted { input_bytes, output_bytes })) == input_total(log)
            + input_bytes,
        output_total(log.push(Tallied::Converted { input_bytes, output_bytes })) == output_total(
            log,
        ) + output_bytes,
{
    assert(log.push(Tallied::Converted { input_bytes, output_bytes }).drop_last() =~= log);
}

/// A number as the quotient of two integers. The denominator is never zero.
#[derive(Clone, Copy, Debug)]
pub struct Ratio {
    numerator: u128,
    denominator: u128,
}

impl View for Ratio {
    type V = (nat, nat);

    closed spec fn view(&self) -> (nat, nat) {
        (self.numerator as nat, self.denominator as nat)
    }
}

impl Ratio {
    #[verifier::type_invariant]
    spec fn divides(self) -> bool {
        self.denominator >= 1
    }

    /// The ratio of `numerator` to `denominator`, or nothing where the
    /// denominator is zero.
    pub fn new(numerator: u128, denominator: u128) -> (ratio: Option<Ratio>)
        ensures
            match ratio {
                Some(r) => r@ == (numerator as nat, denominator as nat) && denominator >= 1,
                None => denominator == 0,
            },
    {
        if denominator == 0 {
            None
        } else {
            Some(Ratio { numerator, denominator })
        }
    }

    /// The numerator.
    pub fn numerator(&self) -> (numerator: u128)
        ensures
            numerator as nat == self@.0,
    {
        self.numerator
    }

    /// The denominator, which is at least one.
    pub fn denominator(&self) -> (denominator: u128)
        ensures
            denominator as nat == self@.1,
            denominator >= 1,
    {
        proof {
            use_type_invariant(self);
        }
        self.denominator
    }

    /// The whole part of the number.
    pub fn whole(&self) -> (whole: u128)
        ensures
            self@.1 >= 1,
            whole as nat == self@.0 / self@.1,
    {
        proof {
            use_type_invariant(self);
        }
        self.numerator / self.denominator
    }
}

/// What a batch returns: the number of files converted, the time it took in
/// seconds, and the average size in bytes of the converted files before and
/// after conversion.
#[derive(Clone, Copy, Debug)]
pub struct BatchResult {
    pub files_converted: usize,
    pub elapsed_seconds: Ratio,
    pub avg_input_bytes: Ratio,
    pub avg_output_bytes: Ratio,
}

/// The statistics of a batch while it runs.
#[derive(Debug)]
pub struct Stats {
    log: Vec<Tallied>,
}

impl View for Stats {
    type V = Seq<Tallied>;

    closed spec fn view(&self) -> Seq<Tallied> {
        self.log@
    }
}

impl Stats {
    /// The statistics of a batch in which nothing was attempted yet.
    pub fn new() -> (stats: Stats)
        ensures
            stats@ == Seq::<Tallied>::empty(),
    {
        Stats { log: Vec::new() }
    }

    /// Takes note of how the conversion of a file of `input_bytes` bytes
    /// ended.
    pub fn record(&mut self, input_bytes: u64, outcome: &ConversionOutcome)
        ensures
            final(self)@ == old(self)@.push(tallied(input_bytes, *outcome)),
    {
        let entry = match outcome {
            ConversionOutcome::Success(output_bytes) => Tallied::Converted {
                input_bytes,
                output_bytes: *output_bytes,
            },
            ConversionOutcome::Failure(_) => Tallied::Failed,
        };
        self.log.push(entry);
    }

    /// The number of files attempted so far.
    pub fn files_attempted(&self) -> (count: usize)
        ensures
            count == self@.len(),
    {
        self.log.len()
    }

    /// Sums the batch up, given the time it took in milliseconds.
    ///
    /// The averages are taken over the converted files. Where none was
    /// converted both are zero, over the denominator one.
    pub fn finish(&self, elapsed_millis: u128) -> (result: BatchResult)
        ensures
            result.files_converted == converted_count(self@),
            result.elapsed_seconds@ == (elapsed_millis as nat, 1000nat),
            result.avg_input_bytes@ == mean_of(input_total(self@), converted_count(self@)),
            result.avg_output_bytes@ == mean_of(output_total(self@), converted_count(self@)),
            result.files_converted == 0 ==> result.avg_input_bytes@.0 == 0
                && result.avg_output_bytes@.0 == 0,
    {
        let mut count: usize = 0;
        let mut input: u128 = 0;
        let mut output: u128 = 0;
        let mut i: usize = 0;
        assert(self.log@.take(0) =~= Seq::<Tallied>::empty());
        while i < self.log.len()
            invariant
                i <= self.log@.len(),
                count == converted_count(self.log@.take(i as int)),
                input == input_total(self.log@.take(i as int)),
                output == output_total(self.log@.take(i as int)),
            decreases self.log@.len() - i,
        {
            proof {
                let seen = self.log@.take(i as int);
                let next = self.log@.take(i + 1);
                assert(next.drop_last() =~= seen);
                assert(next.last() == self.log@[i as int]);
                lemma_totals_bounded(next);
                assert(converted_count(next) * u64::MAX <= usize::MAX * u64::MAX)
                    by (nonlinear_arith)
                    requires
                        converted_count(next) <= usize::MAX,
                ;
                assert(usize::MAX * u64::MAX <= u64::MAX * u64::MAX) by (nonlinear_arith);
            }
            match self.log[i] {
                Tallied::Converted { input_bytes, output_bytes } => {
                    count = count + 1;
                    input = input + input_bytes as u128;
                    output = output + output_bytes as u128;
                },
                Tallied::Failed => {},
            }
            i = i + 1;
        }
        assert(self.log@.take(i as int) =~= self.log@);
        proof {
            if count == 0 {
                lemma_nothing_converted_means_zero(self.log@);
            }
        }
        let one = Ratio { numerator: 0, denominator: 1 };
        let (avg_input_bytes, avg_output_bytes) = if count == 0 {
            (one, one)
        } else {
            (
                Ratio { numerator: input, denominator: count as u128 },
                Ratio { numerator: output, denominator: count as u128 },
            )
        };
        BatchResult {
            files_converted: count,
            elapsed_seconds: Ratio { numerator: elapsed_millis, denominator: 1000 },
            avg_input_bytes,
            avg_output_bytes,
        }
    }
}

} // verus!
