//! The time a comparison took, in the form in which it is reported.

use std::time::{Duration, Instant};
use vstd::prelude::*;
use vstd::string::StringExecFns;

verus! {

/// `std::time::Instant`, a point in time, carried through as an opaque
/// value.
#[verifier::external_type_specification]
#[verifier::external_body]
pub struct ExInstant(Instant);

/// `Instant::elapsed`: the time that has passed since `start` was taken. It
/// differs from call to call, so nothing is promised of it.
pub assume_specification[ Instant::elapsed ](start: &Instant) -> (passed: Duration);

/// `Duration::as_secs`: the whole seconds of a duration.
pub assume_specification[ Duration::as_secs ](duration: &Duration) -> (secs: u64);

/// `Duration::subsec_nanos`: the part of a duration below one second, in
/// nanoseconds, which is always less than one billion.
pub assume_specification[ Duration::subsec_nanos ](duration: &Duration) -> (nanos: u32)
    ensures
        nanos < 1_000_000_000,
;

/// The character of a decimal digit.
pub open spec fn digit(d: nat) -> char
    recommends
        d < 10,
{
    seq!['0', '1', '2', '3', '4', '5', '6', '7', '8', '9'][d as int]
}

/// A number in decimal digits, without leading zeros.
pub open spec fn decimal(n: nat) -> Seq<char>
    decreases n,
{
    if n < 10 {
        seq![digit(n)]
    } else {
        decimal(n / 10).push(digit(n % 10))
    }
}

/// A number in at least two decimal digits: one below ten gets a zero in
/// front.
pub open spec fn two_digits(n: nat) -> Seq<char> {
    if n < 10 {
        "0"@ + decimal(n)
    } else {
        decimal(n)
    }
}

/// `u64::to_string`: the number in decimal digits, without a sign and
/// without leading zeros.
#[verifier::external_body]
fn decimal_text(n: u64) -> (text: String)
    ensures
        text@ == decimal(n as nat),
{
    n.to_string()
}

/// A span of time: whole seconds and the nanoseconds beyond them.
#[derive(Clone, Copy, Debug)]
pub struct Elapsed {
    secs: u64,
    nanos: u32,
}

impl Elapsed {
    /// The nanoseconds of a span stay below one second.
    #[verifier::type_invariant]
    pub closed spec fn inv(self) -> bool {
        self.nanos < 1_000_000_000
    }

    /// The whole seconds of the span.
    pub closed spec fn secs(self) -> nat {
        self.secs as nat
    }

    /// The nanoseconds beyond the whole seconds.
    pub closed spec fn subsec_nanos(self) -> nat {
        self.nanos as nat
    }

    /// How a span of `secs` seconds and `nanos` nanoseconds reads.
    ///
    /// Below a second it is given in the largest of nanoseconds, microseconds
    /// and milliseconds that leaves at least one unit, rounded down. Below ten
    /// seconds it is given in seconds with two decimals, rounded down, and
    /// from ten seconds on in whole seconds.
    pub open spec fn reading(secs: nat, nanos: nat) -> Seq<char> {
        if secs == 0 && nanos < 1000 {
            decimal(nanos) + " ns"@
        } else if secs == 0 && nanos < 1_000_000 {
            decimal(nanos / 1000) + " µs"@
        } else if secs == 0 {
            decimal(nanos / 1_000_000) + " ms"@
        } else if secs < 10 {
            decimal(secs) + "."@ + two_digits(nanos / 10_000_000) + " s"@
        } else {
            decimal(secs) + " s"@
        }
    }

    /// The span of `secs` seconds and `nanos` nanoseconds, where `nanos` is
    /// less than a second.
    pub fn new(secs: u64, nanos: u32) -> (elapsed: Option<Elapsed>)
        ensures
            elapsed is Some <==> nanos < 1_000_000_000,
            elapsed matches Some(e) ==> e.secs() == secs && e.subsec_nanos() == nanos,
    {
        if nanos < 1_000_000_000 {
            Some(Elapsed { secs, nanos })
        } else {
            None
        }
    }

    /// The time that has passed since `start`.
    pub fn from(start: &Instant) -> (elapsed: Elapsed)
        ensures
            elapsed.subsec_nanos() < 1_000_000_000,
    {
        let passed = start.elapsed();
        Elapsed { secs: passed.as_secs(), nanos: passed.subsec_nanos() }
    }

    /// The span as it is shown to a reader, such as `"12 ms"` or `"3.07 s"`.
    pub fn to_text(&self) -> (text: String)
        ensures
            text@ == Elapsed::reading(self.secs(), self.subsec_nanos()),
    {
        if self.secs == 0 && self.nanos < 1000 {
            decimal_text(self.nanos as u64).concat(" ns")
        } else if self.secs == 0 && self.nanos < 1_000_000 {
            decimal_text((self.nanos / 1000) as u64).concat(" µs")
        } else if self.secs == 0 {
            decimal_text((self.nanos / 1_000_000) as u64).concat(" ms")
        } else if self.secs < 10 {
            let hundredths = self.nanos / 10_000_000;
            let mut text = decimal_text(self.secs).concat(".");
            if hundredths < 10 {
                text.append("0");
            }
            let digits = decimal_text(hundredths as u64);
            text.append(digits.as_str());
            assert(text@ =~= decimal(self.secs as nat) + "."@ + two_digits(hundredths as nat));
            text.concat(" s")
        } else {
            decimal_text(self.secs).concat(" s")
        }
    }
}

} // verus!
