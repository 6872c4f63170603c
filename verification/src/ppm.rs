//! The text of a plain PPM image: a header with the size and the largest
//! sample value, then the samples of every pixel in decimal, five pixels to
//! a line.

use vstd::prelude::*;

verus! {

/// The largest value of a sample.
pub const COLOR_MAX: i32 = 255;

/// The red, green and blue sample of one pixel.
#[derive(Clone, Copy, Debug, PartialEq, Eq, Structural)]
pub struct Sample {
    pub red: i32,
    pub green: i32,
    pub blue: i32,
}

/// The digits of `n` in decimal, without leading zeros.
pub open spec fn digits(n: nat) -> Seq<u8>
    decreases n,
{
    if n < 10 {
        seq![(48 + n) as u8]
    } else {
        digits(n / 10).push((48 + n % 10) as u8)
    }
}

/// `n` in decimal, with a minus sign before a negative number.
pub open spec fn decimal(n: int) -> Seq<u8> {
    if n < 0 {
        seq![45u8] + digits((-n) as nat)
    } else {
        digits(n as nat)
    }
}

/// The text of one pixel: its three samples, each followed by a space.
pub open spec fn sample_text(s: Sample) -> Seq<u8> {
    decimal(s.red as int) + seq![32u8] + decimal(s.green as int) + seq![32u8] + decimal(
        s.blue as int,
    ) + seq![32u8]
}

/// The text of the first `n` pixels: a line ends after every fifth of them.
pub open spec fn body_text(samples: Seq<Sample>, n: nat) -> Seq<u8>
    decreases n,
{
    if n == 0 {
        Seq::empty()
    } else {
        let before = body_text(samples, (n - 1) as nat) + sample_text(samples[n - 1]);
        if n % 5 == 0 {
            before.push(10u8)
        } else {
            before
        }
    }
}

/// The header: the magic number of the plain format, then width and height,
/// then the largest sample value, each on a line of its own.
pub open spec fn header_text(width: nat, height: nat) -> Seq<u8> {
    seq![80u8, 51u8, 10u8] + digits(width) + seq![32u8] + digits(height) + seq![10u8] + decimal(
        COLOR_MAX as int,
    ) + seq![10u8]
}

/// The whole image: header, pixels, and a last end of line.
pub open spec fn document_text(width: nat, height: nat, samples: Seq<Sample>) -> Seq<u8> {
    (header_text(width, height) + body_text(samples, samples.len())).push(10u8)
}

/// Appends the digits of `n`.
fn push_digits(out: &mut Vec<u8>, n: u64)
    ensures
        final(out)@ == old(out)@ + digits(n as nat),
    decreases n,
{
    if n >= 10 {
        push_digits(out, n / 10);
    }
    let d: u8 = (n % 10) as u8;
    out.push(48 + d);
    assert(out@ =~= old(out)@ + digits(n as nat));
}

/// Appends `n` in decimal.
fn push_decimal(out: &mut Vec<u8>, n: i32)
    ensures
        final(out)@ == old(out)@ + decimal(n as int),
{
    if n < 0 {
        out.push(45);
        let m: u64 = (-(n as i64)) as u64;
        push_digits(out, m);
        assert(out@ =~= old(out)@ + decimal(n as int));
    } else {
        push_digits(out, n as u64);
    }
}

/// Appends the text of one pixel.
fn push_sample(out: &mut Vec<u8>, s: Sample)
    ensures
        final(out)@ == old(out)@ + sample_text(s),
{
    push_decimal(out, s.red);
    out.push(32);
    push_decimal(out, s.green);
    out.push(32);
    push_decimal(out, s.blue);
    out.push(32);
    assert(out@ =~= old(out)@ + sample_text(s));
}

/// The text of one pixel: its three samples in decimal, each followed by a
/// space.
pub fn sample_line(s: Sample) -> (r: Vec<u8>)
    ensures
        r@ == sample_text(s),
{
    let mut out: Vec<u8> = Vec::new();
    push_sample(&mut out, s);
    assert(out@ =~= sample_text(s));
    out
}

/// The text of the image of the given size whose pixels, row by row, have the
/// given samples.
pub fn document(width: usize, height: usize, samples: &Vec<Sample>) -> (r: Vec<u8>)
    ensures
        r@ == document_text(width as nat, height as nat, samples@),
{
    let mut out: Vec<u8> = Vec::new();
    out.push(80);
    out.push(51);
    out.push(10);
    push_digits(&mut out, width as u64);
    out.push(32);
    push_digits(&mut out, height as u64);
    out.push(10);
    push_decimal(&mut out, COLOR_MAX);
    out.push(10);
    assert(out@ =~= header_text(width as nat, height as nat));
    let mut k: usize = 0;
    while k < samples.len()
        invariant
            k <= samples.len(),
            out@ == header_text(width as nat, height as nat) + body_text(samples@, k as nat),
        decreases samples.len() - k,
    {
        push_sample(&mut out, samples[k]);
        k += 1;
        if k % 5 == 0 {
            out.push(10);
        }
        assert(out@ =~= header_text(width as nat, height as nat) + body_text(samples@, k as nat));
    }
    out.push(10);
    out
}

/// A number in decimal has at least one digit, and every one of them is a
/// digit.
pub proof fn lemma_digits_are_digits(n: nat)
    ensures
        digits(n).len() >= 1,
        forall|k: int| 0 <= k < digits(n).len() ==> 48 <= #[trigger] digits(n)[k] <= 57,
    decreases n,
{
    if n >= 10 {
        lemma_digits_are_digits(n / 10);
    }
}

} // verus!
