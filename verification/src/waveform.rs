//! Waveform data: raw 16-bit samples and the energy of equal stretches of
//! them.

use vstd::prelude::*;
use vstd::string::StringExecFns;
use crate::text::{decimal, push_arg, push_decimal};

verus! {

/// The number of data points of a waveform where none is asked for.
pub const DEFAULT_SAMPLES: usize = 200;

/// The number of data points that a request asks for.
pub fn sample_count(samples: Option<usize>) -> (n: usize)
    ensures
        n == match samples {
            Some(k) => k,
            None => DEFAULT_SAMPLES,
        },
{
    match samples {
        Some(k) => k,
        None => DEFAULT_SAMPLES,
    }
}

/// The arguments with which the encoder writes the audio of `video_path`
/// to `target` as raw samples: one channel, 8000 samples a second, signed
/// 16 bits each, low byte first.
pub open spec fn pcm_args(video_path: Seq<char>, target: Seq<char>) -> Seq<Seq<char>> {
    seq![
        "-i"@,
        video_path,
        "-vn"@,
        "-acodec"@,
        "pcm_s16le"@,
        "-ar"@,
        "8000"@,
        "-ac"@,
        "1"@,
        "-f"@,
        "s16le"@,
        "-y"@,
        target,
    ]
}

/// The arguments with which the encoder writes raw samples.
pub fn pcm_arguments(video_path: &str, target: &str) -> (v: Vec<String>)
    ensures
        v.deep_view() == pcm_args(video_path@, target@),
{
    let mut v: Vec<String> = Vec::new();
    push_arg(&mut v, "-i");
    push_arg(&mut v, video_path);
    push_arg(&mut v, "-vn");
    push_arg(&mut v, "-acodec");
    push_arg(&mut v, "pcm_s16le");
    push_arg(&mut v, "-ar");
    push_arg(&mut v, "8000");
    push_arg(&mut v, "-ac");
    push_arg(&mut v, "1");
    push_arg(&mut v, "-f");
    push_arg(&mut v, "s16le");
    push_arg(&mut v, "-y");
    push_arg(&mut v, target);
    assert(v.deep_view() =~= pcm_args(video_path@, target@));
    v
}

/// The name of the file of raw samples that is written at `stamp`, a time
/// in milliseconds.
pub open spec fn samples_file(stamp: u128) -> Seq<char> {
    "waveform_"@ + decimal(stamp as nat) + ".raw"@
}

/// The name of the file of raw samples that is written at `stamp`.
pub fn samples_file_name(stamp: u128) -> (s: String)
    ensures
        s@ == samples_file(stamp),
{
    let mut s = "waveform_".to_string();
    push_decimal(&mut s, stamp);
    s.append(".raw");
    s
}

/// The signed 16-bit number that two bytes stand for, low byte first.
pub open spec fn sample_of(low: u8, high: u8) -> i16 {
    if high >= 128 {
        (low + 256 * high - 65536) as i16
    } else {
        (low + 256 * high) as i16
    }
}

/// The samples that raw bytes stand for: one for each full pair.
pub open spec fn samples_of(bytes: Seq<u8>) -> Seq<i16> {
    Seq::new(bytes.len() / 2, |i: int| sample_of(bytes[2 * i], bytes[2 * i + 1]))
}

/// Reads raw bytes as samples. A single byte left at the end is dropped.
pub fn decode_samples(bytes: &Vec<u8>) -> (v: Vec<i16>)
    ensures
        v@ == samples_of(bytes@),
{
    let n = bytes.len() / 2;
    let mut v: Vec<i16> = Vec::new();
    let mut i: usize = 0;
    while i < n
        invariant
            i <= n,
            n == bytes@.len() / 2,
            bytes@.len() <= usize::MAX,
            v@.len() == i,
            forall|k: int| 0 <= k < i ==> v@[k] == sample_of(bytes@[2 * k], bytes@[2 * k + 1]),
        decreases n - i,
    {
        let low = bytes[2 * i];
        let high = bytes[2 * i + 1];
        let wide: i32 = low as i32 + 256 * (high as i32);
        let sample: i16 = if high >= 128 {
            (wide - 65536) as i16
        } else {
            wide as i16
        };
        v.push(sample);
        i += 1;
    }
    assert(v@ =~= samples_of(bytes@));
    v
}

/// The sum of the squares of samples.
pub open spec fn sum_squares(s: Seq<i16>) -> nat
    decreases s.len(),
{
    if s.len() == 0 {
        0
    } else {
        sum_squares(s.drop_last()) + (s.last() as int * s.last() as int) as nat
    }
}

/// The length of each stretch when `len` samples are cut into `n` equal
/// stretches.
pub open spec fn stretch(len: nat, n: nat) -> nat {
    if n == 0 {
        0
    } else {
        len / n
    }
}

/// The energy of each of the `n` equal stretches of a run of samples: the
/// sum of the squares of its samples. Samples that fill no whole stretch at
/// the end count for nothing.
pub open spec fn energies(samples: Seq<i16>, n: nat) -> Seq<nat> {
    Seq::new(
        n,
        |i: int|
            sum_squares(
                samples.subrange(
                    i * stretch(samples.len(), n),
                    (i + 1) * stretch(samples.len(), n),
                ),
            ),
    )
}

/// The square of a sample is at most 2^30.
pub proof fn lemma_square_bound(x: int)
    requires
        -32768 <= x <= 32767,
    ensures
        0 <= x * x <= 0x4000_0000,
{
    assert(0 <= x * x <= 0x4000_0000) by (nonlinear_arith)
        requires
            -32768 <= x <= 32767,
    ;
}

/// The sum of the squares of samples is at most 2^30 for each sample.
pub proof fn lemma_sum_squares_bound(s: Seq<i16>)
    ensures
        sum_squares(s) <= s.len() * 0x4000_0000,
    decreases s.len(),
{
    if s.len() > 0 {
        let front = s.drop_last();
        lemma_sum_squares_bound(front);
        lemma_square_bound(s.last() as int);
        assert(front.len() == s.len() - 1);
    }
}

/// The sum of the squares of `samples[from..to]`.
pub fn energy(samples: &Vec<i16>, from: usize, to: usize) -> (e: u128)
    requires
        from <= to <= samples@.len(),
    ensures
        e == sum_squares(samples@.subrange(from as int, to as int)),
{
    let mut e: u128 = 0;
    let mut i: usize = from;
    let held = samples.len();
    assert(samples@.subrange(from as int, from as int).len() == 0);
    while i < to
        invariant
            from <= i <= to <= samples@.len() <= usize::MAX,
            e == sum_squares(samples@.subrange(from as int, i as int)),
        decreases to - i,
    {
        let x: i64 = samples[i] as i64;
        proof {
            let longer = samples@.subrange(from as int, i + 1);
            assert(longer.drop_last() =~= samples@.subrange(from as int, i as int));
            assert(longer.last() == samples@[i as int]);
            lemma_square_bound(x as int);
            lemma_sum_squares_bound(longer);
            assert(sum_squares(longer) == e + x * x);
            assert(longer.len() * 0x4000_0000 <= 0xffff_ffff_ffff_ffff * 0x4000_0000);
        }
        let square: u128 = (x * x) as u128;
        e = e + square;
        i += 1;
    }
    e
}

/// The energy of each of the `n` equal stretches of `samples`, with the
/// length of a stretch.
pub fn stretch_energies(samples: &Vec<i16>, n: usize) -> (r: (Vec<u128>, usize))
    ensures
        r.1 == stretch(samples@.len(), n as nat),
        r.0@.len() == n,
        forall|i: int| 0 <= i < n ==> r.0@[i] as nat == #[trigger] energies(samples@, n as nat)[i],
{
    let mut out: Vec<u128> = Vec::new();
    if n == 0 {
        return (out, 0);
    }
    let len = samples.len();
    let size = len / n;
    proof {
        vstd::arithmetic::div_mod::lemma_fundamental_div_mod(len as int, n as int);
        vstd::arithmetic::div_mod::lemma_mod_pos_bound(len as int, n as int);
        assert(n * size <= len);
    }
    let mut i: usize = 0;
    while i < n
        invariant
            i <= n,
            n > 0,
            len == samples@.len(),
            n * size <= len,
            size == stretch(samples@.len(), n as nat),
            out@.len() == i,
            forall|k: int|
                0 <= k < i ==> out@[k] as nat == #[trigger] energies(samples@, n as nat)[k],
        decreases n - i,
    {
        proof {
            vstd::arithmetic::mul::lemma_mul_inequality(i + 1, n as int, size as int);
            vstd::arithmetic::mul::lemma_mul_inequality(i as int, i + 1, size as int);
            vstd::arithmetic::mul::lemma_mul_nonnegative(i as int, size as int);
        }
        let from = i * size;
        let to = (i + 1) * size;
        out.push(energy(samples, from, to));
        i += 1;
    }
    (out, size)
}

/// The waveform of raw audio in `points` data points: the energy of each
/// of that many equal stretches of its samples, with the length of a
/// stretch. The loudness of a stretch is the square root of its energy
/// divided by its length.
pub fn generate_waveform(bytes: &Vec<u8>, points: usize) -> (r: (Vec<u128>, usize))
    ensures
        r.1 == stretch(samples_of(bytes@).len(), points as nat),
        r.0@.len() == points,
        forall|i: int|
            0 <= i < points ==> r.0@[i] as nat == #[trigger] energies(
                samples_of(bytes@),
                points as nat,
            )[i],
{
    let samples = decode_samples(bytes);
    stretch_energies(&samples, points)
}

} // verus!
