//! Chromatic tone-bank generation.
//!
//! The bank holds one playable tone descriptor per arc, precomputed once and
//! immutable: tone `k` sits `k` semitones above the base frequency, so
//! frequencies ascend monotonically with arc index and wrap into a new
//! octave every twelve arcs. Enough whole octaves are generated to cover the
//! arc count.
//!
//! Pitch is stored in the log domain, as the semitone index above the base:
//! the frequency of tone `k` is `base * 2^(k / 12)` Hz, and a step of one
//! semitone is exactly a factor of the twelfth root of two. The ratio is
//! irrational, so only pitches a whole number of octaves above the base have
//! an exact integer frequency; those the bank can compute, as a power-of-two
//! multiple of the base. Rendering any other semitone into hertz is the
//! audio host's concern.

use vstd::prelude::*;
use vstd::arithmetic::power2::pow2;
use vstd::arithmetic::power2::lemma_pow2_pos;
use vstd::arithmetic::power2::lemma_pow2_unfold;
use vstd::arithmetic::power2::lemma_pow2_adds;
use vstd::arithmetic::div_mod::lemma_fundamental_div_mod;
use vstd::arithmetic::div_mod::lemma_div_multiples_vanish;

verus! {

/// One playable tone: a fixed-duration enveloped sine, described by plain
/// values. `semitone` is the chromatic step above the base frequency;
/// duration, fade-in and amplitude are design constants of the bank, not
/// derived from arc properties.
#[derive(Clone, Copy, PartialEq, Eq, Structural, Debug)]
pub struct ToneDescriptor {
    pub semitone: usize,
    pub base_milli_hz: u64,
    pub duration_ms: u64,
    pub fade_in_ms: u64,
    pub amplitude_milli: u64,
}

/// Number of tones generated for `arcs` arcs: whole octaves of twelve,
/// enough to cover every arc.
pub open spec fn spec_bank_len(arcs: int) -> int {
    ((arcs + 11) / 12) * 12
}

/// The full bank: tone `k` is `k` semitones above the base, with the fixed
/// envelope constants shared by all tones.
pub open spec fn spec_tone_bank(
    arcs: int,
    base_milli_hz: u64,
    duration_ms: u64,
    fade_in_ms: u64,
    amplitude_milli: u64,
) -> Seq<ToneDescriptor> {
    Seq::new(
        spec_bank_len(arcs) as nat,
        |k: int|
            ToneDescriptor {
                semitone: k as usize,
                base_milli_hz,
                duration_ms,
                fade_in_ms,
                amplitude_milli,
            },
    )
}

/// Pitch of a tone in cents above the base frequency: one semitone is
/// exactly one hundred cents, the log-domain form of the ratio `2^(1/12)`.
pub open spec fn spec_pitch_cents(tone: ToneDescriptor) -> int {
    100 * tone.semitone
}

/// Exact frequency, in milli-hertz, of a pitch a whole number of octaves
/// above the base: each octave doubles the base frequency.
pub open spec fn spec_exact_pitch(base_milli_hz: int, semitone: int) -> int
    recommends
        semitone >= 0,
        semitone % 12 == 0,
{
    base_milli_hz * pow2((semitone / 12) as nat)
}

/// Generate the tone bank for `arcs` arcs: `ceil(arcs / 12)` octaves of
/// twelve chromatic tones each, ascending one semitone per index from the
/// base frequency, all with the same fixed envelope.
pub fn gen_tone_bank(
    arcs: usize,
    base_milli_hz: u64,
    duration_ms: u64,
    fade_in_ms: u64,
    amplitude_milli: u64,
) -> (bank: Vec<ToneDescriptor>)
    requires
        arcs <= usize::MAX - 11,
    ensures
        bank@ == spec_tone_bank(arcs as int, base_milli_hz, duration_ms, fade_in_ms,
            amplitude_milli),
        bank@.len() >= arcs,
        forall|k: int| 0 <= k < bank@.len() ==> (#[trigger] bank@[k]).semitone == k,
{
    let num_octaves: usize = (arcs + 11) / 12;
    proof {
        lemma_fundamental_div_mod(arcs + 11, 12);
    }
    let ghost total: int = spec_bank_len(arcs as int);
    assert(num_octaves * 12 == total) by (nonlinear_arith)
        requires
            num_octaves == (arcs + 11) / 12,
            total == ((arcs as int + 11) / 12) * 12,
    ;
    assert(total <= arcs + 11 && total >= arcs);
    let mut bank: Vec<ToneDescriptor> = Vec::new();
    let mut octave: usize = 0;
    while octave < num_octaves
        invariant
            octave <= num_octaves,
            num_octaves * 12 == total,
            total <= usize::MAX,
            bank@.len() == octave * 12,
            forall|k: int|
                0 <= k < bank@.len() ==> #[trigger] bank@[k] == (ToneDescriptor {
                    semitone: k as usize,
                    base_milli_hz,
                    duration_ms,
                    fade_in_ms,
                    amplitude_milli,
                }),
        decreases num_octaves - octave,
    {
        assert((octave + 1) * 12 <= num_octaves * 12) by (nonlinear_arith)
            requires
                octave < num_octaves,
        ;
        assert((octave + 1) * 12 == octave * 12 + 12) by (nonlinear_arith);
        let mut i: usize = 0;
        while i < 12
            invariant
                i <= 12,
                octave * 12 + 12 <= total <= usize::MAX,
                bank@.len() == octave * 12 + i,
                forall|k: int|
                    0 <= k < bank@.len() ==> #[trigger] bank@[k] == (ToneDescriptor {
                        semitone: k as usize,
                        base_milli_hz,
                        duration_ms,
                        fade_in_ms,
                        amplitude_milli,
                    }),
            decreases 12 - i,
        {
            let semitone: usize = octave * 12 + i;
            bank.push(
                ToneDescriptor { semitone, base_milli_hz, duration_ms, fade_in_ms, amplitude_milli },
            );
            i = i + 1;
        }
        octave = octave + 1;
        assert(bank@.len() == octave * 12) by (nonlinear_arith)
            requires
                bank@.len() == (octave - 1) * 12 + 12,
        ;
    }
    assert(bank@ =~= spec_tone_bank(arcs as int, base_milli_hz, duration_ms, fade_in_ms,
        amplitude_milli));
    bank
}

/// Exact frequency of a tone in milli-hertz, when it has one: `Some` exactly
/// for pitches a whole number of octaves above the base whose doubled
/// frequency still fits the integer range, `None` otherwise.
pub fn exact_frequency_milli_hz(tone: &ToneDescriptor) -> (r: Option<u64>)
    ensures
        r is Some <==> tone.semitone % 12 == 0 && spec_exact_pitch(
            tone.base_milli_hz as int,
            tone.semitone as int,
        ) <= u64::MAX,
        r is Some ==> r->Some_0 == spec_exact_pitch(
            tone.base_milli_hz as int,
            tone.semitone as int,
        ),
{
    if tone.semitone % 12 != 0 {
        return None;
    }
    let octaves: usize = tone.semitone / 12;
    let mut val: u128 = tone.base_milli_hz as u128;
    let mut j: usize = 0;
    assert(val == tone.base_milli_hz * pow2(0)) by {
        vstd::arithmetic::power2::lemma2_to64();
    }
    while j < octaves
        invariant
            j <= octaves,
            tone.semitone % 12 == 0,
            octaves == tone.semitone as int / 12,
            val == tone.base_milli_hz * pow2(j as nat),
            val <= 2 * (u64::MAX as int),
        decreases octaves - j,
    {
        if val > u64::MAX as u128 {
            proof {
                lemma_exact_pitch_monotone_in_octaves(tone.base_milli_hz as int, j as nat,
                    octaves as nat);
                assert(octaves == tone.semitone as int / 12);
                assert(spec_exact_pitch(tone.base_milli_hz as int, tone.semitone as int)
                    == tone.base_milli_hz * pow2(octaves as nat));
                assert(spec_exact_pitch(tone.base_milli_hz as int, tone.semitone as int)
                    >= val);
            }
            return None;
        }
        val = val * 2;
        proof {
            lemma_pow2_unfold((j + 1) as nat);
            assert(tone.base_milli_hz * (2 * pow2(j as nat)) == 2 * (tone.base_milli_hz * pow2(
                j as nat,
            ))) by (nonlinear_arith);
        }
        j = j + 1;
    }
    if val > u64::MAX as u128 {
        None
    } else {
        Some(val as u64)
    }
}

/// The exact pitch can only grow with the octave count: used to justify
/// giving up once a partial product has already left the integer range.
proof fn lemma_exact_pitch_monotone_in_octaves(base: int, j: nat, octaves: nat)
    requires
        base >= 0,
        j <= octaves,
    ensures
        base * pow2(j) <= base * pow2(octaves),
{
    lemma_pow2_adds(j, (octaves - j) as nat);
    lemma_pow2_pos((octaves - j) as nat);
    assert(base * (pow2(j) * pow2((octaves - j) as nat)) >= base * (pow2(j) * 1))
        by (nonlinear_arith)
        requires
            base >= 0,
            pow2((octaves - j) as nat) >= 1,
    ;
    assert(base * (pow2(j) * pow2((octaves - j) as nat)) == base * pow2(
        (j + (octaves - j)) as nat,
    ));
}

/// Adjacent tones of the bank are exactly one semitone — one hundred cents —
/// apart, so frequencies strictly increase with the arc index and each step
/// multiplies the frequency by the twelfth root of two.
pub proof fn lemma_chromatic_ascent(
    arcs: int,
    base_milli_hz: u64,
    duration_ms: u64,
    fade_in_ms: u64,
    amplitude_milli: u64,
    k: int,
)
    requires
        0 <= arcs <= usize::MAX - 11,
        0 <= k < spec_bank_len(arcs) - 1,
    ensures
        spec_tone_bank(arcs, base_milli_hz, duration_ms, fade_in_ms, amplitude_milli)[k
            + 1].semitone == spec_tone_bank(arcs, base_milli_hz, duration_ms, fade_in_ms,
            amplitude_milli)[k].semitone + 1,
        spec_pitch_cents(
            spec_tone_bank(arcs, base_milli_hz, duration_ms, fade_in_ms, amplitude_milli)[k + 1],
        ) == spec_pitch_cents(
            spec_tone_bank(arcs, base_milli_hz, duration_ms, fade_in_ms, amplitude_milli)[k],
        ) + 100,
{
    lemma_fundamental_div_mod(arcs + 11, 12);
    assert(spec_bank_len(arcs) <= arcs + 11) by (nonlinear_arith)
        requires
            arcs + 11 == 12 * ((arcs + 11) / 12) + (arcs + 11) % 12,
            (arcs + 11) % 12 >= 0,
            spec_bank_len(arcs) == ((arcs + 11) / 12) * 12,
    ;
}

/// One octave up doubles the exact pitch: twelve semitone steps multiply the
/// frequency by exactly two.
pub proof fn lemma_octave_doubles(base_milli_hz: int, semitone: int)
    requires
        base_milli_hz >= 0,
        semitone >= 0,
        semitone % 12 == 0,
    ensures
        spec_exact_pitch(base_milli_hz, semitone + 12) == 2 * spec_exact_pitch(
            base_milli_hz,
            semitone,
        ),
{
    let q = semitone / 12;
    lemma_fundamental_div_mod(semitone, 12);
    lemma_div_multiples_vanish(q + 1, 12);
    assert(12 * (q + 1) == 12 * q + 12) by (nonlinear_arith);
    assert((semitone + 12) / 12 == q + 1);
    lemma_pow2_unfold((q + 1) as nat);
    assert(base_milli_hz * (2 * pow2(q as nat)) == 2 * (base_milli_hz * pow2(q as nat)))
        by (nonlinear_arith);
}

} // verus!
