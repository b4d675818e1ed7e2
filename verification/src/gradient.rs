//! Gradient color generation.
//!
//! The arc colors are interpolated from a short ordered list of waypoint
//! colors: the arc count is divided into `stops - 1` equal segments of
//! `ceil(arcs / (stops - 1))` indices, and within each segment every RGB
//! channel is linearly interpolated between the segment's two waypoints,
//! with `segment + 1` samples per segment (both endpoints included).
//! Interior waypoints are therefore emitted twice, once by each adjacent
//! segment — an accepted property, not a defect, since only the contiguous
//! index prefix `0..arcs` is consumed downstream.
//!
//! Channels are 8-bit; interpolation truncates toward zero and the alpha
//! channel is fixed at fully opaque. A waypoint list with fewer than two
//! entries is a configuration error, rejected before anything is generated.

use vstd::prelude::*;
use vstd::arithmetic::div_mod::lemma_fundamental_div_mod;
use vstd::arithmetic::div_mod::lemma_fundamental_div_mod_converse;
use vstd::arithmetic::div_mod::lemma_div_is_ordered;
use vstd::arithmetic::div_mod::lemma_div_multiples_vanish;
use vstd::arithmetic::div_mod::lemma_div_pos_is_pos;
use vstd::arithmetic::mul::lemma_mul_upper_bound;
use vstd::arithmetic::mul::lemma_mul_inequality;

verus! {

/// One waypoint color: an 8-bit RGB triple.
#[derive(Clone, Copy, PartialEq, Eq, Structural, Debug)]
pub struct Rgb {
    pub red: u8,
    pub green: u8,
    pub blue: u8,
}

/// One generated arc color: an 8-bit RGBA quadruple, always fully opaque.
#[derive(Clone, Copy, PartialEq, Eq, Structural, Debug)]
pub struct Rgba {
    pub red: u8,
    pub green: u8,
    pub blue: u8,
    pub alpha: u8,
}

/// The one configuration error of the generator.
#[derive(Clone, Copy, PartialEq, Eq, Structural, Debug)]
pub enum GradientError {
    TooFewStops,
}

/// Length of each interpolation segment: the least `s` with
/// `s * (stops_len - 1) >= arcs`, i.e. the ceiling of
/// `arcs / (stops_len - 1)`.
pub open spec fn spec_segment_len(arcs: int, stops_len: int) -> int
    recommends
        arcs >= 0,
        stops_len >= 2,
{
    if arcs == 0 {
        0
    } else {
        (arcs - 1) / (stops_len - 1) + 1
    }
}

/// One interpolated channel: the convex combination of the previous and
/// current waypoint channels at offset `o` of `seg`, truncated toward zero.
/// A zero-length segment has a single sample, its starting waypoint.
pub open spec fn spec_lerp_channel(p: int, c: int, o: int, seg: int) -> int
    recommends
        0 <= o <= seg,
{
    if seg == 0 {
        p
    } else {
        (p * (seg - o) + c * o) / seg
    }
}

/// One interpolated sample at offset `o` of the segment from `p` to `c`,
/// with alpha fixed at fully opaque.
pub open spec fn spec_sample(p: Rgb, c: Rgb, o: int, seg: int) -> Rgba {
    Rgba {
        red: spec_lerp_channel(p.red as int, c.red as int, o, seg) as u8,
        green: spec_lerp_channel(p.green as int, c.green as int, o, seg) as u8,
        blue: spec_lerp_channel(p.blue as int, c.blue as int, o, seg) as u8,
        alpha: 255,
    }
}

/// A waypoint made fully opaque, unchanged otherwise.
pub open spec fn spec_opaque(c: Rgb) -> Rgba {
    Rgba { red: c.red, green: c.green, blue: c.blue, alpha: 255 }
}

/// The whole gradient: `stops.len() - 1` consecutive segments of
/// `seg + 1` samples each, sample `k` interpolating segment `k / (seg + 1)`
/// at offset `k % (seg + 1)`.
pub open spec fn spec_gradient(arcs: int, stops: Seq<Rgb>) -> Seq<Rgba>
    recommends
        arcs >= 0,
        stops.len() >= 2,
{
    let seg = spec_segment_len(arcs, stops.len() as int);
    Seq::new(
        ((stops.len() - 1) * (seg + 1)) as nat,
        |k: int|
            spec_sample(stops[k / (seg + 1)], stops[k / (seg + 1) + 1], k % (seg + 1), seg),
    )
}

/// The segment length is the exact ceiling of `arcs / (stops_len - 1)`:
/// the segments cover every arc index, and no shorter ones would.
pub proof fn lemma_segment_len_is_ceiling(arcs: int, stops_len: int)
    requires
        arcs >= 0,
        stops_len >= 2,
    ensures
        spec_segment_len(arcs, stops_len) >= 0,
        spec_segment_len(arcs, stops_len) * (stops_len - 1) >= arcs,
        arcs >= 1 ==> (spec_segment_len(arcs, stops_len) - 1) * (stops_len - 1) < arcs,
        arcs >= 1 ==> spec_segment_len(arcs, stops_len) >= 1,
{
    let m = stops_len - 1;
    if arcs == 0 {
    } else {
        lemma_fundamental_div_mod(arcs - 1, m);
        let q = (arcs - 1) / m;
        let r = (arcs - 1) % m;
        lemma_div_pos_is_pos(arcs - 1, m);
        assert((q + 1) * m == m * q + m) by (nonlinear_arith);
        assert(q * m == m * q) by (nonlinear_arith);
    }
}

/// An interpolated channel of 8-bit endpoints stays in the 8-bit range.
pub proof fn lemma_lerp_channel_in_range(p: int, c: int, o: int, seg: int)
    requires
        0 <= p <= 255,
        0 <= c <= 255,
        0 <= o <= seg,
    ensures
        0 <= spec_lerp_channel(p, c, o, seg) <= 255,
{
    if seg != 0 {
        let num = p * (seg - o) + c * o;
        lemma_mul_inequality(p, 255, seg - o);
        assert(p * (seg - o) <= 255 * (seg - o)) by (nonlinear_arith)
            requires
                p <= 255,
                0 <= seg - o,
        ;
        assert(c * o <= 255 * o) by (nonlinear_arith)
            requires
                c <= 255,
                0 <= o,
        ;
        assert(255 * (seg - o) + 255 * o == 255 * seg) by (nonlinear_arith);
        assert(p * (seg - o) >= 0) by (nonlinear_arith)
            requires
                p >= 0,
                seg - o >= 0,
        ;
        assert(c * o >= 0) by (nonlinear_arith)
            requires
                c >= 0,
                o >= 0,
        ;
        lemma_div_pos_is_pos(num, seg);
        lemma_div_is_ordered(num, 255 * seg, seg);
        lemma_div_multiples_vanish(255, seg);
        assert(seg * 255 == 255 * seg) by (nonlinear_arith);
    }
}

/// One interpolated channel, truncating toward zero, exactly as the
/// specification states it.
fn lerp_channel(p: u8, c: u8, o: usize, seg: usize) -> (v: u8)
    requires
        o <= seg,
    ensures
        v as int == spec_lerp_channel(p as int, c as int, o as int, seg as int),
{
    if seg == 0 {
        p
    } else {
        proof {
            lemma_mul_upper_bound(p as int, 255, (seg - o) as int, usize::MAX as int);
            lemma_mul_upper_bound(c as int, 255, o as int, usize::MAX as int);
            lemma_lerp_channel_in_range(p as int, c as int, o as int, seg as int);
        }
        let num: u128 = (p as u128) * ((seg - o) as u128) + (c as u128) * (o as u128);
        (num / (seg as u128)) as u8
    }
}

/// One interpolated sample, fully opaque.
fn lerp_sample(p: Rgb, c: Rgb, o: usize, seg: usize) -> (s: Rgba)
    requires
        o <= seg,
    ensures
        s == spec_sample(p, c, o as int, seg as int),
{
    proof {
        lemma_lerp_channel_in_range(p.red as int, c.red as int, o as int, seg as int);
        lemma_lerp_channel_in_range(p.green as int, c.green as int, o as int, seg as int);
        lemma_lerp_channel_in_range(p.blue as int, c.blue as int, o as int, seg as int);
    }
    Rgba {
        red: lerp_channel(p.red, c.red, o, seg),
        green: lerp_channel(p.green, c.green, o, seg),
        blue: lerp_channel(p.blue, c.blue, o, seg),
        alpha: 255,
    }
}

/// Generate the per-arc colors from the ordered waypoint list. Succeeds
/// exactly when the list has at least two waypoints, and then returns the
/// full interpolated sample sequence; a shorter list is the one
/// configuration error. The arc-count bound is a machine limit on the
/// per-segment sample count.
pub fn gen_color_gradient(arcs: usize, stops: &Vec<Rgb>) -> (r: Result<Vec<Rgba>, GradientError>)
    requires
        arcs < usize::MAX,
    ensures
        r is Ok <==> stops@.len() >= 2,
        r is Err ==> r->Err_0 == GradientError::TooFewStops,
        r is Ok ==> r->Ok_0@ == spec_gradient(arcs as int, stops@),
        r is Ok ==> r->Ok_0@.len() >= arcs,
{
    if stops.len() < 2 {
        return Err(GradientError::TooFewStops);
    }
    let m1: usize = stops.len() - 1;
    let seg: usize = if arcs == 0 {
        0
    } else {
        (arcs - 1) / m1 + 1
    };
    proof {
        if arcs >= 1 {
            vstd::arithmetic::div_mod::lemma_div_basics(arcs - 1);
            vstd::arithmetic::div_mod::lemma_div_is_ordered_by_denominator(
                arcs - 1,
                1,
                m1 as int,
            );
        }
        lemma_segment_len_is_ceiling(arcs as int, stops@.len() as int);
        assert((stops@.len() - 1) * (seg + 1) >= (stops@.len() - 1) * seg >= seg * (stops@.len()
            - 1)) by (nonlinear_arith)
            requires
                stops@.len() >= 2,
                seg >= 0,
        ;
    }
    let ghost expected: Seq<Rgba> = spec_gradient(arcs as int, stops@);
    let mut out: Vec<Rgba> = Vec::new();
    let mut s: usize = 1;
    while s < stops.len()
        invariant
            1 <= s <= stops@.len(),
            stops@.len() >= 2,
            m1 == stops@.len() - 1,
            seg < usize::MAX,
            seg == spec_segment_len(arcs as int, stops@.len() as int),
            expected == spec_gradient(arcs as int, stops@),
            expected.len() == m1 * (seg + 1),
            out@.len() == (s - 1) * (seg + 1),
            forall|k: int| 0 <= k < out@.len() ==> out@[k] == expected[k],
        decreases stops@.len() - s,
    {
        assert((s - 1) * (seg + 1) + (seg + 1) == s * (seg + 1)) by (nonlinear_arith);
        assert(s * (seg + 1) <= m1 * (seg + 1)) by (nonlinear_arith)
            requires
                s <= m1,
                seg >= 0,
        ;
        let prev = stops[s - 1];
        let cur = stops[s];
        let mut o: usize = 0;
        while o <= seg
            invariant
                0 <= o <= seg + 1,
                seg < usize::MAX,
                1 <= s <= stops@.len() - 1,
                stops@.len() >= 2,
                prev == stops@[s - 1],
                cur == stops@[s as int],
                seg == spec_segment_len(arcs as int, stops@.len() as int),
                expected == spec_gradient(arcs as int, stops@),
                expected.len() == (stops@.len() - 1) * (seg + 1),
                (s - 1) * (seg + 1) + (seg + 1) <= expected.len(),
                out@.len() == (s - 1) * (seg + 1) + o,
                forall|k: int| 0 <= k < out@.len() ==> out@[k] == expected[k],
            decreases seg + 1 - o,
        {
            let sample = lerp_sample(prev, cur, o, seg);
            proof {
                let k = out@.len() as int;
                lemma_fundamental_div_mod_converse(k, seg + 1, s - 1, o as int);
            }
            out.push(sample);
            o = o + 1;
        }
        s = s + 1;
    }
    assert(out@ =~= expected);
    Ok(out)
}

/// Every segment reproduces its two waypoints exactly: within the gradient,
/// the first sample of segment `s` is waypoint `s` and its last sample is
/// waypoint `s + 1`, both made opaque. With two stops this says the gradient
/// runs from exactly the first waypoint to exactly the last; with more, that
/// every waypoint appears at its segment boundaries, duplicated between
/// adjacent segments.
pub proof fn lemma_gradient_hits_waypoints(arcs: int, stops: Seq<Rgb>, s: int)
    requires
        arcs >= 1,
        stops.len() >= 2,
        0 <= s < stops.len() - 1,
    ensures
        spec_gradient(arcs, stops)[s * (spec_segment_len(arcs, stops.len() as int) + 1)]
            == spec_opaque(stops[s]),
        spec_gradient(arcs, stops)[s * (spec_segment_len(arcs, stops.len() as int) + 1)
            + spec_segment_len(arcs, stops.len() as int)] == spec_opaque(stops[s + 1]),
{
    let seg = spec_segment_len(arcs, stops.len() as int);
    lemma_segment_len_is_ceiling(arcs, stops.len() as int);
    let k0 = s * (seg + 1);
    let k1 = s * (seg + 1) + seg;
    assert(0 <= k0 && k1 < (stops.len() - 1) * (seg + 1)) by (nonlinear_arith)
        requires
            0 <= s < stops.len() - 1,
            seg >= 1,
            k0 == s * (seg + 1),
            k1 == s * (seg + 1) + seg,
    ;
    lemma_fundamental_div_mod_converse(k0, seg + 1, s, 0);
    lemma_fundamental_div_mod_converse(k1, seg + 1, s, seg);
    let p = stops[s];
    let c = stops[s + 1];
    lemma_lerp_endpoints(p.red as int, c.red as int, seg);
    lemma_lerp_endpoints(p.green as int, c.green as int, seg);
    lemma_lerp_endpoints(p.blue as int, c.blue as int, seg);
}

/// A segment's interpolation is exact at its two endpoints.
pub proof fn lemma_lerp_endpoints(p: int, c: int, seg: int)
    requires
        seg >= 1,
    ensures
        spec_lerp_channel(p, c, 0, seg) == p,
        spec_lerp_channel(p, c, seg, seg) == c,
{
    lemma_div_multiples_vanish(p, seg);
    lemma_div_multiples_vanish(c, seg);
    assert(p * (seg - 0) + c * 0 == seg * p) by (nonlinear_arith);
    assert(p * (seg - seg) + c * seg == seg * c) by (nonlinear_arith);
}

/// The gradient is a pure function of its inputs: two results computed from
/// identical inputs are identical.
pub proof fn lemma_gradient_deterministic(arcs: int, stops: Seq<Rgb>, r1: Seq<Rgba>, r2: Seq<Rgba>)
    requires
        r1 == spec_gradient(arcs, stops),
        r2 == spec_gradient(arcs, stops),
    ensures
        r1 == r2,
{
}

} // verus!
