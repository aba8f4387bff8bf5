//! The grain engine: short windowed copies of a source buffer ("grains")
//! that are spawned at randomized offsets, advanced on every render pass,
//! mixed additively into an interleaved stereo output, and retired once
//! their cursor passes the end of their window.
//!
//! Audio samples are fixed-point integers: a source sample is an `i32`
//! (nominal full scale `32768`), an output slot is an `i64` accumulator.
//! Pan values and the stereo-width setting live on a scale of `1000`
//! (`1000` = hard right, `-1000` = hard left).

use vstd::prelude::*;

verus! {

/// Number of samples over which a grain's envelope ramps from 0 to full
/// scale at its start and back down at its end.
pub const FADE_LEN: usize = 400;

/// Fixed-point scale for pan values: a pan of `PAN_SCALE` means hard right.
pub const PAN_SCALE: i64 = 1000;

/// Denominator of a mixed contribution: the envelope numerator (out of
/// `FADE_LEN`) times the gain numerator (out of 10000).
pub const MIX_DEN: u64 = 4_000_000;

/// Upper bound on the number of grains that may ever be active at once;
/// settings with a larger target are rejected so that the `i64` output
/// accumulators can be proved free of overflow.
pub const MAX_GRAINS: usize = 4096;

/// Bound on the magnitude of one grain's contribution to one output slot.
pub const CONTRIB_BOUND: i64 = 644_245_095;

/// Envelope numerator (out of `FADE_LEN`) of a grain of width `width` at
/// relative position `real_pos`: ramp up over the first 400 samples, hold,
/// ramp down over the last 400. For widths under 800 the two ramps overlap
/// and the first branch wins, which leaves a jump at `real_pos == 400`;
/// that shape is kept deliberately.
pub open spec fn env_num(real_pos: int, width: int) -> int {
    if real_pos < 400 {
        real_pos
    } else if real_pos + 400 < width {
        400
    } else {
        width - real_pos
    }
}

/// Pan normalized from `[-1000, 1000]` to `[0, 1000]` (0 = hard left).
pub open spec fn pan_norm(pan: int) -> int {
    (pan + 1000) / 2
}

/// Left gain numerator out of 10000: `0.3 * max(0, 1 - pan_norm)`.
pub open spec fn left_gain_num(pan: int) -> int {
    3 * (if 1000 - pan_norm(pan) >= 0 {
        1000 - pan_norm(pan)
    } else {
        0int
    })
}

/// Right gain numerator out of 10000: `0.3 * max(0, pan_norm)`.
pub open spec fn right_gain_num(pan: int) -> int {
    3 * (if pan_norm(pan) >= 0 {
        pan_norm(pan)
    } else {
        0int
    })
}

/// Truncating division of a contribution by `MIX_DEN`, rounding toward
/// zero as the executable integer division does.
pub open spec fn scale_down(v: int) -> int {
    if v >= 0 {
        v / 4_000_000
    } else {
        -((-v) / 4_000_000)
    }
}

/// The value a source sample `s` adds to an output slot, given the
/// envelope numerator `env` and the gain numerator `gain`.
pub open spec fn sample_contrib(s: int, env: int, gain: int) -> int {
    scale_down(s * env * gain)
}

/// A single in-flight synthesis unit: a window `[start, end)` of the
/// source buffer, a read cursor `position` that advances on every render
/// pass, and a fixed stereo pan.
#[derive(Clone, Copy, Debug, PartialEq, Eq, Structural)]
pub struct Grain {
    pub position: usize,
    pub start: usize,
    pub end: usize,
    pub pan: i64,
}

impl Grain {
    /// Well-formed with respect to a source buffer of length `buf_len`:
    /// the cursor never leaves the window `[start, end]`.
    pub open spec fn wf(self, buf_len: int) -> bool {
        &&& self.start <= self.position
    &&& self.position <= self.end
    &&& self.start <= self.end
    &&& self.end <= buf_len
    &&& -1000 <= self.pan <= 1000
    }

    /// A grain stays in the active set only while its cursor is short of
    /// its window's end.
    pub open spec fn alive(self) -> bool {
        self.position < self.end
    }

    /// A grain contributes to the output only while its cursor lies
    /// inside its window.
    pub open spec fn mixing(self) -> bool {
        self.start <= self.position && self.position < self.end
    }

    pub fn new(start: usize, end: usize, pan: i64) -> (g: Grain)
        ensures
            g == (Grain { position: start, start, end, pan }),
    {
        Grain { start, end, pan, position: start }
    }

    /// Mixes this grain into `output` (interleaved stereo, two slots per
    /// frame) reading from `source`, then advances the cursor by the
    /// number of frames it mixed: the requested frame count, clamped to
    /// the window's end, so the cursor never leaves `[start, end]`. A
    /// grain whose cursor is outside its window contributes nothing and
    /// does not advance.
    pub fn process_into(&mut self, output: &mut Vec<i64>, source: &Vec<i32>)
        requires
            old(self).start <= old(self).position,
            old(self).start <= old(self).end,
            old(self).end <= source@.len(),
            -1000 <= old(self).pan <= 1000,
            forall|j: int|
                0 <= j < old(output)@.len() ==> i64::MIN + CONTRIB_BOUND <= #[trigger] old(
                    output,
                )@[j] <= i64::MAX - CONTRIB_BOUND,
        ensures
            final(output)@.len() == old(output)@.len(),
            forall|j: int|
                0 <= j < old(output)@.len() ==> #[trigger] final(output)@[j] == old(output)@[j] + (
                if j < 2 * (old(output)@.len() as int / 2) {
                    grain_slot_contrib(*old(self), source@, j)
                } else {
                    0int
                }),
            *final(self) == advanced(*old(self), old(output)@.len() as int / 2),
    {
        let ghost g0 = *self;
        let frames: usize = output.len() / 2;
        if self.position < self.start || self.position >= self.end {
            proof {
                assert forall|j: int| 0 <= j < old(output)@.len() implies grain_slot_contrib(
                    g0,
                    source@,
                    j,
                ) == 0 by {
                    vstd::arithmetic::div_mod::lemma_div_is_ordered(0, j, 2);
                }
            }
            return ;
        }
        let width: usize = self.end - self.start;
        let pn: u64 = ((self.pan + 1000) as u64) / 2;
        let lg: u64 = 3 * (1000 - pn);
        let rg: u64 = 3 * pn;
        let count: usize = if frames < self.end - self.position {
            frames
        } else {
            self.end - self.position
        };
        let mut i: usize = 0;
        while i < count
            invariant
                *self == g0,
                g0.mixing(),
                g0.end <= source@.len(),
                -1000 <= g0.pan <= 1000,
                lg == left_gain_num(g0.pan as int),
                rg == right_gain_num(g0.pan as int),
                lg <= 3000,
                rg <= 3000,
                width == g0.end - g0.start,
                count <= frames,
                g0.position + count <= g0.end,
                count == frames || count == g0.end - g0.position,
                frames == old(output)@.len() as int / 2,
                old(output)@.len() <= usize::MAX,
                2 * frames <= old(output)@.len(),
                0 <= i <= count,
                output@.len() == old(output)@.len(),
                forall|j: int|
                    0 <= j < 2 * i ==> #[trigger] output@[j] == old(output)@[j]
                        + grain_slot_contrib(g0, source@, j),
                forall|j: int| 2 * i <= j < output@.len() ==> #[trigger] output@[j] == old(output)@[j],
                forall|j: int|
                    0 <= j < old(output)@.len() ==> i64::MIN + CONTRIB_BOUND <= #[trigger] old(
                        output,
                    )@[j] <= i64::MAX - CONTRIB_BOUND,
            decreases count - i,
        {
            let s: i32 = source[self.position + i];
            let x: usize = self.position - self.start + i;
            let e: u64 = if x < FADE_LEN {
                x as u64
            } else if width > FADE_LEN && x < width - FADE_LEN {
                400
            } else {
                (width - x) as u64
            };
            let cl: i64 = mix_contrib(s, e, lg);
            let cr: i64 = mix_contrib(s, e, rg);
            let jl: usize = 2 * i;
            proof {
                assert((2 * i as int) / 2 == i as int && (2 * i as int + 1) / 2 == i as int && (2
                    * i as int + 1) % 2 == 1 && (2 * i as int) % 2 == 0) by (nonlinear_arith);
                assert(grain_slot_contrib(g0, source@, jl as int) == cl);
                assert(grain_slot_contrib(g0, source@, jl as int + 1) == cr);
            }
            let vl: i64 = output[jl] + cl;
            output.set(jl, vl);
            let vr: i64 = output[jl + 1] + cr;
            output.set(jl + 1, vr);
            i = i + 1;
        }
        proof {
            assert forall|j: int| 2 * count <= j < 2 * (old(output)@.len() as int / 2) implies
                grain_slot_contrib(g0, source@, j) == 0 by {
                vstd::arithmetic::div_mod::lemma_div_is_ordered(2 * count, j, 2);
                assert((2 * count as int) / 2 == count as int) by (nonlinear_arith);
            }
        }
        self.position = self.position + count;
    }
}

/// A grain after one render pass over `frames` requested frames: while
/// mixing, its cursor advances by the frames actually written, which is
/// the request clamped to the window's end; outside its window it is
/// untouched.
pub open spec fn advanced(g: Grain, frames: int) -> Grain {
    if g.mixing() {
        Grain {
            position: (if g.position + frames <= g.end {
                g.position + frames
            } else {
                g.end as int
            }) as usize,
            ..g
        }
    } else {
        g
    }
}

/// A render pass keeps every grain's cursor inside `[start, end]`,
/// however many frames were requested; once the cursor reaches `end` the
/// retire pass drops the grain (`lemma_retire_keeps_only_alive`) and it
/// mixes nothing even before that (`lemma_retired_grain_silent`).
pub proof fn lemma_grain_window(g: Grain, frames: int)
    requires
        g.start <= g.position <= g.end,
        0 <= frames,
    ensures
        g.start <= advanced(g, frames).position <= g.end,
{
}

/// What grain `g` adds to output slot `j` (even slots are left, odd slots
/// are right) when mixed against source `src`: zero when the grain's
/// cursor is outside its window or the slot's frame runs past the window.
pub open spec fn grain_slot_contrib(g: Grain, src: Seq<i32>, j: int) -> int {
    let frame = j / 2;
    if g.start <= g.position && g.position + frame < g.end {
        let env = env_num(g.position - g.start + frame, g.end - g.start);
        let gain = if j % 2 == 0 {
            left_gain_num(g.pan as int)
        } else {
            right_gain_num(g.pan as int)
        };
        sample_contrib(src[g.position + frame] as int, env, gain)
    } else {
        0
    }
}

/// One grain's contribution to one output slot never exceeds
/// `CONTRIB_BOUND` in magnitude.
pub proof fn lemma_slot_contrib_bound(g: Grain, src: Seq<i32>, j: int)
    requires
        -1000 <= g.pan <= 1000,
        0 <= j,
    ensures
        -CONTRIB_BOUND <= grain_slot_contrib(g, src, j) <= CONTRIB_BOUND,
{
    let frame = j / 2;
    if g.start <= g.position && g.position + frame < g.end {
        let x = g.position - g.start + frame;
        let w = g.end - g.start;
        let env = env_num(x, w);
        assert(0 <= env <= 400);
        let gain = if j % 2 == 0 {
            left_gain_num(g.pan as int)
        } else {
            right_gain_num(g.pan as int)
        };
        assert(0 <= gain <= 3000);
        let s = src[g.position + frame] as int;
        assert(-0x8000_0000 <= s <= 0x7fff_ffff);
        let p = s * env;
        assert(-0x8000_0000int * 400 <= p <= 0x7fff_ffffint * 400) by (nonlinear_arith)
            requires
                -0x8000_0000 <= s <= 0x7fff_ffff,
                0 <= env <= 400,
                p == s * env,
        ;
        let v = s * env * gain;
        assert(-0x8000_0000int * 400 * 3000 <= v <= 0x7fff_ffffint * 400 * 3000)
            by (nonlinear_arith)
            requires
                -0x8000_0000int * 400 <= p <= 0x7fff_ffffint * 400,
                0 <= gain <= 3000,
                v == p * gain,
        ;
        if v >= 0 {
            vstd::arithmetic::div_mod::lemma_div_is_ordered(v, 0x7fff_ffffint * 400 * 3000, 4_000_000);
            vstd::arithmetic::div_mod::lemma_div_is_ordered(0, v, 4_000_000);
        } else {
            vstd::arithmetic::div_mod::lemma_div_is_ordered(-v, 0x8000_0000int * 400 * 3000, 4_000_000);
            vstd::arithmetic::div_mod::lemma_div_is_ordered(0, -v, 4_000_000);
        }
    }
}

/// A grain whose cursor has reached or passed its window's end adds
/// nothing to any output slot, so a retired grain is silent even before
/// the retire pass removes it.
pub proof fn lemma_retired_grain_silent(g: Grain, src: Seq<i32>, j: int)
    requires
        g.position >= g.end,
        0 <= j,
    ensures
        grain_slot_contrib(g, src, j) == 0,
{
    assert(j / 2 >= 0) by {
        vstd::arithmetic::div_mod::lemma_div_is_ordered(0, j, 2);
    }
}

/// The envelope is zero at the first sample of any grain, and a grain of
/// width at least 800 is at full scale at its midpoint.
pub proof fn lemma_envelope_edges(width: int)
    ensures
        env_num(0, width) == 0,
        width >= 800 ==> env_num(width / 2, width) == 400,
{
    if width >= 800 {
        assert(width / 2 >= 400 && width / 2 + 400 <= width) by {
            vstd::arithmetic::div_mod::lemma_div_is_ordered(800, width, 2);
            assert(width / 2 * 2 <= width && width <= width / 2 * 2 + 1) by {
                vstd::arithmetic::div_mod::lemma_fundamental_div_mod(width, 2);
            }
        }
        if width == 800 {
            assert(env_num(400, 800) == 400);
        }
    }
}

/// The fold step of mixing: one grain's contribution to slot `j` is added
/// onto an accumulator.
pub open spec fn mix_f(src: Seq<i32>, j: int) -> spec_fn(Grain, int) -> int {
    |g: Grain, acc: int| acc + grain_slot_contrib(g, src, j)
}

/// The value that a whole set of grains, mixed in order, adds to output
/// slot `j`.
pub open spec fn total_contrib(gs: Seq<Grain>, src: Seq<i32>, j: int) -> int {
    gs.fold_right(mix_f(src, j), 0)
}

/// Folding the mix step from any base just shifts the total by that base.
proof fn lemma_total_contrib_base(gs: Seq<Grain>, src: Seq<i32>, j: int, b: int)
    ensures
        gs.fold_right(mix_f(src, j), b) == total_contrib(gs, src, j) + b,
    decreases gs.len(),
{
    if gs.len() > 0 {
        lemma_total_contrib_base(gs.drop_last(), src, j, mix_f(src, j)(gs.last(), b));
        lemma_total_contrib_base(gs.drop_last(), src, j, mix_f(src, j)(gs.last(), 0));
    }
}

/// Mixing one more grain adds exactly that grain's contribution.
pub proof fn lemma_total_contrib_push(gs: Seq<Grain>, src: Seq<i32>, j: int, g: Grain)
    ensures
        total_contrib(gs.push(g), src, j) == total_contrib(gs, src, j) + grain_slot_contrib(
            g,
            src,
            j,
        ),
{
    assert(gs.push(g).drop_last() =~= gs);
    lemma_total_contrib_base(gs, src, j, mix_f(src, j)(g, 0));
}

/// Mixing is additive and commutative: for a fixed set of grains the
/// rendered total at every output slot is independent of the order in
/// which the grains are mixed.
pub proof fn lemma_mix_order_irrelevant(gs1: Seq<Grain>, gs2: Seq<Grain>, src: Seq<i32>, j: int)
    requires
        gs1.to_multiset() == gs2.to_multiset(),
    ensures
        total_contrib(gs1, src, j) == total_contrib(gs2, src, j),
{
    let f = mix_f(src, j);
    assert(vstd::seq_lib::commutative_foldr(f));
    vstd::seq_lib::lemma_fold_right_permutation(gs1, gs2, f, 0);
}

/// The total of a set of grains within the contribution bound is itself
/// bounded by the number of grains times that bound.
pub proof fn lemma_total_contrib_bound(gs: Seq<Grain>, src: Seq<i32>, j: int)
    requires
        0 <= j,
        forall|i: int| 0 <= i < gs.len() ==> -1000 <= (#[trigger] gs[i]).pan <= 1000,
    ensures
        -(gs.len() as int) * CONTRIB_BOUND <= total_contrib(gs, src, j) <= (gs.len() as int)
            * CONTRIB_BOUND,
    decreases gs.len(),
{
    if gs.len() == 0 {
    } else {
        let dl = gs.drop_last();
        lemma_total_contrib_bound(dl, src, j);
        lemma_slot_contrib_bound(gs.last(), src, j);
        assert(gs == dl.push(gs.last()));
        lemma_total_contrib_push(dl, src, j, gs.last());
        assert((gs.len() as int) * CONTRIB_BOUND == (dl.len() as int) * CONTRIB_BOUND
            + CONTRIB_BOUND) by (nonlinear_arith)
            requires
                gs.len() == dl.len() + 1,
        ;
    }
}

/// Computes `sample_contrib(s, env, gain)` exactly: the product is split
/// by sign so that only non-negative machine division is used, which
/// truncates just as the specification's `scale_down` does.
fn mix_contrib(s: i32, env: u64, gain: u64) -> (c: i64)
    requires
        env <= 400,
        gain <= 3000,
    ensures
        c == sample_contrib(s as int, env as int, gain as int),
        -CONTRIB_BOUND <= c <= CONTRIB_BOUND,
{
    let sm: i64 = s as i64;
    let m: u64 = if sm >= 0 {
        sm as u64
    } else {
        (-sm) as u64
    };
    assert(m * env <= 0x8000_0000u64 * 400) by (nonlinear_arith)
        requires
            m <= 0x8000_0000,
            env <= 400,
    ;
    let p: u64 = m * env;
    assert(p * gain <= 0x8000_0000u64 * 400 * 3000) by (nonlinear_arith)
        requires
            p <= 0x8000_0000u64 * 400,
            gain <= 3000,
    ;
    let q: u64 = p * gain / MIX_DEN;
    proof {
        vstd::arithmetic::div_mod::lemma_div_is_ordered(
            p * gain,
            0x8000_0000int * 400 * 3000,
            4_000_000,
        );
        vstd::arithmetic::div_mod::lemma_div_is_ordered(0, p * gain, 4_000_000);
        if sm >= 0 {
            assert(s * env * gain == p * gain);
        } else {
            assert(s * env * gain == -(p * gain)) by (nonlinear_arith)
                requires
                    m == -(s as int),
                    p == m * env,
            ;
        }
    }
    if sm >= 0 {
        q as i64
    } else {
        -(q as i64)
    }
}

/// Externally configurable synthesis settings: the target number of
/// simultaneous grains, the range of grain lengths in samples, how far a
/// spawn position may jitter around the playback cursor, and the width of
/// pan randomization on the `PAN_SCALE` fixed-point scale.
#[derive(Clone, Copy, Debug, PartialEq, Eq, Structural)]
pub struct GrainSettings {
    pub num_grains: usize,
    pub grain_length_min: usize,
    pub grain_length_max: usize,
    pub cursor_spawn_jitter: usize,
    pub stereo_width: i64,
}

impl GrainSettings {
    /// The grain count is capped so that mixed output provably fits an
    /// `i64` accumulator, the length range must be non-empty (drawing
    /// from an empty range would panic), and the stereo width must be a
    /// valid pan magnitude.
    pub open spec fn wf(self) -> bool {
        &&& self.num_grains <= MAX_GRAINS
    &&& self.grain_length_min <= self.grain_length_max
    &&& 0 <= self.stereo_width <= PAN_SCALE
    }
}

/// The spawn draw that produced a grain's start: the draw came from the
/// jitter window around the cursor (clamped into `[0, buf_len]`), and
/// the start is that draw folded into the loop range `[mn, mx]` — the
/// same value when the draw already lies inside it, otherwise shifted by
/// a multiple of the range width, landing short of `mx` from below and
/// past `mn` from above.
pub open spec fn spawn_draw_ok(
    start: int,
    draw: int,
    cursor: int,
    jitter: int,
    mn: int,
    mx: int,
    buf_len: int,
) -> bool {
    &&& (if jitter <= cursor {
        cursor - jitter
    } else {
        0int
    }) <= draw
&&& draw <= (if cursor + jitter <= buf_len {
    cursor + jitter
} else {
    buf_len
})
&&& (start - draw) % (mx - mn) == 0
&&& (mn <= draw <= mx ==> start == draw)
&&& (draw < mn ==> start < mx)
&&& (draw > mx ==> start > mn)
}

/// What holds of every freshly spawned grain: its cursor sits at its
/// start, the start is a jittered draw around the playback cursor folded
/// into the loop range, the end is the start plus a drawn length from
/// the configured range, clamped to the buffer, and the pan lies within
/// the configured stereo width.
pub open spec fn spawned_ok(
    g: Grain,
    cursor: int,
    mn: int,
    mx: int,
    buf_len: int,
    s: GrainSettings,
) -> bool {
    &&& g.position == g.start
&&& mn <= g.start <= mx
&&& (exists|draw: int|
    #[trigger] spawn_draw_ok(
        g.start as int,
        draw,
        cursor,
        s.cursor_spawn_jitter as int,
        mn,
        mx,
        buf_len,
    ))
&&& g.start <= g.end <= buf_len
&&& (g.start + s.grain_length_min <= buf_len ==> g.end >= g.start + s.grain_length_min)
&&& (g.start + s.grain_length_min > buf_len ==> g.end == buf_len)
&&& g.end <= g.start + s.grain_length_max
&&& -s.stereo_width <= g.pan <= s.stereo_width
}

/// The retire predicate: a grain is kept while its cursor has not
/// reached the end of its window.
pub open spec fn grain_alive() -> spec_fn(Grain) -> bool {
    |g: Grain| g.alive()
}

/// Every grain that survives a retire pass is still alive: a grain
/// whose cursor has reached its window's end is removed and never mixed
/// again.
pub proof fn lemma_retire_keeps_only_alive(gs: Seq<Grain>, k: int)
    requires
        0 <= k < gs.filter(grain_alive()).len(),
    ensures
        gs.filter(grain_alive())[k].alive(),
{
    gs.lemma_filter_pred(grain_alive(), k);
}

proof fn lemma_filter_push(s: Seq<Grain>, pred: spec_fn(Grain) -> bool, x: Grain)
    ensures
        s.push(x).filter(pred) == if pred(x) {
            s.filter(pred).push(x)
        } else {
            s.filter(pred)
        },
{
    reveal(Seq::filter);
    assert(s.push(x).drop_last() =~= s);
}

/// Folds `pos` into the loop range `[range_min, range_max]` by repeatedly
/// adding or subtracting the range width, which keeps spawn positions
/// phase-locked to the loop when jitter pushes them outside it.
pub fn fold_into_range(pos: usize, range_min: usize, range_max: usize) -> (r: usize)
    requires
        range_min < range_max,
    ensures
        range_min <= r <= range_max,
        range_min <= pos <= range_max ==> r == pos,
        pos < range_min ==> r < range_max,
        pos > range_max ==> r > range_min,
        (r - pos) % (range_max - range_min) == 0,
{
    let width: usize = range_max - range_min;
    let mut p: usize = pos;
    proof {
        vstd::arithmetic::div_mod::lemma_small_mod(0, width as nat);
    }
    while p < range_min
        invariant
            range_min < range_max,
            width == range_max - range_min,
            p < range_min ==> pos < range_min,
            pos < range_min ==> p < range_max,
            pos >= range_min ==> p == pos,
            (p - pos) % (width as int) == 0,
        decreases (if p < range_min {
            range_min - p
        } else {
            0int
        }),
    {
        proof {
            vstd::arithmetic::div_mod::lemma_mod_add_multiples_vanish(
                p - pos,
                width as int,
            );
        }
        p = p + width;
    }
    while p > range_max
        invariant
            range_min < range_max,
            width == range_max - range_min,
            p >= range_min,
            p > range_max ==> pos > range_max,
            pos > range_max ==> p > range_min,
            range_min <= pos <= range_max ==> p == pos,
            pos < range_min ==> p < range_max,
            (p - pos) % (width as int) == 0,
        decreases p,
    {
        proof {
            vstd::arithmetic::div_mod::lemma_mod_sub_multiples_vanish(
                p - pos,
                width as int,
            );
        }
        p = p - width;
    }
    p
}

/// The grain engine proper: the set of in-flight grains plus the
/// settings that govern spawning.
#[derive(Debug)]
pub struct GrainEngine {
    pub grains: Vec<Grain>,
    pub settings: GrainSettings,
}

impl GrainEngine {
    /// Discards all active grains; used when the source buffer is
    /// replaced so that no stale grain can read past the new buffer.
    pub fn clear(&mut self)
        ensures
            final(self).settings == old(self).settings,
            final(self).grains@.len() == 0,
    {
        self.grains = Vec::new();
    }

    /// The retire pass: removes every grain whose cursor has reached the
    /// end of its window, keeping the survivors in order.
    pub fn update(&mut self)
        ensures
            final(self).settings == old(self).settings,
            final(self).grains@ == old(self).grains@.filter(grain_alive()),
    {
        let n: usize = self.grains.len();
        let mut kept: Vec<Grain> = Vec::new();
        let mut i: usize = 0;
        while i < n
            invariant
                i <= n,
                n == self.grains@.len(),
                *self == *old(self),
                kept@ == self.grains@.take(i as int).filter(grain_alive()),
            decreases n - i,
        {
            let g: Grain = self.grains[i];
            proof {
                assert(self.grains@.take(i + 1) =~= self.grains@.take(i as int).push(g));
                lemma_filter_push(self.grains@.take(i as int), grain_alive(), g);
            }
            if g.position < g.end {
                kept.push(g);
            }
            i = i + 1;
        }
        proof {
            assert(self.grains@.take(n as int) =~= self.grains@);
        }
        self.grains = kept;
    }

    /// The spawn pass: while the active grain count is below the
    /// configured target, draws a jittered start around the cursor, folds
    /// it into the loop range, draws a length and a pan, and pushes the
    /// new grain. Existing grains are left untouched.
    pub fn spawn_if_needed(
        &mut self,
        cursor: usize,
        range_min: usize,
        range_max: usize,
        buf_len: usize,
    )
        requires
            old(self).settings.wf(),
            old(self).grains@.len() <= MAX_GRAINS,
            range_min < range_max,
            range_max <= buf_len,
            cursor <= buf_len,
        ensures
            final(self).settings == old(self).settings,
            final(self).grains@.len() == if old(self).grains@.len() >= old(
                self,
            ).settings.num_grains {
                old(self).grains@.len() as int
            } else {
                old(self).settings.num_grains as int
            },
            final(self).grains@.len() <= MAX_GRAINS,
            forall|i: int|
                0 <= i < old(self).grains@.len() ==> #[trigger] final(self).grains@[i] == old(
                    self,
                ).grains@[i],
            forall|i: int|
                old(self).grains@.len() <= i < final(self).grains@.len() ==> spawned_ok(
                    #[trigger] final(self).grains@[i],
                    cursor as int,
                    range_min as int,
                    range_max as int,
                    buf_len as int,
                    old(self).settings,
                ),
    {
        let jitter: usize = self.settings.cursor_spawn_jitter;
        while self.grains.len() < self.settings.num_grains
            invariant
                self.settings == old(self).settings,
                self.settings.wf(),
                jitter == self.settings.cursor_spawn_jitter,
                range_min < range_max,
                range_max <= buf_len,
                cursor <= buf_len,
                old(self).grains@.len() <= self.grains@.len(),
                self.grains@.len() <= MAX_GRAINS,
                self.grains@.len() > old(self).grains@.len() ==> self.grains@.len()
                    <= self.settings.num_grains,
                forall|i: int|
                    0 <= i < old(self).grains@.len() ==> #[trigger] self.grains@[i] == old(
                        self,
                    ).grains@[i],
                forall|i: int|
                    old(self).grains@.len() <= i < self.grains@.len() ==> spawned_ok(
                        #[trigger] self.grains@[i],
                        cursor as int,
                        range_min as int,
                        range_max as int,
                        buf_len as int,
                        old(self).settings,
                    ),
            decreases self.settings.num_grains - self.grains.len(),
        {
            let lo: usize = if jitter > cursor {
                0
            } else {
                cursor - jitter
            };
            let hi: usize = if jitter > buf_len - cursor {
                buf_len
            } else {
                cursor + jitter
            };
            let draw: usize = crate::random::random_in_range(lo, hi);
            let start: usize = fold_into_range(draw, range_min, range_max);
            let length: usize = crate::random::random_in_range(
                self.settings.grain_length_min,
                self.settings.grain_length_max,
            );
            let grain_end: usize = if length > buf_len - start {
                buf_len
            } else {
                start + length
            };
            let w: i64 = self.settings.stereo_width;
            let pan_draw: usize = crate::random::random_in_range(0, (2 * w) as usize);
            let pan: i64 = (pan_draw as i64) - w;
            proof {
                assert(spawn_draw_ok(
                    start as int,
                    draw as int,
                    cursor as int,
                    jitter as int,
                    range_min as int,
                    range_max as int,
                    buf_len as int,
                ));
            }
            self.grains.push(Grain::new(start, grain_end, pan));
        }
    }
}

impl Default for GrainEngine {
    /// A fresh engine: no grains, one-grain target, lengths between 1000
    /// and 3000 samples, no jitter, no stereo spread.
    fn default() -> (r: GrainEngine)
        ensures
            r.grains@.len() == 0,
            r.settings == (GrainSettings {
                num_grains: 1,
                grain_length_min: 1000,
                grain_length_max: 3000,
                cursor_spawn_jitter: 0,
                stereo_width: 0,
            }),
            r.settings.wf(),
    {
        GrainEngine {
            grains: Vec::new(),
            settings: GrainSettings {
                num_grains: 1,
                grain_length_min: 1000,
                grain_length_max: 3000,
                cursor_spawn_jitter: 0,
                stereo_width: 0,
            },
        }
    }
}

} // verus!
