//! Playback state: the source buffer being granulated, the loop range,
//! the shared playback cursor, and the grain engine. `process` is the
//! render pass that the output audio callback runs once per hardware
//! buffer request.

use crate::grain::CONTRIB_BOUND;
use crate::grain::Grain;
use crate::grain::GrainEngine;
use crate::grain::GrainSettings;
use crate::grain::MAX_GRAINS;
use crate::grain::advanced;
use crate::grain::grain_alive;
use crate::grain::lemma_total_contrib_bound;
use crate::grain::lemma_total_contrib_push;
use crate::grain::spawned_ok;
use crate::grain::total_contrib;
use vstd::prelude::*;

verus! {

/// The cursor after one render pass: it advances by the number of output
/// frames requested and wraps inside `[mn, mx)`, measured from `mn`.
pub open spec fn wrapped_cursor(cursor: int, mn: int, mx: int, frames: int) -> int {
    (cursor - mn + frames) % (mx - mn) + mn
}

/// Renormalizing the cursor is idempotent: wrapping an already wrapped
/// cursor with no elapsed frames leaves it unchanged.
pub proof fn lemma_wrap_idempotent(cursor: int, mn: int, mx: int)
    requires
        mn < mx,
    ensures
        wrapped_cursor(wrapped_cursor(cursor, mn, mx, 0), mn, mx, 0) == wrapped_cursor(
            cursor,
            mn,
            mx,
            0,
        ),
{
    let w = mx - mn;
    vstd::arithmetic::div_mod::lemma_mod_bound(cursor - mn, w);
    vstd::arithmetic::div_mod::lemma_small_mod(((cursor - mn) % w) as nat, w as nat);
}

/// A freshly spawned grain as it was at spawn time: cursor back at its
/// start.
pub open spec fn at_spawn(g: Grain) -> Grain {
    Grain { position: g.start, ..g }
}

/// The playback side of the system: the buffer being played (replaced
/// wholesale, never edited), the optional loop range, the shared cursor,
/// and the grain engine.
#[derive(Debug)]
pub struct OutputStreamState {
    pub play_buffer: Vec<i32>,
    pub cursor: usize,
    pub range: Option<(usize, usize)>,
    pub grains: GrainEngine,
}

impl OutputStreamState {
    /// Lower bound of the active loop range; an unset range means the
    /// whole buffer.
    pub open spec fn eff_min(self) -> int {
        match self.range {
            Some(r) => r.0 as int,
            None => 0,
        }
    }

    /// Upper bound of the active loop range; an unset range means the
    /// whole buffer.
    pub open spec fn eff_max(self) -> int {
        match self.range {
            Some(r) => r.1 as int,
            None => self.play_buffer@.len() as int,
        }
    }

    /// A degenerate loop range is not an error: the render pass mixes
    /// silence and spawns nothing.
    pub open spec fn degenerate(self) -> bool {
        self.eff_min() >= self.eff_max() || self.eff_max() > self.play_buffer@.len()
    }

    /// Each grain is well-formed against the play buffer. After the
    /// buffer has been cleared out from under the grains, they are only
    /// well-formed against their own windows; every range is then
    /// degenerate, so such a grain is never mixed.
    pub open spec fn grain_ok(self, g: Grain) -> bool {
        if self.play_buffer@.len() == 0 {
            g.wf(g.end as int)
        } else {
            g.wf(self.play_buffer@.len() as int)
        }
    }

    /// The state invariant every mutator preserves.
    pub open spec fn wf(self) -> bool {
        &&& self.grains.settings.wf()
    &&& self.grains.grains@.len() <= MAX_GRAINS
    &&& forall|i: int| 0 <= i < self.grains.grains@.len() ==> self.grain_ok(#[trigger] self.grains.grains@[i])
    }

    /// Installs a freshly recorded buffer: the loop range is reset to
    /// the whole buffer, the cursor returns to the origin, and every
    /// active grain is discarded, whatever the prior state was.
    pub fn set_play_buffer(&mut self, buffer: Vec<i32>)
        ensures
            final(self).play_buffer@ == buffer@,
            final(self).range is None,
            final(self).cursor == 0,
            final(self).grains.grains@.len() == 0,
            final(self).grains.settings == old(self).grains.settings,
            old(self).grains.settings.wf() ==> final(self).wf(),
    {
        self.play_buffer = buffer;
        self.range = None;
        self.cursor = 0;
        self.grains.clear();
    }

    /// Empties the play buffer; the range, cursor and grains are left
    /// alone, but every range over an empty buffer is degenerate, so the
    /// next render pass produces silence and spawns nothing.
    pub fn clear_play_buffer(&mut self)
        ensures
            final(self).play_buffer@.len() == 0,
            final(self).range == old(self).range,
            final(self).cursor == old(self).cursor,
            final(self).grains.grains@ == old(self).grains.grains@,
            final(self).grains.settings == old(self).grains.settings,
            final(self).degenerate(),
            old(self).wf() ==> final(self).wf(),
    {
        self.play_buffer = Vec::new();
    }

    /// Reads the shared playback cursor for the display snapshot.
    pub fn play_cursor(&self) -> (c: usize)
        ensures
            c == self.cursor,
    {
        self.cursor
    }

    /// Sets the loop range, defaulting an unset bound to the matching
    /// extent of the current buffer.
    pub fn set_play_range(&mut self, start: Option<usize>, end: Option<usize>)
        ensures
            final(self).range == Some(
                (
                    (match start {
                        Some(v) => v,
                        None => 0usize,
                    }),
                    (match end {
                        Some(v) => v,
                        None => old(self).play_buffer.len() as usize,
                    }),
                ),
            ),
            final(self).play_buffer@ == old(self).play_buffer@,
            final(self).cursor == old(self).cursor,
            final(self).grains == old(self).grains,
            old(self).wf() ==> final(self).wf(),
    {
        let num_samples: usize = self.play_buffer.len();
        let s: usize = match start {
            Some(v) => v,
            None => 0,
        };
        let e: usize = match end {
            Some(v) => v,
            None => num_samples,
        };
        self.range = Some((s, e));
    }

    /// One render pass, as the output audio callback runs it: zero the
    /// output, bail out silently on a degenerate range, otherwise wrap
    /// the cursor forward by the requested frame count, retire finished
    /// grains, spawn up to the configured target, and mix every active
    /// grain into the interleaved stereo output in insertion order.
    pub fn process(&mut self, data: &mut Vec<i64>)
        requires
            old(self).wf(),
            old(self).cursor + old(data)@.len() <= usize::MAX,
            old(self).play_buffer@.len() + old(data)@.len() <= usize::MAX,
        ensures
            final(self).wf(),
            final(data)@.len() == old(data)@.len(),
            final(self).play_buffer@ == old(self).play_buffer@,
            final(self).range == old(self).range,
            final(self).grains.settings == old(self).grains.settings,
            old(self).degenerate() ==> ({
                &&& final(self).cursor == old(self).cursor
                &&& final(self).grains.grains@ == old(self).grains.grains@
                &&& forall|j: int| 0 <= j < old(data)@.len() ==> #[trigger] final(data)@[j] == 0
            }),
            !old(self).degenerate() ==> {
                let mn = old(self).eff_min();
                let mx = old(self).eff_max();
                let frames = old(data)@.len() as int / 2;
                let cur = wrapped_cursor(old(self).cursor as int, mn, mx, frames);
                let retained = old(self).grains.grains@.filter(grain_alive());
                let target = old(self).grains.settings.num_grains as int;
                let newg = final(self).grains.grains@;
                let premix = retained + newg.subrange(retained.len() as int, newg.len() as int).map_values(
                    |g: Grain| at_spawn(g),
                );
                &&& final(self).cursor == cur
                &&& newg.len() == (if retained.len() >= target {
                    retained.len() as int
                } else {
                    target
                })
                &&& (forall|i: int|
                    0 <= i < retained.len() ==> #[trigger] newg[i] == advanced(retained[i], frames))
                &&& (forall|i: int|
                    retained.len() <= i < newg.len() ==> spawned_ok(
                        at_spawn(#[trigger] newg[i]),
                        cur,
                        mn,
                        mx,
                        old(self).play_buffer@.len() as int,
                        old(self).grains.settings,
                    ) && newg[i] == advanced(at_spawn(newg[i]), frames))
                &&& (forall|j: int|
                    0 <= j < 2 * frames ==> #[trigger] final(data)@[j] == total_contrib(
                        premix,
                        old(self).play_buffer@,
                        j,
                    ))
                &&& (forall|j: int|
                    2 * frames <= j < old(data)@.len() ==> #[trigger] final(data)@[j] == 0)
            },
    {
        let dlen: usize = data.len();
        let mut z: usize = 0;
        while z < dlen
            invariant
                z <= dlen,
                data@.len() == dlen,
                forall|j: int| 0 <= j < z ==> #[trigger] data@[j] == 0,
            decreases dlen - z,
        {
            data.set(z, 0);
            z = z + 1;
        }
        let buf_len: usize = self.play_buffer.len();
        let (mn, mx): (usize, usize) = match self.range {
            Some(r) => r,
            None => (0, buf_len),
        };
        if mn >= mx || mx > buf_len {
            return ;
        }
        let width: usize = mx - mn;
        let frames: usize = dlen / 2;
        let ghost c0 = self.cursor as int;
        proof {
            vstd::arithmetic::div_mod::lemma_small_mod(0, width as nat);
        }
        while self.cursor < mn
            invariant
                mn < mx,
                width == mx - mn,
                self.cursor <= mx || self.cursor == c0,
                (self.cursor - mn) % (width as int) == (c0 - mn) % (width as int),
                self.play_buffer@ == old(self).play_buffer@,
                self.range == old(self).range,
                self.grains == old(self).grains,
            decreases (if self.cursor < mn {
                mn - self.cursor
            } else {
                0int
            }),
        {
            proof {
                vstd::arithmetic::div_mod::lemma_mod_add_multiples_vanish(
                    self.cursor - mn,
                    width as int,
                );
            }
            self.cursor = self.cursor + width;
        }
        proof {
            vstd::arithmetic::div_mod::lemma_add_mod_noop(
                self.cursor - mn,
                frames as int,
                width as int,
            );
            vstd::arithmetic::div_mod::lemma_add_mod_noop(c0 - mn, frames as int, width as int);
            vstd::arithmetic::div_mod::lemma_mod_twice(frames as int, width as int);
            vstd::arithmetic::div_mod::lemma_mod_bound(self.cursor - mn + frames, width as int);
        }
        self.cursor = (self.cursor - mn + frames) % width + mn;
        proof {
            assert(self.cursor == wrapped_cursor(c0, mn as int, mx as int, frames as int));
        }
        self.grains.update();
        let ghost retained = self.grains.grains@;
        proof {
            let ghost olds = old(self).grains.grains@;
            olds.lemma_filter_len(grain_alive());
            assert forall|i: int| 0 <= i < retained.len() implies {
                let g = #[trigger] retained[i];
                g.start <= g.position && g.position < g.end && g.end <= buf_len && -1000 <= g.pan
                    <= 1000
            } by {
                olds.lemma_filter_pred(grain_alive(), i);
                assert(retained.contains(retained[i]));
                olds.lemma_filter_contains_rev(grain_alive(), retained[i]);
                let j = choose|j: int| 0 <= j < olds.len() && olds[j] == retained[i];
                assert(old(self).grain_ok(olds[j]));
            }
        }
        self.grains.spawn_if_needed(self.cursor, mn, mx, buf_len);
        let ghost premix = self.grains.grains@;
        let n: usize = self.grains.grains.len();
        let mut k: usize = 0;
        while k < n
            invariant
                k <= n,
                n == premix.len(),
                premix.len() <= MAX_GRAINS,
                self.grains.grains@.len() == premix.len(),
                data@.len() == dlen,
                frames == dlen as int / 2,
                dlen <= usize::MAX,
                2 * frames <= dlen,
                buf_len == self.play_buffer@.len(),
                buf_len + dlen <= usize::MAX,
                mn < mx <= buf_len,
                self.play_buffer@ == old(self).play_buffer@,
                self.range == old(self).range,
                self.cursor == wrapped_cursor(c0, mn as int, mx as int, frames as int),
                self.grains.settings == old(self).grains.settings,
                forall|i: int|
                    0 <= i < premix.len() ==> (#[trigger] premix[i]).start <= premix[i].position
                        && premix[i].position <= premix[i].end && premix[i].start <= premix[i].end
                        && premix[i].end <= buf_len && -1000 <= premix[i].pan <= 1000,
                forall|i: int| k <= i < premix.len() ==> #[trigger] self.grains.grains@[i] == premix[i],
                forall|i: int|
                    0 <= i < k ==> #[trigger] self.grains.grains@[i] == advanced(
                        premix[i],
                        frames as int,
                    ),
                forall|j: int|
                    0 <= j < 2 * frames ==> #[trigger] data@[j] == total_contrib(
                        premix.take(k as int),
                        self.play_buffer@,
                        j,
                    ),
                forall|j: int| 2 * frames <= j < dlen ==> #[trigger] data@[j] == 0,
            decreases n - k,
        {
            proof {
                lemma_total_contrib_bound(premix.take(k as int), self.play_buffer@, 0);
                assert forall|j: int|
                    0 <= j < dlen implies i64::MIN + CONTRIB_BOUND <= #[trigger] data@[j]
                    <= i64::MAX - CONTRIB_BOUND by {
                    if j < 2 * frames {
                        lemma_total_contrib_bound(premix.take(k as int), self.play_buffer@, j);
                        assert((premix.take(k as int).len() as int) * CONTRIB_BOUND <= (
                        MAX_GRAINS as int) * CONTRIB_BOUND) by (nonlinear_arith)
                            requires
                                premix.take(k as int).len() <= MAX_GRAINS,
                        ;
                    }
                }
            }
            let mut g: Grain = self.grains.grains[k];
            let ghost gpre = g;
            g.process_into(data, &self.play_buffer);
            self.grains.grains.set(k, g);
            proof {
                assert(premix.take(k + 1) =~= premix.take(k as int).push(gpre));
                assert forall|j: int|
                    0 <= j < 2 * frames implies #[trigger] data@[j] == total_contrib(
                    premix.take(k + 1),
                    self.play_buffer@,
                    j,
                ) by {
                    lemma_total_contrib_push(premix.take(k as int), self.play_buffer@, j, gpre);
                }
                assert(g == advanced(premix[k as int], frames as int));
            }
            k = k + 1;
        }
        proof {
            assert(premix.take(n as int) =~= premix);
            let newg = self.grains.grains@;
            let spawned = newg.subrange(retained.len() as int, newg.len() as int).map_values(
                |g: Grain| at_spawn(g),
            );
            assert forall|i: int| retained.len() <= i < newg.len() implies spawned_ok(
                at_spawn(#[trigger] newg[i]),
                wrapped_cursor(c0, mn as int, mx as int, frames as int),
                mn as int,
                mx as int,
                buf_len as int,
                old(self).grains.settings,
            ) && newg[i] == advanced(at_spawn(newg[i]), frames as int) by {
                assert(newg[i] == advanced(premix[i], frames as int));
                assert(at_spawn(advanced(premix[i], frames as int)) == premix[i]);
            }
            assert(retained + spawned =~= premix);
        }
    }

    /// Replaces the grain-engine settings; active grains are untouched
    /// and finish under their spawn-time parameters.
    pub fn set_grain_settings(&mut self, settings: GrainSettings)
        requires
            settings.wf(),
        ensures
            final(self).grains.settings == settings,
            final(self).grains.grains@ == old(self).grains.grains@,
            final(self).play_buffer@ == old(self).play_buffer@,
            final(self).cursor == old(self).cursor,
            final(self).range == old(self).range,
            old(self).wf() ==> final(self).wf(),
    {
        self.grains.settings = settings;
    }
}

impl Default for OutputStreamState {
    /// Empty buffer, origin cursor, whole-buffer range, default engine.
    fn default() -> (r: OutputStreamState)
        ensures
            r.play_buffer@.len() == 0,
            r.cursor == 0,
            r.range is None,
            r.grains.grains@.len() == 0,
            r.grains.settings.wf(),
            r.wf(),
    {
        OutputStreamState {
            play_buffer: Vec::new(),
            cursor: 0,
            range: None,
            grains: GrainEngine::default(),
        }
    }
}

} // verus!
