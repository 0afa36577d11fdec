//! Indicator strategies: the stateful component that chooses the glyph used
//! to render the fill portion of the progress display. A `Simple` indicator
//! always shows the same glyph; a `Rotating` indicator cycles through a
//! non-empty glyph list, one step per item consumed.

use vstd::prelude::*;
use vstd::string::StrSliceExecFns;
use crate::text::{repeat_seq, repeat_str};

verus! {

/// The strategy producing the glyph used to render fill.
pub enum Indicator {
    /// One fixed glyph; advancing is a no-op.
    Simple { glyph: String },
    /// An ordered, non-empty glyph list plus the index of the active glyph;
    /// advancing moves the index forward with wraparound.
    Rotating { glyphs: Vec<String>, index: usize },
}

impl Indicator {
    /// Well-formedness: a rotating glyph list is never empty and its active
    /// index is always in range.
    pub open spec fn wf(&self) -> bool {
        match self {
            Indicator::Simple { .. } => true,
            Indicator::Rotating { glyphs, index } => glyphs@.len() > 0 && index < glyphs@.len(),
        }
    }

    /// The glyph active for the current step, as a character sequence.
    pub open spec fn current_spec(&self) -> Seq<char> {
        match self {
            Indicator::Simple { glyph } => glyph@,
            Indicator::Rotating { glyphs, index } => glyphs@[*index as int]@,
        }
    }

    /// The indicator after one advance: rotation moves the active index
    /// forward with wraparound; a simple indicator is unchanged.
    pub open spec fn advanced_spec(self) -> Indicator {
        match self {
            Indicator::Simple { glyph } => Indicator::Simple { glyph },
            Indicator::Rotating { glyphs, index } => Indicator::Rotating {
                glyphs,
                index: (((index + 1) % glyphs@.len() as int) as usize),
            },
        }
    }

    /// A simple indicator showing the given fixed glyph.
    pub fn simple(glyph: String) -> (r: Indicator)
        ensures
            r == (Indicator::Simple { glyph }),
    {
        Indicator::Simple { glyph }
    }

    /// A rotating indicator over the given glyph list, starting at the first
    /// glyph. An empty glyph list is a construction-time violation, rejected
    /// here — before any rendering — by returning `None`.
    pub fn rotating(glyphs: Vec<String>) -> (r: Option<Indicator>)
        ensures
            glyphs@.len() > 0 ==> r == Some(Indicator::Rotating { glyphs, index: 0usize }),
            glyphs@.len() == 0 ==> r is None,
    {
        if glyphs.len() > 0 {
            Some(Indicator::Rotating { glyphs, index: 0 })
        } else {
            None
        }
    }

    /// The glyph active for the current step.
    pub fn current(&self) -> (g: &str)
        requires
            self.wf(),
        ensures
            g@ == self.current_spec(),
    {
        match self {
            Indicator::Simple { glyph } => glyph.as_str(),
            Indicator::Rotating { glyphs, index } => glyphs[*index].as_str(),
        }
    }

    /// Advances the rotation state: a no-op for `Simple`, the next glyph
    /// (wrapping around) for `Rotating`.
    pub fn advance(&mut self)
        requires
            old(self).wf(),
        ensures
            *final(self) == old(self).advanced_spec(),
            final(self).wf(),
    {
        match self {
            Indicator::Simple { .. } => {},
            Indicator::Rotating { glyphs, index } => {
                let len = glyphs.len();
                assert(*index < len);
                *index = (*index + 1) % len;
            },
        }
    }

    /// The fill portion of the display: the current glyph repeated `count`
    /// times.
    pub fn render_fill(&self, count: usize) -> (r: String)
        requires
            self.wf(),
        ensures
            r@ == repeat_seq(self.current_spec(), count as nat),
    {
        repeat_str(self.current(), count)
    }

    /// Every glyph this indicator can ever show, multiplied by `n`, stays
    /// within `usize` range. Used to rule out overflow when sizing the blank
    /// segment of a bounded bar of width `n`.
    pub open spec fn widths_fit(&self, n: nat) -> bool {
        match self {
            Indicator::Simple { glyph } => glyph@.len() * n <= usize::MAX,
            Indicator::Rotating { glyphs, .. } => forall|k: int|
                0 <= k < glyphs@.len() ==> (#[trigger] glyphs@[k])@.len() * n <= usize::MAX,
        }
    }

    /// The current glyph's width times `n` fits whenever all glyph widths do.
    pub proof fn lemma_widths_fit_current(&self, n: nat)
        requires
            self.wf(),
            self.widths_fit(n),
        ensures
            self.current_spec().len() * n <= usize::MAX,
    {
    }

    /// Advancing does not change the set of glyphs, so width bounds survive.
    pub proof fn lemma_widths_fit_advance(&self, n: nat)
        requires
            self.wf(),
            self.widths_fit(n),
        ensures
            self.advanced_spec().widths_fit(n),
    {
    }

    /// Runtime test for `widths_fit`: whether every glyph's width times `n`
    /// stays within `usize` range.
    pub fn widths_fit_within(&self, n: usize) -> (r: bool)
        requires
            self.wf(),
        ensures
            r == self.widths_fit(n as nat),
    {
        match self {
            Indicator::Simple { glyph } => glyph.as_str().unicode_len().checked_mul(n).is_some(),
            Indicator::Rotating { glyphs, .. } => {
                let mut k: usize = 0;
                let len = glyphs.len();
                while k < len
                    invariant
                        k <= len,
                        len == glyphs@.len(),
                        self.wf(),
                        self matches Indicator::Rotating { glyphs: gs, .. } && gs == glyphs,
                        forall|j: int| 0 <= j < k
                            ==> (#[trigger] glyphs@[j])@.len() * n <= usize::MAX,
                    decreases len - k,
                {
                    if glyphs[k].as_str().unicode_len().checked_mul(n).is_none() {
                        return false;
                    }
                    k = k + 1;
                }
                true
            },
        }
    }

    /// The indicator after `n` advances.
    pub open spec fn advanced_n_spec(self, n: nat) -> Indicator
        decreases n,
    {
        if n == 0 {
            self
        } else {
            self.advanced_n_spec((n - 1) as nat).advanced_spec()
        }
    }
}

/// Law: rotation cycles. After `m` advances, a rotating indicator's active
/// glyph index is `(index + m) % glyphs.len()` — in particular, starting from
/// index `0`, the glyph shown at step `m` is `glyphs[m % glyphs.len()]`.
pub proof fn lemma_rotation_cycles(glyphs: Vec<String>, index: usize, m: nat)
    requires
        glyphs@.len() > 0,
        index < glyphs@.len(),
    ensures
        (Indicator::Rotating { glyphs, index }).advanced_n_spec(m) == (Indicator::Rotating {
            glyphs,
            index: (((index + m) % glyphs@.len() as int) as usize),
        }),
    decreases m,
{
    let len = glyphs@.len() as int;
    assert(glyphs.len() == glyphs@.len());
    vstd::arithmetic::div_mod::lemma_mod_bound(index + m, len);
    if m == 0 {
        vstd::arithmetic::div_mod::lemma_small_mod(index as nat, len as nat);
    } else {
        lemma_rotation_cycles(glyphs, index, (m - 1) as nat);
        let prev = (index + m - 1) % len;
        vstd::arithmetic::div_mod::lemma_mod_bound(index + m - 1, len);
        if len == 1 {
            vstd::arithmetic::div_mod::lemma_mod_self_0(1);
            vstd::arithmetic::div_mod::lemma_small_mod(0, 1);
            assert((prev + 1) % len == 0) by {
                vstd::arithmetic::div_mod::lemma_mod_self_0(1);
            };
            vstd::arithmetic::div_mod::lemma_add_mod_noop(index + m - 1, 1, len);
        } else {
            vstd::arithmetic::div_mod::lemma_small_mod(1, len as nat);
            vstd::arithmetic::div_mod::lemma_add_mod_noop(index + m - 1, 1, len);
        }
    }
}

/// Law: a rotating indicator over a single glyph behaves exactly like a
/// simple indicator with that glyph — advancing never changes it, and at
/// every step the two show the same glyph.
pub proof fn lemma_single_glyph_rotation_like_simple(glyphs: Vec<String>, glyph: String, m: nat)
    requires
        glyphs@.len() == 1,
        glyphs@[0] == glyph,
    ensures
        (Indicator::Rotating { glyphs, index: 0usize }).advanced_n_spec(m) == (Indicator::Rotating {
            glyphs,
            index: 0usize,
        }),
        (Indicator::Rotating { glyphs, index: 0usize }).advanced_n_spec(m).current_spec()
            == (Indicator::Simple { glyph }).advanced_n_spec(m).current_spec(),
    decreases m,
{
    lemma_simple_advance_identity(glyph, m);
    lemma_rotation_cycles(glyphs, 0, m);
    vstd::arithmetic::div_mod::lemma_mod_bound(m as int, 1);
}

/// Advancing a simple indicator any number of times leaves it unchanged.
pub proof fn lemma_simple_advance_identity(glyph: String, m: nat)
    ensures
        (Indicator::Simple { glyph }).advanced_n_spec(m) == (Indicator::Simple { glyph }),
    decreases m,
{
    if m > 0 {
        lemma_simple_advance_identity(glyph, (m - 1) as nat);
    }
}

} // verus!
