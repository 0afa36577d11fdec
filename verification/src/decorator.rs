//! The progress decorator: wraps a finite sequence of work items, tracks how
//! many have been consumed, and renders a progress line on every pull. In
//! unbounded mode the line is an open-ended tally of fill glyphs; once bound
//! to the sequence's length it becomes a fixed-width bar framed by brackets,
//! the fill padded with blanks so the bar always spans the same width.

use vstd::prelude::*;
use vstd::string::{StrSliceExecFns, StringExecFns};
use crate::indicator::Indicator;
use crate::text::{blank_seq, blank_str, lemma_repeat_seq_len, repeat_seq};

verus! {

/// Whether the total item count is known in advance.
pub enum Bound {
    /// No known total: render an open-ended tally.
    Unbounded,
    /// A total captured once, when bounding was requested, plus the bracket
    /// pair framing the bar.
    Bounded { total: usize, left: String, right: String },
}

/// The progress decorator: the wrapped items, the count `i` of items pulled
/// so far (the fill amount at render time), the indicator strategy, and the
/// bound mode.
pub struct Progress<T> {
    pub items: Vec<T>,
    pub i: usize,
    pub indicator: Indicator,
    pub bound: Bound,
}

impl<T> Progress<T> {
    /// Well-formedness: the indicator is well-formed, and in bounded mode the
    /// captured total equals the wrapped sequence's length and every glyph
    /// width times the total stays within `usize` range (so the blank
    /// segment's size never overflows).
    pub open spec fn wf(&self) -> bool {
        &&& self.indicator.wf()
        &&& match self.bound {
            Bound::Unbounded => true,
            Bound::Bounded { total, .. } => {
                &&& total == self.items@.len()
                &&& self.indicator.widths_fit(total as nat)
            },
        }
    }

    /// Rendering is meaningful only while the position has not run past the
    /// captured total (always true in unbounded mode).
    pub open spec fn can_render(&self) -> bool {
        match self.bound {
            Bound::Unbounded => true,
            Bound::Bounded { total, .. } => self.i <= total,
        }
    }

    /// The fill segment: the current glyph repeated once per item consumed.
    pub open spec fn fill_part(&self) -> Seq<char> {
        repeat_seq(self.indicator.current_spec(), self.i as nat)
    }

    /// How many items remain before the bar is full (zero in unbounded mode).
    pub open spec fn remaining(&self) -> nat {
        match self.bound {
            Bound::Unbounded => 0,
            Bound::Bounded { total, .. } => if self.i <= total {
                (total - self.i) as nat
            } else {
                0
            },
        }
    }

    /// The blank segment: one space per remaining item, scaled by the current
    /// glyph's width so fill and blank stay visually aligned.
    pub open spec fn blank_part(&self) -> Seq<char> {
        blank_seq(self.indicator.current_spec().len() * self.remaining())
    }

    /// The full rendered line: bare fill in unbounded mode; left bracket,
    /// fill, blank padding, right bracket in bounded mode.
    pub open spec fn line_spec(&self) -> Seq<char> {
        match self.bound {
            Bound::Unbounded => self.fill_part(),
            Bound::Bounded { total, left, right } => left@ + self.fill_part() + self.blank_part()
                + right@,
        }
    }

    /// The decorator after one pull: the indicator advanced once and the
    /// position counter incremented; items and bound mode unchanged.
    pub open spec fn stepped_spec(self) -> Progress<T> {
        Progress {
            i: (self.i + 1) as usize,
            indicator: self.indicator.advanced_spec(),
            ..self
        }
    }

    /// The decorator after `n` pulls.
    pub open spec fn stepped_n_spec(self, n: nat) -> Progress<T>
        decreases n,
    {
        if n == 0 {
            self
        } else {
            self.stepped_n_spec((n - 1) as nat).stepped_spec()
        }
    }

    /// Wraps a sequence of items: position zero, the given indicator, no
    /// known bound.
    pub fn new(items: Vec<T>, indicator: Indicator) -> (r: Progress<T>)
        requires
            indicator.wf(),
        ensures
            r == (Progress { items, i: 0usize, indicator, bound: Bound::Unbounded }),
            r.wf(),
    {
        Progress { items, i: 0, indicator, bound: Bound::Unbounded }
    }

    /// Promotes the decorator to bounded mode, capturing the wrapped
    /// sequence's length — known exactly, since the decorator owns the whole
    /// sequence — as the fixed total, with the default `[` `]` brackets.
    /// A one-way, one-time transition: it consumes the unbounded decorator,
    /// and its precondition admits only a decorator that is still unbounded
    /// and has not yet yielded any item.
    pub fn with_bound(self) -> (r: Progress<T>)
        requires
            self.wf(),
            self.bound is Unbounded,
            self.i == 0,
            self.indicator.widths_fit(self.items@.len() as nat),
        ensures
            r.items == self.items,
            r.i == 0usize,
            r.indicator == self.indicator,
            r.bound matches Bound::Bounded { total, left, right } && total == self.items@.len()
                && left@ == "["@ && right@ == "]"@,
            r.wf(),
    {
        let total = self.items.len();
        Progress {
            items: self.items,
            i: self.i,
            indicator: self.indicator,
            bound: Bound::Bounded {
                total,
                left: String::from_str("["),
                right: String::from_str("]"),
            },
        }
    }

    /// Replaces the bracket pair of a bounded decorator; everything else —
    /// items, position, indicator, total — is kept.
    pub fn with_brackets(self, brackets: (String, String)) -> (r: Progress<T>)
        requires
            self.wf(),
            self.bound is Bounded,
        ensures
            r.items == self.items,
            r.i == self.i,
            r.indicator == self.indicator,
            r.bound matches Bound::Bounded { total, left, right } && total == self.bound->total
                && left == brackets.0 && right == brackets.1,
            r.wf(),
    {
        if let Bound::Bounded { total, .. } = self.bound {
            Progress {
                items: self.items,
                i: self.i,
                indicator: self.indicator,
                bound: Bound::Bounded { total, left: brackets.0, right: brackets.1 },
            }
        } else {
            vstd::pervasive::unreached()
        }
    }

    /// Renders the current state: the line to display before the next item
    /// is yielded (the caller writes it, together with any terminal-clear
    /// prefix, to its sink).
    pub fn render_line(&self) -> (r: String)
        requires
            self.wf(),
            self.can_render(),
        ensures
            r@ == self.line_spec(),
    {
        match &self.bound {
            Bound::Unbounded => self.indicator.render_fill(self.i),
            Bound::Bounded { total, left, right } => {
                let fill = self.indicator.render_fill(self.i);
                let width = self.indicator.current().unicode_len();
                proof {
                    self.indicator.lemma_widths_fit_current(*total as nat);
                    vstd::arithmetic::mul::lemma_mul_inequality(
                        *total as int - self.i as int,
                        *total as int,
                        width as int,
                    );
                    vstd::arithmetic::mul::lemma_mul_is_commutative(
                        *total as int - self.i as int,
                        width as int,
                    );
                    vstd::arithmetic::mul::lemma_mul_is_commutative(*total as int, width as int);
                }
                let blanks = blank_str(width * (*total - self.i));
                let mut s = left.clone();
                s.append(fill.as_str());
                s.append(blanks.as_str());
                s.append(right.as_str());
                s
            },
        }
    }
}

impl<T: Copy> Progress<T> {
    /// Pulls the next item. In strict order: renders the current state,
    /// advances the indicator, increments the position counter, and yields
    /// the next item of the wrapped sequence (or `None` once it is
    /// exhausted). The line reflects the items consumed *before* this pull,
    /// so a bounded bar reaches full only on the pull that reports
    /// exhaustion, never in a frame of its own after it.
    pub fn next(&mut self) -> (r: (String, Option<T>))
        requires
            old(self).wf(),
            old(self).can_render(),
            old(self).i < usize::MAX,
        ensures
            final(self).wf(),
            *final(self) == old(self).stepped_spec(),
            r.0@ == old(self).line_spec(),
            r.1 == (if old(self).i < old(self).items@.len() {
                Some(old(self).items@[old(self).i as int])
            } else {
                None::<T>
            }),
    {
        let line = self.render_line();
        let idx = self.i;
        proof {
            match old(self).bound {
                Bound::Bounded { total, .. } => {
                    old(self).indicator.lemma_widths_fit_advance(total as nat);
                },
                Bound::Unbounded => {},
            }
        }
        self.indicator.advance();
        self.i = idx + 1;
        let item = if idx < self.items.len() {
            Some(self.items[idx])
        } else {
            None
        };
        (line, item)
    }
}

/// Wraps a sequence of items with the default indicator — a simple `*`
/// glyph — and no known bound.
pub fn progress<T>(items: Vec<T>) -> (r: Progress<T>)
    ensures
        r.items == items,
        r.i == 0usize,
        r.bound is Unbounded,
        r.indicator matches Indicator::Simple { glyph } && glyph@ == "*"@,
        r.wf(),
{
    Progress::new(items, Indicator::simple(String::from_str("*")))
}

/// Wraps a sequence of items with the given indicator and no known bound.
pub fn progress_with_indicator<T>(items: Vec<T>, indicator: Indicator) -> (r: Progress<T>)
    requires
        indicator.wf(),
    ensures
        r == (Progress { items, i: 0usize, indicator, bound: Bound::Unbounded }),
        r.wf(),
{
    Progress::new(items, indicator)
}

/// Law: in bounded mode the fill and blank segments partition the bar. The
/// fill holds `i` copies of the current glyph, the blank covers the
/// remaining `total - i` glyph widths, and together they span exactly
/// `total` glyph widths — neither over- nor under-counting, at every render.
pub proof fn lemma_fill_blank_partition<T>(p: Progress<T>)
    requires
        p.wf(),
        p.bound is Bounded,
        p.can_render(),
    ensures
        p.fill_part().len() == p.i * p.indicator.current_spec().len(),
        p.blank_part().len() == (p.bound->total - p.i) * p.indicator.current_spec().len(),
        p.fill_part().len() + p.blank_part().len() == p.bound->total
            * p.indicator.current_spec().len(),
{
    let w = p.indicator.current_spec().len() as int;
    let total = p.bound->total as int;
    let i = p.i as int;
    lemma_repeat_seq_len(p.indicator.current_spec(), p.i as nat);
    vstd::arithmetic::mul::lemma_mul_is_commutative(w, total - i);
    assert(i * w + (total - i) * w == total * w) by (nonlinear_arith);
}

/// Law: counting pulls from a fresh decorator, the k-th render shows a fill
/// of exactly k glyphs, while the wrapped items and the bound mode never
/// change.
pub proof fn lemma_kth_render_fill_count<T>(p: Progress<T>, k: nat)
    requires
        p.i == 0,
        k <= usize::MAX,
    ensures
        p.stepped_n_spec(k).i == k,
        p.stepped_n_spec(k).items == p.items,
        p.stepped_n_spec(k).bound == p.bound,
        p.stepped_n_spec(k).fill_part() == repeat_seq(
            p.stepped_n_spec(k).indicator.current_spec(),
            k,
        ),
    decreases k,
{
    if k > 0 {
        lemma_kth_render_fill_count(p, (k - 1) as nat);
    }
}

/// Law: unbounded rendering is the bare fill — no brackets, no blank
/// segment — and each pull grows the fill glyph count by exactly one.
pub proof fn lemma_unbounded_render_plain<T>(p: Progress<T>)
    requires
        p.bound is Unbounded,
        p.i < usize::MAX,
    ensures
        p.line_spec() == p.fill_part(),
        p.blank_part() == Seq::<char>::empty(),
        p.fill_part() == repeat_seq(p.indicator.current_spec(), p.i as nat),
        p.stepped_spec().bound is Unbounded,
        p.stepped_spec().fill_part() == repeat_seq(
            p.stepped_spec().indicator.current_spec(),
            (p.i + 1) as nat,
        ),
{
    assert(blank_seq(p.indicator.current_spec().len() * 0) =~= Seq::<char>::empty());
}

/// Law: brackets affect only the framing of bounded output. Two decorators
/// that differ at most in their bracket strings render identical fill and
/// blank segments, each line being its own brackets around that common core.
pub proof fn lemma_brackets_frame_only<T>(p: Progress<T>, q: Progress<T>)
    requires
        p.bound is Bounded,
        q.bound is Bounded,
        p.items == q.items,
        p.i == q.i,
        p.indicator == q.indicator,
        p.bound->total == q.bound->total,
    ensures
        p.fill_part() == q.fill_part(),
        p.blank_part() == q.blank_part(),
        p.line_spec() == p.bound->left@ + p.fill_part() + p.blank_part() + p.bound->right@,
        q.line_spec() == q.bound->left@ + q.fill_part() + q.blank_part() + q.bound->right@,
{
}

} // verus!
