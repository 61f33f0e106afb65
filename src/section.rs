use vstd::prelude::*;

use crate::content::HomeContent;
use crate::song::{normalize, normalizes_to, SongInfo};

verus! {

/// Width of one entry plus the spacing after it, in pixels.
pub const SCROLL_STEP_PX: u64 = 270;

/// How many entries a section assumes its viewport shows at once.
pub const VISIBLE_ITEMS: u64 = 4;

/// The axis of a scroll position reported by the renderer.
#[derive(PartialEq, Eq, Structural, Clone, Copy, Debug)]
pub enum ScrollAxis {
    Horizontal,
    Vertical,
}

/// The horizontal scroll state of one section.
#[derive(Debug)]
pub struct SectionNavigator {
    /// Current scroll position in pixels.
    pub offset_x: u64,
    /// Pixels moved by one step.
    pub step_px: u64,
    /// Entries in the section.
    pub item_count: u64,
    /// Entries assumed visible at once.
    pub visible_items: u64,
}

/// The largest scroll position: `max(0, item_count * step - visible * step)`.
pub open spec fn max_offset_of(item_count: int, visible_items: int, step_px: int) -> int {
    if item_count * step_px > visible_items * step_px {
        item_count * step_px - visible_items * step_px
    } else {
        0
    }
}

pub open spec fn clamp(x: int, lo: int, hi: int) -> int {
    if x < lo {
        lo
    } else if x > hi {
        hi
    } else {
        x
    }
}

impl SectionNavigator {
    pub open spec fn spec_max_offset(self) -> int {
        max_offset_of(self.item_count as int, self.visible_items as int, self.step_px as int)
    }

    pub open spec fn spec_can_scroll_left(self) -> bool {
        self.offset_x > 0
    }

    pub open spec fn spec_can_scroll_right(self) -> bool {
        self.offset_x < self.spec_max_offset() && self.item_count > self.visible_items
    }

    /// The position lies in `[0, max_offset]` and the content width fits in
    /// a `u64`.
    pub open spec fn wf(self) -> bool {
        &&& self.item_count * self.step_px <= u64::MAX
        &&& self.offset_x <= self.spec_max_offset()
    }

    /// The same section with only the scroll position changed.
    pub open spec fn same_section(self, other: SectionNavigator) -> bool {
        &&& self.step_px == other.step_px
        &&& self.item_count == other.item_count
        &&& self.visible_items == other.visible_items
    }

    /// A navigator at the start of a section.
    pub fn new(item_count: u64, visible_items: u64, step_px: u64) -> (r: SectionNavigator)
        requires
            item_count * step_px <= u64::MAX,
        ensures
            r.wf(),
            r.offset_x == 0,
            r.item_count == item_count,
            r.visible_items == visible_items,
            r.step_px == step_px,
    {
        SectionNavigator { offset_x: 0, step_px, item_count, visible_items }
    }

    /// The largest scroll position.
    pub fn max_offset(&self) -> (r: u64)
        requires
            self.wf(),
        ensures
            r == self.spec_max_offset(),
    {
        max_offset_for(self.item_count, self.visible_items, self.step_px)
    }

    pub fn can_scroll_left(&self) -> (r: bool)
        ensures
            r == self.spec_can_scroll_left(),
    {
        self.offset_x > 0
    }

    pub fn can_scroll_right(&self) -> (r: bool)
        requires
            self.wf(),
        ensures
            r == self.spec_can_scroll_right(),
    {
        self.offset_x < self.max_offset() && self.item_count > self.visible_items
    }

    /// Moves one step back, not past the start; does nothing at the start.
    pub fn step_left(&mut self)
        requires
            old(self).wf(),
        ensures
            final(self).wf(),
            final(self).same_section(*old(self)),
            !old(self).spec_can_scroll_left() ==> *final(self) == *old(self),
            old(self).spec_can_scroll_left() ==> final(self).offset_x == (if old(self).offset_x
                > old(self).step_px {
                old(self).offset_x - old(self).step_px
            } else {
                0
            }),
    {
        if !self.can_scroll_left() {
            return;
        }
        if self.offset_x > self.step_px {
            self.offset_x = self.offset_x - self.step_px;
        } else {
            self.offset_x = 0;
        }
    }

    /// Moves one step forward, not past the largest position; does nothing
    /// when the section cannot scroll further.
    pub fn step_right(&mut self)
        requires
            old(self).wf(),
        ensures
            final(self).wf(),
            final(self).same_section(*old(self)),
            !old(self).spec_can_scroll_right() ==> *final(self) == *old(self),
            old(self).spec_can_scroll_right() ==> final(self).offset_x == (if old(self).offset_x
                + old(self).step_px < old(self).spec_max_offset() {
                old(self).offset_x + old(self).step_px
            } else {
                old(self).spec_max_offset()
            }),
    {
        if !self.can_scroll_right() {
            return;
        }
        let max = self.max_offset();
        if max - self.offset_x > self.step_px {
            self.offset_x = self.offset_x + self.step_px;
        } else {
            self.offset_x = max;
        }
    }

    /// Adopts a scroll position reported by the renderer, clamped to
    /// `[0, max_offset]`. A vertical position leaves the state as it is.
    /// Returns whether the position changed.
    pub fn on_external_scroll(&mut self, axis: ScrollAxis, position: i64) -> (changed: bool)
        requires
            old(self).wf(),
        ensures
            final(self).wf(),
            final(self).same_section(*old(self)),
            axis == ScrollAxis::Vertical ==> *final(self) == *old(self),
            axis == ScrollAxis::Horizontal ==> final(self).offset_x == clamp(
                position as int,
                0,
                old(self).spec_max_offset(),
            ),
            changed == (final(self).offset_x != old(self).offset_x),
    {
        match axis {
            ScrollAxis::Vertical => false,
            ScrollAxis::Horizontal => {
                let max = self.max_offset();
                let x: u64 = if position < 0 {
                    0
                } else if position as u64 > max {
                    max
                } else {
                    position as u64
                };
                let changed = x != self.offset_x;
                self.offset_x = x;
                changed
            },
        }
    }

    /// Takes a new entry count; a position past the new largest one is
    /// pulled back to it.
    pub fn refresh(&mut self, item_count: u64)
        requires
            old(self).wf(),
            item_count * old(self).step_px <= u64::MAX,
        ensures
            final(self).wf(),
            final(self).item_count == item_count,
            final(self).step_px == old(self).step_px,
            final(self).visible_items == old(self).visible_items,
            final(self).offset_x == (if old(self).offset_x <= final(self).spec_max_offset() {
                old(self).offset_x as int
            } else {
                final(self).spec_max_offset()
            }),
    {
        self.item_count = item_count;
        let max = max_offset_for(item_count, self.visible_items, self.step_px);
        if self.offset_x > max {
            self.offset_x = max;
        }
    }
}

fn max_offset_for(item_count: u64, visible_items: u64, step_px: u64) -> (r: u64)
    requires
        item_count * step_px <= u64::MAX,
    ensures
        r == max_offset_of(item_count as int, visible_items as int, step_px as int),
{
    if item_count > visible_items {
        proof {
            lemma_mul_diff(item_count as int, visible_items as int, step_px as int);
        }
        (item_count - visible_items) * step_px
    } else {
        proof {
            lemma_mul_mono(item_count as int, visible_items as int, step_px as int);
        }
        0
    }
}

proof fn lemma_mul_diff(a: int, b: int, s: int)
    requires
        a > b >= 0,
        s >= 0,
    ensures
        (a - b) * s == a * s - b * s,
        (a - b) * s <= a * s,
        max_offset_of(a, b, s) == (a - b) * s,
{
    assert((a - b) * s == a * s - b * s) by (nonlinear_arith);
    assert(b * s >= 0) by (nonlinear_arith)
        requires
            b >= 0,
            s >= 0,
    ;
    if s == 0 {
        assert(a * s == 0 && b * s == 0) by (nonlinear_arith)
            requires
                s == 0,
        ;
    } else {
        assert(a * s > b * s) by (nonlinear_arith)
            requires
                a > b,
                s > 0,
        ;
    }
}

proof fn lemma_mul_mono(a: int, b: int, s: int)
    requires
        0 <= a <= b,
        s >= 0,
    ensures
        max_offset_of(a, b, s) == 0,
{
    assert(a * s <= b * s) by (nonlinear_arith)
        requires
            a <= b,
            s >= 0,
    ;
}

/// A section whose entries all fit in the viewport never offers to scroll
/// right, whatever its position.
pub proof fn lemma_fitting_section_never_scrolls_right(n: SectionNavigator)
    requires
        n.item_count <= n.visible_items,
    ensures
        !n.spec_can_scroll_right(),
{
}

/// At the start of a section there is nothing to step back to, so
/// `step_left` leaves the state as it is.
pub proof fn lemma_step_left_at_start_is_noop(n: SectionNavigator)
    requires
        n.wf(),
        n.offset_x == 0,
    ensures
        !n.spec_can_scroll_left(),
{
}

/// A titled, horizontally scrolled group of catalog entries.
#[derive(Debug)]
pub struct Section {
    pub title: String,
    pub contents: Vec<HomeContent>,
}

impl Section {
    /// The renderable form of each entry, in order.
    pub fn items(&self) -> (r: Vec<SongInfo>)
        ensures
            r@.len() == self.contents@.len(),
            forall|i: int| 0 <= i < r@.len() ==> normalizes_to(self.contents@[i], #[trigger] r@[i]),
    {
        let mut r: Vec<SongInfo> = Vec::new();
        let mut i: usize = 0;
        while i < self.contents.len()
            invariant
                i <= self.contents@.len(),
                r@.len() == i,
                forall|j: int| 0 <= j < i ==> normalizes_to(self.contents@[j], #[trigger] r@[j]),
            decreases self.contents@.len() - i,
        {
            r.push(normalize(&self.contents[i]));
            i = i + 1;
        }
        r
    }

    /// A navigator at the start of this section, with the standard step and
    /// viewport estimate.
    pub fn navigator(&self) -> (r: SectionNavigator)
        requires
            self.contents@.len() * SCROLL_STEP_PX <= u64::MAX,
        ensures
            r.wf(),
            r.offset_x == 0,
            r.item_count == self.contents@.len(),
            r.visible_items == VISIBLE_ITEMS,
            r.step_px == SCROLL_STEP_PX,
    {
        SectionNavigator::new(self.contents.len() as u64, VISIBLE_ITEMS, SCROLL_STEP_PX)
    }
}

} // verus!
