//! Layout modes and the pane registry.
//!
//! A layout mode partitions a bounding rectangle into an ordered list of
//! panes. The pane registry remembers the current mode, which session each
//! pane slot shows and which slot has the focus.

use ratatui::layout::{Constraint, Layout};
use vstd::prelude::*;

verus! {

/// A rectangle of terminal cells.
#[derive(Debug, Clone, Copy, PartialEq, Eq, Structural)]
pub struct Rect {
    pub x: u16,
    pub y: u16,
    pub width: u16,
    pub height: u16,
}

impl Rect {
    /// Whether the cell at column `x`, row `y` lies inside the rectangle.
    pub open spec fn contains(self, x: u16, y: u16) -> bool {
        &&& self.x <= x
        &&& x < self.x + self.width
        &&& self.y <= y
        &&& y < self.y + self.height
    }

    /// A rectangle from its corner and its size.
    pub fn new(x: u16, y: u16, width: u16, height: u16) -> (r: Rect)
        ensures
            r == (Rect { x, y, width, height }),
    {
        Rect { x, y, width, height }
    }

    /// `self` spans the full width of `outer`: it is a horizontal band of it.
    pub open spec fn is_band_of(self, outer: Rect) -> bool {
        self.x == outer.x && self.width == outer.width
    }

    /// `self` spans the full height of `outer`: it is a vertical strip of it.
    pub open spec fn is_strip_of(self, outer: Rect) -> bool {
        self.y == outer.y && self.height == outer.height
    }

    /// The right and the bottom edge of the rectangle can be written as
    /// coordinates.
    pub open spec fn fits(self) -> bool {
        self.x + self.width <= u16::MAX && self.y + self.height <= u16::MAX
    }
}

/// The length of a stretch that starts at `start` and is `size` long, as far
/// as coordinates reach: what lies beyond the largest coordinate is cut off.
pub open spec fn reach(start: u16, size: u16) -> int {
    if start + size > u16::MAX {
        u16::MAX - start
    } else {
        size as int
    }
}

/// The length of the first of the two halves of a stretch of length `len`:
/// the first half takes the odd cell.
pub open spec fn first_half(len: int) -> int {
    (len + 1) / 2
}

impl Default for Rect {
    fn default() -> (r: Rect)
        ensures
            r == (Rect { x: 0, y: 0, width: 0, height: 0 }),
    {
        Rect { x: 0, y: 0, width: 0, height: 0 }
    }
}

/// The axis along which an area is cut.
#[derive(Debug, Clone, Copy, PartialEq, Eq, Structural)]
pub enum Direction {
    /// Pieces lie side by side.
    Horizontal,
    /// Pieces are stacked from top to bottom.
    Vertical,
}

/// What always holds of a piece cut from `outer` along `direction`: the
/// coordinates across the cut are those of `outer`.
pub open spec fn cut_from(piece: Rect, outer: Rect, direction: Direction) -> bool {
    match direction {
        Direction::Horizontal => piece.is_strip_of(outer),
        Direction::Vertical => piece.is_band_of(outer),
    }
}

/// The two halves of `area`, cut along `direction`.
///
/// The first half starts where `area` starts, the second half starts where
/// the first one ends, and together they are as long as `area` reaches. The
/// first half takes the odd cell. Across the cut both have the coordinates
/// of `area`.
pub open spec fn halves(area: Rect, direction: Direction) -> Seq<Rect> {
    match direction {
        Direction::Horizontal => {
            let len = reach(area.x, area.width);
            seq![
                Rect { width: first_half(len) as u16, ..area },
                Rect {
                    x: (area.x + first_half(len)) as u16,
                    width: (len - first_half(len)) as u16,
                    ..area
                },
            ]
        },
        Direction::Vertical => {
            let len = reach(area.y, area.height);
            seq![
                Rect { height: first_half(len) as u16, ..area },
                Rect {
                    y: (area.y + first_half(len)) as u16,
                    height: (len - first_half(len)) as u16,
                    ..area
                },
            ]
        },
    }
}

/// Cuts `area` in two along `direction`, the pieces sized by the two
/// percentages.
///
/// Calls `ratatui::layout::Layout::split` on a default layout (no margin,
/// no spacing, pieces packed from the start) with two
/// `Constraint::Percentage` constraints. Two things are claimed.
///
/// For any percentages: there is one rectangle per constraint, each with
/// the untouched coordinates of `area` across the cut. That is what the
/// conversion of the solver's answer into rectangles shows.
///
/// For 50 and 50: the pieces are `halves(area, direction)`. ratatui hands
/// the solver these wishes, in falling strength: the first piece starts
/// where the area starts; the second piece starts where the first ends;
/// each piece is half as long as the area, which ends at `x + width` (or
/// `y + height`), cut off at the largest coordinate; the space left behind
/// the pieces is as large as can be. The first three can hold together, in
/// one way only, and they outweigh the last. So the solver's answer is the
/// cut in the exact middle with nothing left behind, whatever the order in
/// which it walks its tables. The middle of an odd length lies on half a
/// cell and is rounded away from the start, which gives the first piece
/// the odd cell.
#[verifier::external_body]
fn split_by_percentages(area: Rect, direction: Direction, first: u16, second: u16) -> (parts: Vec<
    Rect,
>)
    requires
        first <= 100,
        second <= 100,
    ensures
        parts@.len() == 2,
        cut_from(parts@[0], area, direction),
        cut_from(parts@[1], area, direction),
        first == 50 && second == 50 ==> parts@ == halves(area, direction),
{
    let direction = match direction {
        Direction::Horizontal => ratatui::layout::Direction::Horizontal,
        Direction::Vertical => ratatui::layout::Direction::Vertical,
    };
    let area = ratatui::layout::Rect { x: area.x, y: area.y, width: area.width, height: area.height };
    let constraints = [Constraint::Percentage(first), Constraint::Percentage(second)];
    let chunks = Layout::default().direction(direction).constraints(constraints).split(area);
    chunks.iter().map(|r| Rect { x: r.x, y: r.y, width: r.width, height: r.height }).collect()
}

/// The ways in which the screen can be partitioned into panes.
#[derive(Debug, Clone, Copy, PartialEq, Eq, Structural)]
pub enum LayoutMode {
    /// One pane.
    Single,
    /// Two panes, stacked.
    SplitHorizontal,
    /// Two panes, side by side.
    SplitVertical,
    /// Four panes in two rows of two.
    Grid2x2,
    /// Three panes: one full-width pane on top, two below.
    Grid1x2,
    /// Three panes: one full-height pane on the left, two on the right.
    Grid2x1,
}

/// Number of layout modes in the catalogue.
pub const LAYOUT_MODE_COUNT: usize = 6;

impl LayoutMode {
    /// Position of the mode in the catalogue.
    pub open spec fn index_spec(self) -> nat {
        match self {
            LayoutMode::Single => 0,
            LayoutMode::SplitHorizontal => 1,
            LayoutMode::SplitVertical => 2,
            LayoutMode::Grid2x2 => 3,
            LayoutMode::Grid1x2 => 4,
            LayoutMode::Grid2x1 => 5,
        }
    }

    /// The mode at position `i % 6` of the catalogue.
    pub open spec fn at(i: nat) -> LayoutMode {
        let k = i % 6;
        if k == 0 {
            LayoutMode::Single
        } else if k == 1 {
            LayoutMode::SplitHorizontal
        } else if k == 2 {
            LayoutMode::SplitVertical
        } else if k == 3 {
            LayoutMode::Grid2x2
        } else if k == 4 {
            LayoutMode::Grid1x2
        } else {
            LayoutMode::Grid2x1
        }
    }

    /// The catalogue, in its fixed order.
    pub open spec fn catalogue() -> Seq<LayoutMode> {
        Seq::new(6, |i: int| LayoutMode::at(i as nat))
    }

    /// Number of panes of the mode.
    pub open spec fn max_panes_spec(self) -> nat {
        match self {
            LayoutMode::Single => 1,
            LayoutMode::SplitHorizontal | LayoutMode::SplitVertical => 2,
            LayoutMode::Grid1x2 | LayoutMode::Grid2x1 => 3,
            LayoutMode::Grid2x2 => 4,
        }
    }

    /// Successor in the cyclic catalogue order.
    pub open spec fn next_spec(&self) -> LayoutMode {
        LayoutMode::at(self.index_spec() + 1)
    }

    /// Predecessor in the cyclic catalogue order.
    pub open spec fn prev_spec(&self) -> LayoutMode {
        LayoutMode::at(self.index_spec() + 5)
    }

    /// Display name of the mode.
    pub open spec fn name_spec(self) -> Seq<char> {
        match self {
            LayoutMode::Single => "Single"@,
            LayoutMode::SplitHorizontal => "Split Horizontal"@,
            LayoutMode::SplitVertical => "Split Vertical"@,
            LayoutMode::Grid2x2 => "Grid 2×2"@,
            LayoutMode::Grid1x2 => "Grid 1×2"@,
            LayoutMode::Grid2x1 => "Grid 2×1"@,
        }
    }

    /// The panes of the mode inside `area`, in their order.
    ///
    /// The single pane is `area` itself. A horizontal split stacks the two
    /// halves of `area`, a vertical split puts them side by side. The 2×2
    /// grid cuts `area` into an upper and a lower half and each of them into
    /// a left and a right half: upper left, upper right, lower left, lower
    /// right. The 1×2 grid keeps the upper half whole and cuts the lower
    /// one; the 2×1 grid keeps the left half whole and cuts the right one
    /// into an upper and a lower half.
    pub open spec fn areas(self, area: Rect) -> Seq<Rect> {
        let rows = halves(area, Direction::Vertical);
        let cols = halves(area, Direction::Horizontal);
        match self {
            LayoutMode::Single => seq![area],
            LayoutMode::SplitHorizontal => rows,
            LayoutMode::SplitVertical => cols,
            LayoutMode::Grid2x2 => halves(rows[0], Direction::Horizontal) + halves(
                rows[1],
                Direction::Horizontal,
            ),
            LayoutMode::Grid1x2 => seq![rows[0]] + halves(rows[1], Direction::Horizontal),
            LayoutMode::Grid2x1 => seq![cols[0]] + halves(cols[1], Direction::Vertical),
        }
    }

    /// Position of the mode in the catalogue.
    pub fn index(self) -> (i: usize)
        ensures
            i == self.index_spec(),
            i < LAYOUT_MODE_COUNT,
    {
        match self {
            LayoutMode::Single => 0,
            LayoutMode::SplitHorizontal => 1,
            LayoutMode::SplitVertical => 2,
            LayoutMode::Grid2x2 => 3,
            LayoutMode::Grid1x2 => 4,
            LayoutMode::Grid2x1 => 5,
        }
    }

    /// The mode at position `i` of the catalogue, taken cyclically.
    pub fn from_index(i: usize) -> (mode: LayoutMode)
        ensures
            mode == LayoutMode::at(i as nat),
            mode.index_spec() == i % 6,
    {
        let k: usize = i % LAYOUT_MODE_COUNT;
        if k == 0 {
            LayoutMode::Single
        } else if k == 1 {
            LayoutMode::SplitHorizontal
        } else if k == 2 {
            LayoutMode::SplitVertical
        } else if k == 3 {
            LayoutMode::Grid2x2
        } else if k == 4 {
            LayoutMode::Grid1x2
        } else {
            LayoutMode::Grid2x1
        }
    }

    /// All layout modes, in catalogue order.
    pub fn all() -> (modes: Vec<LayoutMode>)
        ensures
            modes@ == LayoutMode::catalogue(),
            modes@.len() == 6,
            forall|i: int| 0 <= i < 6 ==> (#[trigger] modes@[i]).index_spec() == i,
    {
        let mut modes: Vec<LayoutMode> = Vec::new();
        let mut i: usize = 0;
        while i < LAYOUT_MODE_COUNT
            invariant
                i <= 6,
                modes@.len() == i,
                forall|j: int| 0 <= j < i ==> #[trigger] modes@[j] == LayoutMode::at(j as nat),
            decreases 6 - i,
        {
            modes.push(LayoutMode::from_index(i));
            i += 1;
        }
        assert(modes@ =~= LayoutMode::catalogue());
        modes
    }

    /// Display name of the mode.
    pub fn name(&self) -> (r: &'static str)
        ensures
            r@ == self.name_spec(),
    {
        match self {
            LayoutMode::Single => "Single",
            LayoutMode::SplitHorizontal => "Split Horizontal",
            LayoutMode::SplitVertical => "Split Vertical",
            LayoutMode::Grid2x2 => "Grid 2×2",
            LayoutMode::Grid1x2 => "Grid 1×2",
            LayoutMode::Grid2x1 => "Grid 2×1",
        }
    }

    /// Number of panes of the mode.
    pub fn max_panes(&self) -> (n: usize)
        ensures
            n == self.max_panes_spec(),
            1 <= n <= 4,
    {
        match self {
            LayoutMode::Single => 1,
            LayoutMode::SplitHorizontal | LayoutMode::SplitVertical => 2,
            LayoutMode::Grid1x2 | LayoutMode::Grid2x1 => 3,
            LayoutMode::Grid2x2 => 4,
        }
    }

    /// The next mode in the cycle.
    #[verifier::when_used_as_spec(next_spec)]
    pub fn next(&self) -> (mode: LayoutMode)
        ensures
            mode == self.next_spec(),
            mode.index_spec() == (self.index_spec() + 1) % 6,
    {
        LayoutMode::from_index(self.index() + 1)
    }

    /// The previous mode in the cycle.
    #[verifier::when_used_as_spec(prev_spec)]
    pub fn prev(&self) -> (mode: LayoutMode)
        ensures
            mode == self.prev_spec(),
            mode.index_spec() == (self.index_spec() + 5) % 6,
    {
        LayoutMode::from_index(self.index() + LAYOUT_MODE_COUNT - 1)
    }

    /// The panes of the mode inside `area`, in their fixed order.
    ///
    /// Every cut is a bisection by two 50% constraints; grids cut a half
    /// again along the other axis.
    pub fn calculate_areas(&self, area: Rect) -> (panes: Vec<Rect>)
        ensures
            panes@ == self.areas(area),
            panes@.len() == self.max_panes_spec(),
    {
        let mut panes: Vec<Rect> = Vec::new();
        match self {
            LayoutMode::Single => {
                panes.push(area);
            },
            LayoutMode::SplitHorizontal => {
                let rows = split_by_percentages(area, Direction::Vertical, 50, 50);
                panes.push(rows[0]);
                panes.push(rows[1]);
            },
            LayoutMode::SplitVertical => {
                let cols = split_by_percentages(area, Direction::Horizontal, 50, 50);
                panes.push(cols[0]);
                panes.push(cols[1]);
            },
            LayoutMode::Grid2x2 => {
                let rows = split_by_percentages(area, Direction::Vertical, 50, 50);
                let top_cols = split_by_percentages(rows[0], Direction::Horizontal, 50, 50);
                let bottom_cols = split_by_percentages(rows[1], Direction::Horizontal, 50, 50);
                panes.push(top_cols[0]);
                panes.push(top_cols[1]);
                panes.push(bottom_cols[0]);
                panes.push(bottom_cols[1]);
            },
            LayoutMode::Grid1x2 => {
                let rows = split_by_percentages(area, Direction::Vertical, 50, 50);
                let bottom_cols = split_by_percentages(rows[1], Direction::Horizontal, 50, 50);
                panes.push(rows[0]);
                panes.push(bottom_cols[0]);
                panes.push(bottom_cols[1]);
            },
            LayoutMode::Grid2x1 => {
                let cols = split_by_percentages(area, Direction::Horizontal, 50, 50);
                let right_rows = split_by_percentages(cols[1], Direction::Vertical, 50, 50);
                panes.push(cols[0]);
                panes.push(right_rows[0]);
                panes.push(right_rows[1]);
            },
        }
        assert(panes@ =~= self.areas(area));
        panes
    }
}

/// The two halves of an area that fits lie one behind the other and fill
/// it: the first starts where the area starts, the second where the first
/// ends, and the second ends where the area ends. Neither is longer than
/// the other by more than the odd cell, which the first one takes.
pub proof fn lemma_halves_fill(area: Rect, direction: Direction)
    requires
        area.fits(),
    ensures
        halves(area, direction).len() == 2,
        cut_from(halves(area, direction)[0], area, direction),
        cut_from(halves(area, direction)[1], area, direction),
        halves(area, direction)[0].fits(),
        halves(area, direction)[1].fits(),
        direction == Direction::Horizontal ==> {
            let parts = halves(area, direction);
            &&& parts[0].x == area.x
            &&& parts[1].x == parts[0].x + parts[0].width
            &&& parts[0].width + parts[1].width == area.width
            &&& parts[1].width <= parts[0].width <= parts[1].width + 1
        },
        direction == Direction::Vertical ==> {
            let parts = halves(area, direction);
            &&& parts[0].y == area.y
            &&& parts[1].y == parts[0].y + parts[0].height
            &&& parts[0].height + parts[1].height == area.height
            &&& parts[1].height <= parts[0].height <= parts[1].height + 1
        },
{
}

/// The panes of every layout mode tile an area that fits: a horizontal
/// split stacks two bands that fill the area, a vertical split puts two
/// strips side by side, and a grid cuts the second half (or, for the 2×2
/// grid, both halves) again along the other axis.
pub proof fn lemma_panes_tile(mode: LayoutMode, area: Rect)
    requires
        area.fits(),
    ensures
        mode.areas(area).len() == mode.max_panes_spec(),
        forall|i: int| 0 <= i < mode.areas(area).len() ==> (#[trigger] mode.areas(area)[i]).fits(),
        mode == LayoutMode::Single ==> mode.areas(area)[0] == area,
        mode == LayoutMode::SplitHorizontal ==> {
            let panes = mode.areas(area);
            &&& panes[0].is_band_of(area) && panes[1].is_band_of(area)
            &&& panes[0].y == area.y
            &&& panes[1].y == panes[0].y + panes[0].height
            &&& panes[0].height + panes[1].height == area.height
        },
        mode == LayoutMode::SplitVertical ==> {
            let panes = mode.areas(area);
            &&& panes[0].is_strip_of(area) && panes[1].is_strip_of(area)
            &&& panes[0].x == area.x
            &&& panes[1].x == panes[0].x + panes[0].width
            &&& panes[0].width + panes[1].width == area.width
        },
        mode == LayoutMode::Grid2x2 ==> {
            let panes = mode.areas(area);
            // Two rows that fill the area from top to bottom.
            &&& panes[0].y == area.y && panes[1].y == area.y
            &&& panes[0].height == panes[1].height
            &&& panes[2].y == area.y + panes[0].height && panes[3].y == panes[2].y
            &&& panes[2].height == panes[3].height
            &&& panes[0].height + panes[2].height == area.height
            // Each row is filled from left to right.
            &&& panes[0].x == area.x && panes[1].x == panes[0].x + panes[0].width
            &&& panes[0].width + panes[1].width == area.width
            &&& panes[2].x == area.x && panes[3].x == panes[2].x + panes[2].width
            &&& panes[2].width + panes[3].width == area.width
        },
        mode == LayoutMode::Grid1x2 ==> {
            let panes = mode.areas(area);
            // One band on top.
            &&& panes[0].is_band_of(area) && panes[0].y == area.y
            // The band below it, filled from left to right.
            &&& panes[1].y == area.y + panes[0].height && panes[2].y == panes[1].y
            &&& panes[1].height == panes[2].height
            &&& panes[0].height + panes[1].height == area.height
            &&& panes[1].x == area.x && panes[2].x == panes[1].x + panes[1].width
            &&& panes[1].width + panes[2].width == area.width
        },
        mode == LayoutMode::Grid2x1 ==> {
            let panes = mode.areas(area);
            // One strip on the left.
            &&& panes[0].is_strip_of(area) && panes[0].x == area.x
            // The strip to its right, filled from top to bottom.
            &&& panes[1].x == area.x + panes[0].width && panes[2].x == panes[1].x
            &&& panes[1].width == panes[2].width
            &&& panes[0].width + panes[1].width == area.width
            &&& panes[1].y == area.y && panes[2].y == panes[1].y + panes[1].height
            &&& panes[1].height + panes[2].height == area.height
        },
{
    lemma_halves_fill(area, Direction::Vertical);
    lemma_halves_fill(area, Direction::Horizontal);
    let rows = halves(area, Direction::Vertical);
    let cols = halves(area, Direction::Horizontal);
    lemma_halves_fill(rows[0], Direction::Horizontal);
    lemma_halves_fill(rows[1], Direction::Horizontal);
    lemma_halves_fill(cols[1], Direction::Vertical);
}

/// The state of a pane registry, as plain values.
pub struct PaneView {
    /// Current layout mode.
    pub layout_mode: LayoutMode,
    /// For each pane slot, the index of the session it shows.
    pub pane_to_session: Seq<usize>,
    /// The pane slot that receives keyboard input.
    pub focused_pane: usize,
}

impl PaneView {
    /// The registry has exactly the panes of its layout mode, and the focus
    /// is on one of them.
    pub open spec fn wf(self) -> bool {
        &&& self.pane_to_session.len() == self.layout_mode.max_panes_spec()
        &&& self.focused_pane < self.pane_to_session.len()
    }

    /// The registry after the layout mode became `mode`.
    ///
    /// Slots that exist in both keep their session. A new slot `i` shows
    /// session `i`. Slots beyond the new pane count are dropped, and a focus
    /// that fell off the end moves to the last pane.
    pub open spec fn with_layout(self, mode: LayoutMode) -> PaneView {
        let n = mode.max_panes_spec();
        PaneView {
            layout_mode: mode,
            pane_to_session: Seq::new(
                n,
                |i: int|
                    if i < self.pane_to_session.len() {
                        self.pane_to_session[i]
                    } else {
                        i as usize
                    },
            ),
            focused_pane: if self.focused_pane >= n {
                (n - 1) as usize
            } else {
                self.focused_pane
            },
        }
    }

    /// Every pane shows a session below `session_count`.
    pub open spec fn sessions_below(self, session_count: nat) -> bool {
        forall|p: int|
            0 <= p < self.pane_to_session.len() ==> (#[trigger] self.pane_to_session[p])
                < session_count
    }
}

/// Tracks the visible panes, the session each one shows and the focus.
pub struct PaneManager {
    layout_mode: LayoutMode,
    pane_to_session: Vec<usize>,
    focused_pane: usize,
}

impl View for PaneManager {
    type V = PaneView;

    closed spec fn view(&self) -> PaneView {
        PaneView {
            layout_mode: self.layout_mode,
            pane_to_session: self.pane_to_session@,
            focused_pane: self.focused_pane,
        }
    }
}

impl PaneManager {
    /// The registry is well formed: see [`PaneView::wf`].
    pub open spec fn wf(&self) -> bool {
        self@.wf()
    }

    /// A registry with the single layout, whose one pane shows session 0.
    pub fn new() -> (r: PaneManager)
        ensures
            r@ == (PaneView {
                layout_mode: LayoutMode::Single,
                pane_to_session: seq![0usize],
                focused_pane: 0,
            }),
            r.wf(),
    {
        let mut pane_to_session: Vec<usize> = Vec::new();
        pane_to_session.push(0);
        assert(pane_to_session@ =~= seq![0usize]);
        PaneManager { layout_mode: LayoutMode::Single, pane_to_session, focused_pane: 0 }
    }

    /// The current layout mode.
    pub fn layout_mode(&self) -> (mode: LayoutMode)
        ensures
            mode == self@.layout_mode,
    {
        self.layout_mode
    }

    /// Whether every pane shows a session below `session_count`.
    pub fn shows_sessions_below(&self, session_count: usize) -> (r: bool)
        ensures
            r == self@.sessions_below(session_count as nat),
    {
        let mut p: usize = 0;
        while p < self.pane_to_session.len()
            invariant
                p <= self.pane_to_session@.len(),
                forall|q: int| 0 <= q < p ==> (#[trigger] self.pane_to_session@[q]) < session_count,
            decreases self.pane_to_session@.len() - p,
        {
            if self.pane_to_session[p] >= session_count {
                assert(self@.pane_to_session[p as int] >= session_count);
                return false;
            }
            p += 1;
        }
        true
    }

    /// Whether the registry is well formed. It always is: no method lets it
    /// be otherwise.
    pub fn is_valid(&self) -> (r: bool)
        ensures
            r == self.wf(),
    {
        self.pane_to_session.len() == self.layout_mode.max_panes() && self.focused_pane
            < self.pane_to_session.len()
    }

    /// Changes the layout mode and fits the panes to it.
    pub fn set_layout_mode(&mut self, mode: LayoutMode)
        ensures
            final(self)@ == old(self)@.with_layout(mode),
            final(self).wf(),
    {
        self.layout_mode = mode;
        self.adjust_panes();
    }

    /// Moves to the next layout mode and fits the panes to it.
    pub fn next_layout(&mut self)
        ensures
            final(self)@ == old(self)@.with_layout(old(self)@.layout_mode.next_spec()),
            final(self).wf(),
    {
        self.layout_mode = self.layout_mode.next();
        self.adjust_panes();
    }

    /// Moves to the previous layout mode and fits the panes to it.
    pub fn prev_layout(&mut self)
        ensures
            final(self)@ == old(self)@.with_layout(old(self)@.layout_mode.prev_spec()),
            final(self).wf(),
    {
        self.layout_mode = self.layout_mode.prev();
        self.adjust_panes();
    }

    /// Number of visible panes.
    pub fn pane_count(&self) -> (n: usize)
        ensures
            n == self@.pane_to_session.len(),
    {
        self.pane_to_session.len()
    }

    /// Index of the focused pane.
    pub fn focused_pane(&self) -> (p: usize)
        ensures
            p == self@.focused_pane,
    {
        self.focused_pane
    }

    /// The session shown in pane `pane_index`, if there is such a pane.
    pub fn session_for_pane(&self, pane_index: usize) -> (r: Option<usize>)
        ensures
            r == if pane_index < self@.pane_to_session.len() {
                Some(self@.pane_to_session[pane_index as int])
            } else {
                None
            },
    {
        if pane_index < self.pane_to_session.len() {
            Some(self.pane_to_session[pane_index])
        } else {
            None
        }
    }

    /// The session of every pane, in pane order.
    pub fn pane_mappings(&self) -> (r: &[usize])
        ensures
            r@ == self@.pane_to_session,
    {
        self.pane_to_session.as_slice()
    }

    /// Shows session `session_index` in pane `pane_index`. Does nothing if
    /// there is no such pane.
    pub fn set_pane_session(&mut self, pane_index: usize, session_index: usize)
        ensures
            final(self)@ == if pane_index < old(self)@.pane_to_session.len() {
                PaneView {
                    pane_to_session: old(self)@.pane_to_session.update(
                        pane_index as int,
                        session_index,
                    ),
                    ..old(self)@
                }
            } else {
                old(self)@
            },
            old(self).wf() ==> final(self).wf(),
    {
        if pane_index < self.pane_to_session.len() {
            self.pane_to_session[pane_index] = session_index;
        }
    }

    /// Moves the focus to the next pane, wrapping around.
    pub fn focus_next_pane(&mut self)
        requires
            old(self).wf(),
        ensures
            final(self)@ == (PaneView {
                focused_pane: ((old(self)@.focused_pane + 1) % (
                old(self)@.pane_to_session.len() as int)) as usize,
                ..old(self)@
            }),
            final(self).wf(),
    {
        if self.pane_to_session.len() > 0 {
            self.focused_pane = (self.focused_pane + 1) % self.pane_to_session.len();
        }
    }

    /// Moves the focus to the previous pane, wrapping around.
    pub fn focus_prev_pane(&mut self)
        requires
            old(self).wf(),
        ensures
            final(self)@ == (PaneView {
                focused_pane: if old(self)@.focused_pane == 0 {
                    (old(self)@.pane_to_session.len() - 1) as usize
                } else {
                    (old(self)@.focused_pane - 1) as usize
                },
                ..old(self)@
            }),
            final(self).wf(),
    {
        if self.pane_to_session.len() > 0 {
            if self.focused_pane == 0 {
                self.focused_pane = self.pane_to_session.len() - 1;
            } else {
                self.focused_pane -= 1;
            }
        }
    }

    /// Focuses pane `pane_index`. Refused, with no change, if there is no
    /// such pane.
    pub fn focus_pane(&mut self, pane_index: usize) -> (ok: bool)
        ensures
            ok == (pane_index < old(self)@.pane_to_session.len()),
            ok ==> final(self)@ == (PaneView { focused_pane: pane_index, ..old(self)@ }),
            !ok ==> final(self)@ == old(self)@,
            old(self).wf() ==> final(self).wf(),
    {
        if pane_index < self.pane_to_session.len() {
            self.focused_pane = pane_index;
            true
        } else {
            false
        }
    }

    /// Whether pane `pane_index` has the focus.
    pub fn is_pane_focused(&self, pane_index: usize) -> (r: bool)
        ensures
            r == (self@.focused_pane == pane_index),
    {
        self.focused_pane == pane_index
    }

    /// Fits the pane slots and the focus to the current layout mode.
    fn adjust_panes(&mut self)
        ensures
            final(self)@ == old(self)@.with_layout(old(self)@.layout_mode),
            final(self).wf(),
    {
        let max_panes = self.layout_mode.max_panes();
        let current_panes = self.pane_to_session.len();
        let ghost before = self@;

        if max_panes > current_panes {
            let mut i: usize = current_panes;
            while i < max_panes
                invariant
                    current_panes <= i <= max_panes,
                    self.layout_mode == before.layout_mode,
                    self.focused_pane == before.focused_pane,
                    self.pane_to_session@.len() == i,
                    forall|j: int|
                        0 <= j < current_panes ==> #[trigger] self.pane_to_session@[j]
                            == before.pane_to_session[j],
                    forall|j: int|
                        current_panes <= j < i ==> #[trigger] self.pane_to_session@[j] == j,
                decreases max_panes - i,
            {
                self.pane_to_session.push(i);
                i += 1;
            }
        } else if max_panes < current_panes {
            self.pane_to_session.truncate(max_panes);
        }
        assert(self.pane_to_session@ =~= before.with_layout(before.layout_mode).pane_to_session);

        if self.focused_pane >= self.pane_to_session.len() {
            self.focused_pane = self.pane_to_session.len() - 1;
        }
    }

    /// Shows the next session in the focused pane, counting modulo
    /// `total_sessions`. Does nothing if `total_sessions` is zero.
    pub fn cycle_focused_session(&mut self, total_sessions: usize)
        requires
            old(self).wf(),
        ensures
            final(self)@ == if total_sessions == 0 {
                old(self)@
            } else {
                PaneView {
                    pane_to_session: old(self)@.pane_to_session.update(
                        old(self)@.focused_pane as int,
                        ((old(self)@.pane_to_session[old(self)@.focused_pane as int] + 1) % (
                        total_sessions as int)) as usize,
                    ),
                    ..old(self)@
                }
            },
            final(self).wf(),
    {
        if total_sessions == 0 {
            return ;
        }
        if self.focused_pane < self.pane_to_session.len() {
            let current = self.pane_to_session[self.focused_pane];
            assert((current + 1) % (total_sessions as int) == ((current % total_sessions) + 1) % (
            total_sessions as int)) by (nonlinear_arith)
                requires
                    total_sessions > 0,
                    current >= 0,
            ;
            self.pane_to_session[self.focused_pane] = (current % total_sessions + 1)
                % total_sessions;
        }
    }

    /// Shows the previous session in the focused pane: the last one after
    /// session 0. Does nothing if `total_sessions` is zero.
    pub fn cycle_focused_session_prev(&mut self, total_sessions: usize)
        requires
            old(self).wf(),
        ensures
            final(self)@ == if total_sessions == 0 {
                old(self)@
            } else {
                PaneView {
                    pane_to_session: old(self)@.pane_to_session.update(
                        old(self)@.focused_pane as int,
                        if old(self)@.pane_to_session[old(self)@.focused_pane as int] == 0 {
                            (total_sessions - 1) as usize
                        } else {
                            (old(self)@.pane_to_session[old(self)@.focused_pane as int]
                                - 1) as usize
                        },
                    ),
                    ..old(self)@
                }
            },
            final(self).wf(),
    {
        if total_sessions == 0 {
            return ;
        }
        if self.focused_pane < self.pane_to_session.len() {
            let current = self.pane_to_session[self.focused_pane];
            if current == 0 {
                self.pane_to_session[self.focused_pane] = total_sessions - 1;
            } else {
                self.pane_to_session[self.focused_pane] = current - 1;
            }
        }
    }

    /// The session shown in the focused pane.
    pub fn focused_session(&self) -> (r: Option<usize>)
        ensures
            r == if self@.focused_pane < self@.pane_to_session.len() {
                Some(self@.pane_to_session[self@.focused_pane as int])
            } else {
                None
            },
            self.wf() ==> r is Some,
    {
        self.session_for_pane(self.focused_pane)
    }

    /// The panes of the current layout mode inside `area`.
    pub fn calculate_areas(&self, area: Rect) -> (panes: Vec<Rect>)
        ensures
            panes@ == self@.layout_mode.areas(area),
            panes@.len() == self@.layout_mode.max_panes_spec(),
    {
        self.layout_mode.calculate_areas(area)
    }

    /// Makes every pane `i` show session `i`.
    pub fn reset_mappings(&mut self)
        ensures
            final(self)@ == (PaneView {
                pane_to_session: Seq::new(
                    old(self)@.pane_to_session.len(),
                    |i: int| i as usize,
                ),
                ..old(self)@
            }),
            old(self).wf() ==> final(self).wf(),
    {
        let n = self.pane_to_session.len();
        let mut i: usize = 0;
        while i < n
            invariant
                i <= n,
                self.pane_to_session@.len() == n,
                self.layout_mode == old(self).layout_mode,
                self.focused_pane == old(self).focused_pane,
                forall|j: int| 0 <= j < i ==> #[trigger] self.pane_to_session@[j] == j,
            decreases n - i,
        {
            self.pane_to_session[i] = i;
            i += 1;
        }
        assert(self.pane_to_session@ =~= Seq::new(n as nat, |i: int| i as usize));
    }
}

impl Default for PaneManager {
    fn default() -> (r: PaneManager)
        ensures
            r@ == (PaneView {
                layout_mode: LayoutMode::Single,
                pane_to_session: seq![0usize],
                focused_pane: 0,
            }),
            r.wf(),
    {
        PaneManager::new()
    }
}

/// The two laws of the layout cycle: `prev` undoes `next` and `next` undoes
/// `prev`, for every mode.
pub proof fn lemma_layout_cycle_inverse(mode: LayoutMode)
    ensures
        mode.next_spec().prev_spec() == mode,
        mode.prev_spec().next_spec() == mode,
{
}

} // verus!
