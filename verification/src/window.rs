//! Window records, frames and buffers, and the classification and
//! geometry queries that read a single window.

use vstd::prelude::*;

use crate::geometry::{pixels_to_units, units_ceiling, units_floor, Rounding};
use crate::params::{assq_get, assq_set, spec_lookup, spec_set_param};
use crate::values::{
    CombinationLimit, Dedication, LispObject, COORD_LIMIT, HSCROLL_LIMIT, POS_LIMIT, SYM_HEADER_LINE_FORMAT,
    SYM_MODE_LINE_FORMAT, SYM_NONE, USE_TIME_LIMIT,
};

verus! {

/// The fields a window record keeps when only its contents slot or
/// its placement (geometry and tree links) changes: the parameter
/// list, dedication, display table, scroll and marker state, buffer
/// history, staged sizes, classification flags and the redisplay
/// bookkeeping.
#[verifier::opaque]
pub open spec fn same_payload(a: LispWindowRef, b: LispWindowRef) -> bool {
    &&& a.frame == b.frame
    &&& a.horizontal == b.horizontal
    &&& a.combination_limit == b.combination_limit
    &&& a.mode_line_height == b.mode_line_height
    &&& a.params == b.params
    &&& a.dedicated == b.dedicated
    &&& a.display_table == b.display_table
    &&& a.hscroll == b.hscroll
    &&& a.min_hscroll == b.min_hscroll
    &&& a.suspend_auto_hscroll == b.suspend_auto_hscroll
    &&& a.pointm == b.pointm
    &&& a.old_pointm == b.old_pointm
    &&& a.start == b.start
    &&& a.prev_buffers == b.prev_buffers
    &&& a.next_buffers == b.next_buffers
    &&& a.new_total == b.new_total
    &&& a.new_normal == b.new_normal
    &&& a.redisplay_end_trigger == b.redisplay_end_trigger
    &&& a.use_time == b.use_time
    &&& a.left_margin_cols == b.left_margin_cols
    &&& a.right_margin_cols == b.right_margin_cols
    &&& a.mini == b.mini
    &&& a.pseudo == b.pseudo
    &&& a.menu_bar_p == b.menu_bar_p
    &&& a.tool_bar_p == b.tool_bar_p
    &&& a.body_cols == b.body_cols
    &&& a.start_at_line_beg == b.start_at_line_beg
    &&& a.force_start == b.force_start
    &&& a.window_end_valid == b.window_end_valid
    &&& a.update_mode_line == b.update_mode_line
    &&& a.needs_redisplay == b.needs_redisplay
}

/// The pixel box, cached canonical counts and top line of a window.
#[verifier::opaque]
pub open spec fn same_box(a: LispWindowRef, b: LispWindowRef) -> bool {
    &&& a.pixel_left == b.pixel_left
    &&& a.pixel_top == b.pixel_top
    &&& a.pixel_width == b.pixel_width
    &&& a.pixel_height == b.pixel_height
    &&& a.total_cols == b.total_cols
    &&& a.total_lines == b.total_lines
    &&& a.top_line == b.top_line
}

/// Payload preservation is reflexive and carries across steps.
pub proof fn lemma_same_payload_refl(a: LispWindowRef)
    ensures
        same_payload(a, a),
{
    reveal(same_payload);
}

pub proof fn lemma_same_payload_trans(a: LispWindowRef, b: LispWindowRef, c: LispWindowRef)
    requires
        same_payload(a, b),
        same_payload(b, c),
    ensures
        same_payload(a, c),
{
    reveal(same_payload);
}

/// Box preservation is reflexive and carries across steps.
pub proof fn lemma_same_box_refl(a: LispWindowRef)
    ensures
        same_box(a, a),
{
    reveal(same_box);
}

pub proof fn lemma_same_box_trans(a: LispWindowRef, b: LispWindowRef, c: LispWindowRef)
    requires
        same_box(a, b),
        same_box(b, c),
    ensures
        same_box(a, c),
{
    reveal(same_box);
}

/// What a window holds: a buffer (a leaf), its first child (an
/// internal combination), or nothing (a deleted or nascent window).
#[derive(Clone, Copy, PartialEq, Eq, Structural, Debug)]
pub enum Contents {
    Empty,
    Buffer(usize),
    Child(usize),
}

/// A frame: the drawable surface one window tree partitions, with the
/// canonical character-cell size and border inset that geometry
/// queries need.
pub struct Frame {
    /// Canonical character width on this frame, in pixels.
    pub column_width: i32,
    /// Canonical character height on this frame, in pixels.
    pub line_height: i32,
    /// Pixel inset between the frame edge and its window area.
    pub internal_border_width: i32,
    /// The window at the top of this frame's combination tree.
    pub root_window: usize,
    /// The window selected within this frame.
    pub selected_window: LispObject,
    /// This frame's minibuffer window, nil when it has none.
    pub minibuffer_window: LispObject,
    pub live: bool,
    pub visible: bool,
    pub iconified: bool,
    /// Dirty flag consumed by the external rendering pass.
    pub needs_redisplay: bool,
}

impl Frame {
    pub open spec fn wf(&self) -> bool {
        &&& 1 <= self.column_width <= COORD_LIMIT
        &&& 1 <= self.line_height <= COORD_LIMIT
        &&& 0 <= self.internal_border_width <= COORD_LIMIT
    }

    pub fn internal_border_width(&self) -> (r: i32)
        ensures
            r == self.internal_border_width,
    {
        self.internal_border_width
    }
}

/// A buffer, reduced to what the window core reads of it: its
/// accessible position range, the position of point, and whether its
/// own mode-line and header-line formats are set.
pub struct Buffer {
    /// First accessible position (positions are 1-based).
    pub begv: i64,
    /// Position just past the accessible text.
    pub zv: i64,
    /// The position of point in this buffer.
    pub point: i64,
    pub mode_line_format: LispObject,
    pub header_line_format: LispObject,
}

impl Buffer {
    pub open spec fn wf(&self) -> bool {
        &&& 1 <= self.begv <= self.zv <= POS_LIMIT
        &&& self.begv <= self.point <= self.zv
    }
}

/// One node of the window tree.  Parent, sibling and child relations
/// are arena indices; `None` marks a chain end or a root window.
pub struct LispWindowRef {
    /// The frame this window belongs to.
    pub frame: usize,
    pub contents: Contents,
    pub parent: Option<usize>,
    /// Following sibling in the enclosing combination.
    pub next: Option<usize>,
    /// Preceding sibling in the enclosing combination.
    pub prev: Option<usize>,
    pub pixel_left: i32,
    pub pixel_top: i32,
    pub pixel_width: i32,
    pub pixel_height: i32,
    /// Cached width in canonical character units; maintained by the
    /// layout engine, may be stale relative to the pixel fields.
    pub total_cols: i32,
    /// Cached height in canonical character units.
    pub total_lines: i32,
    /// Distance in lines from the top of the frame's window area.
    pub top_line: i32,
    /// For an internal window: children run left to right when true,
    /// top to bottom when false.
    pub horizontal: bool,
    pub combination_limit: CombinationLimit,
    /// Cached mode-line height; -1 means unknown, recompute.
    pub mode_line_height: i32,
    /// Ordered association list of per-window parameters.
    pub params: Vec<(LispObject, LispObject)>,
    pub dedicated: Dedication,
    pub display_table: LispObject,
    /// Columns scrolled off to the left.
    pub hscroll: i64,
    /// Lower bound below which automatic scrolling may not go.
    pub min_hscroll: i64,
    pub suspend_auto_hscroll: bool,
    /// Cached position of point for this window, used while it is not
    /// selected; `None` when the marker points nowhere.
    pub pointm: Option<i64>,
    pub old_pointm: Option<i64>,
    /// Position at which display starts in this window.
    pub start: Option<i64>,
    /// Buffers previously shown here: (buffer, window start, point).
    pub prev_buffers: Vec<(usize, i64, i64)>,
    /// Buffers recently re-shown here.
    pub next_buffers: Vec<usize>,
    /// Staged total size awaiting the layout engine's commit pass.
    pub new_total: i64,
    /// Staged normal (fractional) size awaiting the commit pass.
    pub new_normal: LispObject,
    /// Buffer position past which a one-shot notification fires.
    pub redisplay_end_trigger: LispObject,
    /// Selection stamp; the highest value marks the most recently
    /// selected window.
    pub use_time: i64,
    pub left_margin_cols: i32,
    pub right_margin_cols: i32,
    /// True for a minibuffer window.
    pub mini: bool,
    /// True for a pseudo window outside the ordinary tree.
    pub pseudo: bool,
    /// True when this window is its frame's menu bar.
    pub menu_bar_p: bool,
    /// True when this window is its frame's tool bar.
    pub tool_bar_p: bool,
    /// Width of the text body in columns; maintained by the layout
    /// engine.
    pub body_cols: i32,
    pub start_at_line_beg: bool,
    pub force_start: bool,
    pub window_end_valid: bool,
    pub update_mode_line: bool,
    pub needs_redisplay: bool,
}

impl LispWindowRef {
    /// Field sanity relative to arena sizes and machine bounds.
    pub open spec fn wf(&self, n_windows: int, n_frames: int, n_buffers: int) -> bool {
        &&& self.frame < n_frames
        &&& (match self.contents {
            Contents::Empty => true,
            Contents::Buffer(b) => b < n_buffers,
            Contents::Child(c) => c < n_windows,
        })
        &&& (match self.parent {
            Some(p) => p < n_windows,
            None => true,
        })
        &&& (match self.next {
            Some(p) => p < n_windows,
            None => true,
        })
        &&& (match self.prev {
            Some(p) => p < n_windows,
            None => true,
        })
        &&& 0 <= self.pixel_left <= COORD_LIMIT
        &&& 0 <= self.pixel_top <= COORD_LIMIT
        &&& 0 <= self.pixel_width <= COORD_LIMIT
        &&& 0 <= self.pixel_height <= COORD_LIMIT
        &&& 0 <= self.total_cols <= COORD_LIMIT
        &&& 0 <= self.total_lines <= COORD_LIMIT
        &&& 0 <= self.top_line <= COORD_LIMIT
        &&& -1 <= self.mode_line_height <= COORD_LIMIT
        &&& 0 <= self.hscroll <= HSCROLL_LIMIT
        &&& 0 <= self.min_hscroll <= HSCROLL_LIMIT
        &&& (match self.pointm {
            Some(p) => 0 <= p <= POS_LIMIT,
            None => true,
        })
        &&& (match self.old_pointm {
            Some(p) => 0 <= p <= POS_LIMIT,
            None => true,
        })
        &&& (match self.start {
            Some(p) => 0 <= p <= POS_LIMIT,
            None => true,
        })
        &&& 0 <= self.use_time <= USE_TIME_LIMIT
        &&& 0 <= self.left_margin_cols <= COORD_LIMIT
        &&& 0 <= self.right_margin_cols <= COORD_LIMIT
        &&& 0 <= self.body_cols <= COORD_LIMIT
    }

    /// A fresh leaf window on `frame` showing `buffer`, not yet linked
    /// into any combination, with empty scroll, parameter and history
    /// state.
    pub fn new_leaf(frame: usize, buffer: usize) -> (w: LispWindowRef)
        ensures
            w.frame == frame,
            w.contents == Contents::Buffer(buffer),
            w.parent is None && w.next is None && w.prev is None,
            w.pixel_left == 0 && w.pixel_top == 0 && w.pixel_width == 0 && w.pixel_height == 0,
            w.total_cols == 0 && w.total_lines == 0 && w.top_line == 0,
            !w.horizontal,
            w.combination_limit == CombinationLimit::Unset,
            w.mode_line_height == -1,
            w.params@ == Seq::<(LispObject, LispObject)>::empty(),
            w.dedicated == Dedication::NotDedicated,
            w.display_table == LispObject::Nil,
            w.hscroll == 0 && w.min_hscroll == 0 && !w.suspend_auto_hscroll,
            w.pointm is None && w.old_pointm is None && w.start is None,
            w.prev_buffers@ == Seq::<(usize, i64, i64)>::empty(),
            w.next_buffers@ == Seq::<usize>::empty(),
            w.new_total == 0 && w.new_normal == LispObject::Nil,
            w.redisplay_end_trigger == LispObject::Nil,
            w.use_time == 0,
            w.left_margin_cols == 0 && w.right_margin_cols == 0,
            !w.mini && !w.pseudo && !w.menu_bar_p && !w.tool_bar_p,
            w.body_cols == 0,
            !w.start_at_line_beg && !w.force_start && !w.window_end_valid,
            !w.update_mode_line && !w.needs_redisplay,
    {
        LispWindowRef {
            frame,
            contents: Contents::Buffer(buffer),
            parent: None,
            next: None,
            prev: None,
            pixel_left: 0,
            pixel_top: 0,
            pixel_width: 0,
            pixel_height: 0,
            total_cols: 0,
            total_lines: 0,
            top_line: 0,
            horizontal: false,
            combination_limit: CombinationLimit::Unset,
            mode_line_height: -1,
            params: Vec::new(),
            dedicated: Dedication::NotDedicated,
            display_table: LispObject::Nil,
            hscroll: 0,
            min_hscroll: 0,
            suspend_auto_hscroll: false,
            pointm: None,
            old_pointm: None,
            start: None,
            prev_buffers: Vec::new(),
            next_buffers: Vec::new(),
            new_total: 0,
            new_normal: LispObject::Nil,
            redisplay_end_trigger: LispObject::Nil,
            use_time: 0,
            left_margin_cols: 0,
            right_margin_cols: 0,
            mini: false,
            pseudo: false,
            menu_bar_p: false,
            tool_bar_p: false,
            body_cols: 0,
            start_at_line_beg: false,
            force_start: false,
            window_end_valid: false,
            update_mode_line: false,
            needs_redisplay: false,
        }
    }

    pub open spec fn spec_is_live(&self) -> bool {
        self.contents is Buffer
    }

    pub open spec fn spec_is_internal(&self) -> bool {
        self.contents is Child
    }

    pub open spec fn spec_is_valid(&self) -> bool {
        self.spec_is_live() || self.spec_is_internal()
    }

    /// The buffer a leaf window displays.
    pub open spec fn spec_buffer(&self) -> usize {
        match self.contents {
            Contents::Buffer(b) => b,
            _ => 0,
        }
    }

    /// The first child of an internal window.
    pub open spec fn spec_first_child(&self) -> usize {
        match self.contents {
            Contents::Child(c) => c,
            _ => 0,
        }
    }

    /// A live window displays a buffer; such a window is also called a
    /// leaf window.
    pub fn is_live(&self) -> (r: bool)
        ensures
            r == self.spec_is_live(),
    {
        matches!(self.contents, Contents::Buffer(_))
    }

    /// An internal window combines child windows.
    pub fn is_internal(&self) -> (r: bool)
        ensures
            r == self.spec_is_internal(),
    {
        matches!(self.contents, Contents::Child(_))
    }

    /// A window is valid while it holds anything at all: a buffer or
    /// children.  Deleted windows are not valid.
    pub fn is_valid(&self) -> (r: bool)
        ensures
            r == self.spec_is_valid(),
    {
        !matches!(self.contents, Contents::Empty)
    }

    pub fn is_minibuffer(&self) -> (r: bool)
        ensures
            r == self.mini,
    {
        self.mini
    }

    pub fn is_pseudo(&self) -> (r: bool)
        ensures
            r == self.pseudo,
    {
        self.pseudo
    }

    pub fn is_menu_bar(&self) -> (r: bool)
        ensures
            r == self.menu_bar_p,
    {
        self.menu_bar_p
    }

    pub fn is_tool_bar(&self) -> (r: bool)
        ensures
            r == self.tool_bar_p,
    {
        self.tool_bar_p
    }

    pub open spec fn spec_is_vertical_combination(&self) -> bool {
        self.spec_is_internal() && !self.horizontal
    }

    /// True for an internal window whose children run top to bottom.
    pub fn is_vertical_combination(&self) -> (r: bool)
        ensures
            r == self.spec_is_vertical_combination(),
    {
        self.is_internal() && !self.horizontal
    }

    /// Position of the display-start marker, `None` while it points
    /// nowhere.
    pub fn start_marker(&self) -> (r: Option<i64>)
        ensures
            r == self.start,
    {
        self.start
    }

    pub open spec fn spec_get_parameter(&self, parameter: LispObject) -> LispObject {
        spec_lookup(self.params@, parameter)
    }

    /// This window's value for `parameter`: the first binding in its
    /// parameter list, or nil when the parameter is absent.
    pub fn get_parameter(&self, parameter: LispObject) -> (r: LispObject)
        ensures
            r == self.spec_get_parameter(parameter),
    {
        assq_get(&self.params, parameter)
    }

    /// Bind `parameter` to `value`: an existing binding is overwritten
    /// in place, a fresh one is prepended.
    pub fn set_parameter(&mut self, parameter: LispObject, value: LispObject)
        ensures
            final(self).params@ == spec_set_param(old(self).params@, parameter, value),
            *final(self) == (LispWindowRef { params: final(self).params, ..*old(self) }),
    {
        assq_set(&mut self.params, parameter, value);
    }

    /// Record a new display start: move the start marker, drop the
    /// start-at-line-beginning and window-end-valid knowledge, flag
    /// redisplay, optionally force the start and flag the mode line.
    pub fn stage_start(&mut self, ns: Option<i64>, noforce: bool, flag_mode_line: bool)
        ensures
            *final(self) == (LispWindowRef {
                start: ns,
                start_at_line_beg: false,
                force_start: (if !noforce {
                    true
                } else {
                    old(self).force_start
                }),
                window_end_valid: false,
                update_mode_line: (if flag_mode_line {
                    true
                } else {
                    old(self).update_mode_line
                }),
                needs_redisplay: true,
                ..*old(self)
            }),
    {
        self.start = ns;
        self.start_at_line_beg = false;
        if !noforce {
            self.force_start = true;
        }
        if flag_mode_line {
            self.update_mode_line = true;
        }
        self.window_end_valid = false;
        self.needs_redisplay = true;
    }

    /// Empty this record and unlink it from the tree, leaving every
    /// other field as it was.
    pub fn clear_record(&mut self)
        ensures
            final(self).contents is Empty,
            final(self).parent is None,
            final(self).next is None,
            final(self).prev is None,
            same_box(*final(self), *old(self)),
            same_payload(*final(self), *old(self)),
    {
        proof {
            reveal(same_payload);
            reveal(same_box);
        }
        self.contents = Contents::Empty;
        self.parent = None;
        self.next = None;
        self.prev = None;
    }

    /// Repoint the following-sibling link, leaving every other field
    /// as it was.
    pub fn relink_next(&mut self, next: Option<usize>)
        ensures
            final(self).next == next,
            final(self).contents == old(self).contents,
            final(self).parent == old(self).parent,
            final(self).prev == old(self).prev,
            same_box(*final(self), *old(self)),
            same_payload(*final(self), *old(self)),
    {
        proof {
            reveal(same_payload);
            reveal(same_box);
        }
        self.next = next;
    }

    /// Repoint the preceding-sibling link, leaving every other field
    /// as it was.
    pub fn relink_prev(&mut self, prev: Option<usize>)
        ensures
            final(self).prev == prev,
            final(self).contents == old(self).contents,
            final(self).parent == old(self).parent,
            final(self).next == old(self).next,
            same_box(*final(self), *old(self)),
            same_payload(*final(self), *old(self)),
    {
        proof {
            reveal(same_payload);
            reveal(same_box);
        }
        self.prev = prev;
    }

    /// Repoint the first-child slot of an internal window, leaving
    /// every other field as it was.
    pub fn set_first_child(&mut self, c: usize)
        ensures
            final(self).contents == Contents::Child(c),
            final(self).parent == old(self).parent,
            final(self).prev == old(self).prev,
            final(self).next == old(self).next,
            same_box(*final(self), *old(self)),
            same_payload(*final(self), *old(self)),
    {
        proof {
            reveal(same_payload);
            reveal(same_box);
        }
        self.contents = Contents::Child(c);
    }

    /// Take over another window's box and place in the tree: its pixel
    /// and canonical geometry, its top line, and its parent and
    /// sibling links.  Everything else stays.
    pub fn inherit_placement(
        &mut self,
        pixel_left: i32,
        pixel_top: i32,
        pixel_width: i32,
        pixel_height: i32,
        total_cols: i32,
        total_lines: i32,
        top_line: i32,
        parent: Option<usize>,
        prev: Option<usize>,
        next: Option<usize>,
    )
        ensures
            final(self).pixel_left == pixel_left,
            final(self).pixel_top == pixel_top,
            final(self).pixel_width == pixel_width,
            final(self).pixel_height == pixel_height,
            final(self).total_cols == total_cols,
            final(self).total_lines == total_lines,
            final(self).top_line == top_line,
            final(self).parent == parent,
            final(self).prev == prev,
            final(self).next == next,
            final(self).contents == old(self).contents,
            same_payload(*final(self), *old(self)),
    {
        proof {
            reveal(same_payload);
        }
        self.pixel_left = pixel_left;
        self.pixel_top = pixel_top;
        self.pixel_width = pixel_width;
        self.pixel_height = pixel_height;
        self.total_cols = total_cols;
        self.total_lines = total_lines;
        self.top_line = top_line;
        self.parent = parent;
        self.prev = prev;
        self.next = next;
    }

    /// The pixel column at which this window starts.
    pub fn left_pixel_edge(&self) -> (r: i32)
        ensures
            r == self.pixel_left,
    {
        self.pixel_left
    }

    /// The pixel row at which this window starts, header line
    /// included.
    pub fn top_pixel_edge(&self) -> (r: i32)
        ensures
            r == self.pixel_top,
    {
        self.pixel_top
    }

    pub open spec fn spec_left_edge_x(&self, frame: Frame) -> int {
        frame.internal_border_width + self.pixel_left
    }

    /// The frame x-position at which this window's text area starts:
    /// the window's left pixel edge moved in by the frame's border
    /// inset.
    pub fn left_edge_x(&self, frame: &Frame) -> (r: i32)
        requires
            frame.wf(),
            self.wf_geometry(),
        ensures
            r == self.spec_left_edge_x(*frame),
    {
        frame.internal_border_width() + self.left_pixel_edge()
    }

    pub open spec fn spec_top_edge_y(&self, frame: Frame) -> int {
        if self.menu_bar_p || self.tool_bar_p {
            self.pixel_top as int
        } else {
            self.pixel_top + frame.internal_border_width
        }
    }

    /// The frame y-position at which this window starts.  Menu-bar and
    /// tool-bar windows sit above the border inset, so for them no
    /// inset is added.
    pub fn top_edge_y(&self, frame: &Frame) -> (r: i32)
        requires
            frame.wf(),
            self.wf_geometry(),
        ensures
            r == self.spec_top_edge_y(*frame),
    {
        let mut y = self.top_pixel_edge();
        if !(self.is_menu_bar() || self.is_tool_bar()) {
            y += frame.internal_border_width();
        }
        y
    }

    /// Convert a window-relative pixel y to frame pixel coordinates.
    pub fn frame_pixel_y(&self, frame: &Frame, y: i32) -> (r: i32)
        requires
            frame.wf(),
            self.wf_geometry(),
            -COORD_LIMIT <= y <= COORD_LIMIT,
        ensures
            r == y + self.spec_top_edge_y(*frame),
    {
        y + self.top_edge_y(frame)
    }

    /// The geometry bounds that `wf` asks of every window, needed on
    /// their own by the queries that read only geometry.
    pub open spec fn wf_geometry(&self) -> bool {
        &&& 0 <= self.pixel_left <= COORD_LIMIT
        &&& 0 <= self.pixel_top <= COORD_LIMIT
        &&& 0 <= self.pixel_width <= COORD_LIMIT
        &&& 0 <= self.pixel_height <= COORD_LIMIT
    }

    pub open spec fn spec_total_width(&self, frame: Frame, round: Rounding) -> int {
        match round {
            Rounding::Floor => units_floor(self.pixel_width as int, frame.column_width as int),
            Rounding::Ceiling => units_ceiling(self.pixel_width as int, frame.column_width as int),
            Rounding::Exact => self.total_cols as int,
        }
    }

    /// Width of this window in columns.  `Floor` and `Ceiling` divide
    /// the pixel width by the frame's canonical character width;
    /// `Exact` returns the internally rounded cached count, chosen by
    /// the layout engine so that siblings' counts sum to their
    /// parent's.
    pub fn total_width(&self, frame: &Frame, round: Rounding) -> (r: i32)
        requires
            frame.wf(),
            self.wf_geometry(),
        ensures
            r == self.spec_total_width(*frame, round),
    {
        pixels_to_units(self.pixel_width, frame.column_width, self.total_cols, round)
    }

    pub open spec fn spec_total_height(&self, frame: Frame, round: Rounding) -> int {
        match round {
            Rounding::Floor => units_floor(self.pixel_height as int, frame.line_height as int),
            Rounding::Ceiling => units_ceiling(self.pixel_height as int, frame.line_height as int),
            Rounding::Exact => self.total_lines as int,
        }
    }

    /// Height of this window in lines, with the same rounding choices
    /// as `total_width`.
    pub fn total_height(&self, frame: &Frame, round: Rounding) -> (r: i32)
        requires
            frame.wf(),
            self.wf_geometry(),
        ensures
            r == self.spec_total_height(*frame, round),
    {
        pixels_to_units(self.pixel_height, frame.line_height, self.total_lines, round)
    }

    /// Whether a leaf window's buffer index stays within the buffer
    /// arena, so that the mode-line policy may read the buffer.
    pub open spec fn buffer_ok(&self, n_buffers: int) -> bool {
        self.contents is Buffer ==> self.spec_buffer() < n_buffers
    }

    pub open spec fn spec_wants_mode_line(&self, frame: Frame, buffers: Seq<Buffer>) -> bool {
        let fmt = self.spec_get_parameter(LispObject::Sym(SYM_MODE_LINE_FORMAT));
        &&& self.spec_is_live()
        &&& !self.mini
        &&& !self.pseudo
        &&& fmt != LispObject::Sym(SYM_NONE)
        &&& (fmt.spec_is_not_nil() || buffers[self.spec_buffer() as int].mode_line_format.spec_is_not_nil())
        &&& self.pixel_height > frame.line_height
    }

    /// True when this window wants a mode line and is high enough for
    /// one: it must be a leaf, neither a minibuffer nor a pseudo
    /// window, its mode-line-format parameter must not be `none`,
    /// either that parameter or its buffer's own mode-line format must
    /// be set, and the window must be higher than one canonical
    /// character line.
    pub fn wants_mode_line(&self, frame: &Frame, buffers: &Vec<Buffer>) -> (r: bool)
        requires
            frame.wf(),
            self.wf_geometry(),
            self.buffer_ok(buffers@.len() as int),
        ensures
            r == self.spec_wants_mode_line(*frame, buffers@),
    {
        let fmt = self.get_parameter(LispObject::Sym(SYM_MODE_LINE_FORMAT));
        self.is_live() && !self.is_minibuffer() && !self.is_pseudo() && !(fmt == LispObject::Sym(SYM_NONE))
            && (fmt.is_not_nil() || {
            let b = match self.contents {
                Contents::Buffer(b) => b,
                _ => 0,
            };
            buffers[b].mode_line_format.is_not_nil()
        }) && self.pixel_height > frame.line_height
    }

    pub open spec fn spec_wants_header_line(&self, frame: Frame, buffers: Seq<Buffer>) -> bool {
        let fmt = self.spec_get_parameter(LispObject::Sym(SYM_HEADER_LINE_FORMAT));
        let threshold = if self.spec_wants_mode_line(frame, buffers) {
            2 * frame.line_height as int
        } else {
            frame.line_height as int
        };
        &&& self.spec_is_live()
        &&& !self.mini
        &&& !self.pseudo
        &&& fmt != LispObject::Sym(SYM_NONE)
        &&& (fmt.spec_is_not_nil() || buffers[self.spec_buffer() as int].header_line_format.spec_is_not_nil())
        &&& self.pixel_height > threshold
    }

    /// True when this window wants a header line and is high enough
    /// for one.  The conditions mirror `wants_mode_line` with the
    /// header-line-format parameter; when the window wants a mode line
    /// too, the height threshold doubles, because the mode line
    /// prevails when space is scarce.
    pub fn wants_header_line(&self, frame: &Frame, buffers: &Vec<Buffer>) -> (r: bool)
        requires
            frame.wf(),
            self.wf_geometry(),
            self.buffer_ok(buffers@.len() as int),
        ensures
            r == self.spec_wants_header_line(*frame, buffers@),
    {
        let fmt = self.get_parameter(LispObject::Sym(SYM_HEADER_LINE_FORMAT));
        let mut height = frame.line_height;
        if self.wants_mode_line(frame, buffers) {
            height *= 2;
        }
        self.is_live() && !self.is_minibuffer() && !self.is_pseudo() && !(fmt == LispObject::Sym(SYM_NONE))
            && (fmt.is_not_nil() || {
            let b = match self.contents {
                Contents::Buffer(b) => b,
                _ => 0,
            };
            buffers[b].header_line_format.is_not_nil()
        }) && self.pixel_height > height
    }
}

/// True when `window` wants a mode line and is high enough for one.
pub fn window_wants_mode_line(window: &LispWindowRef, frame: &Frame, buffers: &Vec<Buffer>) -> (r: bool)
    requires
        frame.wf(),
        window.wf_geometry(),
        window.buffer_ok(buffers@.len() as int),
    ensures
        r == window.spec_wants_mode_line(*frame, buffers@),
{
    window.wants_mode_line(frame, buffers)
}

/// True when `window` wants a header line and is high enough for one.
pub fn window_wants_header_line(window: &LispWindowRef, frame: &Frame, buffers: &Vec<Buffer>) -> (r: bool)
    requires
        frame.wf(),
        window.wf_geometry(),
        window.buffer_ok(buffers@.len() as int),
    ensures
        r == window.spec_wants_header_line(*frame, buffers@),
{
    window.wants_header_line(frame, buffers)
}

/// Every window is exactly one of live, internal or empty: a live
/// window is never internal, a valid window is live or internal, and
/// an empty window is neither.
pub proof fn lemma_classification_partition(w: LispWindowRef)
    ensures
        w.spec_is_live() ==> !w.spec_is_internal(),
        w.spec_is_internal() ==> !w.spec_is_live(),
        w.spec_is_valid() <==> (w.spec_is_live() || w.spec_is_internal()),
        (w.contents is Empty) <==> !w.spec_is_valid(),
{
}

/// A minibuffer or pseudo window never wants a mode line, whatever its
/// parameters, its buffer or its height say.
pub proof fn lemma_no_mode_line_for_minibuffer_or_pseudo(w: LispWindowRef, frame: Frame, buffers: Seq<Buffer>)
    requires
        w.mini || w.pseudo,
    ensures
        !w.spec_wants_mode_line(frame, buffers),
        !w.spec_wants_header_line(frame, buffers),
{
}

} // verus!
