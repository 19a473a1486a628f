//! The process-wide window state: the arenas of windows, frames and
//! buffers, the selection and minibuffer globals, and the operations
//! callers reach them through.

use vstd::prelude::*;

use crate::geometry::Rounding;
use crate::params::spec_set_param;
use crate::values::{
    CombinationLimit, Dedication, DomainFault, ModeLineFace, LispObject, TypePred, WindowError,
    ARENA_LIMIT, COORD_LIMIT, HSCROLL_LIMIT, SCROLL_ARG_LIMIT, USE_TIME_LIMIT,
};
use crate::window::{Buffer, Contents, Frame, LispWindowRef};

verus! {

/// All state of the window core: the window, frame and buffer arenas
/// plus the process-wide selection and redisplay globals.  A single
/// owner (the command-loop driver) threads it through every
/// operation.
pub struct Session {
    pub windows: Vec<LispWindowRef>,
    pub frames: Vec<Frame>,
    pub buffers: Vec<Buffer>,
    /// The window to which many commands apply; always a window
    /// reference in a well-formed session.
    pub selected_window: LispObject,
    pub selected_frame: usize,
    /// The buffer that position queries read when the selected window
    /// is asked for its point.
    pub current_buffer: usize,
    /// Minibuffer nesting depth; 0 means no minibuffer is active.
    pub minibuf_level: u32,
    /// The window that was selected when the active minibuffer took
    /// over, nil outside minibuffer interaction.
    pub minibuf_selected_window: LispObject,
    /// Global switch: draw mode lines of non-selected windows with the
    /// inactive face.
    pub mode_line_in_non_selected_windows: bool,
    /// Global flag telling the rendering pass that mode lines need
    /// recomputing.
    pub mode_lines_need_update: bool,
    /// Counter stamping windows with their time of selection.
    pub select_count: i64,
}

/// Per-frame references stay inside the arenas: the root and selected
/// windows exist, and the minibuffer slot is nil or a window.
pub open spec fn frame_refs_ok(f: Frame, n_windows: int) -> bool {
    &&& f.wf()
    &&& f.root_window < n_windows
    &&& (match f.selected_window {
        LispObject::Window(i) => i < n_windows,
        LispObject::Nil => true,
        _ => false,
    })
    &&& (match f.minibuffer_window {
        LispObject::Nil => true,
        LispObject::Window(i) => i < n_windows,
        _ => false,
    })
}

impl Session {
    /// Well-formedness: every arena reference lands inside its arena,
    /// geometry and scroll fields respect the machine bounds, and the
    /// selection globals name real objects.
    pub open spec fn wf(&self) -> bool {
        let nw = self.windows@.len() as int;
        let nf = self.frames@.len() as int;
        let nb = self.buffers@.len() as int;
        &&& self.windows@.len() <= ARENA_LIMIT
        &&& forall|i: int| 0 <= i < nw ==> (#[trigger] self.windows@[i]).wf(nw, nf, nb)
        &&& forall|i: int| 0 <= i < nf ==> frame_refs_ok(#[trigger] self.frames@[i], nw)
        &&& forall|i: int| 0 <= i < nb ==> (#[trigger] self.buffers@[i]).wf()
        &&& (match self.selected_window {
            LispObject::Window(i) => i < nw,
            _ => false,
        })
        &&& self.selected_frame < nf
        &&& self.current_buffer < nb
        &&& (match self.minibuf_selected_window {
            LispObject::Nil => true,
            LispObject::Window(i) => i < nw,
            _ => false,
        })
        &&& 0 <= self.select_count <= USE_TIME_LIMIT
    }

    /// Index of the selected window.
    pub open spec fn spec_selected(&self) -> usize {
        match self.selected_window {
            LispObject::Window(i) => i,
            _ => 0,
        }
    }

    /// True when `o` names a window of this session.
    pub open spec fn spec_is_window_obj(&self, o: LispObject) -> bool {
        match o {
            LispObject::Window(i) => i < self.windows@.len(),
            _ => false,
        }
    }

    /// True when `o` names a live window of this session.
    pub open spec fn spec_is_live_window_obj(&self, o: LispObject) -> bool {
        match o {
            LispObject::Window(i) => i < self.windows@.len() && self.windows@[i as int].spec_is_live(),
            _ => false,
        }
    }

    /// True when `o` names a valid (live or internal) window.
    pub open spec fn spec_is_valid_window_obj(&self, o: LispObject) -> bool {
        match o {
            LispObject::Window(i) => i < self.windows@.len() && self.windows@[i as int].spec_is_valid(),
            _ => false,
        }
    }

    /// The selected window, as a scripting-layer value.
    pub fn selected_window(&self) -> (r: LispObject)
        ensures
            r == self.selected_window,
    {
        self.selected_window
    }

    /// True when `object` is a window reference of this session,
    /// whatever its state.
    pub fn windowp(&self, object: LispObject) -> (r: bool)
        ensures
            r == self.spec_is_window_obj(object),
    {
        match object {
            LispObject::Window(i) => i < self.windows.len(),
            _ => false,
        }
    }

    /// True when `object` is a live window: one that displays a
    /// buffer.  Internal and deleted windows are not live.
    pub fn window_live_p(&self, object: LispObject) -> (r: bool)
        ensures
            r == self.spec_is_live_window_obj(object),
    {
        match object {
            LispObject::Window(i) => i < self.windows.len() && self.windows[i].is_live(),
            _ => false,
        }
    }

    /// True when `object` is a valid window: live or internal, not
    /// deleted.
    pub fn window_valid_p(&self, object: LispObject) -> (r: bool)
        ensures
            r == self.spec_is_valid_window_obj(object),
    {
        match object {
            LispObject::Window(i) => i < self.windows.len() && self.windows[i].is_valid(),
            _ => false,
        }
    }
}

impl LispObject {
    /// The window this value names, or a wrong-type failure.
    pub fn as_window_or_error(self, s: &Session) -> (r: Result<usize, WindowError>)
        ensures
            (match r {
                Ok(i) => self == LispObject::Window(i) && i < s.windows@.len(),
                Err(e) => !s.spec_is_window_obj(self) && e == WindowError::WrongType(
                    TypePred::Windowp,
                    self,
                ),
            }),
    {
        match self {
            LispObject::Window(i) => if i < s.windows.len() {
                Ok(i)
            } else {
                Err(WindowError::WrongType(TypePred::Windowp, self))
            },
            _ => Err(WindowError::WrongType(TypePred::Windowp, self)),
        }
    }

    /// The live window this value names, if it names one.
    pub fn as_live_window(self, s: &Session) -> (r: Option<usize>)
        ensures
            (match r {
                Some(i) => self == LispObject::Window(i) && s.spec_is_live_window_obj(self),
                None => !s.spec_is_live_window_obj(self),
            }),
    {
        match self {
            LispObject::Window(i) => if i < s.windows.len() && s.windows[i].is_live() {
                Some(i)
            } else {
                None
            },
            _ => None,
        }
    }

    /// The live window this value names, or a wrong-type failure.
    pub fn as_live_window_or_error(self, s: &Session) -> (r: Result<usize, WindowError>)
        ensures
            (match r {
                Ok(i) => self == LispObject::Window(i) && s.spec_is_live_window_obj(self),
                Err(e) => !s.spec_is_live_window_obj(self) && e == WindowError::WrongType(
                    TypePred::WindowLivep,
                    self,
                ),
            }),
    {
        match self.as_live_window(s) {
            Some(i) => Ok(i),
            None => Err(WindowError::WrongType(TypePred::WindowLivep, self)),
        }
    }

    /// The valid window this value names, if it names one.
    pub fn as_valid_window(self, s: &Session) -> (r: Option<usize>)
        ensures
            (match r {
                Some(i) => self == LispObject::Window(i) && s.spec_is_valid_window_obj(self),
                None => !s.spec_is_valid_window_obj(self),
            }),
    {
        match self {
            LispObject::Window(i) => if i < s.windows.len() && s.windows[i].is_valid() {
                Some(i)
            } else {
                None
            },
            _ => None,
        }
    }

    /// The valid window this value names, or a wrong-type failure.
    pub fn as_valid_window_or_error(self, s: &Session) -> (r: Result<usize, WindowError>)
        ensures
            (match r {
                Ok(i) => self == LispObject::Window(i) && s.spec_is_valid_window_obj(self),
                Err(e) => !s.spec_is_valid_window_obj(self) && e == WindowError::WrongType(
                    TypePred::WindowValidp,
                    self,
                ),
            }),
    {
        match self.as_valid_window(s) {
            Some(i) => Ok(i),
            None => Err(WindowError::WrongType(TypePred::WindowValidp, self)),
        }
    }

    /// The minibuffer window this value names; a wrong-type failure
    /// when it is no window, a role failure when the window is no
    /// minibuffer.
    pub fn as_minibuffer_or_error(self, s: &Session) -> (r: Result<usize, WindowError>)
        ensures
            (match r {
                Ok(i) => self == LispObject::Window(i) && i < s.windows@.len() && s.windows@[
                    i as int
                ].mini,
                Err(e) => (if s.spec_is_window_obj(self) {
                    e == WindowError::Domain(DomainFault::NotAMinibuffer)
                } else {
                    e == WindowError::WrongType(TypePred::Windowp, self)
                }),
            }),
    {
        let i = self.as_window_or_error(s)?;
        if !s.windows[i].is_minibuffer() {
            return Err(WindowError::Domain(DomainFault::NotAMinibuffer));
        }
        Ok(i)
    }
}

/// A window argument that defaults to the selected window; any window
/// is accepted, whatever its state.
#[derive(Clone, Copy, Debug)]
pub struct LispWindowOrSelected {
    pub id: usize,
}

impl LispWindowOrSelected {
    /// Decode `object`: nil means the selected window, anything else
    /// must be a window reference.
    pub fn decode(object: LispObject, s: &Session) -> (r: Result<LispWindowOrSelected, WindowError>)
        requires
            s.wf(),
        ensures
            (match r {
                Ok(w) => w.id < s.windows@.len() && (if object is Nil {
                    w.id == s.spec_selected()
                } else {
                    object == LispObject::Window(w.id)
                }),
                Err(e) => !(object is Nil) && !s.spec_is_window_obj(object) && e
                    == WindowError::WrongType(TypePred::Windowp, object),
            }),
    {
        let o = if matches!(object, LispObject::Nil) {
            s.selected_window()
        } else {
            object
        };
        match o.as_window_or_error(s) {
            Ok(i) => Ok(LispWindowOrSelected { id: i }),
            Err(_) => Err(WindowError::WrongType(TypePred::Windowp, object)),
        }
    }
}

/// A window argument that defaults to the selected window; when given
/// explicitly it must be a live window.
#[derive(Clone, Copy, Debug)]
pub struct LispWindowLiveOrSelected {
    pub id: usize,
}

impl LispWindowLiveOrSelected {
    /// Decode `object`: nil means the selected window (checked only to
    /// be a window); anything else must be a live window.
    pub fn decode(object: LispObject, s: &Session) -> (r: Result<LispWindowLiveOrSelected, WindowError>)
        requires
            s.wf(),
        ensures
            (match r {
                Ok(w) => w.id < s.windows@.len() && (if object is Nil {
                    w.id == s.spec_selected()
                } else {
                    object == LispObject::Window(w.id) && s.windows@[w.id as int].spec_is_live()
                }),
                Err(e) => !(object is Nil) && !s.spec_is_live_window_obj(object) && e
                    == WindowError::WrongType(TypePred::WindowLivep, object),
            }),
    {
        if matches!(object, LispObject::Nil) {
            let i = s.selected_window().as_window_or_error(s).unwrap();
            Ok(LispWindowLiveOrSelected { id: i })
        } else {
            let i = object.as_live_window_or_error(s)?;
            Ok(LispWindowLiveOrSelected { id: i })
        }
    }
}

/// A window argument that defaults to the selected window; when given
/// explicitly it must be a valid window.
#[derive(Clone, Copy, Debug)]
pub struct LispWindowValidOrSelected {
    pub id: usize,
}

impl LispWindowValidOrSelected {
    /// Decode `object`: nil means the selected window (checked only to
    /// be a window); anything else must be a valid window.
    pub fn decode(object: LispObject, s: &Session) -> (r: Result<LispWindowValidOrSelected, WindowError>)
        requires
            s.wf(),
        ensures
            (match r {
                Ok(w) => w.id < s.windows@.len() && (if object is Nil {
                    w.id == s.spec_selected()
                } else {
                    object == LispObject::Window(w.id) && s.windows@[w.id as int].spec_is_valid()
                }),
                Err(e) => !(object is Nil) && !s.spec_is_valid_window_obj(object) && e
                    == WindowError::WrongType(TypePred::WindowValidp, object),
            }),
    {
        if matches!(object, LispObject::Nil) {
            let i = s.selected_window().as_window_or_error(s).unwrap();
            Ok(LispWindowValidOrSelected { id: i })
        } else {
            let i = object.as_valid_window_or_error(s)?;
            Ok(LispWindowValidOrSelected { id: i })
        }
    }
}

/// Clamp `v` into the inclusive range `lo ..= hi`.
pub open spec fn spec_clamp(v: int, lo: int, hi: int) -> int {
    if v < lo {
        lo
    } else if v > hi {
        hi
    } else {
        v
    }
}

/// A session stays well formed when exactly one window record changes
/// and the new record respects the same bounds.
pub proof fn lemma_wf_window_update(s0: Session, s1: Session, id: int)
    requires
        s0.wf(),
        0 <= id < s0.windows@.len(),
        s1.windows@.len() == s0.windows@.len(),
        forall|i: int| 0 <= i < s0.windows@.len() && i != id ==> s1.windows@[i] == s0.windows@[i],
        s1.windows@[id].wf(
            s0.windows@.len() as int,
            s0.frames@.len() as int,
            s0.buffers@.len() as int,
        ),
        s1.frames@ == s0.frames@,
        s1.buffers@ == s0.buffers@,
        s1.selected_window == s0.selected_window,
        s1.selected_frame == s0.selected_frame,
        s1.current_buffer == s0.current_buffer,
        s1.minibuf_selected_window == s0.minibuf_selected_window,
        s1.select_count == s0.select_count,
    ensures
        s1.wf(),
{
    let nw = s1.windows@.len() as int;
    let nf = s1.frames@.len() as int;
    let nb = s1.buffers@.len() as int;
    assert forall|i: int| 0 <= i < nw implies (#[trigger] s1.windows@[i]).wf(nw, nf, nb) by {
        if i != id {
            assert(s0.windows@[i].wf(nw, nf, nb));
        }
    }
    assert forall|i: int| 0 <= i < nf implies frame_refs_ok(#[trigger] s1.frames@[i], nw) by {
        assert(frame_refs_ok(s0.frames@[i], nw));
    }
    assert forall|i: int| 0 <= i < nb implies (#[trigger] s1.buffers@[i]).wf() by {
        assert(s0.buffers@[i].wf());
    }
}

impl Session {
    /// The buffer displayed in a window: nil for an internal or
    /// deleted window.
    pub fn window_buffer(&self, window: LispWindowValidOrSelected) -> (r: LispObject)
        requires
            window.id < self.windows@.len(),
        ensures
            r == (if self.windows@[window.id as int].spec_is_live() {
                LispObject::Buffer(self.windows@[window.id as int].spec_buffer())
            } else {
                LispObject::Nil
            }),
    {
        let w = &self.windows[window.id];
        match w.contents {
            Contents::Buffer(b) => LispObject::Buffer(b),
            _ => LispObject::Nil,
        }
    }

    /// The position window point would have if the window were
    /// selected.  For the selected window this is the current buffer's
    /// point (authoritative); for any other window the cached marker
    /// position, which is only guaranteed current by that window's own
    /// redisplay cycle.
    pub open spec fn spec_window_point(&self, id: usize) -> Option<i64> {
        if id == self.spec_selected() {
            Some(self.buffers@[self.current_buffer as int].point)
        } else {
            self.windows@[id as int].pointm
        }
    }

    /// Current value of point in a live window.
    pub fn window_point(&self, window: LispWindowLiveOrSelected) -> (r: Option<i64>)
        requires
            self.wf(),
            window.id < self.windows@.len(),
        ensures
            r == self.spec_window_point(window.id),
    {
        let sel = match self.selected_window {
            LispObject::Window(i) => i,
            _ => 0,
        };
        if window.id == sel {
            Some(self.buffers[self.current_buffer].point)
        } else {
            self.windows[window.id].pointm
        }
    }

    /// The old position of point in a live window.
    pub fn window_old_point(&self, window: LispWindowLiveOrSelected) -> (r: Option<i64>)
        requires
            window.id < self.windows@.len(),
        ensures
            r == self.windows@[window.id as int].old_pointm,
    {
        self.windows[window.id].old_pointm
    }

    /// The position at which display currently starts in a window.
    pub fn window_start(&self, window: LispWindowLiveOrSelected) -> (r: Option<i64>)
        requires
            window.id < self.windows@.len(),
        ensures
            r == self.windows@[window.id as int].start,
    {
        self.windows[window.id].start_marker()
    }

    /// True when the window is a minibuffer window.
    pub fn window_minibuffer_p(&self, window: LispWindowValidOrSelected) -> (r: bool)
        requires
            window.id < self.windows@.len(),
        ensures
            r == self.windows@[window.id as int].mini,
    {
        self.windows[window.id].is_minibuffer()
    }

    /// Width of the window in pixels, fringes, margins and bars
    /// included; for an internal window the width its children span.
    pub fn window_pixel_width(&self, window: LispWindowValidOrSelected) -> (r: i32)
        requires
            window.id < self.windows@.len(),
        ensures
            r == self.windows@[window.id as int].pixel_width,
    {
        self.windows[window.id].pixel_width
    }

    /// Height of the window in pixels, mode and header line included;
    /// for an internal window the height its children span.
    pub fn window_pixel_height(&self, window: LispWindowValidOrSelected) -> (r: i32)
        requires
            window.id < self.windows@.len(),
        ensures
            r == self.windows@[window.id as int].pixel_height,
    {
        self.windows[window.id].pixel_height
    }

    /// Total width of the window in columns, under the given rounding.
    pub fn window_total_width(&self, window: LispWindowValidOrSelected, round: Rounding) -> (r:
        i32)
        requires
            self.wf(),
            window.id < self.windows@.len(),
        ensures
            r == self.windows@[window.id as int].spec_total_width(
                self.frames@[self.windows@[window.id as int].frame as int],
                round,
            ),
    {
        let w = &self.windows[window.id];
        let f = &self.frames[w.frame];
        w.total_width(f, round)
    }

    /// Total height of the window in lines, under the given rounding.
    pub fn window_total_height(&self, window: LispWindowValidOrSelected, round: Rounding) -> (r:
        i32)
        requires
            self.wf(),
            window.id < self.windows@.len(),
        ensures
            r == self.windows@[window.id as int].spec_total_height(
                self.frames@[self.windows@[window.id as int].frame as int],
                round,
            ),
    {
        let w = &self.windows[window.id];
        let f = &self.frames[w.frame];
        w.total_height(f, round)
    }

    /// The parent window, nil for a root window.
    pub fn window_parent(&self, window: LispWindowValidOrSelected) -> (r: LispObject)
        requires
            window.id < self.windows@.len(),
        ensures
            r == (match self.windows@[window.id as int].parent {
                Some(p) => LispObject::Window(p),
                None => LispObject::Nil,
            }),
    {
        match self.windows[window.id].parent {
            Some(p) => LispObject::Window(p),
            None => LispObject::Nil,
        }
    }

    /// The frame a window is on.
    pub fn window_frame(&self, window: LispWindowValidOrSelected) -> (r: LispObject)
        requires
            window.id < self.windows@.len(),
        ensures
            r == LispObject::Frame(self.windows@[window.id as int].frame),
    {
        LispObject::Frame(self.windows[window.id].frame)
    }

    /// Which frame a frame argument names: nil defaults to the
    /// selected frame.
    pub open spec fn spec_frame_ok(&self, frame: LispObject) -> bool {
        match frame {
            LispObject::Nil => true,
            LispObject::Frame(i) => i < self.frames@.len(),
            _ => false,
        }
    }

    pub open spec fn spec_frame_idx(&self, frame: LispObject) -> usize {
        match frame {
            LispObject::Frame(i) => i,
            _ => self.selected_frame,
        }
    }

    /// The minibuffer window of a frame; nil as the frame argument
    /// means the selected frame.  A value that names no live frame is
    /// a wrong-type failure.
    pub fn minibuffer_window(&self, frame: LispObject) -> (r: Result<LispObject, WindowError>)
        requires
            self.wf(),
        ensures
            (match r {
                Ok(o) => self.spec_frame_ok(frame) && self.frames@[self.spec_frame_idx(
                    frame,
                ) as int].live && o == self.frames@[self.spec_frame_idx(frame) as int].minibuffer_window,
                Err(e) => e == WindowError::WrongType(TypePred::FrameLivep, frame) && (
                !self.spec_frame_ok(frame) || !self.frames@[self.spec_frame_idx(frame) as int].live),
            }),
    {
        let f: usize = match frame {
            LispObject::Nil => self.selected_frame,
            LispObject::Frame(i) => {
                if i < self.frames.len() {
                    i
                } else {
                    return Err(WindowError::WrongType(TypePred::FrameLivep, frame));
                }
            },
            _ => {
                return Err(WindowError::WrongType(TypePred::FrameLivep, frame));
            },
        };
        if !self.frames[f].live {
            return Err(WindowError::WrongType(TypePred::FrameLivep, frame));
        }
        Ok(self.frames[f].minibuffer_window)
    }

    /// A window's value for `parameter`, nil when absent.
    pub fn window_parameter(&self, w: usize, parameter: LispObject) -> (r: LispObject)
        requires
            w < self.windows@.len(),
        ensures
            r == self.windows@[w as int].spec_get_parameter(parameter),
    {
        self.windows[w].get_parameter(parameter)
    }

    /// A window's value for `parameter`; the window argument defaults
    /// to the selected window.
    pub fn window_parameter_lisp(&self, window: LispWindowOrSelected, parameter: LispObject) -> (r: LispObject)
        requires
            window.id < self.windows@.len(),
        ensures
            r == self.windows@[window.id as int].spec_get_parameter(parameter),
    {
        self.window_parameter(window.id, parameter)
    }

    /// All parameters of a window, as a fresh copy of its association
    /// list.
    pub fn window_parameters(&self, window: LispWindowValidOrSelected) -> (r: Vec<(LispObject, LispObject)>)
        requires
            window.id < self.windows@.len(),
        ensures
            r@ == self.windows@[window.id as int].params@,
    {
        let src = &self.windows[window.id].params;
        let n = src.len();
        let mut out: Vec<(LispObject, LispObject)> = Vec::new();
        let mut i: usize = 0;
        while i < n
            invariant
                i <= n,
                n == src@.len(),
                out@ == src@.subrange(0, i as int),
            decreases n - i,
        {
            out.push(src[i]);
            i += 1;
            proof {
                assert(out@ =~= src@.subrange(0, i as int));
            }
        }
        proof {
            assert(src@.subrange(0, n as int) =~= src@);
        }
        out
    }

    /// The display table a live window uses.
    pub fn window_display_table(&self, window: LispWindowLiveOrSelected) -> (r: LispObject)
        requires
            window.id < self.windows@.len(),
        ensures
            r == self.windows@[window.id as int].display_table,
    {
        self.windows[window.id].display_table
    }

    /// How a window is dedicated to its buffer: the value given to the
    /// last `set_window_dedicated_p`, not dedicated by default.
    pub fn window_dedicated_p(&self, window: LispWindowOrSelected) -> (r: Dedication)
        requires
            window.id < self.windows@.len(),
        ensures
            r == self.windows@[window.id as int].dedicated,
    {
        self.windows[window.id].dedicated
    }

    /// Buffers previously shown in a window, most recent first, each
    /// with the window-start and point it had.
    pub fn window_prev_buffers(&self, window: LispWindowLiveOrSelected) -> (r: &Vec<
        (usize, i64, i64),
    >)
        requires
            window.id < self.windows@.len(),
        ensures
            r@ == self.windows@[window.id as int].prev_buffers@,
    {
        &self.windows[window.id].prev_buffers
    }

    /// Buffers recently re-shown in a window.
    pub fn window_next_buffers(&self, window: LispWindowLiveOrSelected) -> (r: &Vec<usize>)
        requires
            window.id < self.windows@.len(),
        ensures
            r@ == self.windows@[window.id as int].next_buffers@,
    {
        &self.windows[window.id].next_buffers
    }

    /// Columns by which a window is scrolled from the left margin.
    pub fn window_hscroll(&self, window: LispWindowLiveOrSelected) -> (r: i64)
        requires
            window.id < self.windows@.len(),
        ensures
            r == self.windows@[window.id as int].hscroll,
    {
        self.windows[window.id].hscroll
    }

    /// The selection stamp of a window; the highest stamp marks the
    /// most recently selected window.
    pub fn window_use_time(&self, window: LispWindowLiveOrSelected) -> (r: i64)
        requires
            window.id < self.windows@.len(),
        ensures
            r == self.windows@[window.id as int].use_time,
    {
        self.windows[window.id].use_time
    }

    /// Distance in lines between the top of a window and the top of
    /// its frame's window area.
    pub fn window_top_line(&self, window: LispWindowValidOrSelected) -> (r: i64)
        requires
            window.id < self.windows@.len(),
        ensures
            r == self.windows@[window.id as int].top_line as i64,
    {
        self.windows[window.id].top_line as i64
    }

    /// A window's redisplay end trigger value.
    pub fn window_redisplay_end_trigger(&self, window: LispWindowLiveOrSelected) -> (r: LispObject)
        requires
            window.id < self.windows@.len(),
        ensures
            r == self.windows@[window.id as int].redisplay_end_trigger,
    {
        self.windows[window.id].redisplay_end_trigger
    }

    /// The staged normal size of a window, set by the last
    /// `set-window-new-normal` and read by the layout commit pass.
    pub fn window_new_normal(&self, window: LispWindowValidOrSelected) -> (r: LispObject)
        requires
            window.id < self.windows@.len(),
        ensures
            r == self.windows@[window.id as int].new_normal,
    {
        self.windows[window.id].new_normal
    }

    /// The staged total size of a window, set by the last
    /// `set_window_new_total` and read by the layout commit pass.
    pub fn window_new_total(&self, window: LispWindowValidOrSelected) -> (r: i64)
        requires
            window.id < self.windows@.len(),
        ensures
            r == self.windows@[window.id as int].new_total,
    {
        self.windows[window.id].new_total
    }

    /// Widths of the marginal areas of a window, nil standing for an
    /// absent margin.
    pub fn window_margins(&self, window: LispWindowLiveOrSelected) -> (r: (Option<i32>, Option<
        i32,
    >))
        requires
            window.id < self.windows@.len(),
        ensures
            r.0 == (if self.windows@[window.id as int].left_margin_cols == 0 {
                Option::<i32>::None
            } else {
                Some(self.windows@[window.id as int].left_margin_cols)
            }),
            r.1 == (if self.windows@[window.id as int].right_margin_cols == 0 {
                Option::<i32>::None
            } else {
                Some(self.windows@[window.id as int].right_margin_cols)
            }),
    {
        let w = &self.windows[window.id];
        let left = if w.left_margin_cols == 0 {
            None
        } else {
            Some(w.left_margin_cols)
        };
        let right = if w.right_margin_cols == 0 {
            None
        } else {
            Some(w.right_margin_cols)
        };
        (left, right)
    }

    /// The topmost child of a window: its first child when it is a
    /// vertical combination, nil for a leaf or a horizontal
    /// combination.
    pub fn window_top_child(&self, window: LispWindowValidOrSelected) -> (r: Option<usize>)
        requires
            window.id < self.windows@.len(),
        ensures
            r == (if self.windows@[window.id as int].spec_is_vertical_combination() {
                Some(self.windows@[window.id as int].spec_first_child())
            } else {
                Option::<usize>::None
            }),
    {
        let w = &self.windows[window.id];
        if w.is_vertical_combination() {
            match w.contents {
                Contents::Child(c) => Some(c),
                _ => None,
            }
        } else {
            None
        }
    }

    /// The combination limit of an internal window; asking a leaf is a
    /// role failure, the limit being meaningful for internal windows
    /// only.
    pub fn window_combination_limit(&self, window: usize) -> (r: Result<
        CombinationLimit,
        WindowError,
    >)
        requires
            window < self.windows@.len(),
        ensures
            (match r {
                Ok(l) => self.windows@[window as int].spec_is_internal() && l == self.windows@[
                    window as int
                ].combination_limit,
                Err(e) => !self.windows@[window as int].spec_is_internal() && e
                    == WindowError::Domain(DomainFault::CombinationLimitOnLeaf),
            }),
    {
        if !self.windows[window].is_internal() {
            return Err(WindowError::Domain(DomainFault::CombinationLimitOnLeaf));
        }
        Ok(self.windows[window].combination_limit)
    }

    /// The window that was selected just before the minibuffer window
    /// was selected; nil when the selected window is no minibuffer.
    pub open spec fn spec_minibuffer_selected_window(&self) -> LispObject {
        if self.minibuf_level > 0 && self.windows@[self.spec_selected() as int].mini
            && self.spec_is_live_window_obj(self.minibuf_selected_window) {
            self.minibuf_selected_window
        } else {
            LispObject::Nil
        }
    }

    pub fn minibuffer_selected_window(&self) -> (r: LispObject)
        requires
            self.wf(),
        ensures
            r == self.spec_minibuffer_selected_window(),
    {
        let sel = match self.selected_window {
            LispObject::Window(i) => i,
            _ => 0,
        };
        if self.minibuf_level > 0 && self.windows[sel].is_minibuffer() {
            match self.minibuf_selected_window {
                LispObject::Window(m) => {
                    if self.windows[m].is_live() {
                        self.minibuf_selected_window
                    } else {
                        LispObject::Nil
                    }
                },
                _ => LispObject::Nil,
            }
        } else {
            LispObject::Nil
        }
    }
}

impl Session {
    /// Set the display table of a live window; return the table.
    pub fn set_window_display_table(&mut self, window: LispWindowLiveOrSelected, table: LispObject) -> (r:
        LispObject)
        requires
            old(self).wf(),
            window.id < old(self).windows@.len(),
        ensures
            final(self).wf(),
            r == table,
            final(self).windows@ == old(self).windows@.update(
                window.id as int,
                (LispWindowRef { display_table: table, ..old(self).windows@[window.id as int] }),
            ),
            *final(self) == (Session { windows: final(self).windows, ..*old(self) }),
    {
        let w = &mut self.windows[window.id];
        w.display_table = table;
        proof {
            assert(old(self).windows@[window.id as int].wf(
                old(self).windows@.len() as int,
                old(self).frames@.len() as int,
                old(self).buffers@.len() as int,
            ));
            lemma_wf_window_update(*old(self), *self, window.id as int);
        }
        table
    }

    /// Mark a window as dedicated according to `flag`; return `flag`.
    /// A strongly dedicated window keeps its buffer even against
    /// buffer-switching operations; a weakly dedicated one only steers
    /// display-buffer elsewhere.
    pub fn set_window_dedicated_p(&mut self, window: LispWindowOrSelected, flag: Dedication) -> (r:
        Dedication)
        requires
            old(self).wf(),
            window.id < old(self).windows@.len(),
        ensures
            final(self).wf(),
            r == flag,
            final(self).windows@ == old(self).windows@.update(
                window.id as int,
                (LispWindowRef { dedicated: flag, ..old(self).windows@[window.id as int] }),
            ),
            *final(self) == (Session { windows: final(self).windows, ..*old(self) }),
    {
        let w = &mut self.windows[window.id];
        w.dedicated = flag;
        proof {
            assert(old(self).windows@[window.id as int].wf(
                old(self).windows@.len() as int,
                old(self).frames@.len() as int,
                old(self).buffers@.len() as int,
            ));
            lemma_wf_window_update(*old(self), *self, window.id as int);
        }
        flag
    }

    /// Replace the record of buffers previously shown in a window.
    pub fn set_window_prev_buffers(
        &mut self,
        window: LispWindowLiveOrSelected,
        prev_buffers: Vec<(usize, i64, i64)>,
    )
        requires
            old(self).wf(),
            window.id < old(self).windows@.len(),
        ensures
            final(self).wf(),
            final(self).windows@[window.id as int].prev_buffers@ == prev_buffers@,
            final(self).windows@ == old(self).windows@.update(
                window.id as int,
                (LispWindowRef {
                    prev_buffers: final(self).windows@[window.id as int].prev_buffers,
                    ..old(self).windows@[window.id as int]
                }),
            ),
            *final(self) == (Session { windows: final(self).windows, ..*old(self) }),
    {
        let w = &mut self.windows[window.id];
        w.prev_buffers = prev_buffers;
        proof {
            assert(old(self).windows@[window.id as int].wf(
                old(self).windows@.len() as int,
                old(self).frames@.len() as int,
                old(self).buffers@.len() as int,
            ));
            lemma_wf_window_update(*old(self), *self, window.id as int);
        }
    }

    /// Replace the record of buffers recently re-shown in a window.
    pub fn set_window_next_buffers(
        &mut self,
        window: LispWindowLiveOrSelected,
        next_buffers: Vec<usize>,
    )
        requires
            old(self).wf(),
            window.id < old(self).windows@.len(),
        ensures
            final(self).wf(),
            final(self).windows@[window.id as int].next_buffers@ == next_buffers@,
            final(self).windows@ == old(self).windows@.update(
                window.id as int,
                (LispWindowRef {
                    next_buffers: final(self).windows@[window.id as int].next_buffers,
                    ..old(self).windows@[window.id as int]
                }),
            ),
            *final(self) == (Session { windows: final(self).windows, ..*old(self) }),
    {
        let w = &mut self.windows[window.id];
        w.next_buffers = next_buffers;
        proof {
            assert(old(self).windows@[window.id as int].wf(
                old(self).windows@.len() as int,
                old(self).frames@.len() as int,
                old(self).buffers@.len() as int,
            ));
            lemma_wf_window_update(*old(self), *self, window.id as int);
        }
    }

    /// Set a window's redisplay end trigger; return the value.  When
    /// redisplay passes the trigger position, the external rendering
    /// pass fires its one-shot notification and resets the value.
    pub fn set_window_redisplay_end_trigger(
        &mut self,
        window: LispWindowLiveOrSelected,
        value: LispObject,
    ) -> (r: LispObject)
        requires
            old(self).wf(),
            window.id < old(self).windows@.len(),
        ensures
            final(self).wf(),
            r == value,
            final(self).windows@ == old(self).windows@.update(
                window.id as int,
                (LispWindowRef { redisplay_end_trigger: value, ..old(self).windows@[window.id as int] }),
            ),
            *final(self) == (Session { windows: final(self).windows, ..*old(self) }),
    {
        let w = &mut self.windows[window.id];
        w.redisplay_end_trigger = value;
        proof {
            assert(old(self).windows@[window.id as int].wf(
                old(self).windows@.len() as int,
                old(self).frames@.len() as int,
                old(self).buffers@.len() as int,
            ));
            lemma_wf_window_update(*old(self), *self, window.id as int);
        }
        value
    }

    /// Set the combination limit of an internal window; setting it on
    /// a leaf is a role failure and changes nothing.
    pub fn set_window_combination_limit(&mut self, window: usize, limit: CombinationLimit) -> (r:
        Result<CombinationLimit, WindowError>)
        requires
            old(self).wf(),
            window < old(self).windows@.len(),
        ensures
            final(self).wf(),
            (match r {
                Ok(l) => {
                    &&& l == limit
                    &&& old(self).windows@[window as int].spec_is_internal()
                    &&& final(self).windows@ == old(self).windows@.update(
                        window as int,
                        (LispWindowRef { combination_limit: limit, ..old(self).windows@[window as int] }),
                    )
                    &&& *final(self) == (Session { windows: final(self).windows, ..*old(self) })
                },
                Err(e) => {
                    &&& !old(self).windows@[window as int].spec_is_internal()
                    &&& e == WindowError::Domain(DomainFault::CombinationLimitOnLeaf)
                    &&& *final(self) == *old(self)
                },
            }),
    {
        if !self.windows[window].is_internal() {
            return Err(WindowError::Domain(DomainFault::CombinationLimitOnLeaf));
        }
        let w = &mut self.windows[window];
        w.combination_limit = limit;
        proof {
            assert(old(self).windows@[window as int].wf(
                old(self).windows@.len() as int,
                old(self).frames@.len() as int,
                old(self).buffers@.len() as int,
            ));
            lemma_wf_window_update(*old(self), *self, window as int);
        }
        Ok(limit)
    }

    /// Bind a window parameter; an existing binding is overwritten in
    /// place, a fresh one is prepended.  Return the value.
    pub fn set_window_parameter(
        &mut self,
        window: LispWindowOrSelected,
        parameter: LispObject,
        value: LispObject,
    ) -> (r: LispObject)
        requires
            old(self).wf(),
            window.id < old(self).windows@.len(),
        ensures
            final(self).wf(),
            r == value,
            final(self).windows@[window.id as int].params@ == spec_set_param(
                old(self).windows@[window.id as int].params@,
                parameter,
                value,
            ),
            final(self).windows@ == old(self).windows@.update(
                window.id as int,
                (LispWindowRef {
                    params: final(self).windows@[window.id as int].params,
                    ..old(self).windows@[window.id as int]
                }),
            ),
            *final(self) == (Session { windows: final(self).windows, ..*old(self) }),
    {
        let w = &mut self.windows[window.id];
        w.set_parameter(parameter, value);
        proof {
            assert(old(self).windows@[window.id as int].wf(
                old(self).windows@.len() as int,
                old(self).frames@.len() as int,
                old(self).buffers@.len() as int,
            ));
            lemma_wf_window_update(*old(self), *self, window.id as int);
        }
        value
    }

    /// Stage a new total size for a window: overwrite it, or with
    /// `add` accumulate into it; return the staged value.  Staging
    /// never touches the window's authoritative pixel or total
    /// geometry; a separate commit pass validates the staged sizes of
    /// a whole combination before any visible geometry changes.
    pub fn set_window_new_total(
        &mut self,
        window: LispWindowValidOrSelected,
        size: i64,
        add: bool,
    ) -> (r: i64)
        requires
            old(self).wf(),
            window.id < old(self).windows@.len(),
            add ==> i64::MIN <= old(self).windows@[window.id as int].new_total + size
                <= i64::MAX,
        ensures
            final(self).wf(),
            r == (if add {
                old(self).windows@[window.id as int].new_total + size
            } else {
                size as int
            }),
            final(self).windows@ == old(self).windows@.update(
                window.id as int,
                (LispWindowRef { new_total: r, ..old(self).windows@[window.id as int] }),
            ),
            *final(self) == (Session { windows: final(self).windows, ..*old(self) }),
            final(self).windows@[window.id as int].pixel_width == old(self).windows@[window.id as int].pixel_width,
            final(self).windows@[window.id as int].pixel_height == old(self).windows@[window.id as int].pixel_height,
            final(self).windows@[window.id as int].total_cols == old(self).windows@[window.id as int].total_cols,
            final(self).windows@[window.id as int].total_lines == old(self).windows@[window.id as int].total_lines,
    {
        let w = &mut self.windows[window.id];
        let nt: i64 = if !add {
            size
        } else {
            w.new_total + size
        };
        w.new_total = nt;
        proof {
            assert(old(self).windows@[window.id as int].wf(
                old(self).windows@.len() as int,
                old(self).frames@.len() as int,
                old(self).buffers@.len() as int,
            ));
            lemma_wf_window_update(*old(self), *self, window.id as int);
        }
        nt
    }

    /// Flag the mode line of `w` for recomputation: through the global
    /// flag when `w` is its frame's selected window, through the
    /// window's own flag otherwise.
    pub fn wset_update_mode_line(&mut self, w: usize)
        requires
            old(self).wf(),
            w < old(self).windows@.len(),
        ensures
            final(self).wf(),
            ({
                let fsel =
                    old(self).frames@[old(self).windows@[w as int].frame as int].selected_window;
                if fsel == LispObject::Window(w) {
                    *final(self) == (Session { mode_lines_need_update: true, ..*old(self) })
                } else {
                    final(self).windows@ == old(self).windows@.update(
                        w as int,
                        (LispWindowRef { update_mode_line: true, ..old(self).windows@[w as int] }),
                    ) && *final(self) == (Session { windows: final(self).windows, ..*old(self) })
                }
            }),
    {
        let f = self.windows[w].frame;
        proof {
            assert(old(self).windows@[w as int].wf(
                old(self).windows@.len() as int,
                old(self).frames@.len() as int,
                old(self).buffers@.len() as int,
            ));
            assert(frame_refs_ok(old(self).frames@[f as int], old(self).windows@.len() as int));
        }
        let selected_here = match self.frames[f].selected_window {
            LispObject::Window(win) => win == w,
            _ => false,
        };
        if selected_here {
            self.mode_lines_need_update = true;
        } else {
            let wr = &mut self.windows[w];
            wr.update_mode_line = true;
            proof {
                lemma_wf_window_update(*old(self), *self, w as int);
            }
        }
    }

    /// Set a window's horizontal scroll to `target`, clamped to the
    /// valid range; return the resulting scroll.
    pub fn set_window_hscroll(&mut self, w: usize, target: i64) -> (r: i64)
        requires
            old(self).wf(),
            w < old(self).windows@.len(),
        ensures
            final(self).wf(),
            r == spec_clamp(target as int, 0, HSCROLL_LIMIT as int),
            final(self).windows@ == old(self).windows@.update(
                w as int,
                (LispWindowRef { hscroll: r, ..old(self).windows@[w as int] }),
            ),
            *final(self) == (Session { windows: final(self).windows, ..*old(self) }),
    {
        let nh: i64 = if target < 0 {
            0
        } else if target > HSCROLL_LIMIT {
            HSCROLL_LIMIT
        } else {
            target
        };
        let wr = &mut self.windows[w];
        wr.hscroll = nh;
        proof {
            assert(old(self).windows@[w as int].wf(
                old(self).windows@.len() as int,
                old(self).frames@.len() as int,
                old(self).buffers@.len() as int,
            ));
            lemma_wf_window_update(*old(self), *self, w as int);
        }
        nh
    }
}

/// The scroll delta a horizontal scroll request asks for: the given
/// amount (negated when scrolling right), or the window's body width
/// less two columns when no amount is given.
pub open spec fn spec_scroll_requested(w: LispWindowRef, arg: Option<i64>, left: bool) -> int {
    match arg {
        None => w.body_cols - 2,
        Some(a) => if left {
            a as int
        } else {
            -(a as int)
        },
    }
}

impl Session {
    /// Scroll the selected window's display horizontally: move
    /// `hscroll` by the requested amount (clamped to the valid range),
    /// raise the automatic-scroll lower bound to the result when
    /// `set_minimum` holds, and suspend automatic horizontal scrolling.
    /// Returns the total leftward scroll in effect after the change.
    #[verifier::rlimit(50)]
    pub fn scroll_horizontally(&mut self, arg: Option<i64>, set_minimum: bool, left: bool) -> (r:
        i64)
        requires
            old(self).wf(),
            (match arg {
                Some(a) => -SCROLL_ARG_LIMIT <= a <= SCROLL_ARG_LIMIT,
                None => true,
            }),
        ensures
            final(self).wf(),
            ({
                let id = old(self).spec_selected() as int;
                let w0 = old(self).windows@[id];
                let nh = spec_clamp(
                    w0.hscroll + spec_scroll_requested(w0, arg, left),
                    0,
                    HSCROLL_LIMIT as int,
                );
                &&& r == nh
                &&& final(self).windows@ == old(self).windows@.update(
                    id,
                    (LispWindowRef {
                        hscroll: r,
                        min_hscroll: (if set_minimum {
                            r
                        } else {
                            w0.min_hscroll
                        }),
                        suspend_auto_hscroll: true,
                        ..w0
                    }),
                )
                &&& *final(self) == (Session { windows: final(self).windows, ..*old(self) })
            }),
    {
        let id = match self.selected_window {
            LispObject::Window(i) => i,
            _ => 0,
        };
        proof {
            assert(old(self).windows@[id as int].wf(
                old(self).windows@.len() as int,
                old(self).frames@.len() as int,
                old(self).buffers@.len() as int,
            ));
        }
        let requested: i64 = match arg {
            None => self.windows[id].body_cols as i64 - 2,
            Some(a) => if left {
                a
            } else {
                -a
            },
        };
        let target = self.windows[id].hscroll + requested;
        let nh: i64 = if target < 0 {
            0
        } else if target > HSCROLL_LIMIT {
            HSCROLL_LIMIT
        } else {
            target
        };
        let wr = &mut self.windows[id];
        wr.hscroll = nh;
        if set_minimum {
            wr.min_hscroll = nh;
        }
        wr.suspend_auto_hscroll = true;
        proof {
            lemma_wf_window_update(*old(self), *self, id as int);
        }
        nh
    }

    /// Scroll the selected window's display `arg` columns left; `arg`
    /// defaults to the window's body width less two columns.
    pub fn scroll_left(&mut self, arg: Option<i64>, set_minimum: bool) -> (r: i64)
        requires
            old(self).wf(),
            (match arg {
                Some(a) => -SCROLL_ARG_LIMIT <= a <= SCROLL_ARG_LIMIT,
                None => true,
            }),
        ensures
            final(self).wf(),
            ({
                let id = old(self).spec_selected() as int;
                let w0 = old(self).windows@[id];
                let nh = spec_clamp(
                    w0.hscroll + spec_scroll_requested(w0, arg, true),
                    0,
                    HSCROLL_LIMIT as int,
                );
                &&& r == nh
                &&& final(self).windows@ == old(self).windows@.update(
                    id,
                    (LispWindowRef {
                        hscroll: r,
                        min_hscroll: (if set_minimum {
                            r
                        } else {
                            w0.min_hscroll
                        }),
                        suspend_auto_hscroll: true,
                        ..w0
                    }),
                )
                &&& *final(self) == (Session { windows: final(self).windows, ..*old(self) })
            }),
    {
        self.scroll_horizontally(arg, set_minimum, true)
    }

    /// Scroll the selected window's display `arg` columns right; `arg`
    /// defaults to the window's body width less two columns.
    pub fn scroll_right(&mut self, arg: Option<i64>, set_minimum: bool) -> (r: i64)
        requires
            old(self).wf(),
            (match arg {
                Some(a) => -SCROLL_ARG_LIMIT <= a <= SCROLL_ARG_LIMIT,
                None => true,
            }),
        ensures
            final(self).wf(),
            ({
                let id = old(self).spec_selected() as int;
                let w0 = old(self).windows@[id];
                let nh = spec_clamp(
                    w0.hscroll + spec_scroll_requested(w0, arg, false),
                    0,
                    HSCROLL_LIMIT as int,
                );
                &&& r == nh
                &&& final(self).windows@ == old(self).windows@.update(
                    id,
                    (LispWindowRef {
                        hscroll: r,
                        min_hscroll: (if set_minimum {
                            r
                        } else {
                            w0.min_hscroll
                        }),
                        suspend_auto_hscroll: true,
                        ..w0
                    }),
                )
                &&& *final(self) == (Session { windows: final(self).windows, ..*old(self) })
            }),
    {
        self.scroll_horizontally(arg, set_minimum, false)
    }
}

/// A session stays well formed when one window and one frame record
/// change and the new records respect the same bounds.
pub proof fn lemma_wf_window_frame_update(s0: Session, s1: Session, wid: int, fid: int)
    requires
        s0.wf(),
        0 <= wid < s0.windows@.len(),
        0 <= fid < s0.frames@.len(),
        s1.windows@.len() == s0.windows@.len(),
        forall|i: int| 0 <= i < s0.windows@.len() && i != wid ==> s1.windows@[i] == s0.windows@[i],
        s1.windows@[wid].wf(
            s0.windows@.len() as int,
            s0.frames@.len() as int,
            s0.buffers@.len() as int,
        ),
        s1.frames@.len() == s0.frames@.len(),
        forall|i: int| 0 <= i < s0.frames@.len() && i != fid ==> s1.frames@[i] == s0.frames@[i],
        frame_refs_ok(s1.frames@[fid], s0.windows@.len() as int),
        s1.buffers@ == s0.buffers@,
        s1.selected_window == s0.selected_window,
        s1.selected_frame == s0.selected_frame,
        s1.current_buffer == s0.current_buffer,
        s1.minibuf_selected_window == s0.minibuf_selected_window,
        s1.select_count == s0.select_count,
    ensures
        s1.wf(),
{
    let nw = s1.windows@.len() as int;
    let nf = s1.frames@.len() as int;
    let nb = s1.buffers@.len() as int;
    assert forall|i: int| 0 <= i < nw implies (#[trigger] s1.windows@[i]).wf(nw, nf, nb) by {
        if i != wid {
            assert(s0.windows@[i].wf(nw, nf, nb));
        }
    }
    assert forall|i: int| 0 <= i < nf implies frame_refs_ok(#[trigger] s1.frames@[i], nw) by {
        if i != fid {
            assert(frame_refs_ok(s0.frames@[i], nw));
        }
    }
    assert forall|i: int| 0 <= i < nb implies (#[trigger] s1.buffers@[i]).wf() by {
        assert(s0.buffers@[i].wf());
    }
}

impl Session {
    /// Move window point of a live window to `pos` in the window's
    /// buffer, clipped to the buffer's accessible range; return `pos`.
    /// For the selected window the buffer's own point moves (the
    /// authoritative one); for any other window the cached marker
    /// moves and the window is flagged for redisplay.  A position that
    /// is not a number is a wrong-type failure and changes nothing.
    pub fn set_window_point(&mut self, window: LispWindowLiveOrSelected, pos: LispObject) -> (r: Result<
        LispObject,
        WindowError,
    >)
        requires
            old(self).wf(),
            window.id < old(self).windows@.len(),
            old(self).windows@[window.id as int].spec_is_live(),
        ensures
            final(self).wf(),
            (match r {
                Ok(p) => {
                    let id = window.id as int;
                    let w0 = old(self).windows@[id];
                    let b = w0.spec_buffer() as int;
                    let buf0 = old(self).buffers@[b];
                    let np = spec_clamp(pos.spec_int_of() as int, buf0.begv as int, buf0.zv as int);
                    &&& p == pos
                    &&& pos is Int
                    &&& (if window.id == old(self).spec_selected() {
                        &&& final(self).buffers@ == old(self).buffers@.update(
                            b,
                            (Buffer { point: np as i64, ..buf0 }),
                        )
                        &&& *final(self) == (Session { buffers: final(self).buffers, ..*old(self) })
                    } else {
                        &&& final(self).windows@ == old(self).windows@.update(
                            id,
                            (LispWindowRef { pointm: Some(np as i64), needs_redisplay: true, ..w0 }),
                        )
                        &&& *final(self) == (Session { windows: final(self).windows, ..*old(self) })
                    })
                },
                Err(e) => {
                    &&& !(pos is Int)
                    &&& e == WindowError::WrongType(TypePred::Numberp, pos)
                    &&& *final(self) == *old(self)
                },
            }),
    {
        let p = pos.as_number_or_error()?;
        let id = window.id;
        proof {
            assert(old(self).windows@[id as int].wf(
                old(self).windows@.len() as int,
                old(self).frames@.len() as int,
                old(self).buffers@.len() as int,
            ));
        }
        let sel = match self.selected_window {
            LispObject::Window(i) => i,
            _ => 0,
        };
        let b = match self.windows[id].contents {
            Contents::Buffer(b) => b,
            _ => 0,
        };
        proof {
            assert(old(self).buffers@[b as int].wf());
        }
        let begv = self.buffers[b].begv;
        let zv = self.buffers[b].zv;
        let np: i64 = if p < begv {
            begv
        } else if p > zv {
            zv
        } else {
            p
        };
        if id == sel {
            let br = &mut self.buffers[b];
            br.point = np;
            proof {
                let nw = self.windows@.len() as int;
                let nf = self.frames@.len() as int;
                let nb = self.buffers@.len() as int;
                assert forall|i: int| 0 <= i < nb implies (#[trigger] self.buffers@[i]).wf() by {
                    if i != b {
                        assert(old(self).buffers@[i].wf());
                    }
                }
                assert forall|i: int| 0 <= i < nw implies (#[trigger] self.windows@[i]).wf(
                    nw,
                    nf,
                    nb,
                ) by {
                    assert(old(self).windows@[i].wf(nw, nf, nb));
                }
                assert forall|i: int| 0 <= i < nf implies frame_refs_ok(
                    #[trigger] self.frames@[i],
                    nw,
                ) by {
                    assert(frame_refs_ok(old(self).frames@[i], nw));
                }
            }
        } else {
            let wr = &mut self.windows[id];
            wr.pointm = Some(np);
            wr.needs_redisplay = true;
            proof {
                lemma_wf_window_update(*old(self), *self, id as int);
            }
        }
        Ok(pos)
    }

    /// Make display in a live window start at `pos` in its buffer;
    /// return `pos`.  The start marker moves (nil makes it point
    /// nowhere), the start is no longer known to sit at a line
    /// beginning, the window end becomes invalid, the window's mode
    /// line and the window itself are flagged for redisplay, and
    /// unless `noforce` holds the next redisplay is told not to
    /// override this exact start.  A position that is neither a number
    /// nor nil is a wrong-type failure and changes nothing.
    #[verifier::rlimit(100)]
    pub fn set_window_start(
        &mut self,
        window: LispWindowLiveOrSelected,
        pos: LispObject,
        noforce: bool,
    ) -> (r: Result<LispObject, WindowError>)
        requires
            old(self).wf(),
            window.id < old(self).windows@.len(),
            old(self).windows@[window.id as int].spec_is_live(),
        ensures
            final(self).wf(),
            (match r {
                Ok(p) => {
                    let id = window.id as int;
                    let w0 = old(self).windows@[id];
                    let b = w0.spec_buffer() as int;
                    let buf0 = old(self).buffers@[b];
                    let ns = (if pos is Nil {
                        Option::<i64>::None
                    } else {
                        Some(
                            spec_clamp(
                                pos.spec_int_of() as int,
                                buf0.begv as int,
                                buf0.zv as int,
                            ) as i64,
                        )
                    });
                    let fid = w0.frame as int;
                    let fsel = old(self).frames@[fid].selected_window;
                    &&& p == pos
                    &&& (pos is Int || pos is Nil)
                    &&& final(self).windows@ == old(self).windows@.update(
                        id,
                        (LispWindowRef {
                            start: ns,
                            start_at_line_beg: false,
                            force_start: (if !noforce {
                                true
                            } else {
                                w0.force_start
                            }),
                            window_end_valid: false,
                            update_mode_line: (if fsel == LispObject::Window(window.id) {
                                w0.update_mode_line
                            } else {
                                true
                            }),
                            needs_redisplay: true,
                            ..w0
                        }),
                    )
                    &&& final(self).frames@ == old(self).frames@.update(
                        fid,
                        (Frame { needs_redisplay: true, ..old(self).frames@[fid] }),
                    )
                    &&& final(self).mode_lines_need_update == (if fsel == LispObject::Window(window.id) {
                        true
                    } else {
                        old(self).mode_lines_need_update
                    })
                    &&& *final(self) == (Session {
                        windows: final(self).windows,
                        frames: final(self).frames,
                        mode_lines_need_update: final(self).mode_lines_need_update,
                        ..*old(self)
                    })
                },
                Err(e) => {
                    &&& !(pos is Int) && !(pos is Nil)
                    &&& e == WindowError::WrongType(TypePred::Numberp, pos)
                    &&& *final(self) == *old(self)
                },
            }),
    {
        let id = window.id;
        proof {
            assert(old(self).windows@[id as int].wf(
                old(self).windows@.len() as int,
                old(self).frames@.len() as int,
                old(self).buffers@.len() as int,
            ));
        }
        let b = match self.windows[id].contents {
            Contents::Buffer(b) => b,
            _ => 0,
        };
        proof {
            assert(old(self).buffers@[b as int].wf());
        }
        let ns: Option<i64> = match pos {
            LispObject::Nil => None,
            LispObject::Int(p) => {
                let begv = self.buffers[b].begv;
                let zv = self.buffers[b].zv;
                Some(
                    if p < begv {
                        begv
                    } else if p > zv {
                        zv
                    } else {
                        p
                    },
                )
            },
            _ => {
                return Err(WindowError::WrongType(TypePred::Numberp, pos));
            },
        };
        let f = self.windows[id].frame;
        proof {
            assert(frame_refs_ok(old(self).frames@[f as int], old(self).windows@.len() as int));
        }
        let fsel = self.frames[f].selected_window;
        let set_global = match fsel {
            LispObject::Window(win) => win == id,
            _ => false,
        };
        let set_window_flag = !set_global;
        let wr = &mut self.windows[id];
        wr.stage_start(ns, noforce, set_window_flag);
        if set_global {
            self.mode_lines_need_update = true;
        }
        let fr = &mut self.frames[f];
        fr.needs_redisplay = true;
        proof {
            lemma_wf_window_frame_update(*old(self), *self, id as int, f as int);
        }
        Ok(pos)
    }

    /// Select a live window: it becomes the process-wide selected
    /// window, its frame the selected frame and records it as selected,
    /// its buffer becomes current, and the buffer's point moves to the
    /// window's own point (clipped to the accessible range).  Unless
    /// `norecord` holds, the window is stamped as the most recently
    /// selected one.  Returns the window; anything but a live window is
    /// a wrong-type failure and changes nothing.
    #[verifier::rlimit(50)]
    pub fn select_window(&mut self, window: LispObject, norecord: bool) -> (r: Result<LispObject, WindowError>)
        requires
            old(self).wf(),
            old(self).select_count < USE_TIME_LIMIT,
        ensures
            final(self).wf(),
            (match r {
                Ok(o) => {
                    let id = (match window {
                        LispObject::Window(i) => i as int,
                        _ => 0,
                    });
                    let w0 = old(self).windows@[id];
                    let fid = w0.frame as int;
                    let b = w0.spec_buffer() as int;
                    let buf0 = old(self).buffers@[b];
                    let np = (match w0.pointm {
                        Some(p) => spec_clamp(p as int, buf0.begv as int, buf0.zv as int) as i64,
                        None => buf0.point,
                    });
                    let stamp = (if norecord {
                        w0.use_time
                    } else {
                        (old(self).select_count + 1) as i64
                    });
                    &&& o == window
                    &&& old(self).spec_is_live_window_obj(window)
                    &&& final(self).windows@ == old(self).windows@.update(
                        id,
                        (LispWindowRef { use_time: stamp, ..w0 }),
                    )
                    &&& final(self).frames@ == old(self).frames@.update(
                        fid,
                        (Frame { selected_window: window, ..old(self).frames@[fid] }),
                    )
                    &&& final(self).buffers@ == old(self).buffers@.update(
                        b,
                        (Buffer { point: np, ..buf0 }),
                    )
                    &&& final(self).selected_window == window
                    &&& final(self).selected_frame == w0.frame
                    &&& final(self).current_buffer == w0.spec_buffer()
                    &&& final(self).select_count == (if norecord {
                        old(self).select_count as int
                    } else {
                        old(self).select_count + 1
                    })
                    &&& *final(self) == (Session {
                        windows: final(self).windows,
                        frames: final(self).frames,
                        buffers: final(self).buffers,
                        selected_window: window,
                        selected_frame: final(self).selected_frame,
                        current_buffer: final(self).current_buffer,
                        select_count: final(self).select_count,
                        ..*old(self)
                    })
                },
                Err(e) => {
                    &&& !old(self).spec_is_live_window_obj(window)
                    &&& e == WindowError::WrongType(TypePred::WindowLivep, window)
                    &&& *final(self) == *old(self)
                },
            }),
    {
        let id = window.as_live_window_or_error(self)?;
        proof {
            assert(old(self).windows@[id as int].wf(
                old(self).windows@.len() as int,
                old(self).frames@.len() as int,
                old(self).buffers@.len() as int,
            ));
        }
        let f = self.windows[id].frame;
        let b = match self.windows[id].contents {
            Contents::Buffer(b) => b,
            _ => 0,
        };
        proof {
            assert(old(self).buffers@[b as int].wf());
            assert(frame_refs_ok(old(self).frames@[f as int], old(self).windows@.len() as int));
        }
        if !norecord {
            let stamp = self.select_count + 1;
            self.select_count = stamp;
            let wr = &mut self.windows[id];
            wr.use_time = stamp;
        }
        let fr = &mut self.frames[f];
        fr.selected_window = window;
        self.selected_window = window;
        self.selected_frame = f;
        self.current_buffer = b;
        let begv = self.buffers[b].begv;
        let zv = self.buffers[b].zv;
        let np: i64 = match self.windows[id].pointm {
            Some(p) => if p < begv {
                begv
            } else if p > zv {
                zv
            } else {
                p
            },
            None => self.buffers[b].point,
        };
        let br = &mut self.buffers[b];
        br.point = np;
        proof {
            let nw = self.windows@.len() as int;
            let nf = self.frames@.len() as int;
            let nb = self.buffers@.len() as int;
            if norecord {
                assert(self.windows@ =~= old(self).windows@.update(
                    id as int,
                    (LispWindowRef {
                        use_time: old(self).windows@[id as int].use_time,
                        ..old(self).windows@[id as int]
                    }),
                ));
            }
            if old(self).windows@[id as int].pointm is None {
                assert(self.buffers@ =~= old(self).buffers@.update(
                    b as int,
                    (Buffer { point: old(self).buffers@[b as int].point, ..old(self).buffers@[b as int] }),
                ));
            }
            assert forall|i: int| 0 <= i < nw implies (#[trigger] self.windows@[i]).wf(
                nw,
                nf,
                nb,
            ) by {
                assert(old(self).windows@[i].wf(nw, nf, nb));
            }
            assert forall|i: int| 0 <= i < nf implies frame_refs_ok(
                #[trigger] self.frames@[i],
                nw,
            ) by {
                assert(frame_refs_ok(old(self).frames@[i], nw));
            }
            assert forall|i: int| 0 <= i < nb implies (#[trigger] self.buffers@[i]).wf() by {
                assert(old(self).buffers@[i].wf());
            }
        }
        Ok(window)
    }

    /// The current height of the mode line of window `w`.  The cached
    /// value wins when known; otherwise the height of the last row of
    /// the window's current glyph matrix (`matrix_height`, 0 when
    /// unavailable) is cached and returned; otherwise the height
    /// estimated from the mode-line face (`estimated_height`) is
    /// cached and returned.  The two fallback heights come from the
    /// external rendering pass.
    pub fn current_mode_line_height(
        &mut self,
        w: usize,
        matrix_height: i32,
        estimated_height: i32,
    ) -> (r: i32)
        requires
            old(self).wf(),
            w < old(self).windows@.len(),
            0 <= matrix_height <= COORD_LIMIT,
            0 <= estimated_height <= COORD_LIMIT,
        ensures
            final(self).wf(),
            ({
                let c = old(self).windows@[w as int].mode_line_height;
                if c >= 0 {
                    r == c && *final(self) == *old(self)
                } else {
                    let nh = (if matrix_height != 0 {
                        matrix_height
                    } else {
                        estimated_height
                    });
                    &&& r == nh
                    &&& final(self).windows@ == old(self).windows@.update(
                        w as int,
                        (LispWindowRef { mode_line_height: nh, ..old(self).windows@[w as int] }),
                    )
                    &&& *final(self) == (Session { windows: final(self).windows, ..*old(self) })
                }
            }),
    {
        let cached = self.windows[w].mode_line_height;
        if cached >= 0 {
            return cached;
        }
        let nh = if matrix_height != 0 {
            matrix_height
        } else {
            estimated_height
        };
        let wr = &mut self.windows[w];
        wr.mode_line_height = nh;
        proof {
            assert(old(self).windows@[w as int].wf(
                old(self).windows@.len() as int,
                old(self).frames@.len() as int,
                old(self).buffers@.len() as int,
            ));
            lemma_wf_window_update(*old(self), *self, w as int);
        }
        nh
    }

    /// The face of a window's mode line, given the window compared
    /// against the selection (`selw`), the recorded mode-line window
    /// (`mbw`) and the recorded scroll window (`scrw`).  The face is
    /// active when inactive-window mode lines are not distinguished or
    /// `selw` is the selected window; otherwise, during minibuffer
    /// interaction, when `mbw` and `scrw` both equal the window
    /// recorded for the active minibuffer.  The three-argument form
    /// exists because the window that is nominally selected while mode
    /// lines are drawn can differ from the real selection.
    pub open spec fn spec_mode_line_face(&self, selw: usize, mbw: usize, scrw: usize) -> ModeLineFace {
        if !self.mode_line_in_non_selected_windows || LispObject::Window(selw) == self.selected_window {
            ModeLineFace::Active
        } else if self.minibuf_level > 0 && (match self.minibuf_selected_window {
            LispObject::Window(m) => mbw == m && scrw == m,
            _ => false,
        }) {
            ModeLineFace::Active
        } else {
            ModeLineFace::Inactive
        }
    }

    #[allow(non_snake_case)]
    pub fn CURRENT_MODE_LINE_FACE_ID_3(&self, selw: usize, mbw: usize, scrw: usize) -> (r:
        ModeLineFace)
        ensures
            r == self.spec_mode_line_face(selw, mbw, scrw),
    {
        let selected = match self.selected_window {
            LispObject::Window(c) => selw == c,
            _ => false,
        };
        if !self.mode_line_in_non_selected_windows || selected {
            return ModeLineFace::Active;
        }
        if self.minibuf_level > 0 {
            match self.minibuf_selected_window {
                LispObject::Window(m) => {
                    if mbw == m && scrw == m {
                        return ModeLineFace::Active;
                    }
                },
                _ => {},
            }
        }
        ModeLineFace::Inactive
    }

    /// The face of window `window`'s mode line, compared against the
    /// current selection.
    #[allow(non_snake_case)]
    pub fn CURRENT_MODE_LINE_FACE_ID(&self, window: usize) -> (r: ModeLineFace)
        requires
            self.selected_window is Window,
        ensures
            r == self.spec_mode_line_face(window, self.spec_selected(), window),
    {
        let current = match self.selected_window {
            LispObject::Window(c) => c,
            _ => 0,
        };
        self.CURRENT_MODE_LINE_FACE_ID_3(window, current, window)
    }

    /// The current mode-line height of window `w`, caching a fallback
    /// height when none is cached yet.
    #[allow(non_snake_case)]
    pub fn CURRENT_MODE_LINE_HEIGHT(&mut self, w: usize, matrix_height: i32, estimated_height: i32) -> (r: i32)
        requires
            old(self).wf(),
            w < old(self).windows@.len(),
            0 <= matrix_height <= COORD_LIMIT,
            0 <= estimated_height <= COORD_LIMIT,
        ensures
            final(self).wf(),
            ({
                let c = old(self).windows@[w as int].mode_line_height;
                if c >= 0 {
                    r == c && *final(self) == *old(self)
                } else {
                    let nh = (if matrix_height != 0 {
                        matrix_height
                    } else {
                        estimated_height
                    });
                    &&& r == nh
                    &&& final(self).windows@ == old(self).windows@.update(
                        w as int,
                        (LispWindowRef { mode_line_height: nh, ..old(self).windows@[w as int] }),
                    )
                    &&& *final(self) == (Session { windows: final(self).windows, ..*old(self) })
                }
            }),
    {
        self.current_mode_line_height(w, matrix_height, estimated_height)
    }
}

/// Decode a window argument that defaults to the selected window.
pub fn decode_any_window(window: LispObject, s: &Session) -> (r: Result<usize, WindowError>)
    requires
        s.wf(),
    ensures
        (match r {
            Ok(i) => i < s.windows@.len() && (if window is Nil {
                i == s.spec_selected()
            } else {
                window == LispObject::Window(i)
            }),
            Err(e) => !(window is Nil) && !s.spec_is_window_obj(window) && e
                == WindowError::WrongType(TypePred::Windowp, window),
        }),
{
    let w = LispWindowOrSelected::decode(window, s)?;
    Ok(w.id)
}

} // verus!
