//! Plain values exchanged with the scripting layer, and the typed
//! failures that window operations surface.

use vstd::prelude::*;

verus! {

/// Largest pixel coordinate or extent a window or frame may carry.
/// Keeping coordinates below this bound lets sums of a few of them
/// stay within `i32`.
pub const COORD_LIMIT: i32 = 0x0fff_ffff;

/// Largest buffer position handled by the marker bookkeeping.
pub const POS_LIMIT: i64 = 0xffff_ffff_ffff;

/// Largest column offset the horizontal-scroll state may reach.
pub const HSCROLL_LIMIT: i64 = 0xffff_ffff_ffff;

/// Largest magnitude accepted for an explicit scroll amount.
pub const SCROLL_ARG_LIMIT: i64 = 0xffff_ffff_ffff;

/// Largest value of the selection counter that stamps window use times.
pub const USE_TIME_LIMIT: i64 = 0x0fff_ffff_ffff_ffff;

/// Largest number of window records an arena may hold; keeps sums of
/// per-window pixel extents within `i64`.
pub const ARENA_LIMIT: usize = 0xffff_ffff;

/// The symbol `none`, used as a parameter value that suppresses a
/// mode line or header line.
pub const SYM_NONE: u64 = 0;

/// The symbol naming the per-window mode-line-format parameter.
pub const SYM_MODE_LINE_FORMAT: u64 = 1;

/// The symbol naming the per-window header-line-format parameter.
pub const SYM_HEADER_LINE_FORMAT: u64 = 2;

/// A value of the scripting layer, decoded at the library boundary.
/// Window, buffer and frame references carry arena indices; a stale
/// index is treated as referring to no object at all.
#[derive(Clone, Copy, PartialEq, Eq, Structural, Debug)]
pub enum LispObject {
    Nil,
    True,
    Int(i64),
    Sym(u64),
    Window(usize),
    Buffer(usize),
    Frame(usize),
}

impl LispObject {
    pub open spec fn spec_is_not_nil(self) -> bool {
        !(self is Nil)
    }

    pub fn is_not_nil(self) -> (r: bool)
        ensures
            r == self.spec_is_not_nil(),
    {
        !matches!(self, LispObject::Nil)
    }

    /// True when the value is a window reference, whether or not the
    /// index is still in use.
    pub open spec fn spec_is_window(self) -> bool {
        self is Window
    }

    pub fn is_window(self) -> (r: bool)
        ensures
            r == self.spec_is_window(),
    {
        matches!(self, LispObject::Window(_))
    }

    pub open spec fn spec_as_window(self) -> Option<usize> {
        match self {
            LispObject::Window(i) => Some(i),
            _ => None,
        }
    }

    pub fn as_window(self) -> (r: Option<usize>)
        ensures
            r == self.spec_as_window(),
    {
        match self {
            LispObject::Window(i) => Some(i),
            _ => None,
        }
    }

    /// The integer payload of a number, 0 for anything else.
    pub open spec fn spec_int_of(self) -> i64 {
        match self {
            LispObject::Int(n) => n,
            _ => 0,
        }
    }

    /// The integer a position argument stands for; a typed failure
    /// for anything that is not a number.
    pub fn as_number_or_error(self) -> (r: Result<i64, WindowError>)
        ensures
            (match r {
                Ok(n) => self == LispObject::Int(n),
                Err(e) => !(self is Int) && e == WindowError::WrongType(TypePred::Numberp, self),
            }),
    {
        match self {
            LispObject::Int(n) => Ok(n),
            _ => Err(WindowError::WrongType(TypePred::Numberp, self)),
        }
    }
}

/// The classification predicate an operand was expected to satisfy.
#[derive(Clone, Copy, PartialEq, Eq, Structural, Debug)]
pub enum TypePred {
    Windowp,
    WindowLivep,
    WindowValidp,
    Numberp,
    FrameLivep,
}

/// A structurally valid window offered to an operation for which its
/// role is wrong.
#[derive(Clone, Copy, PartialEq, Eq, Structural, Debug)]
pub enum DomainFault {
    NotAMinibuffer,
    CombinationLimitOnLeaf,
    DeleteRootWindow,
    DeleteSoleChild,
}

/// The typed failures of this core: a wrong-type operand, a window in
/// the wrong role, or a window and a frame that do not agree.
#[derive(Clone, Copy, PartialEq, Eq, Structural, Debug)]
pub enum WindowError {
    WrongType(TypePred, LispObject),
    Domain(DomainFault),
    CrossFrame,
}

/// How strongly a window is dedicated to the buffer it displays.
#[derive(Clone, Copy, PartialEq, Eq, Structural, Debug)]
pub enum Dedication {
    NotDedicated,
    Weak,
    Strong,
}

/// Whether the children of an internal window may be recombined with
/// that window's siblings.
#[derive(Clone, Copy, PartialEq, Eq, Structural, Debug)]
pub enum CombinationLimit {
    Unset,
    Limited,
}

/// The face drawn for a window's mode line.
#[derive(Clone, Copy, PartialEq, Eq, Structural, Debug)]
pub enum ModeLineFace {
    Active,
    Inactive,
}

} // verus!
