use window_core::geometry::{pixels_to_units, Rounding};
use window_core::session::{
    decode_any_window, LispWindowLiveOrSelected, LispWindowOrSelected, LispWindowValidOrSelected,
    Session,
};
use window_core::tree::{FrameScope, MinibufferPolicy};
use window_core::values::{
    CombinationLimit, Dedication, DomainFault, ModeLineFace, LispObject, TypePred, WindowError,
    SYM_MODE_LINE_FORMAT, SYM_NONE,
};
use window_core::window::{window_wants_mode_line, Buffer, Contents, Frame, LispWindowRef};

fn frame() -> Frame {
    Frame {
        column_width: 10,
        line_height: 16,
        internal_border_width: 2,
        root_window: 0,
        selected_window: LispObject::Window(0),
        minibuffer_window: LispObject::Nil,
        live: true,
        visible: true,
        iconified: false,
        needs_redisplay: false,
    }
}

fn buffer() -> Buffer {
    Buffer {
        begv: 1,
        zv: 100,
        point: 1,
        mode_line_format: LispObject::Nil,
        header_line_format: LispObject::Nil,
    }
}

/// One frame, one live root window showing buffer 0.
fn single_window_session() -> Session {
    let w = LispWindowRef::new_leaf(0, 0);
    Session {
        windows: vec![w],
        frames: vec![frame()],
        buffers: vec![buffer()],
        selected_window: LispObject::Window(0),
        selected_frame: 0,
        current_buffer: 0,
        minibuf_level: 0,
        minibuf_selected_window: LispObject::Nil,
        mode_line_in_non_selected_windows: false,
        mode_lines_need_update: false,
        select_count: 0,
    }
}

/// One frame whose root (index 0) is a vertical combination of the
/// two leaves 1 and 2, stacked to fill a 610x640 frame area.
fn split_session() -> Session {
    let mut root = LispWindowRef::new_leaf(0, 0);
    root.contents = Contents::Child(1);
    root.pixel_width = 610;
    root.pixel_height = 640;
    root.total_cols = 61;
    root.total_lines = 40;
    let mut top = LispWindowRef::new_leaf(0, 0);
    top.parent = Some(0);
    top.next = Some(2);
    top.pixel_width = 610;
    top.pixel_height = 320;
    top.total_cols = 61;
    top.total_lines = 20;
    let mut bottom = LispWindowRef::new_leaf(0, 1);
    bottom.parent = Some(0);
    bottom.prev = Some(1);
    bottom.pixel_top = 320;
    bottom.pixel_width = 610;
    bottom.pixel_height = 320;
    bottom.total_cols = 61;
    bottom.total_lines = 20;
    Session {
        windows: vec![root, top, bottom],
        frames: vec![frame()],
        buffers: vec![buffer(), buffer()],
        selected_window: LispObject::Window(1),
        selected_frame: 0,
        current_buffer: 0,
        minibuf_level: 0,
        minibuf_selected_window: LispObject::Nil,
        mode_line_in_non_selected_windows: false,
        mode_lines_need_update: false,
        select_count: 0,
    }
}

#[test]
fn floor_and_ceiling_divide_pixels() {
    assert_eq!(pixels_to_units(305, 10, 99, Rounding::Floor), 30);
    assert_eq!(pixels_to_units(305, 10, 99, Rounding::Ceiling), 31);
    assert_eq!(pixels_to_units(305, 10, 99, Rounding::Exact), 99);
    // Floor and ceiling agree exactly on whole multiples.
    assert_eq!(pixels_to_units(300, 10, 0, Rounding::Floor), 30);
    assert_eq!(pixels_to_units(300, 10, 0, Rounding::Ceiling), 30);
    assert_eq!(pixels_to_units(0, 7, 0, Rounding::Ceiling), 0);
}

#[test]
fn total_width_rounding_scenario() {
    // A 610px frame with 10px character cells split into two 305px
    // windows: ceiling says 31 columns, floor 30, and the cached
    // exact counts are assigned so that the siblings sum to 61.
    let mut s = split_session();
    s.windows[0].contents = Contents::Child(1);
    s.windows[0].horizontal = true;
    for (i, cached) in [(1usize, 31), (2usize, 30)] {
        s.windows[i].pixel_width = 305;
        s.windows[i].total_cols = cached;
        s.windows[i].pixel_height = 640;
        s.windows[i].total_lines = 40;
    }
    s.windows[2].pixel_left = 305;
    s.windows[2].pixel_top = 0;
    let w1 = LispWindowValidOrSelected::decode(LispObject::Window(1), &s).unwrap();
    let w2 = LispWindowValidOrSelected::decode(LispObject::Window(2), &s).unwrap();
    assert_eq!(s.window_total_width(w1, Rounding::Ceiling), 31);
    assert_eq!(s.window_total_width(w1, Rounding::Floor), 30);
    assert_eq!(s.window_total_width(w2, Rounding::Ceiling), 31);
    assert_eq!(s.window_total_width(w2, Rounding::Floor), 30);
    let exact_sum =
        s.window_total_width(w1, Rounding::Exact) + s.window_total_width(w2, Rounding::Exact);
    assert_eq!(exact_sum, 61);
}

#[test]
fn dedicated_round_trip() {
    let mut s = single_window_session();
    let w = LispWindowOrSelected::decode(LispObject::Nil, &s).unwrap();
    assert_eq!(s.set_window_dedicated_p(w, Dedication::Strong), Dedication::Strong);
    let w = LispWindowOrSelected::decode(LispObject::Nil, &s).unwrap();
    assert_eq!(s.window_dedicated_p(w), Dedication::Strong);
    let w = LispWindowOrSelected::decode(LispObject::Nil, &s).unwrap();
    assert_eq!(s.set_window_dedicated_p(w, Dedication::NotDedicated), Dedication::NotDedicated);
    let w = LispWindowOrSelected::decode(LispObject::Nil, &s).unwrap();
    assert_eq!(s.window_dedicated_p(w), Dedication::NotDedicated);
}

#[test]
fn new_total_staging_accumulates() {
    let mut s = single_window_session();
    s.windows[0].pixel_width = 400;
    s.windows[0].pixel_height = 300;
    s.windows[0].total_cols = 40;
    s.windows[0].total_lines = 18;
    let w = LispWindowValidOrSelected::decode(LispObject::Nil, &s).unwrap();
    assert_eq!(s.set_window_new_total(w, 5, false), 5);
    let w = LispWindowValidOrSelected::decode(LispObject::Nil, &s).unwrap();
    assert_eq!(s.set_window_new_total(w, 3, true), 8);
    let w = LispWindowValidOrSelected::decode(LispObject::Nil, &s).unwrap();
    assert_eq!(s.window_new_total(w), 8);
    // Staging never touches the authoritative geometry.
    let w = LispWindowValidOrSelected::decode(LispObject::Nil, &s).unwrap();
    assert_eq!(s.window_pixel_width(w), 400);
    let w = LispWindowValidOrSelected::decode(LispObject::Nil, &s).unwrap();
    assert_eq!(s.window_pixel_height(w), 300);
    assert_eq!(s.windows[0].total_cols, 40);
    assert_eq!(s.windows[0].total_lines, 18);
}

#[test]
fn classification_is_a_partition() {
    let s = split_session();
    assert!(s.windows[0].is_internal());
    assert!(!s.windows[0].is_live());
    assert!(s.windows[0].is_valid());
    assert!(s.windows[1].is_live());
    assert!(!s.windows[1].is_internal());
    assert!(s.windows[1].is_valid());
    let mut dead = LispWindowRef::new_leaf(0, 0);
    dead.contents = Contents::Empty;
    assert!(!dead.is_live());
    assert!(!dead.is_internal());
    assert!(!dead.is_valid());
}

#[test]
fn minibuffer_and_pseudo_windows_want_no_mode_line() {
    let f = frame();
    let mut b = buffer();
    b.mode_line_format = LispObject::True;
    let buffers = vec![b];
    let mut w = LispWindowRef::new_leaf(0, 0);
    w.pixel_height = 600;
    w.set_parameter(LispObject::Sym(SYM_MODE_LINE_FORMAT), LispObject::True);
    assert!(window_wants_mode_line(&w, &f, &buffers));
    w.mini = true;
    assert!(!window_wants_mode_line(&w, &f, &buffers));
    w.mini = false;
    w.pseudo = true;
    assert!(!window_wants_mode_line(&w, &f, &buffers));
}

#[test]
fn mode_line_policy_reads_parameter_and_buffer() {
    let f = frame();
    let mut b = buffer();
    b.mode_line_format = LispObject::True;
    let buffers = vec![b];
    let mut w = LispWindowRef::new_leaf(0, 0);
    w.pixel_height = 600;
    // The buffer alone is enough.
    assert!(w.wants_mode_line(&f, &buffers));
    // The `none` parameter suppresses it regardless of the buffer.
    w.set_parameter(LispObject::Sym(SYM_MODE_LINE_FORMAT), LispObject::Sym(SYM_NONE));
    assert!(!w.wants_mode_line(&f, &buffers));
    // Too low a window wants none either.
    let mut short = LispWindowRef::new_leaf(0, 0);
    short.pixel_height = 16;
    assert!(!short.wants_mode_line(&f, &buffers));
    // Header line needs room for the mode line too.
    let mut both = LispWindowRef::new_leaf(0, 0);
    both.pixel_height = 32;
    let mut b2 = buffer();
    b2.mode_line_format = LispObject::True;
    b2.header_line_format = LispObject::True;
    let buffers2 = vec![b2];
    assert!(both.wants_mode_line(&f, &buffers2));
    assert!(!both.wants_header_line(&f, &buffers2));
    both.pixel_height = 40;
    assert!(both.wants_header_line(&f, &buffers2));
}

#[test]
fn parameter_set_then_get() {
    let mut s = single_window_session();
    let w = LispWindowOrSelected::decode(LispObject::Nil, &s).unwrap();
    assert_eq!(s.set_window_parameter(w, LispObject::Sym(7), LispObject::Int(1)), LispObject::Int(1));
    let w = LispWindowOrSelected::decode(LispObject::Nil, &s).unwrap();
    s.set_window_parameter(w, LispObject::Sym(8), LispObject::Int(2));
    let w = LispWindowOrSelected::decode(LispObject::Nil, &s).unwrap();
    assert_eq!(s.window_parameter_lisp(w, LispObject::Sym(7)), LispObject::Int(1));
    // Overwriting keeps the list length and the other binding's place.
    let before = s.windows[0].params.clone();
    let w = LispWindowOrSelected::decode(LispObject::Nil, &s).unwrap();
    s.set_window_parameter(w, LispObject::Sym(7), LispObject::Int(9));
    assert_eq!(s.windows[0].params.len(), before.len());
    assert_eq!(s.window_parameter(0, LispObject::Sym(7)), LispObject::Int(9));
    assert_eq!(s.window_parameter(0, LispObject::Sym(8)), LispObject::Int(2));
    assert_eq!(s.windows[0].params[0].0, LispObject::Sym(8));
    // An absent key reads as nil.
    assert_eq!(s.window_parameter(0, LispObject::Sym(99)), LispObject::Nil);
}

#[test]
fn deleting_one_of_two_children_collapses_the_parent() {
    let mut s = split_session();
    s.windows[0].pixel_left = 7;
    s.windows[0].top_line = 3;
    assert!(s.delete_window(1).is_ok());
    // The deleted window and the collapsed parent are gone.
    assert!(!s.window_valid_p(LispObject::Window(1)));
    assert!(!s.window_valid_p(LispObject::Window(0)));
    // The survivor inherits the parent's geometry and position.
    assert_eq!(s.windows[2].pixel_left, 7);
    assert_eq!(s.windows[2].pixel_top, 0);
    assert_eq!(s.windows[2].pixel_width, 610);
    assert_eq!(s.windows[2].pixel_height, 640);
    assert_eq!(s.windows[2].total_cols, 61);
    assert_eq!(s.windows[2].total_lines, 40);
    assert_eq!(s.windows[2].top_line, 3);
    assert_eq!(s.windows[2].parent, None);
    assert_eq!(s.windows[2].prev, None);
    assert_eq!(s.windows[2].next, None);
    // The parent was the frame's root, so the survivor is now.
    assert_eq!(s.frames[0].root_window, 2);
}

#[test]
fn deleting_under_a_combination_limit_keeps_the_parent() {
    let mut s = split_session();
    s.windows[0].combination_limit = CombinationLimit::Limited;
    assert!(s.delete_window(1).is_ok());
    assert!(!s.window_valid_p(LispObject::Window(1)));
    // No collapse: the parent stays internal with the survivor as its
    // only child.
    assert!(s.window_valid_p(LispObject::Window(0)));
    assert_eq!(s.windows[0].contents, Contents::Child(2));
    assert_eq!(s.windows[2].prev, None);
    assert_eq!(s.windows[2].parent, Some(0));
}

#[test]
fn deleting_a_root_window_fails() {
    let mut s = single_window_session();
    assert_eq!(
        s.delete_window(0),
        Err(WindowError::Domain(DomainFault::DeleteRootWindow))
    );
    assert!(s.window_valid_p(LispObject::Window(0)));
}

#[test]
fn combination_limit_is_for_internal_windows_only() {
    let mut s = split_session();
    assert_eq!(s.window_combination_limit(0), Ok(CombinationLimit::Unset));
    assert_eq!(
        s.window_combination_limit(1),
        Err(WindowError::Domain(DomainFault::CombinationLimitOnLeaf))
    );
    assert_eq!(
        s.set_window_combination_limit(1, CombinationLimit::Limited),
        Err(WindowError::Domain(DomainFault::CombinationLimitOnLeaf))
    );
    assert_eq!(
        s.set_window_combination_limit(0, CombinationLimit::Limited),
        Ok(CombinationLimit::Limited)
    );
    assert_eq!(s.window_combination_limit(0), Ok(CombinationLimit::Limited));
}

#[test]
fn decoding_rejects_wrong_types() {
    let s = split_session();
    assert_eq!(
        LispWindowLiveOrSelected::decode(LispObject::Int(5), &s).unwrap_err(),
        WindowError::WrongType(TypePred::WindowLivep, LispObject::Int(5))
    );
    // An internal window is valid but not live.
    assert_eq!(
        LispWindowLiveOrSelected::decode(LispObject::Window(0), &s).unwrap_err(),
        WindowError::WrongType(TypePred::WindowLivep, LispObject::Window(0))
    );
    assert!(LispWindowValidOrSelected::decode(LispObject::Window(0), &s).is_ok());
    // A stale index names no window at all.
    assert_eq!(
        decode_any_window(LispObject::Window(77), &s).unwrap_err(),
        WindowError::WrongType(TypePred::Windowp, LispObject::Window(77))
    );
    assert_eq!(decode_any_window(LispObject::Nil, &s).unwrap().clone(), 1);
    assert!(s.windowp(LispObject::Window(2)));
    assert!(!s.windowp(LispObject::Buffer(0)));
    assert!(s.window_live_p(LispObject::Window(1)));
    assert!(!s.window_live_p(LispObject::Window(0)));
    assert!(s.window_valid_p(LispObject::Window(0)));
}

#[test]
fn window_point_prefers_the_selected_window() {
    let mut s = split_session();
    s.buffers[0].point = 42;
    s.windows[1].pointm = Some(5);
    s.windows[2].pointm = Some(9);
    let w1 = LispWindowLiveOrSelected::decode(LispObject::Window(1), &s).unwrap();
    // LispWindowRef 1 is selected: the current buffer's point wins.
    assert_eq!(s.window_point(w1), Some(42));
    let w2 = LispWindowLiveOrSelected::decode(LispObject::Window(2), &s).unwrap();
    assert_eq!(s.window_point(w2), Some(9));
}

#[test]
fn set_window_point_clips_and_flags() {
    let mut s = split_session();
    let w2 = LispWindowLiveOrSelected::decode(LispObject::Window(2), &s).unwrap();
    // Position 500 lies past the accessible end (zv == 100): clipped.
    assert_eq!(s.set_window_point(w2, LispObject::Int(500)), Ok(LispObject::Int(500)));
    assert_eq!(s.windows[2].pointm, Some(100));
    assert!(s.windows[2].needs_redisplay);
    let w2 = LispWindowLiveOrSelected::decode(LispObject::Window(2), &s).unwrap();
    assert_eq!(
        s.set_window_point(w2, LispObject::True),
        Err(WindowError::WrongType(TypePred::Numberp, LispObject::True))
    );
    // On the selected window the buffer's own point moves.
    let w1 = LispWindowLiveOrSelected::decode(LispObject::Window(1), &s).unwrap();
    assert_eq!(s.set_window_point(w1, LispObject::Int(50)), Ok(LispObject::Int(50)));
    assert_eq!(s.buffers[0].point, 50);
}

#[test]
fn set_window_start_flags_redisplay() {
    let mut s = split_session();
    let w2 = LispWindowLiveOrSelected::decode(LispObject::Window(2), &s).unwrap();
    assert_eq!(s.set_window_start(w2, LispObject::Int(30), false), Ok(LispObject::Int(30)));
    assert_eq!(s.windows[2].start, Some(30));
    assert!(!s.windows[2].start_at_line_beg);
    assert!(s.windows[2].force_start);
    assert!(!s.windows[2].window_end_valid);
    assert!(s.windows[2].needs_redisplay);
    assert!(s.frames[0].needs_redisplay);
    let w2 = LispWindowLiveOrSelected::decode(LispObject::Window(2), &s).unwrap();
    assert_eq!(s.set_window_start(w2, LispObject::Nil, true), Ok(LispObject::Nil));
    assert_eq!(s.windows[2].start, None);
    let w2 = LispWindowLiveOrSelected::decode(LispObject::Window(2), &s).unwrap();
    assert_eq!(s.window_start(w2), None);
}

#[test]
fn horizontal_scroll_clamps_and_suspends() {
    let mut s = single_window_session();
    s.windows[0].body_cols = 80;
    assert_eq!(s.scroll_left(Some(5), true), 5);
    assert_eq!(s.windows[0].hscroll, 5);
    assert_eq!(s.windows[0].min_hscroll, 5);
    assert!(s.windows[0].suspend_auto_hscroll);
    // Scrolling right past the margin clamps at zero.
    assert_eq!(s.scroll_right(Some(50), false), 0);
    assert_eq!(s.windows[0].hscroll, 0);
    assert_eq!(s.windows[0].min_hscroll, 5);
    // The default amount is the body width less two columns.
    assert_eq!(s.scroll_left(None, false), 78);
    let w = LispWindowLiveOrSelected::decode(LispObject::Nil, &s).unwrap();
    assert_eq!(s.window_hscroll(w), 78);
}

#[test]
fn select_window_moves_selection_and_point() {
    let mut s = split_session();
    s.windows[2].pointm = Some(33);
    assert_eq!(s.select_window(LispObject::Window(2), false), Ok(LispObject::Window(2)));
    assert_eq!(s.selected_window(), LispObject::Window(2));
    assert_eq!(s.frames[0].selected_window, LispObject::Window(2));
    assert_eq!(s.current_buffer, 1);
    assert_eq!(s.buffers[1].point, 33);
    assert_eq!(s.windows[2].use_time, 1);
    // An internal window cannot be selected.
    assert_eq!(
        s.select_window(LispObject::Window(0), false),
        Err(WindowError::WrongType(TypePred::WindowLivep, LispObject::Window(0)))
    );
}

#[test]
fn mode_line_face_depends_on_selection() {
    let mut s = split_session();
    // With the global switch off every mode line is active.
    assert_eq!(s.CURRENT_MODE_LINE_FACE_ID(2), ModeLineFace::Active);
    s.mode_line_in_non_selected_windows = true;
    assert_eq!(s.CURRENT_MODE_LINE_FACE_ID(1), ModeLineFace::Active);
    assert_eq!(s.CURRENT_MODE_LINE_FACE_ID(2), ModeLineFace::Inactive);
    // During minibuffer interaction the recorded scroll window stays
    // active.
    s.minibuf_level = 1;
    s.minibuf_selected_window = LispObject::Window(2);
    assert_eq!(s.CURRENT_MODE_LINE_FACE_ID_3(2, 2, 2), ModeLineFace::Active);
    assert_eq!(s.CURRENT_MODE_LINE_FACE_ID_3(2, 1, 2), ModeLineFace::Inactive);
}

#[test]
fn mode_line_height_caches_the_fallback() {
    let mut s = single_window_session();
    assert_eq!(s.windows[0].mode_line_height, -1);
    assert_eq!(s.current_mode_line_height(0, 0, 22), 22);
    assert_eq!(s.windows[0].mode_line_height, 22);
    // Once cached, the fallbacks are ignored.
    assert_eq!(s.CURRENT_MODE_LINE_HEIGHT(0, 99, 77), 22);
    // A glyph-matrix height wins over the estimate.
    let mut s2 = single_window_session();
    assert_eq!(s2.current_mode_line_height(0, 18, 22), 18);
}

#[test]
fn window_list_puts_the_start_window_first() {
    let s = split_session();
    let v = s.window_list_1(LispObject::Window(2), MinibufferPolicy::IfActive, FrameScope::WindowFrame);
    assert_eq!(v, vec![2, 1]);
    let v = s.window_list_1(LispObject::Window(1), MinibufferPolicy::IfActive, FrameScope::WindowFrame);
    assert_eq!(v, vec![1, 2]);
    let v = s.window_list(LispObject::Nil, MinibufferPolicy::IfActive, None).unwrap();
    assert_eq!(v, vec![1, 2]);
}

#[test]
fn window_list_respects_the_minibuffer_policy() {
    let mut s = split_session();
    let mut mb = LispWindowRef::new_leaf(0, 0);
    mb.mini = true;
    s.windows.push(mb);
    s.frames[0].minibuffer_window = LispObject::Window(3);
    let v = s.window_list_1(LispObject::Window(1), MinibufferPolicy::Never, FrameScope::WindowFrame);
    assert_eq!(v, vec![1, 2]);
    let v = s.window_list_1(LispObject::Window(1), MinibufferPolicy::Always, FrameScope::WindowFrame);
    assert_eq!(v, vec![1, 2, 3]);
    // Inactive minibuffers are left out by default.
    let v = s.window_list_1(LispObject::Window(1), MinibufferPolicy::IfActive, FrameScope::WindowFrame);
    assert_eq!(v, vec![1, 2]);
    s.minibuf_level = 1;
    let v = s.window_list_1(LispObject::Window(1), MinibufferPolicy::IfActive, FrameScope::WindowFrame);
    assert_eq!(v, vec![1, 2, 3]);
}

#[test]
fn window_list_rejects_a_window_on_another_frame() {
    let mut s = split_session();
    let mut f2 = frame();
    f2.root_window = 3;
    s.frames.push(f2);
    let mut lone = LispWindowRef::new_leaf(1, 0);
    lone.frame = 1;
    s.windows.push(lone);
    assert_eq!(
        s.window_list(LispObject::Frame(0), MinibufferPolicy::IfActive, Some(3)),
        Err(WindowError::CrossFrame)
    );
    assert_eq!(
        s.window_list(LispObject::Int(4), MinibufferPolicy::IfActive, Some(1)),
        Err(WindowError::WrongType(TypePred::FrameLivep, LispObject::Int(4)))
    );
    assert!(s.window_list(LispObject::Frame(1), MinibufferPolicy::IfActive, Some(3)).is_ok());
}

#[test]
fn combination_geometry_checker_sums_children() {
    let mut s = split_session();
    assert!(s.combination_geometry_holds(0));
    // A leaf passes vacuously.
    assert!(s.combination_geometry_holds(1));
    // Shrinking one child breaks the sum along the axis.
    s.windows[2].pixel_height = 300;
    assert!(!s.combination_geometry_holds(0));
    s.windows[2].pixel_height = 320;
    // A child that does not span the orthogonal extent breaks it too.
    s.windows[2].pixel_width = 600;
    assert!(!s.combination_geometry_holds(0));
}

#[test]
fn geometry_queries_read_the_frame() {
    let s = split_session();
    let f = &s.frames[0];
    assert_eq!(s.windows[2].left_pixel_edge(), 0);
    assert_eq!(s.windows[2].top_pixel_edge(), 320);
    assert_eq!(s.windows[2].left_edge_x(f), 2);
    assert_eq!(s.windows[2].top_edge_y(f), 322);
    assert_eq!(s.windows[2].frame_pixel_y(f, 10), 332);
    // Menu-bar windows sit above the border inset.
    let mut bar = LispWindowRef::new_leaf(0, 0);
    bar.menu_bar_p = true;
    bar.pixel_top = 4;
    assert_eq!(bar.top_edge_y(f), 4);
    assert!(bar.is_menu_bar());
    assert!(!bar.is_tool_bar());
}

#[test]
fn simple_accessors_round_trip() {
    let mut s = split_session();
    let w = LispWindowLiveOrSelected::decode(LispObject::Window(2), &s).unwrap();
    assert_eq!(s.set_window_display_table(w, LispObject::Sym(5)), LispObject::Sym(5));
    let w = LispWindowLiveOrSelected::decode(LispObject::Window(2), &s).unwrap();
    assert_eq!(s.window_display_table(w), LispObject::Sym(5));
    let w = LispWindowLiveOrSelected::decode(LispObject::Window(2), &s).unwrap();
    s.set_window_prev_buffers(w, vec![(0, 1, 7)]);
    let w = LispWindowLiveOrSelected::decode(LispObject::Window(2), &s).unwrap();
    assert_eq!(s.window_prev_buffers(w).clone(), vec![(0, 1, 7)]);
    let w = LispWindowLiveOrSelected::decode(LispObject::Window(2), &s).unwrap();
    s.set_window_next_buffers(w, vec![1]);
    let w = LispWindowLiveOrSelected::decode(LispObject::Window(2), &s).unwrap();
    assert_eq!(s.window_next_buffers(w).clone(), vec![1]);
    let w = LispWindowLiveOrSelected::decode(LispObject::Window(2), &s).unwrap();
    assert_eq!(s.set_window_redisplay_end_trigger(w, LispObject::Int(80)), LispObject::Int(80));
    let w = LispWindowLiveOrSelected::decode(LispObject::Window(2), &s).unwrap();
    assert_eq!(s.window_redisplay_end_trigger(w), LispObject::Int(80));
    let w = LispWindowValidOrSelected::decode(LispObject::Window(2), &s).unwrap();
    assert_eq!(s.window_buffer(w), LispObject::Buffer(1));
    let w = LispWindowValidOrSelected::decode(LispObject::Window(0), &s).unwrap();
    assert_eq!(s.window_buffer(w), LispObject::Nil);
    let w = LispWindowValidOrSelected::decode(LispObject::Window(2), &s).unwrap();
    assert_eq!(s.window_parent(w), LispObject::Window(0));
    let w = LispWindowValidOrSelected::decode(LispObject::Window(0), &s).unwrap();
    assert_eq!(s.window_parent(w), LispObject::Nil);
    let w = LispWindowValidOrSelected::decode(LispObject::Window(2), &s).unwrap();
    assert_eq!(s.window_frame(w), LispObject::Frame(0));
    let w = LispWindowValidOrSelected::decode(LispObject::Window(0), &s).unwrap();
    assert_eq!(s.window_top_child(w), Some(1));
    let w = LispWindowValidOrSelected::decode(LispObject::Window(2), &s).unwrap();
    assert_eq!(s.window_top_child(w), None);
    assert_eq!(s.minibuffer_window(LispObject::Nil), Ok(LispObject::Nil));
    s.windows[2].left_margin_cols = 3;
    let w = LispWindowLiveOrSelected::decode(LispObject::Window(2), &s).unwrap();
    assert_eq!(s.window_margins(w), (Some(3), None));
}

#[test]
fn minibuffer_selected_window_needs_an_active_minibuffer() {
    let mut s = split_session();
    let mut mb = LispWindowRef::new_leaf(0, 0);
    mb.mini = true;
    s.windows.push(mb);
    assert_eq!(s.minibuffer_selected_window(), LispObject::Nil);
    s.minibuf_level = 1;
    s.selected_window = LispObject::Window(3);
    s.minibuf_selected_window = LispObject::Window(1);
    assert_eq!(s.minibuffer_selected_window(), LispObject::Window(1));
}

#[test]
fn mode_line_update_signal_reaches_the_right_flag() {
    let mut s = split_session();
    // Window 2 is not its frame's selected window: its own flag is set.
    s.frames[0].selected_window = LispObject::Window(1);
    s.wset_update_mode_line(2);
    assert!(s.windows[2].update_mode_line);
    assert!(!s.mode_lines_need_update);
    // Window 1 is the frame's selected window: the global flag is set.
    s.wset_update_mode_line(1);
    assert!(s.mode_lines_need_update);
    assert!(!s.windows[1].update_mode_line);
}

#[test]
fn set_window_start_signals_a_mode_line_update() {
    let mut s = split_session();
    s.frames[0].selected_window = LispObject::Window(1);
    let w2 = LispWindowLiveOrSelected::decode(LispObject::Window(2), &s).unwrap();
    assert_eq!(s.set_window_start(w2, LispObject::Int(10), true), Ok(LispObject::Int(10)));
    assert!(s.windows[2].update_mode_line);
    assert!(!s.mode_lines_need_update);
    let w1 = LispWindowLiveOrSelected::decode(LispObject::Window(1), &s).unwrap();
    assert_eq!(s.set_window_start(w1, LispObject::Int(10), true), Ok(LispObject::Int(10)));
    assert!(s.mode_lines_need_update);
}

#[test]
fn window_list_walks_depth_first_in_sibling_order() {
    // Root 0 splits into 1 and 2; 2 is itself a combination of 3 and 4.
    let mut s = split_session();
    s.windows[2].contents = Contents::Child(3);
    let mut a = LispWindowRef::new_leaf(0, 1);
    a.parent = Some(2);
    a.next = Some(4);
    let mut b = LispWindowRef::new_leaf(0, 1);
    b.parent = Some(2);
    b.prev = Some(3);
    s.windows.push(a);
    s.windows.push(b);
    let v = s.window_list_1(LispObject::Window(1), MinibufferPolicy::Never, FrameScope::WindowFrame);
    assert_eq!(v, vec![1, 3, 4]);
    // Starting in the middle rotates the same listing.
    let v = s.window_list_1(LispObject::Window(3), MinibufferPolicy::Never, FrameScope::WindowFrame);
    assert_eq!(v, vec![3, 4, 1]);
}

#[test]
fn window_list_rejects_a_dead_frame() {
    let mut s = split_session();
    s.frames[0].live = false;
    assert_eq!(
        s.window_list(LispObject::Frame(0), MinibufferPolicy::IfActive, Some(1)),
        Err(WindowError::WrongType(TypePred::FrameLivep, LispObject::Frame(0)))
    );
}

#[test]
fn survivor_of_a_collapse_keeps_its_own_state() {
    let mut s = split_session();
    s.windows[2].dedicated = Dedication::Weak;
    s.windows[2].new_total = 17;
    s.windows[2].hscroll = 4;
    s.windows[2].params.push((LispObject::Sym(9), LispObject::Int(3)));
    s.windows[2].prev_buffers.push((0, 1, 2));
    assert!(s.delete_window(1).is_ok());
    // The survivor took the parent's geometry but kept its own
    // parameters, dedication, staged size, scroll and history.
    assert_eq!(s.windows[2].dedicated, Dedication::Weak);
    assert_eq!(s.windows[2].new_total, 17);
    assert_eq!(s.windows[2].hscroll, 4);
    assert_eq!(s.windows[2].params, vec![(LispObject::Sym(9), LispObject::Int(3))]);
    assert_eq!(s.windows[2].prev_buffers, vec![(0, 1, 2)]);
    assert_eq!(s.windows[2].pixel_height, 640);
}
