//! Window-layout core for a text-oriented display environment.
//!
//! A frame's drawable area is partitioned by a tree of rectangular
//! windows.  Each window is either a leaf (it displays a buffer), an
//! internal node (a horizontal or vertical combination of child
//! windows), or empty (deleted).  The library models the tree as an
//! arena of window records addressed by stable indices, tracks each
//! window's geometry in pixels and in canonical character units,
//! classifies windows (live, valid, internal, minibuffer, pseudo),
//! keeps an ordered parameter store per window, stages resize
//! requests, and decides mode-line and header-line visibility.

pub mod values;
pub mod geometry;
pub mod params;
pub mod window;
pub mod session;
pub mod tree;
