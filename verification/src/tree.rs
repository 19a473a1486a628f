//! Structure of the window tree: sibling chains, combination
//! geometry, deletion with parent collapse, and the filtered
//! traversal that lists live windows.

use vstd::prelude::*;

use crate::session::{frame_refs_ok, Session};
use crate::values::{CombinationLimit, DomainFault, LispObject, TypePred, WindowError, COORD_LIMIT};
use crate::window::{
    lemma_same_box_refl, lemma_same_box_trans, lemma_same_payload_refl,
    lemma_same_payload_trans, same_box, same_payload, Contents, Frame, LispWindowRef,
};

verus! {

/// The window ids along a sibling chain starting at `first` and
/// following `next` links, cut off after `fuel` steps so that the
/// walk is well defined even on malformed link structures.
pub open spec fn chain_ids(ws: Seq<LispWindowRef>, first: Option<usize>, fuel: nat) -> Seq<usize>
    decreases fuel,
{
    if fuel == 0 {
        Seq::empty()
    } else {
        match first {
            None => Seq::empty(),
            Some(i) => if i < ws.len() {
                seq![i].add(chain_ids(ws, ws[i as int].next, (fuel - 1) as nat))
            } else {
                Seq::empty()
            },
        }
    }
}

/// The children of window `p`, in sibling-chain order; empty for a
/// leaf or empty window.
pub open spec fn spec_children(ws: Seq<LispWindowRef>, p: int) -> Seq<usize> {
    match ws[p].contents {
        Contents::Child(c) => chain_ids(ws, Some(c), ws.len()),
        _ => Seq::empty(),
    }
}

pub proof fn lemma_chain_ids_len(ws: Seq<LispWindowRef>, first: Option<usize>, fuel: nat)
    ensures
        chain_ids(ws, first, fuel).len() <= fuel,
    decreases fuel,
{
    if fuel > 0 {
        match first {
            None => {},
            Some(i) => {
                if i < ws.len() {
                    lemma_chain_ids_len(ws, ws[i as int].next, (fuel - 1) as nat);
                }
            },
        }
    }
}

/// A window's extent along a combination axis.
pub open spec fn axis_extent(w: LispWindowRef, horizontal: bool) -> int {
    if horizontal {
        w.pixel_width as int
    } else {
        w.pixel_height as int
    }
}

/// A window's extent across a combination axis.
pub open spec fn ortho_extent(w: LispWindowRef, horizontal: bool) -> int {
    if horizontal {
        w.pixel_height as int
    } else {
        w.pixel_width as int
    }
}

/// Sum of the extents of the windows named by `ids` along an axis.
pub open spec fn sum_axis(ws: Seq<LispWindowRef>, ids: Seq<usize>, horizontal: bool) -> int
    decreases ids.len(),
{
    if ids.len() == 0 {
        0
    } else {
        sum_axis(ws, ids.drop_last(), horizontal) + axis_extent(
            ws[ids.last() as int],
            horizontal,
        )
    }
}

/// Geometry consistency of one window: when it is internal, its
/// children's extents along the combination axis sum to its own, and
/// every child spans its full orthogonal extent.
pub open spec fn combination_geometry_ok(ws: Seq<LispWindowRef>, p: int) -> bool {
    ws[p].contents is Child ==> {
        let kids = spec_children(ws, p);
        &&& sum_axis(ws, kids, ws[p].horizontal) == axis_extent(ws[p], ws[p].horizontal)
        &&& forall|k: int|
            0 <= k < kids.len() ==> ortho_extent(ws[kids[k] as int], ws[p].horizontal)
                == ortho_extent(ws[p], ws[p].horizontal)
    }
}

/// The index a present option holds, 0 otherwise.
pub open spec fn some_of(o: Option<usize>) -> int {
    match o {
        Some(i) => i as int,
        None => 0,
    }
}

/// The sibling that would remain alone if `w` left its combination:
/// present exactly when `w`'s parent has exactly two children.
pub open spec fn spec_sole_sibling(ws: Seq<LispWindowRef>, w: int) -> Option<usize> {
    let wd = ws[w];
    if wd.prev is None && wd.next is Some && ws[some_of(wd.next)].next is None {
        wd.next
    } else if wd.next is None && wd.prev is Some && ws[some_of(wd.prev)].prev is None {
        wd.prev
    } else {
        None
    }
}

/// Local consistency of the records a deletion touches: the window,
/// its parent, its siblings and -- when a collapse would follow -- the
/// parent's own neighbours are distinct records.  Any real tree
/// satisfies this; it rules out aliased link structures.
pub open spec fn delete_sane(ws: Seq<LispWindowRef>, w: int) -> bool {
    let wd = ws[w];
    let p = some_of(wd.parent);
    wd.parent is Some ==> {
        &&& p != w
        &&& (match wd.prev {
            Some(pr) => pr != w && pr as int != p,
            None => true,
        })
        &&& (match wd.next {
            Some(nx) => nx != w && nx as int != p,
            None => true,
        })
        &&& (wd.prev is Some && wd.next is Some ==> wd.prev != wd.next)
        &&& (match spec_sole_sibling(ws, w) {
            Some(s) => {
                let pd = ws[p];
                &&& (match pd.parent {
                    Some(g) => g != w && g as int != p && g != s,
                    None => true,
                })
                &&& (match pd.prev {
                    Some(x) => x != w && x as int != p && x != s,
                    None => true,
                })
                &&& (match pd.next {
                    Some(x) => x != w && x as int != p && x != s,
                    None => true,
                })
                &&& (pd.prev is Some && pd.next is Some ==> pd.prev != pd.next)
                &&& (match (pd.parent, pd.prev) {
                    (Some(g), Some(x)) => g != x,
                    _ => true,
                })
                &&& (match (pd.parent, pd.next) {
                    (Some(g), Some(x)) => g != x,
                    _ => true,
                })
            },
            None => true,
        })
    }
}

/// Every record of a window arena respects the given arena bounds.
pub open spec fn windows_wf(ws: Seq<LispWindowRef>, nf: int, nb: int) -> bool {
    forall|i: int| 0 <= i < ws.len() ==> (#[trigger] ws[i]).wf(ws.len() as int, nf, nb)
}

impl Session {
    /// The children of window `p`, in sibling-chain order.
    pub fn child_ids(&self, p: usize) -> (v: Vec<usize>)
        requires
            self.wf(),
            p < self.windows@.len(),
        ensures
            v@ == spec_children(self.windows@, p as int),
            forall|k: int| 0 <= k < v@.len() ==> v@[k] < self.windows@.len(),
    {
        let ghost ws = self.windows@;
        let mut out: Vec<usize> = Vec::new();
        let mut cur: Option<usize> = match self.windows[p].contents {
            Contents::Child(c) => Some(c),
            _ => None,
        };
        let mut fuel: usize = self.windows.len();
        proof {
            assert(self.windows@[p as int].wf(
                self.windows@.len() as int,
                self.frames@.len() as int,
                self.buffers@.len() as int,
            ));
            assert(spec_children(ws, p as int) =~= out@ + chain_ids(ws, cur, fuel as nat));
        }
        while fuel > 0 && cur.is_some()
            invariant
                self.wf(),
                ws == self.windows@,
                fuel <= ws.len(),
                spec_children(ws, p as int) == out@ + chain_ids(ws, cur, fuel as nat),
                (match cur {
                    Some(i) => i < ws.len(),
                    None => true,
                }),
                forall|k: int| 0 <= k < out@.len() ==> out@[k] < ws.len(),
            decreases fuel,
        {
            let i = cur.unwrap();
            let ghost out0 = out@;
            out.push(i);
            proof {
                assert(self.windows@[i as int].wf(
                    self.windows@.len() as int,
                    self.frames@.len() as int,
                    self.buffers@.len() as int,
                ));
            }
            cur = self.windows[i].next;
            let ghost fuel0 = fuel as nat;
            fuel -= 1;
            proof {
                assert(chain_ids(ws, Some(i), fuel0) == seq![i].add(
                    chain_ids(ws, cur, fuel as nat),
                ));
                assert(out0 + seq![i].add(chain_ids(ws, cur, fuel as nat)) =~= out@ + chain_ids(
                    ws,
                    cur,
                    fuel as nat,
                ));
            }
        }
        proof {
            assert(chain_ids(ws, cur, fuel as nat) =~= Seq::<usize>::empty());
            assert(out@ + Seq::<usize>::empty() =~= out@);
        }
        out
    }

    /// Check the geometry of one combination: true exactly when the
    /// children of `p` sum to `p`'s extent along the combination axis
    /// and each spans `p`'s orthogonal extent.  True for any window
    /// that is not internal.
    pub fn combination_geometry_holds(&self, p: usize) -> (b: bool)
        requires
            self.wf(),
            p < self.windows@.len(),
        ensures
            b == combination_geometry_ok(self.windows@, p as int),
    {
        let ghost ws = self.windows@;
        if !self.windows[p].is_internal() {
            return true;
        }
        proof {
            assert(self.windows@[p as int].wf(
                self.windows@.len() as int,
                self.frames@.len() as int,
                self.buffers@.len() as int,
            ));
        }
        let horizontal = self.windows[p].horizontal;
        let kids = self.child_ids(p);
        proof {
            match ws[p as int].contents {
                Contents::Child(c) => lemma_chain_ids_len(ws, Some(c), ws.len() as nat),
                _ => {},
            }
            assert(kids@.len() <= ws.len());
        }
        let n = kids.len();
        let mut sum: i64 = 0;
        let mut i: usize = 0;
        let mut ortho_ok = true;
        while i < n
            invariant
                self.wf(),
                ws == self.windows@,
                p < ws.len(),
                i <= n,
                n == kids@.len(),
                kids@ == spec_children(ws, p as int),
                kids@.len() <= ws.len(),
                forall|k: int| 0 <= k < kids@.len() ==> kids@[k] < ws.len(),
                sum == sum_axis(ws, kids@.subrange(0, i as int), horizontal),
                0 <= sum <= (i as int) * (COORD_LIMIT as int),
                ortho_ok == (forall|k: int|
                    0 <= k < i ==> ortho_extent(ws[kids@[k] as int], horizontal) == ortho_extent(
                        ws[p as int],
                        horizontal,
                    )),
            decreases n - i,
        {
            let c = kids[i];
            proof {
                assert(self.windows@[c as int].wf(
                    self.windows@.len() as int,
                    self.frames@.len() as int,
                    self.buffers@.len() as int,
                ));
                assert((i as int) * (COORD_LIMIT as int) + COORD_LIMIT as int == ((i + 1) as int)
                    * (COORD_LIMIT as int)) by (nonlinear_arith);
                assert(((i + 1) as int) * (COORD_LIMIT as int) <= 0x1000_0000_0000_0000) by (
                nonlinear_arith)
                    requires
                        0 <= i,
                        (i + 1) as int <= 0x1_0000_0000,
                ;
            }
            let ext: i64 = if horizontal {
                self.windows[c].pixel_width as i64
            } else {
                self.windows[c].pixel_height as i64
            };
            let ortho: i32 = if horizontal {
                self.windows[c].pixel_height
            } else {
                self.windows[c].pixel_width
            };
            let p_ortho: i32 = if horizontal {
                self.windows[p].pixel_height
            } else {
                self.windows[p].pixel_width
            };
            if ortho != p_ortho {
                ortho_ok = false;
            }
            sum = sum + ext;
            i += 1;
            proof {
                assert(kids@.subrange(0, i as int).drop_last() =~= kids@.subrange(
                    0,
                    i as int - 1,
                ));
            }
        }
        proof {
            assert(kids@.subrange(0, n as int) =~= kids@);
        }
        let p_ext: i64 = if horizontal {
            self.windows[p].pixel_width as i64
        } else {
            self.windows[p].pixel_height as i64
        };
        sum == p_ext && ortho_ok
    }

    /// Unlink window `w` from its sibling chain and empty its record:
    /// the preceding sibling (or the parent's first-child slot) skips
    /// to `w`'s successor and the following sibling points back past
    /// `w`.
    #[verifier::rlimit(100)]
    #[verifier::spinoff_prover]
    fn unlink_window(&mut self, w: usize)
        requires
            w < old(self).windows@.len(),
            windows_wf(old(self).windows@, old(self).frames@.len() as int, old(self).buffers@.len() as int),
            delete_sane(old(self).windows@, w as int),
            old(self).windows@[w as int].parent is Some,
            !(old(self).windows@[w as int].prev is None && old(self).windows@[w as int].next
                is None),
        ensures
            windows_wf(final(self).windows@, old(self).frames@.len() as int, old(self).buffers@.len() as int),
            ({
                let ws0 = old(self).windows@;
                let wd = ws0[w as int];
                let p = some_of(wd.parent);
                &&& final(self).windows@.len() == ws0.len()
                &&& final(self).windows@[w as int].contents is Empty
                &&& final(self).windows@[w as int].parent is None
                &&& final(self).windows@[w as int].next is None
                &&& final(self).windows@[w as int].prev is None
                &&& same_box(final(self).windows@[w as int], wd)
                &&& same_payload(final(self).windows@[w as int], wd)
                &&& (match wd.prev {
                    Some(pr) => {
                        &&& final(self).windows@[pr as int].next == wd.next
                        &&& final(self).windows@[pr as int].contents == ws0[pr as int].contents
                        &&& final(self).windows@[pr as int].parent == ws0[pr as int].parent
                        &&& final(self).windows@[pr as int].prev == ws0[pr as int].prev
                        &&& same_box(final(self).windows@[pr as int], ws0[pr as int])
                        &&& same_payload(final(self).windows@[pr as int], ws0[pr as int])
                    },
                    None => {
                        &&& final(self).windows@[p].contents == Contents::Child(
                            (match wd.next {
                                Some(nx) => nx,
                                None => 0,
                            }),
                        )
                        &&& final(self).windows@[p].parent == ws0[p].parent
                        &&& final(self).windows@[p].prev == ws0[p].prev
                        &&& final(self).windows@[p].next == ws0[p].next
                        &&& same_box(final(self).windows@[p], ws0[p])
                        &&& same_payload(final(self).windows@[p], ws0[p])
                    },
                })
                &&& (match wd.next {
                    Some(nx) => {
                        &&& final(self).windows@[nx as int].prev == wd.prev
                        &&& final(self).windows@[nx as int].contents == ws0[nx as int].contents
                        &&& final(self).windows@[nx as int].parent == ws0[nx as int].parent
                        &&& final(self).windows@[nx as int].next == ws0[nx as int].next
                        &&& same_box(final(self).windows@[nx as int], ws0[nx as int])
                        &&& same_payload(final(self).windows@[nx as int], ws0[nx as int])
                    },
                    None => true,
                })
                &&& (forall|i: int|
                    0 <= i < ws0.len() && i != w && (match wd.prev {
                        Some(pr) => i != pr,
                        None => i != p,
                    }) && (match wd.next {
                        Some(nx) => i != nx,
                        None => true,
                    }) ==> final(self).windows@[i] == ws0[i])
            }),
            *final(self) == (Session { windows: final(self).windows, ..*old(self) }),
    {
        proof {
            reveal(same_payload);
            reveal(same_box);
        }
        let p: usize = match self.windows[w].parent {
            Some(p) => p,
            None => 0,
        };
        let prev = self.windows[w].prev;
        let next = self.windows[w].next;
        match prev {
            Some(pr) => {
                let r = &mut self.windows[pr];
                r.relink_next(next);
            },
            None => {
                let nx = match next {
                    Some(nx) => nx,
                    None => 0,
                };
                let r = &mut self.windows[p];
                r.set_first_child(nx);
            },
        }
        match next {
            Some(nx) => {
                let r = &mut self.windows[nx];
                r.relink_prev(prev);
            },
            None => {},
        }
        let r = &mut self.windows[w];
        r.clear_record();
    }

    /// Collapse the single-child parent `p` into its child `s`: `s`
    /// inherits `p`'s geometry and `p`'s place in the enclosing
    /// sibling chain, the neighbours and the grandparent's first-child
    /// slot are relinked to `s`, a root parent hands its frame's root
    /// to `s`, and `p` becomes empty.
    #[verifier::rlimit(100)]
    #[verifier::spinoff_prover]
    fn collapse_parent(&mut self, p: usize, s: usize)
        requires
            p < old(self).windows@.len(),
            s < old(self).windows@.len(),
            p != s,
            windows_wf(old(self).windows@, old(self).frames@.len() as int, old(self).buffers@.len() as int),
            (match old(self).windows@[p as int].parent {
                Some(g) => g != p && g != s,
                None => true,
            }),
            (match old(self).windows@[p as int].prev {
                Some(x) => x != p && x != s,
                None => true,
            }),
            (match old(self).windows@[p as int].next {
                Some(x) => x != p && x != s,
                None => true,
            }),
            (old(self).windows@[p as int].prev is Some && old(self).windows@[p as int].next
                is Some ==> old(self).windows@[p as int].prev != old(self).windows@[p as int].next),
            (match (old(self).windows@[p as int].parent, old(self).windows@[p as int].prev) {
                (Some(g), Some(x)) => g != x,
                _ => true,
            }),
            (match (old(self).windows@[p as int].parent, old(self).windows@[p as int].next) {
                (Some(g), Some(x)) => g != x,
                _ => true,
            }),
            old(self).windows@[p as int].frame < old(self).frames@.len(),
        ensures
            windows_wf(final(self).windows@, old(self).frames@.len() as int, old(self).buffers@.len() as int),
            ({
                let ws0 = old(self).windows@;
                let pd = ws0[p as int];
                &&& final(self).windows@.len() == ws0.len()
                &&& final(self).windows@[p as int].contents is Empty
                &&& final(self).windows@[p as int].parent is None
                &&& final(self).windows@[p as int].next is None
                &&& final(self).windows@[p as int].prev is None
                &&& same_box(final(self).windows@[p as int], pd)
                &&& same_payload(final(self).windows@[p as int], pd)
                &&& final(self).windows@[s as int].pixel_left == pd.pixel_left
                &&& final(self).windows@[s as int].pixel_top == pd.pixel_top
                &&& final(self).windows@[s as int].pixel_width == pd.pixel_width
                &&& final(self).windows@[s as int].pixel_height == pd.pixel_height
                &&& final(self).windows@[s as int].total_cols == pd.total_cols
                &&& final(self).windows@[s as int].total_lines == pd.total_lines
                &&& final(self).windows@[s as int].top_line == pd.top_line
                &&& final(self).windows@[s as int].parent == pd.parent
                &&& final(self).windows@[s as int].prev == pd.prev
                &&& final(self).windows@[s as int].next == pd.next
                &&& final(self).windows@[s as int].contents == ws0[s as int].contents
                &&& same_payload(final(self).windows@[s as int], ws0[s as int])
                &&& (match pd.prev {
                    Some(x) => {
                        &&& final(self).windows@[x as int].next == Some(s)
                        &&& final(self).windows@[x as int].contents == ws0[x as int].contents
                        &&& final(self).windows@[x as int].parent == ws0[x as int].parent
                        &&& final(self).windows@[x as int].prev == ws0[x as int].prev
                        &&& same_box(final(self).windows@[x as int], ws0[x as int])
                        &&& same_payload(final(self).windows@[x as int], ws0[x as int])
                    },
                    None => true,
                })
                &&& (match pd.next {
                    Some(x) => {
                        &&& final(self).windows@[x as int].prev == Some(s)
                        &&& final(self).windows@[x as int].contents == ws0[x as int].contents
                        &&& final(self).windows@[x as int].parent == ws0[x as int].parent
                        &&& final(self).windows@[x as int].next == ws0[x as int].next
                        &&& same_box(final(self).windows@[x as int], ws0[x as int])
                        &&& same_payload(final(self).windows@[x as int], ws0[x as int])
                    },
                    None => true,
                })
                &&& (match pd.parent {
                    Some(g) => (if ws0[g as int].contents == Contents::Child(p) {
                        &&& final(self).windows@[g as int].contents == Contents::Child(s)
                        &&& final(self).windows@[g as int].parent == ws0[g as int].parent
                        &&& final(self).windows@[g as int].prev == ws0[g as int].prev
                        &&& final(self).windows@[g as int].next == ws0[g as int].next
                        &&& same_box(final(self).windows@[g as int], ws0[g as int])
                        &&& same_payload(final(self).windows@[g as int], ws0[g as int])
                    } else {
                        final(self).windows@[g as int] == ws0[g as int]
                    }),
                    None => true,
                })
                &&& (forall|i: int|
                    0 <= i < ws0.len() && i != p && i != s && (match pd.prev {
                        Some(x) => i != x,
                        None => true,
                    }) && (match pd.next {
                        Some(x) => i != x,
                        None => true,
                    }) && (match pd.parent {
                        Some(g) => i != g,
                        None => true,
                    }) ==> final(self).windows@[i] == ws0[i])
                &&& (if pd.parent is None && old(self).frames@[pd.frame as int].root_window == p {
                    final(self).frames@ == old(self).frames@.update(
                        pd.frame as int,
                        (Frame { root_window: s, ..old(self).frames@[pd.frame as int] }),
                    )
                } else {
                    final(self).frames@ == old(self).frames@
                })
            }),
            *final(self) == (Session {
                windows: final(self).windows,
                frames: final(self).frames,
                ..*old(self)
            }),
    {
        proof {
            reveal(same_payload);
            reveal(same_box);
        }
        let pd_parent = self.windows[p].parent;
        let pd_prev = self.windows[p].prev;
        let pd_next = self.windows[p].next;
        let pd_frame = self.windows[p].frame;
        let pd_pixel_left = self.windows[p].pixel_left;
        let pd_pixel_top = self.windows[p].pixel_top;
        let pd_pixel_width = self.windows[p].pixel_width;
        let pd_pixel_height = self.windows[p].pixel_height;
        let pd_total_cols = self.windows[p].total_cols;
        let pd_total_lines = self.windows[p].total_lines;
        let pd_top_line = self.windows[p].top_line;
        proof {
            assert(old(self).windows@[p as int].wf(
                old(self).windows@.len() as int,
                old(self).frames@.len() as int,
                old(self).buffers@.len() as int,
            ));
        }
        let gp_first_is_p: bool = match pd_parent {
            Some(g) => {
                match self.windows[g].contents {
                    Contents::Child(c) => c == p,
                    _ => false,
                }
            },
            None => false,
        };
        let root_is_p: bool = match pd_parent {
            None => self.frames[pd_frame].root_window == p,
            Some(_) => false,
        };
        {
            let r = &mut self.windows[s];
            r.inherit_placement(
                pd_pixel_left,
                pd_pixel_top,
                pd_pixel_width,
                pd_pixel_height,
                pd_total_cols,
                pd_total_lines,
                pd_top_line,
                pd_parent,
                pd_prev,
                pd_next,
            );
        }
        match pd_prev {
            Some(x) => {
                let r = &mut self.windows[x];
                r.relink_next(Some(s));
            },
            None => {},
        }
        match pd_next {
            Some(x) => {
                let r = &mut self.windows[x];
                r.relink_prev(Some(s));
            },
            None => {},
        }
        if gp_first_is_p {
            let g = match pd_parent {
                Some(g) => g,
                None => 0,
            };
            let r = &mut self.windows[g];
            r.set_first_child(s);
        }
        if root_is_p {
            let fr = &mut self.frames[pd_frame];
            fr.root_window = s;
        }
        let r = &mut self.windows[p];
        r.clear_record();
    }

    /// Delete window `w`: unlink it from its sibling chain and empty
    /// its record; then, when its parent is left with exactly one
    /// child and carries no combination limit, collapse the parent
    /// into that child.  The survivor inherits the parent's geometry
    /// and the parent's place in the enclosing sibling chain, and both
    /// `w` and the parent are left empty.  Deleting a root window (one
    /// with no parent) or the sole child of a combination is a role
    /// failure and changes nothing.
    /// Delete `w`, one of exactly two children of `p`, and collapse
    /// `p` into the surviving sibling `s`.
    #[verifier::rlimit(100)]
    #[verifier::spinoff_prover]
    fn delete_into_sibling(&mut self, w: usize, p: usize, s: usize)
        requires
            old(self).wf(),
            w < old(self).windows@.len(),
            delete_sane(old(self).windows@, w as int),
            old(self).windows@[w as int].parent == Some(p),
            spec_sole_sibling(old(self).windows@, w as int) == Some(s),
            old(self).windows@[p as int].combination_limit != CombinationLimit::Limited,
        ensures
            final(self).wf(),
            ({
                let ws0 = old(self).windows@;
                let wd = ws0[w as int];
                &&& final(self).windows@.len() == ws0.len()
                &&& final(self).windows@[w as int].contents is Empty
                &&& final(self).windows@[w as int].parent is None
                &&& final(self).windows@[w as int].next is None
                &&& final(self).windows@[w as int].prev is None
                &&& same_box(final(self).windows@[w as int], wd)
                &&& same_payload(final(self).windows@[w as int], wd)
                &&& final(self).windows@[s as int].pixel_left == ws0[p as int].pixel_left
                &&& final(self).windows@[s as int].pixel_top == ws0[p as int].pixel_top
                &&& final(self).windows@[s as int].pixel_width == ws0[p as int].pixel_width
                &&& final(self).windows@[s as int].pixel_height == ws0[p as int].pixel_height
                &&& final(self).windows@[s as int].total_cols == ws0[p as int].total_cols
                &&& final(self).windows@[s as int].total_lines == ws0[p as int].total_lines
                &&& final(self).windows@[s as int].top_line == ws0[p as int].top_line
                &&& final(self).windows@[s as int].parent == ws0[p as int].parent
                &&& final(self).windows@[s as int].prev == ws0[p as int].prev
                &&& final(self).windows@[s as int].next == ws0[p as int].next
                &&& final(self).windows@[s as int].contents == ws0[s as int].contents
                &&& same_payload(final(self).windows@[s as int], ws0[s as int])
                &&& final(self).windows@[p as int].contents is Empty
                &&& same_box(final(self).windows@[p as int], ws0[p as int])
                &&& same_payload(final(self).windows@[p as int], ws0[p as int])
                &&& (match ws0[p as int].prev {
                    Some(x) => final(self).windows@[x as int].next == Some(s),
                    None => true,
                })
                &&& (match ws0[p as int].next {
                    Some(x) => final(self).windows@[x as int].prev == Some(s),
                    None => true,
                })
                &&& (match ws0[p as int].parent {
                    Some(g) => ws0[g as int].contents == Contents::Child(p)
                        ==> final(self).windows@[g as int].contents == Contents::Child(s),
                    None => true,
                })
                &&& (if ws0[p as int].parent is None && old(self).frames@[ws0[p as int].frame as int].root_window
                    == p {
                    final(self).frames@ == old(self).frames@.update(
                        ws0[p as int].frame as int,
                        (Frame {
                            root_window: s,
                            ..old(self).frames@[ws0[p as int].frame as int]
                        }),
                    )
                } else {
                    final(self).frames@ == old(self).frames@
                })
                &&& (forall|i: int|
                    0 <= i < ws0.len() && i != w && i != p && i != s && (match ws0[p as int].prev {
                        Some(x) => i != x,
                        None => true,
                    }) && (match ws0[p as int].next {
                        Some(x) => i != x,
                        None => true,
                    }) && (match ws0[p as int].parent {
                        Some(g) => i != g,
                        None => true,
                    }) ==> final(self).windows@[i] == ws0[i])
                &&& *final(self) == (Session {
                    windows: final(self).windows,
                    frames: final(self).frames,
                    ..*old(self)
                })
            }),
    {
        let ghost ws0 = self.windows@;
        let ghost nw = self.windows@.len() as int;
        let ghost nf = self.frames@.len() as int;
        let ghost nb = self.buffers@.len() as int;
        proof {
            assert(windows_wf(ws0, nf, nb));
            assert(ws0[w as int].wf(nw, nf, nb));
            assert(ws0[p as int].wf(nw, nf, nb));
        }
        self.unlink_window(w);
        let ghost ws3 = self.windows@;
        proof {
            if ws0[w as int].prev is Some {
                assert(ws3[p as int] == ws0[p as int]);
                lemma_same_box_refl(ws0[p as int]);
                lemma_same_payload_refl(ws0[p as int]);
            }
            assert(same_box(ws3[p as int], ws0[p as int]));
            assert(same_payload(ws3[p as int], ws0[p as int]));
            assert(same_payload(ws3[s as int], ws0[s as int]));
            assert(ws3[p as int].parent == ws0[p as int].parent);
            assert(ws3[p as int].prev == ws0[p as int].prev);
            assert(ws3[p as int].next == ws0[p as int].next);
            assert(ws3[p as int].frame == ws0[p as int].frame && ws3[p as int].pixel_left == ws0[
                p as int
            ].pixel_left && ws3[p as int].pixel_top == ws0[p as int].pixel_top && ws3[
                p as int
            ].pixel_width == ws0[p as int].pixel_width && ws3[p as int].pixel_height == ws0[
                p as int
            ].pixel_height && ws3[p as int].total_cols == ws0[p as int].total_cols && ws3[
                p as int
            ].total_lines == ws0[p as int].total_lines && ws3[p as int].top_line == ws0[
                p as int
            ].top_line && ws3[p as int].combination_limit == ws0[p as int].combination_limit) by {
                reveal(same_payload);
                reveal(same_box);
            }
            assert(ws3[s as int].contents == ws0[s as int].contents);
            match ws0[p as int].prev {
                Some(x) => {
                    assert(ws3[x as int] == ws0[x as int]);
                },
                None => {},
            }
            match ws0[p as int].next {
                Some(x) => {
                    assert(ws3[x as int] == ws0[x as int]);
                },
                None => {},
            }
            match ws0[p as int].parent {
                Some(g) => {
                    assert(ws3[g as int] == ws0[g as int]);
                },
                None => {},
            }
        }
        self.collapse_parent(p, s);
        proof {
            lemma_same_payload_trans(
                self.windows@[s as int],
                ws3[s as int],
                ws0[s as int],
            );
            lemma_same_box_trans(self.windows@[p as int], ws3[p as int], ws0[p as int]);
            lemma_same_payload_trans(
                self.windows@[p as int],
                ws3[p as int],
                ws0[p as int],
            );
            assert(self.windows@[w as int] == ws3[w as int]);
            assert(same_box(self.windows@[w as int], ws0[w as int]));
            assert(same_payload(self.windows@[w as int], ws0[w as int]));
            assert forall|i: int| 0 <= i < nf implies frame_refs_ok(
                #[trigger] self.frames@[i],
                nw,
            ) by {
                assert(frame_refs_ok(old(self).frames@[i], nw));
            }
            assert forall|i: int| 0 <= i < nb implies (#[trigger] self.buffers@[i]).wf() by {
                assert(old(self).buffers@[i].wf());
            }
        }
    }

    #[verifier::rlimit(100)]
    #[verifier::spinoff_prover]
    pub fn delete_window(&mut self, w: usize) -> (r: Result<(), WindowError>)
        requires
            old(self).wf(),
            w < old(self).windows@.len(),
            delete_sane(old(self).windows@, w as int),
        ensures
            final(self).wf(),
            (match r {
                Ok(()) => {
                    let ws0 = old(self).windows@;
                    let wd = ws0[w as int];
                    let p = some_of(wd.parent);
                    let sib = spec_sole_sibling(ws0, w as int);
                    let s = some_of(sib);
                    let collapse = sib is Some && ws0[p].combination_limit
                        != CombinationLimit::Limited;
                    &&& wd.parent is Some
                    &&& !(wd.prev is None && wd.next is None)
                    &&& final(self).windows@.len() == ws0.len()
                    &&& final(self).windows@[w as int].contents is Empty
                    &&& final(self).windows@[w as int].parent is None
                    &&& final(self).windows@[w as int].next is None
                    &&& final(self).windows@[w as int].prev is None
                    &&& same_box(final(self).windows@[w as int], wd)
                    &&& same_payload(final(self).windows@[w as int], wd)
                    &&& (if collapse {
                        &&& final(self).windows@[s].pixel_left == ws0[p].pixel_left
                        &&& final(self).windows@[s].pixel_top == ws0[p].pixel_top
                        &&& final(self).windows@[s].pixel_width == ws0[p].pixel_width
                        &&& final(self).windows@[s].pixel_height == ws0[p].pixel_height
                        &&& final(self).windows@[s].total_cols == ws0[p].total_cols
                        &&& final(self).windows@[s].total_lines == ws0[p].total_lines
                        &&& final(self).windows@[s].top_line == ws0[p].top_line
                        &&& final(self).windows@[s].parent == ws0[p].parent
                        &&& final(self).windows@[s].prev == ws0[p].prev
                        &&& final(self).windows@[s].next == ws0[p].next
                        &&& final(self).windows@[s].contents == ws0[s].contents
                        &&& same_payload(final(self).windows@[s], ws0[s])
                        &&& final(self).windows@[p].contents is Empty
                        &&& same_box(final(self).windows@[p], ws0[p])
                        &&& same_payload(final(self).windows@[p], ws0[p])
                        &&& (match ws0[p].prev {
                            Some(x) => final(self).windows@[x as int].next == Some(s as usize),
                            None => true,
                        })
                        &&& (match ws0[p].next {
                            Some(x) => final(self).windows@[x as int].prev == Some(s as usize),
                            None => true,
                        })
                        &&& (match ws0[p].parent {
                            Some(g) => ws0[g as int].contents == Contents::Child(p as usize)
                                ==> final(self).windows@[g as int].contents == Contents::Child(
                                s as usize,
                            ),
                            None => true,
                        })
                        &&& (if ws0[p].parent is None && old(self).frames@[ws0[p].frame as int].root_window
                            == p {
                            final(self).frames@ == old(self).frames@.update(
                                ws0[p].frame as int,
                                (Frame {
                                    root_window: s as usize,
                                    ..old(self).frames@[ws0[p].frame as int]
                                }),
                            )
                        } else {
                            final(self).frames@ == old(self).frames@
                        })
                        &&& (forall|i: int|
                            0 <= i < ws0.len() && i != w && i != p && i != s && (match ws0[p].prev {
                                Some(x) => i != x,
                                None => true,
                            }) && (match ws0[p].next {
                                Some(x) => i != x,
                                None => true,
                            }) && (match ws0[p].parent {
                                Some(g) => i != g,
                                None => true,
                            }) ==> final(self).windows@[i] == ws0[i])
                    } else {
                        &&& (match wd.prev {
                            Some(pr) => final(self).windows@[pr as int].next == wd.next,
                            None => final(self).windows@[p].contents == Contents::Child(
                                (match wd.next {
                                    Some(nx) => nx,
                                    None => 0,
                                }),
                            ),
                        })
                        &&& (match wd.next {
                            Some(nx) => final(self).windows@[nx as int].prev == wd.prev,
                            None => true,
                        })
                        &&& final(self).frames@ == old(self).frames@
                        &&& (forall|i: int|
                            0 <= i < ws0.len() && i != w && (match wd.prev {
                                Some(pr) => i != pr,
                                None => i != p,
                            }) && (match wd.next {
                                Some(nx) => i != nx,
                                None => true,
                            }) ==> final(self).windows@[i] == ws0[i])
                    })
                    &&& *final(self) == (Session {
                        windows: final(self).windows,
                        frames: final(self).frames,
                        ..*old(self)
                    })
                },
                Err(e) => {
                    &&& *final(self) == *old(self)
                    &&& (if old(self).windows@[w as int].parent is None {
                        e == WindowError::Domain(DomainFault::DeleteRootWindow)
                    } else {
                        &&& old(self).windows@[w as int].prev is None
                        &&& old(self).windows@[w as int].next is None
                        &&& e == WindowError::Domain(DomainFault::DeleteSoleChild)
                    })
                },
            }),
    {
        let ghost ws0 = self.windows@;
        let ghost nw = self.windows@.len() as int;
        let ghost nf = self.frames@.len() as int;
        let ghost nb = self.buffers@.len() as int;
        let p: usize = match self.windows[w].parent {
            Some(p) => p,
            None => {
                return Err(WindowError::Domain(DomainFault::DeleteRootWindow));
            },
        };
        let prev = self.windows[w].prev;
        let next = self.windows[w].next;
        if prev.is_none() && next.is_none() {
            return Err(WindowError::Domain(DomainFault::DeleteSoleChild));
        }
        proof {
            assert(windows_wf(ws0, nf, nb));
            assert(ws0[w as int].wf(nw, nf, nb));
            assert(ws0[p as int].wf(nw, nf, nb));
        }
        // The collapse decision reads the sibling structure before any
        // relinking.
        let sib: Option<usize> = match (prev, next) {
            (None, Some(nx)) => {
                if self.windows[nx].next.is_none() {
                    Some(nx)
                } else {
                    None
                }
            },
            (Some(pr), None) => {
                if self.windows[pr].prev.is_none() {
                    Some(pr)
                } else {
                    None
                }
            },
            _ => None,
        };
        proof {
            assert(sib == spec_sole_sibling(ws0, w as int));
        }
        let collapse = sib.is_some() && !matches!(
            self.windows[p].combination_limit,
            CombinationLimit::Limited,
        );
        if collapse {
            let s = match sib {
                Some(s) => s,
                None => 0,
            };
            self.delete_into_sibling(w, p, s);
        } else {
            self.unlink_window(w);
            proof {
                assert forall|i: int| 0 <= i < nf implies frame_refs_ok(
                    #[trigger] self.frames@[i],
                    nw,
                ) by {
                    assert(frame_refs_ok(old(self).frames@[i], nw));
                }
                assert forall|i: int| 0 <= i < nb implies (#[trigger] self.buffers@[i]).wf() by {
                    assert(old(self).buffers@[i].wf());
                }
            }
        }
        Ok(())
    }
}


/// Fuel that lets a depth-first walk finish on any link structure of
/// `n` records; on a well-formed tree it is never exhausted.
pub open spec fn dfs_fuel(n: nat) -> nat {
    n * n + n + 1
}

/// The depth-first, sibling-ordered walk of the windows on `stack`
/// (top of stack last), cut off by `fuel`: pop a window, list it, and
/// put its children on top, first child uppermost.
pub open spec fn spec_dfs(ws: Seq<LispWindowRef>, stack: Seq<usize>, fuel: nat) -> Seq<usize>
    decreases fuel,
{
    if fuel == 0 || stack.len() == 0 {
        Seq::empty()
    } else {
        let node = stack.last();
        seq![node].add(
            spec_dfs(
                ws,
                stack.drop_last() + spec_children(ws, node as int).reverse(),
                (fuel - 1) as nat,
            ),
        )
    }
}

/// The windows of `ids` that are live and not minibuffer windows, in
/// order.
pub open spec fn spec_live_filter(ws: Seq<LispWindowRef>, ids: Seq<usize>) -> Seq<usize>
    decreases ids.len(),
{
    if ids.len() == 0 {
        Seq::empty()
    } else {
        let rest = spec_live_filter(ws, ids.drop_last());
        if ws[ids.last() as int].spec_is_live() && !ws[ids.last() as int].mini {
            rest.push(ids.last())
        } else {
            rest
        }
    }
}

/// The index of the first occurrence of `x` in `l`, or `l.len()` when
/// `x` does not occur.
pub open spec fn spec_first_index(l: Seq<usize>, x: usize) -> int
    decreases l.len(),
{
    if l.len() == 0 {
        0
    } else if l[0] == x {
        0
    } else {
        1 + spec_first_index(l.subrange(1, l.len() as int), x)
    }
}

/// The first index points at `x` when `x` occurs, everything before it
/// differs from `x`, and it equals the length when `x` is absent.
pub proof fn lemma_first_index_char(l: Seq<usize>, x: usize)
    ensures
        0 <= spec_first_index(l, x) <= l.len(),
        spec_first_index(l, x) < l.len() ==> l[spec_first_index(l, x)] == x,
        forall|k: int| 0 <= k < spec_first_index(l, x) ==> l[k] != x,
    decreases l.len(),
{
    if l.len() > 0 && l[0] != x {
        let tail = l.subrange(1, l.len() as int);
        lemma_first_index_char(tail, x);
        assert forall|k: int| 0 <= k < spec_first_index(l, x) implies l[k] != x by {
            if k >= 1 {
                assert(l[k] == tail[k - 1]);
            }
        }
    }
}

/// How the minibuffer window takes part in a window listing: always,
/// only while a minibuffer is active, or never.
#[derive(Clone, Copy, PartialEq, Eq, Structural, Debug)]
pub enum MinibufferPolicy {
    Always,
    IfActive,
    Never,
}

/// Which frames a window listing draws from.
#[derive(Clone, Copy, PartialEq, Eq, Structural, Debug)]
pub enum FrameScope {
    WindowFrame,
    AllFrames,
    VisibleFrames,
    VisibleAndIconifiedFrames,
    OneFrame(usize),
}

impl Session {
    /// The depth-first, sibling-ordered listing of the subtree under
    /// `root`.
    pub open spec fn spec_subtree_listing(&self, root: usize) -> Seq<usize> {
        spec_dfs(self.windows@, seq![root], dfs_fuel(self.windows@.len() as nat))
    }

    /// Whether frame `f` contributes windows to a listing under the
    /// given scope, relative to the starting window's frame.
    pub open spec fn spec_in_scope(
        &self,
        f: int,
        start_frame: usize,
        all_frames: FrameScope,
    ) -> bool {
        match all_frames {
            FrameScope::WindowFrame => f == start_frame,
            FrameScope::AllFrames => self.frames@[f].live,
            FrameScope::VisibleFrames => self.frames@[f].live && self.frames@[f].visible,
            FrameScope::VisibleAndIconifiedFrames => self.frames@[f].live && (
            self.frames@[f].visible || self.frames@[f].iconified),
            FrameScope::OneFrame(g) => f == g,
        }
    }

    /// The live windows one frame contributes: its subtree, filtered
    /// to live non-minibuffer windows, followed by its minibuffer
    /// window when the policy admits it and it is live.
    pub open spec fn spec_frame_listing(&self, f: int, minibuf: MinibufferPolicy) -> Seq<usize> {
        let base = spec_live_filter(
            self.windows@,
            spec_dfs(
                self.windows@,
                seq![self.frames@[f].root_window],
                dfs_fuel(self.windows@.len() as nat),
            ),
        );
        let mb_on = (match minibuf {
            MinibufferPolicy::Always => true,
            MinibufferPolicy::IfActive => self.minibuf_level > 0,
            MinibufferPolicy::Never => false,
        });
        match self.frames@[f].minibuffer_window {
            LispObject::Window(m) => if mb_on && m < self.windows@.len() && self.windows@[
                m as int
            ].spec_is_live() {
                base.push(m)
            } else {
                base
            },
            _ => base,
        }
    }

    /// The listings of the in-scope frames among the first `f`,
    /// concatenated in frame order.
    pub open spec fn spec_listing_upto(
        &self,
        start_frame: usize,
        minibuf: MinibufferPolicy,
        all_frames: FrameScope,
        f: int,
    ) -> Seq<usize>
        decreases f,
    {
        if f <= 0 {
            Seq::empty()
        } else {
            self.spec_listing_upto(start_frame, minibuf, all_frames, f - 1) + (if self.spec_in_scope(
                f - 1,
                start_frame,
                all_frames,
            ) {
                self.spec_frame_listing(f - 1, minibuf)
            } else {
                Seq::empty()
            })
        }
    }

    /// The full window listing: the in-scope frames' listings, rotated
    /// so that the starting window, when it occurs, comes first.
    pub open spec fn spec_window_listing(
        &self,
        window: LispObject,
        minibuf: MinibufferPolicy,
        all_frames: FrameScope,
    ) -> Seq<usize> {
        let start = self.spec_start_window(window);
        let l = self.spec_listing_upto(
            self.windows@[start as int].frame,
            minibuf,
            all_frames,
            self.frames@.len() as int,
        );
        let j = spec_first_index(l, start);
        l.subrange(j, l.len() as int) + l.subrange(0, j)
    }

    /// All windows of the subtree rooted at `root`, depth first and in
    /// sibling-chain order; the walk is cut off rather than looping on
    /// a malformed link structure.
    pub fn subtree_windows(&self, root: usize) -> (v: Vec<usize>)
        requires
            self.wf(),
            root < self.windows@.len(),
        ensures
            v@ == self.spec_subtree_listing(root),
            forall|k: int| 0 <= k < v@.len() ==> v@[k] < self.windows@.len(),
    {
        let n = self.windows.len();
        let mut stack: Vec<usize> = Vec::new();
        stack.push(root);
        let mut out: Vec<usize> = Vec::new();
        proof {
            assert((n as int) * (n as int) + (n as int) + 1 < 0x1_0000_0000_0000_0000) by (
            nonlinear_arith)
                requires
                    0 <= n as int <= 0xffff_ffff,
            ;
        }
        let mut fuel: u64 = (n as u64) * (n as u64) + (n as u64) + 1;
        let ghost ws = self.windows@;
        let ghost stack0 = stack@;
        let ghost fuel0 = fuel as nat;
        proof {
            assert(self.spec_subtree_listing(root) == spec_dfs(ws, stack0, fuel0));
            assert(spec_dfs(ws, stack0, fuel0) =~= out@ + spec_dfs(ws, stack@, fuel as nat));
        }
        while stack.len() > 0 && fuel > 0
            invariant
                self.wf(),
                ws == self.windows@,
                n == self.windows@.len(),
                spec_dfs(ws, stack0, fuel0) == out@ + spec_dfs(ws, stack@, fuel as nat),
                forall|k: int| 0 <= k < stack@.len() ==> stack@[k] < n,
                forall|k: int| 0 <= k < out@.len() ==> out@[k] < n,
            decreases fuel,
        {
            let ghost stack_pre = stack@;
            let ghost fuel_pre = fuel as nat;
            let ghost out_pre = out@;
            fuel -= 1;
            let node = stack.pop().unwrap();
            out.push(node);
            proof {
                assert(spec_dfs(ws, stack_pre, fuel_pre) == seq![node].add(
                    spec_dfs(
                        ws,
                        stack_pre.drop_last() + spec_children(ws, node as int).reverse(),
                        fuel as nat,
                    ),
                ));
            }
            if self.windows[node].is_internal() {
                let kids = self.child_ids(node);
                let ghost rest0 = stack@;
                let mut i = kids.len();
                proof {
                    assert(kids@.subrange(i as int, kids@.len() as int).reverse()
                        =~= Seq::<usize>::empty());
                    assert(stack@ =~= rest0 + kids@.subrange(i as int, kids@.len() as int).reverse());
                }
                while i > 0
                    invariant
                        i <= kids@.len(),
                        n == self.windows@.len(),
                        ws == self.windows@,
                        rest0 == stack_pre.drop_last(),
                        kids@ == spec_children(ws, node as int),
                        stack@ == rest0 + kids@.subrange(i as int, kids@.len() as int).reverse(),
                        forall|k: int| 0 <= k < kids@.len() ==> kids@[k] < n,
                        forall|k: int| 0 <= k < stack@.len() ==> stack@[k] < n,
                    decreases i,
                {
                    i -= 1;
                    stack.push(kids[i]);
                    proof {
                        assert(kids@.subrange(i as int, kids@.len() as int).reverse()
                            =~= kids@.subrange(i + 1, kids@.len() as int).reverse().push(kids@[i as int]));
                        assert(stack@ =~= rest0 + kids@.subrange(i as int, kids@.len() as int).reverse());
                    }
                }
                proof {
                    assert(kids@.subrange(0, kids@.len() as int) =~= kids@);
                    assert(stack@ =~= stack_pre.drop_last() + spec_children(ws, node as int).reverse());
                    assert(out@ + spec_dfs(ws, stack@, fuel as nat) =~= out_pre + spec_dfs(
                        ws,
                        stack_pre,
                        fuel_pre,
                    ));
                }
            } else {
                proof {
                    assert(spec_children(ws, node as int) =~= Seq::<usize>::empty());
                    assert(spec_children(ws, node as int).reverse()
                        =~= Seq::<usize>::empty());
                    assert(stack@ =~= stack_pre.drop_last() + spec_children(ws, node as int).reverse());
                    assert(out@ + spec_dfs(ws, stack@, fuel as nat) =~= out_pre + spec_dfs(
                        ws,
                        stack_pre,
                        fuel_pre,
                    ));
                }
            }
        }
        proof {
            assert(spec_dfs(ws, stack@, fuel as nat) =~= Seq::<usize>::empty());
            assert(out@ + Seq::<usize>::empty() =~= out@);
        }
        out
    }

    /// The window a listing starts from: the given window, or the
    /// selected window when none (or a stale reference) is given.
    pub open spec fn spec_start_window(&self, window: LispObject) -> usize {
        match window {
            LispObject::Window(i) => if i < self.windows@.len() {
                i
            } else {
                self.spec_selected()
            },
            _ => self.spec_selected(),
        }
    }

    /// List live windows, starting from `window` (default: the
    /// selected window), drawing from the frames `all_frames` selects,
    /// and including minibuffer windows as `minibuf` directs.  Every
    /// listed window is live; with `Never` no minibuffer window is
    /// listed; and when the starting window appears in the list at all
    /// it comes first.  A starting window that the filters exclude is
    /// tolerated: some other window is listed first and no failure is
    /// signalled.
    /// List live windows, starting from `window` (default: the
    /// selected window), drawing from the frames `all_frames` selects,
    /// and including minibuffer windows as `minibuf` directs.  The
    /// result is exactly `spec_window_listing`: the in-scope frames'
    /// depth-first, sibling-ordered live windows with their minibuffer
    /// windows per policy, rotated so that the starting window, when
    /// it occurs, comes first.  A starting window that the filters
    /// exclude is tolerated: some other window is listed first and no
    /// failure is signalled.
    pub fn window_list_1(&self, window: LispObject, minibuf: MinibufferPolicy, all_frames: FrameScope) -> (v: Vec<usize>)
        requires
            self.wf(),
        ensures
            v@ == self.spec_window_listing(window, minibuf, all_frames),
            forall|k: int|
                0 <= k < v@.len() ==> v@[k] < self.windows@.len() && self.windows@[
                    v@[k] as int
                ].spec_is_live(),
            minibuf == MinibufferPolicy::Never ==> (forall|k: int|
                0 <= k < v@.len() ==> !self.windows@[v@[k] as int].mini),
            (exists|k: int| 0 <= k < v@.len() && v@[k] == self.spec_start_window(window))
                ==> v@.len() > 0 && v@[0] == self.spec_start_window(window),
    {
        let ghost ws = self.windows@;
        let n = self.windows.len();
        let sel: usize = match self.selected_window {
            LispObject::Window(i) => i,
            _ => 0,
        };
        let start: usize = match window {
            LispObject::Window(i) => if i < n {
                i
            } else {
                sel
            },
            _ => sel,
        };
        proof {
            assert(start == self.spec_start_window(window));
            assert(self.windows@[start as int].wf(
                self.windows@.len() as int,
                self.frames@.len() as int,
                self.buffers@.len() as int,
            ));
        }
        let start_frame = self.windows[start].frame;
        let nf = self.frames.len();
        let mut collected: Vec<usize> = Vec::new();
        let mut f: usize = 0;
        proof {
            assert(collected@ =~= self.spec_listing_upto(start_frame, minibuf, all_frames, 0));
        }
        while f < nf
            invariant
                self.wf(),
                ws == self.windows@,
                f <= nf,
                n == self.windows@.len(),
                nf == self.frames@.len(),
                collected@ == self.spec_listing_upto(start_frame, minibuf, all_frames, f as int),
                forall|k: int|
                    0 <= k < collected@.len() ==> collected@[k] < n && self.windows@[
                        collected@[k] as int
                    ].spec_is_live(),
                minibuf == MinibufferPolicy::Never ==> (forall|k: int|
                    0 <= k < collected@.len() ==> !self.windows@[collected@[k] as int].mini),
            decreases nf - f,
        {
            let ghost upto_f = collected@;
            let in_scope: bool = match all_frames {
                FrameScope::WindowFrame => f == start_frame,
                FrameScope::AllFrames => self.frames[f].live,
                FrameScope::VisibleFrames => self.frames[f].live && self.frames[f].visible,
                FrameScope::VisibleAndIconifiedFrames => self.frames[f].live && (
                self.frames[f].visible || self.frames[f].iconified),
                FrameScope::OneFrame(g) => f == g,
            };
            proof {
                assert(in_scope == self.spec_in_scope(f as int, start_frame, all_frames));
            }
            if in_scope {
                proof {
                    assert(frame_refs_ok(self.frames@[f as int], n as int));
                }
                let subtree = self.subtree_windows(self.frames[f].root_window);
                let m = subtree.len();
                let mut j: usize = 0;
                proof {
                    assert(spec_live_filter(ws, subtree@.subrange(0, 0)) =~= Seq::<usize>::empty());
                    assert(collected@ =~= upto_f + spec_live_filter(ws, subtree@.subrange(0, 0)));
                }
                while j < m
                    invariant
                        self.wf(),
                        ws == self.windows@,
                        j <= m,
                        n == self.windows@.len(),
                        m == subtree@.len(),
                        forall|k: int| 0 <= k < subtree@.len() ==> subtree@[k] < n,
                        collected@ == upto_f + spec_live_filter(
                            ws,
                            subtree@.subrange(0, j as int),
                        ),
                        forall|k: int|
                            0 <= k < collected@.len() ==> collected@[k] < n && self.windows@[
                                collected@[k] as int
                            ].spec_is_live(),
                        minibuf == MinibufferPolicy::Never ==> (forall|k: int|
                            0 <= k < collected@.len() ==> !self.windows@[
                                collected@[k] as int
                            ].mini),
                    decreases m - j,
                {
                    let wid = subtree[j];
                    if self.windows[wid].is_live() && !self.windows[wid].is_minibuffer() {
                        collected.push(wid);
                    }
                    j += 1;
                    proof {
                        assert(subtree@.subrange(0, j as int).drop_last() =~= subtree@.subrange(
                            0,
                            j as int - 1,
                        ));
                        assert(collected@ =~= upto_f + spec_live_filter(
                            ws,
                            subtree@.subrange(0, j as int),
                        ));
                    }
                }
                proof {
                    assert(subtree@.subrange(0, m as int) =~= subtree@);
                }
                let include_mb: bool = match minibuf {
                    MinibufferPolicy::Always => true,
                    MinibufferPolicy::IfActive => self.minibuf_level > 0,
                    MinibufferPolicy::Never => false,
                };
                if include_mb {
                    match self.frames[f].minibuffer_window {
                        LispObject::Window(mb) => {
                            if self.windows[mb].is_live() {
                                collected.push(mb);
                            }
                        },
                        _ => {},
                    }
                }
                proof {
                    assert(collected@ =~= upto_f + self.spec_frame_listing(f as int, minibuf));
                }
            }
            f += 1;
            proof {
                assert(collected@ =~= self.spec_listing_upto(
                    start_frame,
                    minibuf,
                    all_frames,
                    f as int,
                ));
            }
        }
        let ghost l = collected@;
        proof {
            assert(l == self.spec_listing_upto(
                start_frame,
                minibuf,
                all_frames,
                self.frames@.len() as int,
            ));
            lemma_first_index_char(l, start);
        }
        // Rotate so that the starting window, when listed, comes first.
        let len = collected.len();
        let mut pos: usize = len;
        let mut j: usize = 0;
        while j < len
            invariant
                j <= len,
                len == collected@.len(),
                pos <= len,
                pos == len ==> (forall|k: int| 0 <= k < j ==> collected@[k] != start),
                pos < len ==> collected@[pos as int] == start && (forall|k: int|
                    0 <= k < pos ==> collected@[k] != start),
            decreases len - j,
        {
            if pos == len && collected[j] == start {
                pos = j;
            }
            j += 1;
        }
        proof {
            let fi = spec_first_index(l, start);
            if pos == len {
                if fi < l.len() {
                    assert(l[fi] == start);
                    assert(false);
                }
            } else {
                if fi < pos {
                    assert(l[fi] == start);
                    assert(false);
                }
                if (pos as int) < fi {
                    assert(l[pos as int] != start);
                    assert(false);
                }
            }
            assert(pos as int == fi);
        }
        if pos == len {
            proof {
                assert(l.subrange(pos as int, l.len() as int) + l.subrange(0, pos as int) =~= l);
                assert forall|k: int|
                    0 <= k < collected@.len() implies collected@[k] != self.spec_start_window(
                    window,
                ) by {}
            }
            return collected;
        }
        let mut out: Vec<usize> = Vec::new();
        let mut j2: usize = pos;
        proof {
            assert(out@ =~= l.subrange(pos as int, pos as int));
        }
        while j2 < len
            invariant
                pos <= j2 <= len,
                pos < len,
                len == collected@.len(),
                l == collected@,
                collected@[pos as int] == start,
                out@ == l.subrange(pos as int, j2 as int),
                j2 > pos ==> out@[0] == start,
                forall|k: int|
                    0 <= k < collected@.len() ==> collected@[k] < self.windows@.len()
                        && self.windows@[collected@[k] as int].spec_is_live(),
                minibuf == MinibufferPolicy::Never ==> (forall|k: int|
                    0 <= k < collected@.len() ==> !self.windows@[collected@[k] as int].mini),
                forall|k: int|
                    0 <= k < out@.len() ==> out@[k] < self.windows@.len() && self.windows@[
                        out@[k] as int
                    ].spec_is_live(),
                minibuf == MinibufferPolicy::Never ==> (forall|k: int|
                    0 <= k < out@.len() ==> !self.windows@[out@[k] as int].mini),
            decreases len - j2,
        {
            out.push(collected[j2]);
            j2 += 1;
            proof {
                assert(out@ =~= l.subrange(pos as int, j2 as int));
            }
        }
        let mut j3: usize = 0;
        proof {
            assert(out@ =~= l.subrange(pos as int, len as int) + l.subrange(0, 0));
        }
        while j3 < pos
            invariant
                j3 <= pos,
                pos < len,
                len == collected@.len(),
                l == collected@,
                out@ == l.subrange(pos as int, len as int) + l.subrange(0, j3 as int),
                out@.len() == (len - pos) + j3,
                out@[0] == start,
                forall|k: int|
                    0 <= k < collected@.len() ==> collected@[k] < self.windows@.len()
                        && self.windows@[collected@[k] as int].spec_is_live(),
                minibuf == MinibufferPolicy::Never ==> (forall|k: int|
                    0 <= k < collected@.len() ==> !self.windows@[collected@[k] as int].mini),
                forall|k: int|
                    0 <= k < out@.len() ==> out@[k] < self.windows@.len() && self.windows@[
                        out@[k] as int
                    ].spec_is_live(),
                minibuf == MinibufferPolicy::Never ==> (forall|k: int|
                    0 <= k < out@.len() ==> !self.windows@[out@[k] as int].mini),
            decreases pos - j3,
        {
            out.push(collected[j3]);
            j3 += 1;
            proof {
                assert(out@ =~= l.subrange(pos as int, len as int) + l.subrange(0, j3 as int));
            }
        }
        out
    }

    /// The window a one-frame listing starts from: the given window,
    /// or frame `f`'s selected window when none is given.
    pub open spec fn spec_list_start(&self, f: int, window: Option<usize>) -> usize {
        match window {
            Some(w) => w,
            None => (match self.frames@[f].selected_window {
                LispObject::Window(i) => i,
                _ => 0,
            }),
        }
    }

    /// List the live windows of frame `frame` (nil: the selected
    /// frame), starting from `window` (default: the frame's selected
    /// window) and including the minibuffer window as `minibuf`
    /// directs.  A value that names no live frame is a wrong-type
    /// failure; a starting window on another frame is a cross-frame
    /// failure; on any other input the listing of that frame is owed.
    pub fn window_list(&self, frame: LispObject, minibuf: MinibufferPolicy, window: Option<usize>) -> (r:
        Result<Vec<usize>, WindowError>)
        requires
            self.wf(),
            (match window {
                Some(w) => w < self.windows@.len(),
                None => true,
            }),
            (window is None && self.spec_frame_ok(frame)) ==> self.frames@[self.spec_frame_idx(
                frame,
            ) as int].selected_window is Window,
        ensures
            (match r {
                Ok(v) => {
                    let fidx = self.spec_frame_idx(frame);
                    let w = self.spec_list_start(fidx as int, window);
                    &&& self.spec_frame_ok(frame)
                    &&& self.frames@[fidx as int].live
                    &&& w < self.windows@.len()
                    &&& self.windows@[w as int].frame == fidx
                    &&& v@ == self.spec_window_listing(
                        LispObject::Window(w),
                        minibuf,
                        FrameScope::OneFrame(fidx),
                    )
                    &&& (forall|k: int|
                        0 <= k < v@.len() ==> v@[k] < self.windows@.len() && self.windows@[
                            v@[k] as int
                        ].spec_is_live())
                    &&& (minibuf == MinibufferPolicy::Never ==> (forall|k: int|
                        0 <= k < v@.len() ==> !self.windows@[v@[k] as int].mini))
                },
                Err(e) => {
                    if !self.spec_frame_ok(frame) || !self.frames@[self.spec_frame_idx(
                        frame,
                    ) as int].live {
                        e == WindowError::WrongType(TypePred::FrameLivep, frame)
                    } else {
                        &&& self.windows@[self.spec_list_start(
                            self.spec_frame_idx(frame) as int,
                            window,
                        ) as int].frame != self.spec_frame_idx(frame)
                        &&& e == WindowError::CrossFrame
                    }
                },
            }),
    {
        let f: usize = match frame {
            LispObject::Nil => self.selected_frame,
            LispObject::Frame(i) => {
                if i < self.frames.len() {
                    i
                } else {
                    return Err(WindowError::WrongType(TypePred::FrameLivep, frame));
                }
            },
            _ => {
                return Err(WindowError::WrongType(TypePred::FrameLivep, frame));
            },
        };
        if !self.frames[f].live {
            return Err(WindowError::WrongType(TypePred::FrameLivep, frame));
        }
        let w: usize = match window {
            Some(w) => w,
            None => {
                match self.frames[f].selected_window {
                    LispObject::Window(i) => i,
                    _ => 0,
                }
            },
        };
        proof {
            assert(frame_refs_ok(self.frames@[f as int], self.windows@.len() as int));
        }
        if self.windows[w].frame != f {
            return Err(WindowError::CrossFrame);
        }
        Ok(self.window_list_1(LispObject::Window(w), minibuf, FrameScope::OneFrame(f)))
    }
}

} // verus!
