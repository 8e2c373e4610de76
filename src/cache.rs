//! The terminal's side of the emotes: which images it holds and where they
//! are shown, and when both must be dropped.

use std::collections::{HashMap, HashSet};
use vstd::prelude::*;
use crate::graphics::Clear;
use crate::images::{Display, Load};

verus! {

broadcast use vstd::std_specs::hash::group_hash_axioms;

/// Where a placement shows an image.
#[derive(Clone, Copy, Debug, PartialEq, Eq, Structural)]
pub struct Placement {
    pub id: u32,
    pub x: u16,
    pub y: u16,
    pub width: u16,
    pub layer: u16,
}

/// What dropping every image leaves to do: write `directive`, and remove the
/// staged files.
pub struct Invalidation {
    pub directive: String,
    pub staged: Vec<String>,
}

/// The images uploaded to the terminal (`loaded`), the placements that show
/// them (`displayed`, by placement id), and the files staged for them.
pub struct EmoteCache {
    loaded: HashSet<u32>,
    displayed: HashMap<u32, Placement>,
    staged: Vec<String>,
    size: (u16, u16),
}

/// `after` and `r` are what dropping every image makes of `before`.
pub open spec fn invalidated(before: EmoteCache, after: EmoteCache, r: Invalidation) -> bool {
    &&& after.wf()
    &&& after.loaded().is_empty()
    &&& after.displayed().is_empty()
    &&& after.staged().len() == 0
    &&& r.directive@ == Clear(0, 0).chars()
    &&& r.staged@.map_values(|p: String| p@) == before.staged()
}

/// Dropping every image twice leaves `loaded` and `displayed` empty after
/// each call; the second call has no file to remove and writes the same
/// directive as the first.
pub proof fn lemma_invalidate_idempotent(
    c0: EmoteCache,
    c1: EmoteCache,
    r1: Invalidation,
    c2: EmoteCache,
    r2: Invalidation,
)
    requires
        invalidated(c0, c1, r1),
        invalidated(c1, c2, r2),
    ensures
        c1.loaded().is_empty() && c1.displayed().is_empty(),
        c2.loaded().is_empty() && c2.displayed().is_empty(),
        r2.staged@.len() == 0,
        r2.directive@ == r1.directive@,
{
    assert(r2.staged@.map_values(|p: String| p@).len() == 0);
}

impl EmoteCache {
    pub closed spec fn loaded(&self) -> Set<u32> {
        self.loaded@
    }

    pub closed spec fn displayed(&self) -> Map<u32, Placement> {
        self.displayed@
    }

    pub closed spec fn staged(&self) -> Seq<Seq<char>> {
        self.staged@.map_values(|p: String| p@)
    }

    /// The viewport size that the placements were made for.
    pub closed spec fn viewport(&self) -> (u16, u16) {
        self.size
    }

    /// Placements refer only to loaded images.
    pub open spec fn wf(&self) -> bool {
        forall|pid: u32| #[trigger]
            self.displayed().contains_key(pid) ==> self.loaded().contains(
                self.displayed()[pid].id,
            )
    }

    pub fn new() -> (r: EmoteCache)
        ensures
            r.wf(),
            r.loaded().is_empty(),
            r.displayed().is_empty(),
            r.staged().len() == 0,
            r.viewport() == (0u16, 0u16),
    {
        let r = EmoteCache {
            loaded: HashSet::new(),
            displayed: HashMap::new(),
            staged: Vec::new(),
            size: (0, 0),
        };
        assert(r.staged() =~= Seq::empty());
        r
    }

    pub fn is_loaded(&self, id: u32) -> (r: bool)
        ensures
            r == self.loaded().contains(id),
    {
        self.loaded.contains(&id)
    }

    /// Transmits `image`, which the cache then holds as loaded; its staged
    /// files become the cache's.
    pub fn load(&mut self, image: Load) -> (r: String)
        requires
            old(self).wf(),
            image.wf(),
        ensures
            final(self).wf(),
            r@ == image.chars(),
            final(self).loaded() == old(self).loaded().insert(image.spec_id()),
            final(self).displayed() == old(self).displayed(),
            final(self).staged() == old(self).staged() + image.spec_staged(),
            final(self).viewport() == old(self).viewport(),
    {
        let mut r = String::new();
        image.write_ansi(&mut r);
        assert(r@ =~= image.chars());
        let id = match &image {
            Load::Static(s) => s.id(),
            Load::Animated(a) => a.id(),
        };
        self.loaded.insert(id);
        assert forall|pid: u32| #[trigger] self.displayed().contains_key(pid) implies self.loaded().contains(
            self.displayed()[pid].id,
        ) by {
            assert(old(self).displayed().contains_key(pid));
        }
        let mut files = image.staged_files();
        let ghost old_staged = self.staged@;
        let ghost added = files@;
        self.staged.append(&mut files);
        proof {
            assert(self.staged@ == old_staged + added);
            assert(self.staged() =~= old(self).staged() + image.spec_staged()) by {
                assert(added.map_values(|p: String| p@) == image.spec_staged());
                assert((old_staged + added).map_values(|p: String| p@) =~= old_staged.map_values(
                    |p: String| p@,
                ) + added.map_values(|p: String| p@));
            }
        }
        r
    }

    /// Shows a loaded image as placement `d.pid`; an image not loaded is not
    /// shown, and nothing changes.
    pub fn place(&mut self, d: &Display) -> (r: Option<String>)
        requires
            old(self).wf(),
        ensures
            final(self).wf(),
            final(self).loaded() == old(self).loaded(),
            final(self).staged() == old(self).staged(),
            final(self).viewport() == old(self).viewport(),
            old(self).loaded().contains(d.id) ==> (r matches Some(s) && s@ == d.chars()
                && final(self).displayed() == old(self).displayed().insert(
                d.pid,
                Placement { id: d.id, x: d.x, y: d.y, width: d.width, layer: d.layer },
            )),
            !old(self).loaded().contains(d.id) ==> (r is None && final(self).displayed()
                == old(self).displayed()),
    {
        if !self.loaded.contains(&d.id) {
            return None;
        }
        let p = Placement { id: d.id, x: d.x, y: d.y, width: d.width, layer: d.layer };
        self.displayed.insert(d.pid, p);
        assert forall|q: u32| #[trigger] self.displayed().contains_key(q) implies self.loaded().contains(
            self.displayed()[q].id,
        ) by {
            if q != d.pid {
                assert(old(self).displayed().contains_key(q));
            }
        }
        let mut s = String::new();
        d.write_ansi(&mut s);
        assert(s@ =~= d.chars());
        Some(s)
    }

    /// Drops every image: clears `loaded` and `displayed`, hands back the
    /// staged files to remove, and the directive that has the terminal
    /// delete and unload all images. Calling it again finds nothing to
    /// remove and writes the same directive.
    pub fn invalidate(&mut self) -> (r: Invalidation)
        ensures
            invalidated(*old(self), *final(self), r),
            final(self).viewport() == old(self).viewport(),
    {
        self.loaded.clear();
        self.displayed.clear();
        let mut staged: Vec<String> = Vec::new();
        std::mem::swap(&mut self.staged, &mut staged);
        let mut directive = String::new();
        Clear(0, 0).write_ansi(&mut directive);
        assert(directive@ =~= Clear(0, 0).chars());
        assert(self.staged() =~= Seq::empty());
        assert(self.loaded() =~= Set::empty());
        assert(self.displayed() =~= Map::empty());
        Invalidation { directive, staged }
    }

    /// Called before each redraw with the viewport's size. Placements are
    /// absolute, so when the size differs from the last one every image is
    /// dropped before anything is drawn.
    pub fn prepare_redraw(&mut self, size: (u16, u16)) -> (r: Option<Invalidation>)
        requires
            old(self).wf(),
        ensures
            final(self).wf(),
            final(self).viewport() == size,
            size != old(self).viewport() ==> (r matches Some(i) && invalidated(
                *old(self),
                *final(self),
                i,
            )),
            size == old(self).viewport() ==> (r is None && final(self).loaded() == old(
                self,
            ).loaded() && final(self).displayed() == old(self).displayed() && final(self).staged()
                == old(self).staged()),
    {
        if size.0 == self.size.0 && size.1 == self.size.1 {
            return None;
        }
        self.size = size;
        Some(self.invalidate())
    }
}

} // verus!
