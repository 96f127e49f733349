//! The texture cache: at most one GPU texture, reallocated only when the
//! frame dimensions change.
//!
//! The cache owns the description of the single presentable texture —
//! its identity and its dimensions — and decides, on every frame, whether
//! the existing texture can be reused or must be released and replaced.
//! The GPU allocation itself is the render driver's outside work; it
//! creates a texture when the cache hands out a fresh identity and
//! releases the one the cache reports as replaced.

use vstd::prelude::*;

verus! {

/// The description of one cached texture: a fresh identity and the exact
/// dimensions it was allocated with. Identities are never reissued by the
/// same cache.
#[derive(Clone, Copy, Debug, PartialEq, Eq, Structural)]
pub struct TextureDesc {
    pub id: u64,
    pub width: u32,
    pub height: u32,
}

/// What one `ensure` call asks of the GPU side: nothing, or the creation
/// of the returned texture and the release of the replaced one, if any.
#[derive(Clone, Copy, Debug, PartialEq, Eq, Structural)]
pub enum EnsureAction {
    /// The existing texture already has the requested dimensions; no
    /// allocation, no release.
    Reused,
    /// A texture with the returned description must be allocated, and the
    /// held one released.
    Created { released: Option<TextureDesc> },
}

/// Owns at most one texture description and reallocates only on a
/// dimension change.
#[derive(Clone, Copy, Debug)]
pub struct TextureCache {
    /// The next identity to hand out; strictly above every identity this
    /// cache has ever issued.
    pub next_id: u64,
    /// The texture currently held, if any.
    pub current: Option<TextureDesc>,
}

impl TextureCache {
    /// Every issued identity lies below `next_id`, and the held texture
    /// has valid dimensions.
    pub open spec fn wf(self) -> bool {
        self.current matches Some(t) ==> t.id < self.next_id && 0 < t.width <= crate::MAX_DIM && 0
            < t.height <= crate::MAX_DIM
    }

    /// An empty cache: no texture yet, identities start at zero.
    pub fn new() -> (c: TextureCache)
        ensures
            c.wf(),
            c.current is None,
            c.next_id == 0,
    {
        TextureCache { next_id: 0, current: None }
    }

    /// The description of the texture the cache currently holds.
    pub fn current_texture(&self) -> (t: Option<TextureDesc>)
        ensures
            t == self.current,
    {
        self.current
    }

    /// Hand out a texture sized exactly (`width`, `height`).
    ///
    /// If the held texture already has these dimensions it is returned
    /// unchanged and nothing is allocated or released. Otherwise a fresh
    /// identity is issued for the requested dimensions and the previously
    /// held texture (if any) is reported for release. This check runs on
    /// every frame, since stream dimensions may change without notice.
    pub fn ensure(&mut self, width: u32, height: u32) -> (r: (TextureDesc, EnsureAction))
        requires
            old(self).wf(),
            old(self).next_id < u64::MAX,
            0 < width <= crate::MAX_DIM,
            0 < height <= crate::MAX_DIM,
        ensures
            final(self).wf(),
            final(self).current == Some(r.0),
            r.0.width == width && r.0.height == height,
            match old(self).current {
                Some(t) if t.width == width && t.height == height => {
                    &&& r.0 == t
                    &&& r.1 == EnsureAction::Reused
                    &&& *final(self) == *old(self)
                },
                _ => {
                    &&& r.0.id == old(self).next_id
                    &&& r.1 == (EnsureAction::Created { released: old(self).current })
                    &&& final(self).next_id == old(self).next_id + 1
                },
            },
    {
        match self.current {
            Some(t) if t.width == width && t.height == height => (t, EnsureAction::Reused),
            _ => {
                let released = self.current;
                let fresh = TextureDesc { id: self.next_id, width, height };
                self.next_id = self.next_id + 1;
                self.current = Some(fresh);
                (fresh, EnsureAction::Created { released })
            },
        }
    }
}

/// What one `ensure` call did to the cache, stated as a relation between
/// the cache before (`pre`) and after (`post`) and the call's result.
/// This is exactly the postcondition of [`TextureCache::ensure`].
pub open spec fn ensure_post(
    pre: TextureCache,
    post: TextureCache,
    width: u32,
    height: u32,
    r: (TextureDesc, EnsureAction),
) -> bool {
    &&& post.wf()
    &&& post.current == Some(r.0)
    &&& r.0.width == width && r.0.height == height
    &&& match pre.current {
        Some(t) if t.width == width && t.height == height => {
            &&& r.0 == t
            &&& r.1 == EnsureAction::Reused
            &&& post == pre
        },
        _ => {
            &&& r.0.id == pre.next_id
            &&& r.1 == (EnsureAction::Created { released: pre.current })
            &&& post.next_id == pre.next_id + 1
        },
    }
}

/// Two consecutive `ensure` calls with identical dimensions return the
/// same texture identity, and the second call neither allocates nor
/// releases anything.
pub proof fn lemma_ensure_same_dims_reuses(
    c0: TextureCache,
    c1: TextureCache,
    c2: TextureCache,
    width: u32,
    height: u32,
    r1: (TextureDesc, EnsureAction),
    r2: (TextureDesc, EnsureAction),
)
    requires
        ensure_post(c0, c1, width, height, r1),
        ensure_post(c1, c2, width, height, r2),
    ensures
        r2.0 == r1.0,
        r2.1 == EnsureAction::Reused,
        c2 == c1,
{
}

/// An `ensure` call with different dimensions hands out a texture the
/// cache has never issued before and reports exactly the previously held
/// texture — and nothing else — for release.
pub proof fn lemma_ensure_new_dims_replaces(
    c0: TextureCache,
    c1: TextureCache,
    width: u32,
    height: u32,
    r: (TextureDesc, EnsureAction),
)
    requires
        c0.wf(),
        ensure_post(c0, c1, width, height, r),
        !(c0.current matches Some(t) && t.width == width && t.height == height),
    ensures
        r.1 == (EnsureAction::Created { released: c0.current }),
        c0.current matches Some(t) ==> r.0.id != t.id,
{
}

} // verus!
