//! Picking: resolving a click on the rendered image back to an entity.
//!
//! After the geometry pass every mesh entity's pick identifier sits in the
//! stencil buffer wherever that entity covered the frame. On a click the
//! backend reads one pixel back (at the Y-flipped coordinate, since input is
//! top-left based while the framebuffer origin is bottom-left), and the low
//! eight bits of that pixel are the pick identifier: zero means background.
//! The functions here do everything around that readback: compute the
//! coordinates, decode the pixel, scan the scene for the matching entity and
//! replace the selection.

use vstd::prelude::*;

use crate::components::StencilId;
use crate::scene::Scene;
use crate::scene::at_most_one_selected;
use crate::scene::fresh_stencils;
use crate::scene::lemma_single_selection;
use crate::scene::lemma_stencil_ids_valid;
use crate::scene::selection_applied;
use crate::scene::Entity;

verus! {

/// Where to read the pick pixel for a click at `(x, y)` (top-left based
/// window coordinates): the same column, with the row flipped to the
/// framebuffer's bottom-left origin. `None` when the click lies outside a
/// `width` by `height` surface.
pub fn pick_readback_coords(x: u32, y: u32, width: u32, height: u32) -> (r: Option<(u32, u32)>)
    ensures
        r is Some <==> (x < width && y < height),
        (r matches Some(p) ==> p.0 == x && p.1 == height - y - 1),
{
    if x < width && y < height {
        Some((x, height - y - 1))
    } else {
        None
    }
}

/// The pick identifier encoded in a depth-stencil readback pixel: its low
/// eight bits.
pub fn pick_index_of_pixel(pixel: u32) -> (idx: usize)
    ensures
        idx == pixel % 256,
        idx < 256,
{
    let v = pixel & 0xFF;
    proof {
        assert(pixel & 0xFF == pixel % 256) by (bit_vector);
    }
    v as usize
}

/// The entity a pick identifier resolves to: the first one (in iteration
/// order) whose stored stencil identifier matches. Zero is the background
/// and resolves to nothing, as do identifiers no entity holds.
pub open spec fn resolve_pick_spec(s: Seq<Entity>, idx: usize) -> Option<u64>
    decreases s.len(),
{
    if idx == 0 || s.len() == 0 {
        None
    } else if s[0].stencil_id == Some(StencilId(idx)) {
        Some(s[0].id)
    } else {
        resolve_pick_spec(s.drop_first(), idx)
    }
}

/// Scan the scene for the entity carrying pick identifier `idx`.
pub fn resolve_pick(scene: &Scene, idx: usize) -> (r: Option<u64>)
    ensures
        r == resolve_pick_spec(scene.entities(), idx),
{
    if idx == 0 {
        return None;
    }
    let n = scene.len();
    let mut k: usize = 0;
    proof {
        assert(scene.entities().skip(0) =~= scene.entities());
    }
    while k < n
        invariant
            n == scene.entities().len(),
            k <= n,
            idx != 0,
            resolve_pick_spec(scene.entities(), idx) == resolve_pick_spec(
                scene.entities().skip(k as int),
                idx,
            ),
        decreases n - k,
    {
        let e = scene.entity_at(k);
        let matches_idx = match e.stencil_id {
            Some(sid) => sid.0 == idx,
            None => false,
        };
        proof {
            let rest = scene.entities().skip(k as int);
            assert(rest[0] == scene.entities()[k as int]);
            assert(rest.drop_first() =~= scene.entities().skip(k as int + 1));
        }
        if matches_idx {
            return Some(e.id);
        }
        k += 1;
    }
    proof {
        assert(scene.entities().skip(n as int).len() == 0);
    }
    None
}

/// A pick identifier held by no entity resolves to nothing.
pub proof fn lemma_pick_background(s: Seq<Entity>, idx: usize)
    requires
        forall|i: int| 0 <= i < s.len() ==> (#[trigger] s[i]).stencil_id != Some(StencilId(idx)),
    ensures
        resolve_pick_spec(s, idx) is None,
    decreases s.len(),
{
    if idx != 0 && s.len() > 0 {
        assert forall|i: int| 0 <= i < s.drop_first().len() implies (#[trigger] s.drop_first()[i]).stencil_id
            != Some(StencilId(idx)) by {
            assert(s.drop_first()[i] == s[i + 1]);
        }
        lemma_pick_background(s.drop_first(), idx);
    }
}

/// When exactly one entity holds the identifier, resolution finds it.
proof fn lemma_resolve_unique(s: Seq<Entity>, idx: usize, i: int)
    requires
        idx != 0,
        0 <= i < s.len(),
        s[i].stencil_id == Some(StencilId(idx)),
        forall|j: int|
            0 <= j < s.len() && j != i ==> (#[trigger] s[j]).stencil_id != Some(StencilId(idx)),
    ensures
        resolve_pick_spec(s, idx) == Some(s[i].id),
    decreases s.len(),
{
    if i == 0 {
    } else {
        assert(s[0].stencil_id != Some(StencilId(idx)));
        let rest = s.drop_first();
        assert(rest[i - 1] == s[i]);
        assert forall|j: int| 0 <= j < rest.len() && j != i - 1 implies (#[trigger] rest[j]).stencil_id
            != Some(StencilId(idx)) by {
            assert(rest[j] == s[j + 1]);
        }
        lemma_resolve_unique(rest, idx, i - 1);
    }
}

/// Picking is exact after a geometry pass: reading back the pick identifier
/// written for a mesh entity resolves to that entity, for any frame's
/// assignment (and whatever covered the other pixels).
pub proof fn lemma_pick_roundtrip(s: Seq<Entity>, i: int)
    requires
        fresh_stencils(s),
        0 <= i < s.len(),
        s[i].mesh is Some,
    ensures
        s[i].stencil_id matches Some(sid) && resolve_pick_spec(s, sid.0) == Some(s[i].id),
{
    lemma_stencil_ids_valid(s);
    let sid = s[i].stencil_id->Some_0;
    assert(sid.0 as int >= 1);
    assert forall|j: int| 0 <= j < s.len() && j != i implies (#[trigger] s[j]).stencil_id
        != Some(StencilId(sid.0)) by {
        if s[j].mesh is Some {
            if j < i {
                assert(s[j].stencil_id != s[i].stencil_id);
            } else {
                assert(s[i].stencil_id != s[j].stencil_id);
            }
        }
    }
    lemma_resolve_unique(s, sid.0, i);
}

/// Handle a click that read back pick identifier `idx`: clear the previous
/// selection and select the entity `idx` resolves to, if any. At most one
/// entity is selected afterwards; a background readback (`idx == 0`, or an
/// identifier nothing holds) leaves nothing selected.
pub fn handle_pick(scene: &mut Scene, idx: usize) -> (picked: Option<u64>)
    requires
        old(scene).wf(),
    ensures
        final(scene).wf(),
        final(scene).spec_next_id() == old(scene).spec_next_id(),
        picked == resolve_pick_spec(old(scene).entities(), idx),
        selection_applied(old(scene).entities(), final(scene).entities(), picked),
        at_most_one_selected(final(scene).entities()),
{
    let picked = resolve_pick(scene, idx);
    scene.select_only(picked);
    proof {
        lemma_single_selection(old(scene).entities(), scene.entities(), picked);
    }
    picked
}

} // verus!
