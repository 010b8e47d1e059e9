//! The scene store: entities and the operations the editor performs on them.
//!
//! Entities are kept in insertion order, each under an identifier that is
//! never reused. The store's invariant ([`Scene::wf`]) guarantees unique
//! identifiers, non-degenerate scales (no zero axis, so every model matrix
//! stays invertible) and that every compiled shader override is alive.

use vstd::prelude::*;

use crate::components::CustomShader;
use crate::components::CustomTexture;
use crate::components::Mesh;
use crate::components::PointLight;
use crate::components::Position;
use crate::components::Rotation;
use crate::components::Scale;
use crate::components::StencilId;
use crate::components::TransformBundle;
use crate::shader::ShaderError;
use crate::shader::ShaderType;

verus! {

/// One row of the scene: an identifier plus optional components.
#[derive(Debug)]
pub struct Entity {
    /// The entity's identifier, fixed at spawn time and never reused by the
    /// owning [`Scene`].
    pub id: u64,
    /// Translation.
    pub position: Position,
    /// Rotation in thousandths of a degree.
    pub rotation: Rotation,
    /// Scale; no axis is ever zero for entities held by a [`Scene`].
    pub scale: Scale,
    /// The mesh drawn for this entity, if any.
    pub mesh: Option<Mesh>,
    /// A per-entity shader override, if any.
    pub custom_shader: Option<CustomShader>,
    /// Per-entity texture overrides, if any.
    pub custom_texture: Option<CustomTexture>,
    /// Point light parameters, if this entity emits light.
    pub point_light: Option<PointLight>,
    /// Whether this entity is the current selection.
    pub selected: bool,
    /// The pick identifier assigned in the most recent geometry pass.
    pub stencil_id: Option<StencilId>,
}

impl Entity {
    /// Componentwise well-formedness: an invertible scale, and a shader
    /// override (when present) whose compiled program is alive.
    pub open spec fn wf(&self) -> bool {
        &&& self.scale.is_valid()
        &&& (match self.custom_shader {
            Some(cs) => cs.wf(),
            None => true,
        })
    }

    /// The program handle of this entity's compiled shader override, if any.
    pub open spec fn compiled_program(&self) -> Option<u32> {
        match self.custom_shader {
            Some(cs) => match cs.compiled {
                Some(s) => Some(s.spec_program()),
                None => None,
            },
            None => None,
        }
    }
}

/// Whether some entity in `s` has identifier `id`.
pub open spec fn has_entity(s: Seq<Entity>, id: u64) -> bool {
    exists|i: int| 0 <= i < s.len() && s[i].id == id
}

/// The index of the entity with identifier `id` (meaningful only when
/// `has_entity(s, id)` holds and identifiers are unique).
pub open spec fn entity_index(s: Seq<Entity>, id: u64) -> int {
    choose|i: int| 0 <= i < s.len() && s[i].id == id
}

/// `b` is `a` with possibly different `selected` and `stencil_id`: the
/// identifier and all other components agree.
pub open spec fn same_identity(a: Entity, b: Entity) -> bool {
    &&& b.id == a.id
    &&& b.position == a.position
    &&& b.rotation == a.rotation
    &&& b.scale == a.scale
    &&& b.mesh == a.mesh
    &&& b.custom_shader == a.custom_shader
    &&& b.custom_texture == a.custom_texture
    &&& b.point_light == a.point_light
}

/// Well-formedness of an entity sequence under an identifier bound: every
/// entity is componentwise well-formed, identifiers are pairwise distinct,
/// and all of them are below `next_id`.
pub open spec fn entities_wf(s: Seq<Entity>, next_id: u64) -> bool {
    &&& (forall|i: int| 0 <= i < s.len() ==> (#[trigger] s[i]).wf())
    &&& (forall|i: int| 0 <= i < s.len() ==> (#[trigger] s[i]).id < next_id)
    &&& (forall|i: int, j: int| 0 <= i < j < s.len() ==> s[i].id != s[j].id)
}

/// The entity store.
pub struct Scene {
    entities: Vec<Entity>,
    next_id: u64,
}

impl Scene {
    /// The entities, in insertion order.
    pub closed spec fn entities(&self) -> Seq<Entity> {
        self.entities@
    }

    /// The identifier the next spawned entity will get.
    pub closed spec fn spec_next_id(&self) -> u64 {
        self.next_id
    }

    /// The store's invariant: every entity is well-formed, identifiers are
    /// pairwise distinct, and all of them are below `next_id`.
    pub open spec fn wf(&self) -> bool {
        entities_wf(self.entities(), self.spec_next_id())
    }

    /// An empty scene.
    pub fn new() -> (s: Self)
        ensures
            s.wf(),
            s.entities().len() == 0,
            s.spec_next_id() == 0,
    {
        Self { entities: Vec::new(), next_id: 0 }
    }

    /// Number of entities.
    pub fn len(&self) -> (n: usize)
        ensures
            n == self.entities().len(),
    {
        self.entities.len()
    }

    /// The entity at position `k` in iteration order.
    pub fn entity_at(&self, k: usize) -> (e: &Entity)
        requires
            k < self.entities().len(),
        ensures
            *e == self.entities()[k as int],
    {
        &self.entities[k]
    }

    /// Spawn a new entity with the given transform and optional mesh and
    /// light; it starts unselected, with no overrides and no pick identifier.
    /// Returns the fresh identifier.
    pub fn spawn(
        &mut self,
        transform: TransformBundle,
        mesh: Option<Mesh>,
        point_light: Option<PointLight>,
    ) -> (id: u64)
        requires
            old(self).wf(),
            transform.is_valid(),
            old(self).spec_next_id() < u64::MAX,
        ensures
            final(self).wf(),
            id == old(self).spec_next_id(),
            final(self).spec_next_id() == old(self).spec_next_id() + 1,
            final(self).entities().len() == old(self).entities().len() + 1,
            final(self).entities().subrange(0, old(self).entities().len() as int) == old(
                self,
            ).entities(),
            ({
                let e = final(self).entities().last();
                &&& e.id == id
                &&& e.position == transform.position
                &&& e.rotation == transform.rotation
                &&& e.scale == transform.scale
                &&& e.mesh == mesh
                &&& e.custom_shader is None
                &&& e.custom_texture is None
                &&& e.point_light == point_light
                &&& !e.selected
                &&& e.stencil_id is None
            }),
            has_entity(final(self).entities(), id),
    {
        let id = self.next_id;
        let entity = Entity {
            id,
            position: transform.position,
            rotation: transform.rotation,
            scale: transform.scale,
            mesh,
            custom_shader: None,
            custom_texture: None,
            point_light,
            selected: false,
            stencil_id: None,
        };
        self.entities.push(entity);
        self.next_id = id + 1;
        proof {
            let post = self.entities();
            let pre = old(self).entities();
            assert(post.subrange(0, pre.len() as int) =~= pre);
            assert(post[post.len() - 1].id == id);
            assert(has_entity(post, id));
        }
        id
    }

    /// Look up an entity by identifier.
    pub fn get(&self, id: u64) -> (r: Option<&Entity>)
        requires
            self.wf(),
        ensures
            r is Some <==> has_entity(self.entities(), id),
            (r matches Some(e) ==> {
                &&& e.id == id
                &&& *e == self.entities()[entity_index(self.entities(), id)]
            }),
    {
        let n = self.entities.len();
        let mut k: usize = 0;
        while k < n
            invariant
                self.wf(),
                n == self.entities().len(),
                k <= n,
                forall|j: int| 0 <= j < k ==> (#[trigger] self.entities()[j]).id != id,
            decreases n - k,
        {
            if self.entities[k].id == id {
                proof {
                    assert(has_entity(self.entities(), id));
                    let i = entity_index(self.entities(), id);
                    assert(0 <= i < self.entities().len() && self.entities()[i].id == id);
                    assert(i == k);
                }
                return Some(&self.entities[k]);
            }
            k += 1;
        }
        proof {
            assert(!has_entity(self.entities(), id)) by {
                assert(forall|j: int|
                    0 <= j < self.entities().len() ==> (#[trigger] self.entities()[j]).id
                        != id);
            }
        }
        None
    }

    /// Remove the entity with identifier `id`, if it exists.
    ///
    /// The entity's GPU resources must not silently disappear with it: the
    /// handle of its compiled shader override (if any) is returned so the
    /// backend can delete the program. Mesh vertex arrays are owned by the
    /// model registry, not the entity, and are not touched.
    pub fn despawn(&mut self, id: u64) -> (r: Option<DespawnedResources>)
        requires
            old(self).wf(),
        ensures
            final(self).wf(),
            final(self).spec_next_id() == old(self).spec_next_id(),
            r is Some <==> has_entity(old(self).entities(), id),
            !has_entity(old(self).entities(), id) ==> final(self).entities() == old(
                self,
            ).entities(),
            has_entity(old(self).entities(), id) ==> ({
                let i = entity_index(old(self).entities(), id);
                &&& final(self).entities() == old(self).entities().remove(i)
                &&& (r matches Some(d) && d.program == old(self).entities()[i].compiled_program())
            }),
    {
        let n = self.entities.len();
        let mut k: usize = 0;
        while k < n
            invariant
                *self == *old(self),
                self.wf(),
                n == self.entities().len(),
                k <= n,
                forall|j: int| 0 <= j < k ==> (#[trigger] self.entities()[j]).id != id,
            decreases n - k,
        {
            if self.entities[k].id == id {
                proof {
                    assert(has_entity(self.entities(), id));
                    let i = entity_index(self.entities(), id);
                    assert(0 <= i < self.entities().len() && self.entities()[i].id == id);
                    assert(i == k);
                }
                let entity = self.entities.remove(k);
                let program = match entity.custom_shader {
                    Some(cs) => match cs.compiled {
                        Some(mut s) => Some(s.destroy()),
                        None => None,
                    },
                    None => None,
                };
                proof {
                    let pre = old(self).entities();
                    let post = self.entities();
                    pre.remove_ensures(k as int);
                    assert(post == pre.remove(k as int));
                    assert forall|a: int| 0 <= a < post.len() implies (#[trigger] post[a]).wf()
                        && post[a].id < self.spec_next_id() by {
                        if a < k {
                            assert(post[a] == pre[a]);
                        } else {
                            assert(post[a] == pre[a + 1]);
                        }
                    }
                    assert forall|a: int, b: int| 0 <= a < b < post.len() implies post[a].id
                        != post[b].id by {
                        if b < k {
                        } else if a < k {
                            assert(post[a] == pre[a] && post[b] == pre[b + 1]);
                        } else {
                            assert(post[a] == pre[a + 1] && post[b] == pre[b + 1]);
                        }
                    }
                }
                return Some(DespawnedResources { program });
            }
            k += 1;
        }
        proof {
            assert(!has_entity(self.entities(), id)) by {
                assert(forall|j: int|
                    0 <= j < self.entities().len() ==> (#[trigger] self.entities()[j]).id != id);
            }
        }
        None
    }

    /// Index of the entity with identifier `id`, if it exists.
    fn find_index(&self, id: u64) -> (r: Option<usize>)
        requires
            self.wf(),
        ensures
            r is Some <==> has_entity(self.entities(), id),
            (r matches Some(k) ==> {
                &&& k < self.entities().len()
                &&& self.entities()[k as int].id == id
                &&& k as int == entity_index(self.entities(), id)
            }),
    {
        let n = self.entities.len();
        let mut k: usize = 0;
        while k < n
            invariant
                self.wf(),
                n == self.entities().len(),
                k <= n,
                forall|j: int| 0 <= j < k ==> (#[trigger] self.entities()[j]).id != id,
            decreases n - k,
        {
            if self.entities[k].id == id {
                proof {
                    assert(has_entity(self.entities(), id));
                    let i = entity_index(self.entities(), id);
                    assert(0 <= i < self.entities().len() && self.entities()[i].id == id);
                    assert(i == k);
                }
                return Some(k);
            }
            k += 1;
        }
        proof {
            assert(!has_entity(self.entities(), id)) by {
                assert(forall|j: int|
                    0 <= j < self.entities().len() ==> (#[trigger] self.entities()[j]).id != id);
            }
        }
        None
    }

    /// Seed the entity with a fresh shader override (default sources,
    /// nothing compiled) if it exists and has none; otherwise change nothing.
    pub fn add_custom_shader(&mut self, id: u64) -> (added: bool)
        requires
            old(self).wf(),
        ensures
            final(self).wf(),
            final(self).spec_next_id() == old(self).spec_next_id(),
            ({
                let pre = old(self).entities();
                let post = final(self).entities();
                let i = entity_index(pre, id);
                if has_entity(pre, id) && pre[i].custom_shader is None {
                    &&& added
                    &&& only_index_changed(pre, post, i)
                    &&& (post[i].custom_shader matches Some(cs) && is_fresh_override(cs))
                    &&& post[i] == (Entity { custom_shader: post[i].custom_shader, ..pre[i] })
                } else {
                    &&& !added
                    &&& post == pre
                }
            }),
    {
        let k = match self.find_index(id) {
            Some(k) => k,
            None => {
                return false;
            },
        };
        if self.entities[k].custom_shader.is_some() {
            return false;
        }
        let e = &mut self.entities[k];
        e.custom_shader = Some(CustomShader::new());
        proof {
            lemma_entities_wf_update(
                old(self).entities(),
                self.entities(),
                self.spec_next_id(),
                k as int,
            );
        }
        true
    }

    /// Install the result of a rebuild attempt into the entity's shader
    /// override, as [`CustomShader::install_build_result`] does.
    ///
    /// When the entity or its override is gone, nothing changes and a fresh
    /// program handle carried by an `Ok` result is handed back as unused so
    /// the backend can delete it: no handle is leaked.
    pub fn install_build_result(&mut self, id: u64, result: Result<u32, ShaderError>) -> (r:
        InstallOutcome)
        requires
            old(self).wf(),
        ensures
            final(self).wf(),
            final(self).spec_next_id() == old(self).spec_next_id(),
            ({
                let pre = old(self).entities();
                let post = final(self).entities();
                let i = entity_index(pre, id);
                if has_entity(pre, id) && pre[i].custom_shader is Some {
                    &&& only_index_changed(pre, post, i)
                    &&& post[i] == (Entity { custom_shader: post[i].custom_shader, ..pre[i] })
                    &&& (r matches InstallOutcome::Installed { replaced } && (
                    post[i].custom_shader matches Some(cs_post) && (
                    pre[i].custom_shader matches Some(cs_pre)
                        && crate::components::build_result_installed(
                        cs_pre,
                        cs_post,
                        result,
                        replaced,
                    ))))
                } else {
                    &&& post == pre
                    &&& (r matches InstallOutcome::NoTarget { unused } && unused == (
                    match result {
                        Ok(p) => Some(p),
                        Err(_) => None::<u32>,
                    }))
                }
            }),
    {
        let k = match self.find_index(id) {
            Some(k) => k,
            None => {
                let unused = match result {
                    Ok(p) => Some(p),
                    Err(_) => None,
                };
                return InstallOutcome::NoTarget { unused };
            },
        };
        let e = &mut self.entities[k];
        match &mut e.custom_shader {
            Some(cs) => {
                let replaced = cs.install_build_result(result);
                proof {
                    lemma_entities_wf_update(
                        old(self).entities(),
                        self.entities(),
                        self.spec_next_id(),
                        k as int,
                    );
                }
                InstallOutcome::Installed { replaced }
            },
            None => {
                let unused = match result {
                    Ok(p) => Some(p),
                    Err(_) => None,
                };
                InstallOutcome::NoTarget { unused }
            },
        }
    }

    /// Drop the entity's shader override, destroying its compiled program;
    /// the handle to delete (if one was compiled) is returned.
    pub fn remove_custom_shader(&mut self, id: u64) -> (removed: Option<u32>)
        requires
            old(self).wf(),
        ensures
            final(self).wf(),
            final(self).spec_next_id() == old(self).spec_next_id(),
            ({
                let pre = old(self).entities();
                let post = final(self).entities();
                let i = entity_index(pre, id);
                if has_entity(pre, id) && pre[i].custom_shader is Some {
                    &&& only_index_changed(pre, post, i)
                    &&& post[i] == (Entity { custom_shader: None, ..pre[i] })
                    &&& removed == pre[i].compiled_program()
                } else {
                    &&& post == pre
                    &&& removed is None
                }
            }),
    {
        let k = match self.find_index(id) {
            Some(k) => k,
            None => {
                return None;
            },
        };
        let e = &mut self.entities[k];
        let removed = match e.custom_shader.take() {
            Some(cs) => match cs.compiled {
                Some(mut s) => Some(s.destroy()),
                None => None,
            },
            None => {
                return None;
            },
        };
        proof {
            lemma_entities_wf_update(
                old(self).entities(),
                self.entities(),
                self.spec_next_id(),
                k as int,
            );
        }
        removed
    }

    /// Replace the entity's transform. The new scale must keep every axis
    /// non-zero, as the scene invariant demands.
    pub fn set_transform(&mut self, id: u64, transform: TransformBundle) -> (updated: bool)
        requires
            old(self).wf(),
            transform.is_valid(),
        ensures
            final(self).wf(),
            final(self).spec_next_id() == old(self).spec_next_id(),
            updated <==> has_entity(old(self).entities(), id),
            ({
                let pre = old(self).entities();
                let post = final(self).entities();
                let i = entity_index(pre, id);
                if has_entity(pre, id) {
                    &&& only_index_changed(pre, post, i)
                    &&& post[i] == (Entity {
                        position: transform.position,
                        rotation: transform.rotation,
                        scale: transform.scale,
                        ..pre[i]
                    })
                } else {
                    post == pre
                }
            }),
    {
        let k = match self.find_index(id) {
            Some(k) => k,
            None => {
                return false;
            },
        };
        let e = &mut self.entities[k];
        e.position = transform.position;
        e.rotation = transform.rotation;
        e.scale = transform.scale;
        proof {
            lemma_entities_wf_update(
                old(self).entities(),
                self.entities(),
                self.spec_next_id(),
                k as int,
            );
        }
        true
    }

    /// Replace the entity's mesh.
    pub fn set_mesh(&mut self, id: u64, mesh: Mesh) -> (updated: bool)
        requires
            old(self).wf(),
        ensures
            final(self).wf(),
            final(self).spec_next_id() == old(self).spec_next_id(),
            updated <==> has_entity(old(self).entities(), id),
            ({
                let pre = old(self).entities();
                let post = final(self).entities();
                let i = entity_index(pre, id);
                if has_entity(pre, id) {
                    &&& only_index_changed(pre, post, i)
                    &&& post[i] == (Entity { mesh: Some(mesh), ..pre[i] })
                } else {
                    post == pre
                }
            }),
    {
        let k = match self.find_index(id) {
            Some(k) => k,
            None => {
                return false;
            },
        };
        let e = &mut self.entities[k];
        e.mesh = Some(mesh);
        proof {
            lemma_entities_wf_update(
                old(self).entities(),
                self.entities(),
                self.spec_next_id(),
                k as int,
            );
        }
        true
    }

    /// Replace the entity's texture overrides.
    pub fn set_custom_texture(&mut self, id: u64, texture: CustomTexture) -> (updated: bool)
        requires
            old(self).wf(),
        ensures
            final(self).wf(),
            final(self).spec_next_id() == old(self).spec_next_id(),
            updated <==> has_entity(old(self).entities(), id),
            ({
                let pre = old(self).entities();
                let post = final(self).entities();
                let i = entity_index(pre, id);
                if has_entity(pre, id) {
                    &&& only_index_changed(pre, post, i)
                    &&& post[i] == (Entity { custom_texture: Some(texture), ..pre[i] })
                } else {
                    post == pre
                }
            }),
    {
        let k = match self.find_index(id) {
            Some(k) => k,
            None => {
                return false;
            },
        };
        let e = &mut self.entities[k];
        e.custom_texture = Some(texture);
        proof {
            lemma_entities_wf_update(
                old(self).entities(),
                self.entities(),
                self.spec_next_id(),
                k as int,
            );
        }
        true
    }

    /// Add, replace or remove the entity's point light.
    pub fn set_point_light(&mut self, id: u64, light: Option<PointLight>) -> (updated: bool)
        requires
            old(self).wf(),
        ensures
            final(self).wf(),
            final(self).spec_next_id() == old(self).spec_next_id(),
            updated <==> has_entity(old(self).entities(), id),
            ({
                let pre = old(self).entities();
                let post = final(self).entities();
                let i = entity_index(pre, id);
                if has_entity(pre, id) {
                    &&& only_index_changed(pre, post, i)
                    &&& post[i] == (Entity { point_light: light, ..pre[i] })
                } else {
                    post == pre
                }
            }),
    {
        let k = match self.find_index(id) {
            Some(k) => k,
            None => {
                return false;
            },
        };
        let e = &mut self.entities[k];
        e.point_light = light;
        proof {
            lemma_entities_wf_update(
                old(self).entities(),
                self.entities(),
                self.spec_next_id(),
                k as int,
            );
        }
        true
    }

    /// Overwrite one stage's source text in the entity's shader override, as
    /// the live editor does. The compiled program and diagnostic are
    /// untouched: sources and program may diverge until the next rebuild.
    pub fn set_shader_source(&mut self, id: u64, stage: ShaderType, source: String) -> (updated:
        bool)
        requires
            old(self).wf(),
        ensures
            final(self).wf(),
            final(self).spec_next_id() == old(self).spec_next_id(),
            ({
                let pre = old(self).entities();
                let post = final(self).entities();
                let i = entity_index(pre, id);
                if has_entity(pre, id) && pre[i].custom_shader is Some {
                    &&& updated
                    &&& only_index_changed(pre, post, i)
                    &&& post[i] == (Entity { custom_shader: post[i].custom_shader, ..pre[i] })
                    &&& (post[i].custom_shader matches Some(cs_post) && (
                    pre[i].custom_shader matches Some(cs_pre) && cs_post == (match stage {
                        ShaderType::Vertex => CustomShader { vert_source: source, ..cs_pre },
                        ShaderType::Fragment => CustomShader { frag_source: source, ..cs_pre },
                    })))
                } else {
                    &&& !updated
                    &&& post == pre
                }
            }),
    {
        let k = match self.find_index(id) {
            Some(k) => k,
            None => {
                return false;
            },
        };
        let e = &mut self.entities[k];
        match &mut e.custom_shader {
            Some(cs) => {
                match stage {
                    ShaderType::Vertex => {
                        cs.vert_source = source;
                    },
                    ShaderType::Fragment => {
                        cs.frag_source = source;
                    },
                }
                proof {
                    lemma_entities_wf_update(
                        old(self).entities(),
                        self.entities(),
                        self.spec_next_id(),
                        k as int,
                    );
                }
                true
            },
            None => false,
        }
    }

    /// The identifier of the first selected entity, if any (under the
    /// single-selection invariant there is at most one).
    pub fn selected_entity(&self) -> (r: Option<u64>)
        ensures
            r is Some <==> (exists|i: int|
                0 <= i < self.entities().len() && (#[trigger] self.entities()[i]).selected),
            (r matches Some(id) ==> exists|i: int|
                0 <= i < self.entities().len() && (#[trigger] self.entities()[i]).selected
                    && self.entities()[i].id == id),
    {
        let n = self.entities.len();
        let mut k: usize = 0;
        while k < n
            invariant
                n == self.entities().len(),
                k <= n,
                forall|j: int| 0 <= j < k ==> !(#[trigger] self.entities()[j]).selected,
            decreases n - k,
        {
            if self.entities[k].selected {
                return Some(self.entities[k].id);
            }
            k += 1;
        }
        None
    }

    /// Assign this frame's pick identifiers: mesh entities get `1, 2, 3, …`
    /// in iteration order (written into their `stencil_id`), entities
    /// without a mesh get none. Returns the number of mesh entities.
    ///
    /// Identifiers are not stable across frames: the next call reassigns
    /// them all.
    pub fn assign_stencil_ids(&mut self) -> (n: usize)
        requires
            old(self).wf(),
        ensures
            final(self).wf(),
            final(self).spec_next_id() == old(self).spec_next_id(),
            stencils_assigned(old(self).entities(), final(self).entities()),
            n as int == mesh_count(final(self).entities()),
    {
        let len = self.entities.len();
        let mut n: usize = 0;
        let mut k: usize = 0;
        while k < len
            invariant
                old(self).wf(),
                len == self.entities().len(),
                old(self).entities().len() == len,
                self.spec_next_id() == old(self).spec_next_id(),
                k <= len,
                n <= k,
                n as int == mesh_count(self.entities().take(k as int)),
                forall|j: int| k <= j < len ==> self.entities()[j] == old(self).entities()[j],
                forall|j: int|
                    0 <= j < k ==> same_identity(
                        #[trigger] old(self).entities()[j],
                        self.entities()[j],
                    ) && self.entities()[j].selected == old(self).entities()[j].selected,
                forall|j: int|
                    0 <= j < k ==> (match (#[trigger] self.entities()[j]).stencil_id {
                        Some(sid) => self.entities()[j].mesh is Some && sid.0 as int == mesh_count(
                            self.entities().take(j),
                        ) + 1,
                        None => self.entities()[j].mesh is None,
                    }),
            decreases len - k,
        {
            let ghost s0 = self.entities();
            let has_mesh = self.entities[k].mesh.is_some();
            if has_mesh {
                n += 1;
                let e = &mut self.entities[k];
                e.stencil_id = Some(StencilId(n));
            } else {
                let e = &mut self.entities[k];
                e.stencil_id = None;
            }
            proof {
                let s1 = self.entities();
                assert forall|j: int| 0 <= j <= k implies s1.take(j) =~= s0.take(j) by {}
                lemma_mesh_count_step(s1, k as int);
                assert(s1.take(k as int) =~= s0.take(k as int));
                assert(s1[k as int].mesh == s0[k as int].mesh);
                assert(mesh_count(s1.take(k as int + 1)) == mesh_count(s0.take(k as int)) + (
                if s0[k as int].mesh is Some {
                    1int
                } else {
                    0int
                }));
            }
            k += 1;
        }
        proof {
            let pre = old(self).entities();
            let post = self.entities();
            assert(post.take(len as int) =~= post);
            assert forall|j: int| 0 <= j < post.len() implies (#[trigger] post[j]).wf()
                && post[j].id < self.spec_next_id() by {
                assert(same_identity(pre[j], post[j]));
                assert(pre[j].wf());
            }
            assert forall|a: int, b: int| 0 <= a < b < post.len() implies post[a].id
                != post[b].id by {
                assert(same_identity(pre[a], post[a]));
                assert(same_identity(pre[b], post[b]));
            }
        }
        n
    }

    /// Number of entities carrying a point light, as the deferred lighting
    /// pass sizes its uniform array per frame.
    pub fn count_point_lights(&self) -> (n: usize)
        ensures
            n as int == light_count(self.entities()),
    {
        let len = self.entities.len();
        let mut n: usize = 0;
        let mut k: usize = 0;
        while k < len
            invariant
                len == self.entities().len(),
                k <= len,
                n <= k,
                n as int == light_count(self.entities().take(k as int)),
            decreases len - k,
        {
            if self.entities[k].point_light.is_some() {
                n += 1;
            }
            proof {
                lemma_light_count_step(self.entities(), k as int);
            }
            k += 1;
        }
        proof {
            assert(self.entities().take(len as int) =~= self.entities());
        }
        n
    }

    /// The identifiers of all entities that carry a mesh, in iteration
    /// order (as the "despawn all" utility needs them).
    pub fn mesh_entity_ids(&self) -> (ids: Vec<u64>)
        ensures
            ids@.len() == mesh_count(self.entities()),
            forall|i: int|
                0 <= i < self.entities().len() && (#[trigger] self.entities()[i]).mesh is Some
                    ==> ids@[mesh_count(self.entities().take(i))] == self.entities()[i].id,
    {
        let len = self.entities.len();
        let mut ids: Vec<u64> = Vec::new();
        let mut k: usize = 0;
        while k < len
            invariant
                len == self.entities().len(),
                k <= len,
                ids@.len() == mesh_count(self.entities().take(k as int)),
                forall|i: int|
                    0 <= i < k && (#[trigger] self.entities()[i]).mesh is Some ==> ids@[mesh_count(
                        self.entities().take(i),
                    )] == self.entities()[i].id,
            decreases len - k,
        {
            let ghost s = self.entities();
            let ghost ids0 = ids@;
            proof {
                lemma_mesh_count_step(s, k as int);
            }
            let has = self.entities[k].mesh.is_some();
            if has {
                ids.push(self.entities[k].id);
            }
            proof {
                assert forall|i: int| 0 <= i <= k as int && (#[trigger] s[i]).mesh is Some
                    implies 0 <= mesh_count(s.take(i)) < ids@.len() && ids@[mesh_count(s.take(i))]
                    == s[i].id by {
                    lemma_mesh_count_monotonic(s, 0, i);
                    assert(s.take(0) =~= Seq::<Entity>::empty());
                    lemma_mesh_count_step(s, i);
                    if i < k as int {
                        lemma_mesh_count_monotonic(s, i + 1, k as int);
                        assert(0 <= mesh_count(s.take(i)) < ids0.len());
                        assert(ids0[mesh_count(s.take(i))] == s[i].id);
                        assert(ids@[mesh_count(s.take(i))] == ids0[mesh_count(s.take(i))]);
                    } else {
                        assert(ids@ == ids0.push(s[i].id));
                        assert(mesh_count(s.take(i)) == ids0.len());
                    }
                }
            }
            k += 1;
        }
        proof {
            assert(self.entities().take(len as int) =~= self.entities());
        }
        ids
    }

    /// Destroy every compiled shader override in the scene, as teardown
    /// does, and return exactly the program handles the backend must delete,
    /// in iteration order. Afterwards no entity holds a compiled program.
    pub fn destroy_all_shader_overrides(&mut self) -> (programs: Vec<u32>)
        requires
            old(self).wf(),
        ensures
            final(self).wf(),
            final(self).spec_next_id() == old(self).spec_next_id(),
            final(self).entities().len() == old(self).entities().len(),
            forall|i: int|
                0 <= i < final(self).entities().len() ==> (#[trigger] final(self).entities()[i]).compiled_program() is None,
            forall|i: int|
                0 <= i < old(self).entities().len() && (#[trigger] old(self).entities()[i]).compiled_program() is None
                    ==> final(self).entities()[i] == old(self).entities()[i],
            programs@ == compiled_programs_of(old(self).entities()),
    {
        let len = self.entities.len();
        let mut programs: Vec<u32> = Vec::new();
        let mut k: usize = 0;
        while k < len
            invariant
                old(self).wf(),
                len == self.entities().len(),
                old(self).entities().len() == len,
                self.spec_next_id() == old(self).spec_next_id(),
                k <= len,
                entities_wf(self.entities(), self.spec_next_id()),
                forall|j: int| k <= j < len ==> self.entities()[j] == old(self).entities()[j],
                forall|j: int|
                    0 <= j < k ==> (#[trigger] self.entities()[j]).compiled_program() is None,
                forall|j: int|
                    0 <= j < k && (#[trigger] old(self).entities()[j]).compiled_program() is None
                        ==> self.entities()[j] == old(self).entities()[j],
                programs@ == compiled_programs_of(old(self).entities().take(k as int)),
            decreases len - k,
        {
            let ghost s0 = self.entities();
            let ghost pre = old(self).entities();
            let e = &mut self.entities[k];
            match &mut e.custom_shader {
                Some(cs) => {
                    match cs.compiled.take() {
                        Some(mut s) => {
                            let p = s.destroy();
                            programs.push(p);
                        },
                        None => {},
                    }
                },
                None => {},
            }
            proof {
                lemma_entities_wf_update(s0, self.entities(), self.spec_next_id(), k as int);
                lemma_compiled_programs_step(pre, k as int);
                match s0[k as int].compiled_program() {
                    Some(p) => {
                        assert(programs@ =~= compiled_programs_of(pre.take(k as int + 1)));
                    },
                    None => {
                        assert(self.entities()[k as int] == s0[k as int]);
                        assert(programs@ =~= compiled_programs_of(pre.take(k as int + 1)));
                    },
                }
            }
            k += 1;
        }
        proof {
            assert(old(self).entities().take(len as int) =~= old(self).entities());
        }
        programs
    }

    /// Make `target` the only selected entity (or clear the selection when
    /// `target` is `None` or names no entity). Nothing else changes.
    pub fn select_only(&mut self, target: Option<u64>)
        requires
            old(self).wf(),
        ensures
            final(self).wf(),
            final(self).spec_next_id() == old(self).spec_next_id(),
            selection_applied(old(self).entities(), final(self).entities(), target),
    {
        let n = self.entities.len();
        let mut k: usize = 0;
        while k < n
            invariant
                n == self.entities().len(),
                k <= n,
                old(self).spec_next_id() == self.spec_next_id(),
                old(self).entities().len() == self.entities().len(),
                forall|j: int|
                    k <= j < n ==> self.entities()[j] == old(self).entities()[j],
                forall|j: int|
                    0 <= j < k ==> same_identity(
                        #[trigger] old(self).entities()[j],
                        self.entities()[j],
                    ) && self.entities()[j].stencil_id == old(self).entities()[j].stencil_id,
                forall|j: int|
                    0 <= j < k ==> ((#[trigger] self.entities()[j]).selected <==> (
                    target matches Some(t) && self.entities()[j].id == t)),
                old(self).wf(),
            decreases n - k,
        {
            let is_target = match target {
                Some(t) => self.entities[k].id == t,
                None => false,
            };
            let e = &mut self.entities[k];
            e.selected = is_target;
            k += 1;
        }
        proof {
            let pre = old(self).entities();
            let post = self.entities();
            assert forall|j: int| 0 <= j < post.len() implies (#[trigger] post[j]).wf()
                && post[j].id < self.spec_next_id() by {
                assert(same_identity(pre[j], post[j]));
                assert(pre[j].wf());
            }
            assert forall|a: int, b: int| 0 <= a < b < post.len() implies post[a].id
                != post[b].id by {
                assert(same_identity(pre[a], post[a]));
                assert(same_identity(pre[b], post[b]));
            }
        }
    }
}

/// A shader override exactly as [`CustomShader::new`] seeds it: default
/// sources, nothing compiled, no diagnostic.
pub open spec fn is_fresh_override(cs: CustomShader) -> bool {
    &&& cs.vert_source@ == crate::shader::default_vertex_source_spec()
    &&& cs.frag_source@ == crate::shader::default_fragment_source_spec()
    &&& cs.compiled is None
    &&& cs.last_error is None
}

/// What became of a shader build handed to [`Scene::install_build_result`].
#[derive(Debug)]
pub enum InstallOutcome {
    /// The entity's override took the result; `replaced` is the handle of
    /// the program that was swapped out and must now be deleted, if any.
    Installed { replaced: Option<u32> },
    /// The entity or its override no longer exists; `unused` carries the
    /// freshly linked program handle (if the build succeeded), which must be
    /// deleted since nothing installed it.
    NoTarget { unused: Option<u32> },
}

/// `post` is `pre` with at most the entity at index `i` changed.
pub open spec fn only_index_changed(pre: Seq<Entity>, post: Seq<Entity>, i: int) -> bool {
    &&& post.len() == pre.len()
    &&& (forall|j: int| 0 <= j < pre.len() && j != i ==> post[j] == pre[j])
}

/// A targeted update that keeps the entity's identifier and component
/// well-formedness preserves the store invariant.
proof fn lemma_entities_wf_update(pre: Seq<Entity>, post: Seq<Entity>, next_id: u64, i: int)
    requires
        entities_wf(pre, next_id),
        only_index_changed(pre, post, i),
        0 <= i < pre.len() ==> post[i].id == pre[i].id && post[i].wf(),
    ensures
        entities_wf(post, next_id),
{
    assert forall|j: int| 0 <= j < post.len() implies (#[trigger] post[j]).wf() && post[j].id
        < next_id by {
        if j != i {
            assert(post[j] == pre[j]);
        }
    }
    assert forall|a: int, b: int| 0 <= a < b < post.len() implies post[a].id != post[b].id by {
        assert(post[a].id == pre[a].id && post[b].id == pre[b].id);
    }
}

/// GPU resources released by a despawn: the handle of the entity's compiled
/// shader override, if it had one.
#[derive(Debug)]
pub struct DespawnedResources {
    /// Program handle the backend must delete.
    pub program: Option<u32>,
}

/// Number of entities in `s` that carry a mesh.
pub open spec fn mesh_count(s: Seq<Entity>) -> int
    decreases s.len(),
{
    if s.len() == 0 {
        0
    } else {
        mesh_count(s.drop_last()) + (if s.last().mesh is Some {
            1int
        } else {
            0int
        })
    }
}

/// Number of entities in `s` that carry a point light.
pub open spec fn light_count(s: Seq<Entity>) -> int
    decreases s.len(),
{
    if s.len() == 0 {
        0
    } else {
        light_count(s.drop_last()) + (if s.last().point_light is Some {
            1int
        } else {
            0int
        })
    }
}

/// The program handles of all compiled shader overrides in `s`, in
/// iteration order.
pub open spec fn compiled_programs_of(s: Seq<Entity>) -> Seq<u32>
    decreases s.len(),
{
    if s.len() == 0 {
        Seq::<u32>::empty()
    } else {
        compiled_programs_of(s.drop_last()) + (match s.last().compiled_program() {
            Some(p) => seq![p],
            None => Seq::<u32>::empty(),
        })
    }
}

/// Extending a prefix by one entity appends exactly that entity's compiled
/// program, if it has one.
pub proof fn lemma_compiled_programs_step(s: Seq<Entity>, i: int)
    requires
        0 <= i < s.len(),
    ensures
        compiled_programs_of(s.take(i + 1)) == compiled_programs_of(s.take(i)) + (match s[i].compiled_program() {
            Some(p) => seq![p],
            None => Seq::<u32>::empty(),
        }),
{
    assert(s.take(i + 1).drop_last() =~= s.take(i));
    assert(s.take(i + 1).last() == s[i]);
}

/// Extending a prefix by one entity raises the mesh count by one exactly
/// when that entity carries a mesh.
pub proof fn lemma_mesh_count_step(s: Seq<Entity>, i: int)
    requires
        0 <= i < s.len(),
    ensures
        mesh_count(s.take(i + 1)) == mesh_count(s.take(i)) + (if s[i].mesh is Some {
            1int
        } else {
            0int
        }),
{
    assert(s.take(i + 1).drop_last() =~= s.take(i));
    assert(s.take(i + 1).last() == s[i]);
}

/// The same step property for point lights.
pub proof fn lemma_light_count_step(s: Seq<Entity>, i: int)
    requires
        0 <= i < s.len(),
    ensures
        light_count(s.take(i + 1)) == light_count(s.take(i)) + (if s[i].point_light is Some {
            1int
        } else {
            0int
        }),
{
    assert(s.take(i + 1).drop_last() =~= s.take(i));
    assert(s.take(i + 1).last() == s[i]);
}

/// Mesh counts of prefixes grow monotonically and stay within the prefix
/// length.
pub proof fn lemma_mesh_count_monotonic(s: Seq<Entity>, i: int, j: int)
    requires
        0 <= i <= j <= s.len(),
    ensures
        mesh_count(s.take(i)) <= mesh_count(s.take(j)),
        mesh_count(s.take(j)) - mesh_count(s.take(i)) <= j - i,
    decreases j - i,
{
    if i < j {
        lemma_mesh_count_monotonic(s, i, j - 1);
        lemma_mesh_count_step(s, j - 1);
    }
}

/// The mesh count of the whole sequence is the count of its full prefix.
pub proof fn lemma_mesh_count_full(s: Seq<Entity>)
    ensures
        mesh_count(s.take(s.len() as int)) == mesh_count(s),
        0 <= mesh_count(s) <= s.len(),
{
    assert(s.take(s.len() as int) =~= s);
    lemma_mesh_count_monotonic(s, 0, s.len() as int);
    assert(s.take(0) =~= Seq::<Entity>::empty());
}

/// Every entity's pick identifier is freshly assigned for this frame: a mesh
/// entity at index `i` holds one plus the number of mesh entities before it,
/// and entities without a mesh hold none.
pub open spec fn fresh_stencils(s: Seq<Entity>) -> bool {
    forall|i: int|
        0 <= i < s.len() ==> (match (#[trigger] s[i]).stencil_id {
            Some(sid) => s[i].mesh is Some && sid.0 as int == mesh_count(s.take(i)) + 1,
            None => s[i].mesh is None,
        })
}

/// `post` is `pre` after a geometry pass: identifiers, components and the
/// selection are untouched, and pick identifiers are freshly assigned in
/// iteration order.
pub open spec fn stencils_assigned(pre: Seq<Entity>, post: Seq<Entity>) -> bool {
    &&& post.len() == pre.len()
    &&& (forall|i: int|
        0 <= i < pre.len() ==> same_identity(#[trigger] pre[i], post[i]) && post[i].selected
            == pre[i].selected)
    &&& fresh_stencils(post)
}

/// After an assignment pass, every mesh entity's pick identifier lies in
/// `[1, N]` (`N` = number of mesh entities this frame) and no two mesh
/// entities share one.
pub proof fn lemma_stencil_ids_valid(s: Seq<Entity>)
    requires
        fresh_stencils(s),
    ensures
        forall|i: int|
            0 <= i < s.len() && (#[trigger] s[i]).mesh is Some ==> (s[i].stencil_id matches Some(
                sid,
            ) && 1 <= sid.0 as int <= mesh_count(s)),
        forall|i: int, j: int|
            0 <= i < j < s.len() && s[i].mesh is Some && s[j].mesh is Some ==> s[i].stencil_id
                != s[j].stencil_id,
{
    lemma_mesh_count_full(s);
    assert forall|i: int| 0 <= i < s.len() && (#[trigger] s[i]).mesh is Some implies (
    s[i].stencil_id matches Some(sid) && 1 <= sid.0 as int <= mesh_count(s)) by {
        lemma_mesh_count_monotonic(s, 0, i);
        assert(s.take(0) =~= Seq::<Entity>::empty());
        lemma_mesh_count_step(s, i);
        lemma_mesh_count_monotonic(s, i + 1, s.len() as int);
    }
    assert forall|i: int, j: int|
        0 <= i < j < s.len() && s[i].mesh is Some && s[j].mesh is Some implies s[i].stencil_id
        != s[j].stencil_id by {
        lemma_mesh_count_step(s, i);
        lemma_mesh_count_monotonic(s, i + 1, j);
    }
}

/// `post` is `pre` with the selection replaced: exactly the entity named by
/// `target` (if present) is selected, and identifiers, components and pick
/// identifiers are untouched.
pub open spec fn selection_applied(pre: Seq<Entity>, post: Seq<Entity>, target: Option<u64>) -> bool {
    &&& post.len() == pre.len()
    &&& (forall|i: int|
        0 <= i < pre.len() ==> same_identity(#[trigger] pre[i], post[i]) && post[i].stencil_id
            == pre[i].stencil_id)
    &&& (forall|i: int|
        0 <= i < post.len() ==> ((#[trigger] post[i]).selected <==> (target matches Some(t)
            && post[i].id == t)))
}

/// No two entities are selected at once.
pub open spec fn at_most_one_selected(s: Seq<Entity>) -> bool {
    forall|i: int, j: int| 0 <= i < j < s.len() ==> !(s[i].selected && s[j].selected)
}

/// Selecting an entity keeps the single-selection invariant for every scene
/// with unique identifiers, whatever was selected before: after replacing the
/// selection (entity B after entity A, say), only the new target is selected.
pub proof fn lemma_single_selection(
    pre: Seq<Entity>,
    post: Seq<Entity>,
    target: Option<u64>,
)
    requires
        forall|i: int, j: int| 0 <= i < j < pre.len() ==> pre[i].id != pre[j].id,
        selection_applied(pre, post, target),
    ensures
        at_most_one_selected(post),
        forall|i: int|
            0 <= i < post.len() && (#[trigger] post[i]).selected ==> target == Some(post[i].id),
{
    assert forall|i: int, j: int| 0 <= i < j < post.len() implies !(post[i].selected
        && post[j].selected) by {
        if post[i].selected && post[j].selected {
            assert(same_identity(pre[i], post[i]));
            assert(same_identity(pre[j], post[j]));
            assert(pre[i].id != pre[j].id);
        }
    }
}

} // verus!
