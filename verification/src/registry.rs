//! Registries of loaded assets, keyed by name.
//!
//! The application reads model and texture files from disk and decodes them;
//! the registries own what came out — vertex arrays for models, texture
//! handles for textures — under unique names. Inserting under an existing
//! name replaces the entry and hands the displaced resource back, so nothing
//! is silently dropped.

use vstd::prelude::*;

use crate::vao::VertexArrayObject;

verus! {

/// Whether some entry in `s` is named `name`.
pub open spec fn has_name<T>(s: Seq<(String, T)>, name: Seq<char>) -> bool {
    exists|i: int| 0 <= i < s.len() && s[i].0@ == name
}

/// The index of the entry named `name` (meaningful when `has_name` holds and
/// names are unique).
pub open spec fn name_index<T>(s: Seq<(String, T)>, name: Seq<char>) -> int {
    choose|i: int| 0 <= i < s.len() && s[i].0@ == name
}

/// No two entries share a name.
pub open spec fn names_unique<T>(s: Seq<(String, T)>) -> bool {
    forall|i: int, j: int| 0 <= i < j < s.len() ==> s[i].0@ != s[j].0@
}

/// Loaded models: vertex arrays under unique names.
pub struct ModelLoader {
    models: Vec<(String, VertexArrayObject)>,
}

impl ModelLoader {
    /// The entries, in insertion order.
    pub closed spec fn entries(&self) -> Seq<(String, VertexArrayObject)> {
        self.models@
    }

    /// Names are unique and every vertex array is alive.
    pub open spec fn wf(&self) -> bool {
        &&& names_unique(self.entries())
        &&& (forall|i: int|
            0 <= i < self.entries().len() ==> !(#[trigger] self.entries()[i]).1.is_destroyed())
    }

    /// An empty registry.
    pub fn new() -> (m: Self)
        ensures
            m.wf(),
            m.entries().len() == 0,
    {
        Self { models: Vec::new() }
    }

    /// Number of models.
    pub fn len(&self) -> (n: usize)
        ensures
            n == self.entries().len(),
    {
        self.models.len()
    }

    /// Register a model under `name`. An entry already under that name is
    /// replaced, and its vertex array is returned so the backend can destroy
    /// it (or keep it; ownership passes to the caller).
    pub fn insert(&mut self, name: String, vao: VertexArrayObject) -> (displaced: Option<
        VertexArrayObject,
    >)
        requires
            old(self).wf(),
            !vao.is_destroyed(),
        ensures
            final(self).wf(),
            ({
                let pre = old(self).entries();
                let post = final(self).entries();
                if has_name(pre, name@) {
                    let i = name_index(pre, name@);
                    &&& post == pre.update(i, (name, vao))
                    &&& (displaced matches Some(v) && v == pre[i].1)
                } else {
                    &&& post == pre.push((name, vao))
                    &&& displaced is None
                }
            }),
    {
        let n = self.models.len();
        let mut k: usize = 0;
        while k < n
            invariant
                *self == *old(self),
                self.wf(),
                !vao.is_destroyed(),
                n == self.entries().len(),
                k <= n,
                forall|j: int| 0 <= j < k ==> (#[trigger] self.entries()[j]).0@ != name@,
            decreases n - k,
        {
            if self.models[k].0 == name {
                proof {
                    assert(has_name(self.entries(), name@));
                    let i = name_index(self.entries(), name@);
                    assert(0 <= i < self.entries().len() && self.entries()[i].0@ == name@);
                    assert(i == k);
                }
                let mut pair = (name, vao);
                core::mem::swap(&mut self.models[k], &mut pair);
                proof {
                    let pre = old(self).entries();
                    let post = self.entries();
                    assert forall|a: int, b: int| 0 <= a < b < post.len() implies post[a].0@
                        != post[b].0@ by {
                        assert(post[a].0@ == pre[a].0@ || a == k);
                        assert(post[b].0@ == pre[b].0@ || b == k);
                    }
                    assert forall|a: int| 0 <= a < post.len() implies !(#[trigger] post[a]).1.is_destroyed() by {
                        if a != k {
                            assert(post[a] == pre[a]);
                        }
                    }
                }
                return Some(pair.1);
            }
            k += 1;
        }
        proof {
            assert(!has_name(self.entries(), name@)) by {
                assert(forall|j: int|
                    0 <= j < self.entries().len() ==> (#[trigger] self.entries()[j]).0@ != name@);
            }
        }
        self.models.push((name, vao));
        proof {
            let pre = old(self).entries();
            let post = self.entries();
            assert forall|a: int, b: int| 0 <= a < b < post.len() implies post[a].0@
                != post[b].0@ by {
                if b < post.len() - 1 {
                    assert(post[a] == pre[a] && post[b] == pre[b]);
                } else {
                    assert(post[a] == pre[a]);
                }
            }
        }
        None
    }

    /// Look up a model by name.
    pub fn get(&self, name: &String) -> (r: Option<&VertexArrayObject>)
        requires
            self.wf(),
        ensures
            r is Some <==> has_name(self.entries(), name@),
            (r matches Some(v) ==> {
                &&& *v == self.entries()[name_index(self.entries(), name@)].1
                &&& !v.is_destroyed()
            }),
    {
        let n = self.models.len();
        let mut k: usize = 0;
        while k < n
            invariant
                self.wf(),
                n == self.entries().len(),
                k <= n,
                forall|j: int| 0 <= j < k ==> (#[trigger] self.entries()[j]).0@ != name@,
            decreases n - k,
        {
            if self.models[k].0 == *name {
                proof {
                    assert(has_name(self.entries(), name@));
                    let i = name_index(self.entries(), name@);
                    assert(0 <= i < self.entries().len() && self.entries()[i].0@ == name@);
                    assert(i == k);
                }
                return Some(&self.models[k].1);
            }
            k += 1;
        }
        proof {
            assert(!has_name(self.entries(), name@)) by {
                assert(forall|j: int|
                    0 <= j < self.entries().len() ==> (#[trigger] self.entries()[j]).0@ != name@);
            }
        }
        None
    }

    /// The registered names, in insertion order.
    pub fn keys(&self) -> (names: Vec<String>)
        ensures
            names@.len() == self.entries().len(),
            forall|i: int|
                0 <= i < names@.len() ==> (#[trigger] names@[i])@ == self.entries()[i].0@,
    {
        let n = self.models.len();
        let mut names: Vec<String> = Vec::new();
        let mut k: usize = 0;
        while k < n
            invariant
                n == self.entries().len(),
                k <= n,
                names@.len() == k,
                forall|i: int|
                    0 <= i < k ==> (#[trigger] names@[i])@ == self.entries()[i].0@,
            decreases n - k,
        {
            names.push(self.models[k].0.clone());
            k += 1;
        }
        names
    }

    /// Destroy every registered vertex array, as teardown does, and return
    /// all the handles the backend must delete: for each model in order, its
    /// buffers and then its vertex array.
    pub fn destroy_all(&mut self) -> (handles: Vec<u32>)
        requires
            old(self).wf(),
        ensures
            final(self).entries().len() == old(self).entries().len(),
            forall|i: int|
                0 <= i < final(self).entries().len() ==> (#[trigger] final(self).entries()[i]).1.is_destroyed(),
            handles@ == vao_handles_of(old(self).entries()),
    {
        let n = self.models.len();
        let mut handles: Vec<u32> = Vec::new();
        let mut k: usize = 0;
        while k < n
            invariant
                n == self.entries().len(),
                old(self).entries().len() == n,
                k <= n,
                forall|j: int| k <= j < n ==> self.entries()[j] == old(self).entries()[j],
                forall|j: int| 0 <= j < k ==> (#[trigger] self.entries()[j]).1.is_destroyed(),
                forall|j: int|
                    k <= j < n ==> !(#[trigger] self.entries()[j]).1.is_destroyed(),
                handles@ == vao_handles_of(old(self).entries().take(k as int)),
            decreases n - k,
        {
            let ghost pre = old(self).entries();
            let e = &mut self.models[k];
            let mut got = e.1.destroy();
            handles.append(&mut got);
            proof {
                assert(pre.take(k as int + 1).drop_last() =~= pre.take(k as int));
                assert(pre.take(k as int + 1).last() == pre[k as int]);
                assert(handles@ =~= vao_handles_of(pre.take(k as int + 1)));
            }
            k += 1;
        }
        proof {
            assert(old(self).entries().take(n as int) =~= old(self).entries());
        }
        handles
    }
}

/// Every handle the models in `s` hold: for each entry in order, its buffers
/// followed by its vertex array.
pub open spec fn vao_handles_of(s: Seq<(String, VertexArrayObject)>) -> Seq<u32>
    decreases s.len(),
{
    if s.len() == 0 {
        Seq::<u32>::empty()
    } else {
        vao_handles_of(s.drop_last()) + s.last().1.spec_buffers().push(s.last().1.spec_vao_id())
    }
}

/// Loaded textures: GL texture handles under unique names.
pub struct TextureLoader {
    textures: Vec<(String, u32)>,
}

impl TextureLoader {
    /// The entries, in insertion order.
    pub closed spec fn entries(&self) -> Seq<(String, u32)> {
        self.textures@
    }

    /// Names are unique.
    pub open spec fn wf(&self) -> bool {
        names_unique(self.entries())
    }

    /// An empty registry.
    pub fn new() -> (t: Self)
        ensures
            t.wf(),
            t.entries().len() == 0,
    {
        Self { textures: Vec::new() }
    }

    /// Number of textures.
    pub fn len(&self) -> (n: usize)
        ensures
            n == self.entries().len(),
    {
        self.textures.len()
    }

    /// Register a texture under `name`. An entry already under that name is
    /// replaced and its handle returned, so the backend can delete it.
    pub fn insert(&mut self, name: String, texture: u32) -> (displaced: Option<u32>)
        requires
            old(self).wf(),
        ensures
            final(self).wf(),
            ({
                let pre = old(self).entries();
                let post = final(self).entries();
                if has_name(pre, name@) {
                    let i = name_index(pre, name@);
                    &&& post == pre.update(i, (name, texture))
                    &&& displaced == Some(pre[i].1)
                } else {
                    &&& post == pre.push((name, texture))
                    &&& displaced is None
                }
            }),
    {
        let n = self.textures.len();
        let mut k: usize = 0;
        while k < n
            invariant
                *self == *old(self),
                self.wf(),
                n == self.entries().len(),
                k <= n,
                forall|j: int| 0 <= j < k ==> (#[trigger] self.entries()[j]).0@ != name@,
            decreases n - k,
        {
            if self.textures[k].0 == name {
                proof {
                    assert(has_name(self.entries(), name@));
                    let i = name_index(self.entries(), name@);
                    assert(0 <= i < self.entries().len() && self.entries()[i].0@ == name@);
                    assert(i == k);
                }
                let mut pair = (name, texture);
                core::mem::swap(&mut self.textures[k], &mut pair);
                proof {
                    let pre = old(self).entries();
                    let post = self.entries();
                    assert forall|a: int, b: int| 0 <= a < b < post.len() implies post[a].0@
                        != post[b].0@ by {
                        assert(post[a].0@ == pre[a].0@ || a == k);
                        assert(post[b].0@ == pre[b].0@ || b == k);
                    }
                }
                return Some(pair.1);
            }
            k += 1;
        }
        proof {
            assert(!has_name(self.entries(), name@)) by {
                assert(forall|j: int|
                    0 <= j < self.entries().len() ==> (#[trigger] self.entries()[j]).0@ != name@);
            }
        }
        self.textures.push((name, texture));
        proof {
            let pre = old(self).entries();
            let post = self.entries();
            assert forall|a: int, b: int| 0 <= a < b < post.len() implies post[a].0@
                != post[b].0@ by {
                if b < post.len() - 1 {
                    assert(post[a] == pre[a] && post[b] == pre[b]);
                } else {
                    assert(post[a] == pre[a]);
                }
            }
        }
        None
    }

    /// Look up a texture handle by name.
    pub fn get(&self, name: &String) -> (r: Option<u32>)
        requires
            self.wf(),
        ensures
            r is Some <==> has_name(self.entries(), name@),
            (r matches Some(t) ==> t == self.entries()[name_index(self.entries(), name@)].1),
    {
        let n = self.textures.len();
        let mut k: usize = 0;
        while k < n
            invariant
                self.wf(),
                n == self.entries().len(),
                k <= n,
                forall|j: int| 0 <= j < k ==> (#[trigger] self.entries()[j]).0@ != name@,
            decreases n - k,
        {
            if self.textures[k].0 == *name {
                proof {
                    assert(has_name(self.entries(), name@));
                    let i = name_index(self.entries(), name@);
                    assert(0 <= i < self.entries().len() && self.entries()[i].0@ == name@);
                    assert(i == k);
                }
                return Some(self.textures[k].1);
            }
            k += 1;
        }
        proof {
            assert(!has_name(self.entries(), name@)) by {
                assert(forall|j: int|
                    0 <= j < self.entries().len() ==> (#[trigger] self.entries()[j]).0@ != name@);
            }
        }
        None
    }

    /// The registered names, in insertion order.
    pub fn keys(&self) -> (names: Vec<String>)
        ensures
            names@.len() == self.entries().len(),
            forall|i: int|
                0 <= i < names@.len() ==> (#[trigger] names@[i])@ == self.entries()[i].0@,
    {
        let n = self.textures.len();
        let mut names: Vec<String> = Vec::new();
        let mut k: usize = 0;
        while k < n
            invariant
                n == self.entries().len(),
                k <= n,
                names@.len() == k,
                forall|i: int|
                    0 <= i < k ==> (#[trigger] names@[i])@ == self.entries()[i].0@,
            decreases n - k,
        {
            names.push(self.textures[k].0.clone());
            k += 1;
        }
        names
    }
}

} // verus!
