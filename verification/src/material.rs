//! The material resource: a named bundle of a shader handle, texture
//! samplers and uniform values.  Reading the material file and parsing
//! it belong to the embedder; adopting the parsed result and editing
//! the uniform table are verified here.

use vstd::prelude::*;

use crate::fbo::Attachment;
use crate::fbo::Fbo;
use crate::mesh::RES_STATE_EMPTY;
use crate::resource::contains_name;
use crate::resource::Clonable;
use crate::resource::name_index;
use crate::resource::names_after_request;
use crate::resource::Create;
use crate::resource::ResourceT;
use crate::resource::ResTT;
use crate::shader::Shader;
use crate::shader::UniformData;
use crate::texture::Texture;

verus! {

/// What a texture slot samples from: an image file, or a plane of a
/// framebuffer.
#[derive(Clone, Debug)]
pub enum Sampler {
    ImageFile(ResTT<Texture>),
    Fbo(ResTT<Fbo>, Attachment),
}

impl Sampler {
    /// The name of the sampled resource.
    pub fn name(&self) -> (r: &str)
        ensures
            r@ == match self {
                Sampler::ImageFile(img) => img.name@,
                Sampler::Fbo(f, _) => f.name@,
            },
    {
        match self {
            Sampler::ImageFile(img) => img.name.as_str(),
            Sampler::Fbo(f, _) => f.name.as_str(),
        }
    }
}

/// An exact duplicate of a sampler (the handle's cached index and any
/// private instance included).
pub(crate) fn copy_sampler(s: &Sampler) -> (r: Sampler)
    ensures
        r == *s,
{
    match s {
        Sampler::ImageFile(img) => {
            let instance = match &img.instance {
                Some(t) => Some(Texture { name: t.name.clone(), state: t.state }),
                None => None,
            };
            Sampler::ImageFile(
                ResTT {
                    name: img.name.clone(),
                    resource: img.resource,
                    instance,
                    instance_managed: img.instance_managed,
                },
            )
        }
        Sampler::Fbo(f, a) => {
            let instance = match &f.instance {
                Some(t) => Some(Fbo { name: t.name.clone(), state: t.state }),
                None => None,
            };
            Sampler::Fbo(
                ResTT {
                    name: f.name.clone(),
                    resource: f.resource,
                    instance,
                    instance_managed: f.instance_managed,
                },
                *a,
            )
        }
    }
}

/// The keys of an association list, as specifications see them.
pub open spec fn table_keys<V>(s: Seq<(String, V)>) -> Seq<Seq<char>> {
    s.map_values(|p: (String, V)| p.0@)
}

/// No key appears twice.
pub open spec fn table_wf<V>(s: Seq<(String, V)>) -> bool {
    forall|i: int, j: int| 0 <= i < j < s.len() ==> table_keys(s)[i] != table_keys(s)[j]
}

#[derive(Clone, Debug)]
pub struct Material {
    pub name: String,
    pub shader: Option<ResTT<Shader>>,
    pub state: i32,
    pub textures: Vec<(String, Sampler)>,
    pub uniforms: Vec<(String, UniformData)>,
}

/// What adopting a parsed material puts in each texture slot: the same
/// key, and a fresh, unresolved sampler of the parsed kind and name.
pub open spec fn adopted_entry(from: (String, Sampler), to: (String, Sampler)) -> bool {
    to.0@ == from.0@ && fresh_sampler_of(from.1, to.1)
}

/// A fresh, unresolved sampler of the same kind and resource name as
/// `from`: what adopting a parsed material puts in each texture slot.
pub open spec fn fresh_sampler_of(from: Sampler, to: Sampler) -> bool {
    match from {
        Sampler::ImageFile(img) => to matches Sampler::ImageFile(h) && h.name@ == img.name@
            && h.resource is None && h.instance is None && h.instance_managed is None,
        Sampler::Fbo(f, a) => to matches Sampler::Fbo(h, a2) && h.name@ == f.name@ && a2 == a
            && h.resource is None && h.instance is None && h.instance_managed is None,
    }
}

impl Material {
    /// Both tables keyed without duplicates.
    pub open spec fn wf(&self) -> bool {
        table_wf(self.textures@) && table_wf(self.uniforms@)
    }

    pub fn new(name: &str) -> (r: Material)
        ensures
            r.wf(),
            r.name@ == name@,
            r.shader is None,
            r.state == RES_STATE_EMPTY,
            r.textures@ =~= Seq::<(String, Sampler)>::empty(),
            r.uniforms@ =~= Seq::<(String, UniformData)>::empty(),
    {
        Material {
            name: name.to_owned(),
            shader: None,
            state: RES_STATE_EMPTY,
            textures: Vec::new(),
            uniforms: Vec::new(),
        }
    }

    /// Set (or overwrite) one uniform value, keeping keys unique.
    pub fn set_uniform_data(&mut self, name: &str, data: UniformData)
        requires
            old(self).wf(),
        ensures
            final(self).wf(),
            final(self).name@ == old(self).name@,
            final(self).shader == old(self).shader,
            final(self).state == old(self).state,
            final(self).textures == old(self).textures,
            table_keys(final(self).uniforms@) =~= names_after_request(
                table_keys(old(self).uniforms@),
                name@,
            ),
            final(self).uniforms@[name_index(table_keys(final(self).uniforms@), name@)].1 == data,
            forall|j: int|
                0 <= j < old(self).uniforms@.len() && table_keys(old(self).uniforms@)[j] != name@
                    ==> final(self).uniforms@[j] == old(self).uniforms@[j],
    {
        let key: String = name.to_owned();
        let n = self.uniforms.len();
        let mut i: usize = 0;
        while i < n
            invariant
                old(self).wf(),
                self == old(self),
                n == self.uniforms@.len(),
                i <= n,
                key@ == name@,
                forall|j: int| 0 <= j < i ==> table_keys(self.uniforms@)[j] != name@,
            decreases n - i,
        {
            proof {
                assert(table_keys(self.uniforms@)[i as int] == self.uniforms@[i as int].0@);
            }
            if self.uniforms[i].0 == key {
                let entry = &mut self.uniforms[i];
                entry.1 = data;
                proof {
                    let ks1 = table_keys(self.uniforms@);
                    let ks0 = table_keys(old(self).uniforms@);
                    assert(ks1 =~= ks0);
                    assert(contains_name(ks0, name@));
                    lemma_table_index(old(self).uniforms@, name@, i as int);
                }
                return ;
            }
            i += 1;
        }
        proof {
            assert(!contains_name(table_keys(self.uniforms@), name@));
        }
        self.uniforms.push((key, data));
        proof {
            let ks1 = table_keys(self.uniforms@);
            let ks0 = table_keys(old(self).uniforms@);
            assert(ks1 =~= ks0.push(name@));
            assert forall|a: int, b: int| 0 <= a < b < ks1.len() implies ks1[a] != ks1[b] by {
                if b < ks0.len() {
                    assert(ks0[a] != ks0[b]);
                } else {
                    assert(ks1[b] == name@);
                    assert(ks1[a] == ks0[a]);
                }
            }
            lemma_table_index(self.uniforms@, name@, n as int);
        }
    }

    /// Adopt a parsed material: take over its name and uniform values,
    /// and point the shader and texture slots at fresh, unresolved
    /// handles carrying the parsed names.  The embedder reads and
    /// parses the file, then hands the result here.
    pub fn apply_read(&mut self, mat: &Material)
        requires
            mat.wf(),
        ensures
            final(self).wf(),
            final(self).name@ == mat.name@,
            final(self).state == old(self).state,
            match mat.shader {
                Some(s) => final(self).shader matches Some(h) && h.name@ == s.name@
                    && h.resource is None && h.instance is None && h.instance_managed is None,
                None => final(self).shader is None,
            },
            final(self).uniforms@ == mat.uniforms@,
            final(self).textures@.len() == mat.textures@.len(),
            forall|j: int|
                0 <= j < mat.textures@.len() ==> adopted_entry(
                    mat.textures@[j],
                    #[trigger] final(self).textures@[j],
                ),
    {
        self.name = mat.name.clone();
        match &mat.shader {
            Some(s) => {
                self.shader = Some(ResTT::new(s.name.as_str()));
            }
            None => {
                self.shader = None;
            }
        }
        let mut textures: Vec<(String, Sampler)> = Vec::new();
        let n = mat.textures.len();
        let mut i: usize = 0;
        while i < n
            invariant
                n == mat.textures@.len(),
                i <= n,
                textures@.len() == i,
                forall|j: int|
                    0 <= j < i ==> adopted_entry(mat.textures@[j], #[trigger] textures@[j]),
            decreases n - i,
        {
            let entry = &mat.textures[i];
            proof {
                assert(*entry == mat.textures@[i as int]);
            }
            let fresh = match &entry.1 {
                Sampler::ImageFile(img) => Sampler::ImageFile(ResTT::new(img.name.as_str())),
                Sampler::Fbo(f, a) => Sampler::Fbo(ResTT::new(f.name.as_str()), *a),
            };
            proof {
                assert(fresh_sampler_of(mat.textures@[i as int].1, fresh));
            }
            let key = entry.0.clone();
            textures.push((key, fresh));
            proof {
                assert(adopted_entry(mat.textures@[i as int], textures@[i as int]));
            }
            i += 1;
        }
        self.textures = textures;
        let mut uniforms: Vec<(String, UniformData)> = Vec::new();
        let m = mat.uniforms.len();
        let mut k: usize = 0;
        while k < m
            invariant
                m == mat.uniforms@.len(),
                k <= m,
                uniforms@ =~= mat.uniforms@.take(k as int),
            decreases m - k,
        {
            let entry = &mat.uniforms[k];
            uniforms.push((entry.0.clone(), entry.1));
            proof {
                assert(uniforms@ =~= mat.uniforms@.take(k + 1));
            }
            k += 1;
        }
        proof {
            assert(mat.uniforms@.take(m as int) =~= mat.uniforms@);
        }
        self.uniforms = uniforms;
        proof {
            assert forall|a: int| 0 <= a < self.textures@.len() implies table_keys(
                self.textures@,
            )[a] == table_keys(mat.textures@)[a] by {
                assert(adopted_entry(mat.textures@[a], self.textures@[a]));
            }
            assert(table_keys(self.textures@) =~= table_keys(mat.textures@));
        }
    }
}

/// Agreement of two optional shader handles, shaders compared field
/// for field.
pub open spec fn same_shader_handle(a: Option<ResTT<Shader>>, b: Option<ResTT<Shader>>) -> bool {
    match (a, b) {
        (Some(x), Some(y)) => {
            &&& x.name == y.name
            &&& x.resource == y.resource
            &&& x.instance_managed == y.instance_managed
            &&& match (x.instance, y.instance) {
                (Some(sx), Some(sy)) => crate::shader::same_shader(sx, sy),
                (None, None) => true,
                _ => false,
            }
        },
        (None, None) => true,
        _ => false,
    }
}

/// Field-for-field agreement of two materials (tables compared by
/// contents): what duplicating a material guarantees.
pub open spec fn same_material(a: Material, b: Material) -> bool {
    &&& a.name == b.name
    &&& same_shader_handle(a.shader, b.shader)
    &&& a.state == b.state
    &&& a.textures@ == b.textures@
    &&& a.uniforms@ == b.uniforms@
}

/// An exact duplicate of a material, field for field.
pub fn copy_material(m: &Material) -> (r: Material)
    ensures
        same_material(r, *m),
{
    let shader = match &m.shader {
        Some(s) => Some(
            ResTT {
                name: s.name.clone(),
                resource: s.resource,
                instance: match &s.instance {
                    Some(sh) => Some(crate::shader::copy_shader(sh)),
                    None => None,
                },
                instance_managed: s.instance_managed,
            },
        ),
        None => None,
    };
    let mut textures: Vec<(String, Sampler)> = Vec::new();
    let n = m.textures.len();
    let mut i: usize = 0;
    while i < n
        invariant
            n == m.textures@.len(),
            i <= n,
            textures@ =~= m.textures@.take(i as int),
        decreases n - i,
    {
        let entry = &m.textures[i];
        textures.push((entry.0.clone(), copy_sampler(&entry.1)));
        proof {
            assert(textures@ =~= m.textures@.take(i + 1));
        }
        i += 1;
    }
    proof {
        assert(m.textures@.take(n as int) =~= m.textures@);
    }
    let mut uniforms: Vec<(String, UniformData)> = Vec::new();
    let nu = m.uniforms.len();
    let mut k: usize = 0;
    while k < nu
        invariant
            nu == m.uniforms@.len(),
            k <= nu,
            uniforms@ =~= m.uniforms@.take(k as int),
        decreases nu - k,
    {
        let entry = &m.uniforms[k];
        uniforms.push((entry.0.clone(), entry.1));
        proof {
            assert(uniforms@ =~= m.uniforms@.take(k + 1));
        }
        k += 1;
    }
    proof {
        assert(m.uniforms@.take(nu as int) =~= m.uniforms@);
    }
    Material { name: m.name.clone(), shader, state: m.state, textures, uniforms }
}

/// With distinct keys, the position holding `k` is its table index.
proof fn lemma_table_index<V>(s: Seq<(String, V)>, k: Seq<char>, i: int)
    requires
        table_wf(s),
        0 <= i < s.len(),
        table_keys(s)[i] == k,
    ensures
        name_index(table_keys(s), k) == i,
{
    crate::resource::lemma_name_index_unique(table_keys(s), k, i);
}

impl Clonable for Material {
    /// Materials are plain data and may be duplicated.
    fn make_clone(&self) -> (r: Option<Material>)
        ensures
            r matches Some(c) && same_material(c, *self),
    {
        Some(copy_material(self))
    }
}

impl ResourceT for Material {
    fn init(&mut self) {
    }
}

impl Create for Material {
    fn create(name: &str) -> Material {
        Material::new(name)
    }

    fn inittt(&mut self) {
    }
}

} // verus!
