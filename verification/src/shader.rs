//! The shader resource, as the cache sees it: a named program with its
//! source texts and a staged load phase.  Compilation and the GL-side
//! objects live with the rendering layer.

use vstd::prelude::*;

use crate::mesh::RES_STATE_EMPTY;
use crate::resource::Clonable;
use crate::resource::Create;
use crate::transform::Vec2;
use crate::transform::Vec3;
use crate::transform::Vec4;

verus! {

/// Marker for the GL-side program object, owned by the renderer.
pub struct CglShader;

/// Marker for a GL-side attribute handle, owned by the renderer.
pub struct CglShaderAttribute;

/// Marker for a GL-side uniform handle, owned by the renderer.
pub struct CglShaderUniform;

/// Shader load phases: fresh; sources present; paths read; compiled.
pub const SHADER_STATE_SOURCES_SET: i32 = 1;

/// See `SHADER_STATE_SOURCES_SET`.
pub const SHADER_STATE_PATHS_READ: i32 = 2;

/// See `SHADER_STATE_SOURCES_SET`.
pub const SHADER_STATE_COMPILED: i32 = 3;

/// A value handed to a shader uniform.  The floating-point payloads are
/// double bit patterns (see the `transform` module); `Float` carries a
/// single-precision pattern.
#[derive(Clone, Copy, PartialEq, Eq, Structural, Debug)]
pub enum UniformData {
    Int(i32),
    Float(u32),
    Vec2(Vec2),
    Vec3(Vec3),
    Vec4(Vec4),
}

/// A shader program: where its sources come from, the sources
/// themselves once read, and the names of the attributes and uniforms
/// the compiled program exposes (their GL handles stay renderer-side).
#[derive(Clone, Debug)]
pub struct Shader {
    pub name: String,
    pub attributes: Vec<String>,
    pub uniforms: Vec<String>,
    pub state: i32,
    pub vert_path: Option<String>,
    pub frag_path: Option<String>,
    pub vert: Option<String>,
    pub frag: Option<String>,
}

impl Shader {
    pub fn new(name: &str) -> (r: Shader)
        ensures
            r.name@ == name@,
            r.attributes@ =~= Seq::<String>::empty(),
            r.uniforms@ =~= Seq::<String>::empty(),
            r.state == RES_STATE_EMPTY,
            r.vert_path is None,
            r.frag_path is None,
            r.vert is None,
            r.frag is None,
    {
        Shader {
            name: name.to_owned(),
            attributes: Vec::new(),
            uniforms: Vec::new(),
            state: RES_STATE_EMPTY,
            vert_path: None,
            frag_path: None,
            vert: None,
            frag: None,
        }
    }

    /// Install the two source texts directly; the shader is then ready
    /// for compilation.
    pub fn set_vert_frag(&mut self, vert: String, frag: String)
        ensures
            final(self).vert == Some(vert),
            final(self).frag == Some(frag),
            final(self).state == SHADER_STATE_SOURCES_SET,
            final(self).name@ == old(self).name@,
            final(self).attributes == old(self).attributes,
            final(self).uniforms == old(self).uniforms,
            final(self).vert_path == old(self).vert_path,
            final(self).frag_path == old(self).frag_path,
    {
        self.vert = Some(vert);
        self.frag = Some(frag);
        self.state = SHADER_STATE_SOURCES_SET;
    }
}

/// Field-for-field agreement of two shaders (vectors compared by
/// contents): what duplicating a shader guarantees.
pub open spec fn same_shader(a: Shader, b: Shader) -> bool {
    &&& a.name == b.name
    &&& a.attributes@ == b.attributes@
    &&& a.uniforms@ == b.uniforms@
    &&& a.state == b.state
    &&& a.vert_path == b.vert_path
    &&& a.frag_path == b.frag_path
    &&& a.vert == b.vert
    &&& a.frag == b.frag
}

/// An exact duplicate of a shader, field for field.
pub fn copy_shader(s: &Shader) -> (r: Shader)
    ensures
        same_shader(r, *s),
{
    Shader {
        name: s.name.clone(),
        attributes: copy_strings(&s.attributes),
        uniforms: copy_strings(&s.uniforms),
        state: s.state,
        vert_path: copy_opt_string(&s.vert_path),
        frag_path: copy_opt_string(&s.frag_path),
        vert: copy_opt_string(&s.vert),
        frag: copy_opt_string(&s.frag),
    }
}

pub(crate) fn copy_strings(v: &Vec<String>) -> (r: Vec<String>)
    ensures
        r@ == v@,
{
    let mut out: Vec<String> = Vec::new();
    let n = v.len();
    let mut i: usize = 0;
    while i < n
        invariant
            n == v@.len(),
            i <= n,
            out@ =~= v@.take(i as int),
        decreases n - i,
    {
        out.push(v[i].clone());
        proof {
            assert(out@ =~= v@.take(i + 1));
        }
        i += 1;
    }
    proof {
        assert(v@.take(n as int) =~= v@);
    }
    out
}

pub(crate) fn copy_opt_string(v: &Option<String>) -> (r: Option<String>)
    ensures
        r == *v,
{
    match v {
        Some(s) => Some(s.clone()),
        None => None,
    }
}

impl Clonable for Shader {
    /// A shader may own a compiled GL program, so it is never
    /// duplicated.
    fn make_clone(&self) -> (r: Option<Shader>)
        ensures
            r is None,
    {
        None
    }
}

impl Create for Shader {
    fn create(name: &str) -> Shader {
        Shader::new(name)
    }

    fn inittt(&mut self) {
    }
}

} // verus!
