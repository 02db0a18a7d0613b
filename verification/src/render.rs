//! Render batching: drawables paired with matrices, grouped per shader
//! and per camera.  The verified part walks the batches and resolves
//! their resources through the cache; submitting GL work is the
//! rendering layer's job.

use vstd::prelude::*;

use crate::material::copy_material;
use crate::material::same_material;
use crate::material::Material;
use crate::mesh_render::MeshRender;
use crate::resource::lemma_extend_preserves_index;
use crate::resource::lemma_slots_evolve_trans;
use crate::resource::lemma_wf_shape;
use crate::resource::name_index;
use crate::resource::names_extend;
use crate::resource::ready_name;
use crate::resource::slot_monotone;
use crate::resource::slots_evolve;
use crate::resource::ResourceGroup;
use crate::resource::ResTT;
use crate::shader::Shader;
use crate::shader::UniformData;
use crate::transform::Matrix4;
use crate::transform::Orientation;
use crate::transform::Transform;

verus! {

/// A drawable with the world matrix to draw it at.
#[derive(Clone, Debug)]
pub struct MatrixMeshRender {
    pub mat: Matrix4,
    pub mr: MeshRender,
}

impl MatrixMeshRender {
    pub fn new(mat: Matrix4, mr: MeshRender) -> (r: MatrixMeshRender)
        ensures
            r.mat == mat,
            r.mr == mr,
    {
        MatrixMeshRender { mat, mr }
    }
}

/// A drawable with a full transform instead of a burned-in matrix.
#[derive(Clone, Debug)]
pub struct TransformMeshRender {
    pub transform: Transform,
    pub mr: MeshRender,
}

impl TransformMeshRender {
    pub fn new(t: Transform, mr: MeshRender) -> (r: TransformMeshRender)
        ensures
            r.transform == t,
            r.mr == mr,
    {
        TransformMeshRender { transform: t, mr }
    }

    pub fn with_mesh(mr: MeshRender) -> (r: TransformMeshRender)
        ensures
            r.transform.position == crate::transform::Vec3::zero_spec(),
            r.transform.orientation == Orientation::AngleXYZ(crate::transform::Vec3::zero_spec()),
            r.transform.scale == crate::transform::Vec3::zero_spec(),
            !r.transform.dirty,
            r.transform.local_matrix == Matrix4::identity_spec(),
            r.mr == mr,
    {
        TransformMeshRender { transform: Transform::default(), mr }
    }

    /// Flatten to a matrix drawable, using the cached local matrix; the
    /// transform must not be dirty (recomputing the matrix is numeric
    /// work for the rendering layer).
    pub fn to_mmr(&self) -> (r: MatrixMeshRender)
        requires
            !self.transform.dirty,
        ensures
            r.mat == self.transform.local_matrix,
            r.mr.mesh == self.mr.mesh,
            r.mr.material.name == self.mr.material.name,
            r.mr.material.resource == self.mr.material.resource,
            r.mr.material.instance_managed == self.mr.material.instance_managed,
            match (r.mr.material.instance, self.mr.material.instance) {
                (Some(a), Some(b)) => same_material(a, b),
                (None, None) => true,
                _ => false,
            },
    {
        let mat = *self.transform.get_computed_local_matrix();
        let instance = match &self.mr.mesh.instance {
            Some(m) => Some(crate::mesh::Mesh { name: m.name.clone(), state: m.state }),
            None => None,
        };
        let mesh = ResTT {
            name: self.mr.mesh.name.clone(),
            resource: self.mr.mesh.resource,
            instance,
            instance_managed: self.mr.mesh.instance_managed,
        };
        let mat_instance = match &self.mr.material.instance {
            Some(m) => Some(copy_material(m)),
            None => None,
        };
        let material = ResTT {
            name: self.mr.material.name.clone(),
            resource: self.mr.material.resource,
            instance: mat_instance,
            instance_managed: self.mr.material.instance_managed,
        };
        MatrixMeshRender { mat, mr: MeshRender { mesh, material } }
    }

    /// Set a uniform on the privately-owned material instance; having
    /// one is the caller's obligation.
    pub fn set_uniform_data(&mut self, name: &str, data: UniformData)
        requires
            old(self).mr.material.instance matches Some(m) && m.wf(),
        ensures
            final(self).transform == old(self).transform,
            final(self).mr.mesh == old(self).mr.mesh,
            final(self).mr.material.name@ == old(self).mr.material.name@,
            final(self).mr.material.resource == old(self).mr.material.resource,
            final(self).mr.material.instance_managed == old(self).mr.material.instance_managed,
            old(self).mr.material.instance matches Some(m0) ==> (final(self).mr.material.instance matches Some(m1) && m1.wf() && m1.name@ == m0.name@
                && m1.shader == m0.shader && m1.state == m0.state && m1.textures == m0.textures
                && crate::material::table_keys(m1.uniforms@)
                =~= crate::resource::names_after_request(
                crate::material::table_keys(m0.uniforms@),
                name@,
            ) && m1.uniforms@[name_index(
                crate::material::table_keys(m1.uniforms@),
                name@,
            )].1 == data),
    {
        match self.mr.material.get_instance() {
            Some(m) => {
                m.set_uniform_data(name, data);
            }
            None => {}
        }
    }
}

/// Everything one camera draws under one shader.
pub struct CameraPass {
    pub matrix: Matrix4,
    pub mmr: Vec<MatrixMeshRender>,
}

impl CameraPass {
    fn new(mat: Matrix4) -> (r: CameraPass)
        ensures
            r.matrix == mat,
            r.mmr@ =~= Seq::<MatrixMeshRender>::empty(),
    {
        CameraPass { matrix: mat, mmr: Vec::new() }
    }

    pub fn add_mmr(&mut self, mr: MatrixMeshRender)
        ensures
            final(self).matrix == old(self).matrix,
            final(self).mmr@ == old(self).mmr@.push(mr),
    {
        self.mmr.push(mr);
    }
}

/// Every handle a batch entry may resolve lies inside the group's
/// managers: entries were built against these managers.
pub open spec fn mmr_bound(mr: MeshRender, group: ResourceGroup) -> bool {
    &&& mr.material.resource_spec() matches Some(i) ==> i
        < group.material_manager.slot_count()
    &&& mr.mesh.resource_spec() matches Some(i) ==> i < group.mesh_manager.slot_count()
}

/// The entry's material is resolved and ready in the group, and so is
/// its mesh (or the entry owns a private mesh instance).
pub open spec fn mmr_ready(mr: MeshRender, group: ResourceGroup) -> bool {
    &&& ready_name(&mr.material, &group.material_manager)
    &&& mr.mesh.instance is Some || ready_name(&mr.mesh, &group.mesh_manager)
}

/// Every entry before position (`a`, `b`) in the pass walk is ready.
pub open spec fn prefix_ready<Id>(rp: &RenderPass<Id>, group: ResourceGroup, a: int, b: int) -> bool {
    forall|x: int, y: int|
        0 <= x < rp.passes@.len() && 0 <= y < rp.passes@[x].1.mmr@.len() && (x < a || (x == a && y
            < b)) ==> mmr_ready((#[trigger] rp.passes@[x].1.mmr@[y]).mr, group)
}

/// One named shader's batches, one per camera.
pub struct RenderPass<Id> {
    pub name: String,
    pub shader: ResTT<Shader>,
    pub passes: Vec<(Id, CameraPass)>,
}

impl<Id> RenderPass<Id> {
    pub fn new(shader: ResTT<Shader>) -> (r: RenderPass<Id>)
        ensures
            r.name@ == "passtest"@,
            r.shader == shader,
            r.passes@ =~= Seq::<(Id, CameraPass)>::empty(),
    {
        RenderPass { name: "passtest".to_owned(), shader, passes: Vec::new() }
    }

    /// Resolve this frame's resources through the cache and report how
    /// many entries could not be drawn yet.  Each visit polls the
    /// entry's material and mesh, driving `Loading` slots forward; the
    /// GL submission itself belongs to the rendering layer.  A result
    /// of zero means every entry's material and mesh are resolved and
    /// ready in the group as it now stands.  (The converse does not
    /// hold of the final state: an entry counted as missing may become
    /// ready later in the same walk, when a shared resource delivers.)
    pub fn draw_frame(&self, resource: &mut ResourceGroup) -> (r: usize)
        requires
            old(resource).wf(),
            self.shader.resource_spec() matches Some(i) ==> i < old(resource).shader_manager.slot_count(),
            forall|a: int, b: int|
                0 <= a < self.passes@.len() && 0 <= b < self.passes@[a].1.mmr@.len() ==> mmr_bound(
                    (#[trigger] self.passes@[a].1.mmr@[b]).mr,
                    *old(resource),
                ),
        ensures
            final(resource).wf(),
            slots_evolve(
                old(resource).shader_manager.slots(),
                final(resource).shader_manager.slots(),
            ),
            slots_evolve(
                old(resource).material_manager.slots(),
                final(resource).material_manager.slots(),
            ),
            slots_evolve(old(resource).mesh_manager.slots(), final(resource).mesh_manager.slots()),
            names_extend(
                old(resource).material_manager.names_view(),
                final(resource).material_manager.names_view(),
            ),
            names_extend(
                old(resource).mesh_manager.names_view(),
                final(resource).mesh_manager.names_view(),
            ),
            final(resource).texture_manager == old(resource).texture_manager,
            final(resource).fbo_manager == old(resource).fbo_manager,
            final(resource).armature_manager == old(resource).armature_manager,
            r == 0 ==> prefix_ready(self, *final(resource), self.passes@.len() as int, 0),
    {
        let mut not_loaded: usize = 0;
        let shader_ok = self.shader.get_from_manager_instant(&mut resource.shader_manager).is_ok();
        if !shader_ok {
            if not_loaded < usize::MAX {
                not_loaded += 1;
            }
        }
        let np = self.passes.len();
        let mut a: usize = 0;
        while a < np
            invariant
                np == self.passes@.len(),
                a <= np,
                resource.wf(),
                forall|x: int, y: int|
                    0 <= x < self.passes@.len() && 0 <= y < self.passes@[x].1.mmr@.len()
                        ==> mmr_bound((#[trigger] self.passes@[x].1.mmr@[y]).mr, *old(resource)),
                old(resource).material_manager.slot_count()
                    <= resource.material_manager.slot_count(),
                old(resource).mesh_manager.slot_count() <= resource.mesh_manager.slot_count(),
                slots_evolve(
                    old(resource).shader_manager.slots(),
                    resource.shader_manager.slots(),
                ),
                slots_evolve(
                    old(resource).material_manager.slots(),
                    resource.material_manager.slots(),
                ),
                slots_evolve(old(resource).mesh_manager.slots(), resource.mesh_manager.slots()),
                names_extend(
                    old(resource).material_manager.names_view(),
                    resource.material_manager.names_view(),
                ),
                names_extend(
                    old(resource).mesh_manager.names_view(),
                    resource.mesh_manager.names_view(),
                ),
                resource.texture_manager == old(resource).texture_manager,
                resource.fbo_manager == old(resource).fbo_manager,
                resource.armature_manager == old(resource).armature_manager,
                not_loaded == 0 ==> prefix_ready(self, *resource, a as int, 0),
            decreases np - a,
        {
            let pass = &self.passes[a];
            let nm = pass.1.mmr.len();
            let mut b: usize = 0;
            while b < nm
                invariant
                    np == self.passes@.len(),
                    a < np,
                    nm == self.passes@[a as int].1.mmr@.len(),
                    *pass == self.passes@[a as int],
                    b <= nm,
                    resource.wf(),
                    forall|x: int, y: int|
                        0 <= x < self.passes@.len() && 0 <= y < self.passes@[x].1.mmr@.len()
                            ==> mmr_bound(
                            (#[trigger] self.passes@[x].1.mmr@[y]).mr,
                            *old(resource),
                        ),
                    old(resource).material_manager.slot_count()
                        <= resource.material_manager.slot_count(),
                    old(resource).mesh_manager.slot_count() <= resource.mesh_manager.slot_count(),
                    slots_evolve(
                        old(resource).shader_manager.slots(),
                        resource.shader_manager.slots(),
                    ),
                    slots_evolve(
                        old(resource).material_manager.slots(),
                        resource.material_manager.slots(),
                    ),
                    slots_evolve(old(resource).mesh_manager.slots(), resource.mesh_manager.slots()),
                    names_extend(
                        old(resource).material_manager.names_view(),
                        resource.material_manager.names_view(),
                    ),
                    names_extend(
                        old(resource).mesh_manager.names_view(),
                        resource.mesh_manager.names_view(),
                    ),
                    resource.texture_manager == old(resource).texture_manager,
                    resource.fbo_manager == old(resource).fbo_manager,
                    resource.armature_manager == old(resource).armature_manager,
                    not_loaded == 0 ==> prefix_ready(self, *resource, a as int, b as int),
                decreases nm - b,
            {
                let entry = &pass.1.mmr[b];
                proof {
                    assert(mmr_bound(self.passes@[a as int].1.mmr@[b as int].mr, *old(resource)));
                }
                let ghost prev = *resource;
                let mat_ready = match entry.mr.material.resource {
                    Some(i) => resource.material_manager.get_ref(i).is_some(),
                    None => resource.material_manager.get_or_load_ref_from_name(
                        entry.mr.material.name.as_str(),
                    ).1.is_some(),
                };
                proof {
                    lemma_slots_evolve_trans(
                        old(resource).material_manager.slots(),
                        prev.material_manager.slots(),
                        resource.material_manager.slots(),
                    );
                }
                let ghost mid = *resource;
                let mesh_ready = if entry.mr.mesh.instance.is_some() {
                    true
                } else {
                    match entry.mr.mesh.resource {
                        Some(i) => resource.mesh_manager.get_ref(i).is_some(),
                        None => resource.mesh_manager.get_or_load_ref_from_name(
                            entry.mr.mesh.name.as_str(),
                        ).1.is_some(),
                    }
                };
                proof {
                    lemma_slots_evolve_trans(
                        old(resource).mesh_manager.slots(),
                        mid.mesh_manager.slots(),
                        resource.mesh_manager.slots(),
                    );
                    // Entries found ready earlier stay ready: slots only
                    // move forward and names keep their indices.
                    assert forall|x: int, y: int|
                        0 <= x < self.passes@.len() && 0 <= y < self.passes@[x].1.mmr@.len()
                            && mmr_ready((#[trigger] self.passes@[x].1.mmr@[y]).mr, prev) implies
                        mmr_ready(self.passes@[x].1.mmr@[y].mr, *resource) by {
                        let h = self.passes@[x].1.mmr@[y].mr;
                        assert(mmr_bound(h, *old(resource)));
                        lemma_wf_shape(&prev.material_manager);
                        lemma_wf_shape(&resource.material_manager);
                        lemma_wf_shape(&prev.mesh_manager);
                        lemma_wf_shape(&resource.mesh_manager);
                        assert(names_extend(
                            prev.material_manager.names_view(),
                            resource.material_manager.names_view(),
                        ));
                        assert(names_extend(
                            prev.mesh_manager.names_view(),
                            resource.mesh_manager.names_view(),
                        ));
                        match h.material.resource_spec() {
                            Some(i) => {
                                assert(slot_monotone(
                                    prev.material_manager.slots()[i as int],
                                    resource.material_manager.slots()[i as int],
                                ));
                            },
                            None => {
                                lemma_extend_preserves_index(
                                    prev.material_manager.names_view(),
                                    resource.material_manager.names_view(),
                                    h.material.name@,
                                );
                                let i0 = name_index(
                                    prev.material_manager.names_view(),
                                    h.material.name@,
                                );
                                assert(slot_monotone(
                                    prev.material_manager.slots()[i0],
                                    resource.material_manager.slots()[i0],
                                ));
                            },
                        }
                        if h.mesh.instance is None && mmr_ready(h, prev) {
                            match h.mesh.resource_spec() {
                                Some(i) => {
                                    assert(slot_monotone(
                                        prev.mesh_manager.slots()[i as int],
                                        resource.mesh_manager.slots()[i as int],
                                    ));
                                },
                                None => {
                                    lemma_extend_preserves_index(
                                        prev.mesh_manager.names_view(),
                                        resource.mesh_manager.names_view(),
                                        h.mesh.name@,
                                    );
                                    let i0 = name_index(prev.mesh_manager.names_view(), h.mesh.name@);
                                    assert(slot_monotone(
                                        prev.mesh_manager.slots()[i0],
                                        resource.mesh_manager.slots()[i0],
                                    ));
                                },
                            }
                        }
                    }
                }
                if !(mat_ready && mesh_ready) {
                    if not_loaded < usize::MAX {
                        not_loaded += 1;
                    }
                } else {
                    proof {
                        // This entry itself is ready in the group as it
                        // now stands: the mesh resolution was the last
                        // touch, and the material manager was untouched
                        // since the material resolved.
                        assert(mid.material_manager == resource.material_manager);
                        assert(mmr_ready(self.passes@[a as int].1.mmr@[b as int].mr, *resource));
                    }
                }
                b += 1;
            }
            a += 1;
        }
        not_loaded
    }
}

/// One shader's worth of work for the newer render path.
pub struct RenderByShader {
    pub name: String,
    pub shader: ResTT<Shader>,
}

/// The newer renderer: it owns the resource group and groups work by
/// shader name.
pub struct NewRender {
    pub passes: Vec<RenderByShader>,
    pub resource: ResourceGroup,
}

impl NewRender {
    pub fn new(resource: ResourceGroup) -> (r: NewRender)
        ensures
            r.passes@ =~= Seq::<RenderByShader>::empty(),
            r.resource == resource,
    {
        NewRender { passes: Vec::new(), resource }
    }

    pub fn init(&mut self)
        ensures
            *final(self) == *old(self),
    {
    }

    pub fn resize(&mut self, w: i32, h: i32)
        ensures
            *final(self) == *old(self),
    {
        let _ = w;
        let _ = h;
    }

    /// Build and submit this frame's passes.  Not wired up yet: reports
    /// that nothing is missing.
    pub fn draw(&mut self, renderables: &Vec<(Transform, MeshRender)>) -> (r: bool)
        ensures
            r == false,
            *final(self) == *old(self),
    {
        let _ = renderables.len();
        false
    }

    pub fn draw_frame()
    {
    }
}

/// Which of the given objects to draw for this camera.  Frustum culling
/// is numeric work for the rendering layer; until it is wired in, every
/// object is kept, in order.
pub fn get_transforms_of_objects_in_camera_frustum<T: Copy>(
    cam: &crate::camera2::Camera,
    cam_mat: &Matrix4,
    world_matrices: &[(T, Matrix4)],
) -> (r: Vec<T>)
    ensures
        r@.len() == world_matrices@.len(),
        forall|k: int| 0 <= k < r@.len() ==> r@[k] == world_matrices@[k].0,
{
    let _ = cam.projection;
    let _ = cam_mat.m[0];
    let mut out: Vec<T> = Vec::new();
    let n = world_matrices.len();
    let mut i: usize = 0;
    while i < n
        invariant
            n == world_matrices@.len(),
            i <= n,
            out@.len() == i,
            forall|k: int| 0 <= k < i ==> out@[k] == world_matrices@[k].0,
        decreases n - i,
    {
        out.push(world_matrices[i].0);
        i += 1;
    }
    out
}

/// The textures and uniform values one draw call feeds its shader.
pub struct ShaderInput {
    pub textures: Vec<(String, crate::material::Sampler)>,
    pub uniforms: Vec<(String, UniformData)>,
}

impl ShaderInput {
    pub fn new() -> (r: ShaderInput)
        ensures
            r.textures@ =~= Seq::<(String, crate::material::Sampler)>::empty(),
            r.uniforms@ =~= Seq::<(String, UniformData)>::empty(),
    {
        ShaderInput { textures: Vec::new(), uniforms: Vec::new() }
    }

    /// The material's tables, duplicated entry for entry.
    pub fn from_material(mat: &Material) -> (r: ShaderInput)
        ensures
            r.textures@ == mat.textures@,
            r.uniforms@ == mat.uniforms@,
    {
        let copied = copy_material(mat);
        ShaderInput { textures: copied.textures, uniforms: copied.uniforms }
    }
}

/// The cameras to draw with this frame, and their world transforms,
/// borrowed from wherever the scene keeps them.
pub struct CameraInfo<'a> {
    pub cameras: &'a [crate::camera2::Camera],
    pub transform: &'a [Transform],
}

/// The scene's transform hierarchy flattened for one frame: parents,
/// staleness, the transforms themselves, and the world matrices
/// computed from them.
pub struct TransformGraph<'a> {
    pub parents: Vec<Option<usize>>,
    pub dirty: Vec<bool>,
    pub transforms: &'a mut Vec<Transform>,
    pub matrix: Vec<Matrix4>,
}

/// A camera reduced to what a draw needs: its identity, its
/// orientation, and its combined projection-view matrix.
pub struct CameraIdMat<Id> {
    pub id: Id,
    pub orientation: Orientation,
    pub matrix: Matrix4,
}

} // verus!
