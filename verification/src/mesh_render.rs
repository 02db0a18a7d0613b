//! The pairing a drawable object carries: a handle to its mesh and a
//! handle to its material.

use vstd::prelude::*;

use crate::material::Material;
use crate::mesh::Mesh;
use crate::resource::contains_name;
use crate::resource::name_index;
use crate::resource::names_after_request;
use crate::resource::ResourceGroup;
use crate::resource::ResTT;

verus! {

#[derive(Clone, Debug)]
pub struct MeshRender {
    pub mesh: ResTT<Mesh>,
    pub material: ResTT<Material>,
}

impl Default for MeshRender {
    /// Placeholder handles, to be rebound before drawing.
    fn default() -> (r: MeshRender)
        ensures
            r.mesh.name@ == "no_mesh"@,
            r.mesh.resource is None,
            r.mesh.instance is None,
            r.mesh.instance_managed is None,
            r.material.name@ == "no_mat"@,
            r.material.resource is None,
            r.material.instance is None,
            r.material.instance_managed is None,
    {
        MeshRender { mesh: ResTT::new("no_mesh"), material: ResTT::new("no_mat") }
    }
}

impl MeshRender {
    /// A private mesh instance, created on the calling thread if the
    /// handle does not own one yet.
    pub fn get_or_create_mesh_instance(&mut self) -> (r: &mut Mesh)
        ensures
            final(self).material == old(self).material,
            final(self).mesh.instance == Some(*final(r)),
            old(self).mesh.instance matches Some(u) ==> *r == u,
    {
        self.mesh.get_or_create_instance()
    }

    /// A duplicate of the mesh handle (cached index and any private
    /// instance included).
    pub fn get_mesh(&self) -> (r: ResTT<Mesh>)
        ensures
            r == self.mesh,
    {
        let instance = match &self.mesh.instance {
            Some(m) => Some(Mesh { name: m.name.clone(), state: m.state }),
            None => None,
        };
        ResTT {
            name: self.mesh.name.clone(),
            resource: self.mesh.resource,
            instance,
            instance_managed: self.mesh.instance_managed,
        }
    }

    /// Handles bound through the group's managers on the synchronous
    /// path: both resources exist (and their slots are `Using`) when
    /// this returns on fresh names.
    pub fn with_names(mesh: &str, material: &str, resource: &mut ResourceGroup) -> (r: MeshRender)
        requires
            old(resource).wf(),
        ensures
            final(resource).wf(),
            r.mesh.name@ == mesh@,
            r.mesh.instance is None,
            r.mesh.instance_managed is None,
            r.mesh.resource matches Some(i) && i < final(resource).mesh_manager.slot_count()
                && i as int == name_index(final(resource).mesh_manager.names_view(), mesh@),
            r.material.name@ == material@,
            r.material.instance is None,
            r.material.instance_managed is None,
            r.material.resource matches Some(i) && i < final(resource).material_manager.slot_count() && i as int == name_index(
                final(resource).material_manager.names_view(),
                material@,
            ),
            final(resource).mesh_manager.names_view() =~= names_after_request(
                old(resource).mesh_manager.names_view(),
                mesh@,
            ),
            final(resource).material_manager.names_view() =~= names_after_request(
                old(resource).material_manager.names_view(),
                material@,
            ),
            contains_name(old(resource).mesh_manager.names_view(), mesh@) ==> final(resource).mesh_manager == old(resource).mesh_manager,
            !contains_name(old(resource).mesh_manager.names_view(), mesh@) ==> final(resource).mesh_manager.slots()[name_index(
                final(resource).mesh_manager.names_view(),
                mesh@,
            )] is Using,
            contains_name(old(resource).material_manager.names_view(), material@) ==> final(resource).material_manager == old(resource).material_manager,
            !contains_name(old(resource).material_manager.names_view(), material@) ==> final(resource).material_manager.slots()[name_index(
                final(resource).material_manager.names_view(),
                material@,
            )] is Using,
            final(resource).shader_manager == old(resource).shader_manager,
            final(resource).texture_manager == old(resource).texture_manager,
            final(resource).fbo_manager == old(resource).fbo_manager,
            final(resource).armature_manager == old(resource).armature_manager,
    {
        MeshRender {
            mesh: resource.mesh_manager.get_handle_instant(mesh),
            material: resource.material_manager.get_handle_instant(material),
        }
    }

    /// Unbound handles carrying only the names.
    pub fn with_names_only(mesh: &str, material: &str) -> (r: MeshRender)
        ensures
            r.mesh.name@ == mesh@,
            r.mesh.resource is None,
            r.mesh.instance is None,
            r.mesh.instance_managed is None,
            r.material.name@ == material@,
            r.material.resource is None,
            r.material.instance is None,
            r.material.instance_managed is None,
    {
        MeshRender { mesh: ResTT::new(mesh), material: ResTT::new(material) }
    }

    pub fn new_with_mesh_res(mesh: ResTT<Mesh>, material: &str, resource: &mut ResourceGroup) -> (r:
        MeshRender)
        requires
            old(resource).wf(),
        ensures
            final(resource).wf(),
            r.mesh == mesh,
            r.material.name@ == material@,
            r.material.instance is None,
            r.material.instance_managed is None,
            r.material.resource matches Some(i) && i < final(resource).material_manager.slot_count() && i as int == name_index(
                final(resource).material_manager.names_view(),
                material@,
            ),
            final(resource).material_manager.names_view() =~= names_after_request(
                old(resource).material_manager.names_view(),
                material@,
            ),
            contains_name(old(resource).material_manager.names_view(), material@) ==> final(resource).material_manager == old(resource).material_manager,
            !contains_name(old(resource).material_manager.names_view(), material@) ==> final(resource).material_manager.slots()[name_index(
                final(resource).material_manager.names_view(),
                material@,
            )] is Using,
            final(resource).mesh_manager == old(resource).mesh_manager,
    {
        MeshRender { mesh, material: resource.material_manager.get_handle_instant(material) }
    }

    /// The mesh value itself becomes a private instance of the handle.
    pub fn new_with_mesh(mesh: Mesh, material: &str, resource: &mut ResourceGroup) -> (r:
        MeshRender)
        requires
            old(resource).wf(),
        ensures
            final(resource).wf(),
            r.mesh.name@ == "none"@,
            r.mesh.instance == Some(mesh),
            r.mesh.resource is None,
            r.mesh.instance_managed is None,
            r.material.name@ == material@,
            r.material.instance is None,
            r.material.instance_managed is None,
            r.material.resource matches Some(i) && i < final(resource).material_manager.slot_count() && i as int == name_index(
                final(resource).material_manager.names_view(),
                material@,
            ),
            final(resource).material_manager.names_view() =~= names_after_request(
                old(resource).material_manager.names_view(),
                material@,
            ),
            !contains_name(old(resource).material_manager.names_view(), material@) ==> final(resource).material_manager.slots()[name_index(
                final(resource).material_manager.names_view(),
                material@,
            )] is Using,
            final(resource).mesh_manager == old(resource).mesh_manager,
    {
        MeshRender {
            mesh: ResTT::new_with_instance("none", mesh),
            material: resource.material_manager.get_handle_instant(material),
        }
    }

    /// The material value itself becomes a private instance.
    pub fn new_with_mat(mesh: &str, material: Material, resource: &mut ResourceGroup) -> (r:
        MeshRender)
        requires
            old(resource).wf(),
        ensures
            final(resource).wf(),
            r.mesh.name@ == mesh@,
            r.mesh.instance is None,
            r.mesh.instance_managed is None,
            r.mesh.resource matches Some(i) && i < final(resource).mesh_manager.slot_count()
                && i as int == name_index(final(resource).mesh_manager.names_view(), mesh@),
            final(resource).mesh_manager.names_view() =~= names_after_request(
                old(resource).mesh_manager.names_view(),
                mesh@,
            ),
            !contains_name(old(resource).mesh_manager.names_view(), mesh@) ==> final(resource).mesh_manager.slots()[name_index(
                final(resource).mesh_manager.names_view(),
                mesh@,
            )] is Using,
            r.material.name@ == "no_name"@,
            r.material.resource is None,
            r.material.instance == Some(material),
            r.material.instance_managed is None,
            final(resource).material_manager == old(resource).material_manager,
    {
        MeshRender {
            mesh: resource.mesh_manager.get_handle_instant(mesh),
            material: ResTT::new_with_instance("no_name", material),
        }
    }

    pub fn new_with_mat_res(mesh: &str, material: ResTT<Material>, resource: &mut ResourceGroup)
        -> (r: MeshRender)
        requires
            old(resource).wf(),
        ensures
            final(resource).wf(),
            r.mesh.name@ == mesh@,
            r.mesh.instance is None,
            r.mesh.instance_managed is None,
            r.mesh.resource matches Some(i) && i < final(resource).mesh_manager.slot_count()
                && i as int == name_index(final(resource).mesh_manager.names_view(), mesh@),
            final(resource).mesh_manager.names_view() =~= names_after_request(
                old(resource).mesh_manager.names_view(),
                mesh@,
            ),
            !contains_name(old(resource).mesh_manager.names_view(), mesh@) ==> final(resource).mesh_manager.slots()[name_index(
                final(resource).mesh_manager.names_view(),
                mesh@,
            )] is Using,
            r.material == material,
            final(resource).material_manager == old(resource).material_manager,
    {
        MeshRender { mesh: resource.mesh_manager.get_handle_instant(mesh), material }
    }

    pub fn new_with_mesh_and_mat_res(mesh: ResTT<Mesh>, material: ResTT<Material>) -> (r:
        MeshRender)
        ensures
            r.mesh == mesh,
            r.material == material,
    {
        MeshRender { mesh, material }
    }

    /// Both values become private instances: a fully self-contained
    /// renderable.
    pub fn new_with_mesh_and_mat(mesh: Mesh, material: Material) -> (r: MeshRender)
        ensures
            r.mesh.name@ == "none"@,
            r.mesh.resource is None,
            r.mesh.instance == Some(mesh),
            r.mesh.instance_managed is None,
            r.material.name@ == "none"@,
            r.material.resource is None,
            r.material.instance == Some(material),
            r.material.instance_managed is None,
    {
        MeshRender {
            mesh: ResTT::new_with_instance("none", mesh),
            material: ResTT::new_with_instance("none", material),
        }
    }
}

} // verus!
