use cypher::camera;
use cypher::camera2;
use cypher::fbo::Attachment;
use cypher::material::Material;
use cypher::material::Sampler;
use cypher::mesh::Mesh;
use cypher::mesh_render::MeshRender;
use cypher::render::get_transforms_of_objects_in_camera_frustum;
use cypher::render::CameraPass;
use cypher::render::MatrixMeshRender;
use cypher::render::RenderPass;
use cypher::render::ShaderInput;
use cypher::render::TransformMeshRender;
use cypher::resource::ResourceGroup;
use cypher::resource::ResTT;
use cypher::scene::CompIdent;
use cypher::shader::Shader;
use cypher::shader::UniformData;
use cypher::transform::Matrix4;
use cypher::transform::Orientation;
use cypher::transform::Quat;
use cypher::transform::Transform;
use cypher::transform::Vec3;
use cypher::transform::F64_ONE_BITS;
use cypher::world::DataOwners;
use cypher::world::EntityRef;

#[test]
fn material_uniform_upsert() {
    let mut mat = Material::new("mat/stone");
    assert_eq!(mat.name, "mat/stone");
    mat.set_uniform_data("color", UniformData::Int(3));
    mat.set_uniform_data("gloss", UniformData::Float(0x3F800000));
    mat.set_uniform_data("color", UniformData::Int(7));
    assert_eq!(mat.uniforms.len(), 2);
    assert_eq!(mat.uniforms[0].0, "color");
    assert_eq!(mat.uniforms[0].1, UniformData::Int(7));
    assert_eq!(mat.uniforms[1].0, "gloss");
    assert_eq!(mat.uniforms[1].1, UniformData::Float(0x3F800000));
}

#[test]
fn material_adopts_parsed_contents() {
    let mut parsed = Material::new("mat/parsed");
    parsed.shader = Some(ResTT::new("shader/pbr"));
    parsed.textures.push((
        "albedo".to_owned(),
        Sampler::ImageFile(ResTT::new("tex/albedo.png")),
    ));
    parsed.textures.push((
        "scene".to_owned(),
        Sampler::Fbo(ResTT::new("fbo/main"), Attachment::Depth),
    ));
    parsed.set_uniform_data("tint", UniformData::Int(1));

    let mut mat = Material::new("mat/empty");
    mat.apply_read(&parsed);
    assert_eq!(mat.name, "mat/parsed");
    let shader = mat.shader.as_ref().unwrap();
    assert_eq!(shader.name, "shader/pbr");
    assert!(shader.resource.is_none());
    assert_eq!(mat.textures.len(), 2);
    assert_eq!(mat.textures[0].0, "albedo");
    match &mat.textures[0].1 {
        Sampler::ImageFile(h) => {
            assert_eq!(h.name, "tex/albedo.png");
            assert!(h.resource.is_none());
        }
        _ => panic!("expected an image sampler"),
    }
    match &mat.textures[1].1 {
        Sampler::Fbo(h, a) => {
            assert_eq!(h.name, "fbo/main");
            assert_eq!(*a, Attachment::Depth);
        }
        _ => panic!("expected a framebuffer sampler"),
    }
    assert_eq!(mat.uniforms.len(), 1);
    assert_eq!(mat.uniforms[0].0, "tint");
}

#[test]
fn sampler_reports_its_resource_name() {
    let img = Sampler::ImageFile(ResTT::new("tex/wood.png"));
    assert_eq!(img.name(), "tex/wood.png");
    let fb = Sampler::Fbo(ResTT::new("fbo/shadow"), Attachment::Color);
    assert_eq!(fb.name(), "fbo/shadow");
}

#[test]
fn mesh_render_constructors_bind_handles() {
    let mut group = ResourceGroup::new();
    let mr = MeshRender::with_names("mesh/cube", "mat/stone", &mut group);
    assert_eq!(mr.mesh.name, "mesh/cube");
    assert_eq!(mr.mesh.resource, Some(0));
    assert_eq!(mr.material.name, "mat/stone");
    assert_eq!(mr.material.resource, Some(0));

    let only = MeshRender::with_names_only("mesh/a", "mat/b");
    assert_eq!(only.mesh.resource, None);
    assert_eq!(only.material.resource, None);

    let with_mesh = MeshRender::new_with_mesh(Mesh::new_from_file("mesh/own"), "mat/stone", &mut group);
    assert_eq!(with_mesh.mesh.instance.as_ref().unwrap().name, "mesh/own");
    assert_eq!(with_mesh.material.resource, Some(0));

    let with_mat = MeshRender::new_with_mat("mesh/cube", Material::new("mat/own"), &mut group);
    assert_eq!(with_mat.mesh.resource, Some(0));
    assert_eq!(with_mat.material.instance.as_ref().unwrap().name, "mat/own");

    let both = MeshRender::new_with_mesh_and_mat(
        Mesh::new_from_file("m"),
        Material::new("n"),
    );
    assert!(both.mesh.instance.is_some());
    assert!(both.material.instance.is_some());

    let res_pair = MeshRender::new_with_mesh_and_mat_res(
        ResTT::new("mesh/r"),
        ResTT::new("mat/r"),
    );
    assert_eq!(res_pair.mesh.name, "mesh/r");
    assert_eq!(res_pair.material.name, "mat/r");

    let mut mr2 = MeshRender::with_names_only("mesh/i", "mat/i");
    let mesh = mr2.get_or_create_mesh_instance();
    assert_eq!(mesh.name, "mesh/i");
    let copy = mr2.get_mesh();
    assert_eq!(copy.name, "mesh/i");
    assert!(copy.instance.is_some());
}

#[test]
fn render_pass_counts_unready_entries() {
    let mut group = ResourceGroup::new();
    let pass: RenderPass<u32> = RenderPass::new(ResTT::new("shader/flat"));
    assert_eq!(pass.name, "passtest");
    let mut pass = pass;
    let mut cam = CameraPass { matrix: Matrix4::identity(), mmr: Vec::new() };
    cam.add_mmr(MatrixMeshRender::new(
        Matrix4::identity(),
        MeshRender::with_names_only("mesh/cube", "mat/stone"),
    ));
    pass.passes.push((1, cam));

    // First frame: material and mesh are only now requested.
    let missing = pass.draw_frame(&mut group);
    assert_eq!(missing, 1);
    for t in group.material_manager.take_tasks() {
        t.run();
    }
    for t in group.mesh_manager.take_tasks() {
        t.run();
    }
    // Second frame: everything has arrived.
    let missing = pass.draw_frame(&mut group);
    assert_eq!(missing, 0);
}

#[test]
fn shader_input_copies_material_tables() {
    let mut mat = Material::new("mat/in");
    mat.set_uniform_data("k", UniformData::Int(5));
    mat.textures.push(("slot".to_owned(), Sampler::ImageFile(ResTT::new("tex/t.png"))));
    let input = ShaderInput::from_material(&mat);
    assert_eq!(input.uniforms.len(), 1);
    assert_eq!(input.uniforms[0].0, "k");
    assert_eq!(input.textures.len(), 1);
    assert_eq!(input.textures[0].0, "slot");
    let empty = ShaderInput::new();
    assert!(empty.textures.is_empty());
    assert!(empty.uniforms.is_empty());
}

#[test]
fn frustum_selection_keeps_every_object_in_order() {
    let cam = camera2::Camera {
        fovy: 0,
        fovy_base: 0,
        near: 0,
        far: 0,
        aspect: 0,
        width: 0,
        height: 0,
        height_base: 1,
        projection: camera2::Projection::Perspective,
    };
    let mats = [
        (10u32, Matrix4::identity()),
        (20u32, Matrix4::identity()),
        (30u32, Matrix4::identity()),
    ];
    let picked = get_transforms_of_objects_in_camera_frustum(&cam, &Matrix4::identity(), &mats);
    assert_eq!(picked, vec![10, 20, 30]);
}

#[test]
fn transforms_track_their_cached_matrix() {
    let t = Transform::new();
    assert!(!t.dirty);
    assert_eq!(t.scale, Vec3::one());
    assert_eq!(t.orientation, Orientation::Quat(Quat::identity()));

    let mut t2 = Transform::from_position_orientation_scale(
        Vec3 { x: F64_ONE_BITS, y: 0, z: 0 },
        Orientation::new_quat(),
        Vec3::one(),
    );
    assert!(t2.dirty);
    t2.set_local_matrix(Matrix4::identity());
    assert!(!t2.dirty);
    t2.set_as_dirty();
    assert!(t2.dirty);

    let (pos, q) = Transform::new().get_pos_quat();
    assert_eq!(pos, Vec3::zero());
    assert_eq!(q, Quat::identity());

    let tmr = TransformMeshRender::with_mesh(MeshRender::with_names_only("m", "n"));
    assert!(!tmr.transform.dirty);
    let mmr = tmr.to_mmr();
    assert_eq!(mmr.mr.mesh.name, "m");
}

#[test]
fn orientation_constructors_keep_their_payload() {
    let q = Quat { x: 1, y: 2, z: 3, w: 4 };
    assert_eq!(Orientation::new_with_quat(&q), Orientation::Quat(q));
    let v = Vec3 { x: 5, y: 6, z: 7 };
    assert_eq!(Orientation::new_with_angle_xyz(&v), Orientation::AngleXYZ(v));
    let mut o = Orientation::new_quat();
    assert_eq!(o.as_quat(), Quat::identity());
    o.set_with_quat(q);
    assert_eq!(o.as_quat(), q);
}

#[test]
fn shader_sources_move_it_forward() {
    let mut sh = Shader::new("shader/flat");
    assert_eq!(sh.state, 0);
    sh.set_vert_frag("vert-src".to_owned(), "frag-src".to_owned());
    assert_eq!(sh.state, cypher::shader::SHADER_STATE_SOURCES_SET);
    assert_eq!(sh.vert.as_deref(), Some("vert-src"));
    assert_eq!(sh.frag.as_deref(), Some("frag-src"));
}

#[test]
fn projection_carries_over_between_camera_generations() {
    let old = camera::Projection::Orthographic;
    assert_eq!(
        camera2::Projection::from_old_camera_data(&old),
        camera2::Projection::Orthographic
    );
    let old = camera::Projection::Perspective;
    assert_eq!(
        camera2::Projection::from_old_camera_data(&old),
        camera2::Projection::Perspective
    );
}

#[test]
fn entity_refs_carry_id_and_index() {
    let e = EntityRef::new(4, 9);
    let m = e.to_mut();
    assert_eq!(m.id, 4);
    let m2 = cypher::world::EntityMut::new(4, 9);
    assert_eq!(m, m2);
    let owners = DataOwners::new();
    assert!(owners.mesh_render.is_empty());
    assert!(owners.human.is_empty());
}

#[test]
fn comp_ident_distinguishes_kinds() {
    let named = CompIdent::Named("player".to_owned());
    match named {
        CompIdent::Named(n) => assert_eq!(n, "player"),
        CompIdent::Enemy => panic!("wrong kind"),
    }
    assert!(matches!(CompIdent::Enemy, CompIdent::Enemy));
}
