use hatch_math::{load_world, Entity, Mesh, Octonion, Quaternion, World};

fn sample_mesh() -> Mesh {
    Mesh::from_tobj_to_mesh(
        &vec![1, 2, 3, -4, 5, -6, 0, 0, 7],
        &vec![0, 0, 1, 0, 1, 0, 1, 0, 0],
        &vec![0, 1, 2],
        [10, 20, 30],
        2,
    )
}

#[test]
fn mesh_from_flat_buffers() {
    let m = sample_mesh();
    assert_eq!(m.positions, vec![[1, 2, 3], [-4, 5, -6], [0, 0, 7]]);
    assert_eq!(m.normals, vec![[0, 0, 1], [0, 1, 0], [1, 0, 0]]);
    assert_eq!(m.indices, vec![0, 1, 2]);
    assert_eq!(m.offset, [10, 20, 30]);
    assert_eq!(m.scale, 2);
}

#[test]
fn empty_mesh() {
    let m = Mesh::new();
    assert!(m.positions.is_empty());
    assert!(m.normals.is_empty());
    assert!(m.indices.is_empty());
    assert_eq!(m.scale, 0);
    assert_eq!(m.offset, [0, 0, 0]);
    let e = Mesh::from_tobj_to_mesh(&vec![], &vec![], &vec![], [0, 0, 0], 0);
    assert_eq!(e, m);
}

#[test]
fn mesh_add_points() {
    let mut m = sample_mesh();
    m.add_points(vec![[7, 8, 9]]);
    assert_eq!(m.positions, vec![[1, 2, 3], [-4, 5, -6], [0, 0, 7], [7, 8, 9]]);
    assert_eq!(m.normals.len(), 3);
}

#[test]
fn identity_rotation_keeps_positions() {
    let mut m = sample_mesh();
    let before = m.clone();
    m.rotate(Quaternion::new([1, 0, 0, 0]));
    assert_eq!(m, before);
}

#[test]
fn half_turn_about_z() {
    let mut m = sample_mesh();
    m.rotate(Quaternion::new([0, 0, 0, 1]));
    assert_eq!(m.positions, vec![[-1, -2, 3], [4, -5, -6], [0, 0, 7]]);
    assert_eq!(m.normals, sample_mesh().normals);
}

#[test]
fn unnormalised_rotor_scales_by_its_squared_norm() {
    let mut m = Mesh::new();
    m.add_points(vec![[1, 0, 0]]);
    // [1, 0, 0, 1] is a quarter turn about z with squared norm 2.
    m.rotate(Quaternion::new([1, 0, 0, 1]));
    assert_eq!(m.positions, vec![[0, 2, 0]]);
}

#[test]
fn entity_new_and_default() {
    let e = Entity::new();
    assert_eq!(e.pos, Octonion::one());
    assert_eq!(e.orient, Quaternion::zero());
    assert_eq!(e.model, Mesh::new());
    assert_eq!(e.len, 0);
    assert_eq!(Entity::default(), e);
}

#[test]
fn entity_add_model_syncs_len() {
    let mut e = Entity::new();
    e.add_model(sample_mesh());
    assert_eq!(e.len, 3);
    assert_eq!(e.len, e.model.positions.len());
    assert_eq!(e.as_vec(), &sample_mesh().positions);
    e.add_model(Mesh::new());
    assert_eq!(e.len, 0);
}

#[test]
fn entity_rotate_turns_first_half() {
    let mut e = Entity::new();
    e.orient = Quaternion::new([0, 0, 0, 1]);
    e.rotate();
    assert_eq!(e.pos.q1, Quaternion::new([1, -1, -1, 1]));
    assert_eq!(e.pos.q2, Quaternion::one());
    assert_eq!(e.pos_as_arr(), [1, -1, -1, 1, 1, 1, 1, 1]);
}

#[test]
fn entity_zero_orientation_collapses_position() {
    let mut e = Entity::new();
    e.rotate();
    assert_eq!(e.pos.q1, Quaternion::zero());
}

#[test]
fn entity_set_scale() {
    let mut e = Entity::new();
    e.add_model(sample_mesh());
    let e = e.set_scale(5);
    assert_eq!(e.model.scale, 5);
    assert_eq!(e.len, 3);
}

#[test]
fn world_lifecycle() {
    let mut w = World::new();
    assert!(w.objects.is_empty());
    assert_eq!(w.origin, Quaternion::zero());
    let r = w.add_object(Entity::new());
    assert!(r.objects.is_empty());
    w.load_entities(vec![Entity::new(), Entity::new()]);
    assert_eq!(w.objects.len(), 2);
    w.save_world();
    assert!(load_world().objects.is_empty());
}

#[test]
fn mutating_methods_hand_back_the_value() {
    let mut q = Quaternion::new([1, 2, 3, 4]);
    assert_eq!(*q.conj_mut(), Quaternion::new([1, -2, -3, -4]));
    assert_eq!(*q.inv_mut(), Quaternion::new([-1, 2, 3, 4]));
    let mut o = Octonion::new([1, 2, 3, 4, 5, 6, 7, 8]);
    assert_eq!(o.conj_mut().as_array(), [1, -2, -3, -4, -5, -6, -7, -8]);
    let mut m = Mesh::new();
    assert_eq!(m.add_points(vec![[1, 1, 1]]).positions.len(), 1);
    let mut e = Entity::new();
    assert_eq!(e.add_model(sample_mesh()).len, 3);
    e.orient = Quaternion::new([1, 0, 0, 0]);
    assert_eq!(e.rotate().pos, Octonion::one());
    let mut w = World::new();
    assert_eq!(w.load_entities(vec![Entity::new()]).objects.len(), 1);
}
