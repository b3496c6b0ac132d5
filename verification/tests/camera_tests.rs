use renderer::camera::Camera;

fn camera_from(translation: [f32; 3], rotation: glam::Quat, fov_y: f32) -> Camera {
    Camera {
        tx: translation[0].to_bits(),
        ty: translation[1].to_bits(),
        tz: translation[2].to_bits(),
        rx: rotation.x.to_bits(),
        ry: rotation.y.to_bits(),
        rz: rotation.z.to_bits(),
        rw: rotation.w.to_bits(),
        sx: 1.0f32.to_bits(),
        sy: 1.0f32.to_bits(),
        sz: 1.0f32.to_bits(),
        fov_y: fov_y.to_bits(),
        near: 0.1f32.to_bits(),
        far: 100.0f32.to_bits(),
    }
}

fn mat_bytes(m: glam::Mat4) -> Vec<u8> {
    m.to_cols_array().iter().flat_map(|f| f.to_le_bytes()).collect()
}

#[test]
fn default_camera_matches_reference_bits() {
    let c = Camera::default();
    assert_eq!(c.tx, 0);
    assert_eq!(c.ty, 0);
    assert_eq!(c.tz, 0);
    assert_eq!(c.rx, 0);
    assert_eq!(c.ry, 0);
    assert_eq!(c.rz, 0);
    assert_eq!(c.rw, 1.0f32.to_bits());
    assert_eq!(c.sx, 1.0f32.to_bits());
    assert_eq!(c.sy, 1.0f32.to_bits());
    assert_eq!(c.sz, 1.0f32.to_bits());
    assert_eq!(c.fov_y, 45.0f32.to_radians().to_bits());
    assert_eq!(c.near, 0.1f32.to_bits());
    assert_eq!(c.far, 100.0f32.to_bits());
}

#[test]
fn view_matrix_matches_glam_reference() {
    let rotation = glam::Quat::from_rotation_y(0.3);
    let c = camera_from([1.0, 2.0, 3.0], rotation, 45.0f32.to_radians());
    let expected = glam::Mat4::from_scale_rotation_translation(
        glam::Vec3::ONE,
        rotation,
        glam::Vec3::new(1.0, 2.0, 3.0),
    )
    .inverse();
    assert_eq!(c.view_matrix(), mat_bytes(expected));
}

#[test]
fn projection_matrix_uses_stored_aspect_ratio_exactly() {
    let c = Camera::default();
    let fov = 45.0f32.to_radians();
    // resize(800, 600) followed by a frame must project at exactly
    // 800 / 600.
    let expected = glam::camera::rh::proj::opengl::perspective(fov, 800.0 / 600.0, 0.1, 100.0);
    assert_eq!(c.projection_matrix(800, 600), mat_bytes(expected));
    // A different viewport gives a different matrix: the size fed in
    // is not ignored.
    assert_ne!(c.projection_matrix(600, 800), mat_bytes(expected));
}

#[test]
fn view_projection_is_projection_times_view() {
    let rotation = glam::Quat::from_rotation_y(-0.7);
    let fov = 60.0f32.to_radians();
    let c = camera_from([0.5, -1.0, 4.0], rotation, fov);
    let view = glam::Mat4::from_scale_rotation_translation(
        glam::Vec3::ONE,
        rotation,
        glam::Vec3::new(0.5, -1.0, 4.0),
    )
    .inverse();
    let proj = glam::camera::rh::proj::opengl::perspective(fov, 1024.0 / 768.0, 0.1, 100.0);
    assert_eq!(c.view_projection_matrix(1024, 768), mat_bytes(proj * view));
}

#[test]
fn translate_moves_in_camera_frame() {
    let rotation = glam::Quat::from_rotation_y(0.4);
    let mut c = camera_from([1.0, 0.0, 0.0], rotation, 45.0f32.to_radians());
    c.translate(0.0f32.to_bits(), 0.0f32.to_bits(), (-0.1f32).to_bits());
    let expected = glam::Vec3::new(1.0, 0.0, 0.0) + rotation * glam::Vec3::new(0.0, 0.0, -0.1);
    assert_eq!(c.tx, expected.x.to_bits());
    assert_eq!(c.ty, expected.y.to_bits());
    assert_eq!(c.tz, expected.z.to_bits());
    // Rotation and projection parameters are untouched.
    assert_eq!(c.rw, rotation.w.to_bits());
    assert_eq!(c.far, 100.0f32.to_bits());
}

#[test]
fn rotate_composes_quaternions() {
    let initial = glam::Quat::from_rotation_y(0.2);
    let mut c = camera_from([0.0, 0.0, 0.0], initial, 45.0f32.to_radians());
    let turn = glam::Quat::from_rotation_y(0.1);
    c.rotate(turn.x.to_bits(), turn.y.to_bits(), turn.z.to_bits(), turn.w.to_bits());
    let expected = turn * initial;
    assert_eq!(c.rx, expected.x.to_bits());
    assert_eq!(c.ry, expected.y.to_bits());
    assert_eq!(c.rz, expected.z.to_bits());
    assert_eq!(c.rw, expected.w.to_bits());
    // Translation is untouched.
    assert_eq!(c.tx, 0);
}
