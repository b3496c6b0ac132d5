//! The transform provider: camera pose and projection parameters, and
//! the view-projection matrix the render path feeds to the uniform
//! buffer.
//!
//! Float arithmetic is outside what the verifier can reason about, so
//! every float-valued camera field is kept as its 32-bit IEEE-754 bit
//! pattern, and the matrix math is delegated to glam behind trusted
//! wrappers whose results are named, opaque functions of the camera
//! fields and the viewport size alone.

use vstd::prelude::*;

verus! {

/// Bit pattern of 1.0 as a 32-bit float.
pub const ONE_F32_BITS: u32 = 0x3F80_0000;

/// Bit pattern of 45 degrees in radians (the default vertical field of
/// view) as a 32-bit float.
pub const DEFAULT_FOV_Y_BITS: u32 = 0x3F49_0FDB;

/// Bit pattern of 0.1 (the default near plane) as a 32-bit float.
pub const DEFAULT_NEAR_BITS: u32 = 0x3DCC_CCCD;

/// Bit pattern of 100.0 (the default far plane) as a 32-bit float.
pub const DEFAULT_FAR_BITS: u32 = 0x42C8_0000;

/// The mathematical content of a camera: every field the transform
/// math reads, as plain 32-bit values.
pub struct CameraView {
    pub tx: u32,
    pub ty: u32,
    pub tz: u32,
    pub rx: u32,
    pub ry: u32,
    pub rz: u32,
    pub rw: u32,
    pub sx: u32,
    pub sy: u32,
    pub sz: u32,
    pub fov_y: u32,
    pub near: u32,
    pub far: u32,
}

/// A camera pose (translation, rotation quaternion, scale) and
/// projection parameters (vertical field of view, near and far planes),
/// each held as the bit pattern of a 32-bit float.
pub struct Camera {
    pub tx: u32,
    pub ty: u32,
    pub tz: u32,
    pub rx: u32,
    pub ry: u32,
    pub rz: u32,
    pub rw: u32,
    pub sx: u32,
    pub sy: u32,
    pub sz: u32,
    pub fov_y: u32,
    pub near: u32,
    pub far: u32,
}

impl View for Camera {
    type V = CameraView;

    open spec fn view(&self) -> CameraView {
        CameraView {
            tx: self.tx,
            ty: self.ty,
            tz: self.tz,
            rx: self.rx,
            ry: self.ry,
            rz: self.rz,
            rw: self.rw,
            sx: self.sx,
            sy: self.sy,
            sz: self.sz,
            fov_y: self.fov_y,
            near: self.near,
            far: self.far,
        }
    }
}

/// The default camera: identity pose, unit scale, 45-degree vertical
/// field of view, near plane 0.1, far plane 100.
pub open spec fn default_camera() -> CameraView {
    CameraView {
        tx: 0,
        ty: 0,
        tz: 0,
        rx: 0,
        ry: 0,
        rz: 0,
        rw: ONE_F32_BITS,
        sx: ONE_F32_BITS,
        sy: ONE_F32_BITS,
        sz: ONE_F32_BITS,
        fov_y: DEFAULT_FOV_Y_BITS,
        near: DEFAULT_NEAR_BITS,
        far: DEFAULT_FAR_BITS,
    }
}

/// The 64 bytes of the view matrix glam computes for a camera: the
/// inverse of its scale-rotation-translation transform.
pub uninterp spec fn view_matrix_of(cam: CameraView) -> Seq<u8>;

/// The 64 bytes of the perspective projection matrix glam computes for
/// a camera at the aspect ratio width / height.
pub uninterp spec fn projection_matrix_of(cam: CameraView, width: u32, height: u32) -> Seq<u8>;

/// The 64 bytes of the product of two column-major matrices, as glam
/// computes it.
pub uninterp spec fn matrix_product_of(a: Seq<u8>, b: Seq<u8>) -> Seq<u8>;

/// The translation components after moving a camera by a delta rotated
/// into its own frame.
pub uninterp spec fn translated_by(cam: CameraView, dx: u32, dy: u32, dz: u32) -> (u32, u32, u32);

/// The rotation components after composing a rotation onto a camera's
/// orientation.
pub uninterp spec fn rotated_by(cam: CameraView, qx: u32, qy: u32, qz: u32, qw: u32) -> (
    u32,
    u32,
    u32,
    u32,
);

impl Default for Camera {
    /// The default camera pose and projection parameters.
    fn default() -> (r: Camera)
        ensures
            r@ == default_camera(),
    {
        Camera {
            tx: 0,
            ty: 0,
            tz: 0,
            rx: 0,
            ry: 0,
            rz: 0,
            rw: ONE_F32_BITS,
            sx: ONE_F32_BITS,
            sy: ONE_F32_BITS,
            sz: ONE_F32_BITS,
            fov_y: DEFAULT_FOV_Y_BITS,
            near: DEFAULT_NEAR_BITS,
            far: DEFAULT_FAR_BITS,
        }
    }
}

impl Camera {
    /// Relies on glam's Mat4::from_scale_rotation_translation and
    /// Mat4::inverse: the view matrix is a function of the pose fields
    /// alone, and a 4x4 float matrix is 64 bytes.
    #[verifier::external_body]
    pub fn view_matrix(&self) -> (r: Vec<u8>)
        ensures
            r@ == view_matrix_of(self@),
            r@.len() == 64,
    {
        let v = glam::Mat4::from_scale_rotation_translation(
            glam::Vec3::from_array(bytemuck::cast([self.sx, self.sy, self.sz])),
            glam::Quat::from_array(bytemuck::cast([self.rx, self.ry, self.rz, self.rw])),
            glam::Vec3::from_array(bytemuck::cast([self.tx, self.ty, self.tz])),
        ).inverse();
        bytemuck::cast_slice(&v.to_cols_array()).to_vec()
    }

    /// Relies on glam's OpenGL-convention perspective projection: the
    /// matrix is a function of the projection fields and of the aspect
    /// ratio width / height alone, and a 4x4 float matrix is 64 bytes.
    /// The aspect-ratio division itself is float arithmetic and so also
    /// stands here, outside what is verified.
    #[verifier::external_body]
    pub fn projection_matrix(&self, width: u32, height: u32) -> (r: Vec<u8>)
        requires
            width > 0,
            height > 0,
        ensures
            r@ == projection_matrix_of(self@, width, height),
            r@.len() == 64,
    {
        let wh = glam::UVec2::new(width, height).as_vec2();
        let p = glam::camera::rh::proj::opengl::perspective(
            bytemuck::cast(self.fov_y),
            wh.x / wh.y,
            bytemuck::cast(self.near),
            bytemuck::cast(self.far),
        );
        bytemuck::cast_slice(&p.to_cols_array()).to_vec()
    }

    /// The combined view-projection matrix for the given viewport size:
    /// the projection matrix times the view matrix.
    pub fn view_projection_matrix(&self, width: u32, height: u32) -> (r: Vec<u8>)
        requires
            width > 0,
            height > 0,
        ensures
            r@ == view_projection_of(self@, width, height),
            r@.len() == 64,
    {
        let p = self.projection_matrix(width, height);
        let v = self.view_matrix();
        mat4_mul_bytes(&p, &v)
    }

    /// Relies on glam's vector and quaternion arithmetic: moves the
    /// pose by the delta (given as float bit patterns) rotated into the
    /// camera's frame; only the translation changes.
    #[verifier::external_body]
    pub fn translate(&mut self, dx: u32, dy: u32, dz: u32)
        ensures
            ({
                let t = translated_by(old(self)@, dx, dy, dz);
                final(self)@ == (CameraView { tx: t.0, ty: t.1, tz: t.2, ..old(self)@ })
            }),
    {
        let r = glam::Quat::from_array(bytemuck::cast([self.rx, self.ry, self.rz, self.rw]));
        let t = glam::Vec3::from_array(bytemuck::cast([self.tx, self.ty, self.tz]));
        let d = glam::Vec3::from_array(bytemuck::cast([dx, dy, dz]));
        let b: [u32; 3] = bytemuck::cast((t + r * d).to_array());
        self.tx = b[0];
        self.ty = b[1];
        self.tz = b[2];
    }

    /// Relies on glam's quaternion product: composes a rotation (given
    /// as float bit patterns) onto the camera's orientation; only the
    /// rotation changes.
    #[verifier::external_body]
    pub fn rotate(&mut self, qx: u32, qy: u32, qz: u32, qw: u32)
        ensures
            ({
                let q = rotated_by(old(self)@, qx, qy, qz, qw);
                final(self)@ == (CameraView {
                    rx: q.0,
                    ry: q.1,
                    rz: q.2,
                    rw: q.3,
                    ..old(self)@
                })
            }),
    {
        let q = glam::Quat::from_array(bytemuck::cast([qx, qy, qz, qw]));
        let r = glam::Quat::from_array(bytemuck::cast([self.rx, self.ry, self.rz, self.rw]));
        let b: [u32; 4] = bytemuck::cast((q * r).to_array());
        self.rx = b[0];
        self.ry = b[1];
        self.rz = b[2];
        self.rw = b[3];
    }
}

/// The view-projection matrix the render path writes to the uniform
/// buffer: projection at the given viewport size, times the view.
pub open spec fn view_projection_of(cam: CameraView, width: u32, height: u32) -> Seq<u8> {
    matrix_product_of(projection_matrix_of(cam, width, height), view_matrix_of(cam))
}

/// Relies on glam's Mat4 column-major layout and matrix product: the
/// result is a function of the two operands alone, and 64 bytes. The
/// operands are read with an unaligned copy, so no alignment of the
/// byte vectors is assumed; the length demand is covered by the
/// preconditions.
#[verifier::external_body]
fn mat4_mul_bytes(a: &Vec<u8>, b: &Vec<u8>) -> (r: Vec<u8>)
    requires
        a@.len() == 64,
        b@.len() == 64,
    ensures
        r@ == matrix_product_of(a@, b@),
        r@.len() == 64,
{
    let m = glam::Mat4::from_cols_array(&bytemuck::pod_read_unaligned(a.as_slice()))
        * glam::Mat4::from_cols_array(&bytemuck::pod_read_unaligned(b.as_slice()));
    bytemuck::cast_slice(&m.to_cols_array()).to_vec()
}

} // verus!
