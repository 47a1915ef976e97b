//! The perspective camera and its depth mapping.
//!
//! World-space quantities are held in fixed point, in thousandths of a
//! world unit: the scene is a one-unit quad a couple of units away from the
//! eye, so three decimal digits represent every coordinate and clip
//! distance this crate uses exactly.  The aspect ratio is kept as the exact
//! width/height pair reported by the host, never as a rounded quotient.
//!
//! The view-projection matrix itself mixes trigonometry (field of view,
//! view basis) with rational functions of the clip distances.  The
//! trigonometric entries are produced by the host's floating-point math;
//! what this module pins down exactly is the part that decides which depths
//! are visible: the bottom-right two-by-two block of the corrected
//! projection matrix, a rational function of the near and far clip
//! distances alone.

use vstd::prelude::*;

verus! {

/// A position or direction in world space, in thousandths of a unit.
#[derive(Clone, Copy, Debug, PartialEq, Eq, Structural)]
pub struct Vec3Milli {
    pub x: i64,
    pub y: i64,
    pub z: i64,
}

/// The camera's pose and projection parameters.
///
/// `aspect_w` / `aspect_h` carry the surface size whose quotient is the
/// aspect ratio; `fovy_mdeg` is the vertical field of view in thousandths
/// of a degree; the clip distances are in thousandths of a world unit.
#[derive(Clone, Copy, Debug, PartialEq, Eq, Structural)]
pub struct Camera {
    pub eye: Vec3Milli,
    pub target: Vec3Milli,
    pub up: Vec3Milli,
    pub aspect_w: u32,
    pub aspect_h: u32,
    pub fovy_mdeg: u32,
    pub znear_milli: u32,
    pub zfar_milli: u32,
}

/// The bottom-right two-by-two block of the corrected projection matrix.
///
/// In the projected clip coordinates, depth and homogeneous weight of an
/// eye-space point at signed depth `z` are
/// `clip_z = (a_num/a_den) * z + (b_num/b_den)` and `clip_w = -z`,
/// with `z` in world units.  The block below is the one obtained after the
/// fixed depth-correction matrix (mapping the conventional `[-1, 1]` depth
/// range onto `[0, 1]`) has been applied to the raw perspective matrix.
#[derive(Clone, Copy, Debug, PartialEq, Eq, Structural)]
pub struct DepthRow {
    pub a_num: i64,
    pub a_den: i64,
    pub b_num: i64,
    pub b_den: i64,
}

impl Camera {
    /// Near clip distance in thousandths, as a mathematical integer.
    pub open spec fn zn(self) -> int {
        self.znear_milli as int
    }

    /// Far clip distance in thousandths, as a mathematical integer.
    pub open spec fn zf(self) -> int {
        self.zfar_milli as int
    }

    /// Validity of the projection parameters: positive clip distances with
    /// near strictly before far, a positive aspect ratio, and a vertical
    /// field of view strictly between 0 and 180 degrees.  The bound on the
    /// far distance only keeps products of clip distances inside `i64`.
    pub open spec fn well_formed(self) -> bool {
        0 < self.znear_milli
        && self.znear_milli < self.zfar_milli
        && self.zfar_milli <= 1_000_000_000
        && 0 < self.aspect_w
        && 0 < self.aspect_h
        && 0 < self.fovy_mdeg
        && self.fovy_mdeg < 180_000
    }

    /// Numerator of the device depth assigned to a point at viewing
    /// distance `w` (thousandths of a unit, positive in front of the eye),
    /// over the denominator `depth_den`.  The fraction is the depth after
    /// projection, perspective division, and the fixed depth correction.
    pub open spec fn device_depth_num(self, w: int) -> int {
        self.zf() * (w - self.zn())
    }

    /// Shared denominator of `device_depth_num` and `gl_depth_num`.
    pub open spec fn depth_den(self, w: int) -> int {
        w * (self.zf() - self.zn())
    }

    /// Numerator of the uncorrected depth at viewing distance `w`: the
    /// right-handed perspective projection alone maps the visible range
    /// onto `[-1, 1]`, and `gl_depth_num / depth_den` is that raw value.
    pub open spec fn gl_depth_num(self, w: int) -> int {
        (self.zf() + self.zn()) * w - 2 * self.zf() * self.zn()
    }

    /// Update the aspect ratio to the freshly reported surface size,
    /// leaving every other parameter of the camera as it was.
    pub fn set_aspect(&mut self, width: u32, height: u32)
        requires
            0 < width,
            0 < height,
        ensures
            final(self).aspect_w == width,
            final(self).aspect_h == height,
            final(self).eye == old(self).eye,
            final(self).target == old(self).target,
            final(self).up == old(self).up,
            final(self).fovy_mdeg == old(self).fovy_mdeg,
            final(self).znear_milli == old(self).znear_milli,
            final(self).zfar_milli == old(self).zfar_milli,
            old(self).well_formed() ==> final(self).well_formed(),
    {
        self.aspect_w = width;
        self.aspect_h = height;
    }

    /// The exactly representable block of the corrected projection matrix:
    /// `a = zf / (zn - zf)` and `b = zf * zn / (zn - zf)`, both in world
    /// units, as exact fractions of the fixed-point clip distances.
    pub fn depth_row(&self) -> (r: DepthRow)
        requires
            self.well_formed(),
        ensures
            r.a_num == self.zf(),
            r.a_den == self.zn() - self.zf(),
            r.b_num == self.zf() * self.zn(),
            r.b_den == 1000 * (self.zn() - self.zf()),
            r.a_den != 0,
            r.b_den != 0,
    {
        let zn: i64 = self.znear_milli as i64;
        let zf: i64 = self.zfar_milli as i64;
        proof {
            assert(0 < zn * zf <= 1_000_000_000_000_000_000i64) by (nonlinear_arith)
                requires
                    0 < zn <= 1_000_000_000,
                    0 < zf <= 1_000_000_000;
        }
        DepthRow {
            a_num: zf,
            a_den: zn - zf,
            b_num: zf * zn,
            b_den: 1000 * (zn - zf),
        }
    }
}

/// The camera every session starts from: the eye one unit above and one
/// and a half units in front of the origin, looking at the origin with the
/// y axis up, a 16:9 frame, a 45 degree vertical field of view, and clip
/// planes at 0.1 and 100 world units.
pub open spec fn initial_camera() -> Camera {
    Camera {
        eye: Vec3Milli { x: 0, y: 1000, z: 1500 },
        target: Vec3Milli { x: 0, y: 0, z: 0 },
        up: Vec3Milli { x: 0, y: 1000, z: 0 },
        aspect_w: 16,
        aspect_h: 9,
        fovy_mdeg: 45_000,
        znear_milli: 100,
        zfar_milli: 100_000,
    }
}

impl Default for Camera {
    /// The starting pose, `initial_camera`.
    fn default() -> (c: Camera)
        ensures
            c == initial_camera(),
            c.well_formed(),
    {
        Camera {
            eye: Vec3Milli { x: 0, y: 1000, z: 1500 },
            target: Vec3Milli { x: 0, y: 0, z: 0 },
            up: Vec3Milli { x: 0, y: 1000, z: 0 },
            aspect_w: 16,
            aspect_h: 9,
            fovy_mdeg: 45_000,
            znear_milli: 100,
            zfar_milli: 100_000,
        }
    }
}

/// The fixed depth correction is really applied: the corrected depth is
/// `(raw + 1) / 2` of the uncorrected one, as an identity of the two
/// fractions over their shared denominator.
pub proof fn lemma_depth_correction_applied(cam: Camera, w: int)
    requires
        cam.well_formed(),
    ensures
        2 * cam.device_depth_num(w) == cam.gl_depth_num(w) + cam.depth_den(w),
{
    let zn = cam.zn();
    let zf = cam.zf();
    assert(2 * (zf * (w - zn)) == ((zf + zn) * w - 2 * zf * zn) + w * (zf - zn))
        by (nonlinear_arith);
}

/// Every viewing distance between the near and the far clip plane is
/// assigned a device depth inside `[0, 1]`: the denominator is positive and
/// the numerator lies between `0` and the denominator.
pub proof fn lemma_depth_within_unit_range(cam: Camera, w: int)
    requires
        cam.well_formed(),
        cam.zn() <= w <= cam.zf(),
    ensures
        0 < cam.depth_den(w),
        0 <= cam.device_depth_num(w),
        cam.device_depth_num(w) <= cam.depth_den(w),
{
    let zn = cam.zn();
    let zf = cam.zf();
    assert(0 < w * (zf - zn)) by (nonlinear_arith)
        requires
            0 < zn <= w,
            zn < zf;
    assert(0 <= zf * (w - zn)) by (nonlinear_arith)
        requires
            zn <= w,
            0 < zf;
    assert(zf * (w - zn) <= w * (zf - zn)) by (nonlinear_arith)
        requires
            0 < zn <= w <= zf;
}

/// The depth range is covered exactly: a point on the near plane is mapped
/// to depth 0 and a point on the far plane to depth 1.
pub proof fn lemma_depth_endpoints(cam: Camera)
    requires
        cam.well_formed(),
    ensures
        cam.device_depth_num(cam.zn()) == 0,
        cam.device_depth_num(cam.zf()) == cam.depth_den(cam.zf()),
        0 < cam.depth_den(cam.zn()),
        0 < cam.depth_den(cam.zf()),
{
    lemma_depth_within_unit_range(cam, cam.zn());
    lemma_depth_within_unit_range(cam, cam.zf());
}

/// The executable `depth_row` block really encodes the specified depth
/// mapping.  Evaluating the block at viewing distance `w` (thousandths of
/// a unit) gives the fraction with numerator
/// `1000 * a_den * b_num - a_num * b_den * w` and denominator
/// `a_den * b_den * w`; both are the device-depth numerator and
/// denominator scaled by the same positive factor `1000 * (zf - zn)`, so
/// the two fractions are the same rational number.
pub proof fn lemma_depth_row_evaluates(cam: Camera, r: DepthRow, w: int)
    requires
        cam.well_formed(),
        r.a_num == cam.zf(),
        r.a_den == cam.zn() - cam.zf(),
        r.b_num == cam.zf() * cam.zn(),
        r.b_den == 1000 * (cam.zn() - cam.zf()),
    ensures
        1000 * (cam.zf() - cam.zn()) > 0,
        1000 * r.a_den * r.b_num - r.a_num * r.b_den * w == (1000 * (cam.zf() - cam.zn()))
            * cam.device_depth_num(w),
        r.a_den * r.b_den * w == (1000 * (cam.zf() - cam.zn())) * cam.depth_den(w),
{
    let zn = cam.zn();
    let zf = cam.zf();
    let d = zn - zf;
    assert(1000 * d * (zf * zn) - zf * (1000 * d) * w == (1000 * (zf - zn)) * (zf * (w - zn)))
        by (nonlinear_arith)
        requires
            d == zn - zf;
    assert(d * (1000 * d) * w == (1000 * (zf - zn)) * (w * (zf - zn))) by (nonlinear_arith)
        requires
            d == zn - zf;
}

} // verus!
