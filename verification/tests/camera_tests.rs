use quadrender::camera::{Camera, Vec3Milli};

#[test]
fn default_camera_pose() {
    let c = Camera::default();
    assert_eq!(c.eye, Vec3Milli { x: 0, y: 1000, z: 1500 });
    assert_eq!(c.target, Vec3Milli { x: 0, y: 0, z: 0 });
    assert_eq!(c.up, Vec3Milli { x: 0, y: 1000, z: 0 });
    assert_eq!(c.aspect_w, 16);
    assert_eq!(c.aspect_h, 9);
    assert_eq!(c.fovy_mdeg, 45_000);
    assert_eq!(c.znear_milli, 100);
    assert_eq!(c.zfar_milli, 100_000);
}

#[test]
fn set_aspect_updates_only_aspect() {
    let mut c = Camera::default();
    c.set_aspect(800, 450);
    assert_eq!(c.aspect_w, 800);
    assert_eq!(c.aspect_h, 450);
    let d = Camera::default();
    assert_eq!(c.eye, d.eye);
    assert_eq!(c.target, d.target);
    assert_eq!(c.up, d.up);
    assert_eq!(c.fovy_mdeg, d.fovy_mdeg);
    assert_eq!(c.znear_milli, d.znear_milli);
    assert_eq!(c.zfar_milli, d.zfar_milli);
}

#[test]
fn depth_row_exact_for_default_camera() {
    let c = Camera::default();
    let r = c.depth_row();
    // a = zf / (zn - zf), b = zf * zn / (zn - zf), in fixed point.
    assert_eq!(r.a_num, 100_000);
    assert_eq!(r.a_den, -99_900);
    assert_eq!(r.b_num, 10_000_000);
    assert_eq!(r.b_den, -99_900_000);
}

#[test]
fn depth_row_maps_near_to_zero_and_far_to_one() {
    let c = Camera::default();
    let r = c.depth_row();
    // Evaluate the depth fraction the row induces at viewing distance w
    // (thousandths): numerator 1000*a_den*b_num - a_num*b_den*w over
    // denominator a_den*b_den*w.
    let eval = |w: i128| -> (i128, i128) {
        let num = 1000 * r.a_den as i128 * r.b_num as i128 - r.a_num as i128 * r.b_den as i128 * w;
        let den = r.a_den as i128 * r.b_den as i128 * w;
        (num, den)
    };
    let (n_near, d_near) = eval(c.znear_milli as i128);
    assert_eq!(n_near, 0);
    assert!(d_near != 0);
    let (n_far, d_far) = eval(c.zfar_milli as i128);
    assert_eq!(n_far, d_far);
    // A point halfway between the planes lands strictly inside (0, 1).
    let (n_mid, d_mid) = eval(50_050);
    assert!(n_mid * d_mid > 0, "mid depth is positive");
    assert!((n_mid.abs()) < (d_mid.abs()), "mid depth is below one");
}
