use vec3::vector::distsq;
use vec3::vector::Vec3;

#[test]
fn basic_test() {
    let v1: Vec3<f32> = Vec3::new(0.0, 0.0, 0.0);
    let v2: Vec3<f64> = Default::default();
    let v3: Vec3<f64> = Vec3::new(v1.x as f64, v1.y as f64, v1.z as f64);
    assert_eq!(v2, v3);
    let v4: Vec3<f32> = Vec3::new(v3.x as f32, v3.y as f32, v3.z as f32);
    assert_eq!(v1, v4);

    let v5: Vec3<f32> = Vec3::new(0.0, 0.0, 0.0);
    let v6: Vec3<f32> = Default::default();
    assert_eq!(v5 == v5, true);
    assert_eq!(v5 == v6, true);

    let sc1: f32 = 0.5;
    let sc2: f32 = 4.0;
    let v7: Vec3<f32> = Vec3::new(10.0, 10.0, 10.0);
    let v8: Vec3<f32> = Vec3::new(80.0, 80.0, 80.0);
    assert_eq!((v7 / sc1) * sc2, v8);

    let sc1: f64 = 0.5;
    let sc2: f64 = 4.0;
    let v9: Vec3<f64> = Vec3::new(10.0, 10.0, 10.0);
    let v10: Vec3<f64> = Vec3::new(80.0, 80.0, 80.0);
    assert_eq!((v9 / sc1) * sc2, v10);

    let v11: Vec3<f32> = Vec3::new(80.0, 80.0, 80.0);
    let v12: Vec3<f32> = Vec3::new(80.0, 80.0, 80.0);
    let v13: Vec3<f32> = Vec3::new(160.0, 160.0, 160.0);
    let v14: Vec3<f32> = Default::default();
    assert_eq!(v11 + v12 - v13, v14);

    let v15: Vec3<f64> = Vec3::new(80.0, 80.0, 80.0);
    let v16: Vec3<f64> = Vec3::new(80.0, 80.0, 80.0);
    let v17: Vec3<f64> = Vec3::new(160.0, 160.0, 160.0);
    let v18: Vec3<f64> = Default::default();
    assert_eq!(v15 + v16 - v17, v18);
}

#[test]
fn distsq_test() {
    let v1: Vec3<f32> = Vec3::new(1.0, 2.0, 3.0);
    let v2: Vec3<f32> = Vec3::new(3.0, 2.0, 1.0);
    let result: f32 = 8.0;
    assert_eq!(distsq(&v1, &v2).sqrt(), result.sqrt());

    let v3: Vec3<f64> = Vec3::new(1.0, 2.0, 3.0);
    let v4: Vec3<f64> = Vec3::new(3.0, 2.0, 1.0);
    let result: f64 = 8.0;
    assert_eq!(distsq(&v3, &v4).sqrt(), result.sqrt());
}
