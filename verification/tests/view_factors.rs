use glam::Vec3;
use monte_carlo_view_factors::energy::Fraction;
use monte_carlo_view_factors::path::Step;
use monte_carlo_view_factors::scene::{Reflection, Scene};
use monte_carlo_view_factors::scalar::Scalar;
use monte_carlo_view_factors::surfaces::{
    cone, cylinder, disk, rectangle, sphere, Collider, Crossing, Surface,
};
use monte_carlo_view_factors::{Hit, HitRecord, Normal, Point, Ray, SurfaceSample, TraceRecord};
use rand::rngs::StdRng;
use rand::{Rng, SeedableRng};

// The arithmetic on coordinates: what each shape does with a ray in its own
// frame, and how points and directions are drawn.

fn at(ray: &Ray, t: f32) -> Vec3 {
    ray.origin.0 + t * ray.direction
}

fn scalar(x: f32) -> Scalar {
    Scalar::from_bits(x.to_bits())
}

fn crossing(ray: &Ray, t: f32) -> Crossing {
    Crossing { t: scalar(t), position: Point(at(ray, t)) }
}

fn unit(v: Vec3) -> Normal {
    Normal::try_new(v).expect("a normal has length one")
}

fn sphere_intersect(ray: &Ray) -> Option<Hit> {
    let oc = ray.origin.0;
    let a = ray.direction.length().powi(2);
    let half_b = oc.dot(ray.direction);
    let c = oc.length().powi(2) - 1.0;
    let discriminant = half_b * half_b - a * c;
    let sqrtd = discriminant.sqrt();
    let near = (-half_b - sqrtd) / a;
    let far = (-half_b + sqrtd) / a;
    sphere::intersect(scalar(discriminant), crossing(ray, near), crossing(ray, far))
}

fn sphere_sample(rng: &mut impl Rng) -> SurfaceSample {
    let phi = rng.gen_range(0.0..std::f32::consts::TAU);
    let u: f32 = rng.gen_range(-1.0..1.0);
    let x = phi.cos() * (1.0f32 - u * u).sqrt();
    let y = phi.sin() * (1.0f32 - u * u).sqrt();
    let n = Vec3::new(x, y, u);
    SurfaceSample { normal: unit(n), position: Point(n) }
}

fn disk_intersect(ray: &Ray) -> Option<Hit> {
    let t = -ray.origin.0.z / ray.direction.z;
    disk::intersect(scalar(ray.direction.z), crossing(ray, t))
}

fn disk_sample(rng: &mut impl Rng) -> SurfaceSample {
    let theta = rng.gen_range(0.0..std::f32::consts::TAU);
    let r = (rng.gen_range(0.0..1.0) as f32).sqrt();
    SurfaceSample {
        position: Point(Vec3::new(r * theta.cos(), r * theta.sin(), 0.0)),
        normal: unit(Vec3::Z),
    }
}

fn rectangle_intersect(ray: &Ray) -> Option<Hit> {
    let t = -ray.origin.0.z / ray.direction.z;
    rectangle::intersect(scalar(ray.direction.z), crossing(ray, t))
}

fn rectangle_sample(rng: &mut impl Rng) -> SurfaceSample {
    let x = rng.gen_range(-0.5..0.5);
    let y = rng.gen_range(-0.5..0.5);
    SurfaceSample { position: Point(Vec3::new(x, y, 0.0)), normal: unit(Vec3::Z) }
}

fn cylinder_intersect(ray: &Ray) -> Option<Hit> {
    let d = ray.direction;
    let o = ray.origin.0;
    let a = d.x.powi(2) + d.y.powi(2);
    let b: f32 = 2.0 * (o.x * d.x + o.y * d.y);
    let c = o.x.powi(2) + o.y.powi(2) - 1.0;
    let discriminant = b.powi(2) - 4.0 * a * c;
    let near = (-b - discriminant.sqrt()) / (2.0 * a);
    let far = (-b + discriminant.sqrt()) / (2.0 * a);
    cylinder::intersect(scalar(a), scalar(discriminant), crossing(ray, near), crossing(ray, far))
}

fn cylinder_sample(rng: &mut impl Rng) -> SurfaceSample {
    let theta = rng.gen_range(0.0..std::f32::consts::TAU);
    let x = theta.cos();
    let y = theta.sin();
    let z = rng.gen_range(-0.5..0.5);
    SurfaceSample { position: Point(Vec3::new(x, y, z)), normal: unit(Vec3::new(x, y, 0.0)) }
}

fn cone_intersect(ray: &Ray) -> Option<Hit> {
    let Vec3 { x: x0, y: y0, z: z0 } = ray.origin.0;
    let Vec3 { x: v_x, y: v_y, z: v_z } = ray.direction;
    let a = v_z.powi(2) - v_x.powi(2) - v_y.powi(2);
    let b = 2.0 * (z0 * v_z - v_z - x0 * v_x - y0 * v_y);
    let c = z0.powi(2) - 2. * z0 + 1. - x0.powi(2) - y0.powi(2);
    let discriminant = b.powi(2) - 4.0 * a * c;
    let t1 = (-b - discriminant.sqrt()) / (2.0 * a);
    let t2 = (-b + discriminant.sqrt()) / (2.0 * a);
    cone::intersect(scalar(a), scalar(discriminant), crossing(ray, t1), crossing(ray, t2))
}

fn cone_sample(rng: &mut impl Rng) -> SurfaceSample {
    let theta = rng.gen_range(0.0..std::f32::consts::TAU);
    let r = (rng.gen_range(0.0..1.0) as f32).sqrt();
    let x = r * theta.cos();
    let y = r * theta.sin();
    let z = 1. - r;
    let normal = Vec3::new(x, y, 1. - z).normalize();
    SurfaceSample { position: Point(Vec3::new(x, y, z)), normal: unit(normal) }
}

fn collide(collider: Collider, ray: &Ray) -> Option<Hit> {
    match collider {
        Collider::Sphere => sphere_intersect(ray),
        Collider::Disk => disk_intersect(ray),
        Collider::Cylinder => cylinder_intersect(ray),
        Collider::Rectangle => rectangle_intersect(ray),
        Collider::Cone => cone_intersect(ray),
    }
}

fn draw(collider: Collider, rng: &mut impl Rng) -> SurfaceSample {
    match collider {
        Collider::Sphere => sphere_sample(rng),
        Collider::Disk => disk_sample(rng),
        Collider::Cylinder => cylinder_sample(rng),
        Collider::Rectangle => rectangle_sample(rng),
        Collider::Cone => cone_sample(rng),
    }
}

fn to_diffuse_ray(normal: &Normal, rng: &mut impl Rng) -> Vec3 {
    let n = normal.vec();
    let g = rng.gen_range(0.0..1.0f32).sqrt().asin();
    let phi = rng.gen_range(0.0..std::f32::consts::TAU);
    let t1 = n.any_orthonormal_vector();
    let t2 = t1.cross(n).normalize();
    n * g.cos() + t1 * (g.sin() * phi.cos()) + t2 * (g.sin() * phi.sin())
}

fn intersect(surface: &Surface, ray: &Ray) -> Option<Hit> {
    surface.intersect(collide(surface.collider, &surface.local_ray(ray)))
}

fn sample(surface: &Surface, rng: &mut impl Rng) -> SurfaceSample {
    surface.sample(draw(surface.collider, rng)).expect("the surface is not flat")
}

/// The ray that leaves a random point of the surface in a random direction:
/// diffusely, whatever the surface is made of.
fn emit(surface: &Surface, rng: &mut impl Rng) -> Ray {
    let from = sample(surface, rng);
    Ray { origin: from.position, direction: to_diffuse_ray(&from.normal, rng) }
}

fn cast_ray(scene: &Scene, ray: &Ray) -> Option<HitRecord> {
    let hits: Vec<Option<Hit>> = scene.surfaces.iter().map(|s| intersect(s, ray)).collect();
    scene.cast_ray(&hits)
}

fn trace_ray(scene: &Scene, ray: Ray, rng: &mut impl Rng) -> TraceRecord {
    let mut path = scene.trace_ray(ray);
    loop {
        let ray = path.ray();
        let Some(hit_record) = cast_ray(scene, &ray) else {
            return path.escape();
        };
        let direction = match scene.reflection(&ray, &hit_record) {
            Reflection::Diffuse { about } => to_diffuse_ray(&about, rng),
            Reflection::Specular { direction } => direction,
        };
        match path.bounce(scene, hit_record, direction) {
            Step::Flying(next) => path = next,
            Step::Ended(record) => return record,
        }
    }
}

fn view_factors_for_surface(
    scene: &Scene,
    surface: usize,
    num_rays: usize,
    rng: &mut impl Rng,
) -> Vec<f32> {
    assert!(surface < scene.surfaces.len());
    let mut estimate = scene.view_factors_for_surface(surface, num_rays);
    while estimate.remaining() > 0 {
        let ray = emit(&scene.surfaces[estimate.surface()], rng);
        estimate.add(&trace_ray(scene, ray, rng));
    }
    match estimate.finish() {
        Some(factors) => factors.iter().map(|f| f.parts() as f32 / 1e9).collect(),
        None => vec![f32::NAN; scene.surfaces.len()],
    }
}

fn sphere(position: Vec3, radius: f32) -> Surface {
    Surface::new_sphere(position, Vec3::ONE * radius)
}

fn disk(position: Vec3, radius: f32, normal: Vec3) -> Surface {
    Surface::new_disk(position, Vec3::ONE * radius, normal).expect("the normal has length one")
}

fn cylinder(position: Vec3, radius: f32, height: f32, axis: Vec3) -> Surface {
    Surface::new_cylinder(position, Vec3::new(radius, radius, height), axis)
        .expect("the axis has length one")
}

fn rectangle(position: Vec3, width: f32, height: f32, normal: Vec3, axis_x: Vec3) -> Surface {
    Surface::new_rectangle(position, Vec3::new(width, height, 1.0), normal, axis_x)
        .expect("the axes have length one")
}

fn cone(position: Vec3, radius: f32, height: f32, axis: Vec3) -> Surface {
    Surface::new_cone(position, Vec3::new(radius, radius, height), axis)
        .expect("the axis has length one")
}

fn factor_between(first: Surface, second: Surface) -> f32 {
    let mut scene = Scene::default();
    scene.add_surface(first);
    scene.add_surface(second);
    view_factors_for_surface(&scene, 0, 1_000_000, &mut seeded())[1]
}

/// The random numbers of a test: the same in every run.
fn seeded() -> StdRng {
    StdRng::seed_from_u64(SEED)
}

const SEED: u64 = 1;

// The arrangements for which the view factor is known in closed form. Each
// function returns the known value and the estimate.

/// `h` is the ratio of the cylinder's radius to half its height.
fn sphere_in_cylinder_factors(h: f32) -> (f32, f32) {
    let v = factor_between(sphere(Vec3::ZERO, 0.1), cylinder(Vec3::ZERO, 1.0, 2. * h, Vec3::Z));
    let v_an = h / (1.0f32 + h * h).sqrt();
    (v_an, v)
}

/// `h` is the distance over the disk's radius, `r` the sphere's radius over
/// the disk's.
fn disk_to_sphere_factors(h: f32, r: f32) -> (f32, f32) {
    assert!(h >= 1.0);
    assert!(r <= h);
    let v = factor_between(disk(h * Vec3::X, 1.0, -Vec3::X), sphere(Vec3::ZERO, r));
    let v_an = 2. * r * r * (1. - 1. / (1. + 1. / (h * h)).sqrt());
    (v_an, v)
}

/// `h` is the distance between the centres over the sphere's radius.
fn small_cylinder_to_sphere_factors(h: f32) -> (f32, f32) {
    assert!(h >= 1.);
    let v = factor_between(
        cylinder(Vec3::X * h, 0.00001, 0.00002, Vec3::X),
        sphere(Vec3::ZERO, 1.0),
    );
    let s = (1. - 1. / (h * h)).sqrt();
    let pi = std::f32::consts::PI;
    let v_an = 0.5 - s / (pi * h) - s.asin() / pi;
    (v_an, v)
}

/// `h` is the distance between the centres over the large sphere's radius.
fn small_sphere_to_sphere_factors(h: f32) -> (f32, f32) {
    assert!(h >= 1.);
    let v = factor_between(sphere(Vec3::X * h, 0.00001), sphere(Vec3::ZERO, 1.0));
    let v_an = 0.5 * (1. - (1. - 1. / (h * h)).sqrt());
    (v_an, v)
}

/// `h` is the distance between the axes over the radius.
fn cylinder_to_cylinder_factors(h: f32) -> (f32, f32) {
    assert!(h >= 2.);
    let v = factor_between(
        cylinder(Vec3::ZERO, 1.0, 10_000.0, Vec3::Y),
        cylinder(Vec3::X * h, 1.0, 10_000.0, Vec3::Y),
    );
    let pi = std::f32::consts::PI;
    let v_an = ((h * h - 4.).sqrt() - h + 2. * (2. / h).asin()) / (2. * pi);
    (v_an, v)
}

/// `h` is the distance from the strip to the axis over the radius, `v` the
/// strip's height over the cylinder's diameter.
fn strip_to_cylinder_factors(h: f32, v: f32) -> (f32, f32) {
    assert!(h >= 1.);
    let f = factor_between(
        rectangle(Vec3::X * h, 2. * v, 10_000.0, -Vec3::X, Vec3::Z),
        cylinder(Vec3::ZERO, 1.0, 10_000.0, Vec3::Y),
    );
    let f_an = (v / h).atan() / v;
    (f_an, f)
}

/// `h` is the rod's height over the disk's radius.
fn rod_to_coaxial_disk_factors(h: f32) -> (f32, f32) {
    let v = factor_between(
        cylinder(0.5 * h * Vec3::Z, 0.0001, h, Vec3::Z),
        disk(Vec3::ZERO, 1.0, Vec3::Z),
    );
    let pi = std::f32::consts::PI;
    let v_an = 0.25 - 0.5 / pi * ((h * h - 1.) / (h * h + 1.)).asin();
    (v_an, v)
}

/// `x` and `y` are the plates' width and height over the gap.
fn equal_rectangular_plates_factors(x: f32, y: f32) -> (f32, f32) {
    let v = factor_between(
        rectangle(Vec3::X, x, y, -Vec3::X, Vec3::Z),
        rectangle(Vec3::ZERO, x, y, Vec3::X, Vec3::Z),
    );
    let x1 = (1. + x * x).sqrt();
    let y1 = (1. + y * y).sqrt();
    let a = (x1 * x1 * y1 * y1 / (x1 * x1 + y1 * y1 - 1.)).ln();
    let b = 2. * x * (y1 * (x / y1).atan() - x.atan());
    let c = 2. * y * (x1 * (y / x1).atan() - y.atan());
    let v_an = (1. / (std::f32::consts::PI * x * y)) * (a + b + c);
    (v_an, v)
}

/// `r1` and `r2` are the disks' radii over the gap.
fn unequal_disks_factors(r1: f32, r2: f32) -> (f32, f32) {
    let v = factor_between(disk(Vec3::X, r1, Vec3::NEG_X), disk(Vec3::ZERO, r2, Vec3::X));
    let x = 1. + 1. / (r1 * r1) + r2 * r2 / (r1 * r1);
    let y = (x * x - 4. * r2 * r2 / (r1 * r1)).sqrt();
    let v_an = (x - y) / 2.;
    (v_an, v)
}

/// `r` is the cone's radius over the sphere's, `s` the distance from the
/// sphere to the cone's tip, `w` half the cone's angle.
fn sphere_to_coaxial_cone_factors(r: f32, s: f32, w: f32) -> (f32, f32) {
    assert!(w >= (1. / (s + 1.)).asin());
    let h = r / w.tan();
    let v = factor_between(sphere(Vec3::X, 1.), cone((h + s) * Vec3::NEG_X, r, h, Vec3::X));
    let x = r / (1. + s + r / w.tan());
    let denom = (1. + x * x).sqrt();
    let v_an = 0.5 * (1. - 1. / denom);
    (v_an, v)
}

fn coaxial_cone_to_sphere_factors(r: f32, s: f32, w: f32) -> (f32, f32) {
    assert!(w >= (1. / (s + 1.)).asin());
    let h = r / w.tan();
    let v = factor_between(cone((h + s) * Vec3::NEG_X, r, h, Vec3::X), sphere(Vec3::X, 1.));
    let x = r / (1. + s + r / w.tan());
    let denom = (1. + x * x).sqrt();
    let a_sphere = 4. * std::f32::consts::PI;
    let a_cone = std::f32::consts::PI * r * (h * h + r * r).sqrt();
    let v_an_sphere = 0.5 * (1. - 1. / denom);
    let v_an = a_sphere / a_cone * v_an_sphere;
    (v_an, v)
}

/// `e1` and `e2` are the emissivities of two plates so large that next to
/// nothing gets out between them. Returns the estimate and the known value.
fn infinite_plates_factors(e1: u32, e2: u32) -> (f32, f32) {
    let mut scene = Scene::default();
    let length = 10_000.;
    scene.add_surface(
        rectangle(Vec3::ZERO, length, length, Vec3::Z, Vec3::X)
            .to_gray_body(Fraction::new(e1).unwrap()),
    );
    scene.add_surface(
        rectangle(Vec3::Z, length, length, Vec3::NEG_Z, Vec3::NEG_X)
            .to_gray_body(Fraction::new(e2).unwrap()),
    );
    let v = view_factors_for_surface(&scene, 0, 10_000, &mut seeded())[1];
    let (e1, e2) = (e1 as f32 / 1e9, e2 as f32 / 1e9);
    let v_an = e2 / (e1 + e2 - e1 * e2);
    (v, v_an)
}

fn percent_error((expected, measured): (f32, f32)) -> f32 {
    100. * (measured - expected) / expected
}

#[test]
fn infinite_plates() {
    assert!(percent_error(infinite_plates_factors(200_000_000, 700_000_000)) < 1.)
}

#[test]
fn sphere_in_cylinder() {
    assert!(percent_error(sphere_in_cylinder_factors(1.0)) < 1.)
}

#[test]
fn disk_to_sphere() {
    assert!(percent_error(disk_to_sphere_factors(1.0, 1.0)) < 1.)
}

#[test]
fn small_cylinder_to_sphere() {
    assert!(percent_error(small_cylinder_to_sphere_factors(5.0)) < 1.)
}

#[test]
fn small_sphere_to_sphere() {
    assert!(percent_error(small_sphere_to_sphere_factors(2.0)) < 1.)
}

#[test]
fn cylinder_to_cylinder() {
    assert!(percent_error(cylinder_to_cylinder_factors(2.0)) < 1.)
}

#[test]
fn strip_to_cylinder() {
    assert!(percent_error(strip_to_cylinder_factors(1.0, 1.0)) < 1.)
}

#[test]
fn rod_to_coaxial_disk() {
    assert!(percent_error(rod_to_coaxial_disk_factors(1.0)) < 1.)
}

#[test]
fn equal_rectangular_plates() {
    assert!(percent_error(equal_rectangular_plates_factors(1.0, 2.0)) < 1.)
}

#[test]
fn unequal_disks() {
    assert!(percent_error(unequal_disks_factors(1.0, 2.0)) < 1.)
}

#[test]
fn sphere_to_coaxial_cone() {
    assert!(percent_error(sphere_to_coaxial_cone_factors(1.0, 1.0, 40_f32.to_radians())) < 1.)
}

#[test]
fn coaxial_cone_to_sphere() {
    assert!(percent_error(coaxial_cone_to_sphere_factors(2.0, 1.0, 40_f32.to_radians())) < 1.)
}

// What the shapes do with single rays.

fn ray(origin: Vec3, direction: Vec3) -> Ray {
    Ray { origin: Point(origin), direction }
}

fn distance(hit: &Hit) -> f32 {
    f32::from_bits(hit.t.bits())
}

#[test]
fn sphere_hit_lies_on_the_sphere() {
    let hit = sphere_intersect(&ray(Vec3::new(0.3, -0.2, 5.0), Vec3::new(0.0, 0.1, -1.0)))
        .expect("the ray runs through the sphere");
    assert!((hit.position.0.length() - 1.0).abs() < 1e-5);
    assert!(distance(&hit) > 1e-4);
    assert!(hit.normal.vec().abs_diff_eq(hit.position.0, 1e-5));
    assert!(hit.position.0.z > 0.0);
}

#[test]
fn sphere_is_left_from_inside_through_the_far_side() {
    let hit = sphere_intersect(&ray(Vec3::ZERO, Vec3::X)).expect("the ray starts inside");
    assert_eq!(distance(&hit), 1.0);
    assert!(hit.position.0.abs_diff_eq(Vec3::X, 1e-6));
}

#[test]
fn sphere_is_missed() {
    assert!(sphere_intersect(&ray(Vec3::new(0.0, 2.0, 5.0), Vec3::NEG_Z)).is_none());
    assert!(sphere_intersect(&ray(Vec3::new(0.0, 0.0, 5.0), Vec3::Z)).is_none());
    assert!(sphere_intersect(&ray(Vec3::new(0.0, 0.0, 200.0), Vec3::NEG_Z)).is_none());
}

#[test]
fn ray_does_not_hit_the_point_it_leaves() {
    assert!(disk_intersect(&ray(Vec3::ZERO, Vec3::Z)).is_none());
    let out = sphere_intersect(&ray(Vec3::X, Vec3::X));
    assert!(out.is_none());
    let through = sphere_intersect(&ray(Vec3::X, Vec3::NEG_X)).expect("the far side is hit");
    assert_eq!(distance(&through), 2.0);
}

#[test]
fn disk_hit_lies_on_the_disk() {
    let hit = disk_intersect(&ray(Vec3::new(0.5, 0.5, 2.0), Vec3::new(0.0, 0.0, -4.0)))
        .expect("the ray runs through the disk");
    assert_eq!(hit.position.0, Vec3::new(0.5, 0.5, 0.0));
    assert_eq!(distance(&hit), 0.5);
    assert_eq!(hit.normal.vec(), Vec3::Z);
}

#[test]
fn disk_is_missed() {
    assert!(disk_intersect(&ray(Vec3::new(0.0, 0.0, 1.0), Vec3::X)).is_none());
    assert!(disk_intersect(&ray(Vec3::new(0.9, 0.9, 1.0), Vec3::NEG_Z)).is_none());
    assert!(disk_intersect(&ray(Vec3::new(0.0, 0.0, 1.0), Vec3::Z)).is_none());
}

#[test]
fn rectangle_hit_lies_on_the_rectangle() {
    let hit = rectangle_intersect(&ray(Vec3::new(0.4, -0.4, -3.0), Vec3::Z))
        .expect("the ray runs through the rectangle");
    assert_eq!(hit.position.0, Vec3::new(0.4, -0.4, 0.0));
    assert_eq!(distance(&hit), 3.0);
}

#[test]
fn rectangle_is_missed() {
    assert!(rectangle_intersect(&ray(Vec3::new(0.5, 0.0, 1.0), Vec3::NEG_Z)).is_none());
    assert!(rectangle_intersect(&ray(Vec3::new(0.0, 0.6, 1.0), Vec3::NEG_Z)).is_none());
    assert!(rectangle_intersect(&ray(Vec3::new(0.0, 0.0, 1.0), Vec3::Y)).is_none());
}

#[test]
fn cylinder_hit_lies_on_the_cylinder() {
    let hit = cylinder_intersect(&ray(Vec3::new(0.0, 0.0, 0.2), Vec3::new(2.0, 0.0, 0.1)))
        .expect("the ray runs into the wall");
    let p = hit.position.0;
    assert!((p.x * p.x + p.y * p.y - 1.0).abs() < 1e-5);
    assert!(p.z >= -0.5 && p.z <= 0.5);
    assert_eq!(distance(&hit), 0.5);
    assert!(hit.normal.vec().abs_diff_eq(Vec3::X, 1e-6));
}

#[test]
fn cylinder_is_missed() {
    assert!(cylinder_intersect(&ray(Vec3::ZERO, Vec3::Z)).is_none());
    assert!(cylinder_intersect(&ray(Vec3::ZERO, Vec3::new(1.0, 0.0, 1.0))).is_none());
    assert!(cylinder_intersect(&ray(Vec3::new(3.0, 0.0, 0.0), Vec3::Y)).is_none());
}

#[test]
fn cone_hit_lies_on_the_cone() {
    let hit = cone_intersect(&ray(Vec3::new(2.0, 0.0, 0.5), Vec3::NEG_X))
        .expect("the ray runs into the cone");
    let p = hit.position.0;
    assert!(((1.0 - p.z).powi(2) - p.x * p.x - p.y * p.y).abs() < 1e-5);
    assert!(p.z > 0.0 && p.z < 1.0);
    assert!((distance(&hit) - 1.5).abs() < 1e-6);
    assert!(hit.normal.vec().abs_diff_eq(Vec3::new(1.0, 0.0, 1.0).normalize(), 1e-6));
}

#[test]
fn cone_is_missed() {
    assert!(cone_intersect(&ray(Vec3::new(2.0, 0.0, 1.5), Vec3::NEG_X)).is_none());
    assert!(cone_intersect(&ray(Vec3::new(2.0, 0.0, 0.5), Vec3::X)).is_none());
    assert!(cone_intersect(&ray(Vec3::new(0.0, 0.0, 0.5), Vec3::new(1.0, 0.0, 1.0))).is_none());
}

#[test]
fn samples_lie_on_their_shapes() {
    let mut rng = seeded();
    for _ in 0..1000 {
        let s = sphere_sample(&mut rng);
        assert!((s.position.0.length() - 1.0).abs() < 1e-4);
        let d = disk_sample(&mut rng);
        assert!(d.position.0.z == 0.0 && d.position.0.length() < 1.0);
        let r = rectangle_sample(&mut rng);
        assert!(r.position.0.x.abs() <= 0.5 && r.position.0.y.abs() <= 0.5);
        let c = cylinder_sample(&mut rng);
        assert!((c.position.0.truncate().length() - 1.0).abs() < 1e-4);
        assert!(c.position.0.z.abs() <= 0.5);
        let k = cone_sample(&mut rng);
        assert!((1.0 - k.position.0.z - k.position.0.truncate().length()).abs() < 1e-4);
    }
}

#[test]
fn diffuse_rays_leave_on_the_side_of_the_normal() {
    let normal = unit(Vec3::new(0.0, 0.6, 0.8));
    let mut rng = seeded();
    for _ in 0..1000 {
        let direction = to_diffuse_ray(&normal, &mut rng);
        assert!((direction.length() - 1.0).abs() < 1e-3);
        assert!(direction.dot(normal.vec()) > -1e-3);
    }
}

// Whole scenes.

#[test]
fn placed_surface_is_hit_in_the_world() {
    let wall = rectangle(Vec3::new(3.0, 0.0, 0.0), 2.0, 4.0, Vec3::NEG_X, Vec3::Y);
    let hit = intersect(&wall, &ray(Vec3::ZERO, Vec3::new(2.0, 0.5, 0.5)))
        .expect("the ray runs into the wall");
    assert!(hit.position.0.abs_diff_eq(Vec3::new(3.0, 0.75, 0.75), 1e-5));
    assert!(hit.normal.vec().abs_diff_eq(Vec3::NEG_X, 1e-5));
    assert!((distance(&hit) - 1.5).abs() < 1e-6);
    assert!(intersect(&wall, &ray(Vec3::ZERO, Vec3::new(2.0, 2.0, 0.0))).is_none());
    assert!(intersect(&wall, &ray(Vec3::ZERO, Vec3::NEG_X)).is_none());
}

#[test]
fn nearest_surface_is_hit() {
    let mut scene = Scene::default();
    scene.add_surface(disk(Vec3::new(0.0, 0.0, 5.0), 1.0, Vec3::NEG_Z));
    scene.add_surface(disk(Vec3::new(0.0, 0.0, 2.0), 1.0, Vec3::NEG_Z));
    scene.add_surface(disk(Vec3::new(0.0, 0.0, 9.0), 1.0, Vec3::NEG_Z));
    let found = cast_ray(&scene, &ray(Vec3::ZERO, Vec3::Z)).expect("the disks are in the way");
    assert_eq!(found.surface_id, 1);
    assert_eq!(distance(&found.hit), 2.0);
    assert!(cast_ray(&scene, &ray(Vec3::ZERO, Vec3::NEG_Z)).is_none());
}

#[test]
fn ray_that_hits_nothing_escapes() {
    let mut scene = Scene::default();
    scene.add_surface(sphere(Vec3::new(0.0, 0.0, 5.0), 1.0));
    let record = trace_ray(&scene, ray(Vec3::ZERO, Vec3::NEG_Z), &mut seeded());
    assert!(!record.terminated_early());
    assert!(record.entries().is_empty());
    assert_eq!(record.absorbed().parts(), 0);
}

#[test]
fn black_surface_takes_all() {
    let mut scene = Scene::default();
    scene.add_surface(sphere(Vec3::new(0.0, 0.0, 5.0), 1.0));
    let record = trace_ray(&scene, ray(Vec3::ZERO, Vec3::Z), &mut seeded());
    assert!(record.terminated_early());
    assert_eq!(record.entries().len(), 1);
    assert_eq!(record.entries()[0].surface_id, 0);
    assert_eq!(record.entries()[0].energy_absorbed.parts(), 1_000_000_000);
    assert!(record.entries()[0].point.0.abs_diff_eq(Vec3::new(0.0, 0.0, 4.0), 1e-5));
}

#[test]
fn mirrors_send_a_ray_to_and_fro() {
    let mut scene = Scene::default();
    let half = Fraction::new(500_000_000).unwrap();
    scene.add_surface(disk(Vec3::ZERO, 1.0, Vec3::Z).to_gray_body(half).set_specular());
    scene.add_surface(disk(Vec3::Z, 1.0, Vec3::NEG_Z).to_gray_body(half).set_specular());
    let record = trace_ray(&scene, ray(Vec3::new(0.0, 0.0, 0.5), Vec3::Z), &mut seeded());
    assert!(record.terminated_early());
    let absorbed: Vec<u32> = record.entries().iter().map(|e| e.energy_absorbed.parts()).collect();
    assert_eq!(
        absorbed,
        vec![
            500_000_000, 250_000_000, 125_000_000, 62_500_000, 31_250_000, 15_625_000,
            7_812_500, 3_906_250, 1_953_125, 976_562
        ]
    );
    let hit: Vec<usize> = record.entries().iter().map(|e| e.surface_id).collect();
    assert_eq!(hit, vec![1, 0, 1, 0, 1, 0, 1, 0, 1, 0]);
    assert_eq!(record.absorbed().parts(), 1_000_000_000 - 976_563);
}

#[test]
fn path_between_mirrors_that_absorb_nothing_is_cut_short() {
    let mut scene = Scene::default();
    scene.add_surface(disk(Vec3::ZERO, 1.0, Vec3::Z).to_gray_body(Fraction::zero()).set_specular());
    scene.add_surface(
        disk(Vec3::Z, 1.0, Vec3::NEG_Z).to_gray_body(Fraction::zero()).set_specular(),
    );
    let record = trace_ray(&scene, ray(Vec3::new(0.0, 0.0, 0.5), Vec3::Z), &mut seeded());
    assert!(record.terminated_early());
    assert_eq!(record.entries().len(), 101);
    assert_eq!(record.absorbed().parts(), 0);
}

#[test]
fn path_in_a_closed_box_of_dull_walls_is_cut_short() {
    let mut scene = Scene::default();
    let dull = Fraction::new(5_000_000).unwrap();
    let (i, j, k) = (Vec3::X, Vec3::Y, Vec3::Z);
    scene.add_surface(rectangle(i * 0.5, 1., 1., -i, j).to_gray_body(dull));
    scene.add_surface(rectangle(-i * 0.5, 1., 1., i, j).to_gray_body(dull));
    scene.add_surface(rectangle(j * 0.5, 1., 1., -j, -i).to_gray_body(dull));
    scene.add_surface(rectangle(-j * 0.5, 1., 1., j, i).to_gray_body(dull));
    scene.add_surface(rectangle(k * 0.5, 1., 1., -k, -i).to_gray_body(dull));
    scene.add_surface(rectangle(-k * 0.5, 1., 1., k, i).to_gray_body(dull));
    let mut rng = seeded();
    for _ in 0..200 {
        let first = emit(&scene.surfaces[0], &mut rng);
        let record = trace_ray(&scene, first, &mut rng);
        if record.terminated_early() {
            assert_eq!(record.entries().len(), 101);
        }
        assert!(record.entries().len() <= 101);
        assert!(record.fits(6));
    }
}

#[test]
fn closed_box_keeps_the_energy() {
    let mut scene = Scene::default();
    let gray = Fraction::new(600_000_000).unwrap();
    let (i, j, k) = (Vec3::X, Vec3::Y, Vec3::Z);
    scene.add_surface(rectangle(i * 0.5, 1., 1., -i, j).to_gray_body(gray));
    scene.add_surface(rectangle(-i * 0.5, 1., 1., i, j).to_gray_body(gray));
    scene.add_surface(rectangle(j * 0.5, 1., 1., -j, -i).to_gray_body(gray));
    scene.add_surface(rectangle(-j * 0.5, 1., 1., j, i).to_gray_body(gray));
    scene.add_surface(rectangle(k * 0.5, 1., 1., -k, -i).to_gray_body(gray));
    scene.add_surface(rectangle(-k * 0.5, 1., 1., k, i).to_gray_body(gray));
    let factors = view_factors_for_surface(&scene, 2, 10_000, &mut seeded());
    assert_eq!(factors.len(), 6);
    let all: f32 = factors.iter().sum();
    assert!(all <= 1.0 + 1e-6);
    assert!(all > 0.99);
}

#[test]
fn workers_agree_with_one() {
    let mut scene = Scene::default();
    scene.add_surface(disk(Vec3::X, 1.0, Vec3::NEG_X));
    scene.add_surface(disk(Vec3::ZERO, 2.0, Vec3::X));
    let mut rng = seeded();
    let alone = view_factors_for_surface(&scene, 0, 200_000, &mut rng)[1];
    let plan = scene.view_factors_for_surface_parallel(0, 200_000);
    assert_eq!(plan.workers, rayon::current_num_threads());
    assert!(plan.workers >= 1);
    assert_eq!(plan.rays_per_thread, 200_000 / plan.workers);
    let mut results = Vec::new();
    for _ in 0..plan.workers {
        let mut estimate = scene.view_factors_for_surface(plan.source, plan.rays_per_thread);
        while estimate.remaining() > 0 {
            let first = emit(&scene.surfaces[estimate.surface()], &mut rng);
            estimate.add(&trace_ray(&scene, first, &mut rng));
        }
        results.push(estimate.finish().expect("every worker has rays to trace"));
    }
    let together = plan.finish(results).expect("there is a worker")[1].parts() as f32 / 1e9;
    assert!((together - alone).abs() / alone < 0.03);
}
