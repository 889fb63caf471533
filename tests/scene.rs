use tinyraytracer::scene::Scene;

#[test]
fn new_scene_is_empty() {
    let s: Scene<u8, u8> = Scene::new();
    assert!(s.spheres().is_empty());
    assert!(s.lights().is_empty());
}

#[test]
fn scene_keeps_insertion_order() {
    let mut s: Scene<&str, u32> = Scene::new();
    s.add_sphere("ivory");
    s.add_light(15);
    s.add_sphere("mirror");
    s.add_light(18);
    s.add_light(17);
    assert_eq!(s.spheres(), &vec!["ivory", "mirror"]);
    assert_eq!(s.lights(), &vec![15, 18, 17]);
}
