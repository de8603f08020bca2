use lunar_lander::color::Rgb;
use lunar_lander::geometry::{Placement, Shape};
use lunar_lander::scene::{Entity, Scene};

#[test]
fn gray_sets_all_three_channels() {
    assert_eq!(Rgb::gray(7), Rgb { red: 7, green: 7, blue: 7 });
    assert_eq!(Rgb::gray(0), Rgb { red: 0, green: 0, blue: 0 });
    assert_eq!(Rgb::gray(255), Rgb { red: 255, green: 255, blue: 255 });
}

#[test]
fn placement_at_is_not_rotated() {
    assert_eq!(Placement::at(3, -4, 5), Placement { x: 3, y: -4, z: 5, turn: 0 });
    assert_eq!(
        Placement::at(i32::MIN, i32::MAX, 0),
        Placement { x: i32::MIN, y: i32::MAX, z: 0, turn: 0 }
    );
}

#[test]
fn turned_replaces_the_rotation_and_keeps_the_position() {
    let placed = Placement::at(3, -4, 5).turned(-12);
    assert_eq!(placed, Placement { x: 3, y: -4, z: 5, turn: -12 });
    assert_eq!(placed.turned(9), Placement { x: 3, y: -4, z: 5, turn: 9 });
}

#[test]
fn new_scene_is_empty() {
    let scene = Scene::new();
    assert!(scene.materials.is_empty());
    assert!(scene.meshes.is_empty());
    assert!(scene.entities.is_empty());
}

#[test]
fn add_material_hands_out_handles_in_order() {
    let mut scene = Scene::new();
    assert_eq!(scene.add_material(Rgb::gray(10)), 0);
    assert_eq!(scene.add_material(Rgb { red: 1, green: 2, blue: 3 }), 1);
    assert_eq!(scene.add_material(Rgb::gray(10)), 2);
    assert_eq!(
        scene.materials,
        vec![Rgb::gray(10), Rgb { red: 1, green: 2, blue: 3 }, Rgb::gray(10)]
    );
    assert!(scene.meshes.is_empty());
    assert!(scene.entities.is_empty());
}

#[test]
fn add_mesh_hands_out_handles_in_order() {
    let mut scene = Scene::new();
    let bar = Shape::Rectangle { width: 10, height: 2 };
    let triangle = Shape::RegularPolygon { circumradius: 1, sides: 3 };
    assert_eq!(scene.add_mesh(bar), 0);
    assert_eq!(scene.add_mesh(triangle), 1);
    assert_eq!(scene.add_mesh(bar), 2);
    assert_eq!(scene.meshes, vec![bar, triangle, bar]);
    assert!(scene.materials.is_empty());
    assert!(scene.entities.is_empty());
}

#[test]
fn material_and_mesh_handles_are_counted_apart() {
    let mut scene = Scene::new();
    assert_eq!(scene.add_material(Rgb::gray(5)), 0);
    assert_eq!(scene.add_mesh(Shape::Rectangle { width: 1, height: 1 }), 0);
    assert_eq!(scene.add_material(Rgb::gray(6)), 1);
    assert_eq!(scene.add_mesh(Shape::Rectangle { width: 2, height: 2 }), 1);
}

#[test]
fn spawn_appends_and_leaves_the_assets_alone() {
    let mut scene = Scene::new();
    let material = scene.add_material(Rgb::gray(10));
    let mesh = scene.add_mesh(Shape::Rectangle { width: 20, height: 2 });
    let first = Entity::Camera;
    let second = Entity::Mesh { mesh, material, placement: Placement::at(0, 80, 0) };
    scene.spawn(first);
    scene.spawn(second);
    scene.spawn(first);
    assert_eq!(scene.entities, vec![first, second, first]);
    assert_eq!(scene.materials, vec![Rgb::gray(10)]);
    assert_eq!(scene.meshes, vec![Shape::Rectangle { width: 20, height: 2 }]);
}

#[test]
fn spawn_records_an_entity_whose_handles_dangle() {
    let mut scene = Scene::new();
    let stray = Entity::Mesh { mesh: 7, material: 9, placement: Placement::at(1, 2, 3) };
    scene.spawn(stray);
    assert_eq!(scene.entities, vec![stray]);
}
