//! The lunar lander's opening scene.
//!
//! Lengths and positions are in world units, with the origin at the centre
//! of the window, `x` to the right and `y` upwards.

use vstd::prelude::*;
use crate::color::{Rgb, FULL};
use crate::geometry::{Placement, Shape};
use crate::scene::{Entity, Scene, SceneView};

verus! {

/// The intensity of the moon surface's gray, in tenths.
pub const SURFACE_GRAY: u8 = 3;

/// How far each landing leg is turned away from the horizontal, in tenths of
/// a radian.
pub const LEG_TURN: i32 = 4;

/// The colour the window is cleared to before anything is drawn: black.
pub open spec fn spec_clear_color() -> Rgb {
    Rgb::gray(0)
}

/// The colour the window is cleared to before anything is drawn: black.
#[verifier::when_used_as_spec(spec_clear_color)]
pub fn clear_color() -> (color: Rgb)
    ensures
        color == spec_clear_color(),
        color.wf(),
{
    Rgb::gray(0)
}

/// The moon surface: a gray strip 600 wide and 50 high, centred 250 below
/// the origin.
pub open spec fn surface() -> Entity {
    Entity::Sprite {
        color: Rgb::gray(SURFACE_GRAY),
        width: 600,
        height: 50,
        placement: Placement::at(0, -250i32, 0),
    }
}

/// The lander's body: a regular octagon of circumradius 15.
pub open spec fn body_shape() -> Shape {
    Shape::RegularPolygon { circumradius: 15, sides: 8 }
}

/// A landing leg: a bar 10 long and 2 thick.
pub open spec fn leg_shape() -> Shape {
    Shape::Rectangle { width: 10, height: 2 }
}

/// The platform under the body: a bar 20 long and 2 thick.
pub open spec fn platform_shape() -> Shape {
    Shape::Rectangle { width: 20, height: 2 }
}

/// The opening scene.
///
/// One white material serves the whole lander. Four meshes are registered:
/// the body, a leg, a second leg of the same shape, and the platform. Six
/// entities are spawned, in this order: the camera, the moon surface, the
/// body at `(0, 100)`, the left leg at `(-10, 85)` turned counter-clockwise
/// by [`LEG_TURN`], the right leg at `(10, 85)` turned clockwise by as much,
/// and the platform at `(0, 80)`.
pub open spec fn opening_scene() -> SceneView {
    SceneView {
        materials: seq![Rgb::gray(FULL)],
        meshes: seq![body_shape(), leg_shape(), leg_shape(), platform_shape()],
        entities: seq![
            Entity::Camera,
            surface(),
            Entity::Mesh { mesh: 0, material: 0, placement: Placement::at(0, 100, 0) },
            Entity::Mesh {
                mesh: 1,
                material: 0,
                placement: Placement::at(-10i32, 85, 0).turned(LEG_TURN),
            },
            Entity::Mesh {
                mesh: 2,
                material: 0,
                placement: Placement::at(10, 85, 0).turned((-LEG_TURN) as i32),
            },
            Entity::Mesh { mesh: 3, material: 0, placement: Placement::at(0, 80, 0) },
        ],
    }
}

/// The opening scene is well formed: its handles refer to assets that it
/// has, its shapes can be built, and its colours stay within full intensity.
pub proof fn lemma_opening_scene_wf()
    ensures
        opening_scene().wf(),
{
}

/// Builds the opening scene: the camera, the moon surface, and the lander's
/// body, two legs and platform, all four drawn with one white material.
///
/// The result is exactly [`opening_scene`], and it is well formed: every
/// handle refers to an asset of the scene and every shape can be built.
pub fn setup() -> (scene: Scene)
    ensures
        scene@ == opening_scene(),
        scene@.wf(),
{
    let mut scene = Scene::new();
    scene.spawn(Entity::Camera);

    scene.spawn(
        Entity::Sprite {
            color: Rgb::gray(SURFACE_GRAY),
            width: 600,
            height: 50,
            placement: Placement::at(0, -250i32, 0),
        },
    );

    let lander_color: usize = scene.add_material(Rgb::gray(FULL));

    let octagon: usize = scene.add_mesh(Shape::RegularPolygon { circumradius: 15, sides: 8 });
    scene.spawn(
        Entity::Mesh { mesh: octagon, material: lander_color, placement: Placement::at(0, 100, 0) },
    );

    let left_leg: usize = scene.add_mesh(Shape::Rectangle { width: 10, height: 2 });
    scene.spawn(
        Entity::Mesh {
            mesh: left_leg,
            material: lander_color,
            placement: Placement::at(-10i32, 85, 0).turned(LEG_TURN),
        },
    );

    let right_leg: usize = scene.add_mesh(Shape::Rectangle { width: 10, height: 2 });
    scene.spawn(
        Entity::Mesh {
            mesh: right_leg,
            material: lander_color,
            placement: Placement::at(10, 85, 0).turned(-LEG_TURN),
        },
    );

    let platform: usize = scene.add_mesh(Shape::Rectangle { width: 20, height: 2 });
    scene.spawn(
        Entity::Mesh { mesh: platform, material: lander_color, placement: Placement::at(0, 80, 0) },
    );

    proof {
        assert(scene@.materials =~= opening_scene().materials);
        assert(scene@.meshes =~= opening_scene().meshes);
        assert(scene@.entities =~= opening_scene().entities);
    }
    scene
}

} // verus!
