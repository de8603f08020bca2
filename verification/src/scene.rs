//! A scene: the assets that were registered and the entities that were
//! spawned, each in the order in which it happened.

use vstd::prelude::*;
use crate::color::Rgb;
use crate::geometry::{Placement, Shape};

verus! {

/// One thing to spawn.
#[derive(Clone, Copy, Debug, PartialEq, Eq, Structural)]
pub enum Entity {
    /// A two-dimensional camera with the engine's default settings.
    Camera,
    /// A rectangle of one flat colour, `width` by `height` world units.
    Sprite { color: Rgb, width: u32, height: u32, placement: Placement },
    /// A registered mesh drawn with a registered material. `mesh` and
    /// `material` are the handles that registering them returned.
    Mesh { mesh: usize, material: usize, placement: Placement },
}

/// The scene as mathematics: three sequences in order of arrival. A handle
/// is an index into `materials` or `meshes`.
pub struct SceneView {
    pub materials: Seq<Rgb>,
    pub meshes: Seq<Shape>,
    pub entities: Seq<Entity>,
}

impl SceneView {
    /// The scene that holds nothing.
    pub open spec fn empty() -> SceneView {
        SceneView { materials: Seq::empty(), meshes: Seq::empty(), entities: Seq::empty() }
    }

    /// `entity` can be spawned into this scene: its colour is well formed,
    /// and the handles it holds refer to assets that the scene has.
    pub open spec fn admits(self, entity: Entity) -> bool {
        match entity {
            Entity::Camera => true,
            Entity::Sprite { color, .. } => color.wf(),
            Entity::Mesh { mesh, material, .. } => mesh < self.meshes.len() && material
                < self.materials.len(),
        }
    }

    /// Every material is a well-formed colour, every mesh is a shape that can
    /// be built, and the scene admits each of its entities.
    pub open spec fn wf(self) -> bool {
        &&& forall|i: int| 0 <= i < self.materials.len() ==> (#[trigger] self.materials[i]).wf()
        &&& forall|i: int| 0 <= i < self.meshes.len() ==> (#[trigger] self.meshes[i]).wf()
        &&& forall|i: int| 0 <= i < self.entities.len() ==> self.admits(#[trigger] self.entities[i])
    }
}

impl SceneView {
    /// `self` is how `later` began: each of the three sequences of `later`
    /// starts with the whole of the corresponding sequence of `self`.
    pub open spec fn is_prefix_of(self, later: SceneView) -> bool {
        &&& self.materials.is_prefix_of(later.materials)
        &&& self.meshes.is_prefix_of(later.meshes)
        &&& self.entities.is_prefix_of(later.entities)
    }

    /// What a scene admits, every scene that it grows into admits too:
    /// handles are never taken back.
    pub proof fn lemma_admits_extends(self, later: SceneView, entity: Entity)
        requires
            self.is_prefix_of(later),
            self.admits(entity),
        ensures
            later.admits(entity),
    {
    }

    /// A well-formed scene that grows stays well formed, if what arrived is
    /// well formed: the new materials and meshes are, and the grown scene
    /// admits the new entities.
    pub proof fn lemma_wf_extends(self, later: SceneView)
        requires
            self.wf(),
            self.is_prefix_of(later),
            forall|i: int|
                self.materials.len() <= i < later.materials.len() ==> (
                #[trigger] later.materials[i]).wf(),
            forall|i: int|
                self.meshes.len() <= i < later.meshes.len() ==> (#[trigger] later.meshes[i]).wf(),
            forall|i: int|
                self.entities.len() <= i < later.entities.len() ==> later.admits(
                    #[trigger] later.entities[i],
                ),
        ensures
            later.wf(),
    {
        assert forall|i: int| 0 <= i < later.materials.len() implies (
        #[trigger] later.materials[i]).wf() by {
            if i < self.materials.len() {
                assert(later.materials[i] == self.materials[i]);
            }
        }
        assert forall|i: int| 0 <= i < later.meshes.len() implies (
        #[trigger] later.meshes[i]).wf() by {
            if i < self.meshes.len() {
                assert(later.meshes[i] == self.meshes[i]);
            }
        }
        assert forall|i: int| 0 <= i < later.entities.len() implies later.admits(
            #[trigger] later.entities[i],
        ) by {
            if i < self.entities.len() {
                assert(later.entities[i] == self.entities[i]);
                self.lemma_admits_extends(later, self.entities[i]);
            }
        }
    }
}

/// A scene under construction. Assets are registered first and hand back a
/// handle; entities that are spawned later may hold those handles.
#[derive(Debug, PartialEq, Eq)]
pub struct Scene {
    pub materials: Vec<Rgb>,
    pub meshes: Vec<Shape>,
    pub entities: Vec<Entity>,
}

impl View for Scene {
    type V = SceneView;

    open spec fn view(&self) -> SceneView {
        SceneView { materials: self.materials@, meshes: self.meshes@, entities: self.entities@ }
    }
}

impl Scene {
    /// The scene that holds nothing.
    pub fn new() -> (scene: Scene)
        ensures
            scene@ == SceneView::empty(),
            scene@.wf(),
    {
        Scene { materials: Vec::new(), meshes: Vec::new(), entities: Vec::new() }
    }

    /// Registers a material of the given colour after those already there
    /// and returns its handle. Meshes and entities stay as they are, and so
    /// does every handle given out before.
    pub fn add_material(&mut self, color: Rgb) -> (handle: usize)
        ensures
            handle == old(self)@.materials.len(),
            final(self)@.materials == old(self)@.materials.push(color),
            final(self)@.meshes == old(self)@.meshes,
            final(self)@.entities == old(self)@.entities,
            old(self)@.wf() && color.wf() ==> final(self)@.wf(),
    {
        let handle: usize = self.materials.len();
        self.materials.push(color);
        proof {
            if old(self)@.wf() && color.wf() {
                old(self)@.lemma_wf_extends(self@);
            }
        }
        handle
    }

    /// Registers a mesh of the given shape after those already there and
    /// returns its handle. Materials and entities stay as they are, and so
    /// does every handle given out before.
    pub fn add_mesh(&mut self, shape: Shape) -> (handle: usize)
        ensures
            handle == old(self)@.meshes.len(),
            final(self)@.meshes == old(self)@.meshes.push(shape),
            final(self)@.materials == old(self)@.materials,
            final(self)@.entities == old(self)@.entities,
            old(self)@.wf() && shape.wf() ==> final(self)@.wf(),
    {
        let handle: usize = self.meshes.len();
        self.meshes.push(shape);
        proof {
            if old(self)@.wf() && shape.wf() {
                old(self)@.lemma_wf_extends(self@);
            }
        }
        handle
    }

    /// Spawns `entity` after the entities already there. The assets stay as
    /// they are. A well-formed scene stays well formed if it admits the
    /// entity.
    pub fn spawn(&mut self, entity: Entity)
        ensures
            final(self)@.entities == old(self)@.entities.push(entity),
            final(self)@.materials == old(self)@.materials,
            final(self)@.meshes == old(self)@.meshes,
            old(self)@.wf() && old(self)@.admits(entity) ==> final(self)@.wf(),
    {
        self.entities.push(entity);
        proof {
            if old(self)@.wf() && old(self)@.admits(entity) {
                old(self)@.lemma_wf_extends(self@);
            }
        }
    }
}

} // verus!
