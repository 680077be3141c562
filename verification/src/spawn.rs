//! The spawn decision.

use vstd::prelude::*;
use crate::state::Marker;

verus! {

/// What the spawn step reads of a loaded model: its default scene, if it has
/// one. `S` is whatever refers to a scene.
pub struct Model<S> {
    pub default_scene: Option<S>,
}

/// The one entity the spawn step creates: the scene to instantiate and the
/// tag that goes on its root.
pub struct SceneRoot<S> {
    pub scene: S,
    pub marker: Marker,
}

/// Why the spawn step cannot go on. Both are fatal.
#[derive(Clone, Copy, Debug, PartialEq, Eq, Hash, Structural)]
pub enum SpawnError {
    /// The asset repository holds no data for the model handle.
    MissingModel,
    /// The model has no default scene.
    MissingDefaultScene,
}

impl SpawnError {
    pub open spec fn text(self) -> Seq<char> {
        match self {
            SpawnError::MissingModel => "Expected to find gltf asset"@,
            SpawnError::MissingDefaultScene => "Expected gltf asset to have default scene"@,
        }
    }

    /// The text to terminate the process with.
    pub fn message(self) -> (text: &'static str)
        ensures
            text@ == self.text(),
    {
        match self {
            SpawnError::MissingModel => "Expected to find gltf asset",
            SpawnError::MissingDefaultScene => "Expected gltf asset to have default scene",
        }
    }
}

/// Where the model lies, relative to the engine's asset root.
pub fn model_path() -> (path: &'static str)
    ensures
        path@ == "models/FlightHelmet.gltf"@,
{
    "models/FlightHelmet.gltf"
}

/// Takes what the asset repository holds for the model handle and gives the
/// scene root to create: the model's default scene, tagged as the scene. A
/// missing model and a model without a default scene are errors.
pub fn spawn<S>(model: Option<Model<S>>) -> (root: Result<SceneRoot<S>, SpawnError>)
    ensures
        root is Ok <==> (model matches Some(m) && m.default_scene is Some),
        root matches Ok(r) ==> model matches Some(m) && m.default_scene == Some(r.scene)
            && r.marker == Marker::Scene,
        root == Err::<SceneRoot<S>, SpawnError>(SpawnError::MissingModel) <==> model is None,
        root == Err::<SceneRoot<S>, SpawnError>(SpawnError::MissingDefaultScene) <==> (model matches Some(
            m,
        ) && m.default_scene is None),
{
    match model {
        None => Err(SpawnError::MissingModel),
        Some(m) => match m.default_scene {
            None => Err(SpawnError::MissingDefaultScene),
            Some(scene) => Ok(SceneRoot { scene, marker: Marker::Scene }),
        },
    }
}

/// The text announced once the scene root has been requested.
pub fn spawn_notice() -> (text: &'static str)
    ensures
        text@ == "Requested to spawn scene"@,
{
    "Requested to spawn scene"
}

} // verus!
