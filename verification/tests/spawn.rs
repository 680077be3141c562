use scene_labeler::spawn::{model_path, spawn, spawn_notice, Model, SpawnError};
use scene_labeler::state::Marker;

#[test]
fn spawn_without_model_fails() {
    let got = spawn::<u32>(None);
    assert!(matches!(got, Err(SpawnError::MissingModel)));
}

#[test]
fn spawn_without_default_scene_fails() {
    let got = spawn::<u32>(Some(Model { default_scene: None }));
    assert!(matches!(got, Err(SpawnError::MissingDefaultScene)));
}

#[test]
fn spawn_takes_the_default_scene() {
    let got = spawn(Some(Model { default_scene: Some(String::from("Scene0")) }));
    match got {
        Ok(root) => {
            assert_eq!(root.scene, "Scene0");
            assert_eq!(root.marker, Marker::Scene);
        }
        Err(e) => panic!("no scene root: {}", e.message()),
    }
}

#[test]
fn spawn_error_messages() {
    assert_eq!(SpawnError::MissingModel.message(), "Expected to find gltf asset");
    assert_eq!(
        SpawnError::MissingDefaultScene.message(),
        "Expected gltf asset to have default scene"
    );
}

#[test]
fn spawn_notice_text() {
    assert_eq!(spawn_notice(), "Requested to spawn scene");
}

#[test]
fn model_path_text() {
    assert_eq!(model_path(), "models/FlightHelmet.gltf");
}
