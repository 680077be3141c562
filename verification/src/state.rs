//! The loading state and the load status it reacts to.

use vstd::prelude::*;

verus! {

/// Whether the model is ready. The state starts as `Unloaded` and moves to
/// `Loaded` once; there is no way back.
#[derive(Clone, Copy, Debug, PartialEq, Eq, Hash, Structural)]
pub enum LoadingState {
    Unloaded,
    Loaded,
}

impl Default for LoadingState {
    fn default() -> (state: Self)
        ensures
            state == LoadingState::Unloaded,
    {
        LoadingState::Unloaded
    }
}

/// What the asset facility reports for the model handle. `Other` stands for
/// every status besides the three named ones.
#[derive(Clone, Copy, Debug, PartialEq, Eq, Hash, Structural)]
pub enum LoadStatus {
    InProgress,
    Loaded,
    Failed,
    Other,
}

/// The two tags this application attaches to entities.
#[derive(Clone, Copy, Debug, PartialEq, Eq, Hash, Structural)]
pub enum Marker {
    /// On the root entity of the spawned scene.
    Scene,
    /// On the node whose name is the target name.
    Node,
}

impl Marker {
    /// The text a marker announces when it is removed or its entity is
    /// destroyed.
    pub open spec fn teardown_text(self) -> Seq<char> {
        match self {
            Marker::Scene => "Dropping scene marker"@,
            Marker::Node => "Dropping node marker"@,
        }
    }

    pub fn teardown_notice(self) -> (text: &'static str)
        ensures
            text@ == self.teardown_text(),
    {
        match self {
            Marker::Scene => "Dropping scene marker",
            Marker::Node => "Dropping node marker",
        }
    }
}

} // verus!
