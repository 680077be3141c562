//! The load-poll decision.

use bevy::asset::{AssetServer, HandleId, LoadState};
use vstd::prelude::*;
use crate::state::LoadStatus;

verus! {

/// The engine's asset facility, carried through as it is.
#[verifier::external_type_specification]
#[verifier::external_body]
pub struct ExAssetServer(bevy::asset::AssetServer);

/// The engine's identifier of an asset handle, carried through as it is.
#[verifier::external_type_specification]
#[verifier::external_body]
pub struct ExHandleId(bevy::asset::HandleId);

/// What the load-poll callback does on one tick.
#[derive(Clone, Copy, Debug, PartialEq, Eq, Hash, Structural)]
pub enum PollAction {
    /// Nothing; the callback runs again next tick.
    Wait,
    /// Announce the load and request the transition to `Loaded`.
    Advance,
    /// Terminate the process: the load failed.
    Abort,
}

/// One poll of the asset facility: the status it reported and what follows
/// from it.
pub struct Poll {
    pub status: LoadStatus,
    pub action: PollAction,
}

impl PollAction {
    /// The action that a load status calls for: a finished load advances the
    /// state, a failed one is fatal, and any other status leaves everything
    /// as it is.
    pub open spec fn on(status: LoadStatus) -> PollAction {
        match status {
            LoadStatus::Loaded => PollAction::Advance,
            LoadStatus::Failed => PollAction::Abort,
            LoadStatus::InProgress | LoadStatus::Other => PollAction::Wait,
        }
    }

    /// The diagnostic text that goes with an action, if it has one.
    pub open spec fn text(self) -> Option<Seq<char>> {
        match self {
            PollAction::Wait => None,
            PollAction::Advance => Some("All assets loaded!"@),
            PollAction::Abort => Some("Unable to load all assets"@),
        }
    }

    pub fn message(self) -> (text: Option<&'static str>)
        ensures
            text.is_some() == self.text().is_some(),
            text matches Some(t) ==> self.text() == Some(t@),
    {
        match self {
            PollAction::Wait => None,
            PollAction::Advance => Some("All assets loaded!"),
            PollAction::Abort => Some("Unable to load all assets"),
        }
    }
}

/// Decides from the model handle's load status what the load-poll callback
/// does.
pub fn check_asset_loading(status: LoadStatus) -> (action: PollAction)
    ensures
        action == PollAction::on(status),
        action == PollAction::Advance <==> status == LoadStatus::Loaded,
        action == PollAction::Abort <==> status == LoadStatus::Failed,
{
    match status {
        LoadStatus::Loaded => PollAction::Advance,
        LoadStatus::Failed => PollAction::Abort,
        LoadStatus::InProgress | LoadStatus::Other => PollAction::Wait,
    }
}

/// Asks the asset facility through `AssetServer::get_load_state` how far the
/// load behind `handle` has come. "Loading", "loaded" and "failed" keep their
/// meaning; the facility's other two answers, for an asset that was never
/// requested or was dropped again, become `Other`. Nothing is claimed of the
/// answer: it depends on how far the background load has come.
#[verifier::external_body]
fn load_status(server: &AssetServer, handle: HandleId) -> LoadStatus {
    match server.get_load_state(handle) {
        LoadState::Loading => LoadStatus::InProgress,
        LoadState::Loaded => LoadStatus::Loaded,
        LoadState::Failed => LoadStatus::Failed,
        LoadState::NotLoaded => LoadStatus::Other,
        LoadState::Unloaded => LoadStatus::Other,
    }
}

/// Polls the asset facility for the model handle and decides what to do.
/// Which status comes back is the facility's business; the action is the one
/// that this status calls for.
pub fn poll_model(server: &AssetServer, handle: HandleId) -> (poll: Poll)
    ensures
        poll.action == PollAction::on(poll.status),
{
    let status = load_status(server, handle);
    Poll { status, action: check_asset_loading(status) }
}

} // verus!
