use vstd::prelude::*;
use crate::match_app::{initial_model, MatchApp};

verus! {

/// A request to the lobby.
#[derive(Debug, Clone, Copy, PartialEq, Eq, Structural)]
pub enum LobbyOperation {
    CreateLobby,
}

/// The lobby's stored state.
pub struct LobbyState {
    pub created: bool,
}

/// The lobby: on request it hands out a fresh match coordinator.
pub struct LobbyApp {
    pub state: LobbyState,
}

impl LobbyApp {
    /// A lobby marked as created.
    pub fn initialize() -> (app: LobbyApp)
        ensures
            app.state.created,
    {
        LobbyApp { state: LobbyState { created: true } }
    }

    /// Answers `CreateLobby` with a new coordinator that holds no match yet;
    /// the lobby itself is unchanged.
    pub fn execute_operation(&mut self, operation: LobbyOperation) -> (m: MatchApp)
        ensures
            final(self).state.created == old(self).state.created,
            m.wf(),
            m.state@ == initial_model(),
    {
        match operation {
            LobbyOperation::CreateLobby => MatchApp::initialize(),
        }
    }

    /// The lobby takes no messages that change it.
    pub fn execute_message(&mut self, message: ())
        ensures
            final(self).state.created == old(self).state.created,
    {
    }

    /// The lobby's query carries nothing.
    pub fn handle_query(&self, query: ()) {
    }
}

} // verus!
