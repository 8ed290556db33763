//! The actions that start the protocol runner's server, each accepted at
//! one step of the start.

use vstd::prelude::*;
use crate::state::{ProtocolRunnerSpawnServerState, ProtocolRunnerState, State};

verus! {

/// Begins the start: accepted while the runner is idle.
#[derive(Debug, Clone, Copy)]
pub struct ProtocolRunnerSpawnServerInitAction {}

/// The start is under way: accepted after it began.
#[derive(Debug, Clone, Copy)]
pub struct ProtocolRunnerSpawnServerPendingAction {}

/// The start failed: accepted while it is under way.
#[derive(Debug, Clone, Copy)]
pub struct ProtocolRunnerSpawnServerErrorAction {}

/// The start succeeded: accepted while it is under way.
#[derive(Debug, Clone, Copy)]
pub struct ProtocolRunnerSpawnServerSuccessAction {}

impl ProtocolRunnerSpawnServerInitAction {
    pub fn is_enabled(&self, state: &State) -> (yes: bool)
        ensures
            yes == (state.protocol_runner == ProtocolRunnerState::Idle),
    {
        match &state.protocol_runner {
            ProtocolRunnerState::Idle => true,
            _ => false,
        }
    }
}

impl ProtocolRunnerSpawnServerPendingAction {
    pub fn is_enabled(&self, state: &State) -> (yes: bool)
        ensures
            yes == (state.protocol_runner == ProtocolRunnerState::SpawnServer(ProtocolRunnerSpawnServerState::Init)),
    {
        match &state.protocol_runner {
            ProtocolRunnerState::SpawnServer(ProtocolRunnerSpawnServerState::Init) => true,
            _ => false,
        }
    }
}

impl ProtocolRunnerSpawnServerErrorAction {
    pub fn is_enabled(&self, state: &State) -> (yes: bool)
        ensures
            yes == (state.protocol_runner == ProtocolRunnerState::SpawnServer(
                ProtocolRunnerSpawnServerState::Pending,
            )),
    {
        match &state.protocol_runner {
            ProtocolRunnerState::SpawnServer(ProtocolRunnerSpawnServerState::Pending) => true,
            _ => false,
        }
    }
}

impl ProtocolRunnerSpawnServerSuccessAction {
    pub fn is_enabled(&self, state: &State) -> (yes: bool)
        ensures
            yes == (state.protocol_runner == ProtocolRunnerState::SpawnServer(
                ProtocolRunnerSpawnServerState::Pending,
            )),
    {
        match &state.protocol_runner {
            ProtocolRunnerState::SpawnServer(ProtocolRunnerSpawnServerState::Pending) => true,
            _ => false,
        }
    }
}

} // verus!
