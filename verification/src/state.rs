//! The state of the connection to the meeting service: whether the client
//! is connected, what the service has reported so far, and when it last
//! reported anything.

use crate::teams_messages::{ServerMessage, ServerMessageModel};
use vstd::prelude::*;

verus! {

/// Whether the client is connected to the service.
#[derive(Debug, Clone, Copy, PartialEq, Eq, Structural)]
pub enum ConnectionState {
    Connected,
    Disconnected,
}

/// What the state of the service connection holds, as plain values.
pub struct TeamsStateModel {
    pub connection_status: ConnectionState,
    pub state: ServerMessageModel,
    /// Milliseconds since the start of 1970 at which the last message came.
    pub last_received_timestamp: Option<u64>,
}

/// The state of the service connection.
#[derive(Debug, Clone)]
pub struct TeamsState {
    connection_status: ConnectionState,
    state: ServerMessage,
    last_received_timestamp: Option<u64>,
}

impl View for TeamsState {
    type V = TeamsStateModel;

    closed spec fn view(&self) -> TeamsStateModel {
        TeamsStateModel {
            connection_status: self.connection_status,
            state: self.state@,
            last_received_timestamp: self.last_received_timestamp,
        }
    }
}

impl TeamsState {
    /// The state before anything has happened: disconnected, nothing
    /// reported, nothing received.
    pub open spec fn initial() -> TeamsStateModel {
        TeamsStateModel {
            connection_status: ConnectionState::Disconnected,
            state: ServerMessageModel::empty(),
            last_received_timestamp: None,
        }
    }

    pub fn new() -> (r: Self)
        ensures
            r@ == Self::initial(),
    {
        TeamsState {
            connection_status: ConnectionState::Disconnected,
            state: ServerMessage::default(),
            last_received_timestamp: None,
        }
    }

    pub fn connection_status(&self) -> (s: ConnectionState)
        ensures
            s == self@.connection_status,
    {
        self.connection_status
    }

    pub fn set_connection_status(&mut self, status: ConnectionState)
        ensures
            final(self)@ == (TeamsStateModel { connection_status: status, ..old(self)@ }),
    {
        self.connection_status = status;
    }

    /// A copy of what the service has reported so far.
    pub fn state(&self) -> (m: ServerMessage)
        ensures
            m@ == self@.state,
    {
        self.state.duplicate()
    }

    /// Merges a message of the service into what it has reported so far.
    pub fn update_state(&mut self, message: &ServerMessage)
        ensures
            final(self)@ == (TeamsStateModel {
                state: old(self)@.state.merged(message@),
                ..old(self)@
            }),
    {
        self.state.merge(message);
    }

    /// When the last message came, in milliseconds since the start of 1970.
    pub fn last_received_timestamp(&self) -> (t: Option<u64>)
        ensures
            t == self@.last_received_timestamp,
    {
        self.last_received_timestamp
    }

    pub fn set_last_received_timestamp(&mut self, timestamp: u64)
        ensures
            final(self)@ == (TeamsStateModel {
                last_received_timestamp: Some(timestamp),
                ..old(self)@
            }),
    {
        self.last_received_timestamp = Some(timestamp);
    }
}

impl Default for TeamsState {
    fn default() -> (r: Self)
        ensures
            r@ == TeamsState::initial(),
    {
        Self::new()
    }
}

} // verus!
