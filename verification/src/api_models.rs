//! The messages exchanged with the sync server.
use vstd::prelude::*;
use crate::clock::UtcTimestamp;
use crate::ticket::TicketPayload;

verus! {

/// A sign-up request.
#[derive(Debug)]
pub struct UserCreate {
    pub first_name: String,
    pub last_name: Option<String>,
    pub password: Option<String>,
}

/// A sign-in request.
#[derive(Debug)]
pub struct UserLogin {
    pub first_name: String,
    pub password: String,
}

/// What a successful sign-in or sign-up returns.
#[derive(Debug)]
pub struct AuthResponse {
    pub token: String,
    pub user: UserDTO,
}

/// A user as the server shows it.
#[derive(Debug)]
pub struct UserDTO {
    pub id: i64,
    pub first_name: String,
    pub last_name: String,
    pub created_at: UtcTimestamp,
}

/// A request to create a ticket.
#[derive(Debug)]
pub struct CreateTaskPayload {
    pub task_type: String,
    pub status: String,
    pub payload: Option<TicketPayload>,
}

/// One local action sent to the server; ids are UUIDs in hyphenated form.
#[derive(Debug)]
pub struct SyncActionInput {
    pub action_id: String,
    pub action_type: String,
    pub entity_id: String,
    pub entity_type: String,
    pub payload: Option<TicketPayload>,
    pub status: Option<String>,
}

/// A batch of local actions.
#[derive(Debug)]
pub struct SyncActionsMessage {
    pub message_type: String,
    pub actions: Vec<SyncActionInput>,
}

/// The server's acknowledgement of actions, with the hash of its state.
#[derive(Debug)]
pub struct SyncAck {
    pub message_type: String,
    pub ack_action_ids: Vec<String>,
    pub server_hash: String,
}

} // verus!
