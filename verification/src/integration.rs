//! Vocabulary shared with external services: sign-in identities, connected
//! accounts, tickets bound to remote resources, and the outbox of remote work.
use vstd::prelude::*;
use crate::clock::UtcTimestamp;
use crate::json::JsonValue;

verus! {

/// How a user signs in.
#[derive(Clone, Copy, Debug, PartialEq, Eq, Structural)]
pub enum AuthProvider {
    Password,
    Google,
}

/// A connected external service.
#[derive(Clone, Copy, Debug, PartialEq, Eq, Structural)]
pub enum IntegrationProvider {
    GoogleCalendar,
    GoogleTasks,
    Gmail,
    GitHub,
    Jira,
}

/// The kind of a remote resource.
#[derive(Clone, Copy, Debug, PartialEq, Eq, Structural)]
pub enum ExternalResourceKind {
    CalendarEvent,
    Task,
    EmailThread,
    Issue,
    PullRequest,
}

/// The health of a connected account.
#[derive(Clone, Copy, Debug, PartialEq, Eq, Structural)]
pub enum ConnectionStatus {
    Active,
    NeedsReconnect,
    Revoked,
    Disabled,
}

/// Which way a binding synchronises.
#[derive(Clone, Copy, Debug, PartialEq, Eq, Structural)]
pub enum BindingSyncMode {
    ReadOnly,
    Bidirectional,
    ExportOnly,
}

/// The state of a binding.
#[derive(Clone, Copy, Debug, PartialEq, Eq, Structural)]
pub enum BindingStatus {
    Healthy,
    PendingPush,
    Failed,
    Conflict,
    Paused,
}

/// What an outbox job does remotely.
#[derive(Clone, Copy, Debug, PartialEq, Eq, Structural)]
pub enum OutboxJobKind {
    CreateRemote,
    UpdateRemote,
    DeleteRemote,
    RefreshRemote,
}

/// Who a user is at a sign-in provider.
#[derive(Debug)]
pub struct AuthIdentity {
    pub provider: AuthProvider,
    pub provider_user_id: String,
    pub email: Option<String>,
    pub display_name: Option<String>,
}

/// A connected external account.
#[derive(Debug)]
pub struct IntegrationConnection {
    pub id: String,
    pub provider: IntegrationProvider,
    pub account_label: String,
    pub status: ConnectionStatus,
    pub scopes: Vec<String>,
    pub last_synced_at: Option<UtcTimestamp>,
}

/// A ticket bound to a remote resource.
#[derive(Debug)]
pub struct TicketBinding {
    pub id: String,
    pub ticket_id: String,
    pub connection_id: String,
    pub provider: IntegrationProvider,
    pub resource_kind: ExternalResourceKind,
    pub remote_resource_id: String,
    pub sync_mode: BindingSyncMode,
    pub status: BindingStatus,
    pub last_error: Option<String>,
    pub last_synced_at: Option<UtcTimestamp>,
}

/// A remote resource as last fetched.
#[derive(Debug)]
pub struct ExternalResource {
    pub id: String,
    pub connection_id: String,
    pub provider: IntegrationProvider,
    pub resource_kind: ExternalResourceKind,
    pub remote_resource_id: String,
    pub remote_version: Option<String>,
    pub title: String,
    pub url: Option<String>,
    pub payload: JsonValue,
    pub remote_updated_at: Option<UtcTimestamp>,
    pub fetched_at: UtcTimestamp,
}

/// Remote work waiting to be done for a binding.
#[derive(Debug)]
pub struct IntegrationOutboxJob {
    pub id: String,
    pub binding_id: String,
    pub job_kind: OutboxJobKind,
    pub attempt_count: i32,
    pub next_attempt_at: UtcTimestamp,
    pub last_error: Option<String>,
}

} // verus!
