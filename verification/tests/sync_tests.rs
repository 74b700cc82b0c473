use sha2::Digest;
use hstack::clock::UtcTimestamp;
use hstack::planner_reply::extract_first_json_value;
use hstack::pending::{append_pending_action, push_pending_capped, MAX_PENDING_ACTIONS};
use hstack::statehash::calculate_state_hash;
use hstack::sync::{project_state, reconcile_state, SyncAction, SyncActionType};
use hstack::ticket::{Ticket, TicketPayload, TicketStatus, TicketType};

fn task_payload(title: &str) -> TicketPayload {
    TicketPayload::Task {
        title: title.to_string(),
        scheduled_time_iso: None,
        rrule: None,
        duration_minutes: None,
        completed: Some(false),
    }
}

fn action(id: &str, action_type: SyncActionType, entity: &str, payload: Option<TicketPayload>) -> SyncAction {
    SyncAction {
        action_id: id.to_string(),
        action_type,
        entity_id: entity.to_string(),
        entity_type: "TASK".to_string(),
        status: Some(TicketStatus::Idle),
        payload,
        notes: None,
        timestamp: "now".to_string(),
    }
}

fn base_ticket(id: &str, title: &str) -> Ticket {
    let now = UtcTimestamp { seconds: 0, nanos: 0 };
    Ticket {
        id: id.to_string(),
        title: title.to_string(),
        ticket_type: TicketType::Task,
        status: TicketStatus::Idle,
        payload: task_payload(title),
        notes: None,
        created_at: now,
        updated_at: now,
    }
}

#[test]
fn test_reconcile_create() {
    let base_tickets: Vec<Ticket> = vec![];
    let pending = vec![action("a1", SyncActionType::Create, "t1", Some(task_payload("Test")))];

    let reconciled = reconcile_state(&base_tickets, pending);
    assert_eq!(reconciled.len(), 1);
    assert_eq!(reconciled[0].entity_id, "t1");
}

#[test]
fn test_reconcile_already_created() {
    let base_tickets = vec![base_ticket("t1", "Test")];
    let pending = vec![action("a1", SyncActionType::Create, "t1", Some(task_payload("Test")))];

    let reconciled = reconcile_state(&base_tickets, pending);
    assert_eq!(reconciled.len(), 0);
}

#[test]
fn reconcile_keeps_unconfirmed_updates_and_deletions() {
    let base_tickets = vec![base_ticket("t1", "Test")];
    let pending = vec![
        action("a1", SyncActionType::Update, "t1", Some(task_payload("Renamed"))),
        action("a2", SyncActionType::Update, "t1", Some(task_payload("Test"))),
        action("a3", SyncActionType::Delete, "t1", None),
        action("a4", SyncActionType::Delete, "t9", None),
    ];
    let reconciled = reconcile_state(&base_tickets, pending);
    let ids: Vec<&str> = reconciled.iter().map(|a| a.action_id.as_str()).collect();
    assert_eq!(ids, vec!["a1", "a3"]);
    let again = reconcile_state(&base_tickets, reconciled);
    assert_eq!(again.len(), 2);
}

#[test]
fn projection_replays_pending_actions() {
    let base = vec![base_ticket("t1", "One"), base_ticket("t2", "Two")];
    let actions = vec![
        action("a1", SyncActionType::Create, "t3", Some(task_payload("Three"))),
        action("a2", SyncActionType::Delete, "t1", None),
        action("a3", SyncActionType::Update, "t2", Some(TicketPayload::Generic(extract_first_json_value(r#"{"title": "Deux"}"#).unwrap()))),
    ];
    let projected = project_state(base, &actions);
    let ids: Vec<&str> = projected.iter().map(|t| t.id.as_str()).collect();
    assert_eq!(ids, vec!["t2", "t3"]);
    assert_eq!(projected[0].payload.get_title(), "Deux");
    assert_eq!(projected[1].title, "Three");
    let unchanged = project_state(vec![base_ticket("t1", "One")], &[]);
    assert_eq!(unchanged.len(), 1);
    assert_eq!(unchanged[0].title, "One");
}

#[test]
fn pending_queue_keeps_the_newest_fifty() {
    let mut actions: Vec<SyncAction> = Vec::new();
    for i in 0..60 {
        push_pending_capped(&mut actions, action(&format!("a{}", i), SyncActionType::Delete, "t", None));
    }
    assert_eq!(actions.len(), MAX_PENDING_ACTIONS);
    assert_eq!(actions[0].action_id, "a10");
    assert_eq!(actions[49].action_id, "a59");
    append_pending_action(&mut actions, SyncActionType::Create, "t7".to_string(), "TASK".to_string(), None, None, None);
    assert_eq!(actions.len(), 50);
    assert_eq!(actions[0].action_id, "a11");
    assert_eq!(actions[49].entity_id, "t7");
    assert_eq!(actions[49].action_id.len(), 36);
}

#[test]
fn state_hash_is_order_independent_and_hex() {
    let a = vec![base_ticket("t2", "Two"), base_ticket("t1", "One")];
    let b = vec![base_ticket("t1", "One"), base_ticket("t2", "Two")];
    let ha = calculate_state_hash(&a).unwrap();
    let hb = calculate_state_hash(&b).unwrap();
    assert_eq!(ha, hb);
    assert_eq!(ha.len(), 64);
    assert!(ha.chars().all(|c| c.is_ascii_hexdigit() && !c.is_ascii_uppercase()));
    let empty = calculate_state_hash(&[]).unwrap();
    assert_eq!(empty, "4f53cda18c2baa0c0354bb5f9a3ecbe5ed12ab4d8e11ba873c2f11161202b945");
}

#[test]
fn only_one_ticket_stays_in_focus() {
    let mut focused = base_ticket("f1", "Walk");
    focused.status = TicketStatus::InFocus;
    focused.created_at = UtcTimestamp { seconds: 7, nanos: 0 };
    focused.updated_at = UtcTimestamp { seconds: 9, nanos: 0 };
    let base = vec![focused, base_ticket("t2", "Read")];
    let mut create = action("a1", SyncActionType::Create, "c1", Some(task_payload("Directions")));
    create.status = Some(TicketStatus::InFocus);
    let state = project_state(base, &[create]);
    assert_eq!(state.len(), 3);
    assert_eq!(state[0].status, TicketStatus::Idle);
    assert_eq!(state[0].created_at, UtcTimestamp { seconds: 7, nanos: 0 });
    assert_eq!(state[0].updated_at, UtcTimestamp { seconds: 9, nanos: 0 });
    assert_eq!(state[1].status, TicketStatus::Idle);
    assert_eq!(state[2].id, "c1");
    assert_eq!(state[2].status, TicketStatus::InFocus);

    let mut refocus = action("a2", SyncActionType::Update, "t2", None);
    refocus.status = Some(TicketStatus::InFocus);
    let state = project_state(state, &[refocus]);
    let focused: Vec<&str> = state.iter().filter(|t| t.status == TicketStatus::InFocus).map(|t| t.id.as_str()).collect();
    assert_eq!(focused, vec!["t2"]);
}

fn stamped_ticket(id: &str, title: &str, created: i64, updated: i64) -> Ticket {
    let mut t = base_ticket(id, title);
    t.created_at = UtcTimestamp { seconds: created, nanos: 0 };
    t.updated_at = UtcTimestamp { seconds: updated, nanos: 0 };
    t
}

fn same_tickets(a: &[Ticket], b: &[Ticket]) {
    assert_eq!(a.len(), b.len());
    for (x, y) in a.iter().zip(b.iter()) {
        assert_eq!(x.id, y.id);
        assert_eq!(x.title, y.title);
        assert_eq!(x.ticket_type, y.ticket_type);
        assert_eq!(x.status, y.status);
        assert!(x.payload.same_as(&y.payload));
        assert_eq!(x.notes, y.notes);
        assert_eq!(x.created_at, y.created_at);
        assert_eq!(x.updated_at, y.updated_at);
    }
}

#[test]
fn projection_keeps_timestamps_in_place() {
    let base = vec![stamped_ticket("d", "First", 1, 2), stamped_ticket("d", "Second", 3, 4), stamped_ticket("e", "Third", 5, 6)];
    let copy = vec![stamped_ticket("d", "First", 1, 2), stamped_ticket("d", "Second", 3, 4), stamped_ticket("e", "Third", 5, 6)];
    let unchanged = project_state(base, &[]);
    same_tickets(&unchanged, &copy);

    let created = project_state(unchanged, &[action("a1", SyncActionType::Create, "n", Some(task_payload("New")))]);
    assert_eq!(created.len(), 4);
    same_tickets(&created[..3], &copy);
    assert_eq!(created[3].id, "n");
    assert_eq!(created[3].created_at, created[3].updated_at);

    let deleted = project_state(created, &[action("a2", SyncActionType::Delete, "d", None)]);
    assert_eq!(deleted.len(), 2);
    same_tickets(&deleted[..1], &copy[2..]);
    assert_eq!(deleted[1].id, "n");
}

#[test]
fn state_hash_writes_typed_payload_fields_in_declaration_order() {
    let tasks = vec![base_ticket("t1", "A")];
    let text = "[{\"id\":\"t1\",\"type\":\"TASK\",\"payload\":{\"title\":\"A\",\"scheduled_time_iso\":null,\"rrule\":null,\"duration_minutes\":null,\"completed\":false},\"status\":\"idle\"}]";
    let mut hasher = sha2::Sha256::new();
    hasher.update(text.as_bytes());
    let expected = format!("{:x}", hasher.finalize());
    assert_eq!(calculate_state_hash(&tasks).unwrap(), expected);
}
