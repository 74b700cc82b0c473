use hstack::prompts::{
    planner_prompt, recent_actions_text, system_prompt, PromptContext, PLANNER_PROMPT_HEAD,
    SYSTEM_PROMPT_RULES,
};
use hstack::settings::UserSettings;
use hstack::sync::{SyncAction, SyncActionType};
use hstack::ticket::TicketPayload;

fn change(n: u32, action_type: SyncActionType, title: Option<&str>) -> SyncAction {
    SyncAction {
        action_id: format!("a{}", n),
        action_type,
        entity_id: format!("t{}", n),
        entity_type: "TASK".to_string(),
        status: None,
        payload: title.map(|t| TicketPayload::Task {
            title: t.to_string(),
            scheduled_time_iso: None,
            rrule: None,
            duration_minutes: None,
            completed: None,
        }),
        notes: None,
        timestamp: format!("T{}", n),
    }
}

#[test]
fn digest_lists_the_latest_five_newest_first() {
    let actions: Vec<SyncAction> = (1..=6)
        .map(|n| change(n, SyncActionType::Update, Some(&format!("Task {}", n))))
        .collect();
    assert_eq!(
        recent_actions_text(&actions),
        "- Update: Task 6 (TASK) at T6\n- Update: Task 5 (TASK) at T5\n- Update: Task 4 (TASK) at T4\n- Update: Task 3 (TASK) at T3\n- Update: Task 2 (TASK) at T2"
    );
}

#[test]
fn digest_of_few_or_untitled_changes() {
    assert_eq!(recent_actions_text(&[]), "");
    let actions = vec![change(1, SyncActionType::Delete, None), change(2, SyncActionType::Create, Some("Yoga"))];
    assert_eq!(
        recent_actions_text(&actions),
        "- Create: Yoga (TASK) at T2\n- Delete: Unknown (TASK) at T1"
    );
}

fn context() -> PromptContext {
    PromptContext::new(
        "09:30".to_string(),
        "2026-03-20".to_string(),
        "Fri".to_string(),
        "+01:00".to_string(),
        "[]".to_string(),
        &UserSettings::default(),
        &[change(1, SyncActionType::Create, Some("Yoga"))],
    )
}

#[test]
fn system_prompt_fills_in_the_context() {
    let c = context();
    assert_eq!(c.saved_locations, "- None");
    let p = system_prompt(&c);
    let expected_head = "\nRECENT ACTIONS:\n- Create: Yoga (TASK) at T1\n\nCURRENT STACK:\n[]\n\nUSER CONTEXT:\n- Local Time: 09:30\n- Local Date: 2026-03-20\n- Today is Fri\n- UTC Offset: +01:00\n\nSAVED LOCATIONS:\n- None";
    assert_eq!(p, format!("{}{}", expected_head, SYSTEM_PROMPT_RULES));
    assert!(p.ends_with("Date qualifiers and times belong in `rrule`/`DTSTART`, not in the title."));
}

#[test]
fn planner_prompt_fills_in_the_context_and_tools() {
    let p = planner_prompt(&context(), "[\"tools\"]");
    assert!(p.starts_with(PLANNER_PROMPT_HEAD));
    assert!(p.contains("- Local Time: 09:30\n- Local Date: 2026-03-20\n- Today is Fri\n- UTC Offset: +01:00\n\nSAVED LOCATIONS:\n- None\n\nCURRENT STACK:\n[]\n\nRECENT ACTIONS:\n- Create: Yoga (TASK) at T1\n\nAVAILABLE TOOLS:\n[\"tools\"]\n\nReturn exactly this JSON shape:\n{\n  \"user_goal\": \"string\","));
    assert!(p.contains("    \"arguments\": {}\n  }],"));
}
