use hstack::agent::Error;
use hstack::json::json_eq;
use hstack::planner_reply::extract_first_json_value;
use hstack::openai::{
    api_status_error, authorization_value, chat_completions_url, first_choice, openai_request_body,
    role_text, TEMPERATURE,
};
use hstack::provider::{Message, Role, Tool, ToolFunction};

#[test]
fn completions_url_drops_trailing_slashes() {
    assert_eq!(chat_completions_url("http://localhost:1234/v1///"), "http://localhost:1234/v1/chat/completions");
    assert_eq!(chat_completions_url("https://api.example.com"), "https://api.example.com/chat/completions");
}

#[test]
fn roles_have_wire_names() {
    assert_eq!(role_text(Role::System), "system");
    assert_eq!(role_text(Role::User), "user");
    assert_eq!(role_text(Role::Assistant), "assistant");
    assert_eq!(role_text(Role::Tool), "tool");
}

#[test]
fn authorization_adds_bearer_once() {
    assert_eq!(authorization_value(""), None);
    assert_eq!(authorization_value("sk-1"), Some("Bearer sk-1".to_string()));
    assert_eq!(authorization_value("Bearer sk-1"), Some("Bearer sk-1".to_string()));
}

#[test]
fn request_body_sends_only_messages_with_text() {
    let messages = vec![
        Message::text(Role::System, "be brief".to_string()),
        Message { role: Role::Assistant, content: None, tool_calls: Some(vec![]), tool_call_id: None, name: None },
        Message::text(Role::User, "hi".to_string()),
    ];
    let body = openai_request_body("m1", &messages, None);
    let expected = extract_first_json_value(
        "{\"model\":\"m1\",\"messages\":[{\"role\":\"system\",\"content\":\"be brief\"},{\"role\":\"user\",\"content\":\"hi\"}],\"temperature\":0.7}",
    )
    .unwrap();
    assert!(json_eq(&body, &expected), "{:?}", body);
    assert_eq!(TEMPERATURE, "0.7");
}

#[test]
fn request_body_offers_tools_with_auto_choice() {
    let tools = vec![Tool {
        tool_type: "function".to_string(),
        function: ToolFunction {
            name: "identity".to_string(),
            description: "done".to_string(),
            parameters: extract_first_json_value("{\"type\":\"object\"}").unwrap(),
        },
    }];
    let body = openai_request_body("m1", &[], Some(&tools));
    let expected = extract_first_json_value(
        "{\"model\":\"m1\",\"messages\":[],\"temperature\":0.7,\"tools\":[{\"type\":\"function\",\"function\":{\"name\":\"identity\",\"description\":\"done\",\"parameters\":{\"type\":\"object\"}}}],\"tool_choice\":\"auto\"}",
    )
    .unwrap();
    assert!(json_eq(&body, &expected), "{:?}", body);
}

#[test]
fn failure_statuses_and_empty_replies_are_errors() {
    match api_status_error(429, "slow down") {
        Error::Provider(m) => assert_eq!(m, "API error (status 429): slow down"),
        other => panic!("unexpected {:?}", other),
    }
    match first_choice(vec![]) {
        Err(Error::Provider(m)) => assert_eq!(m, "API returned empty choices"),
        other => panic!("unexpected {:?}", other),
    }
    let picked = first_choice(vec![
        Message::text(Role::Assistant, "first".to_string()),
        Message::text(Role::Assistant, "second".to_string()),
    ])
    .unwrap();
    assert_eq!(picked.content.as_deref(), Some("first"));
}

#[test]
fn errors_read_as_their_messages() {
    assert_eq!(Error::Network("down".to_string()).message(), "Network error: down");
    assert_eq!(
        Error::Api { status: 503, body: "busy".to_string() }.message(),
        "API error (status 503): busy"
    );
    assert_eq!(Error::MaxIterations.message(), "Max iterations reached");
    assert_eq!(
        Error::RateLimitExceeded { wait_time: "1.5".to_string() }.message(),
        "Rate limit exceeded. Wait 1.5s"
    );
    assert_eq!(Error::Denied("no".to_string()).message(), "Control system denied action: no");
    assert_eq!(Error::World("gone".to_string()).message(), "HStack world error: gone");
}
