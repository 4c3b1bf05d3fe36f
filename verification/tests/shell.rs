use serina::dispatch::{
    create_task_from_email_op, generate_reply_op, generate_task_from_email_op, get_config_op,
    get_email_op, get_emails_op, get_unread_count_op, health_check_op, mark_email_read_op,
    save_config_op, send_reply_op, snooze_email_op, summarize_email_op,
};
use serina::proxy::{
    classify_response, parse_method, prepare_request, BackendOperation, BackendResult, Method,
};
use serina::quiet::{is_quiet_at, is_quiet_hours, parse_time_of_day};
use serina::tray::{
    menu_label, parse_menu_id, route_tray_event, tray_menu, TrayAction, TrayEvent, TrayMenuEntry,
    TrayMenuId,
};
use serina::utils::{format_email_count, is_valid_api_key, sanitize_path};
use serina::windows::{ToolkitAction, WindowKey, WindowRegistry};

#[test]
fn test_quiet_hours_same_day() {
    assert!(!is_quiet_hours("25:00", "26:00"));
}

#[test]
fn test_format_email_count() {
    assert_eq!(format_email_count(0), "No new emails");
    assert_eq!(format_email_count(1), "1 new email");
    assert_eq!(format_email_count(5), "5 new emails");
}

#[test]
fn test_api_key_validation() {
    assert!(is_valid_api_key("sk-1234567890", "openai"));
    assert!(is_valid_api_key("sk-or-1234567890", "openrouter"));
    assert!(!is_valid_api_key("", "openai"));
    assert!(!is_valid_api_key("invalid", "openai"));
}

#[test]
fn test_api_key_unknown_provider_length() {
    assert!(is_valid_api_key("12345678901", "other"));
    assert!(!is_valid_api_key("1234567890", "other"));
}

#[test]
fn test_format_email_count_multidigit() {
    assert_eq!(format_email_count(120), "120 new emails");
}

#[test]
fn test_parse_time_of_day() {
    assert_eq!(parse_time_of_day("00:00"), Some(0));
    assert_eq!(parse_time_of_day("23:59"), Some(23 * 60 + 59));
    assert_eq!(parse_time_of_day("09:30"), Some(9 * 60 + 30));
    assert_eq!(parse_time_of_day("24:00"), None);
    assert_eq!(parse_time_of_day("10:60"), None);
    assert_eq!(parse_time_of_day("9:30"), None);
    assert_eq!(parse_time_of_day("ab:cd"), None);
    assert_eq!(parse_time_of_day(""), None);
}

#[test]
fn test_quiet_hours_same_day_boundaries() {
    // [09:00, 17:00], both endpoints inclusive.
    assert!(is_quiet_at(9 * 60, "09:00", "17:00"));
    assert!(is_quiet_at(12 * 60, "09:00", "17:00"));
    assert!(is_quiet_at(17 * 60, "09:00", "17:00"));
    assert!(!is_quiet_at(8 * 60 + 59, "09:00", "17:00"));
    assert!(!is_quiet_at(17 * 60 + 1, "09:00", "17:00"));
}

#[test]
fn test_quiet_hours_overnight() {
    // [22:00, 08:00] wraps past midnight.
    assert!(is_quiet_at(22 * 60, "22:00", "08:00"));
    assert!(is_quiet_at(23 * 60 + 59, "22:00", "08:00"));
    assert!(is_quiet_at(0, "22:00", "08:00"));
    assert!(is_quiet_at(8 * 60, "22:00", "08:00"));
    assert!(!is_quiet_at(8 * 60 + 1, "22:00", "08:00"));
    assert!(!is_quiet_at(21 * 60 + 59, "22:00", "08:00"));
}

#[test]
fn test_notification_suppression_scenario() {
    // quiet_hours_start = 22:00, quiet_hours_end = 08:00: a notification at
    // 23:30 is suppressed, one at 09:00 is shown.
    assert!(is_quiet_at(23 * 60 + 30, "22:00", "08:00"));
    assert!(!is_quiet_at(9 * 60, "22:00", "08:00"));
}

#[test]
fn test_quiet_hours_invalid_inputs() {
    assert!(!is_quiet_at(12 * 60, "25:00", "26:00"));
    assert!(!is_quiet_at(12 * 60, "22:00", "8:00"));
    assert!(!is_quiet_at(12 * 60, "", "08:00"));
}

#[test]
fn test_sanitize_path() {
    assert_eq!(sanitize_path("/tmp/log file!.txt"), "/tmp/log_file_.txt");
    assert_eq!(sanitize_path("C:\\Users\\me"), "C_\\Users\\me");
    assert_eq!(sanitize_path("plain"), "plain");
}

#[test]
fn test_get_emails_default_limit() {
    let op = get_emails_op(None);
    assert_eq!(op.endpoint, "/emails?limit=20");
    assert_eq!(op.method, "GET");
    assert!(op.body.is_none());
    let op = get_emails_op(Some(5));
    assert_eq!(op.endpoint, "/emails?limit=5");
}

#[test]
fn test_snooze_default_minutes() {
    let op = snooze_email_op("abc", None);
    assert_eq!(op.endpoint, "/emails/abc/snooze?minutes=60");
    assert_eq!(op.method, "POST");
    assert!(op.body.is_none());
    let op = snooze_email_op("abc", Some(15));
    assert_eq!(op.endpoint, "/emails/abc/snooze?minutes=15");
}

#[test]
fn test_generate_reply_default_instruction() {
    let op = generate_reply_op("hello", None);
    assert_eq!(op.endpoint, "/llm/generate-reply");
    assert_eq!(
        op.body.as_deref(),
        Some("{\"email_content\":\"hello\",\"instruction\":\"\"}")
    );
    let op = generate_reply_op("hello", Some("be brief"));
    assert_eq!(
        op.body.as_deref(),
        Some("{\"email_content\":\"hello\",\"instruction\":\"be brief\"}")
    );
}

#[test]
fn test_send_reply_body_escaping() {
    let op = send_reply_op("id1", "he said \"hi\"\nbye");
    assert_eq!(op.endpoint, "/emails/id1/reply");
    assert_eq!(
        op.body.as_deref(),
        Some("{\"reply_text\":\"he said \\\"hi\\\"\\nbye\"}")
    );
}

#[test]
fn test_create_task_body() {
    let op = create_task_from_email_op("e1", "Title", "Desc");
    assert_eq!(op.endpoint, "/emails/e1/create-task");
    assert_eq!(
        op.body.as_deref(),
        Some("{\"description\":\"Desc\",\"title\":\"Title\"}")
    );
}

#[test]
fn test_fixed_endpoints() {
    assert_eq!(get_email_op("unknown-id").endpoint, "/emails/unknown-id");
    assert_eq!(mark_email_read_op("x").endpoint, "/emails/x/mark-read");
    assert_eq!(get_unread_count_op().endpoint, "/emails/unread-count");
    assert_eq!(summarize_email_op("c").endpoint, "/llm/summarize");
    assert_eq!(generate_task_from_email_op("c").endpoint, "/llm/generate-task");
    assert_eq!(get_config_op().endpoint, "/config");
    assert_eq!(health_check_op().endpoint, "/health");
    assert_eq!(
        summarize_email_op("c").body.as_deref(),
        Some("{\"email_content\":\"c\"}")
    );
}

#[test]
fn test_save_config_passthrough() {
    let op = save_config_op("{\"ui\":{\"dark_mode\":true}}");
    assert_eq!(op.endpoint, "/config");
    assert_eq!(
        op.body.as_deref(),
        Some("{\"config\":{\"ui\":{\"dark_mode\":true}}}")
    );
}

#[test]
fn test_patch_rejected_locally() {
    let op = BackendOperation {
        endpoint: String::from("/health"),
        method: String::from("PATCH"),
        body: None,
    };
    let r = prepare_request(&op);
    assert_eq!(r.err().as_deref(), Some("Unsupported HTTP method"));
}

#[test]
fn test_method_parsing_case_insensitive() {
    assert_eq!(parse_method("GET"), Some(Method::Get));
    assert_eq!(parse_method("get"), Some(Method::Get));
    assert_eq!(parse_method("Post"), Some(Method::Post));
    assert_eq!(parse_method("pUt"), Some(Method::Put));
    assert_eq!(parse_method("delete"), Some(Method::Delete));
    assert_eq!(parse_method("PATCH"), None);
    assert_eq!(parse_method(""), None);
}

#[test]
fn test_prepare_request_builds_url() {
    let op = get_email_op("unknown-id");
    let p = prepare_request(&op).unwrap();
    assert_eq!(p.url, "http://127.0.0.1:8000/emails/unknown-id");
    assert_eq!(p.method.as_str(), "GET");
    assert!(!p.declares_json_content_type());
    let p = prepare_request(&send_reply_op("a", "b")).unwrap();
    assert!(p.declares_json_content_type());
}

#[test]
fn test_get_email_not_found_carries_status() {
    // The backend answered 404 for GET /emails/unknown-id: the command
    // resolves to a failure carrying status 404.
    let r = classify_response(404, String::from("missing"));
    assert!(matches!(r, BackendResult::StatusFailure(404)));
    assert_eq!(r.into_text_result().err().as_deref(), Some("HTTP 404: 404"));
}

#[test]
fn test_classify_success_returns_body() {
    let r = classify_response(200, String::from("[]"));
    let text = r.into_text_result();
    assert_eq!(text.ok().as_deref(), Some("[]"));
    let r = classify_response(204, String::from(""));
    assert!(matches!(r, BackendResult::Success(_)));
}

#[test]
fn test_transport_failure_message() {
    let r = BackendResult::TransportFailure(String::from("connection refused"));
    assert_eq!(r.into_text_result().err().as_deref(), Some("connection refused"));
}

#[test]
fn test_status_failure_message_format() {
    let r = BackendResult::StatusFailure(500);
    assert_eq!(r.into_text_result().err().as_deref(), Some("HTTP 500: 500"));
}

#[test]
fn test_close_closed_reminder_is_noop() {
    let mut reg = WindowRegistry::new();
    let actions = reg.close_window(WindowKey::Reminder);
    assert!(actions.is_empty());
    let actions = reg.close_window(WindowKey::Reminder);
    assert!(actions.is_empty());
    assert!(reg.reminder.is_none());
}

#[test]
fn test_reminder_auto_close_then_explicit_close() {
    let mut reg = WindowRegistry::new();
    reg.show_reminder(2, None);
    let actions = reg.close_window(WindowKey::Reminder);
    assert_eq!(actions.len(), 1);
    assert!(matches!(actions[0], ToolkitAction::Close(WindowKey::Reminder)));
    // The detached timer fires after the explicit close: still a no-op.
    let actions = reg.close_window(WindowKey::Reminder);
    assert!(actions.is_empty());
}

#[test]
fn test_reminder_reopen_keeps_one_popup() {
    let mut reg = WindowRegistry::new();
    let first = reg.show_reminder(3, None);
    assert!(matches!(first[0], ToolkitAction::Create(_)));
    let second = reg.show_reminder(5, None);
    // The live popup is closed before the new one is built.
    assert!(matches!(second[0], ToolkitAction::Close(WindowKey::Reminder)));
    assert!(matches!(second[1], ToolkitAction::Create(_)));
    assert_eq!(reg.reminder.as_ref().unwrap().url, "/reminder?count=5");
    assert!(reg.settings.is_none());
}

#[test]
fn test_reminder_build_and_position() {
    let mut reg = WindowRegistry::new();
    let actions = reg.show_reminder(4, Some((1920, 1080)));
    assert_eq!(actions.len(), 3);
    match &actions[0] {
        ToolkitAction::Create(ws) => {
            assert_eq!(ws.url, "/reminder?count=4");
            assert_eq!(ws.title, "SERINA Reminder");
            assert_eq!((ws.width, ws.height), (320, 120));
            assert!(!ws.resizable && !ws.decorations);
            assert!(ws.always_on_top && ws.skip_taskbar);
        }
        other => panic!("expected Create, got {:?}", other),
    }
    assert!(matches!(
        actions[1],
        ToolkitAction::SetPosition(WindowKey::Reminder, 1580, 940)
    ));
    assert!(matches!(
        actions[2],
        ToolkitAction::ScheduleClose(WindowKey::Reminder, 10)
    ));
}

#[test]
fn test_settings_created_then_reused() {
    let mut reg = WindowRegistry::new();
    let first = reg.show_settings();
    assert_eq!(first.len(), 1);
    match &first[0] {
        ToolkitAction::Create(ws) => {
            assert_eq!(ws.url, "/settings");
            assert_eq!(ws.title, "SERINA Settings");
            assert_eq!((ws.width, ws.height), (600, 500));
            assert!(!ws.resizable && ws.decorations && ws.centered);
        }
        other => panic!("expected Create, got {:?}", other),
    }
    let second = reg.show_settings();
    assert_eq!(second.len(), 3);
    assert!(matches!(second[0], ToolkitAction::Show(WindowKey::Settings)));
    assert!(matches!(second[1], ToolkitAction::Center(WindowKey::Settings)));
    assert!(matches!(second[2], ToolkitAction::Focus(WindowKey::Settings)));
}

#[test]
fn test_window_controls() {
    let mut reg = WindowRegistry::new();
    let actions = reg.minimize_window(WindowKey::Main).unwrap();
    assert!(matches!(actions[0], ToolkitAction::Minimize(WindowKey::Main)));
    let actions = reg.toggle_maximize_window(WindowKey::Main).unwrap();
    assert!(matches!(actions[0], ToolkitAction::Maximize(WindowKey::Main)));
    let actions = reg.toggle_maximize_window(WindowKey::Main).unwrap();
    assert!(matches!(actions[0], ToolkitAction::Unmaximize(WindowKey::Main)));
    let err = reg.minimize_window(WindowKey::Settings).err();
    assert_eq!(err.as_deref(), Some("window not found"));
}

#[test]
fn test_tray_routing() {
    assert_eq!(route_tray_event(&TrayEvent::LeftClick), TrayAction::ShowMainWindow);
    let show = TrayEvent::MenuItemClick(parse_menu_id("show"));
    assert_eq!(route_tray_event(&show), TrayAction::ShowMainWindow);
    let settings = TrayEvent::MenuItemClick(parse_menu_id("settings"));
    assert_eq!(route_tray_event(&settings), TrayAction::EmitShowSettings);
    let quit = TrayEvent::MenuItemClick(parse_menu_id("quit"));
    assert_eq!(route_tray_event(&quit), TrayAction::ExitProcess);
    let other = TrayEvent::MenuItemClick(parse_menu_id("bogus"));
    assert_eq!(route_tray_event(&other), TrayAction::Ignore);
    assert_eq!(route_tray_event(&TrayEvent::Other), TrayAction::Ignore);
}

#[test]
fn test_tray_menu_layout() {
    let entries = tray_menu();
    assert_eq!(entries.len(), 5);
    assert!(matches!(entries[0], TrayMenuEntry::Item(TrayMenuId::Show)));
    assert!(matches!(entries[1], TrayMenuEntry::Separator));
    assert!(matches!(entries[2], TrayMenuEntry::Item(TrayMenuId::Settings)));
    assert!(matches!(entries[3], TrayMenuEntry::Separator));
    assert!(matches!(entries[4], TrayMenuEntry::Item(TrayMenuId::Quit)));
    assert_eq!(menu_label(&TrayMenuId::Show), "Show");
    assert_eq!(menu_label(&TrayMenuId::Settings), "Settings");
    assert_eq!(menu_label(&TrayMenuId::Quit), "Quit");
}

#[test]
fn test_control_character_escaping() {
    let op = send_reply_op("id", "a\u{1}b\tc");
    assert_eq!(op.body.as_deref(), Some("{\"reply_text\":\"a\\u0001b\\tc\"}"));
}
