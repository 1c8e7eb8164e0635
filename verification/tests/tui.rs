use board_cli::tui::paste_preview;
use board_cli::{
    Action, ApiInfo, AppConfig, AppMode, AppState, AsyncResult, BoardClient, DeviceCode,
    EndpointInfo, Key, KeyModifiers, LoadingState, Paste, PasteId,
};
use std::path::PathBuf;

fn no_mods() -> KeyModifiers {
    KeyModifiers { control: false, shift: false }
}

fn ctrl() -> KeyModifiers {
    KeyModifiers { control: true, shift: false }
}

fn shift() -> KeyModifiers {
    KeyModifiers { control: false, shift: true }
}

fn config() -> AppConfig {
    AppConfig::with_data_dir(PathBuf::from("."))
}

fn idle_state() -> AppState {
    let mut s = AppState::new(config(), 0);
    s.stop_loading();
    s
}

fn paste(id: &str, content: &str) -> Paste {
    Paste::new(PasteId::from(id), content.to_string(), format!("https://h.test/{}", id))
}

fn state_with_pastes(n: usize) -> AppState {
    let mut s = idle_state();
    let pastes = (0..n).map(|i| paste(&format!("p{}", i), "x")).collect();
    s.handle_async_result(AsyncResult::PastesLoaded(pastes), 0);
    s
}

fn connected_state() -> AppState {
    let mut s = idle_state();
    s.client = Some(BoardClient::new().unwrap());
    s
}

#[test]
fn app_state_starts_loading_on_main_screen() {
    let s = AppState::new(config(), 42);
    assert_eq!(s.should_quit, false);
    assert_eq!(s.mode, AppMode::Main);
    assert_eq!(s.status_message, "Welcome to Board TUI! Press 'h' for help");
    assert!(matches!(s.loading_state, LoadingState::Loading(ref m) if m == "Initializing API client..."));
    assert_eq!(s.loading_start, Some(42));
    assert!(s.pastes.is_empty());
    assert_eq!(s.selected_paste, None);
}

#[test]
fn quit_keys_quit_from_main() {
    let mut s = idle_state();
    s.handle_input(Key::Char('q'), no_mods(), 1);
    assert!(s.should_quit);
    let mut s = idle_state();
    s.handle_input(Key::Esc, no_mods(), 1);
    assert!(s.should_quit);
}

#[test]
fn loading_ignores_other_keys() {
    let mut s = AppState::new(config(), 0);
    let a = s.handle_input(Key::Char('h'), no_mods(), 1);
    assert_eq!(a, Action::Nothing);
    assert_eq!(s.mode, AppMode::Main);
    let a = s.handle_input(Key::Char('n'), no_mods(), 1);
    assert_eq!(a, Action::Nothing);
    assert!(!s.should_quit);
}

#[test]
fn quit_during_loading_in_editor_also_types() {
    let mut s = idle_state();
    s.handle_input(Key::Char('c'), no_mods(), 1);
    s.start_loading("busy", 2);
    let a = s.handle_input(Key::Char('q'), no_mods(), 3);
    assert!(s.should_quit);
    assert_eq!(a, Action::Nothing);
    assert_eq!(s.input_buffer, "q");
}

#[test]
fn help_opens_and_closes() {
    let mut s = idle_state();
    s.handle_input(Key::Char('h'), no_mods(), 1);
    assert_eq!(s.mode, AppMode::Help);
    s.handle_input(Key::Char('x'), no_mods(), 1);
    assert_eq!(s.mode, AppMode::Help);
    s.handle_input(Key::Char('h'), no_mods(), 1);
    assert_eq!(s.mode, AppMode::Main);
}

#[test]
fn error_screen_closes() {
    let mut s = idle_state();
    s.mode = AppMode::Error;
    s.error_message = Some("bad".to_string());
    s.handle_input(Key::Enter, no_mods(), 1);
    assert_eq!(s.mode, AppMode::Main);
    assert_eq!(s.error_message, None);
}

#[test]
fn editor_types_and_cancels() {
    let mut s = idle_state();
    s.handle_input(Key::Char('c'), no_mods(), 1);
    assert_eq!(s.mode, AppMode::CreatePaste);
    assert_eq!(
        s.status_message,
        "Enter paste content (Ctrl+S to save, Enter for a new line, Esc to cancel)"
    );
    for c in ['a', 's', 'q'] {
        s.handle_input(Key::Char(c), no_mods(), 1);
    }
    s.handle_input(Key::Enter, shift(), 1);
    s.handle_input(Key::Char('b'), no_mods(), 1);
    assert_eq!(s.input_buffer, "asq\nb");
    assert_eq!(s.handle_input(Key::Enter, no_mods(), 1), Action::Nothing);
    assert_eq!(s.mode, AppMode::CreatePaste);
    assert_eq!(s.input_buffer, "asq\nb\n");
    s.handle_input(Key::Backspace, no_mods(), 1);
    s.handle_input(Key::Backspace, no_mods(), 1);
    assert_eq!(s.input_buffer, "asq\n");
    s.handle_input(Key::Esc, no_mods(), 1);
    assert_eq!(s.mode, AppMode::Main);
    assert_eq!(s.input_buffer, "");
    assert_eq!(s.status_message, "Paste creation cancelled");
}

#[test]
fn backspace_on_empty_buffer_does_nothing() {
    let mut s = idle_state();
    s.handle_input(Key::Char('c'), no_mods(), 1);
    s.handle_input(Key::Backspace, no_mods(), 1);
    assert_eq!(s.input_buffer, "");
}

#[test]
fn blank_paste_is_refused() {
    let mut s = connected_state();
    s.handle_input(Key::Char('c'), no_mods(), 1);
    s.handle_input(Key::Char(' '), no_mods(), 1);
    s.handle_input(Key::Enter, shift(), 1);
    let a = s.handle_input(Key::Char('s'), ctrl(), 1);
    assert_eq!(a, Action::Nothing);
    assert_eq!(s.status_message, "Cannot create empty paste");
    assert!(matches!(s.loading_state, LoadingState::Idle));
}

#[test]
fn paste_is_created_from_the_buffer() {
    let mut s = connected_state();
    s.handle_input(Key::Char('c'), no_mods(), 1);
    s.handle_input(Key::Char('h'), no_mods(), 1);
    s.handle_input(Key::Char('i'), no_mods(), 1);
    let a = s.handle_input(Key::Char('s'), ctrl(), 9);
    assert_eq!(a, Action::CreatePaste("hi".to_string()));
    assert!(matches!(s.loading_state, LoadingState::Loading(ref m) if m == "Creating paste..."));
    assert_eq!(s.loading_start, Some(9));
}

#[test]
fn paste_needs_a_client() {
    let mut s = idle_state();
    s.handle_input(Key::Char('c'), no_mods(), 1);
    s.handle_input(Key::Char('h'), no_mods(), 1);
    let a = s.handle_input(Key::Char('s'), ctrl(), 1);
    assert_eq!(a, Action::Nothing);
    assert!(matches!(s.loading_state, LoadingState::Idle));
}

#[test]
fn enter_in_editor_adds_a_line_and_never_saves() {
    let mut s = connected_state();
    s.handle_input(Key::Char('c'), no_mods(), 1);
    s.handle_input(Key::Char('a'), no_mods(), 1);
    assert_eq!(s.handle_input(Key::Enter, no_mods(), 1), Action::Nothing);
    assert_eq!(s.handle_input(Key::Enter, shift(), 1), Action::Nothing);
    s.handle_input(Key::Char('b'), no_mods(), 1);
    assert_eq!(s.input_buffer, "a\n\nb");
    assert_eq!(s.mode, AppMode::CreatePaste);
    assert!(matches!(s.loading_state, LoadingState::Idle));
    let a = s.handle_input(Key::Char('s'), ctrl(), 2);
    assert_eq!(a, Action::CreatePaste("a\n\nb".to_string()));
}

#[test]
fn info_key_asks_for_api_info() {
    let mut s = connected_state();
    let a = s.handle_input(Key::Char('i'), no_mods(), 7);
    assert_eq!(a, Action::LoadApiInfo);
    assert!(matches!(s.loading_state, LoadingState::Loading(ref m) if m == "Loading API info..."));
    assert_eq!(s.loading_start, Some(7));
    assert_eq!(s.mode, AppMode::Main);
}

#[test]
fn info_key_needs_a_client() {
    let mut s = idle_state();
    assert_eq!(s.handle_input(Key::Char('i'), no_mods(), 1), Action::Nothing);
    assert!(matches!(s.loading_state, LoadingState::Idle));
}

#[test]
fn api_info_result_shows_summary() {
    let mut s = connected_state();
    s.handle_input(Key::Char('i'), no_mods(), 1);
    let info = ApiInfo {
        message: "Board API".to_string(),
        endpoints: vec![
            EndpointInfo {
                method: "GET".to_string(),
                path: "/".to_string(),
                description: "info".to_string(),
            },
            EndpointInfo {
                method: "PUT".to_string(),
                path: "/".to_string(),
                description: "create".to_string(),
            },
        ],
    };
    let a = s.handle_async_result(AsyncResult::ApiInfoLoaded(info), 2);
    assert_eq!(a, Action::Nothing);
    assert_eq!(s.status_message, "API: Board API (2 endpoints)");
    assert_eq!(s.mode, AppMode::Main);
    assert!(matches!(s.loading_state, LoadingState::Idle));
}

#[test]
fn refresh_needs_a_client() {
    let mut s = idle_state();
    assert_eq!(s.handle_input(Key::Char('r'), no_mods(), 1), Action::Nothing);
    let mut s = connected_state();
    assert_eq!(s.handle_input(Key::Char('r'), no_mods(), 5), Action::LoadPastes);
    assert!(matches!(s.loading_state, LoadingState::Loading(ref m) if m == "Loading pastes..."));
}

#[test]
fn register_asks_for_registration() {
    let mut s = idle_state();
    assert_eq!(s.handle_input(Key::Char('n'), no_mods(), 1), Action::RegisterDevice);
    assert!(matches!(s.loading_state, LoadingState::Loading(ref m) if m == "Registering new device..."));
}

#[test]
fn device_code_entry_upper_cases_and_limits() {
    let mut s = idle_state();
    s.handle_input(Key::Char('e'), no_mods(), 1);
    assert_eq!(s.mode, AppMode::EnterDeviceCode);
    assert_eq!(s.status_message, "Enter 8-character device code (Esc to cancel)");
    for c in "ab-cd12345678".chars() {
        s.handle_input(Key::Char(c), no_mods(), 1);
    }
    assert_eq!(s.input_buffer, "ABCD1234");
    let a = s.handle_input(Key::Enter, no_mods(), 3);
    assert_eq!(a, Action::SetCustomDeviceCode("ABCD1234".to_string()));
    assert!(matches!(s.loading_state, LoadingState::Loading(ref m) if m == "Connecting with custom device..."));
}

#[test]
fn short_device_code_is_refused() {
    let mut s = idle_state();
    s.handle_input(Key::Char('e'), no_mods(), 1);
    for c in "abc".chars() {
        s.handle_input(Key::Char(c), no_mods(), 1);
    }
    let a = s.handle_input(Key::Char('s'), ctrl(), 1);
    assert_eq!(a, Action::Nothing);
    assert_eq!(s.status_message, "Invalid device code. Must be 8 alphanumeric characters.");
    s.handle_input(Key::Esc, no_mods(), 1);
    assert_eq!(s.status_message, "Device code entry cancelled");
    assert_eq!(s.mode, AppMode::Main);
}

#[test]
fn entered_device_code_is_trimmed_and_upper_cased() {
    let mut s = idle_state();
    s.handle_input(Key::Char('e'), no_mods(), 1);
    s.input_buffer = " abcd1234 ".to_string();
    let a = s.handle_input(Key::Enter, no_mods(), 1);
    assert_eq!(a, Action::SetCustomDeviceCode("ABCD1234".to_string()));
}

#[test]
fn non_ascii_letter_counts_in_bytes() {
    let mut s = idle_state();
    s.handle_input(Key::Char('e'), no_mods(), 1);
    for c in "abcdefg\u{e9}h".chars() {
        s.handle_input(Key::Char(c), no_mods(), 1);
    }
    // Seven ASCII letters and one two-byte letter fill more than 8 bytes.
    assert_eq!(s.input_buffer, "ABCDEFG\u{e9}");
    let a = s.handle_input(Key::Enter, no_mods(), 1);
    assert_eq!(a, Action::Nothing);
}

#[test]
fn is_valid_device_code_cases() {
    assert!(AppState::is_valid_device_code("ABCD1234"));
    assert!(AppState::is_valid_device_code("abcd1234"));
    assert!(!AppState::is_valid_device_code("ABCD123"));
    assert!(!AppState::is_valid_device_code("ABCD12345"));
    assert!(!AppState::is_valid_device_code("ABCD-234"));
    assert!(!AppState::is_valid_device_code("ABCD123\u{e9}"));
}

#[test]
fn navigation_wraps_around() {
    let mut s = state_with_pastes(3);
    assert_eq!(s.selected_paste, Some(0));
    s.handle_input(Key::Up, no_mods(), 1);
    assert_eq!(s.selected_paste, Some(2));
    assert_eq!(s.list_state.selected, Some(2));
    s.handle_input(Key::Char('j'), no_mods(), 1);
    assert_eq!(s.selected_paste, Some(0));
    s.handle_input(Key::Down, no_mods(), 1);
    s.handle_input(Key::Char('k'), no_mods(), 1);
    assert_eq!(s.selected_paste, Some(0));
    assert_eq!(s.list_state.selected, Some(0));
}

#[test]
fn navigation_on_empty_list_does_nothing() {
    let mut s = idle_state();
    s.handle_input(Key::Down, no_mods(), 1);
    assert_eq!(s.selected_paste, None);
}

#[test]
fn view_and_scroll() {
    let mut s = state_with_pastes(1);
    s.handle_input(Key::Enter, no_mods(), 1);
    assert_eq!(s.mode, AppMode::ViewPaste);
    s.handle_input(Key::Up, no_mods(), 1);
    assert_eq!(s.view_scroll, 0);
    s.handle_input(Key::PageDown, no_mods(), 1);
    s.handle_input(Key::Down, no_mods(), 1);
    assert_eq!(s.view_scroll, 11);
    s.handle_input(Key::PageUp, no_mods(), 1);
    assert_eq!(s.view_scroll, 1);
    s.handle_input(Key::PageUp, no_mods(), 1);
    assert_eq!(s.view_scroll, 0);
    s.handle_input(Key::Char('j'), no_mods(), 1);
    s.handle_input(Key::Char('q'), no_mods(), 1);
    assert_eq!(s.mode, AppMode::Main);
    assert_eq!(s.view_scroll, 0);
}

#[test]
fn enter_without_selection_stays_on_main() {
    let mut s = idle_state();
    s.handle_input(Key::Enter, no_mods(), 1);
    assert_eq!(s.mode, AppMode::Main);
}

#[test]
fn ctrl_d_shows_url() {
    let mut s = state_with_pastes(2);
    s.handle_input(Key::Char('d'), no_mods(), 1);
    assert_eq!(s.status_message, "Loaded 2 pastes");
    s.handle_input(Key::Char('d'), ctrl(), 1);
    assert_eq!(s.status_message, "URL: https://h.test/p0");
}

#[test]
fn pastes_loaded_selects_first_and_counts() {
    let s = state_with_pastes(12);
    assert_eq!(s.status_message, "Loaded 12 pastes");
    assert_eq!(s.selected_paste, Some(0));
    assert_eq!(s.scroll_state.content_length, 12);
    assert_eq!(s.scroll_state.position, 0);
    assert!(matches!(s.loading_state, LoadingState::Idle));
    assert_eq!(s.loading_start, None);
}

#[test]
fn pastes_loaded_keeps_existing_selection() {
    let mut s = state_with_pastes(3);
    s.handle_input(Key::Down, no_mods(), 1);
    s.handle_async_result(AsyncResult::PastesLoaded(vec![paste("z", "")]), 2);
    assert_eq!(s.selected_paste, Some(1));
    assert_eq!(s.scroll_state.position, 1);
    assert_eq!(s.scroll_state.content_length, 1);
}

#[test]
fn empty_load_reports_zero() {
    let mut s = idle_state();
    s.handle_async_result(AsyncResult::PastesLoaded(vec![]), 2);
    assert_eq!(s.status_message, "Loaded 0 pastes");
    assert_eq!(s.selected_paste, None);
}

#[test]
fn created_paste_goes_first() {
    let mut s = state_with_pastes(2);
    s.handle_input(Key::Char('c'), no_mods(), 1);
    s.handle_input(Key::Char('x'), no_mods(), 1);
    s.handle_async_result(AsyncResult::PasteCreated(paste("new", "x")), 3);
    assert_eq!(s.pastes.len(), 3);
    assert_eq!(s.pastes[0].id.as_str(), "new");
    assert_eq!(s.selected_paste, Some(0));
    assert_eq!(s.mode, AppMode::Main);
    assert_eq!(s.input_buffer, "");
    assert_eq!(s.status_message, "Created paste: new");
    assert_eq!(s.scroll_state.content_length, 3);
}

#[test]
fn device_registered_connects_and_refreshes() {
    let mut s = AppState::new(config(), 0);
    let client = BoardClient::new().unwrap();
    let a = s.handle_async_result(
        AsyncResult::DeviceRegistered(client, DeviceCode::from("CODE0001"), config()),
        10,
    );
    assert_eq!(a, Action::LoadPastes);
    assert!(s.client.is_some());
    assert_eq!(s.device_code.as_ref().unwrap().as_str(), "CODE0001");
    assert_eq!(s.status_message, "Connected with device: CODE0001");
    assert!(matches!(s.loading_state, LoadingState::Loading(ref m) if m == "Loading pastes..."));
    assert_eq!(s.loading_start, Some(10));
}

#[test]
fn custom_device_set_returns_to_main() {
    let mut s = idle_state();
    s.handle_input(Key::Char('e'), no_mods(), 1);
    s.handle_input(Key::Char('a'), no_mods(), 1);
    let client = BoardClient::new().unwrap();
    let a = s.handle_async_result(
        AsyncResult::CustomDeviceSet(client, DeviceCode::from("ABCD1234"), config()),
        4,
    );
    assert_eq!(a, Action::LoadPastes);
    assert_eq!(s.mode, AppMode::Main);
    assert_eq!(s.input_buffer, "");
    assert_eq!(s.status_message, "Connected with custom device: ABCD1234");
}

#[test]
fn error_result_shows_message() {
    let mut s = AppState::new(config(), 0);
    let a = s.handle_async_result(AsyncResult::Error("it broke".to_string()), 1);
    assert_eq!(a, Action::Nothing);
    assert_eq!(s.mode, AppMode::Error);
    assert_eq!(s.error_message.as_deref(), Some("it broke"));
    assert_eq!(s.status_message, "it broke");
    assert!(matches!(s.loading_state, LoadingState::Idle));
}

#[test]
fn error_dialog_closes_back_to_main() {
    for key in [Key::Esc, Key::Char('q'), Key::Enter] {
        let mut s = connected_state();
        s.handle_input(Key::Char('c'), no_mods(), 1);
        s.handle_input(Key::Char('x'), no_mods(), 1);
        s.handle_input(Key::Char('s'), ctrl(), 2);
        s.handle_async_result(AsyncResult::Error("Failed to create paste: down".to_string()), 3);
        assert_eq!(s.mode, AppMode::Error);
        s.handle_input(Key::Char('z'), no_mods(), 4);
        assert_eq!(s.mode, AppMode::Error);
        s.handle_input(key, no_mods(), 4);
        assert_eq!(s.mode, AppMode::Main);
        assert_eq!(s.error_message, None);
        assert!(!s.should_quit);
    }
}

#[test]
fn device_code_entry_texts() {
    let mut s = idle_state();
    s.handle_input(Key::Char('e'), no_mods(), 1);
    assert_eq!(s.device_code_text(), "Device Code:         ");
    assert_eq!(s.device_code_count_text(), "0/8 characters");
    for c in ['a', 'b', '1'] {
        s.handle_input(Key::Char(c), no_mods(), 1);
    }
    assert_eq!(s.device_code_text(), "Device Code: AB1     ");
    assert_eq!(s.device_code_count_text(), "3/8 characters");
    for c in ['c', 'd', 'e', 'f', 'g'] {
        s.handle_input(Key::Char(c), no_mods(), 1);
    }
    assert_eq!(s.device_code_text(), "Device Code: AB1CDEFG");
    assert_eq!(s.device_code_count_text(), "8/8 characters");
}

#[test]
fn editor_title_counts_bytes() {
    let mut s = idle_state();
    s.handle_input(Key::Char('c'), no_mods(), 1);
    assert_eq!(s.content_title_text(), "Content (0 chars)");
    for c in ['h', 'é'] {
        s.handle_input(Key::Char(c), no_mods(), 1);
    }
    s.handle_input(Key::Enter, no_mods(), 1);
    assert_eq!(s.content_title_text(), "Content (4 chars)");
}

#[test]
fn loading_indicator_frames() {
    let s = AppState::new(config(), 1000);
    assert_eq!(s.get_loading_indicator(1000), "\u{28fe}");
    assert_eq!(s.get_loading_indicator(1150), "\u{28fd}");
    assert_eq!(s.get_loading_indicator(1750), "\u{28f7}");
    assert_eq!(s.get_loading_indicator(1800), "\u{28fe}");
    assert_eq!(s.get_loading_indicator(500), "\u{28fe}");
    assert_eq!(idle_state().get_loading_indicator(1234), " ");
}

#[test]
fn header_and_status_lines() {
    let mut s = AppState::new(config(), 0);
    assert_eq!(s.header_text(), "Board TUI - No Device");
    assert_eq!(s.status_text(0), "\u{28fe} Initializing API client...");
    s.device_code = Some(DeviceCode::from("CODE0001"));
    s.stop_loading();
    assert_eq!(s.header_text(), "Board TUI - Device: CODE0001");
    assert_eq!(s.status_text(0), "Welcome to Board TUI! Press 'h' for help");
}

#[test]
fn list_title_counts_pastes() {
    assert_eq!(state_with_pastes(3).list_title(), "Pastes (3)");
    assert_eq!(idle_state().list_title(), "Pastes (0)");
}

#[test]
fn preview_of_content() {
    assert_eq!(paste_preview("short"), "short");
    assert_eq!(paste_preview("first\r\nsecond"), "first");
    assert_eq!(paste_preview(&format!("{}\nrest", "y".repeat(45))), format!("{}...", "y".repeat(40)));
    assert_eq!(paste_preview(""), "");
    let long = "x".repeat(50);
    assert_eq!(paste_preview(&long), format!("{}...", "x".repeat(40)));
    assert_eq!(paste_preview("\nabc"), "");
}

#[test]
fn preview_pane_lines() {
    let s = idle_state();
    assert_eq!(
        s.preview_lines(),
        vec!["No pastes found.", "", "Press 'c' to create a new paste", "Press 'r' to refresh"]
    );
    let mut s = idle_state();
    let content: String = (0..25).map(|i| format!("line{}\n", i)).collect();
    s.handle_async_result(AsyncResult::PastesLoaded(vec![paste("a", &content)]), 0);
    let lines = s.preview_lines();
    assert_eq!(lines.len(), 20);
    assert_eq!(lines[19], "line19");
    s.selected_paste = None;
    assert_eq!(s.preview_lines(), vec!["Select a paste to preview"]);
    s.selected_paste = Some(5);
    assert_eq!(s.preview_lines(), vec!["No paste selected"]);
}

#[test]
fn viewed_lines_skip_scroll() {
    let mut s = idle_state();
    s.handle_async_result(AsyncResult::PastesLoaded(vec![paste("a", "l0\nl1\r\nl2")]), 0);
    assert_eq!(s.viewed_lines(), Some(vec!["l0".to_string(), "l1".to_string(), "l2".to_string()]));
    s.view_scroll = 2;
    assert_eq!(s.viewed_lines(), Some(vec!["l2".to_string()]));
    s.view_scroll = 9;
    assert_eq!(s.viewed_lines(), Some(vec![]));
    s.selected_paste = None;
    assert_eq!(s.viewed_lines(), None);
}

#[test]
fn help_round_trip_restores_state() {
    let mut s = state_with_pastes(2);
    s.handle_input(Key::Down, no_mods(), 1);
    let before = (s.mode, s.selected_paste, s.status_message.clone(), s.view_scroll);
    s.handle_input(Key::Char('h'), no_mods(), 2);
    assert_eq!(s.mode, AppMode::Help);
    s.handle_input(Key::Char('h'), no_mods(), 3);
    assert_eq!((s.mode, s.selected_paste, s.status_message.clone(), s.view_scroll), before);
}

#[test]
fn typing_then_backspace_restores_buffer() {
    let mut s = idle_state();
    s.handle_input(Key::Char('c'), no_mods(), 1);
    s.handle_input(Key::Char('a'), no_mods(), 1);
    s.handle_input(Key::Char('\u{e9}'), no_mods(), 1);
    s.handle_input(Key::Backspace, no_mods(), 1);
    assert_eq!(s.input_buffer, "a");
}

#[test]
fn scroll_down_then_up_restores_position() {
    let mut s = state_with_pastes(1);
    s.handle_input(Key::Enter, no_mods(), 1);
    s.handle_input(Key::PageDown, no_mods(), 1);
    s.handle_input(Key::Down, no_mods(), 1);
    s.handle_input(Key::Up, no_mods(), 1);
    assert_eq!(s.view_scroll, 10);
}

#[test]
fn no_second_operation_while_loading() {
    let mut s = connected_state();
    assert_eq!(s.handle_input(Key::Char('r'), no_mods(), 1), Action::LoadPastes);
    for key in [Key::Char('r'), Key::Char('n'), Key::Char('i'), Key::Char('c'), Key::Enter, Key::Esc] {
        assert_eq!(s.handle_input(key, ctrl(), 2), Action::Nothing);
    }
    assert!(s.should_quit);
}

#[test]
fn test_app_creation() {
    let state = AppState::new(config(), 0);
    assert_eq!(state.should_quit, false);
}

#[test]
fn test_app_state() {
    let mut state = AppState::new(config(), 0);

    // Initially should not be quitting
    assert_eq!(state.should_quit, false);

    // Simulate quit
    state.should_quit = true;
    assert_eq!(state.should_quit, true);
}
