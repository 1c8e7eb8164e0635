//! The state machine of the terminal interface: its state, how each key
//! press and each finished background operation changes it, and which
//! background operation it asks for next.
//!
//! Drawing the screen, reading keys and running the background operations
//! is the caller's part. The caller hands in each key and each result,
//! together with the current time in milliseconds (any fixed origin), and
//! performs the [`Action`] it gets back.

use vstd::prelude::*;
use vstd::string::{StrSliceExecFns, StringExecFns};
use vstd::utf8::encode_utf8;
use crate::client::BoardClient;
use crate::config::{AppConfig, opt_view};
use crate::text::{
    ascii_upper, char_is_alphanumeric, char_is_ascii_alphanumeric, decimal, first_line,
    is_ascii_alphanumeric, pop_char, prefix, push_char, push_decimal, split_lines, str_lines,
    str_to_uppercase, string_views, to_ascii_uppercase, trim, trimmed, alphanumeric, upper_case,
};
use crate::types::{ApiInfo, DeviceCode, Paste};

verus! {

/// The screen that the interface shows.
#[derive(Debug, Clone, Copy, PartialEq, Eq)]
pub enum AppMode {
    Main,
    CreatePaste,
    ViewPaste,
    EnterDeviceCode,
    Help,
    Error,
}

/// Whether a background operation is running, and its message.
#[derive(Debug, Clone)]
pub enum LoadingState {
    Idle,
    Loading(String),
}

/// [`LoadingState`] with its message as a character sequence.
pub enum LoadingView {
    Idle,
    Loading(Seq<char>),
}

impl View for LoadingState {
    type V = LoadingView;

    open spec fn view(&self) -> LoadingView {
        match self {
            LoadingState::Idle => LoadingView::Idle,
            LoadingState::Loading(m) => LoadingView::Loading(m@),
        }
    }
}

/// A key as the interface reads it.
#[derive(Debug, Clone, Copy, PartialEq, Eq)]
pub enum Key {
    Char(char),
    Esc,
    Enter,
    Backspace,
    Up,
    Down,
    PageUp,
    PageDown,
    Other,
}

/// The modifier keys held with a key.
#[derive(Debug, Clone, Copy, PartialEq, Eq, Default)]
pub struct KeyModifiers {
    pub control: bool,
    pub shift: bool,
}

/// The outcome of a background operation.
#[derive(Debug)]
pub enum AsyncResult {
    /// A client is ready with a device code, and the configuration holds it.
    DeviceRegistered(BoardClient, DeviceCode, AppConfig),
    /// The pastes of the device were loaded.
    PastesLoaded(Vec<Paste>),
    /// A paste was created.
    PasteCreated(Paste),
    /// The API described itself.
    ApiInfoLoaded(ApiInfo),
    /// A device code that the user entered works, and the configuration
    /// holds it.
    CustomDeviceSet(BoardClient, DeviceCode, AppConfig),
    /// The operation failed, with this message.
    Error(String),
}

/// The background operation that the interface asks for.
#[derive(Debug, Clone, PartialEq, Eq)]
pub enum Action {
    /// Nothing to do.
    Nothing,
    /// Load all pastes with the state's client.
    LoadPastes,
    /// Register a new device and save its code in the configuration.
    RegisterDevice,
    /// Ask the API to describe itself, with the state's client.
    LoadApiInfo,
    /// Create a paste of this content with the state's client.
    CreatePaste(String),
    /// Try this device code and save it in the configuration if it works.
    SetCustomDeviceCode(String),
}

/// [`Action`] with its strings as character sequences.
pub enum ActionView {
    Nothing,
    LoadPastes,
    RegisterDevice,
    LoadApiInfo,
    CreatePaste(Seq<char>),
    SetCustomDeviceCode(Seq<char>),
}

impl View for Action {
    type V = ActionView;

    open spec fn view(&self) -> ActionView {
        match self {
            Action::Nothing => ActionView::Nothing,
            Action::LoadPastes => ActionView::LoadPastes,
            Action::RegisterDevice => ActionView::RegisterDevice,
            Action::LoadApiInfo => ActionView::LoadApiInfo,
            Action::CreatePaste(c) => ActionView::CreatePaste(c@),
            Action::SetCustomDeviceCode(c) => ActionView::SetCustomDeviceCode(c@),
        }
    }
}

/// Which item of the paste list is highlighted.
#[derive(Debug, Clone, Copy, PartialEq, Eq, Default)]
pub struct ListState {
    pub selected: Option<usize>,
}

/// The scroll bar of the paste list: how many items, and where.
#[derive(Debug, Clone, Copy, PartialEq, Eq, Default)]
pub struct ScrollbarState {
    pub content_length: usize,
    pub position: usize,
}

/// The state of the interface.
#[derive(Debug, Clone)]
pub struct AppState {
    pub mode: AppMode,
    pub should_quit: bool,
    pub client: Option<BoardClient>,
    pub device_code: Option<DeviceCode>,
    pub config: AppConfig,
    pub pastes: Vec<Paste>,
    pub selected_paste: Option<usize>,
    pub input_buffer: String,
    pub status_message: String,
    pub error_message: Option<String>,
    pub list_state: ListState,
    pub scroll_state: ScrollbarState,
    pub view_scroll: usize,
    pub loading_state: LoadingState,
    /// When the running background operation started, in milliseconds.
    pub loading_start: Option<u64>,
}

/// [`AppState`] with its strings as character sequences and its paste
/// list as a sequence.
pub struct AppStateView {
    pub mode: AppMode,
    pub should_quit: bool,
    pub client: Option<BoardClient>,
    pub device_code: Option<DeviceCode>,
    pub config: AppConfig,
    pub pastes: Seq<Paste>,
    pub selected_paste: Option<usize>,
    pub input_buffer: Seq<char>,
    pub status_message: Seq<char>,
    pub error_message: Option<Seq<char>>,
    pub list_state: ListState,
    pub scroll_state: ScrollbarState,
    pub view_scroll: usize,
    pub loading_state: LoadingView,
    pub loading_start: Option<u64>,
}

impl View for AppState {
    type V = AppStateView;

    open spec fn view(&self) -> AppStateView {
        AppStateView {
            mode: self.mode,
            should_quit: self.should_quit,
            client: self.client,
            device_code: self.device_code,
            config: self.config,
            pastes: self.pastes@,
            selected_paste: self.selected_paste,
            input_buffer: self.input_buffer@,
            status_message: self.status_message@,
            error_message: opt_view(self.error_message),
            list_state: self.list_state,
            scroll_state: self.scroll_state,
            view_scroll: self.view_scroll,
            loading_state: self.loading_state@,
            loading_start: self.loading_start,
        }
    }
}

// ----- The transitions, as functions on views -----

/// `s` with a background operation running since `now`, with message `msg`.
pub open spec fn start_loading(s: AppStateView, msg: Seq<char>, now: u64) -> AppStateView {
    AppStateView { loading_state: LoadingView::Loading(msg), loading_start: Some(now), ..s }
}

/// `s` with no background operation running.
pub open spec fn stop_loading(s: AppStateView) -> AppStateView {
    AppStateView { loading_state: LoadingView::Idle, loading_start: None, ..s }
}

/// Whether a background operation is running.
pub open spec fn is_loading(s: AppStateView) -> bool {
    s.loading_state is Loading
}

/// `s` with message `msg` in the status line.
pub open spec fn with_status(s: AppStateView, msg: Seq<char>) -> AppStateView {
    AppStateView { status_message: msg, ..s }
}

/// `s` showing screen `mode` with an empty input buffer and status `msg`.
pub open spec fn enter_mode(s: AppStateView, mode: AppMode, msg: Seq<char>) -> AppStateView {
    AppStateView { mode, input_buffer: Seq::empty(), status_message: msg, ..s }
}

/// Asking to reload the pastes: only with a client, and then loading.
pub open spec fn refresh_pastes(s: AppStateView, now: u64) -> (AppStateView, ActionView) {
    if s.client is Some {
        (start_loading(s, "Loading pastes..."@, now), ActionView::LoadPastes)
    } else {
        (s, ActionView::Nothing)
    }
}

/// Asking to register a new device.
pub open spec fn register_new_device(s: AppStateView, now: u64) -> (AppStateView, ActionView) {
    (start_loading(s, "Registering new device..."@, now), ActionView::RegisterDevice)
}

/// Asking for the API's description of itself: only with a client, and
/// then loading.
pub open spec fn request_api_info(s: AppStateView, now: u64) -> (AppStateView, ActionView) {
    if s.client is Some {
        (start_loading(s, "Loading API info..."@, now), ActionView::LoadApiInfo)
    } else {
        (s, ActionView::Nothing)
    }
}

/// `s` with paste `i` selected, in the list too.
pub open spec fn select(s: AppStateView, i: usize) -> AppStateView {
    AppStateView { selected_paste: Some(i), list_state: ListState { selected: Some(i) }, ..s }
}

/// The selection above `sel` in a list of `len > 0` pastes, wrapping
/// around from the first to the last.
pub open spec fn previous_index(sel: Option<usize>, len: nat) -> usize {
    match sel {
        Some(i) => if i > 0 {
            (i - 1) as usize
        } else {
            (len - 1) as usize
        },
        None => 0,
    }
}

/// The selection below `sel` in a list of `len > 0` pastes, wrapping
/// around from the last to the first.
pub open spec fn next_index(sel: Option<usize>, len: nat) -> usize {
    match sel {
        Some(i) => if i < len - 1 {
            (i + 1) as usize
        } else {
            0
        },
        None => 0,
    }
}

/// Moving the selection up.
pub open spec fn previous_paste(s: AppStateView) -> AppStateView {
    if s.pastes.len() == 0 {
        s
    } else {
        select(s, previous_index(s.selected_paste, s.pastes.len()))
    }
}

/// Moving the selection down.
pub open spec fn next_paste(s: AppStateView) -> AppStateView {
    if s.pastes.len() == 0 {
        s
    } else {
        select(s, next_index(s.selected_paste, s.pastes.len()))
    }
}

/// Opening the selected paste, where one is selected.
pub open spec fn view_selected_paste(s: AppStateView) -> AppStateView {
    match s.selected_paste {
        Some(i) => if i < s.pastes.len() {
            AppStateView { mode: AppMode::ViewPaste, view_scroll: 0, ..s }
        } else {
            s
        },
        None => s,
    }
}

/// Showing the URL of the selected paste, where one is selected.
pub open spec fn copy_selected_url(s: AppStateView) -> AppStateView {
    match s.selected_paste {
        Some(i) => if i < s.pastes.len() {
            with_status(s, "URL: "@ + s.pastes[i as int].url@)
        } else {
            s
        },
        None => s,
    }
}

/// The main screen's answer to a key.
pub open spec fn main_input(s: AppStateView, key: Key, mods: KeyModifiers, now: u64) -> (
    AppStateView,
    ActionView,
) {
    if key == Key::Char('q') || key == Key::Esc {
        (AppStateView { should_quit: true, ..s }, ActionView::Nothing)
    } else if key == Key::Char('h') {
        (AppStateView { mode: AppMode::Help, ..s }, ActionView::Nothing)
    } else if key == Key::Char('c') {
        (
            enter_mode(s, AppMode::CreatePaste, create_prompt()),
            ActionView::Nothing,
        )
    } else if key == Key::Char('r') {
        refresh_pastes(s, now)
    } else if key == Key::Char('n') {
        register_new_device(s, now)
    } else if key == Key::Char('i') {
        request_api_info(s, now)
    } else if key == Key::Char('e') {
        (
            enter_mode(s, AppMode::EnterDeviceCode, "Enter 8-character device code (Esc to cancel)"@),
            ActionView::Nothing,
        )
    } else if key == Key::Up || key == Key::Char('k') {
        (previous_paste(s), ActionView::Nothing)
    } else if key == Key::Down || key == Key::Char('j') {
        (next_paste(s), ActionView::Nothing)
    } else if key == Key::Enter {
        (view_selected_paste(s), ActionView::Nothing)
    } else if key == Key::Char('d') && mods.control {
        (copy_selected_url(s), ActionView::Nothing)
    } else {
        (s, ActionView::Nothing)
    }
}

/// Asking to create a paste of the input buffer: refused for a blank
/// buffer; asked for only with a client.
pub open spec fn create_paste(s: AppStateView, now: u64) -> (AppStateView, ActionView) {
    if trimmed(s.input_buffer).len() == 0 {
        (with_status(s, "Cannot create empty paste"@), ActionView::Nothing)
    } else if s.client is Some {
        (start_loading(s, "Creating paste..."@, now), ActionView::CreatePaste(s.input_buffer))
    } else {
        (s, ActionView::Nothing)
    }
}

/// `s` with `c` appended to the input buffer.
pub open spec fn push_input(s: AppStateView, c: char) -> AppStateView {
    AppStateView { input_buffer: s.input_buffer.push(c), ..s }
}

/// `s` with the last character of the input buffer removed, if any.
pub open spec fn pop_input(s: AppStateView) -> AppStateView {
    if s.input_buffer.len() > 0 {
        AppStateView { input_buffer: s.input_buffer.drop_last(), ..s }
    } else {
        s
    }
}

/// The status message of the paste editor.
pub open spec fn create_prompt() -> Seq<char> {
    "Enter paste content (Ctrl+S to save, Enter for a new line, Esc to cancel)"@
}

/// The paste editor's answer to a key: Ctrl+S saves, Enter starts a new
/// line, Esc cancels.
pub open spec fn create_input(s: AppStateView, key: Key, mods: KeyModifiers, now: u64) -> (
    AppStateView,
    ActionView,
) {
    if key == Key::Esc {
        (enter_mode(s, AppMode::Main, "Paste creation cancelled"@), ActionView::Nothing)
    } else if key == Key::Char('s') && mods.control {
        create_paste(s, now)
    } else if key is Char {
        (push_input(s, key->Char_0), ActionView::Nothing)
    } else if key == Key::Backspace {
        (pop_input(s), ActionView::Nothing)
    } else if key == Key::Enter {
        (push_input(s, '\n'), ActionView::Nothing)
    } else {
        (s, ActionView::Nothing)
    }
}

/// Whether `code` is a device code: eight ASCII letters or digits (so
/// eight bytes long).
pub open spec fn valid_device_code(code: Seq<char>) -> bool {
    &&& code.len() == 8
    &&& forall|i: int| 0 <= i < code.len() ==> is_ascii_alphanumeric(#[trigger] code[i])
}

/// The length in bytes of the UTF-8 encoding of `s`, as `str::len` reports
/// it.
pub open spec fn byte_len(s: Seq<char>) -> usize {
    encode_utf8(s).len() as usize
}

/// The device code that the input buffer stands for: trimmed, upper case.
pub open spec fn entered_device_code(buffer: Seq<char>) -> Seq<char> {
    upper_case(trimmed(buffer))
}

/// Submitting the entered device code: tried only where it is valid.
pub open spec fn submit_device_code(s: AppStateView, now: u64) -> (AppStateView, ActionView) {
    let code = entered_device_code(s.input_buffer);
    if valid_device_code(code) {
        (
            start_loading(s, "Connecting with custom device..."@, now),
            ActionView::SetCustomDeviceCode(code),
        )
    } else {
        (
            with_status(s, "Invalid device code. Must be 8 alphanumeric characters."@),
            ActionView::Nothing,
        )
    }
}

/// The device code entry's answer to a key.
pub open spec fn device_code_input(s: AppStateView, key: Key, mods: KeyModifiers, now: u64) -> (
    AppStateView,
    ActionView,
) {
    if key == Key::Esc {
        (enter_mode(s, AppMode::Main, "Device code entry cancelled"@), ActionView::Nothing)
    } else if key == Key::Enter {
        submit_device_code(s, now)
    } else if key == Key::Char('s') && mods.control {
        submit_device_code(s, now)
    } else if key is Char && alphanumeric(key->Char_0) && byte_len(s.input_buffer) < 8 {
        (push_input(s, ascii_upper(key->Char_0)), ActionView::Nothing)
    } else if key == Key::Backspace {
        (pop_input(s), ActionView::Nothing)
    } else {
        (s, ActionView::Nothing)
    }
}

/// The paste viewer's answer to a key.
pub open spec fn view_input(s: AppStateView, key: Key) -> AppStateView {
    if key == Key::Esc || key == Key::Char('q') {
        AppStateView { mode: AppMode::Main, view_scroll: 0, ..s }
    } else if key == Key::Up || key == Key::Char('k') {
        if s.view_scroll > 0 {
            AppStateView { view_scroll: (s.view_scroll - 1) as usize, ..s }
        } else {
            s
        }
    } else if key == Key::Down || key == Key::Char('j') {
        AppStateView { view_scroll: (s.view_scroll + 1) as usize, ..s }
    } else if key == Key::PageUp {
        AppStateView {
            view_scroll: if s.view_scroll >= 10 {
                (s.view_scroll - 10) as usize
            } else {
                0
            },
            ..s
        }
    } else if key == Key::PageDown {
        AppStateView { view_scroll: (s.view_scroll + 10) as usize, ..s }
    } else {
        s
    }
}

/// The help screen's answer to a key.
pub open spec fn help_input(s: AppStateView, key: Key) -> AppStateView {
    if key == Key::Esc || key == Key::Char('q') || key == Key::Char('h') {
        AppStateView { mode: AppMode::Main, ..s }
    } else {
        s
    }
}

/// The error screen's answer to a key.
pub open spec fn error_input(s: AppStateView, key: Key) -> AppStateView {
    if key == Key::Esc || key == Key::Char('q') || key == Key::Enter {
        AppStateView { mode: AppMode::Main, error_message: None, ..s }
    } else {
        s
    }
}

/// The answer of the current screen to a key.
pub open spec fn mode_input(s: AppStateView, key: Key, mods: KeyModifiers, now: u64) -> (
    AppStateView,
    ActionView,
) {
    match s.mode {
        AppMode::Main => main_input(s, key, mods, now),
        AppMode::CreatePaste => create_input(s, key, mods, now),
        AppMode::ViewPaste => (view_input(s, key), ActionView::Nothing),
        AppMode::EnterDeviceCode => device_code_input(s, key, mods, now),
        AppMode::Help => (help_input(s, key), ActionView::Nothing),
        AppMode::Error => (error_input(s, key), ActionView::Nothing),
    }
}

/// Whether `key` is one of the quit keys, `q` and Esc.
pub open spec fn is_quit_key(key: Key) -> bool {
    key == Key::Char('q') || key == Key::Esc
}

/// The interface's answer to a key. While a background operation runs,
/// only the quit keys do anything: they ask to quit, and the current
/// screen then answers them too.
pub open spec fn input(s: AppStateView, key: Key, mods: KeyModifiers, now: u64) -> (
    AppStateView,
    ActionView,
) {
    if is_loading(s) {
        if is_quit_key(key) {
            mode_input(AppStateView { should_quit: true, ..s }, key, mods, now)
        } else {
            (s, ActionView::Nothing)
        }
    } else {
        mode_input(s, key, mods, now)
    }
}

/// Whether the paste viewer's scroll position `view_scroll` can move down
/// as `key` asks without leaving the range of `usize`.
pub open spec fn scroll_step_fits(view_scroll: usize, key: Key) -> bool {
    &&& (key == Key::Down || key == Key::Char('j')) ==> view_scroll < usize::MAX
    &&& key == Key::PageDown ==> view_scroll <= usize::MAX - 10
}

/// Whether the key can be taken in state `s` without the paste viewer's
/// scroll position leaving the range of `usize` (while a background
/// operation runs, the viewer does not scroll).
pub open spec fn scroll_fits(s: AppStateView, key: Key) -> bool {
    (s.mode == AppMode::ViewPaste && !is_loading(s)) ==> scroll_step_fits(s.view_scroll, key)
}

/// `s` with its scroll bar over the paste list at the selection.
pub open spec fn update_scroll_state(s: AppStateView) -> AppStateView {
    AppStateView {
        scroll_state: ScrollbarState {
            content_length: s.pastes.len() as usize,
            position: match s.selected_paste {
                Some(i) => i,
                None => 0,
            },
        },
        ..s
    }
}

/// `s` connected with a client and its device code, under `config`.
pub open spec fn connect(
    s: AppStateView,
    client: BoardClient,
    code: DeviceCode,
    config: AppConfig,
    msg: Seq<char>,
) -> AppStateView {
    AppStateView {
        client: Some(client),
        device_code: Some(code),
        config,
        status_message: msg + code@,
        ..s
    }
}

/// The status line that shows the API's description of itself: its message
/// and how many endpoints it offers.
pub open spec fn api_info_summary(info: ApiInfo) -> Seq<char> {
    "API: "@ + info.message@ + " ("@ + decimal(info.endpoints@.len()) + " endpoints)"@
}

/// `s` showing the error dialog with message `msg`, which the status line
/// keeps too.
pub open spec fn show_error(s: AppStateView, msg: Seq<char>) -> AppStateView {
    AppStateView {
        mode: AppMode::Error,
        error_message: Some(msg),
        status_message: msg,
        ..s
    }
}

/// The interface's answer to a finished background operation.
pub open spec fn async_result(s: AppStateView, result: AsyncResult, now: u64) -> (
    AppStateView,
    ActionView,
) {
    match result {
        AsyncResult::DeviceRegistered(client, code, config) => refresh_pastes(
            stop_loading(connect(s, client, code, config, "Connected with device: "@)),
            now,
        ),
        AsyncResult::CustomDeviceSet(client, code, config) => refresh_pastes(
            stop_loading(
                enter_mode(
                    connect(s, client, code, config, "Connected with custom device: "@),
                    AppMode::Main,
                    "Connected with custom device: "@ + code@,
                ),
            ),
            now,
        ),
        AsyncResult::PastesLoaded(pastes) => {
            let s1 = AppStateView {
                pastes: pastes@,
                status_message: "Loaded "@ + decimal(pastes@.len()) + " pastes"@,
                ..s
            };
            let s2 = if pastes@.len() > 0 && s1.selected_paste is None {
                select(s1, 0)
            } else {
                s1
            };
            (stop_loading(update_scroll_state(s2)), ActionView::Nothing)
        },
        AsyncResult::PasteCreated(paste) => {
            let s1 = AppStateView { pastes: s.pastes.insert(0, paste), ..s };
            let s2 = enter_mode(s1, AppMode::Main, "Created paste: "@ + paste.id@);
            (stop_loading(update_scroll_state(select(s2, 0))), ActionView::Nothing)
        },
        AsyncResult::ApiInfoLoaded(info) => (
            stop_loading(with_status(s, api_info_summary(info))),
            ActionView::Nothing,
        ),
        AsyncResult::Error(msg) => (stop_loading(show_error(s, msg@)), ActionView::Nothing),
    }
}

/// The number of the spinner frame that shows `elapsed_ms` milliseconds
/// into a background operation: one frame per 100 ms, eight frames.
pub open spec fn spinner_index(elapsed_ms: u64) -> int {
    ((elapsed_ms / 100) % 8) as int
}

/// The spinner frames.
pub open spec fn spinner_frame(i: int) -> Seq<char> {
    if i == 0 {
        "\u{28fe}"@
    } else if i == 1 {
        "\u{28fd}"@
    } else if i == 2 {
        "\u{28fb}"@
    } else if i == 3 {
        "\u{28bf}"@
    } else if i == 4 {
        "\u{287f}"@
    } else if i == 5 {
        "\u{28df}"@
    } else if i == 6 {
        "\u{28ef}"@
    } else {
        "\u{28f7}"@
    }
}

/// The loading indicator at time `now`: the spinner frame for the time
/// since the running operation started (none elapsed if the start is not
/// known, or lies after `now`), or a blank when nothing runs.
pub open spec fn loading_indicator(s: AppStateView, now: u64) -> Seq<char> {
    if is_loading(s) {
        let elapsed: u64 = match s.loading_start {
            Some(start) => if now >= start {
                (now - start) as u64
            } else {
                0
            },
            None => 0,
        };
        spinner_frame(spinner_index(elapsed))
    } else {
        " "@
    }
}

/// The status message at start.
pub open spec fn welcome_message() -> Seq<char> {
    "Welcome to Board TUI! Press 'h' for help"@
}

/// The loading state at start.
pub open spec fn initializing() -> LoadingView {
    LoadingView::Loading("Initializing API client..."@)
}

// ----- What the screens show -----

/// The header line: the device code in use, if any.
pub open spec fn header_line(s: AppStateView) -> Seq<char> {
    match s.device_code {
        Some(d) => "Board TUI - Device: "@ + d@,
        None => "Board TUI - No Device"@,
    }
}

/// The status line at time `now`: the loading indicator and message while
/// a background operation runs, else the status message.
pub open spec fn status_line(s: AppStateView, now: u64) -> Seq<char> {
    match s.loading_state {
        LoadingView::Loading(m) => loading_indicator(s, now) + " "@ + m,
        LoadingView::Idle => s.status_message,
    }
}

/// The title of the paste list: how many pastes it holds.
pub open spec fn list_title(n: nat) -> Seq<char> {
    "Pastes ("@ + decimal(n) + ")"@
}

/// The device code entry as its screen shows it: the label, then the typed
/// characters padded with blanks to eight characters.
pub open spec fn device_code_line(buffer: Seq<char>) -> Seq<char> {
    "Device Code: "@ + buffer + Seq::new(
        if buffer.len() < 8 {
            (8 - buffer.len()) as nat
        } else {
            0
        },
        |i: int| ' ',
    )
}

/// The count under the device code entry: how many bytes are typed, of
/// eight.
pub open spec fn device_code_count(buffer: Seq<char>) -> Seq<char> {
    decimal(byte_len(buffer) as nat) + "/8 characters"@
}

/// The title of the paste editor's text area: how long the content is, in
/// bytes.
pub open spec fn content_title(buffer: Seq<char>) -> Seq<char> {
    "Content ("@ + decimal(byte_len(buffer) as nat) + " chars)"@
}

/// The one-line preview of a paste in the list: at most the first 40
/// characters of its first line, followed by `...` when the whole content
/// is longer than 40 bytes.
pub open spec fn preview_of(content: Seq<char>) -> Seq<char> {
    let shown = prefix(first_line(content), 40);
    if byte_len(content) > 40 {
        shown + "..."@
    } else {
        shown
    }
}

/// The lines of the preview pane: the first 20 lines of the selected
/// paste; or a hint where nothing is selected.
pub open spec fn preview_lines(s: AppStateView) -> Seq<Seq<char>> {
    match s.selected_paste {
        Some(i) => if i < s.pastes.len() {
            prefix(str_lines(s.pastes[i as int].content@), 20)
        } else {
            seq!["No paste selected"@]
        },
        None => if s.pastes.len() == 0 {
            seq![
                "No pastes found."@,
                Seq::empty(),
                "Press 'c' to create a new paste"@,
                "Press 'r' to refresh"@,
            ]
        } else {
            seq!["Select a paste to preview"@]
        },
    }
}

/// The lines that the paste viewer shows: those of the selected paste
/// from the scroll position on; none where no paste is selected.
pub open spec fn viewed_lines(s: AppStateView) -> Option<Seq<Seq<char>>> {
    match s.selected_paste {
        Some(i) => if i < s.pastes.len() {
            let lines = str_lines(s.pastes[i as int].content@);
            Some(
                if s.view_scroll <= lines.len() {
                    lines.skip(s.view_scroll as int)
                } else {
                    Seq::empty()
                },
            )
        } else {
            None
        },
        None => None,
    }
}

/// The one-line preview of a paste in the list: at most the first 40
/// characters of its first line, and `...` when the content is longer than
/// 40 bytes.
pub fn paste_preview(content: &str) -> (r: String)
    ensures
        r@ == preview_of(content@),
{
    let lines = split_lines(content);
    let mut shown = if lines.len() > 0 {
        assert(lines@[0]@ == string_views(lines@)[0]);
        let first = lines[0].as_str();
        let n = first.unicode_len();
        if n <= 40 {
            first.to_owned()
        } else {
            first.substring_char(0, 40).to_owned()
        }
    } else {
        String::new()
    };
    if content.len() > 40 {
        shown.append("...");
    }
    shown
}

impl AppState {
    /// The state at start: the main screen, empty, with the welcome message,
    /// while the client is being set up since `now`.
    pub fn new(config: AppConfig, now: u64) -> (r: Self)
        ensures
            r@.mode == AppMode::Main,
            !r@.should_quit,
            r@.client is None,
            r@.device_code is None,
            r@.config == config,
            r@.pastes.len() == 0,
            r@.selected_paste is None,
            r@.input_buffer.len() == 0,
            r@.status_message == welcome_message(),
            r@.error_message is None,
            r@.list_state == (ListState { selected: None }),
            r@.scroll_state == (ScrollbarState { content_length: 0, position: 0 }),
            r@.view_scroll == 0,
            r@.loading_state == initializing(),
            r@.loading_start == Some(now),
    {
        AppState {
            mode: AppMode::Main,
            should_quit: false,
            client: None,
            device_code: None,
            config,
            pastes: Vec::new(),
            selected_paste: None,
            input_buffer: String::new(),
            status_message: "Welcome to Board TUI! Press 'h' for help".to_owned(),
            error_message: None,
            list_state: ListState { selected: None },
            scroll_state: ScrollbarState { content_length: 0, position: 0 },
            view_scroll: 0,
            loading_state: LoadingState::Loading("Initializing API client...".to_owned()),
            loading_start: Some(now),
        }
    }

    /// Marks a background operation with message `message` as running since
    /// `now`.
    pub fn start_loading(&mut self, message: &str, now: u64)
        ensures
            final(self)@ == start_loading(old(self)@, message@, now),
    {
        self.loading_state = LoadingState::Loading(message.to_owned());
        self.loading_start = Some(now);
    }

    /// Marks that no background operation runs.
    pub fn stop_loading(&mut self)
        ensures
            final(self)@ == stop_loading(old(self)@),
    {
        self.loading_state = LoadingState::Idle;
        self.loading_start = None;
    }

    /// Asks to reload the pastes, where there is a client.
    pub fn refresh_pastes(&mut self, now: u64) -> (r: Action)
        ensures
            (final(self)@, r@) == refresh_pastes(old(self)@, now),
    {
        if self.client.is_some() {
            self.start_loading("Loading pastes...", now);
            Action::LoadPastes
        } else {
            Action::Nothing
        }
    }

    /// Asks to register a new device.
    pub fn register_new_device(&mut self, now: u64) -> (r: Action)
        ensures
            (final(self)@, r@) == register_new_device(old(self)@, now),
    {
        self.start_loading("Registering new device...", now);
        Action::RegisterDevice
    }

    /// Asks for the API's description of itself, where there is a client.
    pub fn request_api_info(&mut self, now: u64) -> (r: Action)
        ensures
            (final(self)@, r@) == request_api_info(old(self)@, now),
    {
        if self.client.is_some() {
            self.start_loading("Loading API info...", now);
            Action::LoadApiInfo
        } else {
            Action::Nothing
        }
    }

    /// Asks to create a paste of the input buffer, unless it is blank.
    pub fn create_paste(&mut self, now: u64) -> (r: Action)
        ensures
            (final(self)@, r@) == create_paste(old(self)@, now),
    {
        let content = trim(self.input_buffer.as_str());
        if content.as_str().is_empty() {
            self.status_message = "Cannot create empty paste".to_owned();
            return Action::Nothing;
        }
        if self.client.is_some() {
            self.start_loading("Creating paste...", now);
            Action::CreatePaste(self.input_buffer.clone())
        } else {
            Action::Nothing
        }
    }

    /// Selects the paste above, wrapping around to the last.
    pub fn previous_paste(&mut self)
        ensures
            final(self)@ == previous_paste(old(self)@),
    {
        if self.pastes.len() == 0 {
            return;
        }
        let selected = match self.selected_paste {
            Some(i) => if i > 0 {
                i - 1
            } else {
                self.pastes.len() - 1
            },
            None => 0,
        };
        self.selected_paste = Some(selected);
        self.list_state.selected = Some(selected);
    }

    /// Selects the paste below, wrapping around to the first.
    pub fn next_paste(&mut self)
        ensures
            final(self)@ == next_paste(old(self)@),
    {
        if self.pastes.len() == 0 {
            return;
        }
        let selected = match self.selected_paste {
            Some(i) => if i < self.pastes.len() - 1 {
                i + 1
            } else {
                0
            },
            None => 0,
        };
        self.selected_paste = Some(selected);
        self.list_state.selected = Some(selected);
    }

    /// Opens the selected paste, where one is selected.
    pub fn view_selected_paste(&mut self)
        ensures
            final(self)@ == view_selected_paste(old(self)@),
    {
        if let Some(selected) = self.selected_paste {
            if selected < self.pastes.len() {
                self.mode = AppMode::ViewPaste;
                self.view_scroll = 0;
            }
        }
    }

    /// Shows a paste URL in the status line.
    pub fn copy_paste_url(&mut self, url: &str)
        ensures
            final(self)@ == with_status(old(self)@, "URL: "@ + url@),
    {
        let mut msg = "URL: ".to_owned();
        msg.append(url);
        self.status_message = msg;
    }

    /// Points the scroll bar of the paste list at the selection.
    pub fn update_scroll_state(&mut self)
        ensures
            final(self)@ == update_scroll_state(old(self)@),
    {
        let position = match self.selected_paste {
            Some(i) => i,
            None => 0,
        };
        self.scroll_state = ScrollbarState { content_length: self.pastes.len(), position };
    }

    /// The main screen's answer to a key.
    pub fn handle_main_input(&mut self, key: Key, modifiers: KeyModifiers, now: u64) -> (r: Action)
        ensures
            (final(self)@, r@) == main_input(old(self)@, key, modifiers, now),
    {
        match key {
            Key::Char('q') | Key::Esc => {
                self.should_quit = true;
                Action::Nothing
            },
            Key::Char('h') => {
                self.mode = AppMode::Help;
                Action::Nothing
            },
            Key::Char('c') => {
                self.mode = AppMode::CreatePaste;
                self.input_buffer = String::new();
                self.status_message = "Enter paste content (Ctrl+S to save, Enter for a new line, Esc to cancel)".to_owned();
                Action::Nothing
            },
            Key::Char('r') => self.refresh_pastes(now),
            Key::Char('n') => self.register_new_device(now),
            Key::Char('i') => self.request_api_info(now),
            Key::Char('e') => {
                self.mode = AppMode::EnterDeviceCode;
                self.input_buffer = String::new();
                self.status_message = "Enter 8-character device code (Esc to cancel)".to_owned();
                Action::Nothing
            },
            Key::Up | Key::Char('k') => {
                self.previous_paste();
                Action::Nothing
            },
            Key::Down | Key::Char('j') => {
                self.next_paste();
                Action::Nothing
            },
            Key::Enter => {
                self.view_selected_paste();
                Action::Nothing
            },
            Key::Char('d') => {
                if modifiers.control {
                    if let Some(selected) = self.selected_paste {
                        if selected < self.pastes.len() {
                            let url = self.pastes[selected].url.clone();
                            self.copy_paste_url(url.as_str());
                        }
                    }
                }
                Action::Nothing
            },
            _ => Action::Nothing,
        }
    }

    /// The paste editor's answer to a key.
    pub fn handle_create_input(&mut self, key: Key, modifiers: KeyModifiers, now: u64) -> (r: Action)
        ensures
            (final(self)@, r@) == create_input(old(self)@, key, modifiers, now),
    {
        match key {
            Key::Esc => {
                self.mode = AppMode::Main;
                self.input_buffer = String::new();
                self.status_message = "Paste creation cancelled".to_owned();
                Action::Nothing
            },
            Key::Char('s') if modifiers.control => self.create_paste(now),
            Key::Char(c) => {
                push_char(&mut self.input_buffer, c);
                Action::Nothing
            },
            Key::Backspace => {
                pop_char(&mut self.input_buffer);
                Action::Nothing
            },
            Key::Enter => {
                push_char(&mut self.input_buffer, '\n');
                Action::Nothing
            },
            _ => Action::Nothing,
        }
    }

    /// Whether `code` is a device code: eight bytes, all ASCII letters or
    /// digits.
    pub fn is_valid_device_code(code: &str) -> (r: bool)
        ensures
            r == valid_device_code(code@),
    {
        let n = code.unicode_len();
        let mut i: usize = 0;
        while i < n
            invariant
                n == code@.len(),
                i <= n,
                forall|k: int| 0 <= k < i ==> is_ascii_alphanumeric(#[trigger] code@[k]),
            decreases n - i,
        {
            if !char_is_ascii_alphanumeric(code.get_char(i)) {
                return false;
            }
            i = i + 1;
        }
        proof {
            broadcast use vstd::string::is_ascii_spec_bytes;
            assert(vstd::string::is_ascii(code));
        }
        code.len() == 8
    }

    /// Tries the entered device code, where it is valid.
    fn submit_device_code(&mut self, now: u64) -> (r: Action)
        ensures
            (final(self)@, r@) == submit_device_code(old(self)@, now),
    {
        let trimmed_code = trim(self.input_buffer.as_str());
        let code = str_to_uppercase(trimmed_code.as_str());
        if Self::is_valid_device_code(code.as_str()) {
            self.set_custom_device_code(code, now)
        } else {
            self.status_message = "Invalid device code. Must be 8 alphanumeric characters.".to_owned();
            Action::Nothing
        }
    }

    /// Asks to try device code `code`.
    pub fn set_custom_device_code(&mut self, code: String, now: u64) -> (r: Action)
        ensures
            final(self)@ == start_loading(old(self)@, "Connecting with custom device..."@, now),
            r@ == ActionView::SetCustomDeviceCode(code@),
    {
        self.start_loading("Connecting with custom device...", now);
        Action::SetCustomDeviceCode(code)
    }

    /// The device code entry's answer to a key.
    pub fn handle_device_code_input(&mut self, key: Key, modifiers: KeyModifiers, now: u64) -> (r:
        Action)
        ensures
            (final(self)@, r@) == device_code_input(old(self)@, key, modifiers, now),
    {
        match key {
            Key::Esc => {
                self.mode = AppMode::Main;
                self.input_buffer = String::new();
                self.status_message = "Device code entry cancelled".to_owned();
                Action::Nothing
            },
            Key::Enter => self.submit_device_code(now),
            Key::Char('s') if modifiers.control => self.submit_device_code(now),
            Key::Char(c) if char_is_alphanumeric(c) && self.input_buffer.as_str().len() < 8 => {
                push_char(&mut self.input_buffer, to_ascii_uppercase(c));
                Action::Nothing
            },
            Key::Backspace => {
                pop_char(&mut self.input_buffer);
                Action::Nothing
            },
            _ => Action::Nothing,
        }
    }

    /// The paste viewer's answer to a key.
    pub fn handle_view_input(&mut self, key: Key)
        requires
            scroll_step_fits(old(self).view_scroll, key),
        ensures
            final(self)@ == view_input(old(self)@, key),
    {
        match key {
            Key::Esc | Key::Char('q') => {
                self.mode = AppMode::Main;
                self.view_scroll = 0;
            },
            Key::Up | Key::Char('k') => {
                if self.view_scroll > 0 {
                    self.view_scroll = self.view_scroll - 1;
                }
            },
            Key::Down | Key::Char('j') => {
                self.view_scroll = self.view_scroll + 1;
            },
            Key::PageUp => {
                self.view_scroll = self.view_scroll.saturating_sub(10);
            },
            Key::PageDown => {
                self.view_scroll = self.view_scroll + 10;
            },
            _ => {},
        }
    }

    /// The help screen's answer to a key.
    pub fn handle_help_input(&mut self, key: Key)
        ensures
            final(self)@ == help_input(old(self)@, key),
    {
        match key {
            Key::Esc | Key::Char('q') | Key::Char('h') => {
                self.mode = AppMode::Main;
            },
            _ => {},
        }
    }

    /// The error screen's answer to a key.
    pub fn handle_error_input(&mut self, key: Key)
        ensures
            final(self)@ == error_input(old(self)@, key),
    {
        match key {
            Key::Esc | Key::Char('q') | Key::Enter => {
                self.mode = AppMode::Main;
                self.error_message = None;
            },
            _ => {},
        }
    }

    /// The interface's answer to a key pressed at time `now`: the state
    /// changes as [`input`] says, and the returned action is the background
    /// operation to start.
    pub fn handle_input(&mut self, key: Key, modifiers: KeyModifiers, now: u64) -> (r: Action)
        requires
            scroll_fits(old(self)@, key),
        ensures
            (final(self)@, r@) == input(old(self)@, key, modifiers, now),
    {
        if let LoadingState::Loading(_) = self.loading_state {
            match key {
                Key::Char('q') | Key::Esc => self.should_quit = true,
                _ => return Action::Nothing,
            }
        }
        match self.mode {
            AppMode::Main => self.handle_main_input(key, modifiers, now),
            AppMode::CreatePaste => self.handle_create_input(key, modifiers, now),
            AppMode::ViewPaste => {
                self.handle_view_input(key);
                Action::Nothing
            },
            AppMode::EnterDeviceCode => self.handle_device_code_input(key, modifiers, now),
            AppMode::Help => {
                self.handle_help_input(key);
                Action::Nothing
            },
            AppMode::Error => {
                self.handle_error_input(key);
                Action::Nothing
            },
        }
    }

    /// Takes in the outcome of a background operation at time `now`: the
    /// state changes as [`async_result`] says, and the returned action is
    /// the background operation to start next.
    pub fn handle_async_result(&mut self, result: AsyncResult, now: u64) -> (r: Action)
        ensures
            (final(self)@, r@) == async_result(old(self)@, result, now),
    {
        match result {
            AsyncResult::DeviceRegistered(client, device_code, config) => {
                let mut msg = "Connected with device: ".to_owned();
                msg.append(device_code.as_str());
                self.client = Some(client);
                self.device_code = Some(device_code);
                self.config = config;
                self.status_message = msg;
                self.stop_loading();
                self.refresh_pastes(now)
            },
            AsyncResult::CustomDeviceSet(client, device_code, config) => {
                let mut msg = "Connected with custom device: ".to_owned();
                msg.append(device_code.as_str());
                self.client = Some(client);
                self.device_code = Some(device_code);
                self.config = config;
                self.status_message = msg;
                self.mode = AppMode::Main;
                self.input_buffer = String::new();
                self.stop_loading();
                self.refresh_pastes(now)
            },
            AsyncResult::PastesLoaded(pastes) => {
                let mut msg = "Loaded ".to_owned();
                push_decimal(&mut msg, pastes.len());
                msg.append(" pastes");
                self.pastes = pastes;
                self.status_message = msg;
                if self.pastes.len() > 0 && self.selected_paste.is_none() {
                    self.selected_paste = Some(0);
                    self.list_state.selected = Some(0);
                }
                self.update_scroll_state();
                self.stop_loading();
                Action::Nothing
            },
            AsyncResult::PasteCreated(paste) => {
                let mut msg = "Created paste: ".to_owned();
                msg.append(paste.id.as_str());
                self.pastes.insert(0, paste);
                self.status_message = msg;
                self.mode = AppMode::Main;
                self.input_buffer = String::new();
                self.selected_paste = Some(0);
                self.list_state.selected = Some(0);
                self.update_scroll_state();
                self.stop_loading();
                Action::Nothing
            },
            AsyncResult::ApiInfoLoaded(info) => {
                let mut msg = "API: ".to_owned();
                msg.append(info.message.as_str());
                msg.append(" (");
                push_decimal(&mut msg, info.endpoints.len());
                msg.append(" endpoints)");
                self.status_message = msg;
                self.stop_loading();
                Action::Nothing
            },
            AsyncResult::Error(error) => {
                self.status_message = error.clone();
                self.error_message = Some(error);
                self.mode = AppMode::Error;
                self.stop_loading();
                Action::Nothing
            },
        }
    }

    /// The loading indicator at time `now`: a spinner frame while a
    /// background operation runs, else a blank.
    pub fn get_loading_indicator(&self, now: u64) -> (r: String)
        ensures
            r@ == loading_indicator(self@, now),
    {
        if let LoadingState::Loading(_) = self.loading_state {
            let elapsed: u64 = match self.loading_start {
                Some(start) => now.saturating_sub(start),
                None => 0,
            };
            let frame = (elapsed / 100) % 8;
            let text = if frame == 0 {
                "\u{28fe}"
            } else if frame == 1 {
                "\u{28fd}"
            } else if frame == 2 {
                "\u{28fb}"
            } else if frame == 3 {
                "\u{28bf}"
            } else if frame == 4 {
                "\u{287f}"
            } else if frame == 5 {
                "\u{28df}"
            } else if frame == 6 {
                "\u{28ef}"
            } else {
                "\u{28f7}"
            };
            text.to_owned()
        } else {
            " ".to_owned()
        }
    }
    /// The header line.
    pub fn header_text(&self) -> (r: String)
        ensures
            r@ == header_line(self@),
    {
        match &self.device_code {
            Some(d) => {
                let mut t = "Board TUI - Device: ".to_owned();
                t.append(d.as_str());
                t
            },
            None => "Board TUI - No Device".to_owned(),
        }
    }

    /// The status line at time `now`.
    pub fn status_text(&self, now: u64) -> (r: String)
        ensures
            r@ == status_line(self@, now),
    {
        match &self.loading_state {
            LoadingState::Loading(msg) => {
                let mut t = self.get_loading_indicator(now);
                t.append(" ");
                t.append(msg.as_str());
                t
            },
            LoadingState::Idle => self.status_message.clone(),
        }
    }

    /// The device code entry as its screen shows it.
    pub fn device_code_text(&self) -> (r: String)
        ensures
            r@ == device_code_line(self@.input_buffer),
    {
        let mut t = "Device Code: ".to_owned();
        t.append(self.input_buffer.as_str());
        let n = self.input_buffer.as_str().unicode_len();
        let ghost head = t@;
        let mut k: usize = n;
        while k < 8
            invariant
                n == self@.input_buffer.len(),
                n <= k,
                k <= 8 || k == n,
                t@ == head + Seq::new((k - n) as nat, |i: int| ' '),
            decreases 8 - k,
        {
            push_char(&mut t, ' ');
            assert(Seq::new((k + 1 - n) as nat, |i: int| ' ') =~= Seq::new(
                (k - n) as nat,
                |i: int| ' ',
            ).push(' '));
            k = k + 1;
        }
        assert(t@ =~= device_code_line(self@.input_buffer));
        t
    }

    /// The count under the device code entry.
    pub fn device_code_count_text(&self) -> (r: String)
        ensures
            r@ == device_code_count(self@.input_buffer),
    {
        let mut t = String::new();
        push_decimal(&mut t, self.input_buffer.as_str().len());
        t.append("/8 characters");
        t
    }

    /// The title of the paste editor's text area.
    pub fn content_title_text(&self) -> (r: String)
        ensures
            r@ == content_title(self@.input_buffer),
    {
        let mut t = "Content (".to_owned();
        push_decimal(&mut t, self.input_buffer.as_str().len());
        t.append(" chars)");
        t
    }

    /// The title of the paste list.
    pub fn list_title(&self) -> (r: String)
        ensures
            r@ == list_title(self@.pastes.len()),
    {
        let mut t = "Pastes (".to_owned();
        push_decimal(&mut t, self.pastes.len());
        t.append(")");
        t
    }

    /// The lines of the preview pane.
    pub fn preview_lines(&self) -> (r: Vec<String>)
        ensures
            string_views(r@) == preview_lines(self@),
    {
        match self.selected_paste {
            Some(i) => {
                if i < self.pastes.len() {
                    let mut lines = split_lines(self.pastes[i].content.as_str());
                    let ghost all = lines@;
                    lines.truncate(20);
                    assert(string_views(lines@) =~= prefix(string_views(all), 20));
                    lines
                } else {
                    let mut v = Vec::new();
                    v.push("No paste selected".to_owned());
                    assert(string_views(v@) =~= preview_lines(self@));
                    v
                }
            },
            None => {
                let mut v = Vec::new();
                if self.pastes.len() == 0 {
                    v.push("No pastes found.".to_owned());
                    v.push(String::new());
                    v.push("Press 'c' to create a new paste".to_owned());
                    v.push("Press 'r' to refresh".to_owned());
                } else {
                    v.push("Select a paste to preview".to_owned());
                }
                assert(string_views(v@) =~= preview_lines(self@));
                v
            },
        }
    }

    /// The lines that the paste viewer shows, from the scroll position on;
    /// `None` where no paste is selected.
    pub fn viewed_lines(&self) -> (r: Option<Vec<String>>)
        ensures
            match r {
                Some(v) => viewed_lines(self@) == Some(string_views(v@)),
                None => viewed_lines(self@) is None,
            },
    {
        match self.selected_paste {
            Some(i) => {
                if i < self.pastes.len() {
                    let mut lines = split_lines(self.pastes[i].content.as_str());
                    let ghost all = lines@;
                    assert(string_views(all).len() == all.len());
                    if self.view_scroll <= lines.len() {
                        let rest = lines.split_off(self.view_scroll);
                        assert(string_views(rest@) =~= string_views(all).skip(self.view_scroll as int));
                        Some(rest)
                    } else {
                        Some(Vec::new())
                    }
                } else {
                    None
                }
            },
            None => None,
        }
    }
}

// ----- Laws of the state machine -----

/// Whether the highlighted item of the list is the selected paste.
pub open spec fn selection_mirrored(s: AppStateView) -> bool {
    s.list_state.selected == s.selected_paste
}

/// Whether the selection, if any, is a paste of the list.
pub open spec fn selection_in_range(s: AppStateView) -> bool {
    s.selected_paste matches Some(i) ==> i < s.pastes.len()
}

/// The list highlights the selected paste at start, and every key and every
/// background result keeps it so.
pub proof fn lemma_selection_stays_mirrored(
    s: AppStateView,
    key: Key,
    mods: KeyModifiers,
    result: AsyncResult,
    now: u64,
)
    requires
        selection_mirrored(s),
    ensures
        selection_mirrored(input(s, key, mods, now).0),
        selection_mirrored(async_result(s, result, now).0),
{
}

/// Moving the selection up or down keeps it on a paste of the list.
pub proof fn lemma_navigation_stays_in_range(s: AppStateView)
    requires
        selection_in_range(s),
    ensures
        selection_in_range(previous_paste(s)),
        selection_in_range(next_paste(s)),
        s.pastes.len() > 0 ==> previous_paste(s).selected_paste is Some,
        s.pastes.len() > 0 ==> next_paste(s).selected_paste is Some,
{
}

/// Moving the selection down and then up, or up and then down, comes back
/// to the paste that was selected; the list wraps around at both ends.
pub proof fn lemma_navigation_round_trip(s: AppStateView)
    requires
        s.pastes.len() <= usize::MAX,
        s.selected_paste is Some,
        selection_in_range(s),
    ensures
        previous_paste(next_paste(s)).selected_paste == s.selected_paste,
        next_paste(previous_paste(s)).selected_paste == s.selected_paste,
{
}

/// While a background operation runs, a key other than `q` and Esc changes
/// nothing and starts nothing, and `q` or Esc always asks to quit.
pub proof fn lemma_loading_blocks_input(s: AppStateView, key: Key, mods: KeyModifiers, now: u64)
    requires
        is_loading(s),
    ensures
        !is_quit_key(key) ==> input(s, key, mods, now) == (s, ActionView::Nothing),
        is_quit_key(key) ==> input(s, key, mods, now).0.should_quit,
{
}

/// No key starts a background operation while another one runs.
pub proof fn lemma_one_operation_at_a_time(s: AppStateView, key: Key, mods: KeyModifiers, now: u64)
    requires
        is_loading(s),
    ensures
        input(s, key, mods, now).1 == ActionView::Nothing,
{
}

/// Whenever a key or a background result asks for a background operation,
/// the loading indicator starts at that moment.
pub proof fn lemma_action_starts_loading(
    s: AppStateView,
    key: Key,
    mods: KeyModifiers,
    result: AsyncResult,
    now: u64,
)
    ensures
        input(s, key, mods, now).1 != ActionView::Nothing ==> is_loading(input(s, key, mods, now).0)
            && input(s, key, mods, now).0.loading_start == Some(now),
        async_result(s, result, now).1 != ActionView::Nothing ==> is_loading(
            async_result(s, result, now).0,
        ) && async_result(s, result, now).0.loading_start == Some(now),
{
}

/// A paste is only ever created from the paste editor, by Ctrl+S, with a
/// client, and of exactly the text typed there, which is not blank.
pub proof fn lemma_created_paste_is_the_input(s: AppStateView, key: Key, mods: KeyModifiers, now: u64)
    ensures
        input(s, key, mods, now).1 matches ActionView::CreatePaste(content) ==> {
            &&& key == Key::Char('s') && mods.control
            &&& content == s.input_buffer
            &&& trimmed(content).len() > 0
            &&& s.client is Some
            &&& s.mode == AppMode::CreatePaste
        },
{
}

/// In the paste editor, Enter starts a new line, with or without Shift,
/// and never saves.
pub proof fn lemma_enter_adds_a_line(s: AppStateView, mods: KeyModifiers, now: u64)
    requires
        !is_loading(s),
        s.mode == AppMode::CreatePaste,
    ensures
        input(s, Key::Enter, mods, now) == (
            AppStateView { input_buffer: s.input_buffer.push('\n'), ..s },
            ActionView::Nothing,
        ),
{
}

/// The API's description is only ever asked for by `i` on the main screen,
/// with a client.
pub proof fn lemma_api_info_on_request(s: AppStateView, key: Key, mods: KeyModifiers, now: u64)
    ensures
        input(s, key, mods, now).1 == ActionView::LoadApiInfo ==> {
            &&& key == Key::Char('i')
            &&& s.mode == AppMode::Main
            &&& s.client is Some
        },
        !is_loading(s) && s.mode == AppMode::Main && s.client is Some ==> input(
            s,
            Key::Char('i'),
            mods,
            now,
        ).1 == ActionView::LoadApiInfo,
{
}

/// A failed background operation opens the error dialog with its message
/// and ends the loading; Esc, `q` or Enter closes the dialog, back to the
/// main screen without a message.
pub proof fn lemma_failure_opens_error_dialog(
    s: AppStateView,
    msg: String,
    key: Key,
    mods: KeyModifiers,
    now: u64,
)
    ensures
        ({
            let t = async_result(s, AsyncResult::Error(msg), now).0;
            &&& t.mode == AppMode::Error
            &&& t.error_message == Some(msg@)
            &&& !is_loading(t)
            &&& (key == Key::Esc || key == Key::Char('q') || key == Key::Enter) ==> {
                let u = input(t, key, mods, now).0;
                &&& u.mode == AppMode::Main
                &&& u.error_message is None
            }
        }),
{
}

/// A device code is only ever tried from the device code entry, and only
/// as the trimmed, upper-cased entry when that is eight ASCII letters or
/// digits.
pub proof fn lemma_tried_device_code_is_valid(s: AppStateView, key: Key, mods: KeyModifiers, now: u64)
    ensures
        input(s, key, mods, now).1 matches ActionView::SetCustomDeviceCode(code) ==> {
            &&& code == entered_device_code(s.input_buffer)
            &&& valid_device_code(code)
            &&& s.mode == AppMode::EnterDeviceCode
        },
{
}

/// Typing into the device code entry adds at most one character, and only
/// while the entry is shorter than eight bytes.
pub proof fn lemma_device_code_entry_stays_short(
    s: AppStateView,
    key: Key,
    mods: KeyModifiers,
    now: u64,
)
    requires
        s.mode == AppMode::EnterDeviceCode,
        !is_loading(s),
        key is Char,
    ensures
        input(s, key, mods, now).0.input_buffer.len() <= s.input_buffer.len() + 1,
        input(s, key, mods, now).0.input_buffer.len() > s.input_buffer.len() ==> byte_len(
            s.input_buffer,
        ) < 8,
{
}

/// A created paste comes first in the list, is selected, and the editor
/// closes; loaded pastes replace the list and keep a selection on it.
pub proof fn lemma_results_update_the_list(s: AppStateView, result: AsyncResult, now: u64)
    ensures
        result matches AsyncResult::PasteCreated(p) ==> {
            let t = async_result(s, result, now).0;
            &&& t.pastes == s.pastes.insert(0, p)
            &&& t.selected_paste == Some(0usize)
            &&& t.mode == AppMode::Main
            &&& t.input_buffer.len() == 0
            &&& !is_loading(t)
        },
        result matches AsyncResult::PastesLoaded(v) ==> {
            let t = async_result(s, result, now).0;
            &&& t.pastes == v@
            &&& (v@.len() > 0 && s.selected_paste is None ==> t.selected_paste == Some(0usize))
            &&& (s.selected_paste is Some ==> t.selected_paste == s.selected_paste)
            &&& t.scroll_state.content_length == v@.len() as usize
            &&& !is_loading(t)
        },
{
}

/// On the main screen, `h` opens the help screen and `h` closes it again,
/// back to the same state.
pub proof fn lemma_help_round_trip(s: AppStateView, mods: KeyModifiers, now: u64)
    requires
        !is_loading(s),
        s.mode == AppMode::Main,
    ensures
        input(s, Key::Char('h'), mods, now).0.mode == AppMode::Help,
        input(input(s, Key::Char('h'), mods, now).0, Key::Char('h'), mods, now).0 == s,
{
    assert(input(input(s, Key::Char('h'), mods, now).0, Key::Char('h'), mods, now).0 =~= s);
}

/// In the paste editor, typing a character and then Backspace gives back
/// the state before.
pub proof fn lemma_type_then_backspace(
    s: AppStateView,
    c: char,
    mods: KeyModifiers,
    now: u64,
)
    requires
        !is_loading(s),
        s.mode == AppMode::CreatePaste,
        !(c == 's' && mods.control),
    ensures
        input(input(s, Key::Char(c), mods, now).0, Key::Backspace, mods, now).0 == s,
{
    let t = input(s, Key::Char(c), mods, now).0;
    assert(t.input_buffer == s.input_buffer.push(c));
    assert(t.input_buffer.drop_last() =~= s.input_buffer);
    assert(input(t, Key::Backspace, mods, now).0 =~= s);
}

/// In the paste viewer, scrolling down one line and then up one line gives
/// back the state before.
pub proof fn lemma_scroll_round_trip(s: AppStateView, mods: KeyModifiers, now: u64)
    requires
        !is_loading(s),
        s.mode == AppMode::ViewPaste,
        s.view_scroll < usize::MAX,
    ensures
        input(input(s, Key::Down, mods, now).0, Key::Up, mods, now).0 == s,
{
    assert(input(input(s, Key::Down, mods, now).0, Key::Up, mods, now).0 =~= s);
}

/// After a device is registered or a custom device code is accepted, the
/// interface uses exactly the client, device code and configuration that
/// came with the result, so the pastes loaded and created next are that
/// device's.
pub proof fn lemma_connected_client_is_the_new_one(
    s: AppStateView,
    client: BoardClient,
    code: DeviceCode,
    config: AppConfig,
    now: u64,
)
    ensures
        ({
            let t = async_result(s, AsyncResult::DeviceRegistered(client, code, config), now);
            &&& t.0.client == Some(client)
            &&& t.0.device_code == Some(code)
            &&& t.0.config == config
            &&& t.1 == ActionView::LoadPastes
        }),
        ({
            let t = async_result(s, AsyncResult::CustomDeviceSet(client, code, config), now);
            &&& t.0.client == Some(client)
            &&& t.0.device_code == Some(code)
            &&& t.0.config == config
            &&& t.0.mode == AppMode::Main
            &&& t.1 == ActionView::LoadPastes
        }),
{
}

/// The paste viewer shows the selected paste: its lines from the scroll
/// position on (none once the position is past its last line); nothing
/// where no paste of the list is selected.
pub proof fn lemma_viewer_shows_the_selected_paste(s: AppStateView)
    ensures
        s.selected_paste matches Some(i) ==> (i < s.pastes.len() ==> {
            let lines = str_lines(s.pastes[i as int].content@);
            &&& s.view_scroll <= lines.len() ==> viewed_lines(s) == Some(
                lines.subrange(s.view_scroll as int, lines.len() as int),
            )
            &&& s.view_scroll > lines.len() ==> viewed_lines(s) == Some(Seq::<Seq<char>>::empty())
        }),
        !(s.selected_paste matches Some(i) && i < s.pastes.len()) ==> viewed_lines(s) is None,
{
    if let Some(i) = s.selected_paste {
        if i < s.pastes.len() {
            let lines = str_lines(s.pastes[i as int].content@);
            assert(lines.skip(s.view_scroll as int) =~= lines.subrange(
                s.view_scroll as int,
                lines.len() as int,
            ));
        }
    }
}

/// Scrolling the viewer down one line drops the first line shown, as long
/// as a line is shown.
pub proof fn lemma_scrolling_drops_the_top_line(s: AppStateView, mods: KeyModifiers, now: u64)
    requires
        !is_loading(s),
        s.mode == AppMode::ViewPaste,
        s.view_scroll < usize::MAX,
        viewed_lines(s) matches Some(v) && v.len() > 0,
    ensures
        viewed_lines(input(s, Key::Down, mods, now).0) == Some(viewed_lines(s)->0.drop_first()),
{
    let i = s.selected_paste->0;
    let lines = str_lines(s.pastes[i as int].content@);
    assert(lines.skip(s.view_scroll as int).drop_first() =~= lines.skip(s.view_scroll + 1));
}

/// The preview pane shows the first twenty lines of the selected paste
/// (all of them where it has fewer).
pub proof fn lemma_preview_shows_the_selected_paste(s: AppStateView)
    ensures
        s.selected_paste matches Some(i) ==> (i < s.pastes.len() ==> {
            let lines = str_lines(s.pastes[i as int].content@);
            &&& lines.len() <= 20 ==> preview_lines(s) == lines
            &&& lines.len() > 20 ==> preview_lines(s) == lines.subrange(0, 20)
        }),
{
    if let Some(i) = s.selected_paste {
        if i < s.pastes.len() {
            let lines = str_lines(s.pastes[i as int].content@);
            if lines.len() <= 20 {
                assert(prefix(lines, 20) =~= lines);
            } else {
                assert(prefix(lines, 20) =~= lines.subrange(0, 20));
            }
        }
    }
}

/// Moving the selection down shows the newly selected paste in the preview
/// pane.
pub proof fn lemma_preview_follows_the_selection(s: AppStateView, mods: KeyModifiers, now: u64)
    requires
        !is_loading(s),
        s.mode == AppMode::Main,
        s.pastes.len() > 0,
        selection_in_range(s),
    ensures
        ({
            let t = input(s, Key::Down, mods, now).0;
            &&& t.selected_paste matches Some(j)
            &&& j < s.pastes.len()
            &&& preview_lines(t) == prefix(str_lines(s.pastes[j as int].content@), 20)
        }),
{
}

/// In the paste editor with a client, Ctrl+S on text that is not blank
/// always asks to create a paste of exactly that text, however its lines
/// begin, and shows that the paste is being created; on blank text it asks
/// for nothing.
pub proof fn lemma_ctrl_s_saves_any_text_that_is_not_blank(
    s: AppStateView,
    mods: KeyModifiers,
    now: u64,
)
    requires
        !is_loading(s),
        s.mode == AppMode::CreatePaste,
        mods.control,
    ensures
        trimmed(s.input_buffer).len() > 0 && s.client is Some ==> {
            let t = input(s, Key::Char('s'), mods, now);
            &&& t.1 == ActionView::CreatePaste(s.input_buffer)
            &&& t.0.loading_state == LoadingView::Loading("Creating paste..."@)
            &&& t.0.loading_start == Some(now)
            &&& t.0.input_buffer == s.input_buffer
            &&& t.0.mode == AppMode::CreatePaste
        },
        trimmed(s.input_buffer).len() == 0 ==> input(s, Key::Char('s'), mods, now).1
            == ActionView::Nothing,
{
}

} // verus!
