use rsfchat::app::{AppError, AppEvent};
use rsfchat::bridge::{ChatController, IoRequest, StreamStep, KEEPALIVE_SECS};
use rsfchat::config::{Config, Settings, UserInfo};
use rsfchat::input::{parse, Action};
use rsfchat::message::{handle, ClientMessage, ServerMessage};
use rsfchat::tabs;
use rsfchat::tabs::messages::{Log, MessageType};
use rsfchat::tabstrip;
use rsfchat::ticket::Ticket;
use rsfchat::ui::{Controller, Event, Server, State, StepAction, StepInput, StepStatus};

fn sample_config() -> Config {
    Config {
        user_info: UserInfo {
            username: String::from("alice"),
            password: String::from("secret"),
            character: String::from("Bob"),
        },
        settings: Settings { buffer_size: 4 },
    }
}

fn sample_ticket() -> Ticket {
    Ticket {
        characters: vec![String::from("Bob")],
        default_character: String::new(),
        ticket: String::from("token"),
    }
}

#[test]
fn handle_reads_the_command_code() {
    let m = handle(String::from("PIN {\"x\":1}"));
    match m {
        ServerMessage::Other { kind, contents } => {
            assert_eq!(&kind, b"PIN");
            assert_eq!(contents, "PIN {\"x\":1}");
        }
    }
}

#[test]
fn parse_plain_line_is_a_message() {
    match parse("hello there") {
        Action::Message { content } => assert_eq!(content, "hello there"),
        _ => panic!("expected a message"),
    }
}

#[test]
fn parse_priv_reports_the_error() {
    match parse("/priv Bob") {
        Action::Error { error } => assert_eq!(error, "/join expects a room name."),
        _ => panic!("expected the error"),
    }
}

#[test]
fn parse_unknown_command_is_invalid() {
    match parse("/frob x y") {
        Action::Invalid { action } => assert_eq!(action, "frob"),
        _ => panic!("expected invalid"),
    }
    match parse("/") {
        Action::Invalid { action } => assert_eq!(action, ""),
        _ => panic!("expected invalid"),
    }
}

#[test]
fn controller_queues_requests_in_order() {
    let mut c = ChatController::new();
    c.get_ticket(String::from("alice"), String::from("secret"));
    c.connect(sample_ticket(), String::from("Bob"));
    assert_eq!(c.requests.len(), 2);
    assert!(matches!(c.requests[0], IoRequest::GetTicket { .. }));
    assert!(matches!(c.requests[1], IoRequest::Connect { .. }));
    let drained = c.take_requests();
    assert_eq!(drained.len(), 2);
    assert_eq!(c.requests.len(), 0);
}

#[test]
fn stream_step_decides_publish_or_stop() {
    let m = handle(String::from("MSG hello"));
    match stream_step_helper(Some(Ok(m))) {
        StreamStep::Publish(AppEvent::Chat(_)) => {}
        _ => panic!("expected a chat event"),
    }
    match stream_step_helper(Some(Err(String::from("io")))) {
        StreamStep::Publish(AppEvent::Error(AppError::Connection(reason))) => {
            assert_eq!(reason, "io")
        }
        _ => panic!("expected a connection error"),
    }
    assert!(matches!(stream_step_helper(None), StreamStep::Stop));
    assert_eq!(KEEPALIVE_SECS, 30);
}

fn stream_step_helper(item: Option<Result<ServerMessage, String>>) -> StreamStep {
    rsfchat::bridge::stream_step(item)
}

#[test]
fn ui_controller_walks_through_a_session() {
    let mut c = Controller::new();
    let r = c.step(StepInput::Nothing);
    assert!(matches!(r.status, StepStatus::Running));
    assert_eq!(r.actions.len(), 1);
    assert!(matches!(r.actions[0], StepAction::ShowLoginDialog));
    assert!(matches!(c.state, State::Login));

    let r = c.step(StepInput::Nothing);
    assert!(r.actions.is_empty());
    assert!(matches!(c.state, State::Login));

    let r = c.step(StepInput::LoginData { ticket: sample_ticket(), character: String::from("Bob") });
    assert_eq!(r.actions.len(), 1);
    match &r.actions[0] {
        StepAction::Connect { character, server, .. } => {
            assert_eq!(character, "Bob");
            assert!(matches!(server, Server::Normal));
        }
        _ => panic!("expected a connect action"),
    }
    assert!(matches!(c.state, State::Connecting));

    let r = c.step(StepInput::Nothing);
    assert_eq!(r.actions.len(), 2);
    match &r.actions[0] {
        StepAction::SendMessage(ClientMessage::JCH { channel }) => {
            assert_eq!(channel, "Development")
        }
        _ => panic!("expected the join message"),
    }
    assert!(matches!(r.actions[1], StepAction::ShowDebugView));
    assert!(matches!(c.state, State::Connected));

    let r = c.step(StepInput::Ui(Event::TextInput(String::from("hi all"))));
    assert_eq!(r.actions.len(), 2);
    match &r.actions[0] {
        StepAction::SendMessage(ClientMessage::MSG { channel, message }) => {
            assert_eq!(channel, "Development");
            assert_eq!(message, "hi all");
        }
        _ => panic!("expected the channel message"),
    }
    match &r.actions[1] {
        StepAction::ShowDebugMessage(text) => assert_eq!(text, "hi all"),
        _ => panic!("expected the echo"),
    }

    let r = c.step(StepInput::Ui(Event::ReceivedMessage(handle(String::from("MSG hello")))));
    assert_eq!(r.actions.len(), 1);
    match &r.actions[0] {
        StepAction::ShowDebugMessage(text) => assert_eq!(text, "MSG hello"),
        _ => panic!("expected the echo"),
    }

    let r = c.step(StepInput::ChannelClosed);
    match r.status {
        StepStatus::Fatal(m) => assert_eq!(m, "ui event_rx disconnected"),
        _ => panic!("expected a fatal status"),
    }
}

#[test]
fn ui_login_channel_closed_is_fatal() {
    let mut c = Controller::new();
    c.state = State::Login;
    let r = c.step(StepInput::ChannelClosed);
    match r.status {
        StepStatus::Fatal(m) => assert_eq!(m, "ui login_rx disconnected"),
        _ => panic!("expected a fatal status"),
    }
}

#[test]
fn ui_disconnected_state_is_fatal() {
    let mut c = Controller::new();
    c.state = State::Disconnected;
    let r = c.step(StepInput::Nothing);
    match r.status {
        StepStatus::Fatal(m) => assert_eq!(m, "State::Disconnected"),
        _ => panic!("expected a fatal status"),
    }
}

#[test]
fn tab_set_reports_a_missing_conversation() {
    let mut t = tabs::Tabs::new(&sample_config());
    t.tab_order.push(tabs::TabType::Channel(String::from("Ghost")));
    t.current_tab = 1;
    match t.get_current() {
        Err(e) => assert_eq!(e, "Couldn't find tab in channel_tabs"),
        Ok(_) => panic!("expected an error"),
    }
}

#[test]
fn ui_quit_state_stops() {
    let mut c = Controller::new();
    c.state = State::Quit;
    let r = c.step(StepInput::Nothing);
    assert!(matches!(r.status, StepStatus::Stopped));
    assert!(r.actions.is_empty());
}

#[test]
fn log_records_and_formats_messages() {
    let mut log = Log::new(2);
    log.add_message(MessageType::Normal { from: String::from("Bob") }, "hi");
    assert_eq!(log.messages.len(), 1);
    assert_eq!(log.messages[0].contents, "hi");
    assert_eq!(log.display_buffer.len(), 1);
    let line = log.display_buffer.get(0).clone();
    assert_eq!(line.len(), "[hh:mm:ss] Bob: hi".len());
    assert!(line.starts_with('['));
    assert!(line.ends_with("] Bob: hi"));
    let ts = &log.messages[0].timestamp;
    assert!(ts.hours < 24 && ts.minutes < 60 && ts.seconds < 60);

    log.add_message(MessageType::Me { from: String::from("Bob") }, "waves");
    assert!(log.display_buffer.get(0).ends_with("] * Bob waves"));
    log.add_message(MessageType::System, "joined");
    assert!(log.display_buffer.get(0).ends_with("] joined"));
    // the display buffer is bounded, the full history is not
    assert_eq!(log.display_buffer.len(), 2);
    assert_eq!(log.messages.len(), 3);
}

#[test]
fn log_resize_truncates_display_lines() {
    let mut log = Log::new(4);
    for i in 0..4 {
        log.add_message(MessageType::System, &format!("m{}", i));
    }
    log.resize(2);
    assert_eq!(log.display_buffer.len(), 2);
    assert!(log.display_buffer.get(0).ends_with("] m3"));
    assert!(log.display_buffer.get(1).ends_with("] m2"));
    assert_eq!(log.messages.len(), 4);
}

#[test]
fn tab_set_opens_and_finds_tabs() {
    let mut t = tabs::Tabs::new(&sample_config());
    assert!(t.all_joined());
    assert!(matches!(t.get_current(), Ok(tabs::TabType::Status)));

    t.add_tab("Development", false);
    assert_eq!(t.tab_order.len(), 1);
    assert_eq!(t.current_tab, 1);
    assert!(!t.all_joined());
    match t.get_current() {
        Ok(tabs::TabType::Channel(id)) => assert_eq!(id, "Development"),
        _ => panic!("expected the channel tab"),
    }

    t.add_tab("Bob", true);
    assert_eq!(t.current_tab, 2);
    match t.get_current() {
        Ok(tabs::TabType::Private(id)) => assert_eq!(id, "Bob"),
        _ => panic!("expected the private tab"),
    }

    // an invalid cursor falls back to the status tab
    t.current_tab = 9;
    assert!(t.get_current().is_err());
    assert_eq!(t.current_tab, 0);
}

#[test]
fn tab_set_replaces_an_open_tab_with_the_same_id() {
    let mut t = tabs::Tabs::new(&sample_config());
    t.add_tab("Bob", true);
    t.add_tab("Bob", true);
    assert_eq!(t.private_tabs.len(), 1);
    assert_eq!(t.tab_order.len(), 2);
    assert_eq!(t.joined_count, 2);
}

#[test]
fn tab_strip_send_message_picks_the_outgoing_kind() {
    let strip = tabstrip::Tabs::new();
    let status = strip.get(0).unwrap();
    assert_eq!(
        status.send_message("hi").unwrap_err(),
        "Can't send a message into the status window."
    );

    let channel = tabstrip::Tab {
        joined: true,
        name: String::from("Development"),
        kind: tabstrip::TabType::Channel(String::from("Development")),
        open: true,
    };
    match channel.send_message("hi").unwrap() {
        ClientMessage::MSG { channel, message } => {
            assert_eq!(channel, "Development");
            assert_eq!(message, "hi");
        }
        _ => panic!("expected a channel message"),
    }

    let private = tabstrip::Tab {
        joined: true,
        name: String::from("Bob"),
        kind: tabstrip::TabType::Private(String::from("Bob")),
        open: true,
    };
    match private.send_message("psst").unwrap() {
        ClientMessage::PRI { recipient, message } => {
            assert_eq!(recipient, "Bob");
            assert_eq!(message, "psst");
        }
        _ => panic!("expected a private message"),
    }
}

#[test]
fn tab_strip_cursor_falls_back_to_status() {
    let mut strip = tabstrip::Tabs::new();
    strip.current_tab = 5;
    let current = strip.get_current();
    assert!(matches!(current.kind, tabstrip::TabType::Status));
    assert_eq!(strip.current_tab, 0);
    assert!(strip.get(3).is_none());
}

#[test]
fn default_settings_buffer_size() {
    let s: Settings = Default::default();
    assert_eq!(s.buffer_size, 400);
}
