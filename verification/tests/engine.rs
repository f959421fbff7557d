use rsfchat::app::{App, AppError, AppEvent, AppScreen, FatalError, TextField, TicketError};
use rsfchat::bridge::{ChatController, IoRequest};
use rsfchat::composer::TextAreaState;
use rsfchat::keys::{InputEvent, KeyCode, KeyEvent, KeyEventKind, KeyModifiers};
use rsfchat::ticket::Ticket;

fn key_event(code: KeyCode) -> AppEvent {
    AppEvent::Crossterm(Ok(InputEvent::Key(KeyEvent::press(code))))
}

fn sample_ticket(characters: &[&str]) -> Ticket {
    Ticket {
        characters: characters.iter().map(|c| c.to_string()).collect(),
        default_character: String::new(),
        ticket: String::from("token"),
    }
}

fn login_app(username: &str, password: &str) -> App {
    let mut app = App::new(ChatController::new());
    app.state = AppScreen::Login {
        focus: 0,
        username: TextField { text: String::from(username), focused: true },
        password: TextField { text: String::from(password), focused: false },
    };
    app
}

#[test]
fn tab_moves_focus_to_password() {
    let mut app = App::new(ChatController::new());
    app.event(key_event(KeyCode::Tab)).unwrap();
    match &app.state {
        AppScreen::Login { focus, username, password } => {
            assert_eq!(*focus, 1);
            assert!(!username.focused);
            assert!(password.focused);
        }
        _ => panic!("left the login screen"),
    }
    assert!(app.needs_redraw);
}

#[test]
fn back_tab_also_toggles_focus() {
    let mut app = App::new(ChatController::new());
    app.event(key_event(KeyCode::BackTab)).unwrap();
    match &app.state {
        AppScreen::Login { focus, .. } => assert_eq!(*focus, 1),
        _ => panic!("left the login screen"),
    }
    app.event(key_event(KeyCode::BackTab)).unwrap();
    match &app.state {
        AppScreen::Login { focus, username, .. } => {
            assert_eq!(*focus, 0);
            assert!(username.focused);
        }
        _ => panic!("left the login screen"),
    }
}

#[test]
fn enter_on_login_requests_ticket_once() {
    let mut app = login_app("alice", "secret");
    app.event(key_event(KeyCode::Enter)).unwrap();
    assert_eq!(app.chat_controller.requests.len(), 1);
    match &app.chat_controller.requests[0] {
        IoRequest::GetTicket { username, password } => {
            assert_eq!(username, "alice");
            assert_eq!(password, "secret");
        }
        _ => panic!("wrong request"),
    }
    assert!(matches!(app.state, AppScreen::Login { .. }));
}

#[test]
fn typing_edits_the_focused_field() {
    let mut app = App::new(ChatController::new());
    app.event(key_event(KeyCode::Char('a'))).unwrap();
    app.event(key_event(KeyCode::Tab)).unwrap();
    app.event(key_event(KeyCode::Char('p'))).unwrap();
    app.event(key_event(KeyCode::Backspace)).unwrap();
    app.event(key_event(KeyCode::Char('q'))).unwrap();
    match &app.state {
        AppScreen::Login { username, password, .. } => {
            assert_eq!(username.text, "a");
            assert_eq!(password.text, "q");
        }
        _ => panic!("left the login screen"),
    }
}

#[test]
fn enter_on_selection_connects_with_selected_character() {
    let mut app = App::new(ChatController::new());
    app.state = AppScreen::Characters {
        ticket: sample_ticket(&["Bob", "Carol"]),
        selected: Some(1),
    };
    app.event(key_event(KeyCode::Enter)).unwrap();
    assert_eq!(app.chat_controller.requests.len(), 1);
    match &app.chat_controller.requests[0] {
        IoRequest::Connect { ticket, character } => {
            assert_eq!(character, "Carol");
            assert_eq!(ticket.characters, vec!["Bob".to_string(), "Carol".to_string()]);
            assert_eq!(ticket.ticket, "token");
        }
        _ => panic!("wrong request"),
    }
}

#[test]
fn enter_without_selection_is_a_noop() {
    let mut app = App::new(ChatController::new());
    app.state = AppScreen::Characters { ticket: sample_ticket(&["Bob"]), selected: None };
    app.event(key_event(KeyCode::Enter)).unwrap();
    assert_eq!(app.chat_controller.requests.len(), 0);
}

#[test]
fn selection_moves_and_clamps() {
    let mut app = App::new(ChatController::new());
    app.state = AppScreen::Characters { ticket: sample_ticket(&["A", "B"]), selected: None };
    app.event(key_event(KeyCode::Down)).unwrap();
    assert!(matches!(app.state, AppScreen::Characters { selected: Some(0), .. }));
    app.event(key_event(KeyCode::Down)).unwrap();
    assert!(matches!(app.state, AppScreen::Characters { selected: Some(1), .. }));
    app.event(key_event(KeyCode::Right)).unwrap();
    assert!(matches!(app.state, AppScreen::Characters { selected: Some(1), .. }));
    app.event(key_event(KeyCode::Up)).unwrap();
    assert!(matches!(app.state, AppScreen::Characters { selected: Some(0), .. }));
    app.event(key_event(KeyCode::Left)).unwrap();
    assert!(matches!(app.state, AppScreen::Characters { selected: Some(0), .. }));
}

#[test]
fn selection_stays_empty_on_empty_list() {
    let mut app = App::new(ChatController::new());
    app.state = AppScreen::Characters { ticket: sample_ticket(&[]), selected: None };
    app.event(key_event(KeyCode::Down)).unwrap();
    assert!(matches!(app.state, AppScreen::Characters { selected: None, .. }));
}

#[test]
fn ticket_moves_login_to_character_selection() {
    let mut app = App::new(ChatController::new());
    app.event(AppEvent::Ticket(Ok(sample_ticket(&["Bob"])))).unwrap();
    match &app.state {
        AppScreen::Characters { ticket, selected } => {
            assert_eq!(ticket.characters, vec!["Bob".to_string()]);
            assert!(selected.is_none());
        }
        _ => panic!("expected character selection"),
    }
}

#[test]
fn ticket_refreshes_in_place() {
    let mut app = App::new(ChatController::new());
    app.state = AppScreen::Characters { ticket: sample_ticket(&["Bob"]), selected: Some(0) };
    let mut fresh = sample_ticket(&["Bob"]);
    fresh.ticket = String::from("fresh");
    app.event(AppEvent::Ticket(Ok(fresh))).unwrap();
    match &app.state {
        AppScreen::Characters { ticket, selected } => {
            assert_eq!(ticket.ticket, "fresh");
            assert_eq!(*selected, Some(0));
        }
        _ => panic!("expected character selection"),
    }
}

#[test]
fn ticket_error_is_swallowed() {
    let mut app = App::new(ChatController::new());
    let r = app.event(AppEvent::Ticket(Err(TicketError { reason: String::from("denied") })));
    assert!(r.is_ok());
    assert!(matches!(app.state, AppScreen::Login { .. }));
}

#[test]
fn connected_moves_selection_to_chat() {
    let mut app = App::new(ChatController::new());
    app.state = AppScreen::Characters { ticket: sample_ticket(&["Bob"]), selected: Some(0) };
    app.event(AppEvent::Connected).unwrap();
    match &app.state {
        AppScreen::Chat { ticket, text_state } => {
            assert_eq!(ticket.ticket, "token");
            assert_eq!(text_state.text, "");
        }
        _ => panic!("expected chat"),
    }
    assert!(app.has_sender);
}

#[test]
fn connected_on_login_is_fatal() {
    let mut app = App::new(ChatController::new());
    let r = app.event(AppEvent::Connected);
    assert_eq!(r, Err(FatalError::ConnectedOnLogin));
    assert!(matches!(app.state, AppScreen::Login { .. }));
}

#[test]
fn connected_in_chat_is_a_noop() {
    let mut app = App::new(ChatController::new());
    app.state = AppScreen::Chat {
        ticket: sample_ticket(&["Bob"]),
        text_state: TextAreaState::new(),
    };
    app.has_sender = false;
    let r = app.event(AppEvent::Connected);
    assert!(r.is_ok());
    assert!(matches!(app.state, AppScreen::Chat { .. }));
    assert!(!app.has_sender);
}

#[test]
fn connection_error_in_chat_records_a_diagnostic() {
    let mut app = App::new(ChatController::new());
    app.state = AppScreen::Chat {
        ticket: sample_ticket(&["Bob"]),
        text_state: TextAreaState::new(),
    };
    let r = app.event(AppEvent::Error(AppError::Connection(String::from("peer gone"))));
    assert!(r.is_ok());
    assert!(matches!(app.state, AppScreen::Chat { .. }));
    assert_eq!(app.debug_data.get(0).as_str(), "peer gone");
}

#[test]
fn input_error_is_fatal_but_clean() {
    let mut app = App::new(ChatController::new());
    let r = app.event(AppEvent::Crossterm(Err(String::from("stdin closed"))));
    assert_eq!(r, Err(FatalError::TerminalInput));
}

#[test]
fn diagnostic_sets_redraw_and_is_recorded() {
    let mut app = App::new(ChatController::new());
    assert!(app.take_redraw());
    assert!(!app.needs_redraw);
    app.event(AppEvent::Debug(String::from("probe"))).unwrap();
    assert!(app.needs_redraw);
    assert_eq!(app.debug_data.get(0).as_str(), "probe");
}

#[test]
fn batched_events_coalesce_into_one_draw() {
    let mut app = App::new(ChatController::new());
    assert!(app.take_redraw());
    for i in 0..5 {
        app.event(AppEvent::Debug(format!("event {}", i))).unwrap();
    }
    let mut draws = 0;
    if app.take_redraw() {
        draws += 1;
    }
    if app.take_redraw() {
        draws += 1;
    }
    assert_eq!(draws, 1);
}

#[test]
fn debug_trace_is_bounded_to_sixteen() {
    let mut app = App::new(ChatController::new());
    for i in 0..40 {
        app.event(AppEvent::Debug(format!("{}", i))).unwrap();
    }
    assert_eq!(app.debug_data.len(), 16);
    assert_eq!(app.debug_data.get(0).as_str(), "39");
}

#[test]
fn control_q_quits() {
    let mut app = App::new(ChatController::new());
    app.event(AppEvent::Crossterm(Ok(InputEvent::Key(KeyEvent {
        code: KeyCode::Char('q'),
        modifiers: KeyModifiers { shift: false, control: true, alt: false },
        kind: KeyEventKind::Press,
    }))))
    .unwrap();
    assert!(app.should_quit);
}

#[test]
fn paste_goes_to_the_focused_field() {
    let mut app = login_app("", "");
    app.event(AppEvent::Crossterm(Ok(InputEvent::Paste(String::from("user"))))).unwrap();
    match &app.state {
        AppScreen::Login { username, .. } => assert_eq!(username.text, "user"),
        _ => panic!("left the login screen"),
    }
}

#[test]
fn paste_goes_to_the_composer_in_chat() {
    let mut app = App::new(ChatController::new());
    app.state = AppScreen::Chat {
        ticket: sample_ticket(&[]),
        text_state: TextAreaState::new(),
    };
    app.event(AppEvent::Crossterm(Ok(InputEvent::Paste(String::from("hi"))))).unwrap();
    match &app.state {
        AppScreen::Chat { text_state, .. } => assert_eq!(text_state.text, "hi"),
        _ => panic!("left chat"),
    }
}

#[test]
fn last_event_is_recorded() {
    let mut app = App::new(ChatController::new());
    app.event(key_event(KeyCode::Char('z'))).unwrap();
    match &app.last_event {
        Some(InputEvent::Key(k)) => assert!(matches!(k.code, KeyCode::Char('z'))),
        _ => panic!("last event not recorded"),
    }
}
