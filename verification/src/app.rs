use crate::bridge::{ChatController, IoRequest};
use crate::composer::{composer_event_rel, popped, TextAreaState};
use crate::composer::{pop_char, push_char};
use crate::keys::{InputEvent, KeyCode, KeyEvent, KeyEventKind, KeyModifiers};
use crate::message::ServerMessage;
use crate::scrollback::{after_insert, DroppingBuf};
use crate::ticket::{same_ticket, Ticket};
use vstd::prelude::*;
use vstd::string::StringExecFns;

verus! {

/// Why a ticket request failed.
#[derive(Debug)]
pub struct TicketError {
    pub reason: String,
}

/// Everything the engine can receive on its one ordered event channel.
pub enum AppEvent {
    Crossterm(Result<InputEvent, String>),
    Debug(String),
    Ticket(Result<Ticket, TicketError>),
    Connected,
    Chat(ServerMessage),
    Error(AppError),
}

/// A reported, recoverable failure.
#[derive(Debug)]
pub enum AppError {
    Connection(String),
}

/// An engine-contract violation: it indicates a bug in an event producer,
/// not a runtime condition, and ends the session cleanly.
#[derive(Debug, PartialEq, Eq, Structural, Clone, Copy)]
pub enum FatalError {
    ConnectedOnLogin,
    TerminalInput,
}

/// One editable line of the login form.
pub struct TextField {
    pub text: String,
    pub focused: bool,
}

/// How one key event changes a login field: printable characters append,
/// Backspace removes the last character, everything else leaves the text
/// alone. Only key presses without control or alt edit the field.
pub open spec fn field_key_rel(pre: TextField, k: KeyEvent, post: TextField) -> bool {
    &&& post.focused == pre.focused
    &&& if k.kind == KeyEventKind::Press {
        match k.code {
            KeyCode::Char(c) => {
                if k.modifiers.is_none() || k.modifiers.is_shift_only() {
                    post.text@ == pre.text@.push(c)
                } else {
                    post.text@ == pre.text@
                }
            },
            KeyCode::Backspace => {
                if k.modifiers.is_none() {
                    post.text@ == popped(pre.text@)
                } else {
                    post.text@ == pre.text@
                }
            },
            _ => post.text@ == pre.text@,
        }
    } else {
        post.text@ == pre.text@
    }
}

impl TextField {
    pub fn new(focused: bool) -> (r: TextField)
        ensures
            r.text@ == Seq::<char>::empty(),
            r.focused == focused,
    {
        TextField { text: String::new(), focused }
    }

    /// Let one key event edit the field.
    pub fn handle_key_event(&mut self, event: KeyEvent)
        ensures
            field_key_rel(*old(self), event, *final(self)),
    {
        if matches!(event.kind, KeyEventKind::Press) {
            match event.code {
                KeyCode::Char(c) => {
                    if event.modifiers == KeyModifiers::none() || event.modifiers
                        == KeyModifiers::shift() {
                        push_char(&mut self.text, c);
                    }
                },
                KeyCode::Backspace => {
                    if event.modifiers == KeyModifiers::none() {
                        pop_char(&mut self.text);
                    }
                },
                _ => {},
            }
        }
    }

    /// Append pasted text.
    pub fn paste(&mut self, data: &str)
        ensures
            final(self).text@ == old(self).text@ + data@,
            final(self).focused == old(self).focused,
    {
        self.text.append(data);
    }

    pub fn focus(&mut self)
        ensures
            final(self).text == old(self).text,
            final(self).focused,
    {
        self.focused = true;
    }

    pub fn blur(&mut self)
        ensures
            final(self).text == old(self).text,
            !final(self).focused,
    {
        self.focused = false;
    }
}

/// The three mutually exclusive UI phases, each carrying only the data valid
/// in that phase.
pub enum AppScreen {
    Login { focus: u8, username: TextField, password: TextField },
    Characters { ticket: Ticket, selected: Option<usize> },
    Chat { ticket: Ticket, text_state: TextAreaState },
}

/// Where the selection cursor moves on a list of `len` characters: one step
/// forward, clamped at the last entry; with nothing selected yet the first
/// entry is selected. An empty list never has a selection.
pub open spec fn sel_next(sel: Option<usize>, len: nat) -> Option<usize> {
    if len == 0 {
        None
    } else {
        match sel {
            None => Some(0usize),
            Some(i) => if i + 1 < len {
                Some((i + 1) as usize)
            } else {
                Some((len - 1) as usize)
            },
        }
    }
}

/// One step backward, clamped at the first entry; with nothing selected yet
/// the last entry is selected. An empty list never has a selection.
pub open spec fn sel_prev(sel: Option<usize>, len: nat) -> Option<usize> {
    if len == 0 {
        None
    } else {
        match sel {
            None => Some((len - 1) as usize),
            Some(i) => if i == 0 {
                Some(0usize)
            } else if i < len {
                Some((i - 1) as usize)
            } else {
                Some((len - 1) as usize)
            },
        }
    }
}

/// The engine: single owner of the screen state, fed one event at a time.
pub struct App {
    pub state: AppScreen,
    pub needs_redraw: bool,
    pub should_quit: bool,
    pub chat_controller: ChatController,
    pub debug_data: DroppingBuf<String>,
    pub has_sender: bool,
    pub last_event: Option<InputEvent>,
}

/// The label under which an event is recorded in the debug trace.
pub open spec fn label_spec(event: AppEvent) -> Seq<char> {
    match event {
        AppEvent::Crossterm(r) => if r is Ok {
            "event: input"@
        } else {
            "event: input error"@
        },
        AppEvent::Debug(_) => "event: debug"@,
        AppEvent::Ticket(r) => if r is Ok {
            "event: ticket"@
        } else {
            "event: ticket error"@
        },
        AppEvent::Connected => "event: connected"@,
        AppEvent::Chat(_) => "event: chat message"@,
        AppEvent::Error(_) => "event: connection error"@,
    }
}

impl AppEvent {
    /// The label under which the event is recorded in the debug trace.
    pub fn label(&self) -> (r: String)
        ensures
            r@ == label_spec(*self),
    {
        match self {
            AppEvent::Crossterm(res) => match res {
                Ok(_) => String::from_str("event: input"),
                Err(_) => String::from_str("event: input error"),
            },
            AppEvent::Debug(_) => String::from_str("event: debug"),
            AppEvent::Ticket(res) => match res {
                Ok(_) => String::from_str("event: ticket"),
                Err(_) => String::from_str("event: ticket error"),
            },
            AppEvent::Connected => String::from_str("event: connected"),
            AppEvent::Chat(_) => String::from_str("event: chat message"),
            AppEvent::Error(_) => String::from_str("event: connection error"),
        }
    }
}

/// The debug trace gained exactly one entry, whose text is `label`.
pub open spec fn logged_one(pre: Seq<String>, post: Seq<String>, label: Seq<char>) -> bool {
    &&& post.len() >= 1
    &&& post == after_insert(pre, post[0], 16)
    &&& post[0]@ == label
}

/// The debug trace gained two entries: first one whose text is `label`, then
/// the entry `second` itself.
pub open spec fn logged_two(pre: Seq<String>, post: Seq<String>, label: Seq<char>, second: String) -> bool {
    &&& post.len() >= 2
    &&& post == after_insert(after_insert(pre, post[1], 16), second, 16)
    &&& post[1]@ == label
}

/// The engine core — screen, request queue, quit flag — is untouched.
pub open spec fn core_unchanged(pre: App, post: App) -> bool {
    &&& post.state == pre.state
    &&& post.chat_controller == pre.chat_controller
    &&& post.should_quit == pre.should_quit
}

/// A fresh ticket lands in whichever phase is active: on the login screen it
/// opens character selection with nothing selected; later it replaces the
/// ticket in place, leaving the selection or composer untouched.
pub open spec fn ticket_applied(pre: AppScreen, t: Ticket, post: AppScreen) -> bool {
    match pre {
        AppScreen::Login { .. } => post matches AppScreen::Characters { ticket, selected }
            && ticket == t && selected is None,
        AppScreen::Characters { selected, .. } => post matches AppScreen::Characters {
            ticket: t2,
            selected: s2,
        } && t2 == t && s2 == selected,
        AppScreen::Chat { text_state, .. } => post matches AppScreen::Chat {
            ticket: t2,
            text_state: ts2,
        } && t2 == t && ts2 == text_state,
    }
}

/// Global bindings, in the order they are tried.
pub open spec fn is_quit_key(k: KeyEvent) -> bool {
    k.code == KeyCode::Char('q') && k.modifiers.is_control_only()
}

pub open spec fn is_focus_prev_key(k: KeyEvent) -> bool {
    k.code == KeyCode::BackTab
}

pub open spec fn is_focus_next_key(k: KeyEvent) -> bool {
    k.code == KeyCode::Tab && k.modifiers.is_none()
}

pub open spec fn is_enter_key(k: KeyEvent) -> bool {
    k.code == KeyCode::Enter && k.modifiers.is_none()
}

/// Focus moves one step (`forward` names the direction): on the login screen
/// the two fields trade focus; on character selection the cursor moves; in
/// chat nothing happens.
pub open spec fn focus_moved(pre: AppScreen, post: AppScreen, forward: bool) -> bool {
    match pre {
        AppScreen::Login { focus, username, password } => {
            &&& post matches AppScreen::Login { focus: f2, username: u2, password: p2 }
                && f2 == ((focus + 1) % 2) as u8 && u2.text == username.text && p2.text
                == password.text && u2.focused == (f2 == 0) && p2.focused == (f2 == 1)
        },
        AppScreen::Characters { ticket, selected } => {
            &&& post matches AppScreen::Characters { ticket: t2, selected: s2 } && t2 == ticket
                && s2 == (if forward {
                sel_next(selected, ticket.characters@.len())
            } else {
                sel_prev(selected, ticket.characters@.len())
            })
        },
        AppScreen::Chat { .. } => post == pre,
    }
}

/// What Enter does: on the login screen it queues exactly one ticket request
/// carrying the two field values; on character selection with a valid
/// selection it queues exactly one connect carrying the selected character
/// and a copy of the ticket (no selection: a silent no-op); in chat it goes
/// to the composer, which appends a newline on a key press.
pub open spec fn enter_applied(pre: App, k: KeyEvent, post: App) -> bool {
    &&& post.should_quit == pre.should_quit
    &&& match pre.state {
        AppScreen::Login { username, password, .. } => {
            &&& post.state == pre.state
            &&& post.chat_controller.requests@ == pre.chat_controller.requests@.push(
                IoRequest::GetTicket { username: username.text, password: password.text },
            )
        },
        AppScreen::Characters { ticket, selected } => {
            &&& post.state == pre.state
            &&& match selected {
                Some(i) => {
                    if i < ticket.characters@.len() {
                        &&& post.chat_controller.requests@.len() == pre.chat_controller.requests@.len() + 1
                        &&& post.chat_controller.requests@.take(
                            pre.chat_controller.requests@.len() as int,
                        ) == pre.chat_controller.requests@
                        &&& post.chat_controller.requests@.last() matches IoRequest::Connect {
                            ticket: t2,
                            character: c2,
                        } && same_ticket(t2, ticket) && c2 == ticket.characters@[i as int]
                    } else {
                        post.chat_controller == pre.chat_controller
                    }
                },
                None => post.chat_controller == pre.chat_controller,
            }
        },
        AppScreen::Chat { ticket, text_state } => {
            &&& post.chat_controller == pre.chat_controller
            &&& post.state matches AppScreen::Chat { ticket: t2, text_state: ts2 } && t2 == ticket
                && composer_event_rel(text_state, InputEvent::Key(k), ts2)
        },
    }
}

/// What an unbound key does in each phase: the login screen routes it to the
/// focused field, character selection moves the cursor on plain arrow keys,
/// and chat forwards it verbatim to the composer.
pub open spec fn unbound_key_applied(pre: App, k: KeyEvent, post: App) -> bool {
    &&& post.should_quit == pre.should_quit
    &&& match pre.state {
        AppScreen::Login { focus, username, password } => {
            &&& post.chat_controller == pre.chat_controller
            &&& post.state matches AppScreen::Login { focus: f2, username: u2, password: p2 }
                && f2 == focus && (if focus == 0 {
                field_key_rel(username, k, u2) && p2 == password
            } else {
                u2 == username && field_key_rel(password, k, p2)
            })
        },
        AppScreen::Characters { ticket, selected } => {
            &&& post.chat_controller == pre.chat_controller
            &&& post.state matches AppScreen::Characters { ticket: t2, selected: s2 } && t2
                == ticket && s2 == (if k.modifiers.is_none() && (k.code == KeyCode::Up || k.code
                == KeyCode::Left) {
                sel_prev(selected, ticket.characters@.len())
            } else if k.modifiers.is_none() && (k.code == KeyCode::Down || k.code
                == KeyCode::Right) {
                sel_next(selected, ticket.characters@.len())
            } else {
                selected
            })
        },
        AppScreen::Chat { ticket, text_state } => {
            &&& post.chat_controller == pre.chat_controller
            &&& post.state matches AppScreen::Chat { ticket: t2, text_state: ts2 } && t2 == ticket
                && composer_event_rel(text_state, InputEvent::Key(k), ts2)
        },
    }
}

/// How one key event moves the engine: global bindings first (quit,
/// focus-previous, focus-next, enter), then the active phase's own handler.
pub open spec fn key_applied(pre: App, k: KeyEvent, post: App) -> bool {
    if is_quit_key(k) {
        &&& post.state == pre.state
        &&& post.chat_controller == pre.chat_controller
        &&& post.should_quit
    } else if is_focus_prev_key(k) {
        &&& post.chat_controller == pre.chat_controller
        &&& post.should_quit == pre.should_quit
        &&& focus_moved(pre.state, post.state, false)
    } else if is_focus_next_key(k) {
        &&& post.chat_controller == pre.chat_controller
        &&& post.should_quit == pre.should_quit
        &&& focus_moved(pre.state, post.state, true)
    } else if is_enter_key(k) {
        enter_applied(pre, k, post)
    } else {
        unbound_key_applied(pre, k, post)
    }
}

/// What a paste does in each phase: the login screen appends to the focused
/// field, character selection ignores it, chat appends to the composer.
pub open spec fn paste_applied(pre: App, data: Seq<char>, post: App) -> bool {
    &&& post.should_quit == pre.should_quit
    &&& post.chat_controller == pre.chat_controller
    &&& match pre.state {
        AppScreen::Login { focus, username, password } => {
            &&& post.state matches AppScreen::Login { focus: f2, username: u2, password: p2 }
                && f2 == focus && (if focus == 0 {
                u2.text@ == username.text@ + data && u2.focused == username.focused && p2
                    == password
            } else {
                u2 == username && p2.text@ == password.text@ + data && p2.focused
                    == password.focused
            })
        },
        AppScreen::Characters { .. } => post.state == pre.state,
        AppScreen::Chat { ticket, text_state } => {
            post.state matches AppScreen::Chat { ticket: t2, text_state: ts2 } && t2 == ticket
                && ts2.text@ == text_state.text@ + data
        },
    }
}

/// The full contract of one `apply` step, for every event and every phase.
pub open spec fn event_applied(pre: App, event: AppEvent, post: App, r: Result<
    (),
    FatalError,
>) -> bool {
    match event {
        AppEvent::Crossterm(res) => match res {
            Ok(ev) => {
                &&& logged_one(pre.debug_data@, post.debug_data@, label_spec(event))
                &&& post.last_event == Some(ev)
                &&& post.has_sender == pre.has_sender
                &&& r is Ok
                &&& match ev {
                    InputEvent::Key(k) => key_applied(pre, k, post),
                    InputEvent::Paste(d) => paste_applied(pre, d@, post),
                    _ => {
                        &&& post.state == pre.state
                        &&& post.chat_controller == pre.chat_controller
                        &&& post.should_quit == pre.should_quit
                    },
                }
            },
            Err(_) => {
                &&& logged_one(pre.debug_data@, post.debug_data@, label_spec(event))
                &&& post.last_event == pre.last_event
                &&& post.has_sender == pre.has_sender
                &&& core_unchanged(pre, post)
                &&& r == Err::<(), FatalError>(FatalError::TerminalInput)
            },
        },
        AppEvent::Debug(msg) => {
            &&& logged_two(pre.debug_data@, post.debug_data@, label_spec(event), msg)
            &&& post.last_event == pre.last_event
            &&& post.has_sender == pre.has_sender
            &&& core_unchanged(pre, post)
            &&& r is Ok
        },
        AppEvent::Ticket(res) => {
            &&& logged_one(pre.debug_data@, post.debug_data@, label_spec(event))
            &&& post.last_event == pre.last_event
            &&& post.has_sender == pre.has_sender
            &&& post.chat_controller == pre.chat_controller
            &&& post.should_quit == pre.should_quit
            &&& r is Ok
            &&& match res {
                Ok(t) => ticket_applied(pre.state, t, post.state),
                Err(_) => post.state == pre.state,
            }
        },
        AppEvent::Connected => {
            &&& logged_one(pre.debug_data@, post.debug_data@, label_spec(event))
            &&& post.last_event == pre.last_event
            &&& post.chat_controller == pre.chat_controller
            &&& post.should_quit == pre.should_quit
            &&& match pre.state {
                AppScreen::Login { .. } => {
                    &&& post.state == pre.state
                    &&& post.has_sender == pre.has_sender
                    &&& r == Err::<(), FatalError>(FatalError::ConnectedOnLogin)
                },
                AppScreen::Characters { ticket, .. } => {
                    &&& post.state matches AppScreen::Chat { ticket: t2, text_state: ts2 }
                        && same_ticket(t2, ticket) && ts2.text@ == Seq::<char>::empty()
                    &&& post.has_sender
                    &&& r is Ok
                },
                AppScreen::Chat { .. } => {
                    &&& post.state == pre.state
                    &&& post.has_sender == pre.has_sender
                    &&& r is Ok
                },
            }
        },
        AppEvent::Chat(_) => {
            &&& logged_one(pre.debug_data@, post.debug_data@, label_spec(event))
            &&& post.last_event == pre.last_event
            &&& post.has_sender == pre.has_sender
            &&& core_unchanged(pre, post)
            &&& r is Ok
        },
        AppEvent::Error(e) => {
            &&& e matches AppError::Connection(reason) && logged_two(
                pre.debug_data@,
                post.debug_data@,
                label_spec(event),
                reason,
            )
            &&& post.last_event == pre.last_event
            &&& post.has_sender == pre.has_sender
            &&& core_unchanged(pre, post)
            &&& r is Ok
        },
    }
}

impl App {
    pub open spec fn wf(&self) -> bool {
        &&& self.debug_data.wf()
        &&& self.debug_data.capacity() == 16
    }

    /// A fresh engine: on the login screen with the username field focused,
    /// one redraw already owed, nothing quit, nothing traced.
    pub fn new(chat_controller: ChatController) -> (r: App)
        ensures
            r.wf(),
            r.state matches AppScreen::Login { focus, username, password } && focus == 0
                && username.text@ == Seq::<char>::empty() && username.focused && password.text@
                == Seq::<char>::empty() && !password.focused,
            r.needs_redraw,
            !r.should_quit,
            r.chat_controller == chat_controller,
            r.debug_data@ == Seq::<String>::empty(),
            !r.has_sender,
            r.last_event is None,
    {
        App {
            state: AppScreen::Login {
                focus: 0,
                username: TextField::new(true),
                password: TextField::new(false),
            },
            needs_redraw: true,
            should_quit: false,
            chat_controller,
            debug_data: DroppingBuf::with_capacity(16),
            has_sender: false,
            last_event: None,
        }
    }

    /// Apply one event. Every call leaves the one pending-redraw flag set;
    /// the rest of the engine moves exactly as `event_applied` says.
    pub fn event(&mut self, event: AppEvent) -> (r: Result<(), FatalError>)
        requires
            old(self).wf(),
        ensures
            final(self).wf(),
            final(self).needs_redraw,
            event_applied(*old(self), event, *final(self), r),
    {
        self.needs_redraw = true;
        let label = event.label();
        self.debug_data.insert(label);
        match event {
            AppEvent::Crossterm(res) => {
                match res {
                    Ok(ev) => {
                        self.last_event = Some(ev.duplicate());
                        match ev {
                            InputEvent::Key(k) => self.key(k),
                            InputEvent::Paste(data) => self.paste(data),
                            _ => {},
                        }
                        Ok(())
                    },
                    Err(_) => Err(FatalError::TerminalInput),
                }
            },
            AppEvent::Debug(msg) => {
                self.debug_data.insert(msg);
                Ok(())
            },
            AppEvent::Chat(_) => Ok(()),
            AppEvent::Ticket(res) => {
                let ticket = match res {
                    Ok(ticket) => ticket,
                    Err(_) => {
                        return Ok(());
                    },
                };
                match &mut self.state {
                    AppScreen::Login { .. } => {
                        self.state = AppScreen::Characters { ticket, selected: None };
                    },
                    AppScreen::Characters { ticket: character_ticket, .. } => {
                        *character_ticket = ticket;
                    },
                    AppScreen::Chat { ticket: chat_ticket, .. } => {
                        *chat_ticket = ticket;
                    },
                }
                Ok(())
            },
            AppEvent::Connected => {
                match &self.state {
                    AppScreen::Login { .. } => Err(FatalError::ConnectedOnLogin),
                    AppScreen::Characters { ticket, .. } => {
                        let kept = ticket.duplicate();
                        self.state = AppScreen::Chat {
                            ticket: kept,
                            text_state: TextAreaState::new(),
                        };
                        self.has_sender = true;
                        Ok(())
                    },
                    AppScreen::Chat { .. } => Ok(()),
                }
            },
            AppEvent::Error(e) => {
                match e {
                    AppError::Connection(reason) => {
                        self.debug_data.insert(reason);
                    },
                }
                Ok(())
            },
        }
    }

    /// Route one key event: global bindings first, then the active phase.
    pub fn key(&mut self, event: KeyEvent)
        ensures
            key_applied(*old(self), event, *final(self)),
            final(self).needs_redraw == old(self).needs_redraw,
            final(self).debug_data == old(self).debug_data,
            final(self).has_sender == old(self).has_sender,
            final(self).last_event == old(self).last_event,
    {
        if matches!(event.code, KeyCode::Char('q')) && event.modifiers == KeyModifiers::control() {
            self.should_quit = true;
        } else if matches!(event.code, KeyCode::BackTab) {
            self.focus_prev();
        } else if matches!(event.code, KeyCode::Tab) && event.modifiers == KeyModifiers::none() {
            self.focus_next();
        } else if matches!(event.code, KeyCode::Enter) && event.modifiers == KeyModifiers::none() {
            match &mut self.state {
                AppScreen::Login { username, password, .. } => {
                    let username = username.text.clone();
                    let password = password.text.clone();
                    self.chat_controller.get_ticket(username, password);
                },
                AppScreen::Characters { ticket, selected } => {
                    let index = match selected {
                        Some(i) => *i,
                        None => {
                            return;
                        },
                    };
                    if index < ticket.characters.len() {
                        let character = ticket.characters[index].clone();
                        let ticket = ticket.duplicate();
                        self.chat_controller.connect(ticket, character);
                        proof {
                            assert(self.chat_controller.requests@.take(
                                old(self).chat_controller.requests@.len() as int,
                            ) =~= old(self).chat_controller.requests@);
                        }
                    }
                },
                AppScreen::Chat { text_state, .. } => {
                    text_state.event(&InputEvent::Key(event));
                },
            }
        } else {
            match &mut self.state {
                AppScreen::Login { focus, username, password } => {
                    if *focus == 0 {
                        username.handle_key_event(event);
                    } else {
                        password.handle_key_event(event);
                    }
                },
                AppScreen::Characters { ticket, selected } => {
                    if event.modifiers == KeyModifiers::none() && (matches!(
                        event.code,
                        KeyCode::Up,
                    ) || matches!(event.code, KeyCode::Left)) {
                        *selected = select_previous(*selected, ticket.characters.len());
                    } else if event.modifiers == KeyModifiers::none() && (matches!(
                        event.code,
                        KeyCode::Down,
                    ) || matches!(event.code, KeyCode::Right)) {
                        *selected = select_next(*selected, ticket.characters.len());
                    }
                },
                AppScreen::Chat { text_state, .. } => {
                    text_state.event(&InputEvent::Key(event));
                },
            }
        }
    }

    /// Append pasted text to whatever the active phase edits.
    pub fn paste(&mut self, data: String)
        ensures
            paste_applied(*old(self), data@, *final(self)),
            final(self).needs_redraw == old(self).needs_redraw,
            final(self).debug_data == old(self).debug_data,
            final(self).has_sender == old(self).has_sender,
            final(self).last_event == old(self).last_event,
    {
        match &mut self.state {
            AppScreen::Login { focus, username, password } => {
                if *focus == 0 {
                    username.paste(data.as_str());
                } else {
                    password.paste(data.as_str());
                }
            },
            AppScreen::Characters { .. } => {},
            AppScreen::Chat { text_state, .. } => {
                text_state.paste(data.as_str());
            },
        }
    }

    fn focus_prev(&mut self)
        ensures
            focus_moved(old(self).state, final(self).state, false),
            final(self).chat_controller == old(self).chat_controller,
            final(self).should_quit == old(self).should_quit,
            final(self).needs_redraw == old(self).needs_redraw,
            final(self).debug_data == old(self).debug_data,
            final(self).has_sender == old(self).has_sender,
            final(self).last_event == old(self).last_event,
    {
        match &mut self.state {
            AppScreen::Login { focus, .. } => {
                *focus = ((*focus as u16 + 1) % 2) as u8;
            },
            AppScreen::Characters { ticket, selected } => {
                *selected = select_previous(*selected, ticket.characters.len());
            },
            AppScreen::Chat { .. } => {},
        }
        self.update_focused();
    }

    fn focus_next(&mut self)
        ensures
            focus_moved(old(self).state, final(self).state, true),
            final(self).chat_controller == old(self).chat_controller,
            final(self).should_quit == old(self).should_quit,
            final(self).needs_redraw == old(self).needs_redraw,
            final(self).debug_data == old(self).debug_data,
            final(self).has_sender == old(self).has_sender,
            final(self).last_event == old(self).last_event,
    {
        match &mut self.state {
            AppScreen::Login { focus, .. } => {
                *focus = ((*focus as u16 + 1) % 2) as u8;
            },
            AppScreen::Characters { ticket, selected } => {
                *selected = select_next(*selected, ticket.characters.len());
            },
            AppScreen::Chat { .. } => {},
        }
        self.update_focused();
    }

    /// Give the focused login field the focus flag and take it from the other.
    fn update_focused(&mut self)
        ensures
            match old(self).state {
                AppScreen::Login { focus, username, password } => final(self).state matches
                    AppScreen::Login { focus: f2, username: u2, password: p2 } && f2 == focus
                    && u2.text == username.text && p2.text == password.text && u2.focused == (focus
                    == 0) && p2.focused == (focus != 0),
                _ => final(self).state == old(self).state,
            },
            final(self).chat_controller == old(self).chat_controller,
            final(self).should_quit == old(self).should_quit,
            final(self).needs_redraw == old(self).needs_redraw,
            final(self).debug_data == old(self).debug_data,
            final(self).has_sender == old(self).has_sender,
            final(self).last_event == old(self).last_event,
    {
        match &mut self.state {
            AppScreen::Login { focus, username, password } => {
                if *focus == 0 {
                    username.focus();
                    password.blur();
                } else {
                    username.blur();
                    password.focus();
                }
            },
            AppScreen::Characters { .. } => {},
            AppScreen::Chat { .. } => {},
        }
    }

    /// Hand out whether a redraw is owed, clearing the flag: events arriving
    /// back to back coalesce into the one draw this returns true for.
    pub fn take_redraw(&mut self) -> (r: bool)
        ensures
            r == old(self).needs_redraw,
            !final(self).needs_redraw,
            final(self).state == old(self).state,
            final(self).chat_controller == old(self).chat_controller,
            final(self).should_quit == old(self).should_quit,
            final(self).debug_data == old(self).debug_data,
            final(self).has_sender == old(self).has_sender,
            final(self).last_event == old(self).last_event,
    {
        let r = self.needs_redraw;
        self.needs_redraw = false;
        r
    }
}

/// The selection cursor stays clamped to the character list: each move lands
/// inside the list, and an empty list never gains a selection.
pub proof fn lemma_selection_clamped(sel: Option<usize>, len: nat)
    ensures
        sel_next(sel, len) matches Some(i) ==> i < len,
        sel_prev(sel, len) matches Some(i) ==> i < len,
        len == 0 ==> sel_next(sel, len) is None && sel_prev(sel, len) is None,
{
}

/// Once a ticket is obtained the engine never returns to the login screen:
/// no event moves it out of character selection or chat back to login.
pub proof fn lemma_ticket_retained(pre: App, event: AppEvent, post: App, r: Result<
    (),
    FatalError,
>)
    requires
        event_applied(pre, event, post, r),
        !(pre.state is Login),
    ensures
        !(post.state is Login),
{
}

/// Only a fresh ticket or an established connection moves the engine between
/// phases: under every other event the active phase stays what it was.
pub proof fn lemma_phase_stable(pre: App, event: AppEvent, post: App, r: Result<(), FatalError>)
    requires
        event_applied(pre, event, post, r),
        !(event matches AppEvent::Ticket(Ok(_))),
        !(event is Connected),
    ensures
        pre.state is Login <==> post.state is Login,
        pre.state is Characters <==> post.state is Characters,
        pre.state is Chat <==> post.state is Chat,
{
}

/// Move the selection cursor one step back; see `sel_prev`.
fn select_previous(sel: Option<usize>, len: usize) -> (r: Option<usize>)
    ensures
        r == sel_prev(sel, len as nat),
{
    if len == 0 {
        None
    } else {
        match sel {
            None => Some(len - 1),
            Some(i) => if i == 0 {
                Some(0)
            } else if i < len {
                Some(i - 1)
            } else {
                Some(len - 1)
            },
        }
    }
}

/// Move the selection cursor one step forward; see `sel_next`.
fn select_next(sel: Option<usize>, len: usize) -> (r: Option<usize>)
    ensures
        r == sel_next(sel, len as nat),
{
    if len == 0 {
        None
    } else {
        match sel {
            None => Some(0),
            Some(i) => if i < len - 1 {
                Some(i + 1)
            } else {
                Some(len - 1)
            },
        }
    }
}

} // verus!
