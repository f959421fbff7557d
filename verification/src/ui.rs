use crate::message::{ClientMessage, ServerMessage};
use crate::ticket::Ticket;
use vstd::prelude::*;
use vstd::string::StringExecFns;

verus! {

/// What the interface reports to the controller.
pub enum Event {
    ReceivedMessage(ServerMessage),
    TextInput(String),
}

/// Which chat server to connect to.
pub enum Server {
    Normal,
    Debug,
}

/// The controller's phases, from first paint to quit.
pub enum State {
    Start,
    Login,
    Connecting,
    Connected,
    Disconnected,
    Quit,
}

/// What the driver obtained for the controller this round: nothing, the
/// login form's result, an interface event, or a closed channel.
pub enum StepInput {
    Nothing,
    LoginData { ticket: Ticket, character: String },
    Ui(Event),
    ChannelClosed,
}

/// One side effect the driver must perform for the controller.
pub enum StepAction {
    ShowLoginDialog,
    Connect { ticket: Ticket, character: String, server: Server },
    SendMessage(ClientMessage),
    ShowDebugView,
    ShowDebugMessage(String),
}

/// Whether the loop goes on after a step.
pub enum StepStatus {
    Running,
    Stopped,
    Fatal(&'static str),
}

/// A step's outcome: the actions to perform, in order, and whether to go on.
pub struct StepResult {
    pub actions: Vec<StepAction>,
    pub status: StepStatus,
}

/// The session controller of the dialog-based interface: a state machine
/// stepped by the driver loop, which performs its actions and hands back
/// what they produced.
pub struct Controller {
    pub state: State,
}

/// What one step does, for every state and input.
///
/// From `Start` the login dialog is shown. `Login` waits for the form's
/// result and then connects to the normal server with it. `Connecting` joins
/// the development channel and opens the debug view. `Connected` echoes every
/// received message into the debug view and sends typed text into the
/// channel, echoing it too. A closed channel and the `Disconnected` state are
/// contract violations and end the session; `Quit` stops the loop. An input
/// the state does not poll for is ignored.
pub open spec fn step_rel(pre: State, input: StepInput, post: State, r: StepResult) -> bool {
    match pre {
        State::Start => {
            &&& post is Login
            &&& r.status is Running
            &&& r.actions@.len() == 1
            &&& r.actions@[0] is ShowLoginDialog
        },
        State::Login => match input {
            StepInput::LoginData { ticket, character } => {
                &&& post is Connecting
                &&& r.status is Running
                &&& r.actions@.len() == 1
                &&& r.actions@[0] matches StepAction::Connect {
                    ticket: t,
                    character: c,
                    server,
                } && t == ticket && c == character && server is Normal
            },
            StepInput::ChannelClosed => {
                &&& post == pre
                &&& r.status matches StepStatus::Fatal(m) && m@ == "ui login_rx disconnected"@
                &&& r.actions@.len() == 0
            },
            _ => {
                &&& post == pre
                &&& r.status is Running
                &&& r.actions@.len() == 0
            },
        },
        State::Connecting => {
            &&& post is Connected
            &&& r.status is Running
            &&& r.actions@.len() == 2
            &&& r.actions@[0] matches StepAction::SendMessage(m) && m matches ClientMessage::JCH {
                channel,
            } && channel@ == "Development"@
            &&& r.actions@[1] is ShowDebugView
        },
        State::Connected => match input {
            StepInput::Ui(Event::ReceivedMessage(m)) => {
                &&& post == pre
                &&& r.status is Running
                &&& r.actions@.len() == 1
                &&& m matches ServerMessage::Other { contents, .. } && (r.actions@[0] matches
                    StepAction::ShowDebugMessage(text) && text == contents)
            },
            StepInput::Ui(Event::TextInput(text)) => {
                &&& post == pre
                &&& r.status is Running
                &&& r.actions@.len() == 2
                &&& r.actions@[0] matches StepAction::SendMessage(m) && m
                    matches ClientMessage::MSG { channel, message } && channel@ == "Development"@
                    && message == text
                &&& r.actions@[1] matches StepAction::ShowDebugMessage(t2) && t2 == text
            },
            StepInput::ChannelClosed => {
                &&& post == pre
                &&& r.status matches StepStatus::Fatal(m) && m@ == "ui event_rx disconnected"@
                &&& r.actions@.len() == 0
            },
            _ => {
                &&& post == pre
                &&& r.status is Running
                &&& r.actions@.len() == 0
            },
        },
        State::Disconnected => {
            &&& post == pre
            &&& r.status matches StepStatus::Fatal(m) && m@ == "State::Disconnected"@
            &&& r.actions@.len() == 0
        },
        State::Quit => {
            &&& post == pre
            &&& r.status is Stopped
            &&& r.actions@.len() == 0
        },
    }
}

impl Controller {
    pub fn new() -> (r: Controller)
        ensures
            r.state is Start,
    {
        Controller { state: State::Start }
    }

    /// Advance the state machine one step; see `step_rel`.
    pub fn step(&mut self, input: StepInput) -> (r: StepResult)
        ensures
            step_rel(old(self).state, input, final(self).state, r),
    {
        let mut actions: Vec<StepAction> = Vec::new();
        let status: StepStatus;
        match &self.state {
            State::Start => {
                actions.push(StepAction::ShowLoginDialog);
                self.state = State::Login;
                status = StepStatus::Running;
            },
            State::Login => match input {
                StepInput::LoginData { ticket, character } => {
                    actions.push(
                        StepAction::Connect { ticket, character, server: Server::Normal },
                    );
                    self.state = State::Connecting;
                    status = StepStatus::Running;
                },
                StepInput::ChannelClosed => {
                    status = StepStatus::Fatal("ui login_rx disconnected");
                },
                _ => {
                    status = StepStatus::Running;
                },
            },
            State::Connecting => {
                actions.push(
                    StepAction::SendMessage(
                        ClientMessage::JCH { channel: String::from_str("Development") },
                    ),
                );
                actions.push(StepAction::ShowDebugView);
                self.state = State::Connected;
                status = StepStatus::Running;
            },
            State::Connected => match input {
                StepInput::Ui(event) => match event {
                    Event::ReceivedMessage(m) => {
                        match m {
                            ServerMessage::Other { contents, .. } => {
                                actions.push(StepAction::ShowDebugMessage(contents));
                            },
                        }
                        status = StepStatus::Running;
                    },
                    Event::TextInput(text) => {
                        actions.push(
                            StepAction::SendMessage(
                                ClientMessage::MSG {
                                    channel: String::from_str("Development"),
                                    message: text.clone(),
                                },
                            ),
                        );
                        actions.push(StepAction::ShowDebugMessage(text));
                        status = StepStatus::Running;
                    },
                },
                StepInput::ChannelClosed => {
                    status = StepStatus::Fatal("ui event_rx disconnected");
                },
                _ => {
                    status = StepStatus::Running;
                },
            },
            State::Disconnected => {
                status = StepStatus::Fatal("State::Disconnected");
            },
            State::Quit => {
                status = StepStatus::Stopped;
            },
        }
        StepResult { actions, status }
    }
}

} // verus!
