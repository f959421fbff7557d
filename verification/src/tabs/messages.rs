use crate::composer::push_char;
use crate::scrollback::{after_insert, DroppingBuf};
use chrono::Timelike;
use vstd::prelude::*;
use vstd::string::StringExecFns;

verus! {

/// A wall-clock time of day.
#[derive(PartialEq, Eq, Structural, Clone, Copy, Debug)]
pub struct Stamp {
    pub hours: u8,
    pub minutes: u8,
    pub seconds: u8,
}

impl Stamp {
    pub open spec fn wf(self) -> bool {
        self.hours < 24 && self.minutes < 60 && self.seconds < 60
    }
}

/// Relies on chrono::Local::now and chrono::Timelike: the current local time
/// of day. Only the documented ranges of hour, minute and second can be
/// promised of a clock reading.
#[verifier::external_body]
fn now_hms() -> (r: (u8, u8, u8))
    ensures
        r.0 < 24,
        r.1 < 60,
        r.2 < 60,
{
    let now = chrono::Local::now();
    (now.hour() as u8, now.minute() as u8, now.second() as u8)
}

fn stamp_now() -> (r: Stamp)
    ensures
        r.wf(),
{
    let (hours, minutes, seconds) = now_hms();
    Stamp { hours, minutes, seconds }
}

/// Who a message is from, or that it is the system speaking.
pub enum MessageType {
    Normal { from: String },
    Me { from: String },
    System,
}

/// One logged message.
pub struct Message {
    pub timestamp: Stamp,
    pub contents: String,
    pub kind: MessageType,
}

/// A two-digit zero-padded decimal rendering of a value below 100.
pub open spec fn two_digits(n: nat) -> Seq<char>
    recommends
        n < 100,
{
    seq![((('0' as nat) + n / 10) as u8) as char, ((('0' as nat) + n % 10) as u8) as char]
}

/// How a message is rendered into one display line:
/// `[hh:mm:ss]` followed by the sender and the contents.
pub open spec fn format_spec(m: Message) -> Seq<char> {
    seq!['['] + two_digits(m.timestamp.hours as nat) + seq![':'] + two_digits(
        m.timestamp.minutes as nat,
    ) + seq![':'] + two_digits(m.timestamp.seconds as nat) + seq![']', ' '] + body_spec(m.kind, m.contents@)
}

pub open spec fn body_spec(kind: MessageType, contents: Seq<char>) -> Seq<char> {
    match kind {
        MessageType::Normal { from } => from@ + ": "@ + contents,
        MessageType::Me { from } => "* "@ + from@ + " "@ + contents,
        MessageType::System => contents,
    }
}

fn two_digit(n: u8) -> (r: String)
    requires
        n < 100,
    ensures
        r@ == two_digits(n as nat),
{
    let mut s = String::new();
    push_char(&mut s, (48 + n / 10) as char);
    push_char(&mut s, (48 + n % 10) as char);
    proof {
        assert(s@ =~= two_digits(n as nat));
    }
    s
}

/// Render one message into its display line.
pub fn format_message(m: &Message) -> (r: String)
    requires
        m.timestamp.wf(),
    ensures
        r@ == format_spec(*m),
{
    let mut s = String::new();
    push_char(&mut s, '[');
    s.append(two_digit(m.timestamp.hours).as_str());
    push_char(&mut s, ':');
    s.append(two_digit(m.timestamp.minutes).as_str());
    push_char(&mut s, ':');
    s.append(two_digit(m.timestamp.seconds).as_str());
    push_char(&mut s, ']');
    push_char(&mut s, ' ');
    match &m.kind {
        MessageType::Normal { from } => {
            s.append(from.as_str());
            s.append(": ");
            s.append(m.contents.as_str());
        },
        MessageType::Me { from } => {
            s.append("* ");
            s.append(from.as_str());
            s.append(" ");
            s.append(m.contents.as_str());
        },
        MessageType::System => {
            s.append(m.contents.as_str());
        },
    }
    proof {
        assert(s@ =~= format_spec(*m));
    }
    s
}

/// One conversation's history: every message kept in order, plus a bounded
/// buffer of rendered display lines, newest first.
pub struct Log {
    pub messages: Vec<Message>,
    pub display_buffer: DroppingBuf<String>,
}

impl Log {
    pub open spec fn wf(&self) -> bool {
        self.display_buffer.wf()
    }

    pub fn new(buffer_size: u16) -> (r: Log)
        ensures
            r.wf(),
            r.messages@ == Seq::<Message>::empty(),
            r.display_buffer@ == Seq::<String>::empty(),
            r.display_buffer.capacity() == buffer_size as nat,
    {
        Log { messages: Vec::new(), display_buffer: DroppingBuf::with_capacity(buffer_size) }
    }

    /// Append a message, stamped with the clock, and its rendered line.
    pub fn add_message(&mut self, kind: MessageType, message: &str)
        requires
            old(self).wf(),
        ensures
            final(self).wf(),
            final(self).display_buffer.capacity() == old(self).display_buffer.capacity(),
            final(self).messages@.len() == old(self).messages@.len() + 1,
            final(self).messages@.take(old(self).messages@.len() as int) == old(self).messages@,
            final(self).messages@.last().contents@ == message@,
            final(self).messages@.last().kind == kind,
            final(self).messages@.last().timestamp.wf(),
            final(self).display_buffer@ == after_insert(
                old(self).display_buffer@,
                final(self).display_buffer@.first(),
                old(self).display_buffer.capacity(),
            ) || old(self).display_buffer.capacity() == 0,
            final(self).display_buffer@.len() > 0 ==> final(self).display_buffer@.first()@
                == format_spec(final(self).messages@.last()),
    {
        let message = Message {
            timestamp: stamp_now(),
            contents: String::from_str(message),
            kind,
        };
        let line = format_message(&message);
        self.display_buffer.insert(line);
        self.messages.push(message);
        proof {
            assert(final(self).messages@.take(old(self).messages@.len() as int) =~= old(
                self,
            ).messages@);
        }
    }

    /// Change the display buffer's capacity; shrinking keeps the newest lines.
    pub fn resize(&mut self, new_size: u16)
        requires
            old(self).wf(),
        ensures
            final(self).wf(),
            final(self).messages == old(self).messages,
            final(self).display_buffer.capacity() == new_size as nat,
            final(self).display_buffer@ == old(self).display_buffer@.take(
                vstd::math::min(new_size as int, old(self).display_buffer@.len() as int),
            ),
    {
        self.display_buffer.resize(new_size);
    }
}

} // verus!
