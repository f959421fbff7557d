use vstd::prelude::*;
use vstd::slice::slice_index_get;

verus! {

/// A message received from the chat server: its three-letter command code and
/// the full raw line.
#[derive(Debug)]
pub enum ServerMessage {
    Other { kind: [u8; 3], contents: String },
}

/// A message for the chat server.
#[derive(Debug)]
pub enum ClientMessage {
    IDN { account: String, ticket: String, character: String, cname: String, cversion: String },
    MSG { channel: String, message: String },
    PRI { recipient: String, message: String },
    RLL { channel: String, dice: String },
    JCH { channel: String },
    PIN,
}

/// Classify one raw server line: the first three bytes name the command, and
/// the whole line is kept as the contents.
pub fn handle(text: String) -> (m: ServerMessage)
    requires
        vstd::utf8::encode_utf8(text@).len() >= 3,
    ensures
        m matches ServerMessage::Other { kind, contents } && contents == text && kind@
            =~= vstd::utf8::encode_utf8(text@).subrange(0, 3),
{
    let bytes = text.as_str().as_bytes();
    let b0 = *slice_index_get(bytes, 0);
    let b1 = *slice_index_get(bytes, 1);
    let b2 = *slice_index_get(bytes, 2);
    let kind: [u8; 3] = [b0, b1, b2];
    ServerMessage::Other { kind, contents: text }
}

} // verus!
