use crate::keys::{InputEvent, KeyCode, KeyEventKind, KeyModifiers};
use unicode_segmentation::UnicodeSegmentation;
use vstd::prelude::*;
use vstd::string::StringExecFns;

verus! {

/// What Unicode word segmentation leaves of `s` after the trailing run of
/// characters back to the start of the last word is removed; `s` itself when
/// `s` holds no word.
pub uninterp spec fn without_last_word(s: Seq<char>) -> Seq<char>;

/// The greedy word-wrap of `s` at column `width`, lines joined by newlines.
pub uninterp spec fn filled(s: Seq<char>, width: int) -> Seq<char>;

/// `s` without its last character; the empty sequence stays empty.
pub open spec fn popped(s: Seq<char>) -> Seq<char> {
    if s.len() > 0 {
        s.drop_last()
    } else {
        s
    }
}

/// True when every character of `s` is ASCII.
pub open spec fn all_ascii(s: Seq<char>) -> bool {
    forall|i: int| 0 <= i < s.len() ==> (s[i] as int) < 128
}

/// Relies on unicode_segmentation::UnicodeSegmentation::unicode_word_indices:
/// it yields each word of `s` with its byte offset, so truncating at the last
/// offset leaves a prefix of `s`, and the segmentation depends on the
/// characters alone. When `s` holds no word, `s` comes back unchanged.
#[verifier::external_body]
fn trim_last_word(s: &str) -> (r: String)
    ensures
        r@ == without_last_word(s@),
        r@.len() <= s@.len(),
        r@ == s@.subrange(0, r@.len() as int),
{
    match s.unicode_word_indices().last() {
        Some((boundary, _)) => s[..boundary].to_string(),
        None => s.to_string(),
    }
}

/// Relies on textwrap::fill: the result depends on the text and width alone,
/// and when the text is shorter than `width`, holds no newline and does not
/// end in a space, its fast path hands the text back unchanged (it would only
/// trim trailing spaces). For ASCII text the byte length equals the character
/// length, so the condition is stated over characters.
#[verifier::external_body]
fn fill_text(s: &str, width: usize) -> (r: String)
    ensures
        r@ == filled(s@, width as int),
        all_ascii(s@) && !s@.contains('\n') && s@.len() < width && (s@.len() > 0 ==> s@.last()
            != ' ') ==> r@ == s@,
{
    textwrap::fill(s, width)
}

/// Relies on String::push: appends exactly one character.
#[verifier::external_body]
pub(crate) fn push_char(s: &mut String, c: char)
    ensures
        final(s)@ == old(s)@.push(c),
{
    s.push(c);
}

/// Relies on String::pop: removes and returns the last character.
#[verifier::external_body]
pub(crate) fn pop_char(s: &mut String) -> (r: Option<char>)
    ensures
        old(s)@.len() == 0 ==> final(s)@ == old(s)@ && r is None,
        old(s)@.len() > 0 ==> final(s)@ == old(s)@.drop_last() && r == Some(old(s)@.last()),
{
    s.pop()
}

/// The number of words Unicode word segmentation finds in `s`.
pub uninterp spec fn word_count_of(s: Seq<char>) -> nat;

/// Relies on unicode_segmentation::UnicodeSegmentation::unicode_words: the
/// count of words depends on the characters alone, and an empty text has
/// none.
#[verifier::external_body]
fn unicode_word_count(s: &str) -> (n: usize)
    ensures
        n as nat == word_count_of(s@),
        s@.len() == 0 ==> n == 0,
{
    s.unicode_words().count()
}

/// The decimal rendering of `n`, most significant digit first.
pub open spec fn decimal_spec(n: nat) -> Seq<char>
    decreases n,
{
    if n < 10 {
        seq![((('0' as nat) + n) as u8) as char]
    } else {
        decimal_spec(n / 10).push(((('0' as nat) + n % 10) as u8) as char)
    }
}

/// Render `n` in decimal.
pub fn decimal(n: usize) -> (r: String)
    ensures
        r@ == decimal_spec(n as nat),
    decreases n,
{
    if n < 10 {
        let mut s = String::new();
        push_char(&mut s, (48 + (n as u8)) as char);
        proof {
            assert(s@ =~= decimal_spec(n as nat));
        }
        s
    } else {
        let mut s = decimal(n / 10);
        push_char(&mut s, (48 + ((n % 10) as u8)) as char);
        s
    }
}

/// The composer's status line as the chat screen shows it: the word count,
/// the byte count against the recommended soft cap, and the wrapped line
/// count.
pub open spec fn status_line_spec(words: nat, bytes: nat, lines: nat) -> Seq<char> {
    "Words: "@ + decimal_spec(words) + "    Bytes: "@ + decimal_spec(bytes)
        + " / 50000    Lines: "@ + decimal_spec(lines)
}

/// The in-progress outgoing message: an append-only text buffer edited from
/// the end.
pub struct TextAreaState {
    pub text: String,
}

/// How one terminal event changes the composer text: printable characters and
/// Enter append, Backspace removes the last character, Control-Backspace
/// removes the last word, a paste appends its text, and everything else
/// leaves the text alone. Only key presses edit; repeats and releases do not.
pub open spec fn composer_event_rel(pre: TextAreaState, ev: InputEvent, post: TextAreaState) -> bool {
    match ev {
        InputEvent::Key(k) => {
            if k.kind == KeyEventKind::Press {
                match k.code {
                    KeyCode::Backspace => {
                        if k.modifiers.is_none() {
                            post.text@ == popped(pre.text@)
                        } else if k.modifiers.is_control_only() {
                            post.text@ == without_last_word(pre.text@)
                        } else {
                            post.text@ == pre.text@
                        }
                    },
                    KeyCode::Enter => post.text@ == pre.text@.push('\n'),
                    KeyCode::Char(c) => {
                        if k.modifiers.is_none() || k.modifiers.is_shift_only() {
                            post.text@ == pre.text@.push(c)
                        } else {
                            post.text@ == pre.text@
                        }
                    },
                    _ => post.text@ == pre.text@,
                }
            } else {
                post.text@ == pre.text@
            }
        },
        InputEvent::Paste(d) => post.text@ == pre.text@ + d@,
        _ => post.text@ == pre.text@,
    }
}

impl TextAreaState {
    pub fn new() -> (r: TextAreaState)
        ensures
            r.text@ == Seq::<char>::empty(),
    {
        TextAreaState { text: String::new() }
    }

    /// Route one terminal event into the composer.
    pub fn event(&mut self, event: &InputEvent)
        ensures
            composer_event_rel(*old(self), *event, *final(self)),
    {
        match event {
            InputEvent::Key(k) => {
                if matches!(k.kind, KeyEventKind::Press) {
                    match k.code {
                        KeyCode::Backspace => {
                            if k.modifiers == KeyModifiers::none() {
                                self.delete_char();
                            } else if k.modifiers == KeyModifiers::control() {
                                self.delete_word();
                            }
                        },
                        KeyCode::Enter => {
                            push_char(&mut self.text, '\n');
                        },
                        KeyCode::Char(c) => {
                            if k.modifiers == KeyModifiers::none() || k.modifiers
                                == KeyModifiers::shift() {
                                push_char(&mut self.text, c);
                            }
                        },
                        _ => {},
                    }
                }
            },
            InputEvent::Paste(d) => {
                self.paste(d.as_str());
            },
            _ => {},
        }
    }

    /// Remove the last character, if any.
    pub fn delete_char(&mut self)
        ensures
            final(self).text@ == popped(old(self).text@),
    {
        pop_char(&mut self.text);
    }

    /// Remove the trailing run of characters back to the start of the last
    /// word; a no-op when no word boundary exists.
    pub fn delete_word(&mut self)
        ensures
            final(self).text@ == without_last_word(old(self).text@),
            final(self).text@.len() <= old(self).text@.len(),
            final(self).text@ == old(self).text@.subrange(0, final(self).text@.len() as int),
    {
        let trimmed = trim_last_word(self.text.as_str());
        self.text = trimmed;
    }

    /// Append pasted text.
    pub fn paste(&mut self, data: &str)
        ensures
            final(self).text@ == old(self).text@ + data@,
    {
        self.text.append(data);
    }

    /// The buffer re-flowed to `width` columns. A sentinel standing for the
    /// cursor is appended before wrapping and removed after, so trailing
    /// whitespace at the end of the buffer survives the wrap: ASCII text
    /// without a newline that fits within `width` together with the sentinel
    /// comes back exactly as stored, trailing spaces included.
    pub fn wrapped_text(&self, width: usize) -> (r: String)
        ensures
            r@ == popped(filled(self.text@.push('_'), width as int)),
            all_ascii(self.text@) && !self.text@.contains('\n') && self.text@.len() + 1 < width
                ==> r@ == self.text@,
    {
        let mut text = self.text.clone();
        // A character standing for the cursor, so trailing whitespace is not trimmed.
        push_char(&mut text, '_');
        let ghost sent = self.text@.push('_');
        proof {
            if all_ascii(self.text@) && !self.text@.contains('\n') && self.text@.len() + 1
                < width {
                assert(all_ascii(sent)) by {
                    assert(forall|i: int|
                        0 <= i < self.text@.len() ==> sent[i] == self.text@[i]);
                    assert((sent[sent.len() - 1] as int) < 128);
                }
                assert(!sent.contains('\n')) by {
                    assert(forall|i: int| 0 <= i < self.text@.len() ==> sent[i] == self.text@[i]);
                    assert(sent[sent.len() - 1] == '_');
                }
                assert(sent.last() != ' ');
            }
        }
        let mut wrapped = fill_text(text.as_str(), width);
        // Remove the cursor character again.
        pop_char(&mut wrapped);
        proof {
            if all_ascii(self.text@) && !self.text@.contains('\n') && self.text@.len() + 1
                < width {
                assert(sent.drop_last() =~= self.text@);
            }
        }
        wrapped
    }

    /// How many words the stored text holds, by Unicode word segmentation.
    pub fn word_count(&self) -> (n: usize)
        ensures
            n as nat == word_count_of(self.text@),
            self.text@.len() == 0 ==> n == 0,
    {
        unicode_word_count(self.text.as_str())
    }

    /// How many bytes the stored text holds.
    pub fn byte_count(&self) -> (n: usize)
        ensures
            n == vstd::utf8::encode_utf8(self.text@).len() as usize,
    {
        self.text.as_str().len()
    }

    /// The status line shown under the composer, from the stored text and
    /// the wrapped line count the renderer measured.
    pub fn status_line(&self, line_count: usize) -> (r: String)
        ensures
            r@ == status_line_spec(
                word_count_of(self.text@),
                vstd::utf8::encode_utf8(self.text@).len() as usize as nat,
                line_count as nat,
            ),
    {
        let mut s = String::from_str("Words: ");
        s.append(decimal(self.word_count()).as_str());
        s.append("    Bytes: ");
        s.append(decimal(self.byte_count()).as_str());
        s.append(" / 50000    Lines: ");
        s.append(decimal(line_count).as_str());
        proof {
            assert(s@ =~= status_line_spec(
                word_count_of(self.text@),
                vstd::utf8::encode_utf8(self.text@).len() as usize as nat,
                line_count as nat,
            ));
        }
        s
    }
}

} // verus!
