use vstd::prelude::*;
use vstd::string::StrSliceExecFns;

verus! {

/// What one line of textual input asks for.
pub enum Action<'a> {
    Message { content: &'a str },
    Join { room: &'a str },
    Priv { character: &'a str },
    Error { error: &'static str },
    Invalid { action: &'a str },
    Empty,
}

/// The position of the first space at or after `i`, or the end of `s`.
pub open spec fn token_end(s: Seq<char>, i: int) -> int
    decreases s.len() - i,
{
    if i < 0 || i >= s.len() {
        s.len() as int
    } else if s[i] == ' ' {
        i
    } else {
        token_end(s, i + 1)
    }
}

proof fn lemma_token_end(s: Seq<char>, from: int, e: int)
    requires
        0 <= from <= e <= s.len(),
        forall|j: int| from <= j < e ==> s[j] != ' ',
        e == s.len() || s[e] == ' ',
    ensures
        token_end(s, from) == e,
    decreases e - from,
{
    if from < e {
        lemma_token_end(s, from + 1, e);
    }
}

/// Parse one line: a line not starting with a slash is a plain message; a
/// slash command is named by its first word, and every command is either
/// unknown or, for `priv`, answered with the error the parser gives it.
pub fn parse(line: &str) -> (r: Action)
    requires
        line@.len() > 0,
    ensures
        line@[0] != '/' ==> (r matches Action::Message { content } && content@ == line@),
        line@[0] == '/' ==> {
            let tok = line@.subrange(1, token_end(line@, 1));
            if tok == "priv"@ {
                r matches Action::Error { error } && error@ == "/join expects a room name."@
            } else {
                r matches Action::Invalid { action } && action@ == tok
            }
        },
{
    let first = line.get_char(0);
    if first != '/' {
        return Action::Message { content: line };
    }
    let n = line.unicode_len();
    let mut e: usize = 1;
    while e < n && line.get_char(e) != ' '
        invariant
            1 <= e <= n,
            n == line@.len(),
            forall|j: int| 1 <= j < e ==> line@[j] != ' ',
        decreases n - e,
    {
        e = e + 1;
    }
    proof {
        lemma_token_end(line@, 1, e as int);
    }
    let action = line.substring_char(1, e);
    let is_priv = action.unicode_len() == 4 && action.get_char(0) == 'p' && action.get_char(1)
        == 'r' && action.get_char(2) == 'i' && action.get_char(3) == 'v';
    proof {
        reveal_strlit("priv");
        if is_priv {
            assert(action@ =~= "priv"@);
        }
    }
    if is_priv {
        Action::Error { error: "/join expects a room name." }
    } else {
        Action::Invalid { action }
    }
}

} // verus!
