use vstd::prelude::*;

use crate::repo::spec_hex_char;
use crate::tail::spec_tail_lines;
use crate::tail::tail_lines;
use vstd::utf8::decode_utf8;
use vstd::utf8::valid_utf8;

verus! {

/// One event of the log stream: a chunk of text, a terminal error, or
/// the signal that the log file was recreated and the client should
/// reconnect.
pub enum TailEvent {
    Text(String),
    Error(String),
    Reset,
}

/// The characters a string character contributes to its JSON rendering:
/// quote, backslash and the common control characters are escaped with a
/// backslash, the remaining control characters numerically, and
/// everything else stands for itself.
pub open spec fn spec_escape_char(c: char) -> Seq<char> {
    if c == '"' {
        seq!['\\', '"']
    } else if c == '\\' {
        seq!['\\', '\\']
    } else if c == '\n' {
        seq!['\\', 'n']
    } else if c == '\r' {
        seq!['\\', 'r']
    } else if c == '\t' {
        seq!['\\', 't']
    } else if c == '\u{0008}' {
        seq!['\\', 'b']
    } else if c == '\u{000C}' {
        seq!['\\', 'f']
    } else if (c as u32) < 0x20 {
        let v = (c as u32) as int;
        seq!['\\', 'u', '0', '0'] + seq![spec_hex_char(v / 16), spec_hex_char(v % 16)]
    } else {
        seq![c]
    }
}

/// A string's content as it stands inside a JSON string literal.
pub open spec fn spec_json_escape(s: Seq<char>) -> Seq<char>
    decreases s.len(),
{
    if s.len() == 0 {
        Seq::empty()
    } else {
        spec_json_escape(s.drop_last()) + spec_escape_char(s.last())
    }
}

/// The JSON rendering of a text event.
pub open spec fn spec_text_event(content: Seq<char>) -> Seq<char> {
    "{\"t\":\"Text\",\"c\":\""@ + spec_json_escape(content) + "\"}"@
}

/// The JSON rendering of an error event.
pub open spec fn spec_error_event(content: Seq<char>) -> Seq<char> {
    "{\"t\":\"Error\",\"c\":\""@ + spec_json_escape(content) + "\"}"@
}

/// The JSON rendering of the reset event.
pub open spec fn spec_reset_event() -> Seq<char> {
    "{\"t\":\"Reset\"}"@
}

fn hex_digit_str(d: u32) -> (r: &'static str)
    requires
        d < 16,
    ensures
        r@ == seq![spec_hex_char(d as int)],
{
    proof {
        reveal_strlit("0");
        reveal_strlit("1");
        reveal_strlit("2");
        reveal_strlit("3");
        reveal_strlit("4");
        reveal_strlit("5");
        reveal_strlit("6");
        reveal_strlit("7");
        reveal_strlit("8");
        reveal_strlit("9");
        reveal_strlit("a");
        reveal_strlit("b");
        reveal_strlit("c");
        reveal_strlit("d");
        reveal_strlit("e");
        reveal_strlit("f");
    }
    let r = if d == 0 {
        "0"
    } else if d == 1 {
        "1"
    } else if d == 2 {
        "2"
    } else if d == 3 {
        "3"
    } else if d == 4 {
        "4"
    } else if d == 5 {
        "5"
    } else if d == 6 {
        "6"
    } else if d == 7 {
        "7"
    } else if d == 8 {
        "8"
    } else if d == 9 {
        "9"
    } else if d == 10 {
        "a"
    } else if d == 11 {
        "b"
    } else if d == 12 {
        "c"
    } else if d == 13 {
        "d"
    } else if d == 14 {
        "e"
    } else {
        "f"
    };
    proof {
        assert(r@ =~= seq![spec_hex_char(d as int)]);
    }
    r
}

/// Escapes a string for inclusion in a JSON string literal.
pub fn json_escape(s: &str) -> (r: String)
    ensures
        r@ == spec_json_escape(s@),
{
    proof {
        reveal_strlit("\\\"");
        reveal_strlit("\\\\");
        reveal_strlit("\\n");
        reveal_strlit("\\r");
        reveal_strlit("\\t");
        reveal_strlit("\\b");
        reveal_strlit("\\f");
        reveal_strlit("\\u00");
    }
    let n = s.unicode_len();
    let mut r = String::new();
    let mut i: usize = 0;
    while i < n
        invariant
            n == s@.len(),
            0 <= i <= n,
            r@ == spec_json_escape(s@.take(i as int)),
        decreases n - i,
    {
        proof {
            reveal_strlit("\\\"");
            reveal_strlit("\\\\");
            reveal_strlit("\\n");
            reveal_strlit("\\r");
            reveal_strlit("\\t");
            reveal_strlit("\\b");
            reveal_strlit("\\f");
            reveal_strlit("\\u00");
            assert(s@.take(i + 1).drop_last() =~= s@.take(i as int));
            assert(s@.take(i + 1).last() == s@[i as int]);
        }
        let c = s.get_char(i);
        if c == '"' {
            r.append("\\\"");
        } else if c == '\\' {
            r.append("\\\\");
        } else if c == '\n' {
            r.append("\\n");
        } else if c == '\r' {
            r.append("\\r");
        } else if c == '\t' {
            r.append("\\t");
        } else if c == '\u{0008}' {
            r.append("\\b");
        } else if c == '\u{000C}' {
            r.append("\\f");
        } else if (c as u32) < 0x20 {
            let v = c as u32;
            r.append("\\u00");
            r.append(hex_digit_str(v / 16));
            r.append(hex_digit_str(v % 16));
        } else {
            let mut one = String::new();
            string_push_char(&mut one, c);
            r.append(one.as_str());
        }
        proof {
            assert(r@ =~= spec_json_escape(s@.take(i + 1)));
        }
        i = i + 1;
    }
    proof {
        assert(s@.take(n as int) =~= s@);
    }
    r
}

/// Relies on String::push: appending one character to a string.
#[verifier::external_body]
fn string_push_char(s: &mut String, c: char)
    ensures
        final(s)@ == old(s)@.push(c),
{
    s.push(c);
}

/// Renders one stream event as the JSON object the client receives: a
/// tag field `t` naming the kind, and a content field `c` carrying the
/// text when there is any.
pub fn render_event(ev: &TailEvent) -> (r: String)
    ensures
        r@ == (match ev {
            TailEvent::Text(s) => spec_text_event(s@),
            TailEvent::Error(s) => spec_error_event(s@),
            TailEvent::Reset => spec_reset_event(),
        }),
{
    match ev {
        TailEvent::Text(s) => {
            let mut r = String::from_str("{\"t\":\"Text\",\"c\":\"");
            let esc = json_escape(s.as_str());
            r.append(esc.as_str());
            r.append("\"}");
            proof {
                assert(r@ =~= spec_text_event(s@));
            }
            r
        },
        TailEvent::Error(s) => {
            let mut r = String::from_str("{\"t\":\"Error\",\"c\":\"");
            let esc = json_escape(s.as_str());
            r.append(esc.as_str());
            r.append("\"}");
            proof {
                assert(r@ =~= spec_error_event(s@));
            }
            r
        },
        TailEvent::Reset => String::from_str("{\"t\":\"Reset\"}"),
    }
}

/// What the log bytes decode to for the client: their characters when
/// they are valid UTF-8, and a replacement otherwise.
pub uninterp spec fn spec_lossy_chars(b: Seq<u8>) -> Seq<char>;

/// Relies on String::from_utf8_lossy: valid UTF-8 bytes decode to their
/// characters unchanged, and the result depends on the bytes alone.
#[verifier::external_body]
fn utf8_lossy(b: &[u8]) -> (r: String)
    ensures
        r@ == spec_lossy_chars(b@),
        valid_utf8(b@) ==> r@ == decode_utf8(b@),
        b@.len() == 0 ==> r@.len() == 0,
{
    String::from_utf8_lossy(b).into_owned()
}

/// The first event of a tail stream: the saved tail window of the log,
/// as a text event.
pub fn tail_head_event(data: &[u8], len: usize) -> (r: String)
    ensures
        r@ == spec_text_event(spec_lossy_chars(spec_tail_lines(data@, len as int, 10))),
{
    let head = tail_lines(data, len, 10);
    let text = utf8_lossy(head.as_slice());
    let ev = TailEvent::Text(text);
    render_event(&ev)
}

/// A chunk appended to the log while streaming: each append arrives as a
/// text event carrying exactly the new bytes; an empty read produces no
/// event.
pub fn append_event(appended: &[u8]) -> (r: Option<String>)
    ensures
        match r {
            Option::Some(s) => appended@.len() > 0 && s@ == spec_text_event(
                spec_lossy_chars(appended@),
            ),
            Option::None => appended@.len() == 0,
        },
{
    if appended.len() == 0 {
        return None;
    }
    let text = utf8_lossy(appended);
    let ev = TailEvent::Text(text);
    Some(render_event(&ev))
}

/// A read or watch failure while streaming: the client receives the
/// message as an error event, and the stream ends. The failure is not
/// propagated; the event is the last thing sent.
pub fn stream_error_event(message: &str) -> (r: String)
    ensures
        r@ == spec_error_event(message@),
{
    let ev = TailEvent::Error(String::from_str(message));
    render_event(&ev)
}

/// A filesystem notification on the log path.
#[derive(Debug, Clone, Copy, PartialEq, Eq, Structural)]
pub enum FsEvent {
    /// The file was written to.
    Modified,
    /// The file was created anew.
    Created,
    /// Anything else.
    Other,
}

/// What the streaming loop does on a notification.
#[derive(Debug, Clone, Copy, PartialEq, Eq, Structural)]
pub enum TailAction {
    /// Read from the current offset to the end and emit the new bytes.
    ReadAppended,
    /// Emit the reset event and end the stream: the file was recreated
    /// and the client must reconnect.
    ResetAndStop,
    /// Nothing to do.
    Ignore,
}

/// The streaming decision: a modification is read out and forwarded, a
/// recreation resets and ends the stream, anything else is ignored.
pub fn on_fs_event(ev: FsEvent) -> (r: TailAction)
    ensures
        r == (match ev {
            FsEvent::Modified => TailAction::ReadAppended,
            FsEvent::Created => TailAction::ResetAndStop,
            FsEvent::Other => TailAction::Ignore,
        }),
{
    match ev {
        FsEvent::Modified => TailAction::ReadAppended,
        FsEvent::Created => TailAction::ResetAndStop,
        FsEvent::Other => TailAction::Ignore,
    }
}

} // verus!
