use std::io::Write;

use vstd::prelude::*;

use crate::models::message::{Message, MessageView};
use crate::numbers::{dec_digits, digit_char, is_digit, lemma_dec_digits_all_digits, u64_to_string};
use crate::text::{lemma_no_newline_concat, newline_to_space, no_newline, replace_newlines};
use crate::timefmt::{
    format_timestamp, format_timestamp_rfc3339, timestamp_display, timestamp_rfc3339,
};

verus! {

/// The hexadecimal digit character for a value below sixteen, in lower
/// case.
pub open spec fn hex_digit(d: nat) -> char {
    if d < 10 {
        digit_char(d)
    } else if d == 10 {
        'a'
    } else if d == 11 {
        'b'
    } else if d == 12 {
        'c'
    } else if d == 13 {
        'd'
    } else if d == 14 {
        'e'
    } else {
        'f'
    }
}

fn hex_digit_char(d: u8) -> (c: char)
    requires
        d < 16,
    ensures
        c == hex_digit(d as nat),
{
    if d == 0 {
        '0'
    } else if d == 1 {
        '1'
    } else if d == 2 {
        '2'
    } else if d == 3 {
        '3'
    } else if d == 4 {
        '4'
    } else if d == 5 {
        '5'
    } else if d == 6 {
        '6'
    } else if d == 7 {
        '7'
    } else if d == 8 {
        '8'
    } else if d == 9 {
        '9'
    } else if d == 10 {
        'a'
    } else if d == 11 {
        'b'
    } else if d == 12 {
        'c'
    } else if d == 13 {
        'd'
    } else if d == 14 {
        'e'
    } else {
        'f'
    }
}

/// How one character is written inside a JSON string: quote and
/// backslash escaped, the named control characters by letter, any other
/// control character as a four-digit escape, and everything else as
/// itself.
pub open spec fn esc_char(c: char) -> Seq<char> {
    if c == '"' {
        seq!['\\', '"']
    } else if c == '\\' {
        seq!['\\', '\\']
    } else if c == '\n' {
        seq!['\\', 'n']
    } else if c == '\r' {
        seq!['\\', 'r']
    } else if c == '\t' {
        seq!['\\', 't']
    } else if c == '\u{8}' {
        seq!['\\', 'b']
    } else if c == '\u{c}' {
        seq!['\\', 'f']
    } else if (c as u32) < 32 {
        seq!['\\', 'u', '0', '0', hex_digit((c as u32 / 16) as nat), hex_digit((c as u32 % 16) as nat)]
    } else {
        seq![c]
    }
}

/// A string written inside JSON quotes, character by character.
pub open spec fn json_escape(s: Seq<char>) -> Seq<char>
    decreases s.len(),
{
    if s.len() == 0 {
        Seq::empty()
    } else {
        json_escape(s.drop_last()) + esc_char(s.last())
    }
}

/// Escape a string for embedding inside a JSON string literal.
pub fn json_escape_str(s: &str) -> (r: String)
    ensures
        r@ == json_escape(s@),
{
    let len = s.unicode_len();
    let mut out = String::new();
    let mut i: usize = 0;
    while i < len
        invariant
            0 <= i <= len,
            len == s@.len(),
            out@ == json_escape(s@.take(i as int)),
        decreases len - i,
    {
        let c = s.get_char(i);
        proof {
            assert(s@.take(i + 1).drop_last() =~= s@.take(i as int));
            assert(s@.take(i + 1).last() == s@[i as int]);
        }
        if c == '"' {
            out.append("\\\"");
            proof {
                reveal_strlit("\\\"");
                assert("\\\""@ =~= seq!['\\', '"']);
            }
        } else if c == '\\' {
            out.append("\\\\");
            proof {
                reveal_strlit("\\\\");
                assert("\\\\"@ =~= seq!['\\', '\\']);
            }
        } else if c == '\n' {
            out.append("\\n");
            proof {
                reveal_strlit("\\n");
                assert("\\n"@ =~= seq!['\\', 'n']);
            }
        } else if c == '\r' {
            out.append("\\r");
            proof {
                reveal_strlit("\\r");
                assert("\\r"@ =~= seq!['\\', 'r']);
            }
        } else if c == '\t' {
            out.append("\\t");
            proof {
                reveal_strlit("\\t");
                assert("\\t"@ =~= seq!['\\', 't']);
            }
        } else if c == '\u{8}' {
            out.append("\\b");
            proof {
                reveal_strlit("\\b");
                assert("\\b"@ =~= seq!['\\', 'b']);
            }
        } else if c == '\u{c}' {
            out.append("\\f");
            proof {
                reveal_strlit("\\f");
                assert("\\f"@ =~= seq!['\\', 'f']);
            }
        } else {
            let cu = c as u32;
            if cu < 32 {
                out.append("\\u00");
                out.push(hex_digit_char((cu / 16) as u8));
                out.push(hex_digit_char((cu % 16) as u8));
                proof {
                    reveal_strlit("\\u00");
                    assert("\\u00"@ =~= seq!['\\', 'u', '0', '0']);
                    assert(out@ =~= json_escape(s@.take(i as int)) + esc_char(s@[i as int]));
                }
            } else {
                out.push(c);
                proof {
                    assert(out@ =~= json_escape(s@.take(i as int)) + esc_char(s@[i as int]));
                }
            }
        }
        i = i + 1;
    }
    proof {
        assert(s@.take(len as int) =~= s@);
    }
    out
}

/// The single-line rendering of a message: author, time, thread and
/// post path, then the body with every newline replaced by a space.
pub open spec fn oneline_text(m: MessageView) -> Seq<char> {
    "["@ + m.account_fullname + " ("@ + m.account_name + ")] "@ + timestamp_display(m.created_at)
        + " /topics/"@ + dec_digits(m.topic_id as nat) + "/posts/"@ + dec_digits(m.id as nat)
        + " "@ + newline_to_space(m.message)
}

/// The block rendering of a message: a rule, the time with the thread
/// and post path, the author, then the body verbatim.
pub open spec fn pretty_text(m: MessageView) -> Seq<char> {
    "--------------------------------------------------------------------------------\n"@
        + timestamp_display(m.created_at) + " /topics/"@ + dec_digits(m.topic_id as nat)
        + "/posts/"@ + dec_digits(m.id as nat) + "\n["@ + m.account_fullname + " ("@
        + m.account_name + ")]\n"@ + m.message
}

/// The JSON rendering of a message: one object whose members carry the
/// message's attribute names, the timestamp in RFC 3339 form.
pub open spec fn json_text(m: MessageView) -> Seq<char> {
    "{\"topic_id\":"@ + dec_digits(m.topic_id as nat) + ",\"id\":"@ + dec_digits(m.id as nat)
        + ",\"account_name\":\""@ + json_escape(m.account_name) + "\",\"account_fullname\":\""@
        + json_escape(m.account_fullname) + "\",\"message\":\""@ + json_escape(m.message)
        + "\",\"created_at\":\""@ + timestamp_rfc3339(m.created_at) + "\"}"@
}

/// No decimal rendering holds a newline.
proof fn lemma_digits_no_newline(n: nat)
    ensures
        no_newline(dec_digits(n)),
{
    lemma_dec_digits_all_digits(n);
    assert forall|i: int| 0 <= i < dec_digits(n).len() implies #[trigger] dec_digits(n)[i] != '\n' by {
        assert(is_digit(dec_digits(n)[i]));
    }
}

/// Render a message on a single line, as [`oneline_text`] says. Where
/// the account names hold no newline, neither does the whole rendering.
pub fn format_message_oneline(m: &Message) -> (r: String)
    requires
        m.wf(),
    ensures
        r@ == oneline_text(m@),
        no_newline(m@.account_name) && no_newline(m@.account_fullname) ==> no_newline(r@),
{
    let mut out = String::from_str("[");
    out.append(m.account_fullname.as_str());
    out.append(" (");
    out.append(m.account_name.as_str());
    out.append(")] ");
    let ts = format_timestamp(m.created_at);
    out.append(ts.as_str());
    out.append(" /topics/");
    let tid = u64_to_string(m.topic_id);
    out.append(tid.as_str());
    out.append("/posts/");
    let id = u64_to_string(m.id);
    out.append(id.as_str());
    out.append(" ");
    let body = replace_newlines(m.message.as_str());
    out.append(body.as_str());
    proof {
        if no_newline(m@.account_name) && no_newline(m@.account_fullname) {
            reveal_strlit("[");
            reveal_strlit(" (");
            reveal_strlit(")] ");
            reveal_strlit(" /topics/");
            reveal_strlit("/posts/");
            reveal_strlit(" ");
            assert(no_newline("["@));
            assert(no_newline(" ("@));
            assert(no_newline(")] "@));
            assert(no_newline(" /topics/"@));
            assert(no_newline("/posts/"@));
            assert(no_newline(" "@));
            lemma_digits_no_newline(m@.topic_id as nat);
            lemma_digits_no_newline(m@.id as nat);
            let t1 = "["@ + m@.account_fullname;
            let t2 = t1 + " ("@;
            let t3 = t2 + m@.account_name;
            let t4 = t3 + ")] "@;
            let t5 = t4 + timestamp_display(m@.created_at);
            let t6 = t5 + " /topics/"@;
            let t7 = t6 + dec_digits(m@.topic_id as nat);
            let t8 = t7 + "/posts/"@;
            let t9 = t8 + dec_digits(m@.id as nat);
            let t10 = t9 + " "@;
            lemma_no_newline_concat("["@, m@.account_fullname);
            lemma_no_newline_concat(t1, " ("@);
            lemma_no_newline_concat(t2, m@.account_name);
            lemma_no_newline_concat(t3, ")] "@);
            lemma_no_newline_concat(t4, timestamp_display(m@.created_at));
            lemma_no_newline_concat(t5, " /topics/"@);
            lemma_no_newline_concat(t6, dec_digits(m@.topic_id as nat));
            lemma_no_newline_concat(t7, "/posts/"@);
            lemma_no_newline_concat(t8, dec_digits(m@.id as nat));
            lemma_no_newline_concat(t9, " "@);
            lemma_no_newline_concat(t10, newline_to_space(m@.message));
        }
    }
    out
}

/// Render a message as a block, as [`pretty_text`] says.
pub fn format_message_pretty(m: &Message) -> (r: String)
    requires
        m.wf(),
    ensures
        r@ == pretty_text(m@),
{
    let mut out = String::from_str(
        "--------------------------------------------------------------------------------\n",
    );
    let ts = format_timestamp(m.created_at);
    out.append(ts.as_str());
    out.append(" /topics/");
    let tid = u64_to_string(m.topic_id);
    out.append(tid.as_str());
    out.append("/posts/");
    let id = u64_to_string(m.id);
    out.append(id.as_str());
    out.append("\n[");
    out.append(m.account_fullname.as_str());
    out.append(" (");
    out.append(m.account_name.as_str());
    out.append(")]\n");
    out.append(m.message.as_str());
    out
}

/// Render a message as one JSON object, as [`json_text`] says.
pub fn format_message_json(m: &Message) -> (r: String)
    requires
        m.wf(),
    ensures
        r@ == json_text(m@),
{
    let mut out = String::from_str("{\"topic_id\":");
    let tid = u64_to_string(m.topic_id);
    out.append(tid.as_str());
    out.append(",\"id\":");
    let id = u64_to_string(m.id);
    out.append(id.as_str());
    out.append(",\"account_name\":\"");
    let an = json_escape_str(m.account_name.as_str());
    out.append(an.as_str());
    out.append("\",\"account_fullname\":\"");
    let af = json_escape_str(m.account_fullname.as_str());
    out.append(af.as_str());
    out.append("\",\"message\":\"");
    let body = json_escape_str(m.message.as_str());
    out.append(body.as_str());
    out.append("\",\"created_at\":\"");
    let ts = format_timestamp_rfc3339(m.created_at);
    out.append(ts.as_str());
    out.append("\"}");
    out
}

/// Relies on `std::io::Stdout::write_fmt` (through `writeln!`): writes
/// the string and a trailing newline to standard output.
#[verifier::external_body]
fn print_line(s: &str) {
    let _ = writeln!(std::io::stdout(), "{}", s);
}

/// How query results are rendered for the terminal.
#[derive(Clone, Copy)]
pub enum Printer {
    Pretty,
    Oneline,
    JSON,
}

impl Printer {
    /// The rendering of one message under this printer.
    pub open spec fn rendering(self, m: MessageView) -> Seq<char> {
        match self {
            Printer::Pretty => pretty_text(m),
            Printer::Oneline => oneline_text(m),
            Printer::JSON => json_text(m),
        }
    }

    /// Render one message under this printer.
    pub fn format_message(&self, message: &Message) -> (r: String)
        requires
            message.wf(),
        ensures
            r@ == self.rendering(message@),
    {
        match *self {
            Printer::Pretty => format_message_pretty(message),
            Printer::Oneline => format_message_oneline(message),
            Printer::JSON => format_message_json(message),
        }
    }

    /// Print one message to standard output under this printer.
    pub fn print_message(&self, message: &Message)
        requires
            message.wf(),
    {
        let line = self.format_message(message);
        print_line(line.as_str());
    }
}

/// The output mode named on the command line.
#[derive(Clone, Copy, PartialEq, Eq, Structural, Debug)]
pub enum OutputMode {
    Pretty,
    Oneline,
    JSON,
}

impl OutputMode {
    /// The printer that renders this output mode.
    pub fn to_printer(&self) -> (p: Printer)
        ensures
            *self is Pretty ==> p is Pretty,
            *self is Oneline ==> p is Oneline,
            *self is JSON ==> p is JSON,
    {
        match *self {
            Self::Pretty => Printer::Pretty,
            Self::Oneline => Printer::Oneline,
            Self::JSON => Printer::JSON,
        }
    }
}

} // verus!
