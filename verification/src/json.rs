//! The JSON bodies the service answers with: one object per note, an array of
//! objects for a listing, with string contents escaped as JSON asks.

use vstd::prelude::*;
use crate::notes::{Note, note_texts};
use crate::strutil::push_char;

verus! {

/// The hexadecimal digit for a value below sixteen.
pub open spec fn hex_digit(n: int) -> char {
    if n == 0 {
        '0'
    } else if n == 1 {
        '1'
    } else if n == 2 {
        '2'
    } else if n == 3 {
        '3'
    } else if n == 4 {
        '4'
    } else if n == 5 {
        '5'
    } else if n == 6 {
        '6'
    } else if n == 7 {
        '7'
    } else if n == 8 {
        '8'
    } else if n == 9 {
        '9'
    } else if n == 10 {
        'a'
    } else if n == 11 {
        'b'
    } else if n == 12 {
        'c'
    } else if n == 13 {
        'd'
    } else if n == 14 {
        'e'
    } else {
        'f'
    }
}

fn hex_digit_exec(n: u32) -> (c: char)
    requires
        n < 16,
    ensures
        c == hex_digit(n as int),
{
    if n == 0 {
        '0'
    } else if n == 1 {
        '1'
    } else if n == 2 {
        '2'
    } else if n == 3 {
        '3'
    } else if n == 4 {
        '4'
    } else if n == 5 {
        '5'
    } else if n == 6 {
        '6'
    } else if n == 7 {
        '7'
    } else if n == 8 {
        '8'
    } else if n == 9 {
        '9'
    } else if n == 10 {
        'a'
    } else if n == 11 {
        'b'
    } else if n == 12 {
        'c'
    } else if n == 13 {
        'd'
    } else if n == 14 {
        'e'
    } else {
        'f'
    }
}

/// How one character appears inside a JSON string literal: quote, backslash
/// and the named control characters get a two-character escape, the remaining
/// control characters a `\u00..` escape, and every other character stands as
/// it is.
pub open spec fn escaped_char(c: char) -> Seq<char> {
    if c == '"' {
        seq!['\\', '"']
    } else if c == '\\' {
        seq!['\\', '\\']
    } else if c == '\n' {
        seq!['\\', 'n']
    } else if c == '\r' {
        seq!['\\', 'r']
    } else if c == '\t' {
        seq!['\\', 't']
    } else if c == '\u{8}' {
        seq!['\\', 'b']
    } else if c == '\u{c}' {
        seq!['\\', 'f']
    } else if (c as u32) < 32 {
        seq!['\\', 'u', '0', '0', hex_digit((c as int) / 16), hex_digit((c as int) % 16)]
    } else {
        seq![c]
    }
}

/// A whole text in its escaped form: each character's escape, in order.
pub open spec fn escaped(s: Seq<char>) -> Seq<char>
    decreases s.len(),
{
    if s.len() == 0 {
        Seq::empty()
    } else {
        escaped(s.drop_last()) + escaped_char(s.last())
    }
}

/// A JSON string literal holding the given text.
pub open spec fn spec_json_string(s: Seq<char>) -> Seq<char> {
    seq!['"'] + escaped(s) + seq!['"']
}

/// The JSON object for one note: `{"text":` followed by the text as a JSON
/// string, closed with `}`.
pub open spec fn spec_note_json(text: Seq<char>) -> Seq<char> {
    "{\"text\":"@ + spec_json_string(text) + "}"@
}

/// The comma-separated objects inside a listing's array.
pub open spec fn spec_notes_json_inner(texts: Seq<Seq<char>>) -> Seq<char>
    decreases texts.len(),
{
    if texts.len() == 0 {
        Seq::empty()
    } else if texts.len() == 1 {
        spec_note_json(texts[0])
    } else {
        spec_notes_json_inner(texts.drop_last()) + seq![','] + spec_note_json(texts.last())
    }
}

/// The JSON array for a listing: the objects in order, inside brackets.
pub open spec fn spec_notes_json(texts: Seq<Seq<char>>) -> Seq<char> {
    seq!['['] + spec_notes_json_inner(texts) + seq![']']
}

fn push_escaped_char(out: &mut String, c: char)
    ensures
        final(out)@ == old(out)@ + escaped_char(c),
{
    if c == '"' {
        out.append("\\\"");
        proof {
            reveal_strlit("\\\"");
            assert("\\\""@ =~= escaped_char(c));
        }
    } else if c == '\\' {
        out.append("\\\\");
        proof {
            reveal_strlit("\\\\");
            assert("\\\\"@ =~= escaped_char(c));
        }
    } else if c == '\n' {
        out.append("\\n");
        proof {
            reveal_strlit("\\n");
            assert("\\n"@ =~= escaped_char(c));
        }
    } else if c == '\r' {
        out.append("\\r");
        proof {
            reveal_strlit("\\r");
            assert("\\r"@ =~= escaped_char(c));
        }
    } else if c == '\t' {
        out.append("\\t");
        proof {
            reveal_strlit("\\t");
            assert("\\t"@ =~= escaped_char(c));
        }
    } else if c == '\u{8}' {
        out.append("\\b");
        proof {
            reveal_strlit("\\b");
            assert("\\b"@ =~= escaped_char(c));
        }
    } else if c == '\u{c}' {
        out.append("\\f");
        proof {
            reveal_strlit("\\f");
            assert("\\f"@ =~= escaped_char(c));
        }
    } else {
        let code: u32 = c as u32;
        if code < 32 {
            out.append("\\u00");
            let hi = hex_digit_exec(code / 16);
            let lo = hex_digit_exec(code % 16);
            push_char(out, hi);
            push_char(out, lo);
            proof {
                reveal_strlit("\\u00");
                assert(out@ =~= old(out)@ + escaped_char(c));
            }
        } else {
            push_char(out, c);
            proof {
                assert(out@ =~= old(out)@ + escaped_char(c));
            }
        }
    }
}

fn append_escaped(out: &mut String, s: &str)
    ensures
        final(out)@ == old(out)@ + escaped(s@),
{
    let n = s.unicode_len();
    let mut i: usize = 0;
    proof {
        assert(out@ =~= old(out)@ + escaped(s@.take(0)));
    }
    while i < n
        invariant
            n == s@.len(),
            i <= n,
            out@ == old(out)@ + escaped(s@.take(i as int)),
        decreases n - i,
    {
        let c = s.get_char(i);
        push_escaped_char(out, c);
        proof {
            assert(s@.take(i as int + 1).drop_last() =~= s@.take(i as int));
            assert(s@.take(i as int + 1).last() == c);
            assert(out@ =~= old(out)@ + escaped(s@.take(i as int + 1)));
        }
        i += 1;
    }
    proof {
        assert(s@.take(n as int) =~= s@);
    }
}

/// Builds the JSON string literal for a text.
pub fn json_string(s: &str) -> (r: String)
    ensures
        r@ == spec_json_string(s@),
{
    let mut r = String::new();
    push_char(&mut r, '"');
    append_escaped(&mut r, s);
    push_char(&mut r, '"');
    proof {
        assert(r@ =~= spec_json_string(s@));
    }
    r
}

/// Builds the JSON object for one note text.
pub fn note_json(text: &str) -> (r: String)
    ensures
        r@ == spec_note_json(text@),
{
    let mut r = String::from_str("{\"text\":");
    let q = json_string(text);
    r.append(q.as_str());
    r.append("}");
    proof {
        assert(r@ =~= spec_note_json(text@));
    }
    r
}

/// Builds the JSON array for a listing, the notes' objects in order.
pub fn notes_json(notes: &Vec<Note>) -> (r: String)
    ensures
        r@ == spec_notes_json(note_texts(notes@)),
{
    let ghost ts = note_texts(notes@);
    let mut r = String::from_str("[");
    let mut i: usize = 0;
    proof {
        reveal_strlit("[");
        assert(r@ =~= seq!['['] + spec_notes_json_inner(ts.take(0)));
    }
    while i < notes.len()
        invariant
            ts == note_texts(notes@),
            ts.len() == notes@.len(),
            i <= notes@.len(),
            r@ == seq!['['] + spec_notes_json_inner(ts.take(i as int)),
        decreases notes@.len() - i,
    {
        if i > 0 {
            r.append(",");
        }
        let nj = note_json(notes[i].text.as_str());
        r.append(nj.as_str());
        proof {
            reveal_strlit(",");
            assert(ts.take(i as int + 1).drop_last() =~= ts.take(i as int));
            assert(ts.take(i as int + 1).last() == notes@[i as int].text@);
            assert(r@ =~= seq!['['] + spec_notes_json_inner(ts.take(i as int + 1)));
        }
        i += 1;
    }
    r.append("]");
    proof {
        reveal_strlit("]");
        assert(ts.take(notes@.len() as int) =~= ts);
        assert(r@ =~= spec_notes_json(ts));
    }
    r
}

} // verus!
