//! Exact JSON texts for the wire replies and the device info endpoints. The
//! shapes are fixed, so each builder states the produced text to the
//! character.

use vstd::prelude::*;
use crate::strutil::{dec_chars, u64_to_string};

verus! {

/// Characters that can stand in a JSON string literal without escaping.
pub open spec fn json_clean(s: Seq<char>) -> bool {
    forall|i: int| 0 <= i < s.len() ==> s[i] != '"' && s[i] != '\\' && s[i] as u32 >= 32
}

/// Tests that a string needs no JSON escaping.
pub fn is_json_clean(s: &str) -> (r: bool)
    ensures
        r == json_clean(s@),
{
    let len = s.unicode_len();
    let mut i: usize = 0;
    while i < len
        invariant
            0 <= i <= len,
            len == s@.len(),
            forall|m: int| 0 <= m < i ==> s@[m] != '"' && s@[m] != '\\' && s@[m] as u32 >= 32,
        decreases len - i,
    {
        let c = s.get_char(i);
        if c == '"' || c == '\\' || (c as u32) < 32 {
            return false;
        }
        i = i + 1;
    }
    true
}

/// Cleanliness survives concatenation.
pub proof fn lemma_json_clean_concat(a: Seq<char>, b: Seq<char>)
    requires
        json_clean(a),
        json_clean(b),
    ensures
        json_clean(a + b),
{
    assert forall|i: int| 0 <= i < (a + b).len() implies (a + b)[i] != '"' && (a + b)[i] != '\\'
        && (a + b)[i] as u32 >= 32 by {
        if i < a.len() {
            assert((a + b)[i] == a[i]);
        } else {
            assert((a + b)[i] == b[i - a.len()]);
        }
    }
}

/// The status reply text of the screen data plane:
/// `{"status":<status>,"msg":"<msg>"}`.
pub open spec fn spec_status_reply(status: nat, msg: Seq<char>) -> Seq<char> {
    "{\"status\":"@ + dec_chars(status) + ",\"msg\":\""@ + msg + "\"}"@
}

/// Builds the status reply sent on the screen REP socket after each frame.
pub fn status_reply(status: u64, msg: &str) -> (r: String)
    requires
        json_clean(msg@),
    ensures
        r@ == spec_status_reply(status as nat, msg@),
{
    let mut r = String::new();
    r.append("{\"status\":");
    let num = u64_to_string(status);
    r.append(num.as_str());
    r.append(",\"msg\":\"");
    r.append(msg);
    r.append("\"}");
    proof {
        assert(r@ =~= spec_status_reply(status as nat, msg@));
    }
    r
}

/// A digit run followed by a non-digit is read off a text unambiguously:
/// two such splits of one text agree.
proof fn lemma_digit_run_unique(d1: Seq<char>, r1: Seq<char>, d2: Seq<char>, r2: Seq<char>)
    requires
        crate::strutil::all_digits(d1),
        crate::strutil::all_digits(d2),
        r1.len() > 0 && !crate::strutil::is_digit_char(r1[0]),
        r2.len() > 0 && !crate::strutil::is_digit_char(r2[0]),
        d1 + r1 == d2 + r2,
    ensures
        d1 == d2,
        r1 == r2,
{
    assert(d1.len() == d2.len()) by {
        if d1.len() < d2.len() {
            assert((d1 + r1)[d1.len() as int] == r1[0]);
            assert((d2 + r2)[d1.len() as int] == d2[d1.len() as int]);
            assert(crate::strutil::is_digit_char(d2[d1.len() as int]));
            assert(false);
        }
        if d2.len() < d1.len() {
            assert((d2 + r2)[d2.len() as int] == r2[0]);
            assert((d1 + r1)[d2.len() as int] == d1[d2.len() as int]);
            assert(crate::strutil::is_digit_char(d1[d2.len() as int]));
            assert(false);
        }
    };
    assert forall|i: int| 0 <= i < d1.len() implies d1[i] == d2[i] by {
        assert((d1 + r1)[i] == d1[i]);
        assert((d2 + r2)[i] == d2[i]);
    }
    assert(d1 =~= d2);
    assert((d1 + r1).len() == (d2 + r2).len());
    assert((d1 + r1).len() == d1.len() + r1.len());
    assert((d2 + r2).len() == d2.len() + r2.len());
    assert(r1.len() == r2.len());
    assert forall|i: int| 0 <= i < r1.len() implies r1[i] == r2[i] by {
        assert((d1 + r1)[d1.len() + i] == r1[i]);
        assert((d2 + r2)[d2.len() + i] == r2[i]);
    }
    assert(r1 =~= r2);
}

/// A status reply is unambiguous: the text determines the status and the
/// message, so the reader of the data plane can always recover what the
/// screen side worded.
pub proof fn lemma_status_reply_injective(st1: nat, m1: Seq<char>, st2: nat, m2: Seq<char>)
    requires
        json_clean(m1),
        json_clean(m2),
        spec_status_reply(st1, m1) == spec_status_reply(st2, m2),
    ensures
        st1 == st2,
        m1 == m2,
{
    reveal_strlit("{\"status\":");
    reveal_strlit(",\"msg\":\"");
    reveal_strlit("\"}");
    crate::strutil::lemma_dec_chars_all_digits(st1);
    crate::strutil::lemma_dec_chars_all_digits(st2);
    crate::strutil::lemma_dec_chars_value(st1);
    crate::strutil::lemma_dec_chars_value(st2);
    let p = "{\"status\":"@;
    let mid = ",\"msg\":\""@;
    let end = "\"}"@;
    let d1 = crate::strutil::dec_chars(st1);
    let d2 = crate::strutil::dec_chars(st2);
    let u1 = d1 + (mid + m1 + end);
    let u2 = d2 + (mid + m2 + end);
    let t1 = spec_status_reply(st1, m1);
    let t2 = spec_status_reply(st2, m2);
    assert(t1 =~= p + u1);
    assert(t2 =~= p + u2);
    assert(u1.len() == u2.len());
    assert forall|i: int| 0 <= i < u1.len() implies u1[i] == u2[i] by {
        assert((p + u1)[p.len() + i] == u1[i]);
        assert((p + u2)[p.len() + i] == u2[i]);
    }
    assert(u1 =~= u2);
    let r1 = mid + m1 + end;
    let r2 = mid + m2 + end;
    assert(r1[0] == ',' && r2[0] == ',');
    lemma_digit_run_unique(d1, r1, d2, r2);
    assert(st1 == st2);
    assert(m1.len() == m2.len());
    assert forall|i: int| 0 <= i < m1.len() implies m1[i] == m2[i] by {
        assert(r1[mid.len() + i] == m1[i]);
        assert(r2[mid.len() + i] == m2[i]);
    }
    assert(m1 =~= m2);
}

/// A JSON string literal: the text in quotes.
pub open spec fn spec_json_string(s: Seq<char>) -> Seq<char> {
    seq!['"'] + s + seq!['"']
}

/// A hexadecimal digit character, lowercase.
pub open spec fn hex_digit_char(d: nat) -> char {
    if d == 0 {
        '0'
    } else if d == 1 {
        '1'
    } else if d == 2 {
        '2'
    } else if d == 3 {
        '3'
    } else if d == 4 {
        '4'
    } else if d == 5 {
        '5'
    } else if d == 6 {
        '6'
    } else if d == 7 {
        '7'
    } else if d == 8 {
        '8'
    } else if d == 9 {
        '9'
    } else if d == 10 {
        'a'
    } else if d == 11 {
        'b'
    } else if d == 12 {
        'c'
    } else if d == 13 {
        'd'
    } else if d == 14 {
        'e'
    } else {
        'f'
    }
}

/// One character as JSON string escaping renders it: quote and backslash
/// escaped, the named control characters shortened, the other controls as
/// `\u00xx`, everything else itself.
pub open spec fn spec_escape_char(c: char) -> Seq<char> {
    if c == '"' {
        seq!['\\', '"']
    } else if c == '\\' {
        seq!['\\', '\\']
    } else if c == '\u{8}' {
        seq!['\\', 'b']
    } else if c == '\u{9}' {
        seq!['\\', 't']
    } else if c == '\u{A}' {
        seq!['\\', 'n']
    } else if c == '\u{C}' {
        seq!['\\', 'f']
    } else if c == '\u{D}' {
        seq!['\\', 'r']
    } else if (c as u32) < 32 {
        seq!['\\', 'u', '0', '0', hex_digit_char(((c as u32) / 16) as nat), hex_digit_char(
            ((c as u32) % 16) as nat,
        )]
    } else {
        seq![c]
    }
}

/// A text as JSON string escaping renders it, character by character.
pub open spec fn spec_json_escaped(s: Seq<char>) -> Seq<char>
    decreases s.len(),
{
    if s.len() == 0 {
        Seq::empty()
    } else {
        spec_json_escaped(s.drop_last()) + spec_escape_char(s.last())
    }
}

/// Escaping changes nothing on a text that needs no escaping, so every
/// clean text serves as its own escaped form.
pub proof fn lemma_escaped_clean_identity(s: Seq<char>)
    requires
        json_clean(s),
    ensures
        spec_json_escaped(s) == s,
    decreases s.len(),
{
    if s.len() > 0 {
        assert(json_clean(s.drop_last()));
        lemma_escaped_clean_identity(s.drop_last());
        assert(s.last() as u32 >= 32);
        assert(spec_escape_char(s.last()) =~= seq![s.last()]);
        assert(spec_json_escaped(s) =~= s);
    } else {
        assert(spec_json_escaped(s) =~= s);
    }
}

/// Renders one hexadecimal digit.
fn hex_digit_str(d: u32) -> (r: &'static str)
    requires
        d < 16,
    ensures
        r@ =~= seq![hex_digit_char(d as nat)],
{
    let r = if d == 0 {
        "0"
    } else if d == 1 {
        "1"
    } else if d == 2 {
        "2"
    } else if d == 3 {
        "3"
    } else if d == 4 {
        "4"
    } else if d == 5 {
        "5"
    } else if d == 6 {
        "6"
    } else if d == 7 {
        "7"
    } else if d == 8 {
        "8"
    } else if d == 9 {
        "9"
    } else if d == 10 {
        "a"
    } else if d == 11 {
        "b"
    } else if d == 12 {
        "c"
    } else if d == 13 {
        "d"
    } else if d == 14 {
        "e"
    } else {
        "f"
    };
    proof {
        reveal_strlit("0");
        reveal_strlit("1");
        reveal_strlit("2");
        reveal_strlit("3");
        reveal_strlit("4");
        reveal_strlit("5");
        reveal_strlit("6");
        reveal_strlit("7");
        reveal_strlit("8");
        reveal_strlit("9");
        reveal_strlit("a");
        reveal_strlit("b");
        reveal_strlit("c");
        reveal_strlit("d");
        reveal_strlit("e");
        reveal_strlit("f");
    }
    r
}

/// Appends `s` with JSON string escaping, so any text can stand inside a
/// quoted JSON string.
pub fn append_json_escaped(out: &mut String, s: &str)
    ensures
        final(out)@ == old(out)@ + spec_json_escaped(s@),
{
    let len = s.unicode_len();
    let mut i: usize = 0;
    while i < len
        invariant
            0 <= i <= len,
            len == s@.len(),
            out@ == old(out)@ + spec_json_escaped(s@.take(i as int)),
        decreases len - i,
    {
        let c = s.get_char(i);
        if c == '"' {
            out.append("\\\"");
            proof {
                reveal_strlit("\\\"");
            }
        } else if c == '\\' {
            out.append("\\\\");
            proof {
                reveal_strlit("\\\\");
            }
        } else if c == '\u{8}' {
            out.append("\\b");
            proof {
                reveal_strlit("\\b");
            }
        } else if c == '\u{9}' {
            out.append("\\t");
            proof {
                reveal_strlit("\\t");
            }
        } else if c == '\u{A}' {
            out.append("\\n");
            proof {
                reveal_strlit("\\n");
            }
        } else if c == '\u{C}' {
            out.append("\\f");
            proof {
                reveal_strlit("\\f");
            }
        } else if c == '\u{D}' {
            out.append("\\r");
            proof {
                reveal_strlit("\\r");
            }
        } else if (c as u32) < 32 {
            out.append("\\u00");
            let hi = hex_digit_str((c as u32) / 16);
            out.append(hi);
            let lo = hex_digit_str((c as u32) % 16);
            out.append(lo);
            proof {
                reveal_strlit("\\u00");
            }
        } else {
            let one = s.substring_char(i, i + 1);
            out.append(one);
            proof {
                assert(one@ =~= seq![s@[i as int]]);
            }
        }
        proof {
            assert(s@.take(i + 1).drop_last() =~= s@.take(i as int));
            assert(s@.take(i + 1).last() == s@[i as int]);
            assert(out@ =~= old(out)@ + spec_json_escaped(s@.take(i + 1)));
        }
        i = i + 1;
    }
    proof {
        assert(s@.take(len as int) =~= s@);
    }
}

/// Appends `s` as a quoted JSON string.
pub fn append_json_string(out: &mut String, s: &str)
    requires
        json_clean(s@),
    ensures
        final(out)@ == old(out)@ + spec_json_string(s@),
{
    out.append("\"");
    out.append(s);
    out.append("\"");
    proof {
        reveal_strlit("\"");
        assert(out@ =~= old(out)@ + spec_json_string(s@));
    }
}

} // verus!
