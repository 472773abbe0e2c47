//! Small verified helpers on strings and decimal numbers that the rest of the
//! library shares: decimal rendering and parsing, string equality, and
//! extraction of the port from a socket endpoint string.

use vstd::prelude::*;

verus! {

/// The decimal digit characters of `n`, most significant first.
pub open spec fn dec_chars(n: nat) -> Seq<char>
    decreases n,
{
    if n < 10 {
        seq![digit_char(n)]
    } else {
        dec_chars(n / 10).push(digit_char(n % 10))
    }
}

/// The character for a single decimal digit.
pub open spec fn digit_char(d: nat) -> char {
    if d == 0 {
        '0'
    } else if d == 1 {
        '1'
    } else if d == 2 {
        '2'
    } else if d == 3 {
        '3'
    } else if d == 4 {
        '4'
    } else if d == 5 {
        '5'
    } else if d == 6 {
        '6'
    } else if d == 7 {
        '7'
    } else if d == 8 {
        '8'
    } else {
        '9'
    }
}

/// Renders one digit as a string slice.
fn digit_str(d: u64) -> (r: &'static str)
    requires
        d < 10,
    ensures
        r@ =~= seq![digit_char(d as nat)],
{
    let r = if d == 0 {
        "0"
    } else if d == 1 {
        "1"
    } else if d == 2 {
        "2"
    } else if d == 3 {
        "3"
    } else if d == 4 {
        "4"
    } else if d == 5 {
        "5"
    } else if d == 6 {
        "6"
    } else if d == 7 {
        "7"
    } else if d == 8 {
        "8"
    } else {
        "9"
    };
    proof {
        reveal_strlit("0");
        reveal_strlit("1");
        reveal_strlit("2");
        reveal_strlit("3");
        reveal_strlit("4");
        reveal_strlit("5");
        reveal_strlit("6");
        reveal_strlit("7");
        reveal_strlit("8");
        reveal_strlit("9");
    }
    r
}

/// Renders `n` in decimal, without padding or sign.
pub fn u64_to_string(n: u64) -> (r: String)
    ensures
        r@ =~= dec_chars(n as nat),
    decreases n,
{
    if n < 10 {
        let mut s = String::new();
        s.append(digit_str(n));
        proof {
            assert(s@ =~= dec_chars(n as nat));
        }
        s
    } else {
        let mut s = u64_to_string(n / 10);
        s.append(digit_str(n % 10));
        proof {
            assert(s@ =~= dec_chars(n as nat));
        }
        s
    }
}

/// Decimal rendering yields digit characters only.
pub proof fn lemma_dec_chars_all_digits(n: nat)
    ensures
        all_digits(dec_chars(n)),
    decreases n,
{
    if n < 10 {
    } else {
        lemma_dec_chars_all_digits(n / 10);
        assert forall|i: int| 0 <= i < dec_chars(n).len() implies is_digit_char(
            #[trigger] dec_chars(n)[i],
        ) by {
            if i < dec_chars(n / 10).len() {
                assert(dec_chars(n)[i] == dec_chars(n / 10)[i]);
            }
        }
    }
}

/// Decimal rendering is read back by decimal evaluation: rendering and
/// parsing are inverse.
pub proof fn lemma_dec_chars_value(n: nat)
    ensures
        dec_val(dec_chars(n)) == n,
    decreases n,
{
    if n < 10 {
        assert(digit_val(digit_char(n)) == n);
        assert(dec_chars(n).drop_last() =~= Seq::<char>::empty());
        assert(dec_chars(n).last() == digit_char(n));
        assert(dec_val(dec_chars(n)) == dec_val(Seq::<char>::empty()) * 10 + digit_val(
            digit_char(n),
        ));
    } else {
        lemma_dec_chars_value(n / 10);
        assert(digit_val(digit_char(n % 10)) == n % 10);
        assert(dec_chars(n).drop_last() =~= dec_chars(n / 10));
        assert(dec_chars(n).last() == digit_char(n % 10));
        assert(dec_val(dec_chars(n)) == dec_val(dec_chars(n / 10)) * 10 + digit_val(
            digit_char(n % 10),
        ));
    }
}

/// Whitespace as the parsers below skip it.
pub open spec fn is_ws_char(c: char) -> bool {
    c == ' ' || c == '\n' || c == '\t' || c == '\r'
}

/// Decimal digit test.
pub open spec fn is_digit_char(c: char) -> bool {
    c == '0' || c == '1' || c == '2' || c == '3' || c == '4' || c == '5' || c == '6' || c == '7'
        || c == '8' || c == '9'
}

/// Numeric value of a decimal digit character.
pub open spec fn digit_val(c: char) -> nat {
    if c == '0' {
        0
    } else if c == '1' {
        1
    } else if c == '2' {
        2
    } else if c == '3' {
        3
    } else if c == '4' {
        4
    } else if c == '5' {
        5
    } else if c == '6' {
        6
    } else if c == '7' {
        7
    } else if c == '8' {
        8
    } else {
        9
    }
}

/// All characters are decimal digits.
pub open spec fn all_digits(s: Seq<char>) -> bool {
    forall|i: int| 0 <= i < s.len() ==> is_digit_char(s[i])
}

/// The value of a digit sequence read in base ten.
pub open spec fn dec_val(s: Seq<char>) -> nat
    decreases s.len(),
{
    if s.len() == 0 {
        0
    } else {
        dec_val(s.drop_last()) * 10 + digit_val(s.last())
    }
}

/// The sequence with leading whitespace removed.
pub open spec fn trim_front(s: Seq<char>) -> Seq<char>
    decreases s.len(),
{
    if s.len() > 0 && is_ws_char(s.first()) {
        trim_front(s.drop_first())
    } else {
        s
    }
}

/// The sequence with trailing whitespace removed.
pub open spec fn trim_back(s: Seq<char>) -> Seq<char>
    decreases s.len(),
{
    if s.len() > 0 && is_ws_char(s.last()) {
        trim_back(s.drop_last())
    } else {
        s
    }
}

/// The sequence with whitespace removed at both ends.
pub open spec fn trimmed(s: Seq<char>) -> Seq<char> {
    trim_back(trim_front(s))
}

/// What parsing a trimmed decimal string yields, before any width bound.
pub open spec fn parsed_dec(s: Seq<char>) -> Option<nat> {
    let t = trimmed(s);
    if t.len() > 0 && all_digits(t) {
        Some(dec_val(t))
    } else {
        None
    }
}

proof fn lemma_trim_front_skip(s: Seq<char>, i: int)
    requires
        0 <= i <= s.len(),
        forall|m: int| 0 <= m < i ==> is_ws_char(s[m]),
        i == s.len() || !is_ws_char(s[i]),
    ensures
        trim_front(s) =~= s.skip(i),
    decreases i,
{
    if i == 0 {
        if s.len() > 0 && is_ws_char(s.first()) {
            assert(false);
        }
        assert(trim_front(s) =~= s.skip(0));
    } else {
        assert(is_ws_char(s.first()));
        let t = s.drop_first();
        assert(t =~= s.skip(1));
        assert(forall|m: int| 0 <= m < i - 1 ==> is_ws_char(t[m]));
        lemma_trim_front_skip(t, i - 1);
        assert(t.skip(i - 1) =~= s.skip(i));
    }
}

proof fn lemma_trim_back_take(s: Seq<char>, j: int)
    requires
        0 <= j <= s.len(),
        forall|m: int| j <= m < s.len() ==> is_ws_char(s[m]),
        j == 0 || !is_ws_char(s[j - 1]),
    ensures
        trim_back(s) =~= s.take(j),
    decreases s.len() - j,
{
    if j == s.len() {
        if s.len() > 0 && is_ws_char(s.last()) {
            assert(false);
        }
        assert(trim_back(s) =~= s.take(j));
    } else {
        assert(is_ws_char(s.last()));
        let t = s.drop_last();
        lemma_trim_back_take(t, j);
        assert(t.take(j) =~= s.take(j));
    }
}

proof fn lemma_dec_val_step(s: Seq<char>, k: int)
    requires
        0 <= k < s.len(),
    ensures
        dec_val(s.take(k + 1)) == dec_val(s.take(k)) * 10 + digit_val(s[k]),
{
    let t = s.take(k + 1);
    assert(t.drop_last() =~= s.take(k));
    assert(t.last() == s[k]);
}

proof fn lemma_dec_val_prefix_le(s: Seq<char>, k: int)
    requires
        0 <= k <= s.len(),
    ensures
        dec_val(s.take(k)) <= dec_val(s),
    decreases s.len() - k,
{
    if k == s.len() {
        assert(s.take(k) =~= s);
    } else {
        lemma_dec_val_step(s, k);
        lemma_dec_val_prefix_le(s, k + 1);
    }
}

/// Tests a character for the whitespace the parsers skip.
fn is_ws(c: char) -> (r: bool)
    ensures
        r == is_ws_char(c),
{
    c == ' ' || c == '\n' || c == '\t' || c == '\r'
}

/// The numeric value of a digit character, or 10 for anything else.
fn digit_of(c: char) -> (r: u64)
    ensures
        is_digit_char(c) ==> r == digit_val(c) && r < 10,
        !is_digit_char(c) ==> r == 10,
{
    if c == '0' {
        0
    } else if c == '1' {
        1
    } else if c == '2' {
        2
    } else if c == '3' {
        3
    } else if c == '4' {
        4
    } else if c == '5' {
        5
    } else if c == '6' {
        6
    } else if c == '7' {
        7
    } else if c == '8' {
        8
    } else if c == '9' {
        9
    } else {
        10
    }
}

/// Parses an unsigned decimal number, ignoring surrounding whitespace, as the
/// sysfs attribute readers do. Fails on an empty or non-numeric string and on
/// a value that does not fit in a `u64`.
pub fn parse_u64(s: &str) -> (r: Option<u64>)
    ensures
        match r {
            Some(v) => parsed_dec(s@) == Some(v as nat),
            None => parsed_dec(s@) is None || parsed_dec(s@)->Some_0 > u64::MAX,
        },
{
    let len = s.unicode_len();
    let mut start: usize = 0;
    while start < len && is_ws(s.get_char(start))
        invariant
            0 <= start <= len,
            len == s@.len(),
            forall|m: int| 0 <= m < start ==> is_ws_char(s@[m]),
        decreases len - start,
    {
        start = start + 1;
    }
    proof {
        lemma_trim_front_skip(s@, start as int);
    }
    let ghost f = s@.skip(start as int);
    let mut end: usize = len;
    while end > start && is_ws(s.get_char(end - 1))
        invariant
            start <= end <= len,
            len == s@.len(),
            trim_front(s@) == f,
            f =~= s@.skip(start as int),
            forall|m: int| end <= m < len ==> is_ws_char(s@[m]),
        decreases end,
    {
        end = end - 1;
    }
    proof {
        assert(forall|m: int| end - start <= m < f.len() ==> is_ws_char(f[m]));
        lemma_trim_back_take(f, end - start);
    }
    let ghost t = trimmed(s@);
    proof {
        assert(t =~= s@.subrange(start as int, end as int));
    }
    if start == end {
        return None;
    }
    let mut v: u64 = 0;
    let mut k: usize = start;
    while k < end
        invariant
            start <= k <= end <= len,
            len == s@.len(),
            t == trimmed(s@),
            t =~= s@.subrange(start as int, end as int),
            forall|m: int| start <= m < k ==> is_digit_char(s@[m]),
            v as nat == dec_val(t.take(k - start)),
        decreases end - k,
    {
        let c = s.get_char(k);
        let d = digit_of(c);
        if d >= 10 {
            proof {
                assert(t[k - start] == s@[k as int]);
                assert(!is_digit_char(t[k - start]));
                assert(!all_digits(t));
                assert(parsed_dec(s@) is None);
            }
            return None;
        }
        proof {
            lemma_dec_val_step(t, k - start);
        }
        if v > u64::MAX / 10 || (v == u64::MAX / 10 && d > u64::MAX % 10) {
            proof {
                lemma_dec_val_prefix_le(t, k - start + 1);
                assert(dec_val(t.take(k - start + 1)) == (v as nat) * 10 + d as nat);
                assert((v as nat) * 10 + d as nat > u64::MAX);
                assert(dec_val(t) > u64::MAX);
                if parsed_dec(s@) is Some {
                    assert(parsed_dec(s@)->Some_0 > u64::MAX);
                }
            }
            return None;
        }
        v = v * 10 + d;
        k = k + 1;
    }
    proof {
        assert(t.take(end - start) =~= t);
    }
    Some(v)
}

/// `parse_u64` narrowed to `u32`, as the sysfs readers store their values.
pub fn parse_u32(s: &str) -> (r: Option<u32>)
    ensures
        match r {
            Some(v) => parsed_dec(s@) == Some(v as nat),
            None => parsed_dec(s@) is None || parsed_dec(s@)->Some_0 > u32::MAX,
        },
{
    match parse_u64(s) {
        Some(v) => {
            if v <= u32::MAX as u64 {
                Some(v as u32)
            } else {
                None
            }
        },
        None => None,
    }
}

/// The bounds of the string with surrounding whitespace dropped.
pub fn trim_bounds(s: &str) -> (r: (usize, usize))
    ensures
        r.0 <= r.1 <= s@.len(),
        trimmed(s@) =~= s@.subrange(r.0 as int, r.1 as int),
{
    let len = s.unicode_len();
    let mut start: usize = 0;
    while start < len && is_ws(s.get_char(start))
        invariant
            0 <= start <= len,
            len == s@.len(),
            forall|m: int| 0 <= m < start ==> is_ws_char(s@[m]),
        decreases len - start,
    {
        start = start + 1;
    }
    proof {
        lemma_trim_front_skip(s@, start as int);
    }
    let ghost f = s@.skip(start as int);
    let mut end: usize = len;
    while end > start && is_ws(s.get_char(end - 1))
        invariant
            start <= end <= len,
            len == s@.len(),
            trim_front(s@) == f,
            f =~= s@.skip(start as int),
            forall|m: int| end <= m < len ==> is_ws_char(s@[m]),
        decreases end,
    {
        end = end - 1;
    }
    proof {
        assert(forall|m: int| end - start <= m < f.len() ==> is_ws_char(f[m]));
        lemma_trim_back_take(f, end - start);
        assert(trimmed(s@) =~= s@.subrange(start as int, end as int));
    }
    (start, end)
}

/// Parses the characters of `s` between `from` and `to` as one unsigned
/// decimal run: no sign, no spaces, at least one digit.
pub fn parse_digits_range(s: &str, from: usize, to: usize) -> (r: Option<u64>)
    requires
        from <= to <= s@.len(),
    ensures
        match r {
            Some(v) => {
                let d = s@.subrange(from as int, to as int);
                d.len() > 0 && all_digits(d) && v as nat == dec_val(d)
            },
            None => {
                let d = s@.subrange(from as int, to as int);
                !(d.len() > 0 && all_digits(d) && dec_val(d) <= u64::MAX)
            },
        },
{
    let ghost d = s@.subrange(from as int, to as int);
    if from == to {
        return None;
    }
    let mut v: u64 = 0;
    let mut k: usize = from;
    while k < to
        invariant
            from <= k <= to <= s@.len(),
            d == s@.subrange(from as int, to as int),
            forall|m: int| from <= m < k ==> is_digit_char(s@[m]),
            v as nat == dec_val(d.take(k - from)),
        decreases to - k,
    {
        let c = s.get_char(k);
        let dg = digit_of(c);
        if dg >= 10 {
            proof {
                assert(d[k - from] == s@[k as int]);
                assert(!all_digits(d));
            }
            return None;
        }
        proof {
            lemma_dec_val_step(d, k - from);
        }
        if v > u64::MAX / 10 || (v == u64::MAX / 10 && dg > u64::MAX % 10) {
            proof {
                lemma_dec_val_prefix_le(d, k - from + 1);
                assert(dec_val(d.take(k - from + 1)) == (v as nat) * 10 + dg as nat);
                assert(dec_val(d) > u64::MAX);
            }
            return None;
        }
        v = v * 10 + dg;
        k = k + 1;
    }
    proof {
        assert(d.take(to - from) =~= d);
    }
    Some(v)
}

/// The index of the first occurrence of `c`, if any.
pub open spec fn first_index_of(s: Seq<char>, c: char) -> Option<int>
    decreases s.len(),
{
    if s.len() == 0 {
        None
    } else if s.first() == c {
        Some(0)
    } else {
        match first_index_of(s.drop_first(), c) {
            Some(i) => Some(i + 1),
            None => None,
        }
    }
}

pub proof fn lemma_first_index_of_at(s: Seq<char>, c: char, i: int)
    requires
        0 <= i < s.len(),
        s[i] == c,
        forall|m: int| 0 <= m < i ==> s[m] != c,
    ensures
        first_index_of(s, c) == Some(i),
    decreases i,
{
    if i == 0 {
    } else {
        let t = s.drop_first();
        assert(forall|m: int| 0 <= m < i - 1 ==> t[m] != c);
        lemma_first_index_of_at(t, c, i - 1);
    }
}

pub proof fn lemma_first_index_of_none(s: Seq<char>, c: char)
    requires
        forall|m: int| 0 <= m < s.len() ==> s[m] != c,
    ensures
        first_index_of(s, c) is None,
    decreases s.len(),
{
    if s.len() > 0 {
        lemma_first_index_of_none(s.drop_first(), c);
    }
}

/// True when the two strings hold the same characters.
pub fn str_eq(a: &str, b: &str) -> (r: bool)
    ensures
        r <==> a@ == b@,
{
    let alen = a.unicode_len();
    let blen = b.unicode_len();
    if alen != blen {
        return false;
    }
    let mut i: usize = 0;
    while i < alen
        invariant
            0 <= i <= alen,
            alen == a@.len(),
            alen == b@.len(),
            forall|m: int| 0 <= m < i ==> a@[m] == b@[m],
        decreases alen - i,
    {
        if a.get_char(i) != b.get_char(i) {
            return false;
        }
        i = i + 1;
    }
    proof {
        assert(a@ =~= b@);
    }
    true
}

/// The index of the last occurrence of `c`, if any.
pub open spec fn last_index_of(s: Seq<char>, c: char) -> Option<int>
    decreases s.len(),
{
    if s.len() == 0 {
        None
    } else if s.last() == c {
        Some(s.len() - 1)
    } else {
        last_index_of(s.drop_last(), c)
    }
}

proof fn lemma_last_index_of_at(s: Seq<char>, i: int)
    requires
        0 <= i < s.len(),
        s[i] == ':',
        forall|m: int| i < m < s.len() ==> s[m] != ':',
    ensures
        last_index_of(s, ':') == Some(i),
    decreases s.len(),
{
    if i == s.len() - 1 {
    } else {
        lemma_last_index_of_at(s.drop_last(), i);
    }
}

proof fn lemma_last_index_of_none(s: Seq<char>)
    requires
        forall|m: int| 0 <= m < s.len() ==> s[m] != ':',
    ensures
        last_index_of(s, ':') is None,
    decreases s.len(),
{
    if s.len() > 0 {
        lemma_last_index_of_none(s.drop_last());
    }
}

/// What the endpoint port parse yields: the digits after the last colon, when
/// there is a colon, the digits are non-empty, and the value fits a `u16`.
pub open spec fn parsed_endpoint_port(s: Seq<char>) -> Option<u16> {
    match last_index_of(s, ':') {
        Some(i) => {
            let d = s.skip(i + 1);
            if d.len() > 0 && all_digits(d) && dec_val(d) <= u16::MAX {
                Some(dec_val(d) as u16)
            } else {
                None
            }
        },
        None => None,
    }
}

/// Reads the OS-assigned port from a bound endpoint string such as
/// `tcp://127.0.0.1:54321`: the decimal digits after the last colon.
pub fn parse_endpoint_port(s: &str) -> (r: Option<u16>)
    ensures
        r == parsed_endpoint_port(s@),
{
    let len = s.unicode_len();
    let mut i: usize = len;
    while i > 0 && s.get_char(i - 1) != ':'
        invariant
            0 <= i <= len,
            len == s@.len(),
            forall|m: int| i <= m < len ==> s@[m] != ':',
        decreases i,
    {
        i = i - 1;
    }
    if i == 0 {
        proof {
            lemma_last_index_of_none(s@);
        }
        return None;
    }
    proof {
        lemma_last_index_of_at(s@, i - 1);
    }
    let ghost d = s@.skip(i as int);
    if i == len {
        return None;
    }
    let mut v: u64 = 0;
    let mut k: usize = i;
    while k < len
        invariant
            1 <= i <= k <= len,
            len == s@.len(),
            last_index_of(s@, ':') == Some(i as int - 1),
            d =~= s@.skip(i as int),
            forall|m: int| i <= m < k ==> is_digit_char(s@[m]),
            v as nat == dec_val(d.take(k - i)),
            v <= u64::MAX / 2,
        decreases len - k,
    {
        let c = s.get_char(k);
        let dg = digit_of(c);
        if dg >= 10 {
            proof {
                assert(d[k - i] == s@[k as int]);
                assert(!all_digits(d));
            }
            return None;
        }
        proof {
            lemma_dec_val_step(d, k - i);
        }
        if v > 65535 {
            proof {
                lemma_dec_val_prefix_le(d, k - i + 1);
                assert(dec_val(d.take(k - i + 1)) == (v as nat) * 10 + dg as nat);
                assert(dec_val(d) > u16::MAX);
            }
            return None;
        }
        v = v * 10 + dg;
        k = k + 1;
    }
    proof {
        assert(d.take(len - i) =~= d);
    }
    if v > u16::MAX as u64 {
        proof {
            lemma_dec_val_prefix_le(d, d.len() as int);
        }
        return None;
    }
    Some(v as u16)
}

} // verus!
