//! Character-level text operations on the views of `str` and `String`.

use vstd::prelude::*;
use vstd::string::*;

verus! {

/// Appends one char to a `String`.
/// Calls `String::push`, which its documentation describes as appending the
/// given char to the end of the string; the contract claims exactly that.
#[verifier::external_body]
pub(crate) fn push_char(s: &mut String, c: char)
    ensures
        final(s)@ == old(s)@.push(c),
{
    s.push(c);
}

/// The characters of `s`, in order.
pub fn chars_of(s: &str) -> (v: Vec<char>)
    ensures
        v@ == s@,
{
    let n = s.unicode_len();
    let mut v: Vec<char> = Vec::new();
    let mut i: usize = 0;
    while i < n
        invariant
            i <= n,
            n == s@.len(),
            v@ == s@.subrange(0, i as int),
        decreases n - i,
    {
        v.push(s.get_char(i));
        i += 1;
        assert(v@ == s@.subrange(0, i as int));
    }
    v
}

/// A `String` holding exactly the given characters.
pub fn string_of(cs: &[char]) -> (s: String)
    ensures
        s@ == cs@,
{
    let mut s = String::new();
    let mut i: usize = 0;
    while i < cs.len()
        invariant
            i <= cs@.len(),
            s@ == cs@.subrange(0, i as int),
        decreases cs@.len() - i,
    {
        push_char(&mut s, cs[i]);
        i += 1;
        assert(s@ == cs@.subrange(0, i as int));
    }
    assert(cs@.subrange(0, cs@.len() as int) == cs@);
    s
}

/// Whether two strings hold the same characters.
pub fn str_equals(a: &str, b: &str) -> (r: bool)
    ensures
        r == (a@ == b@),
{
    let n = a.unicode_len();
    let m = b.unicode_len();
    if n != m {
        return false;
    }
    let mut i: usize = 0;
    while i < n
        invariant
            i <= n,
            n == a@.len(),
            m == b@.len(),
            n == m,
            forall|k: int| 0 <= k < i ==> a@[k] == b@[k],
        decreases n - i,
    {
        if a.get_char(i) != b.get_char(i) {
            return false;
        }
        i += 1;
    }
    assert(a@ =~= b@);
    true
}

/// A `String` holding `cs[from..to]`.
pub fn string_of_range(cs: &Vec<char>, from: usize, to: usize) -> (s: String)
    requires
        from <= to <= cs@.len(),
    ensures
        s@ == cs@.subrange(from as int, to as int),
{
    let mut s = String::new();
    let mut i: usize = from;
    while i < to
        invariant
            from <= i <= to,
            to <= cs@.len(),
            s@ == cs@.subrange(from as int, i as int),
        decreases to - i,
    {
        push_char(&mut s, cs[i]);
        i += 1;
        assert(s@ == cs@.subrange(from as int, i as int));
    }
    s
}

/// The views of a sequence of strings.
pub open spec fn strings_view(v: Seq<String>) -> Seq<Seq<char>> {
    v.map_values(|x: String| x@)
}

/// The decimal digit for `d`, which is below ten.
pub open spec fn digit_char(d: int) -> char {
    if d == 0 {
        '0'
    } else if d == 1 {
        '1'
    } else if d == 2 {
        '2'
    } else if d == 3 {
        '3'
    } else if d == 4 {
        '4'
    } else if d == 5 {
        '5'
    } else if d == 6 {
        '6'
    } else if d == 7 {
        '7'
    } else if d == 8 {
        '8'
    } else {
        '9'
    }
}

/// The decimal notation of `n`, without leading zeros.
pub open spec fn decimal(n: nat) -> Seq<char>
    decreases n,
{
    if n < 10 {
        seq![digit_char(n as int)]
    } else {
        decimal(n / 10).push(digit_char((n % 10) as int))
    }
}

/// The decimal notation of a signed number: a minus sign before negative ones.
pub open spec fn signed_decimal(n: int) -> Seq<char> {
    if n < 0 {
        seq!['-'] + decimal((-n) as nat)
    } else {
        decimal(n as nat)
    }
}

fn digit(d: u64) -> (c: char)
    requires
        d < 10,
    ensures
        c == digit_char(d as int),
{
    if d == 0 {
        '0'
    } else if d == 1 {
        '1'
    } else if d == 2 {
        '2'
    } else if d == 3 {
        '3'
    } else if d == 4 {
        '4'
    } else if d == 5 {
        '5'
    } else if d == 6 {
        '6'
    } else if d == 7 {
        '7'
    } else if d == 8 {
        '8'
    } else {
        '9'
    }
}

/// Appends the decimal notation of `n` to `s`.
pub fn push_decimal(s: &mut String, n: u64)
    ensures
        final(s)@ == old(s)@ + decimal(n as nat),
    decreases n,
{
    if n >= 10 {
        push_decimal(s, n / 10);
    }
    push_char(s, digit(n % 10));
}

/// The decimal notation of `n`.
pub fn decimal_string(n: u64) -> (s: String)
    ensures
        s@ == decimal(n as nat),
{
    let mut s = String::new();
    push_decimal(&mut s, n);
    assert(s@ == Seq::<char>::empty() + decimal(n as nat));
    s
}

/// The decimal notation of a signed number.
pub fn signed_decimal_string(n: i32) -> (s: String)
    ensures
        s@ == signed_decimal(n as int),
{
    let mut s = String::new();
    if n < 0 {
        push_char(&mut s, '-');
        let m: i64 = n as i64;
        let a: u64 = (-m) as u64;
        push_decimal(&mut s, a);
    } else {
        let a: u64 = n as u64;
        push_decimal(&mut s, a);
        assert(s@ == Seq::<char>::empty() + decimal(n as nat));
    }
    s
}

/// The index of the first line feed in `s`, or its length when there is none.
pub open spec fn first_newline(s: Seq<char>) -> int
    decreases s.len(),
{
    if s.len() == 0 {
        0
    } else if s[0] == '\n' {
        0
    } else {
        1 + first_newline(s.drop_first())
    }
}

/// A line without the carriage return that ended it.
pub open spec fn strip_cr(line: Seq<char>) -> Seq<char> {
    if line.len() > 0 && line.last() == '\r' {
        line.drop_last()
    } else {
        line
    }
}

/// What `first_newline` finds.
pub proof fn lemma_first_newline(s: Seq<char>)
    ensures
        0 <= first_newline(s) <= s.len(),
        forall|j: int| 0 <= j < first_newline(s) ==> s[j] != '\n',
        first_newline(s) < s.len() ==> s[first_newline(s)] == '\n',
    decreases s.len(),
{
    if s.len() > 0 && s[0] != '\n' {
        lemma_first_newline(s.drop_first());
        assert forall|j: int| 0 <= j < first_newline(s) implies s[j] != '\n' by {
            if j > 0 {
                assert(s[j] == s.drop_first()[j - 1]);
            }
        }
    }
}

/// `first_newline` is the only index that has no line feed before it and one at it.
pub proof fn lemma_first_newline_at(s: Seq<char>, k: int)
    requires
        0 <= k <= s.len(),
        forall|j: int| 0 <= j < k ==> s[j] != '\n',
        k < s.len() ==> s[k] == '\n',
    ensures
        first_newline(s) == k,
    decreases k,
{
    if k > 0 {
        assert(s[0] != '\n');
        assert forall|j: int| 0 <= j < k - 1 implies s.drop_first()[j] != '\n' by {
            assert(s.drop_first()[j] == s[j + 1]);
        }
        lemma_first_newline_at(s.drop_first(), k - 1);
    }
}

/// The lines of a text: it is split at each line feed, a carriage return just
/// before a line feed belongs to the line ending, and a final line ending
/// starts no further line.
pub open spec fn text_lines(s: Seq<char>) -> Seq<Seq<char>>
    decreases s.len(),
{
    if s.len() == 0 {
        Seq::empty()
    } else {
        let k = first_newline(s);
        if 0 <= k < s.len() {
            seq![strip_cr(s.take(k))] + text_lines(s.skip(k + 1))
        } else {
            seq![s]
        }
    }
}

/// The lines of `s`, as `str::lines` splits them.
pub fn lines_of(s: &str) -> (lines: Vec<String>)
    ensures
        strings_view(lines@) == text_lines(s@),
{
    let cs = chars_of(s);
    let n = cs.len();
    let mut out: Vec<String> = Vec::new();
    let mut start: usize = 0;
    let mut i: usize = 0;
    assert(cs@.skip(0) == cs@);
    assert(strings_view(out@) == Seq::<Seq<char>>::empty());
    while i < n
        invariant
            n == cs@.len(),
            start <= i <= n,
            forall|j: int| start <= j < i ==> cs@[j] != '\n',
            text_lines(cs@) == strings_view(out@) + text_lines(cs@.skip(start as int)),
        decreases n - i,
    {
        if cs[i] == '\n' {
            let end: usize = if i > start && cs[i - 1] == '\r' {
                i - 1
            } else {
                i
            };
            let line = string_of_range(&cs, start, end);
            proof {
                let t = cs@.skip(start as int);
                let k = i - start;
                assert forall|j: int| 0 <= j < k implies t[j] != '\n' by {
                    assert(t[j] == cs@[start + j]);
                }
                assert(t[k] == cs@[i as int]);
                lemma_first_newline_at(t, k);
                assert(t.skip(k + 1) == cs@.skip(i + 1));
                assert(strip_cr(t.take(k)) == cs@.subrange(start as int, end as int));
                assert(text_lines(t) == seq![strip_cr(t.take(k))] + text_lines(t.skip(k + 1)));
            }
            let ghost before = out@;
            out.push(line);
            proof {
                assert(strings_view(out@) == strings_view(before).push(line@));
            }
            start = i + 1;
        }
        i += 1;
    }
    if start < n {
        let line = string_of_range(&cs, start, n);
        proof {
            let t = cs@.skip(start as int);
            assert forall|j: int| 0 <= j < t.len() implies t[j] != '\n' by {
                assert(t[j] == cs@[start + j]);
            }
            lemma_first_newline_at(t, t.len() as int);
            assert(t == cs@.subrange(start as int, n as int));
        }
        let ghost before = out@;
        out.push(line);
        proof {
            assert(strings_view(out@) == strings_view(before).push(line@));
        }
    } else {
        assert(cs@.skip(start as int).len() == 0);
    }
    out
}

/// Whether `c` has the Unicode `White_Space` property: the ASCII tab, line
/// feed, vertical tab, form feed and carriage return, the space, the next
/// line control, the no-break space, the Ogham space mark, the spaces from
/// en quad to hair space, the line and paragraph separators, the narrow
/// no-break space, the medium mathematical space and the ideographic space.
pub open spec fn is_white_space(c: char) -> bool {
    let n = c as u32;
    ||| 0x9 <= n <= 0xd
    ||| n == 0x20
    ||| n == 0x85
    ||| n == 0xa0
    ||| n == 0x1680
    ||| 0x2000 <= n <= 0x200a
    ||| n == 0x2028
    ||| n == 0x2029
    ||| n == 0x202f
    ||| n == 0x205f
    ||| n == 0x3000
}

/// Whether `c` has the Unicode `White_Space` property.
pub fn is_whitespace_char(c: char) -> (b: bool)
    ensures
        b == is_white_space(c),
{
    let n = c as u32;
    (0x9 <= n && n <= 0xd) || n == 0x20 || n == 0x85 || n == 0xa0 || n == 0x1680 || (0x2000 <= n
        && n <= 0x200a) || n == 0x2028 || n == 0x2029 || n == 0x202f || n == 0x205f || n == 0x3000
}

/// Whether `needle` occurs in `hay`.
pub open spec fn has_text(hay: Seq<char>, needle: Seq<char>) -> bool {
    exists|i: int|
        0 <= i && i + needle.len() <= hay.len() && #[trigger] hay.subrange(i, i + needle.len())
            == needle
}

/// Whether `s` begins with `prefix`.
pub open spec fn begins_with(s: Seq<char>, prefix: Seq<char>) -> bool {
    prefix.len() <= s.len() && s.subrange(0, prefix.len() as int) == prefix
}

/// Whether `needle` occurs in `hay` at position `i`.
fn occurs_at(hay: &Vec<char>, needle: &Vec<char>, i: usize) -> (b: bool)
    requires
        i + needle@.len() <= hay@.len(),
    ensures
        b == (hay@.subrange(i as int, i + needle@.len()) == needle@),
{
    let hl = hay.len();
    let mut j: usize = 0;
    while j < needle.len()
        invariant
            j <= needle@.len(),
            hl == hay@.len(),
            i + needle@.len() <= hay@.len(),
            forall|k: int| 0 <= k < j ==> hay@[i + k] == needle@[k],
        decreases needle@.len() - j,
    {
        if hay[i + j] != needle[j] {
            assert(hay@.subrange(i as int, i + needle@.len())[j as int] != needle@[j as int]);
            return false;
        }
        j += 1;
    }
    assert(hay@.subrange(i as int, i + needle@.len()) =~= needle@);
    true
}

/// Whether `needle` occurs in the characters `hay`.
pub fn contains_chars(hay: &Vec<char>, needle: &Vec<char>) -> (b: bool)
    ensures
        b == has_text(hay@, needle@),
{
    if needle.len() > hay.len() {
        return false;
    }
    let last = hay.len() - needle.len();
    let mut i: usize = 0;
    while i <= last
        invariant
            last == hay@.len() - needle@.len(),
            i <= last + 1,
            forall|k: int|
                0 <= k < i ==> #[trigger] hay@.subrange(k, k + needle@.len()) != needle@,
        decreases last + 1 - i,
    {
        if occurs_at(hay, needle, i) {
            return true;
        }
        if i == last {
            return false;
        }
        i += 1;
    }
    false
}

/// Whether `needle` occurs in `hay`.
pub fn contains_str(hay: &str, needle: &str) -> (b: bool)
    ensures
        b == has_text(hay@, needle@),
{
    let h = chars_of(hay);
    let n = chars_of(needle);
    contains_chars(&h, &n)
}

/// Whether `s` begins with `prefix`.
pub fn starts_with_str(s: &str, prefix: &str) -> (b: bool)
    ensures
        b == begins_with(s@, prefix@),
{
    let h = chars_of(s);
    let p = chars_of(prefix);
    if p.len() > h.len() {
        return false;
    }
    occurs_at(&h, &p, 0)
}

/// Which characters a trim removes from both ends.
#[derive(Clone, Copy, Debug, PartialEq, Eq, Structural)]
pub enum Strip {
    /// Unicode whitespace, as `str::trim` removes.
    Whitespace,
    /// One given character, as `str::trim_matches` with a char removes.
    Only(char),
}

/// Whether a trim of kind `k` removes `c`.
pub open spec fn strips(k: Strip, c: char) -> bool {
    match k {
        Strip::Whitespace => is_white_space(c),
        Strip::Only(x) => c == x,
    }
}

/// How many characters a trim of kind `k` removes from the front of `s`.
pub open spec fn leading_strip(s: Seq<char>, k: Strip) -> nat
    decreases s.len(),
{
    if s.len() > 0 && strips(k, s[0]) {
        1 + leading_strip(s.drop_first(), k)
    } else {
        0
    }
}

/// How many characters a trim of kind `k` removes from the back of `s`.
pub open spec fn trailing_strip(s: Seq<char>, k: Strip) -> nat
    decreases s.len(),
{
    if s.len() > 0 && strips(k, s.last()) {
        1 + trailing_strip(s.drop_last(), k)
    } else {
        0
    }
}

/// `s` with the characters a trim of kind `k` removes taken off both ends.
pub open spec fn trimmed(s: Seq<char>, k: Strip) -> Seq<char> {
    let t = s.skip(leading_strip(s, k) as int);
    t.take(t.len() - trailing_strip(t, k))
}

/// `leading_strip` is the length of the longest removable prefix.
pub proof fn lemma_leading_strip_at(s: Seq<char>, k: Strip, a: int)
    requires
        0 <= a <= s.len(),
        forall|j: int| 0 <= j < a ==> strips(k, s[j]),
        a < s.len() ==> !strips(k, s[a]),
    ensures
        leading_strip(s, k) == a,
    decreases a,
{
    if a > 0 {
        assert forall|j: int| 0 <= j < a - 1 implies strips(k, s.drop_first()[j]) by {
            assert(s.drop_first()[j] == s[j + 1]);
        }
        lemma_leading_strip_at(s.drop_first(), k, a - 1);
    }
}

/// `trailing_strip` is the length of the longest removable suffix.
pub proof fn lemma_trailing_strip_at(s: Seq<char>, k: Strip, b: int)
    requires
        0 <= b <= s.len(),
        forall|j: int| b <= j < s.len() ==> strips(k, s[j]),
        b > 0 ==> !strips(k, s[b - 1]),
    ensures
        trailing_strip(s, k) == s.len() - b,
    decreases s.len() - b,
{
    if b < s.len() {
        assert forall|j: int| b <= j < s.len() - 1 implies strips(k, s.drop_last()[j]) by {
            assert(s.drop_last()[j] == s[j]);
        }
        lemma_trailing_strip_at(s.drop_last(), k, b);
    }
}

fn strips_char(k: Strip, c: char) -> (b: bool)
    ensures
        b == strips(k, c),
{
    match k {
        Strip::Whitespace => is_whitespace_char(c),
        Strip::Only(x) => c == x,
    }
}

/// `cs` with the characters a trim of kind `k` removes taken off both ends.
pub fn trim_chars(cs: &Vec<char>, k: Strip) -> (r: String)
    ensures
        r@ == trimmed(cs@, k),
{
    let n = cs.len();
    let mut a: usize = 0;
    while a < n && strips_char(k, cs[a])
        invariant
            a <= n,
            n == cs@.len(),
            forall|j: int| 0 <= j < a ==> strips(k, cs@[j]),
        decreases n - a,
    {
        a += 1;
    }
    let mut b: usize = n;
    while b > a && strips_char(k, cs[b - 1])
        invariant
            a <= b <= n,
            n == cs@.len(),
            forall|j: int| b <= j < n ==> strips(k, cs@[j]),
        decreases b - a,
    {
        b -= 1;
    }
    proof {
        lemma_leading_strip_at(cs@, k, a as int);
        let t = cs@.skip(a as int);
        assert forall|j: int| b - a <= j < t.len() implies strips(k, t[j]) by {
            assert(t[j] == cs@[a + j]);
        }
        if b > a {
            assert(t[b - a - 1] == cs@[b - 1]);
        }
        lemma_trailing_strip_at(t, k, b - a);
        assert(t.take(b - a) == cs@.subrange(a as int, b as int));
    }
    string_of_range(cs, a, b)
}

/// `s` with the characters a trim of kind `k` removes taken off both ends.
pub fn trim_str(s: &str, k: Strip) -> (r: String)
    ensures
        r@ == trimmed(s@, k),
{
    let cs = chars_of(s);
    trim_chars(&cs, k)
}

/// `s` with every occurrence of `pat` removed, scanning from the left.
pub open spec fn remove_all(s: Seq<char>, pat: Seq<char>) -> Seq<char>
    decreases s.len(),
{
    if pat.len() == 0 || s.len() < pat.len() {
        s
    } else if s.subrange(0, pat.len() as int) == pat {
        remove_all(s.skip(pat.len() as int), pat)
    } else {
        seq![s[0]] + remove_all(s.drop_first(), pat)
    }
}

/// `s` with every occurrence of `pat` removed, as `str::replace` with an
/// empty replacement does; an empty pattern leaves `s` as it is.
pub fn remove_all_str(s: &str, pat: &str) -> (r: String)
    ensures
        r@ == remove_all(s@, pat@),
{
    let cs = chars_of(s);
    let p = chars_of(pat);
    let n = cs.len();
    let m = p.len();
    if m == 0 {
        return string_of(cs.as_slice());
    }
    let mut out = String::new();
    let mut i: usize = 0;
    assert(cs@.skip(0) == cs@);
    assert(out@ + remove_all(cs@, p@) == remove_all(cs@, p@));
    while i < n
        invariant
            n == cs@.len(),
            m == p@.len(),
            m > 0,
            i <= n,
            remove_all(cs@, p@) == out@ + remove_all(cs@.skip(i as int), p@),
        decreases n - i,
    {
        let ghost t = cs@.skip(i as int);
        if m <= n - i && occurs_at(&cs, &p, i) {
            proof {
                assert(t.subrange(0, m as int) == cs@.subrange(i as int, i + m));
                assert(t.skip(m as int) == cs@.skip(i + m));
            }
            i += m;
        } else {
            proof {
                if m <= n - i {
                    assert(t.subrange(0, m as int) == cs@.subrange(i as int, i + m));
                }
                assert(t.drop_first() == cs@.skip(i + 1));
                assert(t[0] == cs@[i as int]);
            }
            push_char(&mut out, cs[i]);
            i += 1;
        }
    }
    assert(cs@.skip(n as int).len() == 0);
    out
}

/// The value of a run of decimal digits.
pub open spec fn digits_value(s: Seq<char>) -> int
    decreases s.len(),
{
    if s.len() == 0 {
        0
    } else {
        10 * digits_value(s.drop_last()) + (s.last() as int - '0' as int)
    }
}

/// Whether every character of `s` is an ASCII digit.
pub open spec fn all_digits(s: Seq<char>) -> bool {
    forall|i: int| 0 <= i < s.len() ==> '0' <= #[trigger] s[i] <= '9'
}

/// The number `s` denotes as `str::parse::<i32>` reads it: an optional sign
/// and at least one decimal digit, within the range of `i32`.
pub open spec fn parse_i32(s: Seq<char>) -> Option<i32> {
    let negative = s.len() > 0 && s[0] == '-';
    let body = if s.len() > 0 && (s[0] == '-' || s[0] == '+') {
        s.drop_first()
    } else {
        s
    };
    if body.len() == 0 || !all_digits(body) {
        None
    } else {
        let v = if negative {
            -digits_value(body)
        } else {
            digits_value(body)
        };
        if i32::MIN <= v <= i32::MAX {
            Some(v as i32)
        } else {
            None
        }
    }
}

/// A run of digits is worth at least as much as any of its prefixes.
pub proof fn lemma_digits_value_grows(s: Seq<char>, j: int)
    requires
        all_digits(s),
        0 <= j <= s.len(),
    ensures
        0 <= digits_value(s.take(j)) <= digits_value(s),
    decreases s.len(),
{
    if s.len() > 0 {
        if j == s.len() {
            assert(s.take(j) == s);
            lemma_digits_value_grows(s.drop_last(), j - 1);
            assert(s.drop_last().take(j - 1) == s.drop_last());
        } else {
            assert(s.drop_last().take(j) == s.take(j));
            assert(all_digits(s.drop_last())) by {
                assert forall|i: int| 0 <= i < s.drop_last().len() implies '0' <= #[trigger] s.drop_last()[i] <= '9' by {
                    assert(s.drop_last()[i] == s[i]);
                }
            }
            lemma_digits_value_grows(s.drop_last(), j);
            let l = s.last();
            assert('0' <= s[s.len() - 1] <= '9');
        }
    }
}

/// Reads a number as `str::parse::<i32>` does; `None` for anything else.
pub fn parse_i32_str(s: &str) -> (r: Option<i32>)
    ensures
        r == parse_i32(s@),
{
    let cs = chars_of(s);
    let n = cs.len();
    let mut start: usize = 0;
    let mut negative = false;
    if n > 0 && (cs[0] == '-' || cs[0] == '+') {
        negative = cs[0] == '-';
        start = 1;
    }
    let ghost body = cs@.skip(start as int);
    proof {
        if start == 1 {
            assert(body == cs@.drop_first());
        } else {
            assert(body == cs@);
        }
    }
    if start == n {
        return None;
    }
    let mut value: i64 = 0;
    let mut i: usize = start;
    while i < n
        invariant
            start <= i <= n,
            n == cs@.len(),
            body == cs@.skip(start as int),
            body == (if cs@.len() > 0 && (cs@[0] == '-' || cs@[0] == '+') {
                cs@.drop_first()
            } else {
                cs@
            }),
            negative == (cs@.len() > 0 && cs@[0] == '-'),
            s@ == cs@,
            all_digits(body.take(i - start)),
            value == digits_value(body.take(i - start)),
            0 <= value <= 2147483648,
        decreases n - i,
    {
        let c = cs[i];
        proof {
            assert(body.take(i - start + 1).drop_last() == body.take(i - start));
            assert(body[i - start] == cs@[i as int]);
        }
        if c < '0' || c > '9' {
            proof {
                assert(!('0' <= body[i - start] <= '9'));
            }
            return None;
        }
        let d: i64 = (c as u32 - '0' as u32) as i64;
        value = value * 10 + d;
        proof {
            assert(body.take(i - start + 1).last() == c);
            assert(value == digits_value(body.take(i - start + 1)));
            assert(all_digits(body.take(i - start + 1))) by {
                assert forall|k: int| 0 <= k < body.take(i - start + 1).len() implies '0' <= #[trigger] body.take(i - start + 1)[k] <= '9' by {
                    if k < i - start {
                        assert(body.take(i - start + 1)[k] == body.take(i - start)[k]);
                    }
                }
            }
        }
        if value > 2147483648 {
            proof {
                let ghost taken = body.take(i - start + 1);
                if all_digits(body) {
                    lemma_digits_value_grows(body, i - start + 1);
                }
            }
            return None;
        }
        i += 1;
    }
    proof {
        assert(body.take(n - start) == body);
    }
    if negative {
        Some((-value) as i32)
    } else if value > 2147483647 {
        None
    } else {
        Some(value as i32)
    }
}

} // verus!
