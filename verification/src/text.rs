//! Text utilities shared by the rest of the crate. Every function states its
//! result over the character sequence of its arguments.

use vstd::prelude::*;
use vstd::string::*;

verus! {

/// Result of comparing two texts lexicographically by code point.
#[derive(Clone, Copy, Debug, PartialEq, Eq)]
pub enum TextOrder {
    Before,
    Same,
    After,
}

/// `a` comes strictly before `b` in lexicographic order by code point:
/// they agree on the first `k` characters, and then either `a` ends while
/// `b` goes on, or `a` holds the smaller character.
pub open spec fn lex_lt(a: Seq<char>, b: Seq<char>) -> bool {
    exists|k: int| lex_lt_at(a, b, k)
}

/// `k` witnesses that `a` comes before `b`.
pub open spec fn lex_lt_at(a: Seq<char>, b: Seq<char>, k: int) -> bool {
    &&& 0 <= k <= a.len()
    &&& k <= b.len()
    &&& a.subrange(0, k) == b.subrange(0, k)
    &&& if k == a.len() {
        k < b.len()
    } else {
        k < b.len() && (a[k] as u32) < (b[k] as u32)
    }
}

/// Replaces every occurrence of `from` by `to`.
pub open spec fn replaced(s: Seq<char>, from: char, to: char) -> Seq<char> {
    Seq::new(s.len(), |i: int| if s[i] == from { to } else { s[i] })
}

/// The character sequences of a list of strings.
pub open spec fn texts(v: Seq<String>) -> Seq<Seq<char>> {
    Seq::new(v.len(), |i: int| v[i]@)
}

/// The character sequence of an optional string.
pub open spec fn opt_text(o: Option<String>) -> Option<Seq<char>> {
    match o {
        Some(s) => Some(s@),
        None => None,
    }
}

/// The character sequence of an optional string slice.
pub open spec fn opt_str(o: Option<&str>) -> Option<Seq<char>> {
    match o {
        Some(s) => Some(s@),
        None => None,
    }
}

/// The parts joined with `sep` between neighbours.
pub open spec fn joined(parts: Seq<Seq<char>>, sep: Seq<char>) -> Seq<char>
    decreases parts.len(),
{
    if parts.len() == 0 {
        Seq::empty()
    } else if parts.len() == 1 {
        parts[0]
    } else {
        joined(parts.drop_last(), sep) + sep + parts.last()
    }
}

/// Whether two texts are equal.
pub fn text_eq(a: &str, b: &str) -> (r: bool)
    ensures
        r == (a@ == b@),
{
    let x = String::from_str(a);
    let y = String::from_str(b);
    x == y
}

/// Two texts, one after the other.
pub fn cat2(a: &str, b: &str) -> (r: String)
    ensures
        r@ == a@ + b@,
{
    let mut out = String::from_str(a);
    out.append(b);
    out
}

/// Three texts, one after the other.
pub fn cat3(a: &str, b: &str, c: &str) -> (r: String)
    ensures
        r@ == a@ + b@ + c@,
{
    let mut out = String::from_str(a);
    out.append(b);
    out.append(c);
    out
}

/// Four texts, one after the other.
pub fn cat4(a: &str, b: &str, c: &str, d: &str) -> (r: String)
    ensures
        r@ == a@ + b@ + c@ + d@,
{
    let mut out = String::from_str(a);
    out.append(b);
    out.append(c);
    out.append(d);
    out
}

/// Five texts, one after the other.
pub fn cat5(a: &str, b: &str, c: &str, d: &str, e: &str) -> (r: String)
    ensures
        r@ == a@ + b@ + c@ + d@ + e@,
{
    let mut out = String::from_str(a);
    out.append(b);
    out.append(c);
    out.append(d);
    out.append(e);
    out
}

/// Whether `s` begins with `prefix`.
pub fn starts_with(s: &str, prefix: &str) -> (r: bool)
    ensures
        r == prefix@.is_prefix_of(s@),
{
    let n = s.unicode_len();
    let m = prefix.unicode_len();
    if m > n {
        return false;
    }
    text_eq(s.substring_char(0, m), prefix)
}

/// Whether `s` ends with `suffix`.
pub fn ends_with(s: &str, suffix: &str) -> (r: bool)
    ensures
        r == suffix@.is_suffix_of(s@),
{
    let n = s.unicode_len();
    let m = suffix.unicode_len();
    if m > n {
        return false;
    }
    text_eq(s.substring_char(n - m, n), suffix)
}

/// `part` occurs somewhere in `s`.
pub open spec fn has_infix(s: Seq<char>, part: Seq<char>) -> bool {
    exists|i: int| 0 <= i <= s.len() - part.len() && #[trigger] s.subrange(i, i + part.len()) == part
}

/// Whether `part` occurs in `s`.
pub fn contains_text(s: &str, part: &str) -> (r: bool)
    ensures
        r == has_infix(s@, part@),
{
    let n = s.unicode_len();
    let m = part.unicode_len();
    if m > n {
        return false;
    }
    let last = n - m;
    let mut i: usize = 0;
    while i < last
        invariant
            n == s@.len(),
            m == part@.len(),
            last == n - m,
            i <= last,
            forall|j: int| 0 <= j < i ==> #[trigger] s@.subrange(j, j + m) != part@,
        decreases last - i,
    {
        if text_eq(s.substring_char(i, i + m), part) {
            return true;
        }
        i += 1;
    }
    let found = text_eq(s.substring_char(last, n), part);
    proof {
        if found {
            assert(s@.subrange(last as int, last + m) == part@);
        }
    }
    found
}

/// Whether `c` occurs in `s`.
pub fn contains_char(s: &str, c: char) -> (r: bool)
    ensures
        r == s@.contains(c),
{
    let n = s.unicode_len();
    let mut i: usize = 0;
    while i < n
        invariant
            n == s@.len(),
            i <= n,
            forall|j: int| 0 <= j < i ==> s@[j] != c,
        decreases n - i,
    {
        if s.get_char(i) == c {
            return true;
        }
        i += 1;
    }
    false
}

/// Copy of `s` in which every `from` is replaced by `to`; `to_text` is the
/// one-character text of `to`.
pub fn replace_char(s: &str, from: char, to: char, to_text: &str) -> (r: String)
    requires
        to_text@ == seq![to],
    ensures
        r@ == replaced(s@, from, to),
{
    let n = s.unicode_len();
    let mut out = String::new();
    let mut i: usize = 0;
    while i < n
        invariant
            n == s@.len(),
            i <= n,
            to_text@ == seq![to],
            out@ == replaced(s@.subrange(0, i as int), from, to),
        decreases n - i,
    {
        let ghost before = out@;
        if s.get_char(i) == from {
            out.append(to_text);
        } else {
            out.append(s.substring_char(i, i + 1));
        }
        proof {
            assert(out@ =~= replaced(s@.subrange(0, i + 1), from, to));
        }
        i += 1;
    }
    proof {
        assert(s@.subrange(0, n as int) =~= s@);
    }
    out
}

/// `s` with every `-` turned into `_`.
pub fn underscored(s: &str) -> (r: String)
    ensures
        r@ == replaced(s@, '-', '_'),
{
    proof {
        reveal_strlit("_");
        assert("_"@ =~= seq!['_']);
    }
    replace_char(s, '-', '_', "_")
}

/// `s` with every `.` turned into `-`.
pub fn dashed(s: &str) -> (r: String)
    ensures
        r@ == replaced(s@, '.', '-'),
{
    proof {
        reveal_strlit("-");
        assert("-"@ =~= seq!['-']);
    }
    replace_char(s, '.', '-', "-")
}

/// Joins `parts` with `sep` between neighbours.
pub fn join(parts: &Vec<String>, sep: &str) -> (r: String)
    ensures
        r@ == joined(texts(parts@), sep@),
{
    let mut out = String::new();
    let mut i: usize = 0;
    while i < parts.len()
        invariant
            i <= parts.len(),
            out@ == joined(texts(parts@).subrange(0, i as int), sep@),
        decreases parts.len() - i,
    {
        proof {
            assert(texts(parts@).subrange(0, i + 1).drop_last() =~= texts(parts@).subrange(
                0,
                i as int,
            ));
        }
        if i > 0 {
            out.append(sep);
        }
        out.append(parts[i].as_str());
        proof {
            if i == 0 {
                assert(out@ =~= parts@[0]@);
            }
        }
        i += 1;
    }
    proof {
        assert(texts(parts@).subrange(0, parts.len() as int) =~= texts(parts@));
    }
    out
}

/// Whether a character separates the items of a list: a comma or a line
/// break.
pub open spec fn is_separator(c: char) -> bool {
    c == ',' || c == '\n'
}

/// The items of a list, which commas and line breaks separate. A text
/// without a separator is one item.
pub open spec fn pieces(s: Seq<char>) -> Seq<Seq<char>>
    decreases s.len(),
{
    if s.len() == 0 {
        seq![Seq::<char>::empty()]
    } else {
        let before = pieces(s.drop_last());
        if is_separator(s.last()) {
            before.push(Seq::<char>::empty())
        } else {
            before.drop_last().push(before.last().push(s.last()))
        }
    }
}

/// Splits a list at its commas and line breaks.
pub fn split_list(s: &str) -> (r: Vec<String>)
    ensures
        texts(r@) == pieces(s@),
{
    let n = s.unicode_len();
    let mut out: Vec<String> = Vec::new();
    let mut current = String::new();
    let mut i: usize = 0;
    proof {
        assert(s@.subrange(0, 0) =~= Seq::<char>::empty());
        assert(texts(out@).push(current@) =~= pieces(s@.subrange(0, 0)));
    }
    while i < n
        invariant
            n == s@.len(),
            i <= n,
            texts(out@).push(current@) == pieces(s@.subrange(0, i as int)),
        decreases n - i,
    {
        let c = s.get_char(i);
        let ghost prev_out = out@;
        let ghost prev_cur = current@;
        proof {
            assert(s@.subrange(0, i + 1).drop_last() =~= s@.subrange(0, i as int));
            assert(s@.subrange(0, i + 1).last() == c);
        }
        if c == ',' || c == '\n' {
            out.push(current);
            current = String::new();
            proof {
                assert(texts(out@) =~= texts(prev_out).push(prev_cur));
            }
        } else {
            current.append(s.substring_char(i, i + 1));
            proof {
                assert(current@ =~= prev_cur.push(c));
                assert(texts(prev_out).push(prev_cur).drop_last() =~= texts(prev_out));
            }
        }
        i += 1;
    }
    proof {
        assert(s@.subrange(0, n as int) =~= s@);
    }
    let ghost before = out@;
    out.push(current);
    proof {
        assert(texts(out@) =~= texts(before).push(current@));
    }
    out
}

/// Compares two texts lexicographically by code point.
pub fn compare(a: &str, b: &str) -> (r: TextOrder)
    ensures
        r == TextOrder::Before ==> lex_lt(a@, b@),
        r == TextOrder::Same ==> a@ == b@,
        r == TextOrder::After ==> lex_lt(b@, a@),
{
    let n = a.unicode_len();
    let m = b.unicode_len();
    let mut i: usize = 0;
    while i < n && i < m
        invariant
            n == a@.len(),
            m == b@.len(),
            i <= n,
            i <= m,
            a@.subrange(0, i as int) == b@.subrange(0, i as int),
        decreases n - i,
    {
        let x = a.get_char(i);
        let y = b.get_char(i);
        if x != y {
            if (x as u32) < (y as u32) {
                proof {
                    assert(lex_lt_at(a@, b@, i as int));
                }
                return TextOrder::Before;
            } else {
                proof {
                    assert(lex_lt_at(b@, a@, i as int));
                }
                return TextOrder::After;
            }
        }
        proof {
            assert(a@.subrange(0, i + 1) =~= a@.subrange(0, i as int).push(x));
            assert(b@.subrange(0, i + 1) =~= b@.subrange(0, i as int).push(y));
        }
        i += 1;
    }
    if n < m {
        proof {
            assert(lex_lt_at(a@, b@, i as int));
        }
        TextOrder::Before
    } else if m < n {
        proof {
            assert(lex_lt_at(b@, a@, i as int));
        }
        TextOrder::After
    } else {
        proof {
            assert(a@.subrange(0, n as int) =~= a@);
            assert(b@.subrange(0, m as int) =~= b@);
        }
        TextOrder::Same
    }
}

/// `s` without its leading and trailing whitespace, as `str::trim` returns it.
pub uninterp spec fn trimmed(s: Seq<char>) -> Seq<char>;

/// The lowercase form of `s`, as `str::to_lowercase` returns it.
pub uninterp spec fn lowercase(s: Seq<char>) -> Seq<char>;

/// The uppercase form of `s`, as `str::to_uppercase` returns it.
pub uninterp spec fn uppercase(s: Seq<char>) -> Seq<char>;

/// `str::trim` of std. Trusted: the result is the named trimmed text.
#[verifier::external_body]
pub(crate) fn trim(s: &str) -> (r: &str)
    ensures
        r@ == trimmed(s@),
{
    s.trim()
}

/// `str::to_lowercase` of std. Trusted: the result is the named lowercase form.
#[verifier::external_body]
pub(crate) fn to_lowercase(s: &str) -> (r: String)
    ensures
        r@ == lowercase(s@),
{
    s.to_lowercase()
}

/// `str::to_uppercase` of std. Trusted: the result is the named uppercase form.
#[verifier::external_body]
pub(crate) fn to_uppercase(s: &str) -> (r: String)
    ensures
        r@ == uppercase(s@),
{
    s.to_uppercase()
}

/// The order is transitive.
pub proof fn lemma_lex_lt_transitive(a: Seq<char>, b: Seq<char>, c: Seq<char>)
    requires
        lex_lt(a, b),
        lex_lt(b, c),
    ensures
        lex_lt(a, c),
{
    let k1 = choose|k: int| lex_lt_at(a, b, k);
    let k2 = choose|k: int| lex_lt_at(b, c, k);
    let k = if k1 <= k2 {
        k1
    } else {
        k2
    };
    assert(a.subrange(0, k) =~= a.subrange(0, k1).subrange(0, k));
    assert(b.subrange(0, k) =~= b.subrange(0, k1).subrange(0, k));
    assert(b.subrange(0, k) =~= b.subrange(0, k2).subrange(0, k));
    assert(c.subrange(0, k) =~= c.subrange(0, k2).subrange(0, k));
    if k1 < k2 {
        assert(b[k1] == b.subrange(0, k2)[k1]);
        assert(c[k1] == c.subrange(0, k2)[k1]);
    } else if k2 < k1 {
        assert(a[k2] == a.subrange(0, k1)[k2]);
        assert(b[k2] == b.subrange(0, k1)[k2]);
    }
    assert(lex_lt_at(a, c, k));
}

/// No text comes before itself, and of two texts at most one comes before
/// the other.
pub proof fn lemma_lex_lt_asymmetric(a: Seq<char>, b: Seq<char>)
    requires
        lex_lt(a, b),
    ensures
        a != b,
        !lex_lt(b, a),
{
    if lex_lt(b, a) {
        lemma_lex_lt_transitive(a, b, a);
    }
}

/// The character of a decimal digit.
pub open spec fn digit(d: nat) -> Seq<char> {
    if d == 0 {
        "0"@
    } else if d == 1 {
        "1"@
    } else if d == 2 {
        "2"@
    } else if d == 3 {
        "3"@
    } else if d == 4 {
        "4"@
    } else if d == 5 {
        "5"@
    } else if d == 6 {
        "6"@
    } else if d == 7 {
        "7"@
    } else if d == 8 {
        "8"@
    } else {
        "9"@
    }
}

/// A number in decimal notation, without leading zeros.
pub open spec fn digits(n: nat) -> Seq<char>
    decreases n,
{
    if n < 10 {
        digit(n)
    } else {
        digits(n / 10) + digit(n % 10)
    }
}

/// A whole number in decimal notation, with a minus sign where it is
/// negative.
pub open spec fn signed_digits(n: int) -> Seq<char> {
    if n < 0 {
        "-"@ + digits((-n) as nat)
    } else {
        digits(n as nat)
    }
}

fn digit_text(d: u64) -> (r: &'static str)
    requires
        d < 10,
    ensures
        r@ == digit(d as nat),
{
    if d == 0 {
        "0"
    } else if d == 1 {
        "1"
    } else if d == 2 {
        "2"
    } else if d == 3 {
        "3"
    } else if d == 4 {
        "4"
    } else if d == 5 {
        "5"
    } else if d == 6 {
        "6"
    } else if d == 7 {
        "7"
    } else if d == 8 {
        "8"
    } else {
        "9"
    }
}

/// Writes a number in decimal notation.
pub fn decimal(n: u64) -> (r: String)
    ensures
        r@ == digits(n as nat),
    decreases n,
{
    if n < 10 {
        String::from_str(digit_text(n))
    } else {
        let head = decimal(n / 10);
        cat2(head.as_str(), digit_text(n % 10))
    }
}

/// Writes a whole number in decimal notation.
pub fn signed_decimal(n: i32) -> (r: String)
    ensures
        r@ == signed_digits(n as int),
{
    if n < 0 {
        let magnitude: u64 = (-(n as i64)) as u64;
        cat2("-", decimal(magnitude).as_str())
    } else {
        decimal(n as u64)
    }
}

/// `char::to_string` of std. Trusted: the result is the text of that one
/// character.
#[verifier::external_body]
pub(crate) fn char_text(c: char) -> (r: String)
    ensures
        r@ == seq![c],
{
    c.to_string()
}

} // verus!
