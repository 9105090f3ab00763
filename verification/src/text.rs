//! Verified text helpers: decimal and hexadecimal writing, splitting, trimming,
//! searching and joining, with their meaning as spec functions.
use vstd::prelude::*;

verus! {

/// The character for decimal digit `d` (`0 <= d < 10`).
pub open spec fn digit_char(d: int) -> char {
    if d == 0 { '0' }
    else if d == 1 { '1' }
    else if d == 2 { '2' }
    else if d == 3 { '3' }
    else if d == 4 { '4' }
    else if d == 5 { '5' }
    else if d == 6 { '6' }
    else if d == 7 { '7' }
    else if d == 8 { '8' }
    else { '9' }
}

/// The shortest decimal representation of `n`, as `u64::to_string` writes it.
pub open spec fn decimal(n: nat) -> Seq<char>
    decreases n,
{
    if n < 10 {
        seq![digit_char(n as int)]
    } else {
        decimal(n / 10).push(digit_char((n % 10) as int))
    }
}

/// The decimal representation of a signed integer, as `i64::to_string` writes it.
pub open spec fn signed_decimal(n: int) -> Seq<char> {
    if n < 0 {
        seq!['-'] + decimal((-n) as nat)
    } else {
        decimal(n as nat)
    }
}

/// `p` is a prefix of `s`.
pub open spec fn has_prefix(s: Seq<char>, p: Seq<char>) -> bool {
    p.len() <= s.len() && s.take(p.len() as int) == p
}

/// Appends one character to a string (`String::push`).
#[verifier::external_body]
pub(crate) fn push_char(s: &mut String, c: char)
    ensures
        final(s)@ == old(s)@.push(c),
{
    s.push(c)
}

/// The characters of `s`, one by one.
pub fn chars_of(s: &str) -> (v: Vec<char>)
    ensures
        v@ == s@,
{
    let n = s.unicode_len();
    let mut v: Vec<char> = Vec::new();
    let mut i: usize = 0;
    while i < n
        invariant
            n == s@.len(),
            i <= n,
            v@ == s@.take(i as int),
        decreases n - i,
    {
        v.push(s.get_char(i));
        i = i + 1;
        assert(v@ =~= s@.take(i as int));
    }
    assert(v@ =~= s@);
    v
}

/// Appends the characters `v[from..to]` to `out`.
pub fn append_chars(out: &mut String, v: &Vec<char>, from: usize, to: usize)
    requires
        from <= to <= v@.len(),
    ensures
        final(out)@ == old(out)@ + v@.subrange(from as int, to as int),
{
    let mut i = from;
    while i < to
        invariant
            from <= i <= to <= v@.len(),
            out@ == old(out)@ + v@.subrange(from as int, i as int),
        decreases to - i,
    {
        push_char(out, v[i]);
        i = i + 1;
        assert(out@ =~= old(out)@ + v@.subrange(from as int, i as int));
    }
}

/// A string holding exactly the characters of `v`.
pub fn string_of(v: &Vec<char>) -> (s: String)
    ensures
        s@ == v@,
{
    let mut s = String::new();
    append_chars(&mut s, v, 0, v.len());
    assert(v@.subrange(0, v@.len() as int) =~= v@);
    s
}

/// A fresh string with the contents of `s`.
pub fn owned(s: &str) -> (r: String)
    ensures
        r@ == s@,
{
    let v = chars_of(s);
    string_of(&v)
}

/// Appends `t` to `out`.
pub fn append_str(out: &mut String, t: &str)
    ensures
        final(out)@ == old(out)@ + t@,
{
    let v = chars_of(t);
    append_chars(out, &v, 0, v.len());
    assert(v@.subrange(0, v@.len() as int) =~= t@);
}

/// `a` and `b` hold the same characters.
pub fn same_text(a: &str, b: &str) -> (r: bool)
    ensures
        r == (a@ == b@),
{
    let va = chars_of(a);
    let vb = chars_of(b);
    if va.len() != vb.len() {
        return false;
    }
    let mut i: usize = 0;
    while i < va.len()
        invariant
            va@ == a@,
            vb@ == b@,
            va@.len() == vb@.len(),
            i <= va@.len(),
            forall|j: int| 0 <= j < i ==> va@[j] == vb@[j],
        decreases va@.len() - i,
    {
        if va[i] != vb[i] {
            return false;
        }
        i = i + 1;
    }
    assert(a@ =~= b@);
    true
}

/// `p` is a prefix of `s` (`str::starts_with` with a string pattern).
pub fn starts_with(s: &str, p: &str) -> (r: bool)
    ensures
        r == has_prefix(s@, p@),
{
    let vs = chars_of(s);
    let vp = chars_of(p);
    if vp.len() > vs.len() {
        return false;
    }
    let mut i: usize = 0;
    while i < vp.len()
        invariant
            vs@ == s@,
            vp@ == p@,
            vp@.len() <= vs@.len(),
            i <= vp@.len(),
            forall|j: int| 0 <= j < i ==> vs@[j] == vp@[j],
        decreases vp@.len() - i,
    {
        if vs[i] != vp[i] {
            assert(s@.take(p@.len() as int)[i as int] != p@[i as int]);
            return false;
        }
        i = i + 1;
    }
    assert(s@.take(p@.len() as int) =~= p@);
    true
}

/// The digit character for `d < 10`.
pub fn digit(d: u64) -> (c: char)
    requires
        d < 10,
    ensures
        c == digit_char(d as int),
{
    if d == 0 { '0' }
    else if d == 1 { '1' }
    else if d == 2 { '2' }
    else if d == 3 { '3' }
    else if d == 4 { '4' }
    else if d == 5 { '5' }
    else if d == 6 { '6' }
    else if d == 7 { '7' }
    else if d == 8 { '8' }
    else { '9' }
}

/// Appends the decimal representation of `n` to `out`.
pub fn append_decimal(out: &mut String, n: u64)
    ensures
        final(out)@ == old(out)@ + decimal(n as nat),
    decreases n,
{
    if n < 10 {
        push_char(out, digit(n));
        assert(decimal(n as nat) =~= seq![digit_char(n as int)]);
    } else {
        append_decimal(out, n / 10);
        push_char(out, digit(n % 10));
        assert(out@ =~= old(out)@ + decimal(n as nat));
    }
}

/// `n.to_string()` for an unsigned integer.
pub fn decimal_string(n: u64) -> (s: String)
    ensures
        s@ == decimal(n as nat),
{
    let mut s = String::new();
    append_decimal(&mut s, n);
    assert(s@ =~= decimal(n as nat));
    s
}

/// Appends the decimal representation of a signed integer to `out`.
pub fn append_signed_decimal(out: &mut String, n: i64)
    ensures
        final(out)@ == old(out)@ + signed_decimal(n as int),
{
    if n < 0 {
        push_char(out, '-');
        let m: u64 = if n == i64::MIN { 9223372036854775808u64 } else { (-n) as u64 };
        append_decimal(out, m);
        assert(out@ =~= old(out)@ + signed_decimal(n as int));
    } else {
        append_decimal(out, n as u64);
    }
}


/// `s` with every non-overlapping occurrence of `p`, scanned from the left,
/// replaced by `r` (`str::replace` for a non-empty pattern).
pub open spec fn replaced(s: Seq<char>, p: Seq<char>, r: Seq<char>) -> Seq<char>
    decreases s.len(),
{
    if p.len() == 0 || s.len() < p.len() {
        s
    } else if s.take(p.len() as int) == p {
        r + replaced(s.skip(p.len() as int), p, r)
    } else {
        seq![s[0]] + replaced(s.skip(1), p, r)
    }
}

/// `v[at..at + p.len()] == p`.
fn matches_at(v: &Vec<char>, p: &Vec<char>, at: usize) -> (m: bool)
    requires
        at + p@.len() <= v@.len(),
    ensures
        m == (v@.subrange(at as int, at + p@.len()) == p@),
{
    let vl = v.len();
    let mut i: usize = 0;
    while i < p.len()
        invariant
            vl == v@.len(),
            at + p@.len() <= v@.len(),
            i <= p@.len(),
            forall|j: int| 0 <= j < i ==> v@[at + j] == p@[j],
        decreases p@.len() - i,
    {
        assert(at + i < v@.len());
        if v[at + i] != p[i] {
            assert(v@.subrange(at as int, at + p@.len())[i as int] != p@[i as int]);
            return false;
        }
        i = i + 1;
    }
    assert(v@.subrange(at as int, at + p@.len()) =~= p@);
    true
}

/// Replaces every occurrence of the non-empty pattern `pat` in `s` by `rep`.
pub fn replace_all(s: &str, pat: &str, rep: &str) -> (out: String)
    requires
        pat@.len() > 0,
    ensures
        out@ == replaced(s@, pat@, rep@),
{
    let vs = chars_of(s);
    let vp = chars_of(pat);
    let vr = chars_of(rep);
    let n = vs.len();
    let m = vp.len();
    let mut out = String::new();
    let mut i: usize = 0;
    assert(vs@.skip(0) =~= vs@);
    while i < n
        invariant
            vs@ == s@,
            vp@ == pat@,
            vr@ == rep@,
            n == vs@.len(),
            m == vp@.len(),
            m > 0,
            i <= n,
            out@ + replaced(vs@.skip(i as int), vp@, vr@) == replaced(vs@, vp@, vr@),
        decreases n - i,
    {
        let ghost rest = vs@.skip(i as int);
        if n - i < m {
            append_chars(&mut out, &vs, i, n);
            assert(vs@.subrange(i as int, n as int) =~= rest);
            i = n;
            assert(vs@.skip(i as int) =~= Seq::<char>::empty());
        } else if matches_at(&vs, &vp, i) {
            assert(rest.take(m as int) =~= vs@.subrange(i as int, i + m));
            assert(rest.skip(m as int) =~= vs@.skip(i + m));
            append_chars(&mut out, &vr, 0, m - m + vr.len());
            assert(vr@.subrange(0, vr@.len() as int) =~= vr@);
            i = i + m;
            assert(out@ + replaced(vs@.skip(i as int), vp@, vr@) =~= replaced(vs@, vp@, vr@));
        } else {
            assert(rest.take(m as int) =~= vs@.subrange(i as int, i + m));
            assert(rest.skip(1) =~= vs@.skip(i + 1));
            assert(rest[0] == vs@[i as int]);
            push_char(&mut out, vs[i]);
            i = i + 1;
            assert(out@ + replaced(vs@.skip(i as int), vp@, vr@) =~= replaced(vs@, vp@, vr@));
        }
    }
    assert(replaced(vs@.skip(n as int), vp@, vr@) =~= Seq::<char>::empty()) by {
        assert(vs@.skip(n as int) =~= Seq::<char>::empty());
    }
    assert(out@ =~= replaced(vs@, vp@, vr@));
    out
}

/// The value of a string of decimal digits.
pub open spec fn digits_value(s: Seq<char>) -> nat
    decreases s.len(),
{
    if s.len() == 0 {
        0
    } else {
        digits_value(s.drop_last()) * 10 + ((s.last() as u32) - 48) as nat
    }
}

/// Every character of `s` is an ASCII digit.
pub open spec fn all_digits(s: Seq<char>) -> bool {
    forall|i: int| 0 <= i < s.len() ==> '0' <= #[trigger] s[i] && s[i] <= '9'
}

/// What `str::parse` gives for an unsigned integer type whose largest value is `max`:
/// an optional `+`, then one or more ASCII digits whose value does not exceed `max`.
pub open spec fn parsed_unsigned(s: Seq<char>, max: nat) -> Option<nat> {
    let d = if s.len() > 0 && s[0] == '+' { s.skip(1) } else { s };
    if d.len() == 0 || !all_digits(d) || digits_value(d) > max {
        None
    } else {
        Some(digits_value(d))
    }
}

/// Parses an unsigned integer no larger than `max` with the rules of `str::parse`.
pub fn parse_unsigned(s: &str, max: u64) -> (r: Option<u64>)
    requires
        max <= u32::MAX,
    ensures
        r matches Some(v) ==> parsed_unsigned(s@, max as nat) == Some(v as nat),
        r is None ==> parsed_unsigned(s@, max as nat) is None,
{
    let v = chars_of(s);
    let start: usize = if v.len() > 0 && v[0] == '+' { 1 } else { 0 };
    let ghost d = if s@.len() > 0 && s@[0] == '+' { s@.skip(1) } else { s@ };
    assert(d =~= v@.skip(start as int));
    if start == v.len() {
        assert(d.len() == 0);
        return None;
    }
    let mut acc: u64 = 0;
    let mut i: usize = start;
    while i < v.len()
        invariant
            v@ == s@,
            d == v@.skip(start as int),
            d == (if s@.len() > 0 && s@[0] == '+' { s@.skip(1) } else { s@ }),
            start <= i <= v@.len(),
            max <= u32::MAX,
            all_digits(v@.subrange(start as int, i as int)),
            acc == if digits_value(v@.subrange(start as int, i as int)) > max {
                (max + 1) as nat
            } else {
                digits_value(v@.subrange(start as int, i as int))
            },
        decreases v@.len() - i,
    {
        let c = v[i];
        if c < '0' || c > '9' {
            assert(d[i - start] == c);
            assert(!('0' <= d[i - start] && d[i - start] <= '9'));
            assert(!all_digits(d));
            return None;
        }
        let dv: u64 = (c as u32 - 48) as u64;
        assert(v@.subrange(start as int, i + 1).drop_last() =~= v@.subrange(start as int, i as int));
        if acc > max {
            acc = max + 1;
        } else {
            let next = acc * 10 + dv;
            acc = if next > max { max + 1 } else { next };
        }
        i = i + 1;
    }
    assert(v@.subrange(start as int, v@.len() as int) =~= d);
    if acc > max {
        None
    } else {
        Some(acc)
    }
}

/// Whether `c` has the Unicode `White_Space` property (PropList.txt): the controls
/// U+0009 to U+000D, the space, U+0085, the no-break space, the Ogham space mark, the
/// spaces U+2000 to U+200A, the line and paragraph separators, the narrow no-break
/// space, the medium mathematical space and the ideographic space.
pub open spec fn unicode_white_space(c: char) -> bool {
    let n = c as u32;
    ||| 0x09 <= n <= 0x0d
    ||| n == 0x20
    ||| n == 0x85
    ||| n == 0xa0
    ||| n == 0x1680
    ||| 0x2000 <= n <= 0x200a
    ||| n == 0x2028
    ||| n == 0x2029
    ||| n == 0x202f
    ||| n == 0x205f
    ||| n == 0x3000
}

/// `char::is_whitespace`: whether `c` has the Unicode `White_Space` property.
pub fn is_whitespace(c: char) -> (b: bool)
    ensures
        b == unicode_white_space(c),
        (c == ' ' || c == '\t' || c == '\n' || c == '\r') ==> b,
        ('0' <= c <= '9' || 'a' <= c <= 'z' || 'A' <= c <= 'Z') ==> !b,
{
    let n = c as u32;
    (0x09 <= n && n <= 0x0d) || n == 0x20 || n == 0x85 || n == 0xa0 || n == 0x1680 || (0x2000 <= n
        && n <= 0x200a) || n == 0x2028 || n == 0x2029 || n == 0x202f || n == 0x205f || n == 0x3000
}

/// `s` without its leading white space.
pub open spec fn trim_start(s: Seq<char>) -> Seq<char>
    decreases s.len(),
{
    if s.len() > 0 && unicode_white_space(s[0]) {
        trim_start(s.skip(1))
    } else {
        s
    }
}

/// `s` without its trailing white space.
pub open spec fn trim_end(s: Seq<char>) -> Seq<char>
    decreases s.len(),
{
    if s.len() > 0 && unicode_white_space(s.last()) {
        trim_end(s.drop_last())
    } else {
        s
    }
}

/// `s` without leading and trailing white space (`str::trim`).
pub open spec fn trimmed(s: Seq<char>) -> Seq<char> {
    trim_end(trim_start(s))
}

/// `str::trim`, as an owned string.
pub fn trim(s: &str) -> (r: String)
    ensures
        r@ == trimmed(s@),
{
    let v = chars_of(s);
    let n = v.len();
    let mut i: usize = 0;
    assert(v@.skip(0) =~= v@);
    while i < n && is_whitespace(v[i])
        invariant
            v@ == s@,
            n == v@.len(),
            i <= n,
            trim_start(v@.skip(i as int)) == trim_start(s@),
        decreases n - i,
    {
        assert(v@.skip(i as int).skip(1) =~= v@.skip(i + 1));
        i = i + 1;
    }
    assert(trim_start(s@) =~= v@.subrange(i as int, n as int)) by {
        assert(v@.skip(i as int) =~= v@.subrange(i as int, n as int));
    }
    let mut j: usize = n;
    while j > i && is_whitespace(v[j - 1])
        invariant
            v@ == s@,
            n == v@.len(),
            i <= j <= n,
            trim_end(v@.subrange(i as int, j as int)) == trimmed(s@),
        decreases j - i,
    {
        assert(v@.subrange(i as int, j as int).drop_last() =~= v@.subrange(i as int, j - 1));
        j = j - 1;
    }
    let mut r = String::new();
    append_chars(&mut r, &v, i, j);
    assert(r@ =~= trimmed(s@));
    r
}

/// The full Unicode lower-case mapping of `s`.
pub uninterp spec fn lowercase(s: Seq<char>) -> Seq<char>;

/// The full Unicode upper-case mapping of `s`.
pub uninterp spec fn uppercase(s: Seq<char>) -> Seq<char>;

/// Every character of `s` is ASCII.
pub open spec fn all_ascii(s: Seq<char>) -> bool {
    forall|i: int| 0 <= i < s.len() ==> (#[trigger] s[i] as u32) < 128
}

/// The ASCII upper-case form of `c`.
pub open spec fn ascii_upper(c: char) -> char {
    if 'a' <= c <= 'z' { ((c as u32) - 32) as char } else { c }
}

/// The ASCII lower-case form of `c`.
pub open spec fn ascii_lower(c: char) -> char {
    if 'A' <= c <= 'Z' { ((c as u32) + 32) as char } else { c }
}

/// `str::to_lowercase`. On ASCII text the Unicode mapping lowers `A`-`Z` one for one
/// and keeps every other character.
#[verifier::external_body]
pub(crate) fn to_lowercase(s: &str) -> (r: String)
    ensures
        r@ == lowercase(s@),
        all_ascii(s@) ==> r@ == s@.map_values(|c: char| ascii_lower(c)),
{
    s.to_lowercase()
}

/// `str::to_uppercase`. On ASCII text the Unicode mapping raises `a`-`z` one for one
/// and keeps every other character.
#[verifier::external_body]
pub(crate) fn to_uppercase(s: &str) -> (r: String)
    ensures
        r@ == uppercase(s@),
        all_ascii(s@) ==> r@ == s@.map_values(|c: char| ascii_upper(c)),
{
    s.to_uppercase()
}


/// The lines of `s` after `cur`, the part of the current line read so far.
pub open spec fn lines_after(s: Seq<char>, cur: Seq<char>) -> Seq<Seq<char>>
    decreases s.len(),
{
    if s.len() == 0 {
        if cur.len() == 0 { Seq::empty() } else { seq![cur] }
    } else if s[0] == '\n' {
        seq![strip_cr(cur)] + lines_after(s.skip(1), Seq::empty())
    } else {
        lines_after(s.skip(1), cur.push(s[0]))
    }
}

/// `l` without one trailing carriage return.
pub open spec fn strip_cr(l: Seq<char>) -> Seq<char> {
    if l.len() > 0 && l.last() == '\r' { l.drop_last() } else { l }
}

/// The lines of `s` as `str::lines` yields them: split at `\n` or `\r\n`, with the
/// final line ending optional.
pub open spec fn lines(s: Seq<char>) -> Seq<Seq<char>> {
    lines_after(s, Seq::empty())
}

/// The lines of `s`.
pub fn split_lines(s: &str) -> (out: Vec<String>)
    ensures
        out@.map_values(|l: String| l@) == lines(s@),
{
    let v = chars_of(s);
    let n = v.len();
    let mut out: Vec<String> = Vec::new();
    let mut cur = String::new();
    let mut i: usize = 0;
    assert(v@.skip(0) =~= v@);
    while i < n
        invariant
            v@ == s@,
            n == v@.len(),
            i <= n,
            out@.map_values(|l: String| l@) + lines_after(v@.skip(i as int), cur@) == lines(s@),
        decreases n - i,
    {
        let ghost rest = v@.skip(i as int);
        let ghost before = out@.map_values(|l: String| l@);
        assert(rest.skip(1) =~= v@.skip(i + 1));
        if v[i] == '\n' {
            let cv = chars_of(cur.as_str());
            let mut line = cur;
            if cv.len() > 0 && cv[cv.len() - 1] == '\r' {
                line = String::new();
                append_chars(&mut line, &cv, 0, cv.len() - 1);
                assert(line@ =~= cv@.drop_last());
            }
            assert(line@ == strip_cr(cv@));
            out.push(line);
            cur = String::new();
            assert(out@.map_values(|l: String| l@) =~= before + seq![strip_cr(cv@)]);
        } else {
            push_char(&mut cur, v[i]);
        }
        i = i + 1;
    }
    let ghost before = out@.map_values(|l: String| l@);
    if !cur.as_str().is_empty() {
        out.push(cur);
        assert(out@.map_values(|l: String| l@) =~= before + lines_after(v@.skip(n as int), cur@)) by {
            assert(v@.skip(n as int).len() == 0);
        }
    } else {
        assert(lines_after(v@.skip(n as int), cur@) =~= Seq::<Seq<char>>::empty()) by {
            assert(v@.skip(n as int).len() == 0);
        }
        assert(before + Seq::<Seq<char>>::empty() =~= before);
    }
    out
}

/// `p` occurs in `s` at position `i`.
pub open spec fn occurs_at(s: Seq<char>, p: Seq<char>, i: int) -> bool {
    0 <= i && i + p.len() <= s.len() && s.subrange(i, i + p.len()) == p
}

/// `p` occurs in `s`.
pub open spec fn contains_text(s: Seq<char>, p: Seq<char>) -> bool {
    exists|i: int| occurs_at(s, p, i)
}

/// `i` is the leftmost position of `p` in `s`.
pub open spec fn is_first_occurrence(s: Seq<char>, p: Seq<char>, i: int) -> bool {
    occurs_at(s, p, i) && forall|j: int| 0 <= j < i ==> !occurs_at(s, p, j)
}

/// The leftmost position of `p` in `s`.
pub open spec fn first_occurrence(s: Seq<char>, p: Seq<char>) -> int {
    choose|i: int| is_first_occurrence(s, p, i)
}

/// The text of `s` before the first `p` (all of `s` if `p` does not occur):
/// the first piece `str::split` yields.
pub open spec fn first_piece(s: Seq<char>, p: Seq<char>) -> Seq<char> {
    if contains_text(s, p) { s.take(first_occurrence(s, p)) } else { s }
}

/// The second piece of `s` split at `p` (`s.split(p).nth(1)`).
pub open spec fn second_piece(s: Seq<char>, p: Seq<char>) -> Option<Seq<char>> {
    if contains_text(s, p) {
        Some(first_piece(s.skip(first_occurrence(s, p) + p.len()), p))
    } else {
        None
    }
}

/// Any occurrence implies a leftmost one.
pub proof fn lemma_first_occurrence(s: Seq<char>, p: Seq<char>, w: int)
    requires
        occurs_at(s, p, w),
    ensures
        contains_text(s, p),
        is_first_occurrence(s, p, first_occurrence(s, p)),
    decreases w,
{
    if forall|j: int| 0 <= j < w ==> !occurs_at(s, p, j) {
        assert(is_first_occurrence(s, p, w));
    } else {
        let v = choose|j: int| 0 <= j < w && occurs_at(s, p, j);
        lemma_first_occurrence(s, p, v);
    }
}

/// The leftmost occurrence is unique.
pub proof fn lemma_first_occurrence_unique(s: Seq<char>, p: Seq<char>, i: int)
    requires
        is_first_occurrence(s, p, i),
    ensures
        first_occurrence(s, p) == i,
        contains_text(s, p),
{
    lemma_first_occurrence(s, p, i);
    let c = first_occurrence(s, p);
    if c < i {
        assert(!occurs_at(s, p, c));
    } else if i < c {
        assert(!occurs_at(s, p, i));
    }
}

/// The leftmost position of `p` in `v` at or after `from`.
pub fn find_from(v: &Vec<char>, p: &Vec<char>, from: usize) -> (r: Option<usize>)
    requires
        from <= v@.len(),
        p@.len() > 0,
    ensures
        r matches Some(i) ==> from <= i && occurs_at(v@, p@, i as int) && forall|j: int|
            from <= j < i ==> !occurs_at(v@, p@, j),
        r is None ==> forall|j: int| from <= j ==> !occurs_at(v@, p@, j),
{
    let n = v.len();
    let m = p.len();
    if m > n {
        return None;
    }
    let mut i = from;
    while i <= n - m
        invariant
            n == v@.len(),
            m == p@.len(),
            m > 0,
            m <= n,
            from <= i <= n,
            forall|j: int| from <= j < i ==> !occurs_at(v@, p@, j),
        decreases n - i,
    {
        if matches_at(v, p, i) {
            return Some(i);
        }
        i = i + 1;
    }
    None
}

/// `s.split(p).next()` (`p` non-empty).
pub fn first_piece_of(s: &str, p: &str) -> (r: String)
    requires
        p@.len() > 0,
    ensures
        r@ == first_piece(s@, p@),
{
    let v = chars_of(s);
    let pv = chars_of(p);
    match find_from(&v, &pv, 0) {
        Some(i) => {
            proof {
                lemma_first_occurrence_unique(s@, p@, i as int);
            }
            let mut r = String::new();
            append_chars(&mut r, &v, 0, i);
            assert(r@ =~= s@.take(i as int));
            r
        },
        None => {
            let r = string_of(&v);
            r
        },
    }
}

/// `s.split(p).nth(1)` (`p` non-empty).
pub fn second_piece_of(s: &str, p: &str) -> (r: Option<String>)
    requires
        p@.len() > 0,
    ensures
        r matches Some(t) ==> second_piece(s@, p@) == Some(t@),
        r is None ==> second_piece(s@, p@) is None,
{
    let v = chars_of(s);
    let pv = chars_of(p);
    match find_from(&v, &pv, 0) {
        None => None,
        Some(i) => {
            proof {
                lemma_first_occurrence_unique(s@, p@, i as int);
            }
            let vl = v.len();
            assert(i + pv@.len() <= vl);
            let start = i + pv.len();
            let ghost rest = s@.skip(start as int);
            match find_from(&v, &pv, start) {
                Some(j) => {
                    assert(occurs_at(rest, p@, j - start)) by {
                        assert(rest.subrange(j - start, j - start + p@.len()) =~= v@.subrange(j as int, j + p@.len()));
                    }
                    assert forall|k: int| 0 <= k < j - start implies !occurs_at(rest, p@, k) by {
                        if occurs_at(rest, p@, k) {
                            assert(rest.subrange(k, k + p@.len()) =~= v@.subrange(start + k, start + k + p@.len()));
                            assert(occurs_at(v@, p@, start + k));
                        }
                    }
                    proof {
                        lemma_first_occurrence_unique(rest, p@, j - start);
                    }
                    let mut r = String::new();
                    append_chars(&mut r, &v, start, j);
                    assert(r@ =~= rest.take(j - start));
                    Some(r)
                },
                None => {
                    assert forall|k: int| !occurs_at(rest, p@, k) by {
                        if occurs_at(rest, p@, k) {
                            assert(rest.subrange(k, k + p@.len()) =~= v@.subrange(start + k, start + k + p@.len()));
                            assert(occurs_at(v@, p@, start + k));
                        }
                    }
                    let mut r = String::new();
                    append_chars(&mut r, &v, start, v.len());
                    assert(r@ =~= rest);
                    Some(r)
                },
            }
        },
    }
}

/// Whether `p` occurs in `s` (`str::contains` with a string pattern, `p` non-empty).
pub fn contains(s: &str, p: &str) -> (r: bool)
    requires
        p@.len() > 0,
    ensures
        r == contains_text(s@, p@),
{
    let v = chars_of(s);
    let pv = chars_of(p);
    match find_from(&v, &pv, 0) {
        Some(i) => {
            assert(occurs_at(s@, p@, i as int));
            true
        },
        None => false,
    }
}

/// The leading run of non-white-space characters of `t`.
pub open spec fn leading_word(t: Seq<char>) -> Seq<char>
    decreases t.len(),
{
    if t.len() == 0 || unicode_white_space(t[0]) {
        Seq::empty()
    } else {
        seq![t[0]] + leading_word(t.skip(1))
    }
}

/// The first white-space separated word of `s` (`s.split_whitespace().next()`).
pub open spec fn first_word(s: Seq<char>) -> Option<Seq<char>> {
    let t = trim_start(s);
    if t.len() == 0 { None } else { Some(leading_word(t)) }
}

/// The first white-space separated word of `s`.
pub fn first_word_of(s: &str) -> (r: Option<String>)
    ensures
        r matches Some(w) ==> first_word(s@) == Some(w@),
        r is None ==> first_word(s@) is None,
{
    let v = chars_of(s);
    let n = v.len();
    let mut i: usize = 0;
    assert(v@.skip(0) =~= v@);
    while i < n && is_whitespace(v[i])
        invariant
            v@ == s@,
            n == v@.len(),
            i <= n,
            trim_start(v@.skip(i as int)) == trim_start(s@),
        decreases n - i,
    {
        assert(v@.skip(i as int).skip(1) =~= v@.skip(i + 1));
        i = i + 1;
    }
    if i == n {
        assert(v@.skip(i as int).len() == 0);
        return None;
    }
    let start = i;
    let ghost t = v@.skip(start as int);
    assert(trim_start(s@) == t);
    let mut j = start;
    while j < n && !is_whitespace(v[j])
        invariant
            v@ == s@,
            n == v@.len(),
            start <= j <= n,
            t == v@.skip(start as int),
            leading_word(t) == v@.subrange(start as int, j as int) + leading_word(v@.skip(j as int)),
        decreases n - j,
    {
        assert(v@.skip(j as int).skip(1) =~= v@.skip(j + 1));
        assert(v@.subrange(start as int, j + 1) =~= v@.subrange(start as int, j as int) + seq![v@[j as int]]);
        j = j + 1;
    }
    assert(leading_word(v@.skip(j as int)) =~= Seq::<char>::empty());
    let mut r = String::new();
    append_chars(&mut r, &v, start, j);
    assert(r@ =~= leading_word(t));
    Some(r)
}

/// `s` with every `c` removed (`s.replace(c, "")`).
pub fn remove_char(s: &str, c: char) -> (r: String)
    ensures
        r@ == s@.filter(|x: char| x != c),
{
    let v = chars_of(s);
    let mut r = String::new();
    let mut i: usize = 0;
    while i < v.len()
        invariant
            v@ == s@,
            i <= v@.len(),
            r@ == v@.take(i as int).filter(|x: char| x != c),
        decreases v@.len() - i,
    {
        proof {
            reveal_with_fuel(Seq::<_>::filter, 1);
            assert(v@.take(i + 1).drop_last() =~= v@.take(i as int));
        }
        if v[i] != c {
            push_char(&mut r, v[i]);
        }
        i = i + 1;
    }
    assert(v@.take(i as int) =~= v@);
    r
}

/// The upper-case hexadecimal digit for `d < 16`.
pub open spec fn hex_digit(d: int) -> char {
    if d < 10 { digit_char(d) }
    else if d == 10 { 'A' }
    else if d == 11 { 'B' }
    else if d == 12 { 'C' }
    else if d == 13 { 'D' }
    else if d == 14 { 'E' }
    else { 'F' }
}

/// Two upper-case hexadecimal digits per byte, most significant first.
pub open spec fn hex_upper(b: Seq<u8>) -> Seq<char>
    decreases b.len(),
{
    if b.len() == 0 {
        Seq::empty()
    } else {
        hex_upper(b.drop_last()) + seq![hex_digit(b.last() as int / 16), hex_digit(b.last() as int % 16)]
    }
}

/// The hexadecimal digit for `d < 16`.
fn hex_char(d: u8) -> (c: char)
    requires
        d < 16,
    ensures
        c == hex_digit(d as int),
{
    if d < 10 {
        digit(d as u64)
    } else if d == 10 { 'A' }
    else if d == 11 { 'B' }
    else if d == 12 { 'C' }
    else if d == 13 { 'D' }
    else if d == 14 { 'E' }
    else { 'F' }
}

/// The first `n` bytes of `b` in upper-case hexadecimal.
pub fn hex_prefix(b: &Vec<u8>, n: usize) -> (r: String)
    requires
        n <= b@.len(),
    ensures
        r@ == hex_upper(b@.take(n as int)),
{
    let mut r = String::new();
    let mut i: usize = 0;
    assert(b@.take(0) =~= Seq::<u8>::empty());
    while i < n
        invariant
            n <= b@.len(),
            i <= n,
            r@ == hex_upper(b@.take(i as int)),
        decreases n - i,
    {
        assert(b@.take(i + 1).drop_last() =~= b@.take(i as int));
        push_char(&mut r, hex_char(b[i] / 16));
        push_char(&mut r, hex_char(b[i] % 16));
        i = i + 1;
    }
    r
}


/// `parts` joined with `sep` between consecutive parts.
pub open spec fn joined(parts: Seq<Seq<char>>, sep: Seq<char>) -> Seq<char>
    decreases parts.len(),
{
    if parts.len() == 0 {
        Seq::empty()
    } else if parts.len() == 1 {
        parts[0]
    } else {
        joined(parts.drop_last(), sep) + sep + parts.last()
    }
}

/// The characters of each string.
pub open spec fn strings_view(v: Seq<String>) -> Seq<Seq<char>> {
    v.map_values(|s: String| s@)
}

/// `parts.join(sep)`.
pub fn join(parts: &Vec<String>, sep: &str) -> (r: String)
    ensures
        r@ == joined(strings_view(parts@), sep@),
{
    let ghost pv = strings_view(parts@);
    let mut r = String::new();
    let mut i: usize = 0;
    assert(pv.take(0) =~= Seq::<Seq<char>>::empty());
    while i < parts.len()
        invariant
            pv == strings_view(parts@),
            i <= parts@.len(),
            r@ == joined(pv.take(i as int), sep@),
        decreases parts@.len() - i,
    {
        assert(pv.take(i + 1).drop_last() =~= pv.take(i as int));
        if i != 0 {
            append_str(&mut r, sep);
        }
        append_str(&mut r, parts[i].as_str());
        i = i + 1;
        assert(i == 1 ==> pv.take(i as int) =~= seq![pv[0]]);
        assert(i == 1 ==> r@ =~= pv[0]);
    }
    assert(pv.take(i as int) =~= pv);
    r
}

/// `hex_upper` writes two ASCII characters per byte.
pub proof fn lemma_hex_upper(b: Seq<u8>)
    ensures
        hex_upper(b).len() == 2 * b.len(),
        all_ascii(hex_upper(b)),
    decreases b.len(),
{
    if b.len() > 0 {
        lemma_hex_upper(b.drop_last());
        let h = hex_upper(b);
        let h0 = hex_upper(b.drop_last());
        assert forall|i: int| 0 <= i < h.len() implies (#[trigger] h[i] as u32) < 128 by {
            if i < h0.len() {
                assert(h[i] == h0[i]);
            }
        }
    }
}

/// The first `n` characters of an ASCII string (`&s[..n]`).
pub fn ascii_take(s: &str, n: usize) -> (r: String)
    requires
        all_ascii(s@),
        n <= s@.len(),
    ensures
        r@ == s@.take(n as int),
{
    let v = chars_of(s);
    let mut r = String::new();
    append_chars(&mut r, &v, 0, n);
    assert(v@.subrange(0, n as int) =~= s@.take(n as int));
    r
}

/// The trailing run of non-white-space characters of `t`.
pub open spec fn trailing_word(t: Seq<char>) -> Seq<char>
    decreases t.len(),
{
    if t.len() == 0 || unicode_white_space(t.last()) {
        Seq::empty()
    } else {
        trailing_word(t.drop_last()).push(t.last())
    }
}

/// The last white-space separated word of `s` (`s.split_whitespace().last()`).
pub open spec fn last_word(s: Seq<char>) -> Option<Seq<char>> {
    let t = trim_end(s);
    if t.len() == 0 { None } else { Some(trailing_word(t)) }
}

/// The last white-space separated word of `s`.
pub fn last_word_of(s: &str) -> (r: Option<String>)
    ensures
        r matches Some(w) ==> last_word(s@) == Some(w@),
        r is None ==> last_word(s@) is None,
{
    let v = chars_of(s);
    let n = v.len();
    let mut j: usize = n;
    assert(v@.take(n as int) =~= v@);
    while j > 0 && is_whitespace(v[j - 1])
        invariant
            v@ == s@,
            n == v@.len(),
            j <= n,
            trim_end(v@.take(j as int)) == trim_end(s@),
        decreases j,
    {
        assert(v@.take(j as int).drop_last() =~= v@.take(j - 1));
        j = j - 1;
    }
    if j == 0 {
        assert(v@.take(0).len() == 0);
        return None;
    }
    let end = j;
    let ghost t = v@.take(end as int);
    assert(trim_end(s@) == t);
    let mut i = end;
    while i > 0 && !is_whitespace(v[i - 1])
        invariant
            v@ == s@,
            n == v@.len(),
            i <= end <= n,
            t == v@.take(end as int),
            trailing_word(t) == trailing_word(v@.take(i as int)) + v@.subrange(i as int, end as int),
        decreases i,
    {
        assert(v@.take(i as int).drop_last() =~= v@.take(i - 1));
        assert(v@.subrange(i - 1, end as int) =~= seq![v@[i - 1]] + v@.subrange(i as int, end as int));
        assert(trailing_word(v@.take(i as int)) == trailing_word(v@.take(i - 1)).push(v@[i - 1]));
        assert(trailing_word(v@.take(i - 1)).push(v@[i - 1]) + v@.subrange(i as int, end as int)
            =~= trailing_word(v@.take(i - 1)) + v@.subrange(i - 1, end as int));
        i = i - 1;
    }
    assert(trailing_word(v@.take(i as int)) =~= Seq::<char>::empty());
    let mut r = String::new();
    append_chars(&mut r, &v, i, end);
    assert(r@ =~= trailing_word(t));
    Some(r)
}

} // verus!
