//! Text helpers on character sequences: comparison, searching, line
//! splitting and decimal rendering. Strings are modelled by their view, a
//! `Seq<char>`.

use vstd::prelude::*;
use vstd::string::*;

verus! {

/// `needle` occurs in `hay` starting at position `i`.
pub open spec fn occurs_at(needle: Seq<char>, hay: Seq<char>, i: int) -> bool {
    &&& 0 <= i
    &&& i + needle.len() <= hay.len()
    &&& hay.subrange(i, i + needle.len()) == needle
}

/// `needle` occurs somewhere in `hay`.
pub open spec fn occurs_in(needle: Seq<char>, hay: Seq<char>) -> bool {
    exists|i: int| occurs_at(needle, hay, i)
}

/// `needle` occurs in `hay` at position `i` and nowhere before it.
pub open spec fn first_at(needle: Seq<char>, hay: Seq<char>, i: int) -> bool {
    &&& occurs_at(needle, hay, i)
    &&& forall|j: int| 0 <= j < i ==> !occurs_at(needle, hay, j)
}

/// What stands in `text` between `prefix`, with which it begins, and the
/// first occurrence of `end` after that; nothing where `text` does not begin
/// with `prefix` or `end` does not follow.
pub open spec fn text_between(text: Seq<char>, prefix: Seq<char>, end: Seq<char>) -> Option<
    Seq<char>,
> {
    if prefix.is_prefix_of(text) && occurs_in(end, text.skip(prefix.len() as int)) {
        let rest = text.skip(prefix.len() as int);
        Some(rest.take(choose|i: int| first_at(end, rest, i)))
    } else {
        None
    }
}

/// An occurrence that is the first is the only one that is.
pub proof fn lemma_first_at_is_unique(needle: Seq<char>, hay: Seq<char>, i: int, j: int)
    requires
        first_at(needle, hay, i),
        first_at(needle, hay, j),
    ensures
        i == j,
{
    if i < j {
        assert(!occurs_at(needle, hay, i));
    } else if j < i {
        assert(!occurs_at(needle, hay, j));
    }
}

/// The character for a single decimal digit.
pub open spec fn digit_char(d: int) -> char {
    if d == 0 {
        '0'
    } else if d == 1 {
        '1'
    } else if d == 2 {
        '2'
    } else if d == 3 {
        '3'
    } else if d == 4 {
        '4'
    } else if d == 5 {
        '5'
    } else if d == 6 {
        '6'
    } else if d == 7 {
        '7'
    } else if d == 8 {
        '8'
    } else {
        '9'
    }
}

/// Decimal digits of `n`, most significant first, without leading zeros.
pub open spec fn decimal_digits(n: nat) -> Seq<char>
    decreases n,
{
    if n < 10 {
        seq![digit_char(n as int)]
    } else {
        decimal_digits(n / 10).push(digit_char((n % 10) as int))
    }
}

/// Decimal rendering of a signed number: a minus sign for negatives, then the
/// digits of the magnitude.
pub open spec fn signed_decimal_digits(n: int) -> Seq<char> {
    if n < 0 {
        seq!['-'] + decimal_digits((-n) as nat)
    } else {
        decimal_digits(n as nat)
    }
}

/// Position of the first line feed in `s`, or `s.len()` when it has none.
pub open spec fn line_end(s: Seq<char>) -> int
    decreases s.len(),
{
    if s.len() == 0 {
        0
    } else if s[0] == '\n' {
        0
    } else {
        1 + line_end(s.skip(1))
    }
}

/// `line` without one trailing carriage return.
pub open spec fn strip_cr(line: Seq<char>) -> Seq<char> {
    if line.len() > 0 && line.last() == '\r' {
        line.drop_last()
    } else {
        line
    }
}

/// The lines of `s`. A line ends at a line feed; a carriage return directly
/// before that line feed belongs to the terminator. A last line without a
/// terminator is kept as it is, and a terminator at the very end opens no
/// further line.
pub open spec fn lines_of(s: Seq<char>) -> Seq<Seq<char>>
    decreases s.len(),
{
    if s.len() == 0 {
        Seq::empty()
    } else {
        let e = line_end(s);
        if 0 <= e < s.len() {
            seq![strip_cr(s.take(e))] + lines_of(s.skip(e + 1))
        } else {
            seq![s]
        }
    }
}

/// The first line of `s`, empty when `s` has no line.
pub open spec fn first_line_of(s: Seq<char>) -> Seq<char> {
    if lines_of(s).len() > 0 {
        lines_of(s)[0]
    } else {
        Seq::empty()
    }
}

/// `s` with every backslash turned into a forward slash.
pub open spec fn forward_slashes(s: Seq<char>) -> Seq<char> {
    s.map_values(|c: char| if c == '\\' { '/' } else { c })
}

/// The first `n` characters of `s`, or all of `s` when it is shorter.
pub open spec fn leading(s: Seq<char>, n: int) -> Seq<char> {
    if s.len() <= n {
        s
    } else {
        s.take(n)
    }
}

/// The first line feed of `s` is where a scan finds it.
pub proof fn lemma_line_end_at(s: Seq<char>, k: int)
    requires
        0 <= k <= s.len(),
        forall|j: int| 0 <= j < k ==> s[j] != '\n',
        k < s.len() ==> s[k] == '\n',
    ensures
        line_end(s) == k,
    decreases k,
{
    if k > 0 {
        let t = s.skip(1);
        assert forall|j: int| 0 <= j < k - 1 implies t[j] != '\n' by {
            assert(t[j] == s[j + 1]);
        }
        lemma_line_end_at(t, k - 1);
    }
}

/// The characters of `s`, in order.
pub fn to_chars(s: &str) -> (v: Vec<char>)
    ensures
        v@ == s@,
{
    let mut v: Vec<char> = Vec::new();
    for c in it: s.chars()
        invariant
            v@ == it.seq().take(it.index() as int),
            it.seq() == s@,
    {
        v.push(c);
    }
    v
}

/// `String::from_iter` over the characters of a vector: the string made of
/// exactly these characters, in this order.
#[verifier::external_body]
pub(crate) fn from_chars(chars: &Vec<char>) -> (s: String)
    ensures
        s@ == chars@,
{
    String::from_iter(chars.iter())
}

/// `a` followed by `b`.
pub fn join2(a: &str, b: &str) -> (r: String)
    ensures
        r@ == a@ + b@,
{
    let mut r = a.to_owned();
    r.append(b);
    r
}

/// `a`, `b` and `c` one after the other.
pub fn join3(a: &str, b: &str, c: &str) -> (r: String)
    ensures
        r@ == a@ + b@ + c@,
{
    let mut r = a.to_owned();
    r.append(b);
    r.append(c);
    r
}

fn matches_at(hay: &Vec<char>, needle: &Vec<char>, i: usize) -> (r: bool)
    requires
        i + needle.len() <= hay.len(),
    ensures
        r == occurs_at(needle@, hay@, i as int),
{
    let mut k: usize = 0;
    while k < needle.len()
        invariant
            k <= needle.len(),
            i + needle.len() <= hay.len(),
            forall|j: int| 0 <= j < k ==> hay@[i + j] == needle@[j],
        decreases needle.len() - k,
    {
        if hay[i + k] != needle[k] {
            proof {
                let sub = hay@.subrange(i as int, i + needle@.len());
                assert(sub[k as int] == hay@[i + k]);
            }
            return false;
        }
        k += 1;
    }
    proof {
        assert(hay@.subrange(i as int, i + needle@.len()) =~= needle@);
    }
    true
}

/// Whether `s` begins with `prefix`.
pub fn starts_with(s: &str, prefix: &str) -> (r: bool)
    ensures
        r == prefix@.is_prefix_of(s@),
{
    let hay = to_chars(s);
    let needle = to_chars(prefix);
    if needle.len() > hay.len() {
        return false;
    }
    let r = matches_at(&hay, &needle, 0);
    proof {
        assert(hay@.subrange(0, needle@.len() as int) =~= hay@.take(needle@.len() as int));
        if prefix@.is_prefix_of(s@) {
            assert(hay@.subrange(0, needle@.len() as int) =~= needle@);
        }
    }
    r
}

fn find_in(hay: &Vec<char>, pat: &Vec<char>) -> (r: Option<usize>)
    ensures
        match r {
            Some(i) => first_at(pat@, hay@, i as int),
            None => !occurs_in(pat@, hay@),
        },
{
    if pat.len() > hay.len() {
        return None;
    }
    let last: usize = hay.len() - pat.len();
    let mut i: usize = 0;
    loop
        invariant
            i <= last,
            last == hay.len() - pat.len(),
            pat.len() <= hay.len(),
            forall|j: int| 0 <= j < i ==> !occurs_at(pat@, hay@, j),
        decreases last - i,
    {
        if matches_at(hay, pat, i) {
            return Some(i);
        }
        if i == last {
            return None;
        }
        i += 1;
    }
}

/// Where `needle` first occurs in `s`, counted in characters.
pub fn find(s: &str, needle: &str) -> (r: Option<usize>)
    ensures
        match r {
            Some(i) => first_at(needle@, s@, i as int),
            None => !occurs_in(needle@, s@),
        },
{
    let hay = to_chars(s);
    let pat = to_chars(needle);
    find_in(&hay, &pat)
}

/// Whether `needle` occurs in `s`.
pub fn contains(s: &str, needle: &str) -> (r: bool)
    ensures
        r == occurs_in(needle@, s@),
{
    match find(s, needle) {
        Some(i) => {
            assert(occurs_at(needle@, s@, i as int));
            true
        },
        None => false,
    }
}

/// What stands in `text` between `prefix` and the first `end` after it.
pub fn between(text: &str, prefix: &str, end: &str) -> (r: Option<String>)
    ensures
        (match r {
            Some(t) => Some(t@),
            None => None,
        }) == text_between(text@, prefix@, end@),
{
    let chars = to_chars(text);
    let start = to_chars(prefix);
    let stop = to_chars(end);
    if start.len() > chars.len() {
        return None;
    }
    let begins = matches_at(&chars, &start, 0);
    proof {
        assert(chars@.subrange(0, start@.len() as int) =~= chars@.take(start@.len() as int));
        if prefix@.is_prefix_of(text@) {
            assert(chars@.subrange(0, start@.len() as int) =~= start@);
        }
    }
    if !begins {
        return None;
    }
    let rest = slice_of(&chars, start.len(), chars.len());
    proof {
        assert(rest@ =~= text@.skip(prefix@.len() as int));
    }
    match find_in(&rest, &stop) {
        Some(i) => {
            let found = slice_of(&rest, 0, i);
            proof {
                assert(occurs_in(stop@, rest@));
                let k = choose|k: int| first_at(stop@, rest@, k);
                lemma_first_at_is_unique(stop@, rest@, i as int, k);
                assert(found@ =~= rest@.take(i as int));
            }
            Some(from_chars(&found))
        },
        None => None,
    }
}

/// The first `n` characters of `s`, or all of it when it is shorter.
pub fn leading_chars(s: &str, n: usize) -> (r: String)
    ensures
        r@ == leading(s@, n as int),
{
    let len = s.unicode_len();
    if len <= n {
        s.to_owned()
    } else {
        let r = s.substring_char(0, n).to_owned();
        proof {
            assert(s@.subrange(0, n as int) =~= s@.take(n as int));
        }
        r
    }
}

/// `s` with every backslash turned into a forward slash.
pub fn with_forward_slashes(s: &str) -> (r: String)
    ensures
        r@ == forward_slashes(s@),
{
    let chars = to_chars(s);
    let mut out: Vec<char> = Vec::new();
    let mut i: usize = 0;
    while i < chars.len()
        invariant
            i <= chars.len(),
            out@ == forward_slashes(chars@.take(i as int)),
        decreases chars.len() - i,
    {
        let c = chars[i];
        out.push(if c == '\\' { '/' } else { c });
        proof {
            assert(out@ =~= forward_slashes(chars@.take(i + 1)));
        }
        i += 1;
    }
    proof {
        assert(chars@.take(chars@.len() as int) =~= chars@);
    }
    from_chars(&out)
}

fn digit_of(d: u64) -> (c: char)
    requires
        d < 10,
    ensures
        c == digit_char(d as int),
{
    if d == 0 {
        '0'
    } else if d == 1 {
        '1'
    } else if d == 2 {
        '2'
    } else if d == 3 {
        '3'
    } else if d == 4 {
        '4'
    } else if d == 5 {
        '5'
    } else if d == 6 {
        '6'
    } else if d == 7 {
        '7'
    } else if d == 8 {
        '8'
    } else {
        '9'
    }
}

fn push_decimal(n: u64, out: &mut Vec<char>)
    ensures
        final(out)@ == old(out)@ + decimal_digits(n as nat),
    decreases n,
{
    if n < 10 {
        out.push(digit_of(n));
        proof {
            assert(out@ =~= old(out)@ + decimal_digits(n as nat));
        }
    } else {
        push_decimal(n / 10, out);
        out.push(digit_of(n % 10));
        proof {
            assert(out@ =~= old(out)@ + decimal_digits(n as nat));
        }
    }
}

/// `n` in decimal.
pub fn decimal(n: u64) -> (r: String)
    ensures
        r@ == decimal_digits(n as nat),
{
    let mut out: Vec<char> = Vec::new();
    push_decimal(n, &mut out);
    proof {
        assert(out@ =~= decimal_digits(n as nat));
    }
    from_chars(&out)
}

/// `n` in decimal, with a leading minus sign when it is negative.
pub fn signed_decimal(n: i64) -> (r: String)
    ensures
        r@ == signed_decimal_digits(n as int),
{
    let mut out: Vec<char> = Vec::new();
    if n < 0 {
        out.push('-');
        let magnitude: u64 = if n == i64::MIN {
            9223372036854775808u64
        } else {
            (-n) as u64
        };
        push_decimal(magnitude, &mut out);
        proof {
            assert(out@ =~= signed_decimal_digits(n as int));
        }
    } else {
        push_decimal(n as u64, &mut out);
        proof {
            assert(out@ =~= signed_decimal_digits(n as int));
        }
    }
    from_chars(&out)
}

fn slice_of(chars: &Vec<char>, from: usize, to: usize) -> (r: Vec<char>)
    requires
        from <= to <= chars.len(),
    ensures
        r@ == chars@.subrange(from as int, to as int),
{
    let mut r: Vec<char> = Vec::new();
    let mut i: usize = from;
    while i < to
        invariant
            from <= i <= to,
            to <= chars.len(),
            r@ == chars@.subrange(from as int, i as int),
        decreases to - i,
    {
        r.push(chars[i]);
        proof {
            assert(r@ =~= chars@.subrange(from as int, i + 1));
        }
        i += 1;
    }
    r
}

/// The lines of `s`, split as `lines_of` says.
pub fn split_lines(s: &str) -> (r: Vec<String>)
    ensures
        r@.map_values(|l: String| l@) == lines_of(s@),
{
    let chars = to_chars(s);
    let n = chars.len();
    let mut r: Vec<String> = Vec::new();
    let mut start: usize = 0;
    let mut i: usize = 0;
    proof {
        assert(chars@.skip(0) =~= chars@);
        assert(r@.map_values(|l: String| l@) + lines_of(chars@) =~= lines_of(chars@));
    }
    while i < n
        invariant
            n == chars.len(),
            start <= i <= n,
            forall|j: int| start <= j < i ==> chars@[j] != '\n',
            lines_of(chars@) == r@.map_values(|l: String| l@) + lines_of(chars@.skip(start as int)),
        decreases n - i,
    {
        if chars[i] == '\n' {
            let has_cr = i > start && chars[i - 1] == '\r';
            let end = if has_cr { i - 1 } else { i };
            let piece = slice_of(&chars, start, end);
            let line = from_chars(&piece);
            proof {
                let rest = chars@.skip(start as int);
                let k = i - start;
                assert forall|j: int| 0 <= j < k implies rest[j] != '\n' by {
                    assert(rest[j] == chars@[start + j]);
                }
                assert(rest[k] == chars@[i as int]);
                lemma_line_end_at(rest, k);
                assert(rest.take(k) =~= chars@.subrange(start as int, i as int));
                assert(strip_cr(rest.take(k)) =~= piece@);
                assert(rest.skip(k + 1) =~= chars@.skip(i + 1));
                let old_lines = r@.map_values(|l: String| l@);
                assert(r@.push(line).map_values(|l: String| l@) =~= old_lines.push(line@));
                assert(old_lines + (seq![piece@] + lines_of(chars@.skip(i + 1)))
                    =~= old_lines.push(line@) + lines_of(chars@.skip(i + 1)));
            }
            r.push(line);
            start = i + 1;
        }
        i += 1;
    }
    if start < n {
        let piece = slice_of(&chars, start, n);
        let line = from_chars(&piece);
        proof {
            let rest = chars@.skip(start as int);
            assert forall|j: int| 0 <= j < rest.len() implies rest[j] != '\n' by {
                assert(rest[j] == chars@[start + j]);
            }
            lemma_line_end_at(rest, rest.len() as int);
            assert(rest =~= piece@);
            let old_lines = r@.map_values(|l: String| l@);
            assert(r@.push(line).map_values(|l: String| l@) =~= old_lines.push(line@));
            assert(old_lines + seq![rest] =~= old_lines.push(line@));
        }
        r.push(line);
    } else {
        proof {
            let old_lines = r@.map_values(|l: String| l@);
            assert(chars@.skip(start as int).len() == 0);
            assert(old_lines + Seq::<Seq<char>>::empty() =~= old_lines);
        }
    }
    r
}

/// The first line of `s`, empty when `s` is empty.
pub fn first_line(s: &str) -> (r: String)
    ensures
        r@ == first_line_of(s@),
{
    let lines = split_lines(s);
    if lines.len() > 0 {
        let r = lines[0].clone();
        proof {
            assert(lines@.map_values(|l: String| l@)[0] == lines@[0]@);
        }
        r
    } else {
        String::new()
    }
}

} // verus!
