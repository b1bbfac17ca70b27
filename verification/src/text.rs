//! Character-level text helpers shared by the library: decimal rendering,
//! substring search and whitespace trimming over a string's characters.
use vstd::prelude::*;

verus! {

/// The character of a decimal digit `d` (`0 <= d < 10`).
pub open spec fn digit_char(d: int) -> char {
    (48 + d) as char
}

/// The decimal rendering of a natural number, most significant digit first,
/// without leading zeros (zero renders as "0").
pub open spec fn decimal(n: nat) -> Seq<char>
    decreases n,
{
    if n < 10 {
        seq![digit_char(n as int)]
    } else {
        decimal(n / 10) + seq![digit_char((n % 10) as int)]
    }
}

/// `pat` occurs in `text` at position `i`.
pub open spec fn occurs_at(text: Seq<char>, pat: Seq<char>, i: int) -> bool {
    0 <= i && i + pat.len() <= text.len() && text.subrange(i, i + pat.len()) == pat
}

/// `pat` occurs somewhere in `text` (the empty pattern occurs in every text).
pub open spec fn has_sub(text: Seq<char>, pat: Seq<char>) -> bool {
    exists|i: int| #[trigger] occurs_at(text, pat, i)
}

/// `text` begins with `pat`.
pub open spec fn has_prefix(text: Seq<char>, pat: Seq<char>) -> bool {
    occurs_at(text, pat, 0)
}

/// The characters that Unicode gives the White_Space property, which is what
/// `char::is_whitespace` and `str::trim` go by.
pub open spec fn is_white(c: char) -> bool {
    let u = c as u32;
    (0x9 <= u && u <= 0xD) || u == 0x20 || u == 0x85 || u == 0xA0 || u == 0x1680 || (0x2000 <= u
        && u <= 0x200A) || u == 0x2028 || u == 0x2029 || u == 0x202F || u == 0x205F || u == 0x3000
}

/// `s` without its leading white space.
pub open spec fn trim_start(s: Seq<char>) -> Seq<char>
    decreases s.len(),
{
    if s.len() > 0 && is_white(s[0]) {
        trim_start(s.drop_first())
    } else {
        s
    }
}

/// `s` without its trailing white space.
pub open spec fn trim_end(s: Seq<char>) -> Seq<char>
    decreases s.len(),
{
    if s.len() > 0 && is_white(s.last()) {
        trim_end(s.drop_last())
    } else {
        s
    }
}

/// `s` without leading and trailing white space.
pub open spec fn trimmed(s: Seq<char>) -> Seq<char> {
    trim_end(trim_start(s))
}

fn digit_str(d: u32) -> (r: &'static str)
    requires
        d < 10,
    ensures
        r@ == seq![digit_char(d as int)],
{
    proof {
        reveal_strlit("0");
        reveal_strlit("1");
        reveal_strlit("2");
        reveal_strlit("3");
        reveal_strlit("4");
        reveal_strlit("5");
        reveal_strlit("6");
        reveal_strlit("7");
        reveal_strlit("8");
        reveal_strlit("9");
    }
    match d {
        0 => "0",
        1 => "1",
        2 => "2",
        3 => "3",
        4 => "4",
        5 => "5",
        6 => "6",
        7 => "7",
        8 => "8",
        _ => "9",
    }
}

/// Appends the decimal rendering of `n` to `s`.
pub fn push_decimal(s: &mut String, n: u32)
    ensures
        final(s)@ == old(s)@ + decimal(n as nat),
    decreases n,
{
    if n >= 10 {
        push_decimal(s, n / 10);
    }
    s.append(digit_str(n % 10));
}

/// Appends the decimal rendering of a `usize` to `s`.
pub fn push_decimal_usize(s: &mut String, n: usize)
    ensures
        final(s)@ == old(s)@ + decimal(n as nat),
    decreases n,
{
    if n >= 10 {
        push_decimal_usize(s, n / 10);
    }
    s.append(digit_str((n % 10) as u32));
}

/// The characters of `s`, in order.
pub fn chars_of(s: &str) -> (v: Vec<char>)
    ensures
        v@ == s@,
{
    let mut v: Vec<char> = Vec::new();
    for c in it: s.chars()
        invariant
            v@ == it.seq().take(it.index() as int),
    {
        v.push(c);
    }
    v
}

fn matches_at(text: &Vec<char>, pat: &Vec<char>, i: usize) -> (r: bool)
    requires
        i + pat@.len() <= text@.len(),
    ensures
        r == occurs_at(text@, pat@, i as int),
{
    let tl = text.len();
    let mut j: usize = 0;
    while j < pat.len()
        invariant
            tl == text@.len(),
            i + pat@.len() <= text@.len(),
            j <= pat@.len(),
            forall|k: int| 0 <= k < j ==> text@[i + k] == pat@[k],
        decreases pat@.len() - j,
    {
        if text[i + j] != pat[j] {
            assert(text@.subrange(i as int, i + pat@.len())[j as int] != pat@[j as int]);
            return false;
        }
        j += 1;
    }
    assert(text@.subrange(i as int, i + pat@.len()) =~= pat@);
    true
}

/// Whether `pat` occurs in the character sequence `text`.
pub fn seq_contains(text: &Vec<char>, pat: &Vec<char>) -> (r: bool)
    ensures
        r == has_sub(text@, pat@),
{
    if pat.len() > text.len() {
        return false;
    }
    let last = text.len() - pat.len();
    let mut i: usize = 0;
    while i <= last
        invariant
            last == text@.len() - pat@.len(),
            pat@.len() <= text@.len(),
            i <= last,
            forall|k: int| 0 <= k < i ==> !occurs_at(text@, pat@, k),
        ensures
            forall|k: int| 0 <= k <= last ==> !occurs_at(text@, pat@, k),
        decreases last - i,
    {
        if matches_at(text, pat, i) {
            return true;
        }
        if i == last {
            break;
        }
        i += 1;
    }
    proof {
        assert forall|k: int| !occurs_at(text@, pat@, k) by {
            if 0 <= k && k + pat@.len() <= text@.len() {
                assert(k <= last);
            }
        }
    }
    false
}

/// Whether the literal `pat` occurs in the character sequence `text`.
pub fn chars_contain(text: &Vec<char>, pat: &str) -> (r: bool)
    ensures
        r == has_sub(text@, pat@),
{
    let p = chars_of(pat);
    seq_contains(text, &p)
}

/// Whether the character sequence `text` begins with the literal `pat`.
pub fn chars_start_with(text: &Vec<char>, pat: &str) -> (r: bool)
    ensures
        r == has_prefix(text@, pat@),
{
    let p = chars_of(pat);
    if p.len() > text.len() {
        return false;
    }
    matches_at(text, &p, 0)
}

/// Whether two character sequences are equal.
pub fn chars_eq(a: &Vec<char>, b: &Vec<char>) -> (r: bool)
    ensures
        r == (a@ == b@),
{
    if a.len() != b.len() {
        return false;
    }
    let r = matches_at(a, b, 0);
    proof {
        if r {
            assert(a@.subrange(0, b@.len() as int) =~= a@);
        } else {
            assert(a@.subrange(0, b@.len() as int) =~= a@);
        }
    }
    r
}

/// Whether the character sequence `text` equals the literal `lit`.
pub fn chars_are(text: &Vec<char>, lit: &str) -> (r: bool)
    ensures
        r == (text@ == lit@),
{
    let l = chars_of(lit);
    chars_eq(text, &l)
}

/// Whether `c` is white space in the sense of `char::is_whitespace`.
pub fn char_is_white(c: char) -> (r: bool)
    ensures
        r == is_white(c),
{
    let u = c as u32;
    (0x9 <= u && u <= 0xD) || u == 0x20 || u == 0x85 || u == 0xA0 || u == 0x1680 || (0x2000 <= u
        && u <= 0x200A) || u == 0x2028 || u == 0x2029 || u == 0x202F || u == 0x205F || u == 0x3000
}

proof fn lemma_trim_start_skip(s: Seq<char>, k: int)
    requires
        0 <= k <= s.len(),
        forall|j: int| 0 <= j < k ==> is_white(#[trigger] s[j]),
    ensures
        trim_start(s) == trim_start(s.subrange(k, s.len() as int)),
    decreases k,
{
    if k > 0 {
        assert(s.drop_first() =~= s.subrange(1, s.len() as int));
        lemma_trim_start_skip(s.drop_first(), k - 1);
        assert(s.drop_first().subrange(k - 1, s.drop_first().len() as int) =~= s.subrange(
            k,
            s.len() as int,
        ));
    } else {
        assert(s.subrange(0, s.len() as int) =~= s);
    }
}

proof fn lemma_trim_end_skip(s: Seq<char>, k: int)
    requires
        0 <= k <= s.len(),
        forall|j: int| k <= j < s.len() ==> is_white(#[trigger] s[j]),
    ensures
        trim_end(s) == trim_end(s.subrange(0, k)),
    decreases s.len() - k,
{
    if k < s.len() {
        assert(s.drop_last() =~= s.subrange(0, s.len() - 1));
        lemma_trim_end_skip(s.drop_last(), k);
        assert(s.drop_last().subrange(0, k) =~= s.subrange(0, k));
    } else {
        assert(s.subrange(0, k) =~= s);
    }
}

/// The characters of `text` without leading and trailing white space.
pub fn trim_chars(text: &Vec<char>) -> (r: Vec<char>)
    ensures
        r@ == trimmed(text@),
{
    let n = text.len();
    let mut start: usize = 0;
    while start < n && char_is_white(text[start])
        invariant
            n == text@.len(),
            start <= n,
            forall|j: int| 0 <= j < start ==> is_white(#[trigger] text@[j]),
        decreases n - start,
    {
        start += 1;
    }
    let ghost rest = text@.subrange(start as int, n as int);
    proof {
        lemma_trim_start_skip(text@, start as int);
        if rest.len() > 0 {
            assert(rest[0] == text@[start as int]);
        }
        assert(trim_start(rest) == rest);
    }
    let mut end: usize = n;
    while end > start && char_is_white(text[end - 1])
        invariant
            n == text@.len(),
            start <= end <= n,
            rest == text@.subrange(start as int, n as int),
            forall|j: int| end <= j < n ==> is_white(#[trigger] text@[j]),
        decreases end,
    {
        end -= 1;
    }
    let mut r: Vec<char> = Vec::new();
    let mut i: usize = start;
    while i < end
        invariant
            n == text@.len(),
            start <= i <= end <= n,
            r@ == text@.subrange(start as int, i as int),
        decreases end - i,
    {
        r.push(text[i]);
        i += 1;
        assert(r@ =~= text@.subrange(start as int, i as int));
    }
    proof {
        let k = (end - start) as int;
        assert forall|j: int| k <= j < rest.len() implies is_white(#[trigger] rest[j]) by {
            assert(rest[j] == text@[start + j]);
        }
        lemma_trim_end_skip(rest, k);
        let core = rest.subrange(0, k);
        assert(core =~= text@.subrange(start as int, end as int));
        if core.len() > 0 {
            assert(core.last() == text@[end - 1]);
        }
        assert(trim_end(core) == core);
    }
    r
}

/// A string holding exactly the characters of `v`.
pub fn string_of_chars(v: &Vec<char>) -> (s: String)
    ensures
        s@ == v@,
{
    let mut s = String::new();
    let mut i: usize = 0;
    while i < v.len()
        invariant
            i <= v@.len(),
            s@ == v@.subrange(0, i as int),
        decreases v@.len() - i,
    {
        push_char(&mut s, v[i]);
        i += 1;
        assert(s@ =~= v@.subrange(0, i as int));
    }
    assert(v@.subrange(0, v@.len() as int) =~= v@);
    s
}

/// Appends one character to a string (`String::push`).
#[verifier::external_body]
pub(crate) fn push_char(s: &mut String, c: char)
    ensures
        final(s)@ == old(s)@.push(c),
{
    s.push(c);
}

/// The text of each string in `v`.
pub open spec fn views(v: Seq<String>) -> Seq<Seq<char>> {
    v.map_values(|s: String| s@)
}

/// The parts in order, with `sep` between neighbours.
pub open spec fn join(parts: Seq<Seq<char>>, sep: Seq<char>) -> Seq<char>
    decreases parts.len(),
{
    if parts.len() == 0 {
        Seq::empty()
    } else if parts.len() == 1 {
        parts[0]
    } else {
        join(parts.drop_last(), sep) + sep + parts.last()
    }
}

/// Appends `s` to a list of text parts.
pub fn push_part(parts: &mut Vec<String>, s: String)
    ensures
        views(final(parts)@) == views(old(parts)@).push(s@),
{
    let ghost before = parts@;
    parts.push(s);
    proof {
        assert(views(parts@) =~= views(before).push(s@));
    }
}

/// The strings of `parts` joined with `sep` between neighbours.
pub fn join_strings(parts: &Vec<String>, sep: &str) -> (r: String)
    ensures
        r@ == join(views(parts@), sep@),
{
    let mut s = String::new();
    let mut i: usize = 0;
    while i < parts.len()
        invariant
            i <= parts@.len(),
            s@ == join(views(parts@).take(i as int), sep@),
        decreases parts@.len() - i,
    {
        if i > 0 {
            s.append(sep);
        }
        s.append(parts[i].as_str());
        i += 1;
        proof {
            let t = views(parts@).take(i as int);
            assert(t.drop_last() =~= views(parts@).take(i - 1));
            assert(t.last() == parts@[i - 1]@);
            if i == 1 {
                assert(t.len() == 1);
            }
        }
    }
    proof {
        assert(views(parts@).take(parts@.len() as int) =~= views(parts@));
    }
    s
}

} // verus!
