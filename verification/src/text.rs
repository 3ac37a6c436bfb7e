//! Character-level string helpers: the few `str` operations the service
//! relies on, each proved against a short statement of what it does.
use vstd::prelude::*;
use vstd::string::StringExecFns;
use vstd::std_specs::iter::IteratorSpec;

verus! {

broadcast use vstd::string::group_string_axioms;

/// `String::push`: appends one character.
#[verifier::external_body]
pub(crate) fn push_char(s: &mut String, c: char)
    ensures
        final(s)@ == old(s)@.push(c),
{
    s.push(c);
}

/// The characters of `s`, in order.
pub fn chars_of(s: &str) -> (r: Vec<char>)
    ensures
        r@ == s@,
{
    let mut r: Vec<char> = Vec::new();
    for c in it: s.chars()
        invariant
            r@ == it.seq().take(it.index() as int),
            it.seq() == s@,
    {
        r.push(c);
    }
    r
}

/// The string made of the characters of `cs`, in order.
pub fn string_of(cs: &[char]) -> (r: String)
    ensures
        r@ == cs@,
{
    let mut r = String::new();
    let mut i: usize = 0;
    while i < cs.len()
        invariant
            i <= cs@.len(),
            r@ == cs@.subrange(0, i as int),
        decreases cs@.len() - i,
    {
        push_char(&mut r, cs[i]);
        i = i + 1;
        assert(r@ == cs@.subrange(0, i as int));
    }
    r
}

} // verus!

verus! {

/// `p` occurs in `t` at position `i`.
pub open spec fn occurs_at(t: Seq<char>, p: Seq<char>, i: int) -> bool {
    0 <= i && i + p.len() <= t.len() && t.subrange(i, i + p.len()) == p
}

/// `p` is a prefix of `t`.
pub open spec fn is_prefix(p: Seq<char>, t: Seq<char>) -> bool {
    occurs_at(t, p, 0)
}

/// `r` before each character of `t` and once more at the end.
pub open spec fn interleaved(t: Seq<char>, r: Seq<char>) -> Seq<char>
    decreases t.len(),
{
    if t.len() == 0 {
        r
    } else {
        r + seq![t[0]] + interleaved(t.subrange(1, t.len() as int), r)
    }
}

/// `t` with every occurrence of the pattern `p` replaced by `r`,
/// occurrences taken from left to right without overlapping; the empty
/// pattern occurs before each character and at the end.
pub open spec fn replaced(t: Seq<char>, p: Seq<char>, r: Seq<char>) -> Seq<char>
    decreases t.len(),
{
    if p.len() == 0 {
        interleaved(t, r)
    } else if t.len() < p.len() {
        t
    } else if t.subrange(0, p.len() as int) == p {
        r + replaced(t.subrange(p.len() as int, t.len() as int), p, r)
    } else {
        seq![t[0]] + replaced(t.subrange(1, t.len() as int), p, r)
    }
}

/// Whether `p` occurs in `t` at position `i`.
fn occurs_at_exec(t: &Vec<char>, p: &Vec<char>, i: usize) -> (b: bool)
    ensures
        b == occurs_at(t@, p@, i as int),
{
    if p.len() > t.len() || i > t.len() - p.len() {
        return false;
    }
    let mut j: usize = 0;
    while j < p.len()
        invariant
            i + p@.len() <= t@.len(),
            t@.len() <= usize::MAX,
            j <= p@.len(),
            forall|k: int| 0 <= k < j ==> t@[i + k] == p@[k],
        decreases p@.len() - j,
    {
        if t[i + j] != p[j] {
            assert(t@.subrange(i as int, i + p@.len())[j as int] != p@[j as int]);
            return false;
        }
        j = j + 1;
    }
    assert(t@.subrange(i as int, i + p@.len()) =~= p@);
    true
}

/// Whether `prefix` is a prefix of `s` (`str::starts_with`).
pub fn starts_with(s: &str, prefix: &str) -> (b: bool)
    ensures
        b == is_prefix(prefix@, s@),
{
    let t = chars_of(s);
    let p = chars_of(prefix);
    occurs_at_exec(&t, &p, 0)
}

/// Appends the characters of `r` to `out`.
fn append_chars(out: &mut Vec<char>, r: &Vec<char>)
    ensures
        final(out)@ == old(out)@ + r@,
{
    let mut k: usize = 0;
    while k < r.len()
        invariant
            k <= r@.len(),
            out@ == old(out)@ + r@.subrange(0, k as int),
        decreases r@.len() - k,
    {
        out.push(r[k]);
        k = k + 1;
        assert(out@ =~= old(out)@ + r@.subrange(0, k as int));
    }
    assert(r@.subrange(0, r@.len() as int) =~= r@);
}

/// `r` before each character of `t` and once more at the end.
fn interleave(t: &Vec<char>, r: &Vec<char>) -> (out: Vec<char>)
    ensures
        out@ == interleaved(t@, r@),
{
    let mut out: Vec<char> = Vec::new();
    let mut i: usize = 0;
    assert(t@.subrange(0, t@.len() as int) =~= t@);
    while i < t.len()
        invariant
            i <= t@.len(),
            interleaved(t@, r@) == out@ + interleaved(t@.subrange(i as int, t@.len() as int), r@),
        decreases t@.len() - i,
    {
        let ghost rest = t@.subrange(i as int, t@.len() as int);
        assert(rest.subrange(1, rest.len() as int) =~= t@.subrange(i + 1, t@.len() as int));
        assert(rest[0] == t@[i as int]);
        let ghost before = out@;
        append_chars(&mut out, r);
        out.push(t[i]);
        assert(out@ =~= before + r@ + seq![rest[0]]);
        i = i + 1;
    }
    let ghost before = out@;
    append_chars(&mut out, r);
    assert(t@.subrange(i as int, t@.len() as int) =~= Seq::<char>::empty());
    out
}

/// `text` with every occurrence of `pattern` replaced by `replacement`
/// (`str::replace`).
pub fn replace_all(text: &str, pattern: &str, replacement: &str) -> (res: String)
    ensures
        res@ == replaced(text@, pattern@, replacement@),
{
    let t = chars_of(text);
    let p = chars_of(pattern);
    let r = chars_of(replacement);
    if p.len() == 0 {
        let out = interleave(&t, &r);
        return string_of(out.as_slice());
    }
    let mut out: Vec<char> = Vec::new();
    let mut i: usize = 0;
    assert(t@.subrange(0, t@.len() as int) =~= t@);
    while i < t.len()
        invariant
            i <= t@.len(),
            p@.len() > 0,
            t@ == text@,
            p@ == pattern@,
            r@ == replacement@,
            replaced(t@, p@, r@) == out@ + replaced(t@.subrange(i as int, t@.len() as int), p@, r@),
        decreases t@.len() - i,
    {
        let ghost rest = t@.subrange(i as int, t@.len() as int);
        if occurs_at_exec(&t, &p, i) {
            assert(rest.subrange(0, p@.len() as int) == t@.subrange(i as int, i + p@.len()));
            assert(rest.subrange(p@.len() as int, rest.len() as int) =~= t@.subrange(
                i + p@.len(),
                t@.len() as int,
            ));
            append_chars(&mut out, &r);
            i = i + p.len();
        } else {
            proof {
                assert(rest.subrange(1, rest.len() as int) =~= t@.subrange(i + 1, t@.len() as int));
                if rest.len() >= p@.len() {
                    assert(rest.subrange(0, p@.len() as int) == t@.subrange(i as int, i + p@.len()));
                } else {
                    assert(replaced(rest.subrange(1, rest.len() as int), p@, r@) == rest.subrange(1, rest.len() as int));
                    assert(rest =~= seq![rest[0]] + rest.subrange(1, rest.len() as int));
                }
            }
            out.push(t[i]);
            i = i + 1;
        }
    }
    string_of(out.as_slice())
}

} // verus!

verus! {

/// The string of the characters `t[from..to]`.
fn sub_string(t: &Vec<char>, from: usize, to: usize) -> (r: String)
    requires
        from <= to <= t@.len(),
    ensures
        r@ == t@.subrange(from as int, to as int),
{
    let mut r = String::new();
    let mut i: usize = from;
    while i < to
        invariant
            from <= i <= to <= t@.len(),
            r@ == t@.subrange(from as int, i as int),
        decreases to - i,
    {
        push_char(&mut r, t[i]);
        i = i + 1;
        assert(r@ =~= t@.subrange(from as int, i as int));
    }
    r
}

/// Splits `s` at the first occurrence of `delimiter` (`str::split_once`):
/// the text before it and the text after it, or `None` where it does not
/// occur. The empty delimiter occurs at the start.
pub fn split_once(s: &str, delimiter: &str) -> (r: Option<(String, String)>)
    ensures
        r is None <==> (forall|k: int| !occurs_at(s@, delimiter@, k)),
        r matches Some((a, b)) ==> {
            &&& s@ == a@ + delimiter@ + b@
            &&& occurs_at(s@, delimiter@, a@.len() as int)
            &&& forall|k: int| 0 <= k < a@.len() ==> !occurs_at(s@, delimiter@, k)
        },
{
    let t = chars_of(s);
    let d = chars_of(delimiter);
    if d.len() == 0 {
        let a = String::new();
        let b = sub_string(&t, 0, t.len());
        assert(t@.subrange(0, 0) =~= delimiter@);
        assert(s@ =~= a@ + delimiter@ + b@);
        assert(occurs_at(s@, delimiter@, 0));
        return Some((a, b));
    }
    let mut i: usize = 0;
    while i < t.len()
        invariant
            t@ == s@,
            d@ == delimiter@,
            d@.len() > 0,
            i <= t@.len(),
            forall|k: int| 0 <= k < i ==> !occurs_at(s@, delimiter@, k),
        decreases t@.len() - i,
    {
        if occurs_at_exec(&t, &d, i) {
            let a = sub_string(&t, 0, i);
            let b = sub_string(&t, i + d.len(), t.len());
            assert(s@ =~= a@ + delimiter@ + b@);
            return Some((a, b));
        }
        i = i + 1;
    }
    assert forall|k: int| !occurs_at(s@, delimiter@, k) by {
        if 0 <= k < i {
        }
    }
    None
}

} // verus!

verus! {

pub open spec fn is_digit(c: char) -> bool {
    '0' <= c && c <= '9'
}

/// The decimal value of a string of digits.
pub open spec fn digits_value(ds: Seq<char>) -> int
    decreases ds.len(),
{
    if ds.len() == 0 {
        0
    } else {
        10 * digits_value(ds.drop_last()) + (ds.last() as int - 48)
    }
}

pub open spec fn all_digits(ds: Seq<char>) -> bool {
    forall|i: int| 0 <= i < ds.len() ==> is_digit(#[trigger] ds[i])
}

/// What `str::parse::<i32>` gives: an optional sign followed by at least one
/// digit, whose value fits in an `i32`.
pub open spec fn spec_parse_i32(s: Seq<char>) -> Option<i32> {
    let signed = s.len() > 0 && (s[0] == '-' || s[0] == '+');
    let ds = if signed { s.subrange(1, s.len() as int) } else { s };
    let v = if signed && s[0] == '-' { -digits_value(ds) } else { digits_value(ds) };
    if ds.len() == 0 || !all_digits(ds) || v < i32::MIN || v > i32::MAX {
        None
    } else {
        Some(v as i32)
    }
}

proof fn lemma_digits_value_nonneg(ds: Seq<char>)
    requires
        all_digits(ds),
    ensures
        digits_value(ds) >= 0,
    decreases ds.len(),
{
    if ds.len() > 0 {
        lemma_digits_value_nonneg(ds.drop_last());
    }
}

proof fn lemma_digits_value_prefix(ds: Seq<char>, k: int)
    requires
        all_digits(ds),
        0 <= k <= ds.len(),
    ensures
        digits_value(ds) >= digits_value(ds.subrange(0, k)),
    decreases ds.len(),
{
    if k < ds.len() {
        assert(ds.drop_last().subrange(0, k) =~= ds.subrange(0, k));
        lemma_digits_value_prefix(ds.drop_last(), k);
        lemma_digits_value_nonneg(ds.drop_last());
    } else {
        assert(ds.subrange(0, k) =~= ds);
    }
}

/// `str::parse::<i32>`.
pub fn parse_i32(s: &str) -> (r: Option<i32>)
    ensures
        r == spec_parse_i32(s@),
{
    let t = chars_of(s);
    let n = t.len();
    let signed = n > 0 && (t[0] == '-' || t[0] == '+');
    let negative = signed && t[0] == '-';
    let start: usize = if signed { 1 } else { 0 };
    let ghost ds = if signed { s@.subrange(1, s@.len() as int) } else { s@ };
    if start == n {
        return None;
    }
    let mut acc: i64 = 0;
    let mut i: usize = start;
    while i < n
        invariant
            t@ == s@,
            n == t@.len(),
            start <= i <= n,
            ds == t@.subrange(start as int, n as int),
            signed == (s@.len() > 0 && (s@[0] == '-' || s@[0] == '+')),
            negative == (signed && s@[0] == '-'),
            ds == (if signed { s@.subrange(1, s@.len() as int) } else { s@ }),
            0 <= acc <= 2147483648,
            all_digits(ds.subrange(0, i - start)),
            acc == digits_value(ds.subrange(0, i - start)),
        decreases n - i,
    {
        let c = t[i];
        if !('0' <= c && c <= '9') {
            assert(ds[i - start] == c);
            assert(!is_digit(ds[i - start]));
            return None;
        }
        let d = (c as u32 - 48) as i64;
        proof {
            let p = ds.subrange(0, i + 1 - start);
            assert(p.drop_last() =~= ds.subrange(0, i - start));
            assert(p.last() == c);
        }
        acc = acc * 10 + d;
        i = i + 1;
        assert(all_digits(ds.subrange(0, i - start)));
        if acc > 2147483648 {
            proof {
                if all_digits(ds) {
                    lemma_digits_value_prefix(ds, i - start);
                }
            }
            return None;
        }
    }
    assert(ds.subrange(0, n - start) =~= ds);
    if negative {
        Some((0 - acc) as i32)
    } else if acc > 2147483647 {
        None
    } else {
        Some(acc as i32)
    }
}

} // verus!
