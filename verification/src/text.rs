//! Small text helpers: moving between `String` and `Vec<char>`, equality,
//! trimming and prefixes, all specified over character sequences.

use vstd::prelude::*;

verus! {

/// Relies on str::chars: yields the characters of the string in order.
#[verifier::external_body]
pub fn chars_of(s: &str) -> (r: Vec<char>)
    ensures
        r@ == s@,
{
    s.chars().collect()
}

/// Relies on String's FromIterator over chars: builds the string holding
/// exactly the given characters in order.
#[verifier::external_body]
pub fn string_of(cs: &Vec<char>) -> (r: String)
    ensures
        r@ == cs@,
{
    cs.iter().collect()
}

/// Relies on String::push: appends one character at the end.
#[verifier::external_body]
pub fn push_char(s: &mut String, c: char) -> (nothing: ())
    ensures
        final(s)@ == old(s)@.push(c),
{
    s.push(c)
}

pub fn str_eq(a: &str, b: &str) -> (r: bool)
    ensures
        r == (a@ == b@),
{
    let av = chars_of(a);
    let bv = chars_of(b);
    if av.len() != bv.len() {
        return false;
    }
    let n = av.len();
    let mut i: usize = 0;
    while i < n
        invariant
            n == av.len() == bv.len(),
            i <= n,
            av@ == a@,
            bv@ == b@,
            forall|j: int| 0 <= j < i ==> av@[j] == bv@[j],
        decreases n - i,
    {
        if av[i] != bv[i] {
            assert(a@[i as int] != b@[i as int]);
            return false;
        }
        i += 1;
    }
    assert(a@ =~= b@);
    true
}

pub open spec fn is_blank(c: char) -> bool {
    c == ' ' || c == '\t' || c == '\r' || c == '\n'
}

pub open spec fn trim_front_spec(s: Seq<char>) -> Seq<char>
    decreases s.len(),
{
    if s.len() > 0 && is_blank(s[0]) {
        trim_front_spec(s.drop_first())
    } else {
        s
    }
}

pub open spec fn trim_back_spec(s: Seq<char>) -> Seq<char>
    decreases s.len(),
{
    if s.len() > 0 && is_blank(s.last()) {
        trim_back_spec(s.drop_last())
    } else {
        s
    }
}

/// What trimming leading and trailing whitespace leaves of a line.
pub open spec fn trim_spec(s: Seq<char>) -> Seq<char> {
    trim_back_spec(trim_front_spec(s))
}

fn is_blank_char(c: char) -> (r: bool)
    ensures
        r == is_blank(c),
{
    c == ' ' || c == '\t' || c == '\r' || c == '\n'
}

/// Strips leading and trailing whitespace from a line.
pub fn trim_line(s: &str) -> (r: String)
    ensures
        r@ == trim_spec(s@),
{
    let mut v = chars_of(s);
    loop
        invariant
            trim_front_spec(v@) == trim_front_spec(s@),
        ensures
            trim_front_spec(v@) == trim_front_spec(s@),
            v@.len() == 0 || !is_blank(v@[0]),
        decreases v@.len(),
    {
        if v.len() > 0 && is_blank_char(v[0]) {
            let ghost prev = v@;
            v.remove(0);
            proof {
                assert(v@ =~= prev.drop_first());
            }
        } else {
            break;
        }
    }
    assert(trim_front_spec(v@) == v@);
    loop
        invariant
            trim_back_spec(v@) == trim_spec(s@),
        ensures
            trim_back_spec(v@) == trim_spec(s@),
            v@.len() == 0 || !is_blank(v@.last()),
        decreases v@.len(),
    {
        if v.len() > 0 {
            let last = v[v.len() - 1];
            if is_blank_char(last) {
                v.pop();
            } else {
                break;
            }
        } else {
            break;
        }
    }
    assert(trim_back_spec(v@) == v@);
    string_of(&v)
}

/// The first `n` characters of `s`, or all of it if it is shorter.
pub open spec fn prefix_spec(s: Seq<char>, n: int) -> Seq<char> {
    if s.len() <= n {
        s
    } else {
        s.take(n)
    }
}

pub fn prefix_chars(s: &str, n: usize) -> (r: String)
    ensures
        r@ == prefix_spec(s@, n as int),
{
    let v = chars_of(s);
    let mut out: Vec<char> = Vec::new();
    let mut i: usize = 0;
    while i < n && i < v.len()
        invariant
            v@ == s@,
            i <= v.len(),
            i <= n,
            out@ == s@.take(i as int),
        decreases v.len() - i,
    {
        out.push(v[i]);
        assert(out@ =~= s@.take(i + 1));
        i += 1;
    }
    if v.len() <= n {
        assert(out@ =~= s@);
    } else {
        assert(out@ =~= s@.take(n as int));
    }
    string_of(&out)
}

pub open spec fn has_colon(s: Seq<char>) -> bool {
    exists|i: int| 0 <= i < s.len() && s[i] == ':'
}

pub fn contains_colon(s: &str) -> (r: bool)
    ensures
        r == has_colon(s@),
{
    let v = chars_of(s);
    let mut i: usize = 0;
    while i < v.len()
        invariant
            v@ == s@,
            i <= v.len(),
            forall|j: int| 0 <= j < i ==> s@[j] != ':',
        decreases v.len() - i,
    {
        if v[i] == ':' {
            return true;
        }
        i += 1;
    }
    false
}

} // verus!
