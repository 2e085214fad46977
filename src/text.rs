use vstd::prelude::*;

verus! {

/// Relies on `String::push`: appends one character to the string.
#[verifier::external_body]
pub(crate) fn push_char(s: &mut String, c: char)
    ensures
        final(s)@ == old(s)@.push(c),
{
    s.push(c)
}

/// The characters of `s`, in order.
pub fn chars_of(s: &str) -> (r: Vec<char>)
    ensures
        r@ == s@,
{
    let mut r: Vec<char> = Vec::new();
    for c in it: s.chars()
        invariant
            r@ == it.seq().take(it.index() as int),
    {
        r.push(c);
    }
    assert(r@ =~= s@);
    r
}

/// Up to `n` characters of `v`, from its start.
pub open spec fn clip(v: Seq<char>, n: nat) -> Seq<char> {
    if v.len() <= n {
        v
    } else {
        v.take(n as int)
    }
}

/// A string holding the characters of `v`, in order.
pub fn string_of(v: &Vec<char>) -> (r: String)
    ensures
        r@ == v@,
{
    let r = prefix_string(v, v.len());
    assert(v@.take(v@.len() as int) =~= v@);
    r
}

/// A string holding the first `n` characters of `v`, or all of them where `v` is shorter.
pub fn prefix_string(v: &Vec<char>, n: usize) -> (r: String)
    ensures
        r@ == clip(v@, n as nat),
{
    let end: usize = if n < v.len() { n } else { v.len() };
    let mut r = String::new();
    let mut i: usize = 0;
    while i < end
        invariant
            end <= v@.len(),
            i <= end,
            r@ == v@.take(i as int),
        decreases end - i,
    {
        push_char(&mut r, v[i]);
        assert(v@.take(i + 1) =~= v@.take(i as int).push(v@[i as int]));
        i += 1;
    }
    assert(v@.take(v@.len() as int) =~= v@);
    r
}

} // verus!
