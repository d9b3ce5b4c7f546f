use vstd::prelude::*;

verus! {

/// Relies on String::push: appends exactly one character at the end.
#[verifier::external_body]
pub fn push_char(s: &mut String, c: char)
    ensures
        final(s)@ == old(s)@.push(c),
{
    s.push(c)
}

/// Relies on String::pop: removes and returns the last character, or
/// returns None and leaves the string unchanged when it is empty.
#[verifier::external_body]
pub fn pop_char(s: &mut String) -> (r: Option<char>)
    ensures
        old(s)@.len() == 0 ==> r is None && final(s)@ == old(s)@,
        old(s)@.len() > 0 ==> r == Some(old(s)@.last()) && final(s)@ == old(s)@.drop_last(),
{
    s.pop()
}

/// The characters a finished line is stripped of at both ends.
pub open spec fn is_space_char(c: char) -> bool {
    c == ' ' || c == '\t' || c == '\n' || c == '\r'
}

/// `s` with every leading and trailing space character removed.
pub open spec fn spec_trim(s: Seq<char>) -> Seq<char>
    decreases s.len(),
{
    if s.len() == 0 {
        s
    } else if is_space_char(s.first()) {
        spec_trim(s.drop_first())
    } else if is_space_char(s.last()) {
        spec_trim(s.drop_last())
    } else {
        s
    }
}

fn is_space(c: char) -> (r: bool)
    ensures
        r == is_space_char(c),
{
    c == ' ' || c == '\t' || c == '\n' || c == '\r'
}

/// A copy of `s` with leading and trailing spaces removed.
pub fn trim_spaces(s: &str) -> (r: String)
    ensures
        r@ == spec_trim(s@),
{
    let len: usize = s.unicode_len();
    let mut from: usize = 0;
    let mut to: usize = len;
    proof {
        assert(s@.subrange(0, s@.len() as int) =~= s@);
    }
    while from < to && is_space(s.get_char(from))
        invariant
            0 <= from <= to <= s@.len(),
            to == s@.len(),
            spec_trim(s@) == spec_trim(s@.subrange(from as int, to as int)),
        decreases to - from,
    {
        proof {
            let cur = s@.subrange(from as int, to as int);
            assert(cur.drop_first() =~= s@.subrange(from as int + 1, to as int));
        }
        from = from + 1;
    }
    while to > from && is_space(s.get_char(to - 1))
        invariant
            0 <= from <= to <= s@.len(),
            from < to ==> !is_space_char(s@[from as int]),
            spec_trim(s@) == spec_trim(s@.subrange(from as int, to as int)),
        decreases to,
    {
        proof {
            let cur = s@.subrange(from as int, to as int);
            assert(cur.drop_last() =~= s@.subrange(from as int, to as int - 1));
        }
        to = to - 1;
    }
    let mut out = String::new();
    let mut i: usize = from;
    proof {
        assert(s@.subrange(from as int, from as int) =~= Seq::<char>::empty());
    }
    while i < to
        invariant
            from <= i <= to <= s@.len(),
            out@ == s@.subrange(from as int, i as int),
        decreases to - i,
    {
        push_char(&mut out, s.get_char(i));
        proof {
            assert(s@.subrange(from as int, i as int).push(s@[i as int]) =~= s@.subrange(
                from as int,
                i as int + 1,
            ));
        }
        i = i + 1;
    }
    proof {
        let kept = s@.subrange(from as int, to as int);
        if from < to {
            assert(!is_space_char(kept.first()));
            assert(!is_space_char(kept.last()));
            assert(spec_trim(kept) == kept);
        } else {
            assert(kept =~= Seq::<char>::empty());
        }
    }
    out
}

} // verus!
