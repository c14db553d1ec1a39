use vstd::prelude::*;

verus! {

/// The position of the first occurrence of `sep` in `s` at or after
/// `from`, if any.
pub open spec fn spec_first_match(s: Seq<u8>, sep: Seq<u8>, from: int) -> Option<int>
    decreases s.len() - from,
    when 0 <= from <= s.len() && 1 <= sep.len()
{
    if from + sep.len() > s.len() {
        None
    } else if s.subrange(from, from + sep.len()) == sep {
        Some(from)
    } else {
        spec_first_match(s, sep, from + 1)
    }
}

/// The pieces of `s` between occurrences of the separator `sep`,
/// in order; always at least one piece.
pub open spec fn spec_split(s: Seq<u8>, sep: Seq<u8>) -> Seq<Seq<u8>>
    decreases s.len(),
    when 1 <= sep.len()
{
    match spec_first_match(s, sep, 0) {
        Some(i) => if 0 <= i && i + sep.len() <= s.len() {
            seq![s.subrange(0, i)] + spec_split(s.skip(i + sep.len()), sep)
        } else {
            seq![s]
        },
        None => seq![s],
    }
}

/// The views of a sequence of byte vectors.
pub open spec fn views_of(s: Seq<Vec<u8>>) -> Seq<Seq<u8>> {
    s.map_values(|v: Vec<u8>| v@)
}

/// A copy of `s[from..to]`.
pub fn bytes_slice(s: &[u8], from: usize, to: usize) -> (r: Vec<u8>)
    requires
        from <= to <= s@.len(),
    ensures
        r@ == s@.subrange(from as int, to as int),
{
    let mut r: Vec<u8> = Vec::new();
    let mut i: usize = from;
    while i < to
        invariant
            from <= i <= to <= s@.len(),
            r@ == s@.subrange(from as int, i as int),
        decreases to - i,
    {
        r.push(s[i]);
        proof {
            assert(s@.subrange(from as int, i + 1 as int) =~= s@.subrange(from as int, i as int).push(
                s@[i as int],
            ));
        }
        i += 1;
    }
    r
}

/// Whether `sep` occurs in `s` at position `i`.
fn is_match_at(s: &[u8], sep: &Vec<u8>, i: usize) -> (r: bool)
    requires
        i + sep@.len() <= s@.len(),
    ensures
        r == (s@.subrange(i as int, i as int + sep@.len() as int) == sep@),
{
    let n = s.len();
    let mut j: usize = 0;
    while j < sep.len()
        invariant
            j <= sep@.len(),
            i + sep@.len() <= s@.len(),
            n == s@.len(),
            forall|m: int| 0 <= m < j ==> s@[i + m] == sep@[m],
        decreases sep.len() - j,
    {
        if s[i + j] != sep[j] {
            assert(s@.subrange(i as int, i as int + sep@.len() as int)[j as int] != sep@[j as int]);
            return false;
        }
        j += 1;
    }
    proof {
        assert(s@.subrange(i as int, i as int + sep@.len() as int) =~= sep@);
    }
    true
}

/// The position of the first occurrence of `sep` in `s`, if any.
fn find_first(s: &[u8], sep: &Vec<u8>) -> (r: Option<usize>)
    requires
        1 <= sep@.len(),
    ensures
        match r {
            Some(i) => spec_first_match(s@, sep@, 0) == Some(i as int) && i + sep@.len()
                <= s@.len(),
            None => spec_first_match(s@, sep@, 0) is None,
        },
{
    let n = s.len();
    let m = sep.len();
    if m > n {
        return None;
    }
    let mut i: usize = 0;
    while i <= n - m
        invariant
            1 <= m == sep@.len(),
            m <= n == s@.len(),
            i <= n - m + 1,
            spec_first_match(s@, sep@, 0) == spec_first_match(s@, sep@, i as int),
        decreases n - i,
    {
        if is_match_at(s, sep, i) {
            return Some(i);
        }
        i += 1;
    }
    None
}

/// Splits `s` at each occurrence of `sep`.
pub fn split_bytes(s: &[u8], sep: &Vec<u8>) -> (r: Vec<Vec<u8>>)
    requires
        1 <= sep@.len(),
    ensures
        views_of(r@) == spec_split(s@, sep@),
        r@.len() >= 1,
    decreases s@.len(),
{
    match find_first(s, sep) {
        Some(i) => {
            let n = s.len();
            let piece = bytes_slice(s, 0, i);
            let rest = bytes_slice(s, i + sep.len(), n);
            let mut tail = split_bytes(rest.as_slice(), sep);
            tail.insert(0, piece);
            proof {
                assert(rest@ =~= s@.skip(i + sep@.len()));
                assert(views_of(tail@) =~= seq![s@.subrange(0, i as int)] + spec_split(
                    s@.skip(i + sep@.len()),
                    sep@,
                ));
            }
            tail
        },
        None => {
            let mut r: Vec<Vec<u8>> = Vec::new();
            r.push(bytes_slice(s, 0, s.len()));
            proof {
                assert(s@.subrange(0, s@.len() as int) =~= s@);
                assert(views_of(r@) =~= seq![s@]);
            }
            r
        },
    }
}

/// `a` followed by `b`.
pub fn bytes_concat(a: Vec<u8>, b: &Vec<u8>) -> (r: Vec<u8>)
    ensures
        r@ == a@ + b@,
{
    let mut r = a;
    let mut i: usize = 0;
    while i < b.len()
        invariant
            i <= b@.len(),
            r@ == a@ + b@.subrange(0, i as int),
        decreases b.len() - i,
    {
        r.push(b[i]);
        proof {
            assert(a@ + b@.subrange(0, i + 1 as int) =~= (a@ + b@.subrange(0, i as int)).push(
                b@[i as int],
            ));
        }
        i += 1;
    }
    proof {
        assert(b@.subrange(0, b@.len() as int) =~= b@);
    }
    r
}

/// Whether `pat` is a prefix of `s`.
pub fn starts_with(s: &Vec<u8>, pat: &Vec<u8>) -> (r: bool)
    ensures
        r == (pat@.len() <= s@.len() && s@.take(pat@.len() as int) == pat@),
{
    if pat.len() > s.len() {
        return false;
    }
    let mut i: usize = 0;
    while i < pat.len()
        invariant
            i <= pat@.len() <= s@.len(),
            forall|m: int| 0 <= m < i ==> s@[m] == pat@[m],
        decreases pat.len() - i,
    {
        if s[i] != pat[i] {
            assert(s@.take(pat@.len() as int)[i as int] != pat@[i as int]);
            return false;
        }
        i += 1;
    }
    proof {
        assert(s@.take(pat@.len() as int) =~= pat@);
    }
    true
}

} // verus!
