//! Splitting a character sequence on a delimiter, with the lemmas that relate
//! splitting to joining.

use vstd::prelude::*;
use vstd::string::StrSliceExecFns;
use vstd::string::StringExecFns;

verus! {

/// The segments of `s` split on the delimiter `d`. Splitting always yields at
/// least one segment; `n` delimiters yield `n + 1` segments, and an empty
/// input yields one empty segment.
pub open spec fn split_on(s: Seq<char>, d: char) -> Seq<Seq<char>>
    decreases s.len(),
{
    if s.len() == 0 {
        seq![Seq::<char>::empty()]
    } else if s[0] == d {
        seq![Seq::<char>::empty()] + split_on(s.drop_first(), d)
    } else {
        let rest = split_on(s.drop_first(), d);
        seq![seq![s[0]] + rest[0]] + rest.drop_first()
    }
}

/// A sequence free of the delimiter splits into the single segment that is
/// the sequence itself.
pub proof fn lemma_split_on_no_delim(s: Seq<char>, d: char)
    requires
        forall|k: int| 0 <= k < s.len() ==> s[k] != d,
    ensures
        split_on(s, d) =~~= seq![s],
    decreases s.len(),
{
    if s.len() == 0 {
        assert(s =~= Seq::<char>::empty());
    } else {
        let s1 = s.drop_first();
        assert(forall|k: int| 0 <= k < s1.len() ==> s1[k] == s[k + 1]);
        lemma_split_on_no_delim(s1, d);
        let rest = split_on(s1, d);
        assert(rest[0] == s1);
        assert(seq![s[0]] + s1 =~= s);
        assert(rest.drop_first() =~= Seq::<Seq<char>>::empty());
    }
}

/// Where the first delimiter of `s` stands at `j`, splitting takes everything
/// before `j` as the first segment and splits the remainder after `j`.
pub proof fn lemma_split_on_first(s: Seq<char>, d: char, j: int)
    requires
        0 <= j < s.len(),
        s[j] == d,
        forall|k: int| 0 <= k < j ==> s[k] != d,
    ensures
        split_on(s, d) =~~= seq![s.take(j)] + split_on(s.skip(j + 1), d),
    decreases j,
{
    if j == 0 {
        assert(s.take(0) =~= Seq::<char>::empty());
        assert(s.skip(1) =~= s.drop_first());
    } else {
        let s1 = s.drop_first();
        assert(forall|k: int| 0 <= k < s1.len() ==> s1[k] == s[k + 1]);
        lemma_split_on_first(s1, d, j - 1);
        let rest = split_on(s1, d);
        assert(rest[0] == s1.take(j - 1));
        assert(seq![s[0]] + s1.take(j - 1) =~= s.take(j));
        assert(s1.skip(j) =~= s.skip(j + 1));
        assert(rest.drop_first() =~~= split_on(s.skip(j + 1), d));
    }
}

/// Joining a delimiter-free segment onto a remainder with one delimiter
/// between them splits back into that segment followed by the split of the
/// remainder.
pub proof fn lemma_split_on_join(x: Seq<char>, rest: Seq<char>, d: char)
    requires
        forall|k: int| 0 <= k < x.len() ==> x[k] != d,
    ensures
        split_on(x + seq![d] + rest, d) =~~= seq![x] + split_on(rest, d),
{
    let s = x + seq![d] + rest;
    assert(s[x.len() as int] == d);
    assert(forall|k: int| 0 <= k < x.len() ==> s[k] == x[k]);
    lemma_split_on_first(s, d, x.len() as int);
    assert(s.take(x.len() as int) =~= x);
    assert(s.skip(x.len() as int + 1) =~= rest);
}

/// The position of the first occurrence of `d` in `s`, if there is one.
fn find_delim(s: &str, d: char) -> (r: Option<usize>)
    ensures
        match r {
            Some(j) => j < s@.len() && s@[j as int] == d && (forall|k: int|
                0 <= k < j ==> s@[k] != d),
            None => forall|k: int| 0 <= k < s@.len() ==> s@[k] != d,
        },
{
    let n: usize = s.unicode_len();
    let mut i: usize = 0;
    while i < n
        invariant
            n == s@.len(),
            i <= n,
            forall|k: int| 0 <= k < i ==> s@[k] != d,
        decreases n - i,
    {
        if s.get_char(i) == d {
            return Some(i);
        }
        i = i + 1;
    }
    None
}

/// Splits `s` on the delimiter `d` into owned segments, exactly as
/// `split_on` describes.
pub fn split_str(s: &str, d: char) -> (r: Vec<String>)
    ensures
        r@.len() == split_on(s@, d).len(),
        forall|i: int| 0 <= i < r@.len() ==> r@[i]@ == split_on(s@, d)[i],
    decreases s@.len(),
{
    match find_delim(s, d) {
        Some(j) => {
            let n: usize = s.unicode_len();
            let head: &str = s.substring_char(0, j);
            let tail: &str = s.substring_char(j + 1, n);
            let rest: Vec<String> = split_str(tail, d);
            proof {
                lemma_split_on_first(s@, d, j as int);
            }
            let mut r: Vec<String> = Vec::new();
            r.push(String::from_str(head));
            let mut k: usize = 0;
            while k < rest.len()
                invariant
                    r@.len() == 1 + k,
                    k <= rest.len(),
                    r@[0]@ == s@.take(j as int),
                    forall|i: int| 0 <= i < k ==> r@[i + 1]@ == rest@[i]@,
                decreases rest.len() - k,
            {
                r.push(rest[k].clone());
                k = k + 1;
            }
            proof {
                let segs = split_on(s@, d);
                assert(forall|i: int| 1 <= i < r@.len() ==> r@[i]@ == segs[i]);
            }
            r
        },
        None => {
            proof {
                lemma_split_on_no_delim(s@, d);
            }
            let mut r: Vec<String> = Vec::new();
            r.push(String::from_str(s));
            r
        },
    }
}

} // verus!
