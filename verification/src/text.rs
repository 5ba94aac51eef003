//! Character-level utilities: conversions between `String`/`&str` and
//! `Vec<char>`, and substring containment over character sequences.

use vstd::prelude::*;

verus! {

/// `needle` occurs as a contiguous run of characters somewhere in `hay`.
pub open spec fn contains_sub(hay: Seq<char>, needle: Seq<char>) -> bool {
    exists|j: int|
        0 <= j && j + needle.len() <= hay.len() && #[trigger] hay.subrange(j, j + needle.len())
            == needle
}

/// The characters of `s`, as a vector.
pub fn str_chars(s: &str) -> (r: Vec<char>)
    ensures
        r@ == s@,
{
    let n: usize = s.unicode_len();
    let mut r: Vec<char> = Vec::new();
    let mut i: usize = 0;
    while i < n
        invariant
            n == s@.len(),
            i <= n,
            r@ == s@.subrange(0, i as int),
        decreases n - i,
    {
        let c = s.get_char(i);
        r.push(c);
        proof {
            assert(r@ =~= s@.subrange(0, i + 1 as int));
        }
        i = i + 1;
    }
    proof {
        assert(s@.subrange(0, n as int) =~= s@);
    }
    r
}

/// Whether the characters of `key` spell exactly the string `lit`.
pub fn chars_eq(key: &Vec<char>, lit: &str) -> (r: bool)
    ensures
        r == (key@ == lit@),
{
    let n: usize = lit.unicode_len();
    if key.len() != n {
        proof {
            assert(key@ != lit@) by {
                if key@ == lit@ {
                    assert(key@.len() == lit@.len());
                }
            }
        }
        return false;
    }
    let mut i: usize = 0;
    while i < n
        invariant
            n == lit@.len(),
            key@.len() == n,
            i <= n,
            forall|k: int| 0 <= k < i ==> key@[k] == lit@[k],
        decreases n - i,
    {
        let c = lit.get_char(i);
        if key[i] != c {
            proof {
                assert(key@ != lit@) by {
                    if key@ == lit@ {
                        assert(key@[i as int] == lit@[i as int]);
                    }
                }
            }
            return false;
        }
        i = i + 1;
    }
    proof {
        assert(key@ =~= lit@);
    }
    true
}

/// Appends every character of `src` to `dst`.
pub fn push_all(dst: &mut Vec<char>, src: &Vec<char>)
    ensures
        final(dst)@ == old(dst)@ + src@,
{
    let mut i: usize = 0;
    while i < src.len()
        invariant
            i <= src@.len(),
            dst@ == old(dst)@ + src@.subrange(0, i as int),
        decreases src@.len() - i,
    {
        let c = src[i];
        dst.push(c);
        proof {
            assert(old(dst)@ + src@.subrange(0, i as int) + seq![src@[i as int]] =~= old(dst)@
                + src@.subrange(0, i + 1 as int));
        }
        i = i + 1;
    }
    proof {
        assert(old(dst)@ + src@.subrange(0, src@.len() as int) =~= old(dst)@ + src@);
    }
}

/// Whether `needle` occurs in `hay` starting at position `j`.
fn matches_at(hay: &Vec<char>, needle: &Vec<char>, j: usize) -> (r: bool)
    requires
        j + needle@.len() <= hay@.len(),
    ensures
        r == (hay@.subrange(j as int, j + needle@.len()) == needle@),
{
    let n: usize = needle.len();
    let h: usize = hay.len();
    let mut k: usize = 0;
    while k < n
        invariant
            n == needle@.len(),
            h == hay@.len(),
            j + n <= hay@.len(),
            k <= n,
            forall|t: int| 0 <= t < k ==> hay@[j + t] == needle@[t],
        decreases n - k,
    {
        if hay[j + k] != needle[k] {
            proof {
                assert(hay@.subrange(j as int, j + needle@.len()) != needle@) by {
                    if hay@.subrange(j as int, j + needle@.len()) == needle@ {
                        assert(hay@.subrange(j as int, j + needle@.len())[k as int] == needle@[k as int]);
                    }
                }
            }
            return false;
        }
        k = k + 1;
    }
    proof {
        assert(hay@.subrange(j as int, j + needle@.len()) =~= needle@);
    }
    true
}

/// Whether `needle` occurs as a contiguous run anywhere in `hay`.
pub fn contains_chars(hay: &Vec<char>, needle: &Vec<char>) -> (r: bool)
    ensures
        r == contains_sub(hay@, needle@),
{
    let n: usize = needle.len();
    let h: usize = hay.len();
    if n > h {
        proof {
            assert(!contains_sub(hay@, needle@));
        }
        return false;
    }
    if n == 0 {
        proof {
            assert(hay@.subrange(0, 0 + needle@.len() as int) =~= needle@);
        }
        return true;
    }
    let mut j: usize = 0;
    while j <= h - n
        invariant
            n == needle@.len(),
            h == hay@.len(),
            1 <= n <= h,
            j <= h - n + 1,
            forall|t: int|
                0 <= t < j ==> #[trigger] hay@.subrange(t, t + needle@.len()) != needle@,
        decreases h - n - j + 1,
    {
        if matches_at(hay, needle, j) {
            return true;
        }
        j = j + 1;
    }
    proof {
        assert(!contains_sub(hay@, needle@)) by {
            if contains_sub(hay@, needle@) {
                let t = choose|t: int|
                    0 <= t && t + needle@.len() <= hay@.len() && #[trigger] hay@.subrange(
                        t,
                        t + needle@.len(),
                    ) == needle@;
                assert(t < j);
            }
        }
    }
    false
}

/// The deep view of a vector of character vectors indexes to the view of each
/// line.
pub proof fn lemma_deep_lines(v: &Vec<Vec<char>>)
    ensures
        v.deep_view().len() == v@.len(),
        forall|i: int| 0 <= i < v@.len() ==> v.deep_view()[i] == v@[i]@,
{
    assert forall|i: int| 0 <= i < v@.len() implies v.deep_view()[i] == v@[i]@ by {
        assert(v@[i].deep_view() =~= v@[i]@);
    }
}

/// The deep view of a vector of strings indexes to the view of each string.
pub proof fn lemma_deep_strings(v: &Vec<String>)
    ensures
        v.deep_view().len() == v@.len(),
        forall|i: int| 0 <= i < v@.len() ==> v.deep_view()[i] == v@[i]@,
{
}

/// Relies on `String`'s `FromIterator<char>` implementation (through
/// `Iterator::collect`): the resulting string holds exactly the characters of
/// `v`, in order.
#[verifier::external_body]
pub fn string_from_chars(v: &Vec<char>) -> (s: String)
    ensures
        s@ == v@,
{
    v.iter().collect()
}

/// The characters of every string, line by line.
pub fn to_char_lines(v: &Vec<String>) -> (r: Vec<Vec<char>>)
    ensures
        r.deep_view() == v.deep_view(),
        r@.len() == v@.len(),
{
    let mut r: Vec<Vec<char>> = Vec::new();
    let mut i: usize = 0;
    while i < v.len()
        invariant
            i <= v@.len(),
            r@.len() == i,
            forall|k: int| 0 <= k < i ==> r@[k]@ == v@[k]@,
        decreases v@.len() - i,
    {
        let cs = str_chars(v[i].as_str());
        r.push(cs);
        i = i + 1;
    }
    proof {
        lemma_deep_lines(&r);
        lemma_deep_strings(v);
        assert(r.deep_view() =~= v.deep_view());
    }
    r
}

/// Each character vector, as a string.
pub fn lines_to_strings(v: &Vec<Vec<char>>) -> (r: Vec<String>)
    ensures
        r.deep_view() == v.deep_view(),
{
    let mut r: Vec<String> = Vec::new();
    let mut i: usize = 0;
    while i < v.len()
        invariant
            i <= v@.len(),
            r@.len() == i,
            forall|k: int| 0 <= k < i ==> r@[k]@ == v@[k]@,
        decreases v@.len() - i,
    {
        let s = string_from_chars(&v[i]);
        r.push(s);
        i = i + 1;
    }
    proof {
        lemma_deep_lines(v);
        lemma_deep_strings(&r);
        assert(r.deep_view() =~= v.deep_view());
    }
    r
}

} // verus!
