//! The locator: derives the section, subsection and field markers from a
//! search path and finds the first document line containing each, scanning
//! strictly forward.

use vstd::prelude::*;
use crate::text::{contains_sub, contains_chars, str_chars, chars_eq, push_all, lemma_deep_strings};

verus! {

/// The index of the first line at or after `start` that contains `needle`,
/// or the number of lines when none does.
pub open spec fn find_from(lines: Seq<Seq<char>>, start: int, needle: Seq<char>) -> int
    decreases lines.len() - start,
{
    if start < 0 || start >= lines.len() {
        lines.len() as int
    } else if contains_sub(lines[start], needle) {
        start
    } else {
        find_from(lines, start + 1, needle)
    }
}

/// The section marker: the literal section header combined with the first key.
pub open spec fn sec_marker(path: Seq<Seq<char>>) -> Seq<char>
    recommends
        path.len() >= 1,
{
    "\\section{"@ + path[0]
}

/// The subsection marker for a path of two to four keys. Categories carry
/// document-specific conventions: the NVRAM category always anchors at its
/// introduction, DeviceProperties at the common-properties header (a prefix
/// match), and a four-key Misc path at the entry-properties header.
pub open spec fn sub_marker(path: Seq<Seq<char>>) -> Seq<char>
    recommends
        2 <= path.len() <= 4,
{
    if path.len() == 2 {
        "\\subsection{Properties}\\"@
    } else if path[0] == "NVRAM"@ {
        "\\subsection{Introduction}"@
    } else if path[0] == "DeviceProperties"@ {
        "\\subsection{Common"@
    } else if path[0] == "Misc"@ && path.len() == 4 {
        "\\subsection{Entry Properties}\\"@
    } else {
        "\\subsection{"@ + path[1] + " Properties}\\"@
    }
}

/// The field marker (a monospace-text macro target). NVRAM paths address the
/// field by the third key, with the fourth appended after a colon; a four-key
/// DeviceProperties path addresses exactly the fourth key; otherwise the last
/// key is sought with the closing brace appended.
pub open spec fn field_marker(path: Seq<Seq<char>>) -> Seq<char>
    recommends
        2 <= path.len() <= 4,
{
    if path[0] == "NVRAM"@ && path.len() > 2 {
        if path.len() == 4 {
            "texttt{"@ + path[2] + ":"@ + path[3]
        } else {
            "texttt{"@ + path[2]
        }
    } else if path[0] == "DeviceProperties"@ && path.len() == 4 {
        "texttt{"@ + path[3]
    } else {
        "texttt{"@ + path[path.len() - 1] + "}\\"@
    }
}

/// Finds the first line at or after `start` that contains `needle`.
pub fn find_line(lines: &Vec<Vec<char>>, start: usize, needle: &Vec<char>) -> (r: usize)
    requires
        start <= lines@.len(),
    ensures
        r as int == find_from(lines.deep_view(), start as int, needle@),
        r <= lines@.len(),
{
    let n: usize = lines.len();
    let mut i: usize = start;
    proof {
        crate::text::lemma_deep_lines(lines);
    }
    while i < n
        invariant
            n == lines@.len(),
            lines.deep_view().len() == lines@.len(),
            forall|k: int| 0 <= k < lines@.len() ==> lines.deep_view()[k] == lines@[k]@,
            start <= i <= n,
            find_from(lines.deep_view(), start as int, needle@) == find_from(
                lines.deep_view(),
                i as int,
                needle@,
            ),
        decreases n - i,
    {
        if contains_chars(&lines[i], needle) {
            return i;
        }
        i = i + 1;
    }
    n
}

/// Builds the section marker for the path.
pub fn build_sec_marker(path: &Vec<String>) -> (r: Vec<char>)
    requires
        path@.len() >= 1,
    ensures
        r@ == sec_marker(path.deep_view()),
{
    proof {
        lemma_deep_strings(path);
    }
    let mut r = str_chars("\\section{");
    let k0 = str_chars(path[0].as_str());
    push_all(&mut r, &k0);
    r
}

/// Builds the subsection marker for a path of two to four keys.
pub fn build_sub_marker(path: &Vec<String>) -> (r: Vec<char>)
    requires
        2 <= path@.len() <= 4,
    ensures
        r@ == sub_marker(path.deep_view()),
{
    proof {
        lemma_deep_strings(path);
    }
    let k0 = str_chars(path[0].as_str());
    if path.len() == 2 {
        str_chars("\\subsection{Properties}\\")
    } else if chars_eq(&k0, "NVRAM") {
        str_chars("\\subsection{Introduction}")
    } else if chars_eq(&k0, "DeviceProperties") {
        str_chars("\\subsection{Common")
    } else if chars_eq(&k0, "Misc") && path.len() == 4 {
        str_chars("\\subsection{Entry Properties}\\")
    } else {
        let mut r = str_chars("\\subsection{");
        let k1 = str_chars(path[1].as_str());
        push_all(&mut r, &k1);
        let tail = str_chars(" Properties}\\");
        push_all(&mut r, &tail);
        r
    }
}

/// Builds the field marker for a path of two to four keys.
pub fn build_field_marker(path: &Vec<String>) -> (r: Vec<char>)
    requires
        2 <= path@.len() <= 4,
    ensures
        r@ == field_marker(path.deep_view()),
{
    proof {
        lemma_deep_strings(path);
    }
    let k0 = str_chars(path[0].as_str());
    if chars_eq(&k0, "NVRAM") && path.len() > 2 {
        let mut r = str_chars("texttt{");
        let k2 = str_chars(path[2].as_str());
        push_all(&mut r, &k2);
        if path.len() == 4 {
            let colon = str_chars(":");
            push_all(&mut r, &colon);
            let k3 = str_chars(path[3].as_str());
            push_all(&mut r, &k3);
        }
        r
    } else if chars_eq(&k0, "DeviceProperties") && path.len() == 4 {
        let mut r = str_chars("texttt{");
        let k3 = str_chars(path[3].as_str());
        push_all(&mut r, &k3);
        r
    } else {
        let mut r = str_chars("texttt{");
        let last = str_chars(path[path.len() - 1].as_str());
        push_all(&mut r, &last);
        let tail = str_chars("}\\");
        push_all(&mut r, &tail);
        r
    }
}

} // verus!
