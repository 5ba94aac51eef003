//! Extracts one documentation fragment from a reference document written in a
//! LaTeX-like markup dialect, addressed by a path of one to four keys, and
//! renders it either as ANSI-formatted terminal text or as a flat list of
//! enumerable values for a value picker.
//!
//! The caller supplies the document contents as lines of text (an empty
//! vector when the document is unavailable); no reading of storage happens
//! here.

use vstd::prelude::*;
use vstd::string::StringExecFns;

pub mod block;
pub mod laws;
pub mod line;
pub mod locate;
pub mod symbols;
pub mod text;

use crate::block::{block_run, init_block_st, transcode_block};
use crate::locate::{
    field_marker, build_field_marker, find_from, find_line, sec_marker, build_sec_marker, sub_marker,
    build_sub_marker,
};
use crate::text::{lines_to_strings, to_char_lines};

verus! {

/// What an extraction returns, line by line.
///
/// An empty search path and an empty document each yield a single diagnostic
/// line; a path of more than four keys yields nothing. Otherwise the document
/// is scanned forward for the section marker, then (for paths of several
/// keys) the subsection and field markers, and the block that follows the
/// innermost match is transcoded; whenever a marker is never found, whatever
/// was accumulated so far — nothing — is returned.
pub open spec fn parse_config_spec(
    doc: Seq<Seq<char>>,
    path: Seq<Seq<char>>,
    width: int,
    gather: bool,
    show_url: bool,
) -> Seq<Seq<char>> {
    if path.len() == 0 {
        seq!["no field values supplied"@]
    } else if doc.len() == 0 {
        seq!["local Configuration.tex not found"@]
    } else if path.len() > 4 {
        Seq::<Seq<char>>::empty()
    } else {
        let a = find_from(doc, 0, sec_marker(path));
        if a >= doc.len() {
            Seq::<Seq<char>>::empty()
        } else if path.len() == 1 {
            block_run(doc, a + 1, init_block_st(), width, gather, show_url)
        } else {
            let b = find_from(doc, a + 1, sub_marker(path));
            if b >= doc.len() {
                Seq::<Seq<char>>::empty()
            } else {
                let c = find_from(doc, b + 1, field_marker(path));
                if c >= doc.len() {
                    Seq::<Seq<char>>::empty()
                } else {
                    block_run(doc, c + 1, init_block_st(), width, gather, show_url)
                }
            }
        }
    }
}

/// Extracts the documentation fragment addressed by `search_str` from the
/// document given as `document` (its lines, in order; empty when the document
/// could not be read) and renders it.
///
/// In display mode (`gather_valid` false) the fragment's lines come back
/// transcoded to ANSI-formatted text, each ending in a newline; `width`
/// controls table-column padding and horizontal-rule length, and `show_url`
/// whether hyperlink spans are rendered. In value-gathering mode
/// (`gather_valid` true) only enumerable values found in the fragment's
/// bullet lists come back. Diagnostic or empty results signal "nothing
/// found"; there is no separate error channel.
pub fn parse_config_tex(
    document: Vec<String>,
    search_str: Vec<String>,
    width: i32,
    gather_valid: bool,
    show_url: bool,
) -> (result: Vec<String>)
    requires
        width >= 4,
    ensures
        result.deep_view() == parse_config_spec(
            document.deep_view(),
            search_str.deep_view(),
            width as int,
            gather_valid,
            show_url,
        ),
{
    if search_str.len() == 0 {
        let mut out: Vec<String> = Vec::new();
        out.push(String::from_str("no field values supplied"));
        proof {
            assert(out.deep_view() =~= seq!["no field values supplied"@]);
        }
        return out;
    }
    if document.len() == 0 {
        let mut out: Vec<String> = Vec::new();
        out.push(String::from_str("local Configuration.tex not found"));
        proof {
            assert(out.deep_view() =~= seq!["local Configuration.tex not found"@]);
        }
        return out;
    }
    if search_str.len() > 4 {
        let out: Vec<String> = Vec::new();
        proof {
            assert(out.deep_view() =~= Seq::<Seq<char>>::empty());
        }
        return out;
    }
    let lines = to_char_lines(&document);
    let sec = build_sec_marker(&search_str);
    let a = find_line(&lines, 0, &sec);
    if a >= lines.len() {
        let out: Vec<String> = Vec::new();
        proof {
            assert(out.deep_view() =~= Seq::<Seq<char>>::empty());
        }
        return out;
    }
    if search_str.len() == 1 {
        let block = transcode_block(&lines, a + 1, width, gather_valid, show_url);
        return lines_to_strings(&block);
    }
    let sub = build_sub_marker(&search_str);
    let b = find_line(&lines, a + 1, &sub);
    if b >= lines.len() {
        let out: Vec<String> = Vec::new();
        proof {
            assert(out.deep_view() =~= Seq::<Seq<char>>::empty());
        }
        return out;
    }
    let field = build_field_marker(&search_str);
    let c = find_line(&lines, b + 1, &field);
    if c >= lines.len() {
        let out: Vec<String> = Vec::new();
        proof {
            assert(out.deep_view() =~= Seq::<Seq<char>>::empty());
        }
        return out;
    }
    let block = transcode_block(&lines, c + 1, width, gather_valid, show_url);
    lines_to_strings(&block)
}

} // verus!
