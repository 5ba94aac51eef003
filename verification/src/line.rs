//! The line transcoder: a per-line, two-state character machine that turns
//! inline markup commands into ANSI escape sequences (display mode) or strips
//! them (value-gathering mode), handling table-column padding, math-mode
//! alignment markers, escaped characters and the symbol table.

use vstd::prelude::*;
use crate::symbols::{special_char, symbol_for};
use crate::text::chars_eq;

verus! {

/// An ANSI escape sequence: ESC `[` code `m`.
pub open spec fn esc(code: Seq<char>) -> Seq<char> {
    seq!['\u{1b}', '['] + code + seq!['m']
}

pub open spec fn sgr_reset() -> Seq<char> {
    esc(seq!['0'])
}

pub open spec fn sgr_bold() -> Seq<char> {
    esc(seq!['1'])
}

pub open spec fn sgr_italic() -> Seq<char> {
    esc(seq!['3'])
}

pub open spec fn sgr_underline() -> Seq<char> {
    esc(seq!['4'])
}

pub open spec fn sgr_reverse() -> Seq<char> {
    esc(seq!['7'])
}

/// The distinct color used for hyperlink text.
pub open spec fn sgr_link() -> Seq<char> {
    esc(seq!['3', '4'])
}

pub open spec fn spaces(n: int) -> Seq<char> {
    Seq::new(n as nat, |i: int| ' ')
}

pub open spec fn dashes(n: int) -> Seq<char> {
    Seq::new(n as nat, |i: int| '-')
}

pub open spec fn is_digit(c: char) -> bool {
    48 <= c as u32 <= 57
}

/// A character that ends a pending command name without opening a braced span:
/// the command resolves through the symbol table.
pub open spec fn is_key_delim(c: char) -> bool {
    c == ' ' || c == ',' || c == '(' || c == ')' || c == '\\' || is_digit(c) || c == '$' || c
        == '&'
}

/// A delimiter that is also echoed to the output after the resolved symbol.
pub open spec fn is_echoed_delim(c: char) -> bool {
    c == ',' || c == '(' || c == ')' || is_digit(c) || c == '$'
}

/// A character with no role in the markup: anything but a backslash, a brace,
/// a closing bracket or the column separator.
pub open spec fn plain_char(c: char) -> bool {
    c != '\\' && c != '{' && c != '}' && c != ']' && c != '&'
}

/// A command name whose formatting escape is recognized (its span is not
/// suppressed).
pub open spec fn is_known_style(key: Seq<char>) -> bool {
    key == "text"@ || key == "textit"@ || key == "textbf"@ || key == "emph"@ || key == "texttt"@
}

/// The state of the line transcoder between two characters: whether a command
/// name is being accumulated (and its buffer), whether the current span is
/// suppressed, the characters emitted since the last column separator, and the
/// output so far.
pub struct LineSt {
    pub build_key: bool,
    pub key: Seq<char>,
    pub ignore: bool,
    pub col_len: int,
    pub out: Seq<char>,
}

pub open spec fn init_line_st() -> LineSt {
    LineSt { build_key: false, key: Seq::empty(), ignore: false, col_len: 0, out: Seq::empty() }
}

/// The width of one table column: the display width split evenly over the
/// declared columns plus one.
pub open spec fn col_width(columns: int, width: int) -> int {
    width / (columns + 1)
}

/// One transition of the line transcoder on character `c`.
pub open spec fn line_step(
    st: LineSt,
    c: char,
    columns: int,
    width: int,
    align: bool,
    gather: bool,
    show_url: bool,
) -> LineSt {
    if st.build_key {
        if c == '{' || c == '[' {
            // The command name is complete and opens a braced span: map it to
            // a formatting escape (display mode only); unrecognized names and
            // hyperlinks with URL display off suppress the span instead.
            let out = if gather {
                st.out
            } else if st.key == "text"@ {
                st.out + sgr_reset()
            } else if st.key == "textit"@ {
                st.out + sgr_italic()
            } else if st.key == "textbf"@ {
                st.out + sgr_bold()
            } else if st.key == "emph"@ {
                st.out + sgr_reverse()
            } else if st.key == "texttt"@ {
                st.out + sgr_underline()
            } else if st.key == "href"@ && show_url {
                st.out + sgr_link()
            } else {
                st.out
            };
            let ign = if gather {
                st.ignore
            } else if is_known_style(st.key) {
                st.ignore
            } else if st.key == "href"@ {
                !show_url || st.ignore
            } else {
                true
            };
            // The hyperlink command is retained so that the closing bracket
            // can emit its trailing space.
            let key = if st.key == "href"@ {
                st.key
            } else {
                Seq::<char>::empty()
            };
            LineSt { build_key: false, key, ignore: ign, col_len: st.col_len, out }
        } else if is_key_delim(c) {
            // The command name ends at a bare delimiter: an item marker emits
            // a bullet, then the name resolves through the symbol table; some
            // delimiters are echoed, and a backslash after a non-empty name
            // starts the next command at once.
            let out1 = if st.key == "item"@ && !gather {
                st.out.push('\u{2022}')
            } else {
                st.out
            };
            let out2 = out1.push(symbol_for(st.key));
            let out3 = if is_echoed_delim(c) {
                out2.push(c)
            } else {
                out2
            };
            LineSt {
                build_key: c == '\\' && st.key.len() > 0,
                key: Seq::empty(),
                ignore: st.ignore,
                col_len: st.col_len + 1,
                out: out3,
            }
        } else if c == '_' || c == '^' || c == '#' {
            // An escaped special character: emitted literally.
            LineSt {
                build_key: false,
                key: Seq::empty(),
                ignore: st.ignore,
                col_len: st.col_len + 1,
                out: st.out.push(c),
            }
        } else {
            LineSt {
                build_key: true,
                key: st.key.push(c),
                ignore: st.ignore,
                col_len: st.col_len,
                out: st.out,
            }
        }
    } else {
        if c == '\\' {
            LineSt {
                build_key: true,
                key: st.key,
                ignore: st.ignore,
                col_len: st.col_len,
                out: st.out,
            }
        } else if c == '}' || c == ']' {
            // Close of a formatting span: reset the style, give a hyperlink
            // its trailing space, and lift any suppression.
            if !st.ignore && !gather {
                if st.key == "href"@ {
                    LineSt {
                        build_key: st.build_key,
                        key: Seq::empty(),
                        ignore: false,
                        col_len: st.col_len,
                        out: st.out + sgr_reset() + seq![' '],
                    }
                } else if c == ']' {
                    LineSt {
                        build_key: st.build_key,
                        key: st.key,
                        ignore: false,
                        col_len: st.col_len,
                        out: st.out + sgr_reset() + seq![']'],
                    }
                } else {
                    LineSt {
                        build_key: st.build_key,
                        key: st.key,
                        ignore: false,
                        col_len: st.col_len,
                        out: st.out + sgr_reset(),
                    }
                }
            } else {
                LineSt {
                    build_key: st.build_key,
                    key: st.key,
                    ignore: false,
                    col_len: st.col_len,
                    out: st.out,
                }
            }
        } else if c == '{' {
            // Open of a braced group: underline is the default emphasis.
            if gather {
                st
            } else {
                LineSt {
                    build_key: st.build_key,
                    key: st.key,
                    ignore: st.ignore,
                    col_len: st.col_len,
                    out: st.out + sgr_underline(),
                }
            }
        } else if c == '&' {
            // Column separator: inside a table, pad the cell and emit a bar;
            // outside a table it is literal, except in math mode.
            if columns > 0 {
                let fill = col_width(columns, width) - st.col_len - 1;
                let padded = if fill > 0 {
                    st.out + spaces(fill)
                } else {
                    st.out
                };
                LineSt {
                    build_key: st.build_key,
                    key: st.key,
                    ignore: st.ignore,
                    col_len: 0,
                    out: padded.push('|'),
                }
            } else if !align {
                LineSt {
                    build_key: st.build_key,
                    key: st.key,
                    ignore: st.ignore,
                    col_len: st.col_len,
                    out: st.out.push('&'),
                }
            } else {
                st
            }
        } else {
            if !st.ignore {
                LineSt {
                    build_key: st.build_key,
                    key: st.key,
                    ignore: st.ignore,
                    col_len: st.col_len + 1,
                    out: st.out.push(c),
                }
            } else {
                st
            }
        }
    }
}

/// The transcoder state after consuming the first `n` characters of `line`.
pub open spec fn line_run_to(
    line: Seq<char>,
    n: int,
    columns: int,
    width: int,
    align: bool,
    gather: bool,
    show_url: bool,
) -> LineSt
    decreases n,
{
    if n <= 0 {
        init_line_st()
    } else {
        line_step(
            line_run_to(line, n - 1, columns, width, align, gather, show_url),
            line[n - 1],
            columns,
            width,
            align,
            gather,
            show_url,
        )
    }
}

/// The full transcoding of one line: run the machine over every character,
/// resolve a still-buffered command name at end of line, drop the whole line
/// for the no-op list marker, append a rule for the horizontal-rule marker,
/// and terminate with a newline (display mode only).
pub open spec fn parse_line_spec(
    line: Seq<char>,
    columns: int,
    width: int,
    align: bool,
    gather: bool,
    show_url: bool,
) -> Seq<char> {
    let st = line_run_to(line, line.len() as int, columns, width, align, gather, show_url);
    let out1 = if st.key.len() > 0 {
        st.out.push(symbol_for(st.key))
    } else {
        st.out
    };
    if gather {
        out1
    } else if st.key == "tightlist"@ {
        Seq::empty()
    } else if st.key == "hline"@ {
        (out1 + dashes(width - 4)).push('\n')
    } else {
        out1.push('\n')
    }
}

fn push_esc1(out: &mut Vec<char>, d: char)
    ensures
        final(out)@ == old(out)@ + esc(seq![d]),
{
    out.push('\u{1b}');
    out.push('[');
    out.push(d);
    out.push('m');
    proof {
        assert(out@ =~= old(out)@ + esc(seq![d]));
    }
}

fn push_esc2(out: &mut Vec<char>, d1: char, d2: char)
    ensures
        final(out)@ == old(out)@ + esc(seq![d1, d2]),
{
    out.push('\u{1b}');
    out.push('[');
    out.push(d1);
    out.push(d2);
    out.push('m');
    proof {
        assert(out@ =~= old(out)@ + esc(seq![d1, d2]));
    }
}

/// `n` copies of the character `c`.
fn repeat_char(c: char, n: usize) -> (r: Vec<char>)
    ensures
        r@ == Seq::new(n as nat, |i: int| c),
{
    let mut r: Vec<char> = Vec::new();
    let mut i: usize = 0;
    while i < n
        invariant
            i <= n,
            r@ == Seq::new(i as nat, |k: int| c),
        decreases n - i,
    {
        r.push(c);
        proof {
            assert(r@ =~= Seq::new((i + 1) as nat, |k: int| c));
        }
        i = i + 1;
    }
    r
}

fn is_key_delim_exec(c: char) -> (r: bool)
    ensures
        r == is_key_delim(c),
{
    c == ' ' || c == ',' || c == '(' || c == ')' || c == '\\' || (c as u32 >= 48 && c as u32 <= 57)
        || c == '$' || c == '&'
}

fn is_echoed_delim_exec(c: char) -> (r: bool)
    ensures
        r == is_echoed_delim(c),
{
    c == ',' || c == '(' || c == ')' || (c as u32 >= 48 && c as u32 <= 57) || c == '$'
}

/// Transcodes one line of the document.
///
/// `columns` is the number of table columns currently declared (0 outside a
/// table), `width` the display width, `align` whether a math block is open,
/// `gather_valid` selects value-gathering mode and `show_url` whether
/// hyperlink spans are rendered.
pub fn parse_line(
    line: &Vec<char>,
    columns: usize,
    width: i32,
    align: bool,
    gather_valid: bool,
    show_url: bool,
) -> (r: Vec<char>)
    requires
        width >= 4,
    ensures
        r@ == parse_line_spec(
            line@,
            columns as int,
            width as int,
            align,
            gather_valid,
            show_url,
        ),
{
    let n: usize = line.len();
    let mut ret: Vec<char> = Vec::new();
    let mut build_key: bool = false;
    let mut key: Vec<char> = Vec::new();
    let mut ignore: bool = false;
    let mut col_len: usize = 0;
    let mut i: usize = 0;
    while i < n
        invariant
            width >= 4,
            n == line@.len(),
            i <= n,
            col_len <= i,
            ({
                let st = line_run_to(
                    line@,
                    i as int,
                    columns as int,
                    width as int,
                    align,
                    gather_valid,
                    show_url,
                );
                build_key == st.build_key && key@ == st.key && ignore == st.ignore && col_len
                    as int == st.col_len && ret@ == st.out
            }),
        decreases n - i,
    {
        let c = line[i];
        if build_key {
            if c == '{' || c == '[' {
                build_key = false;
                if !gather_valid {
                    if chars_eq(&key, "text") {
                        push_esc1(&mut ret, '0');
                    } else if chars_eq(&key, "textit") {
                        push_esc1(&mut ret, '3');
                    } else if chars_eq(&key, "textbf") {
                        push_esc1(&mut ret, '1');
                    } else if chars_eq(&key, "emph") {
                        push_esc1(&mut ret, '7');
                    } else if chars_eq(&key, "texttt") {
                        push_esc1(&mut ret, '4');
                    } else if chars_eq(&key, "href") {
                        if show_url {
                            push_esc2(&mut ret, '3', '4');
                        } else {
                            ignore = true;
                        }
                    } else {
                        ignore = true;
                    }
                }
                if !chars_eq(&key, "href") {
                    key.clear();
                }
            } else if is_key_delim_exec(c) {
                build_key = false;
                if chars_eq(&key, "item") && !gather_valid {
                    ret.push('\u{2022}');
                }
                let s = special_char(&key);
                ret.push(s);
                col_len = col_len + 1;
                if is_echoed_delim_exec(c) {
                    ret.push(c);
                }
                if c == '\\' && key.len() > 0 {
                    build_key = true;
                }
                key.clear();
            } else if c == '_' || c == '^' || c == '#' {
                build_key = false;
                ret.push(c);
                col_len = col_len + 1;
                key.clear();
            } else {
                key.push(c);
            }
        } else {
            if c == '\\' {
                build_key = true;
            } else if c == '}' || c == ']' {
                if !ignore && !gather_valid {
                    push_esc1(&mut ret, '0');
                    if chars_eq(&key, "href") {
                        ret.push(' ');
                        key.clear();
                    } else if c == ']' {
                        ret.push(']');
                    }
                }
                ignore = false;
            } else if c == '{' {
                if !gather_valid {
                    push_esc1(&mut ret, '4');
                }
            } else if c == '&' {
                if columns > 0 {
                    let cw: u128 = (width as u128) / (columns as u128 + 1);
                    if cw > col_len as u128 + 1 {
                        let fill: u128 = cw - col_len as u128 - 1;
                        let pad = repeat_char(' ', fill as usize);
                        proof {
                            assert(pad@ =~= spaces(
                                col_width(columns as int, width as int) - col_len - 1,
                            ));
                        }
                        crate::text::push_all(&mut ret, &pad);
                    }
                    ret.push('|');
                    col_len = 0;
                } else {
                    if !align {
                        ret.push('&');
                    }
                }
            } else {
                if !ignore {
                    ret.push(c);
                    col_len = col_len + 1;
                }
            }
        }
        i = i + 1;
    }
    if key.len() > 0 {
        let s = special_char(&key);
        ret.push(s);
    }
    if !gather_valid {
        if chars_eq(&key, "tightlist") {
            ret = Vec::new();
        } else {
            if chars_eq(&key, "hline") {
                let rule = repeat_char('-', (width - 4) as usize);
                proof {
                    assert(rule@ =~= dashes(width as int - 4));
                }
                crate::text::push_all(&mut ret, &rule);
            }
            ret.push('\n');
        }
    }
    ret
}

} // verus!
