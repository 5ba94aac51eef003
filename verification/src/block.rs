//! The block transcoder: starting just after the located anchor, consumes
//! lines until a terminating condition, tracking list nesting, table columns
//! and math mode across lines, and transcoding each consumed line.

use vstd::prelude::*;
use crate::line::parse_line_spec;
use crate::line::parse_line;
use crate::text::{contains_sub, contains_chars, str_chars};

verus! {

/// Block-level state carried across lines: two signed list-nesting counters
/// (a malformed document may drive them negative; any value at or below zero
/// counts as "not in a list"), the declared table column count, and whether a
/// math block is open.
pub struct BlockSt {
    pub itemize: int,
    pub enumerate: int,
    pub columns: int,
    pub align: bool,
    pub result: Seq<Seq<char>>,
}

pub open spec fn init_block_st() -> BlockSt {
    BlockSt { itemize: 0, enumerate: 0, columns: 0, align: false, result: Seq::empty() }
}

/// The number of column-alignment characters (`c`) in a table-open line.
pub open spec fn count_c(s: Seq<char>) -> int
    decreases s.len(),
{
    if s.len() == 0 {
        0
    } else {
        count_c(s.drop_last()) + if s.last() == 'c' {
            1int
        } else {
            0int
        }
    }
}

/// The output of the block transcoder run from line `i` in state `st`: block
/// markers update the state and are dropped, a bullet marker outside any
/// active list or a new section or subsection ends the block, and every other
/// line is transcoded. In display mode every non-empty transcoded line is
/// collected; in value-gathering mode only lines inside an active bullet list
/// holding the `---` separator are collected, to at most ten entries.
pub open spec fn block_run(
    lines: Seq<Seq<char>>,
    i: int,
    st: BlockSt,
    width: int,
    gather: bool,
    show_url: bool,
) -> Seq<Seq<char>>
    decreases lines.len() - i,
{
    if i < 0 || i >= lines.len() {
        st.result
    } else {
        let line = lines[i];
        if contains_sub(line, "\\subsection{Introduction}"@) {
            block_run(lines, i + 1, st, width, gather, show_url)
        } else if contains_sub(line, "\\begin{tabular"@) {
            block_run(
                lines,
                i + 1,
                BlockSt {
                    itemize: st.itemize,
                    enumerate: st.enumerate,
                    columns: count_c(line),
                    align: st.align,
                    result: st.result,
                },
                width,
                gather,
                show_url,
            )
        } else if contains_sub(line, "\\begin{align*}"@) {
            block_run(
                lines,
                i + 1,
                BlockSt {
                    itemize: st.itemize,
                    enumerate: st.enumerate,
                    columns: st.columns,
                    align: true,
                    result: st.result,
                },
                width,
                gather,
                show_url,
            )
        } else if contains_sub(line, "\\end{align*}}"@) {
            block_run(
                lines,
                i + 1,
                BlockSt {
                    itemize: st.itemize,
                    enumerate: st.enumerate,
                    columns: st.columns,
                    align: false,
                    result: st.result,
                },
                width,
                gather,
                show_url,
            )
        } else if contains_sub(line, "\\begin{itemize}"@) {
            block_run(
                lines,
                i + 1,
                BlockSt {
                    itemize: st.itemize + 1,
                    enumerate: st.enumerate,
                    columns: st.columns,
                    align: st.align,
                    result: st.result,
                },
                width,
                gather,
                show_url,
            )
        } else if contains_sub(line, "\\begin{enumerate}"@) {
            block_run(
                lines,
                i + 1,
                BlockSt {
                    itemize: st.itemize,
                    enumerate: st.enumerate + 1,
                    columns: st.columns,
                    align: st.align,
                    result: st.result,
                },
                width,
                gather,
                show_url,
            )
        } else if contains_sub(line, "\\mbox"@) {
            block_run(lines, i + 1, st, width, gather, show_url)
        } else if contains_sub(line, "\\end{tabular}"@) {
            block_run(
                lines,
                i + 1,
                BlockSt {
                    itemize: st.itemize,
                    enumerate: st.enumerate,
                    columns: 0,
                    align: st.align,
                    result: st.result,
                },
                width,
                gather,
                show_url,
            )
        } else if contains_sub(line, "\\end{itemize}"@) {
            block_run(
                lines,
                i + 1,
                BlockSt {
                    itemize: st.itemize - 1,
                    enumerate: st.enumerate,
                    columns: st.columns,
                    align: st.align,
                    result: st.result,
                },
                width,
                gather,
                show_url,
            )
        } else if contains_sub(line, "\\end{enumerate}"@) {
            block_run(
                lines,
                i + 1,
                BlockSt {
                    itemize: st.itemize,
                    enumerate: st.enumerate - 1,
                    columns: st.columns,
                    align: st.align,
                    result: st.result,
                },
                width,
                gather,
                show_url,
            )
        } else if contains_sub(line, "\\end{"@) {
            block_run(lines, i + 1, st, width, gather, show_url)
        } else if contains_sub(line, "\\item"@) && st.itemize <= 0 && st.enumerate <= 0 {
            st.result
        } else if contains_sub(line, "\\subsection{"@) || contains_sub(line, "\\section{"@) {
            st.result
        } else {
            let parsed = parse_line_spec(line, st.columns, width, st.align, gather, show_url);
            let collected = if gather {
                if st.itemize > 0 && contains_sub(line, "---"@) && st.result.len() < 10 {
                    st.result.push(parsed)
                } else {
                    st.result
                }
            } else {
                if parsed.len() != 0 {
                    st.result.push(parsed)
                } else {
                    st.result
                }
            };
            block_run(
                lines,
                i + 1,
                BlockSt {
                    itemize: st.itemize,
                    enumerate: st.enumerate,
                    columns: st.columns,
                    align: st.align,
                    result: collected,
                },
                width,
                gather,
                show_url,
            )
        }
    }
}

/// Counts the column-alignment characters in a table-open line.
fn count_cols(line: &Vec<char>) -> (r: usize)
    ensures
        r as int == count_c(line@),
{
    let n: usize = line.len();
    let mut r: usize = 0;
    let mut i: usize = 0;
    while i < n
        invariant
            n == line@.len(),
            i <= n,
            r <= i,
            r as int == count_c(line@.take(i as int)),
        decreases n - i,
    {
        proof {
            assert(line@.take(i + 1 as int).drop_last() =~= line@.take(i as int));
            assert(line@.take(i + 1 as int).last() == line@[i as int]);
        }
        if line[i] == 'c' {
            r = r + 1;
        }
        i = i + 1;
    }
    proof {
        assert(line@.take(n as int) =~= line@);
    }
    r
}

/// Consumes the lines of the block starting at `start` and returns what they
/// transcode to, as `block_run` states it.
pub fn transcode_block(
    lines: &Vec<Vec<char>>,
    start: usize,
    width: i32,
    gather_valid: bool,
    show_url: bool,
) -> (r: Vec<Vec<char>>)
    requires
        width >= 4,
        start <= lines@.len(),
    ensures
        r.deep_view() == block_run(
            lines.deep_view(),
            start as int,
            init_block_st(),
            width as int,
            gather_valid,
            show_url,
        ),
{
    let m_intro = str_chars("\\subsection{Introduction}");
    let m_tab_open = str_chars("\\begin{tabular");
    let m_al_open = str_chars("\\begin{align*}");
    let m_al_close = str_chars("\\end{align*}}");
    let m_it_open = str_chars("\\begin{itemize}");
    let m_en_open = str_chars("\\begin{enumerate}");
    let m_mbox = str_chars("\\mbox");
    let m_tab_close = str_chars("\\end{tabular}");
    let m_it_close = str_chars("\\end{itemize}");
    let m_en_close = str_chars("\\end{enumerate}");
    let m_close = str_chars("\\end{");
    let m_item = str_chars("\\item");
    let m_sub = str_chars("\\subsection{");
    let m_sec = str_chars("\\section{");
    let m_sep = str_chars("---");

    let n: usize = lines.len();
    let mut result: Vec<Vec<char>> = Vec::new();
    let mut itemize: i128 = 0;
    let mut enumerate: i128 = 0;
    let mut columns: usize = 0;
    let mut align: bool = false;
    let mut done: bool = false;
    let mut i: usize = start;

    proof {
        crate::text::lemma_deep_lines(lines);
        assert(result.deep_view() =~= Seq::<Seq<char>>::empty());
    }

    while i < n && !done
        invariant
            width >= 4,
            n == lines@.len(),
            lines.deep_view().len() == lines@.len(),
            forall|k: int| 0 <= k < lines@.len() ==> lines.deep_view()[k] == lines@[k]@,
            start <= i <= n,
            -(i as int) <= itemize as int <= i as int,
            -(i as int) <= enumerate as int <= i as int,
            m_intro@ == "\\subsection{Introduction}"@,
            m_tab_open@ == "\\begin{tabular"@,
            m_al_open@ == "\\begin{align*}"@,
            m_al_close@ == "\\end{align*}}"@,
            m_it_open@ == "\\begin{itemize}"@,
            m_en_open@ == "\\begin{enumerate}"@,
            m_mbox@ == "\\mbox"@,
            m_tab_close@ == "\\end{tabular}"@,
            m_it_close@ == "\\end{itemize}"@,
            m_en_close@ == "\\end{enumerate}"@,
            m_close@ == "\\end{"@,
            m_item@ == "\\item"@,
            m_sub@ == "\\subsection{"@,
            m_sec@ == "\\section{"@,
            m_sep@ == "---"@,
            done ==> block_run(
                lines.deep_view(),
                start as int,
                init_block_st(),
                width as int,
                gather_valid,
                show_url,
            ) == result.deep_view(),
            !done ==> block_run(
                lines.deep_view(),
                start as int,
                init_block_st(),
                width as int,
                gather_valid,
                show_url,
            ) == block_run(
                lines.deep_view(),
                i as int,
                (BlockSt {
                    itemize: itemize as int,
                    enumerate: enumerate as int,
                    columns: columns as int,
                    align: align,
                    result: result.deep_view(),
                }),
                width as int,
                gather_valid,
                show_url,
            ),
        decreases n - i + if done {
            0int
        } else {
            1int
        },
    {
        let line = &lines[i];
        proof {
            assert(lines.deep_view()[i as int] == line@);
        }
        if contains_chars(line, &m_intro) {
            i = i + 1;
        } else if contains_chars(line, &m_tab_open) {
            columns = count_cols(line);
            i = i + 1;
        } else if contains_chars(line, &m_al_open) {
            align = true;
            i = i + 1;
        } else if contains_chars(line, &m_al_close) {
            align = false;
            i = i + 1;
        } else if contains_chars(line, &m_it_open) {
            itemize = itemize + 1;
            i = i + 1;
        } else if contains_chars(line, &m_en_open) {
            enumerate = enumerate + 1;
            i = i + 1;
        } else if contains_chars(line, &m_mbox) {
            i = i + 1;
        } else if contains_chars(line, &m_tab_close) {
            columns = 0;
            i = i + 1;
        } else if contains_chars(line, &m_it_close) {
            itemize = itemize - 1;
            i = i + 1;
        } else if contains_chars(line, &m_en_close) {
            enumerate = enumerate - 1;
            i = i + 1;
        } else if contains_chars(line, &m_close) {
            i = i + 1;
        } else if contains_chars(line, &m_item) && itemize <= 0 && enumerate <= 0 {
            done = true;
        } else if contains_chars(line, &m_sub) || contains_chars(line, &m_sec) {
            done = true;
        } else {
            let parsed = parse_line(line, columns, width, align, gather_valid, show_url);
            let ghost old_result = result.deep_view();
            if gather_valid {
                if itemize > 0 && contains_chars(line, &m_sep) && result.len() < 10 {
                    proof {
                        assert(parsed@ == parse_line_spec(
                            lines.deep_view()[i as int],
                            columns as int,
                            width as int,
                            align,
                            gather_valid,
                            show_url,
                        ));
                    }
                    result.push(parsed);
                    proof {
                        assert(result.deep_view() =~~= old_result.push(
                            parse_line_spec(
                                lines.deep_view()[i as int],
                                columns as int,
                                width as int,
                                align,
                                gather_valid,
                                show_url,
                            ),
                        ));
                    }
                }
            } else {
                if parsed.len() != 0 {
                    result.push(parsed);
                    proof {
                        assert(result.deep_view() =~~= old_result.push(
                            parse_line_spec(
                                lines.deep_view()[i as int],
                                columns as int,
                                width as int,
                                align,
                                gather_valid,
                                show_url,
                            ),
                        ));
                    }
                }
            }
            i = i + 1;
        }
    }
    result
}

} // verus!
