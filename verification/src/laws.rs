//! Properties of the extraction pipeline, stated and proved over the same
//! specification functions that the executable functions are verified
//! against.

use vstd::prelude::*;
use crate::block::{block_run, BlockSt};
use crate::line::{
    col_width, line_run_to, line_step, parse_line_spec, plain_char, spaces, LineSt,
};
use crate::text::contains_sub;

verus! {

/// An empty search path yields exactly the single diagnostic line, whatever
/// the document and the other parameters.
pub proof fn lemma_empty_path(
    doc: Seq<Seq<char>>,
    path: Seq<Seq<char>>,
    width: int,
    gather: bool,
    show_url: bool,
)
    requires
        path.len() == 0,
    ensures
        crate::parse_config_spec(doc, path, width, gather, show_url) == seq![
            "no field values supplied"@,
        ],
{
}

/// An empty document yields exactly the single not-found diagnostic line,
/// whatever the (non-empty) search path and the other parameters.
pub proof fn lemma_empty_document(
    doc: Seq<Seq<char>>,
    path: Seq<Seq<char>>,
    width: int,
    gather: bool,
    show_url: bool,
)
    requires
        path.len() > 0,
        doc.len() == 0,
    ensures
        crate::parse_config_spec(doc, path, width, gather, show_url) == seq![
            "local Configuration.tex not found"@,
        ],
{
}

/// Running the line transcoder over a segment of plain characters, from a
/// state that is neither reading a command name nor suppressing, emits the
/// segment verbatim and counts it toward the current column, touching nothing
/// else.
pub proof fn lemma_plain_segment(
    line: Seq<char>,
    p: int,
    q: int,
    columns: int,
    width: int,
    align: bool,
    gather: bool,
    show_url: bool,
)
    requires
        0 <= p <= q <= line.len(),
        forall|j: int| p <= j < q ==> plain_char(#[trigger] line[j]),
        !line_run_to(line, p, columns, width, align, gather, show_url).build_key,
        !line_run_to(line, p, columns, width, align, gather, show_url).ignore,
    ensures
        ({
            let st0 = line_run_to(line, p, columns, width, align, gather, show_url);
            let st1 = line_run_to(line, q, columns, width, align, gather, show_url);
            st1 == (LineSt {
                build_key: false,
                key: st0.key,
                ignore: false,
                col_len: st0.col_len + (q - p),
                out: st0.out + line.subrange(p, q),
            })
        }),
    decreases q - p,
{
    let st0 = line_run_to(line, p, columns, width, align, gather, show_url);
    if q == p {
        assert(st0.out + line.subrange(p, p) =~= st0.out);
    } else {
        lemma_plain_segment(line, p, q - 1, columns, width, align, gather, show_url);
        let stm = line_run_to(line, q - 1, columns, width, align, gather, show_url);
        let c = line[q - 1];
        assert(line_run_to(line, q, columns, width, align, gather, show_url) == line_step(
            stm,
            c,
            columns,
            width,
            align,
            gather,
            show_url,
        ));
        assert(stm.out.push(c) =~= st0.out + line.subrange(p, q));
    }
}

/// Running the line transcoder over a segment of plain characters while the
/// current span is suppressed emits nothing and changes nothing.
pub proof fn lemma_ignored_segment(
    line: Seq<char>,
    p: int,
    q: int,
    columns: int,
    width: int,
    align: bool,
    gather: bool,
    show_url: bool,
)
    requires
        0 <= p <= q <= line.len(),
        forall|j: int| p <= j < q ==> plain_char(#[trigger] line[j]),
        !line_run_to(line, p, columns, width, align, gather, show_url).build_key,
        line_run_to(line, p, columns, width, align, gather, show_url).ignore,
    ensures
        line_run_to(line, q, columns, width, align, gather, show_url) == line_run_to(
            line,
            p,
            columns,
            width,
            align,
            gather,
            show_url,
        ),
    decreases q - p,
{
    if q > p {
        lemma_ignored_segment(line, p, q - 1, columns, width, align, gather, show_url);
    }
}

/// Round trip: a line with no markup at all — none of backslash, braces,
/// closing bracket or column separator — transcodes in display mode to
/// itself, verbatim, plus the terminating newline.
pub proof fn lemma_plain_round_trip(
    line: Seq<char>,
    columns: int,
    width: int,
    align: bool,
    show_url: bool,
)
    requires
        forall|j: int| 0 <= j < line.len() ==> plain_char(#[trigger] line[j]),
    ensures
        parse_line_spec(line, columns, width, align, false, show_url) == line.push('\n'),
{
    lemma_plain_segment(line, 0, line.len() as int, columns, width, align, false, show_url);
    let st = line_run_to(line, line.len() as int, columns, width, align, false, show_url);
    assert(Seq::<char>::empty() + line.subrange(0, line.len() as int) =~= line);
    reveal_strlit("tightlist");
    reveal_strlit("hline");
    assert(st.key != "tightlist"@);
    assert(st.key != "hline"@);
}

/// Table padding: a cell of plain characters followed by the column
/// separator, at the start of a row inside a table of `columns` declared
/// columns, comes out as the cell text, padded with spaces up to one less
/// than the target column width when it falls short (and left alone when it
/// already meets it), then the vertical bar; the column counter starts over.
pub proof fn lemma_table_cell_padding(
    line: Seq<char>,
    cell: Seq<char>,
    columns: int,
    width: int,
    align: bool,
    gather: bool,
    show_url: bool,
)
    requires
        columns > 0,
        cell.len() + 1 <= line.len(),
        line.subrange(0, cell.len() as int) == cell,
        line[cell.len() as int] == '&',
        forall|j: int| 0 <= j < cell.len() ==> plain_char(#[trigger] cell[j]),
    ensures
        ({
            let st = line_run_to(
                line,
                cell.len() as int + 1,
                columns,
                width,
                align,
                gather,
                show_url,
            );
            let fill = col_width(columns, width) - cell.len() - 1;
            st.col_len == 0 && st.out == (if fill > 0 {
                cell + spaces(fill)
            } else {
                cell
            }).push('|')
        }),
{
    assert forall|j: int| 0 <= j < cell.len() implies plain_char(#[trigger] line[j]) by {
        assert(line[j] == line.subrange(0, cell.len() as int)[j]);
        assert(plain_char(cell[j]));
    }
    lemma_plain_segment(line, 0, cell.len() as int, columns, width, align, gather, show_url);
    let stc = line_run_to(line, cell.len() as int, columns, width, align, gather, show_url);
    assert(stc.out =~= cell);
    assert(line_run_to(line, cell.len() as int + 1, columns, width, align, gather, show_url)
        == line_step(stc, '&', columns, width, align, gather, show_url));
}

/// A bullet-item marker on a line that carries no block marker ends the block
/// exactly when neither list kind is active (both depth counters at or below
/// zero): nothing more is collected.
pub proof fn lemma_item_terminates(
    lines: Seq<Seq<char>>,
    i: int,
    st: BlockSt,
    width: int,
    gather: bool,
    show_url: bool,
)
    requires
        0 <= i < lines.len(),
        no_block_marker(lines[i]),
        contains_sub(lines[i], "\\item"@),
        st.itemize <= 0,
        st.enumerate <= 0,
    ensures
        block_run(lines, i, st, width, gather, show_url) == st.result,
{
}

/// The same bullet-item marker inside an active bullet or numbered list
/// (depth above zero) does not end the block: the line is transcoded like any
/// other content line and the block goes on with the following line.
pub proof fn lemma_item_in_list_continues(
    lines: Seq<Seq<char>>,
    i: int,
    st: BlockSt,
    width: int,
    gather: bool,
    show_url: bool,
)
    requires
        0 <= i < lines.len(),
        no_block_marker(lines[i]),
        contains_sub(lines[i], "\\item"@),
        !contains_sub(lines[i], "\\subsection{"@),
        !contains_sub(lines[i], "\\section{"@),
        st.itemize > 0 || st.enumerate > 0,
    ensures
        ({
            let parsed = parse_line_spec(lines[i], st.columns, width, st.align, gather, show_url);
            let collected = if gather {
                if st.itemize > 0 && contains_sub(lines[i], "---"@) && st.result.len() < 10 {
                    st.result.push(parsed)
                } else {
                    st.result
                }
            } else {
                if parsed.len() != 0 {
                    st.result.push(parsed)
                } else {
                    st.result
                }
            };
            block_run(lines, i, st, width, gather, show_url) == block_run(
                lines,
                i + 1,
                (BlockSt {
                    itemize: st.itemize,
                    enumerate: st.enumerate,
                    columns: st.columns,
                    align: st.align,
                    result: collected,
                }),
                width,
                gather,
                show_url,
            )
        }),
{
}

/// Value-gathering mode never collects more than ten entries: however long
/// the document, the result grows at most to ten lines (or stays at whatever
/// excess an incoming state already carried).
pub proof fn lemma_gather_cap(
    lines: Seq<Seq<char>>,
    i: int,
    st: BlockSt,
    width: int,
    show_url: bool,
)
    ensures
        block_run(lines, i, st, width, true, show_url).len() <= if st.result.len() < 10 {
            10int
        } else {
            st.result.len() as int
        },
    decreases lines.len() - i,
{
    if i < 0 || i >= lines.len() {
    } else {
        let line = lines[i];
        if contains_sub(line, "\\subsection{Introduction}"@) {
            lemma_gather_cap(lines, i + 1, st, width, show_url);
        } else if contains_sub(line, "\\begin{tabular"@) {
            lemma_gather_cap(
                lines,
                i + 1,
                (BlockSt {
                    itemize: st.itemize,
                    enumerate: st.enumerate,
                    columns: crate::block::count_c(line),
                    align: st.align,
                    result: st.result,
                }),
                width,
                show_url,
            );
        } else if contains_sub(line, "\\begin{align*}"@) {
            lemma_gather_cap(
                lines,
                i + 1,
                (BlockSt {
                    itemize: st.itemize,
                    enumerate: st.enumerate,
                    columns: st.columns,
                    align: true,
                    result: st.result,
                }),
                width,
                show_url,
            );
        } else if contains_sub(line, "\\end{align*}}"@) {
            lemma_gather_cap(
                lines,
                i + 1,
                (BlockSt {
                    itemize: st.itemize,
                    enumerate: st.enumerate,
                    columns: st.columns,
                    align: false,
                    result: st.result,
                }),
                width,
                show_url,
            );
        } else if contains_sub(line, "\\begin{itemize}"@) {
            lemma_gather_cap(
                lines,
                i + 1,
                (BlockSt {
                    itemize: st.itemize + 1,
                    enumerate: st.enumerate,
                    columns: st.columns,
                    align: st.align,
                    result: st.result,
                }),
                width,
                show_url,
            );
        } else if contains_sub(line, "\\begin{enumerate}"@) {
            lemma_gather_cap(
                lines,
                i + 1,
                (BlockSt {
                    itemize: st.itemize,
                    enumerate: st.enumerate + 1,
                    columns: st.columns,
                    align: st.align,
                    result: st.result,
                }),
                width,
                show_url,
            );
        } else if contains_sub(line, "\\mbox"@) {
            lemma_gather_cap(lines, i + 1, st, width, show_url);
        } else if contains_sub(line, "\\end{tabular}"@) {
            lemma_gather_cap(
                lines,
                i + 1,
                (BlockSt {
                    itemize: st.itemize,
                    enumerate: st.enumerate,
                    columns: 0,
                    align: st.align,
                    result: st.result,
                }),
                width,
                show_url,
            );
        } else if contains_sub(line, "\\end{itemize}"@) {
            lemma_gather_cap(
                lines,
                i + 1,
                (BlockSt {
                    itemize: st.itemize - 1,
                    enumerate: st.enumerate,
                    columns: st.columns,
                    align: st.align,
                    result: st.result,
                }),
                width,
                show_url,
            );
        } else if contains_sub(line, "\\end{enumerate}"@) {
            lemma_gather_cap(
                lines,
                i + 1,
                (BlockSt {
                    itemize: st.itemize,
                    enumerate: st.enumerate - 1,
                    columns: st.columns,
                    align: st.align,
                    result: st.result,
                }),
                width,
                show_url,
            );
        } else if contains_sub(line, "\\end{"@) {
            lemma_gather_cap(lines, i + 1, st, width, show_url);
        } else if contains_sub(line, "\\item"@) && st.itemize <= 0 && st.enumerate <= 0 {
        } else if contains_sub(line, "\\subsection{"@) || contains_sub(line, "\\section{"@) {
        } else {
            let parsed = parse_line_spec(line, st.columns, width, st.align, true, show_url);
            let collected = if st.itemize > 0 && contains_sub(line, "---"@) && st.result.len()
                < 10 {
                st.result.push(parsed)
            } else {
                st.result
            };
            lemma_gather_cap(
                lines,
                i + 1,
                (BlockSt {
                    itemize: st.itemize,
                    enumerate: st.enumerate,
                    columns: st.columns,
                    align: st.align,
                    result: collected,
                }),
                width,
                show_url,
            );
        }
    }
}

/// Value-gathering mode collects only from inside an active bullet list: when
/// no bullet list is open and no line ahead ever opens one, nothing is ever
/// collected, whatever the lines contain.
pub proof fn lemma_gather_outside_list(
    lines: Seq<Seq<char>>,
    i: int,
    st: BlockSt,
    width: int,
    show_url: bool,
)
    requires
        st.itemize <= 0,
        forall|j: int|
            i <= j < lines.len() ==> !contains_sub(#[trigger] lines[j], "\\begin{itemize}"@),
    ensures
        block_run(lines, i, st, width, true, show_url) == st.result,
    decreases lines.len() - i,
{
    if i < 0 || i >= lines.len() {
    } else {
        let line = lines[i];
        if contains_sub(line, "\\subsection{Introduction}"@) {
            lemma_gather_outside_list(lines, i + 1, st, width, show_url);
        } else if contains_sub(line, "\\begin{tabular"@) {
            lemma_gather_outside_list(
                lines,
                i + 1,
                (BlockSt {
                    itemize: st.itemize,
                    enumerate: st.enumerate,
                    columns: crate::block::count_c(line),
                    align: st.align,
                    result: st.result,
                }),
                width,
                show_url,
            );
        } else if contains_sub(line, "\\begin{align*}"@) {
            lemma_gather_outside_list(
                lines,
                i + 1,
                (BlockSt {
                    itemize: st.itemize,
                    enumerate: st.enumerate,
                    columns: st.columns,
                    align: true,
                    result: st.result,
                }),
                width,
                show_url,
            );
        } else if contains_sub(line, "\\end{align*}}"@) {
            lemma_gather_outside_list(
                lines,
                i + 1,
                (BlockSt {
                    itemize: st.itemize,
                    enumerate: st.enumerate,
                    columns: st.columns,
                    align: false,
                    result: st.result,
                }),
                width,
                show_url,
            );
        } else if contains_sub(line, "\\begin{itemize}"@) {
            assert(false);
        } else if contains_sub(line, "\\begin{enumerate}"@) {
            lemma_gather_outside_list(
                lines,
                i + 1,
                (BlockSt {
                    itemize: st.itemize,
                    enumerate: st.enumerate + 1,
                    columns: st.columns,
                    align: st.align,
                    result: st.result,
                }),
                width,
                show_url,
            );
        } else if contains_sub(line, "\\mbox"@) {
            lemma_gather_outside_list(lines, i + 1, st, width, show_url);
        } else if contains_sub(line, "\\end{tabular}"@) {
            lemma_gather_outside_list(
                lines,
                i + 1,
                (BlockSt {
                    itemize: st.itemize,
                    enumerate: st.enumerate,
                    columns: 0,
                    align: st.align,
                    result: st.result,
                }),
                width,
                show_url,
            );
        } else if contains_sub(line, "\\end{itemize}"@) {
            lemma_gather_outside_list(
                lines,
                i + 1,
                (BlockSt {
                    itemize: st.itemize - 1,
                    enumerate: st.enumerate,
                    columns: st.columns,
                    align: st.align,
                    result: st.result,
                }),
                width,
                show_url,
            );
        } else if contains_sub(line, "\\end{enumerate}"@) {
            lemma_gather_outside_list(
                lines,
                i + 1,
                (BlockSt {
                    itemize: st.itemize,
                    enumerate: st.enumerate - 1,
                    columns: st.columns,
                    align: st.align,
                    result: st.result,
                }),
                width,
                show_url,
            );
        } else if contains_sub(line, "\\end{"@) {
            lemma_gather_outside_list(lines, i + 1, st, width, show_url);
        } else if contains_sub(line, "\\item"@) && st.itemize <= 0 && st.enumerate <= 0 {
        } else if contains_sub(line, "\\subsection{"@) || contains_sub(line, "\\section{"@) {
        } else {
            lemma_gather_outside_list(lines, i + 1, st, width, show_url);
        }
    }
}

/// Value-gathering mode collects only from lines holding the `---`
/// separator: when no line ahead contains it, nothing is ever collected,
/// whatever lists open or close.
pub proof fn lemma_gather_requires_separator(
    lines: Seq<Seq<char>>,
    i: int,
    st: BlockSt,
    width: int,
    show_url: bool,
)
    requires
        forall|j: int| i <= j < lines.len() ==> !contains_sub(#[trigger] lines[j], "---"@),
    ensures
        block_run(lines, i, st, width, true, show_url) == st.result,
    decreases lines.len() - i,
{
    if i < 0 || i >= lines.len() {
    } else {
        let line = lines[i];
        if contains_sub(line, "\\subsection{Introduction}"@) {
            lemma_gather_requires_separator(lines, i + 1, st, width, show_url);
        } else if contains_sub(line, "\\begin{tabular"@) {
            lemma_gather_requires_separator(
                lines,
                i + 1,
                (BlockSt {
                    itemize: st.itemize,
                    enumerate: st.enumerate,
                    columns: crate::block::count_c(line),
                    align: st.align,
                    result: st.result,
                }),
                width,
                show_url,
            );
        } else if contains_sub(line, "\\begin{align*}"@) {
            lemma_gather_requires_separator(
                lines,
                i + 1,
                (BlockSt {
                    itemize: st.itemize,
                    enumerate: st.enumerate,
                    columns: st.columns,
                    align: true,
                    result: st.result,
                }),
                width,
                show_url,
            );
        } else if contains_sub(line, "\\end{align*}}"@) {
            lemma_gather_requires_separator(
                lines,
                i + 1,
                (BlockSt {
                    itemize: st.itemize,
                    enumerate: st.enumerate,
                    columns: st.columns,
                    align: false,
                    result: st.result,
                }),
                width,
                show_url,
            );
        } else if contains_sub(line, "\\begin{itemize}"@) {
            lemma_gather_requires_separator(
                lines,
                i + 1,
                (BlockSt {
                    itemize: st.itemize + 1,
                    enumerate: st.enumerate,
                    columns: st.columns,
                    align: st.align,
                    result: st.result,
                }),
                width,
                show_url,
            );
        } else if contains_sub(line, "\\begin{enumerate}"@) {
            lemma_gather_requires_separator(
                lines,
                i + 1,
                (BlockSt {
                    itemize: st.itemize,
                    enumerate: st.enumerate + 1,
                    columns: st.columns,
                    align: st.align,
                    result: st.result,
                }),
                width,
                show_url,
            );
        } else if contains_sub(line, "\\mbox"@) {
            lemma_gather_requires_separator(lines, i + 1, st, width, show_url);
        } else if contains_sub(line, "\\end{tabular}"@) {
            lemma_gather_requires_separator(
                lines,
                i + 1,
                (BlockSt {
                    itemize: st.itemize,
                    enumerate: st.enumerate,
                    columns: 0,
                    align: st.align,
                    result: st.result,
                }),
                width,
                show_url,
            );
        } else if contains_sub(line, "\\end{itemize}"@) {
            lemma_gather_requires_separator(
                lines,
                i + 1,
                (BlockSt {
                    itemize: st.itemize - 1,
                    enumerate: st.enumerate,
                    columns: st.columns,
                    align: st.align,
                    result: st.result,
                }),
                width,
                show_url,
            );
        } else if contains_sub(line, "\\end{enumerate}"@) {
            lemma_gather_requires_separator(
                lines,
                i + 1,
                (BlockSt {
                    itemize: st.itemize,
                    enumerate: st.enumerate - 1,
                    columns: st.columns,
                    align: st.align,
                    result: st.result,
                }),
                width,
                show_url,
            );
        } else if contains_sub(line, "\\end{"@) {
            lemma_gather_requires_separator(lines, i + 1, st, width, show_url);
        } else if contains_sub(line, "\\item"@) && st.itemize <= 0 && st.enumerate <= 0 {
        } else if contains_sub(line, "\\subsection{"@) || contains_sub(line, "\\section{"@) {
        } else {
            lemma_gather_requires_separator(lines, i + 1, st, width, show_url);
        }
    }
}

/// None of the block-level markers that the block transcoder consumes for
/// itself occurs in the line.
pub open spec fn no_block_marker(line: Seq<char>) -> bool {
    &&& !contains_sub(line, "\\subsection{Introduction}"@)
    &&& !contains_sub(line, "\\begin{tabular"@)
    &&& !contains_sub(line, "\\begin{align*}"@)
    &&& !contains_sub(line, "\\end{align*}}"@)
    &&& !contains_sub(line, "\\begin{itemize}"@)
    &&& !contains_sub(line, "\\begin{enumerate}"@)
    &&& !contains_sub(line, "\\mbox"@)
    &&& !contains_sub(line, "\\end{tabular}"@)
    &&& !contains_sub(line, "\\end{itemize}"@)
    &&& !contains_sub(line, "\\end{enumerate}"@)
    &&& !contains_sub(line, "\\end{"@)
}

/// A line the block transcoder hands to the line transcoder: no block marker,
/// no bullet marker, no section or subsection header.
pub open spec fn plain_content_line(line: Seq<char>) -> bool {
    &&& no_block_marker(line)
    &&& !contains_sub(line, "\\item"@)
    &&& !contains_sub(line, "\\subsection{"@)
    &&& !contains_sub(line, "\\section{"@)
}

/// A line that ends the block (from a state with no active list): a bullet
/// marker, section header or subsection header, on a line with no block
/// marker that would be consumed first.
pub open spec fn block_end_line(line: Seq<char>) -> bool {
    &&& no_block_marker(line)
    &&& (contains_sub(line, "\\item"@) || contains_sub(line, "\\subsection{"@) || contains_sub(
        line,
        "\\section{"@,
    ))
}

/// Display mode transcodes exactly the lines between the anchor and the next
/// block-ending line (or the end of the document): when every line of the
/// stretch is handed to the line transcoder and none transcodes to nothing,
/// the block's output is those lines' transcodings, in order.
pub proof fn lemma_display_block_extent(
    lines: Seq<Seq<char>>,
    i: int,
    end: int,
    st: BlockSt,
    width: int,
    show_url: bool,
)
    requires
        0 <= i <= end <= lines.len(),
        st.itemize <= 0,
        st.enumerate <= 0,
        forall|j: int| i <= j < end ==> plain_content_line(#[trigger] lines[j]),
        forall|j: int|
            i <= j < end ==> parse_line_spec(
                #[trigger] lines[j],
                st.columns,
                width,
                st.align,
                false,
                show_url,
            ).len() != 0,
        end == lines.len() || block_end_line(lines[end]),
    ensures
        block_run(lines, i, st, width, false, show_url) == st.result + Seq::new(
            (end - i) as nat,
            |k: int| parse_line_spec(lines[i + k], st.columns, width, st.align, false, show_url),
        ),
    decreases end - i,
{
    if i == end {
        assert(st.result + Seq::new(0, |k: int| parse_line_spec(
            lines[i + k],
            st.columns,
            width,
            st.align,
            false,
            show_url,
        )) =~= st.result);
        if end < lines.len() {
            assert(block_run(lines, i, st, width, false, show_url) == st.result);
        }
    } else {
        let parsed = parse_line_spec(lines[i], st.columns, width, st.align, false, show_url);
        let st2 = BlockSt {
            itemize: st.itemize,
            enumerate: st.enumerate,
            columns: st.columns,
            align: st.align,
            result: st.result.push(parsed),
        };
        assert(block_run(lines, i, st, width, false, show_url) == block_run(
            lines,
            i + 1,
            st2,
            width,
            false,
            show_url,
        ));
        lemma_display_block_extent(lines, i + 1, end, st2, width, show_url);
        assert(st.result.push(parsed) + Seq::new(
            (end - i - 1) as nat,
            |k: int| parse_line_spec(lines[i + 1 + k], st.columns, width, st.align, false, show_url),
        ) =~= st.result + Seq::new(
            (end - i) as nat,
            |k: int| parse_line_spec(lines[i + k], st.columns, width, st.align, false, show_url),
        ));
    }
}

/// For a single-key path whose section marker is found, with nothing but
/// plain content between the anchor and the next block-ending line, the whole
/// extraction is exactly those lines, each transcoded for display.
pub proof fn lemma_single_key_extraction(
    doc: Seq<Seq<char>>,
    path: Seq<Seq<char>>,
    width: int,
    show_url: bool,
    a: int,
    end: int,
)
    requires
        path.len() == 1,
        doc.len() > 0,
        a == crate::locate::find_from(doc, 0, crate::locate::sec_marker(path)),
        0 <= a < doc.len(),
        a + 1 <= end <= doc.len(),
        forall|j: int| a + 1 <= j < end ==> plain_content_line(#[trigger] doc[j]),
        forall|j: int|
            a + 1 <= j < end ==> parse_line_spec(
                #[trigger] doc[j],
                0,
                width,
                false,
                false,
                show_url,
            ).len() != 0,
        end == doc.len() || block_end_line(doc[end]),
    ensures
        crate::parse_config_spec(doc, path, width, false, show_url) == Seq::new(
            (end - a - 1) as nat,
            |k: int| parse_line_spec(doc[a + 1 + k], 0, width, false, false, show_url),
        ),
{
    let st = crate::block::init_block_st();
    lemma_display_block_extent(doc, a + 1, end, st, width, show_url);
    assert(st.result + Seq::new(
        (end - a - 1) as nat,
        |k: int| parse_line_spec(doc[a + 1 + k], 0, width, false, false, show_url),
    ) =~= Seq::new(
        (end - a - 1) as nat,
        |k: int| parse_line_spec(doc[a + 1 + k], 0, width, false, false, show_url),
    ));
}

/// With URL display disabled, a hyperlink command suppresses its whole span:
/// between the opening of `\href{` and its closing brace nothing at all is
/// emitted, and after the closing brace the transcoder is back to normal
/// output with its column count untouched.
pub proof fn lemma_href_hidden(
    line: Seq<char>,
    p: int,
    q: int,
    columns: int,
    width: int,
    align: bool,
)
    requires
        0 <= p,
        p + 6 <= q < line.len(),
        line.subrange(p, p + 6) == "\\href{"@,
        line[q] == '}',
        forall|j: int| p + 6 <= j < q ==> plain_char(#[trigger] line[j]),
        !line_run_to(line, p, columns, width, align, false, false).build_key,
        !line_run_to(line, p, columns, width, align, false, false).ignore,
        line_run_to(line, p, columns, width, align, false, false).key == Seq::<char>::empty(),
    ensures
        ({
            let stp = line_run_to(line, p, columns, width, align, false, false);
            let ste = line_run_to(line, q + 1, columns, width, align, false, false);
            ste.out == stp.out && ste.col_len == stp.col_len && !ste.ignore && !ste.build_key
        }),
{
    reveal_strlit("\\href{");
    reveal_strlit("href");
    reveal_strlit("text");
    reveal_strlit("textit");
    reveal_strlit("textbf");
    reveal_strlit("emph");
    reveal_strlit("texttt");
    assert("href"@ != "text"@) by {
        assert("href"@[0] == 'h' && "text"@[0] == 't');
    }
    assert("href"@ != "emph"@) by {
        assert("href"@[0] == 'h' && "emph"@[0] == 'e');
    }
    assert("href"@ != "textit"@) by {
        assert("href"@[0] == 'h' && "textit"@[0] == 't');
    }
    assert("href"@ != "textbf"@) by {
        assert("href"@[0] == 'h' && "textbf"@[0] == 't');
    }
    assert("href"@ != "texttt"@) by {
        assert("href"@[0] == 'h' && "texttt"@[0] == 't');
    }
    assert(line[p] == '\\') by {
        assert(line.subrange(p, p + 6)[0] == line[p]);
    }
    assert(line[p + 1] == 'h') by {
        assert(line.subrange(p, p + 6)[1] == line[p + 1]);
    }
    assert(line[p + 2] == 'r') by {
        assert(line.subrange(p, p + 6)[2] == line[p + 2]);
    }
    assert(line[p + 3] == 'e') by {
        assert(line.subrange(p, p + 6)[3] == line[p + 3]);
    }
    assert(line[p + 4] == 'f') by {
        assert(line.subrange(p, p + 6)[4] == line[p + 4]);
    }
    assert(line[p + 5] == '{') by {
        assert(line.subrange(p, p + 6)[5] == line[p + 5]);
    }
    let stp = line_run_to(line, p, columns, width, align, false, false);
    let s1 = line_run_to(line, p + 1, columns, width, align, false, false);
    let s2 = line_run_to(line, p + 2, columns, width, align, false, false);
    let s3 = line_run_to(line, p + 3, columns, width, align, false, false);
    let s4 = line_run_to(line, p + 4, columns, width, align, false, false);
    let s5 = line_run_to(line, p + 5, columns, width, align, false, false);
    let s6 = line_run_to(line, p + 6, columns, width, align, false, false);
    assert(s1 == line_step(stp, line[p], columns, width, align, false, false));
    assert(s2 == line_step(s1, line[p + 1], columns, width, align, false, false));
    assert(s3 == line_step(s2, line[p + 2], columns, width, align, false, false));
    assert(s4 == line_step(s3, line[p + 3], columns, width, align, false, false));
    assert(s5 == line_step(s4, line[p + 4], columns, width, align, false, false));
    assert(s6 == line_step(s5, line[p + 5], columns, width, align, false, false));
    assert(s5.key =~= "href"@);
    assert(s6.ignore && !s6.build_key && s6.out == stp.out && s6.col_len == stp.col_len);
    lemma_ignored_segment(line, p + 6, q, columns, width, align, false, false);
    let sq = line_run_to(line, q, columns, width, align, false, false);
    assert(line_run_to(line, q + 1, columns, width, align, false, false) == line_step(
        sq,
        line[q],
        columns,
        width,
        align,
        false,
        false,
    ));
}

/// With URL display enabled, a hyperlink span is rendered: its text comes out
/// between the link color and the reset escape, followed by exactly one
/// trailing space.
pub proof fn lemma_href_shown(
    line: Seq<char>,
    p: int,
    q: int,
    columns: int,
    width: int,
    align: bool,
)
    requires
        0 <= p,
        p + 6 <= q < line.len(),
        line.subrange(p, p + 6) == "\\href{"@,
        line[q] == '}',
        forall|j: int| p + 6 <= j < q ==> plain_char(#[trigger] line[j]),
        !line_run_to(line, p, columns, width, align, false, true).build_key,
        !line_run_to(line, p, columns, width, align, false, true).ignore,
        line_run_to(line, p, columns, width, align, false, true).key == Seq::<char>::empty(),
    ensures
        ({
            let stp = line_run_to(line, p, columns, width, align, false, true);
            let ste = line_run_to(line, q + 1, columns, width, align, false, true);
            ste.out == stp.out + crate::line::sgr_link() + line.subrange(p + 6, q)
                + crate::line::sgr_reset() + seq![' '] && ste.key == Seq::<char>::empty()
                && !ste.ignore && !ste.build_key
        }),
{
    reveal_strlit("\\href{");
    reveal_strlit("href");
    reveal_strlit("text");
    reveal_strlit("textit");
    reveal_strlit("textbf");
    reveal_strlit("emph");
    reveal_strlit("texttt");
    assert("href"@ != "text"@) by {
        assert("href"@[0] == 'h' && "text"@[0] == 't');
    }
    assert("href"@ != "emph"@) by {
        assert("href"@[0] == 'h' && "emph"@[0] == 'e');
    }
    assert("href"@ != "textit"@) by {
        assert("href"@[0] == 'h' && "textit"@[0] == 't');
    }
    assert("href"@ != "textbf"@) by {
        assert("href"@[0] == 'h' && "textbf"@[0] == 't');
    }
    assert("href"@ != "texttt"@) by {
        assert("href"@[0] == 'h' && "texttt"@[0] == 't');
    }
    assert(line[p] == '\\') by {
        assert(line.subrange(p, p + 6)[0] == line[p]);
    }
    assert(line[p + 1] == 'h') by {
        assert(line.subrange(p, p + 6)[1] == line[p + 1]);
    }
    assert(line[p + 2] == 'r') by {
        assert(line.subrange(p, p + 6)[2] == line[p + 2]);
    }
    assert(line[p + 3] == 'e') by {
        assert(line.subrange(p, p + 6)[3] == line[p + 3]);
    }
    assert(line[p + 4] == 'f') by {
        assert(line.subrange(p, p + 6)[4] == line[p + 4]);
    }
    assert(line[p + 5] == '{') by {
        assert(line.subrange(p, p + 6)[5] == line[p + 5]);
    }
    let stp = line_run_to(line, p, columns, width, align, false, true);
    let s1 = line_run_to(line, p + 1, columns, width, align, false, true);
    let s2 = line_run_to(line, p + 2, columns, width, align, false, true);
    let s3 = line_run_to(line, p + 3, columns, width, align, false, true);
    let s4 = line_run_to(line, p + 4, columns, width, align, false, true);
    let s5 = line_run_to(line, p + 5, columns, width, align, false, true);
    let s6 = line_run_to(line, p + 6, columns, width, align, false, true);
    assert(s1 == line_step(stp, line[p], columns, width, align, false, true));
    assert(s2 == line_step(s1, line[p + 1], columns, width, align, false, true));
    assert(s3 == line_step(s2, line[p + 2], columns, width, align, false, true));
    assert(s4 == line_step(s3, line[p + 3], columns, width, align, false, true));
    assert(s5 == line_step(s4, line[p + 4], columns, width, align, false, true));
    assert(s6 == line_step(s5, line[p + 5], columns, width, align, false, true));
    assert(s5.key =~= "href"@);
    assert(!s6.ignore && !s6.build_key && s6.out == stp.out + crate::line::sgr_link()
        && s6.col_len == stp.col_len && s6.key == "href"@);
    lemma_plain_segment(line, p + 6, q, columns, width, align, false, true);
    let sq = line_run_to(line, q, columns, width, align, false, true);
    assert(sq.out == s6.out + line.subrange(p + 6, q));
    assert(line_run_to(line, q + 1, columns, width, align, false, true) == line_step(
        sq,
        line[q],
        columns,
        width,
        align,
        false,
        true,
    ));
}

} // verus!
