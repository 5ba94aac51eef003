use texparse::parse_config_tex;

fn doc(lines: &[&str]) -> Vec<String> {
    lines.iter().map(|s| s.to_string()).collect()
}

fn path(keys: &[&str]) -> Vec<String> {
    keys.iter().map(|s| s.to_string()).collect()
}

#[test]
fn empty_search_path_yields_diagnostic() {
    let out = parse_config_tex(doc(&["\\section{A}", "text"]), path(&[]), 80, false, false);
    assert_eq!(out, vec!["no field values supplied".to_string()]);
}

#[test]
fn empty_document_yields_diagnostic() {
    let out = parse_config_tex(doc(&[]), path(&["A"]), 80, false, false);
    assert_eq!(out, vec!["local Configuration.tex not found".to_string()]);
}

#[test]
fn five_keys_yield_nothing() {
    let out = parse_config_tex(
        doc(&["\\section{A}", "text"]),
        path(&["A", "b", "c", "d", "e"]),
        80,
        false,
        false,
    );
    assert!(out.is_empty());
}

#[test]
fn missing_section_yields_nothing() {
    let out = parse_config_tex(doc(&["\\section{A}", "text"]), path(&["B"]), 80, false, false);
    assert!(out.is_empty());
}

#[test]
fn single_key_block_runs_to_next_section() {
    let out = parse_config_tex(
        doc(&[
            "\\section{Intro}",
            "hello world",
            "second line",
            "\\section{Next}",
            "not extracted",
        ]),
        path(&["Intro"]),
        80,
        false,
        false,
    );
    assert_eq!(out, vec!["hello world\n".to_string(), "second line\n".to_string()]);
}

#[test]
fn single_key_block_runs_to_end_of_document() {
    let out = parse_config_tex(
        doc(&["\\section{Intro}", "only line"]),
        path(&["Intro"]),
        80,
        false,
        false,
    );
    assert_eq!(out, vec!["only line\n".to_string()]);
}

#[test]
fn plain_line_round_trips_verbatim() {
    let out = parse_config_tex(
        doc(&["\\section{T}", "no markup at all.", "\\section{U}"]),
        path(&["T"]),
        80,
        false,
        false,
    );
    assert_eq!(out, vec!["no markup at all.\n".to_string()]);
}

#[test]
fn table_cells_are_padded_to_column_width() {
    let out = parse_config_tex(
        doc(&[
            "\\section{T}",
            "\\begin{tabular}{ccc}",
            "a&bb&c",
            "\\end{tabular}",
            "\\section{U}",
        ]),
        path(&["T"]),
        12,
        false,
        false,
    );
    // three declared columns and width 12 give a target of 12 / 4 = 3: the
    // one-character cell gains one space, the two-character cell none
    assert_eq!(out, vec!["a |bb|c\n".to_string()]);
}

#[test]
fn wide_cell_is_not_truncated() {
    let out = parse_config_tex(
        doc(&[
            "\\section{T}",
            "\\begin{tabular}{cc}",
            "abcdef&x",
            "\\end{tabular}",
            "\\section{U}",
        ]),
        path(&["T"]),
        12,
        false,
        false,
    );
    assert_eq!(out, vec!["abcdef|x\n".to_string()]);
}

#[test]
fn bullet_inside_list_does_not_terminate() {
    let out = parse_config_tex(
        doc(&[
            "\\section{T}",
            "\\begin{itemize}",
            "\\item one",
            "\\end{itemize}",
            "after list",
            "\\section{U}",
        ]),
        path(&["T"]),
        80,
        false,
        false,
    );
    assert_eq!(out, vec!["\u{2022} one\n".to_string(), "after list\n".to_string()]);
}

#[test]
fn bullet_outside_list_terminates() {
    let out = parse_config_tex(
        doc(&["\\section{T}", "before", "\\item stray", "never reached", "\\section{U}"]),
        path(&["T"]),
        80,
        false,
        false,
    );
    assert_eq!(out, vec!["before\n".to_string()]);
}

#[test]
fn lone_symbol_resolves_at_end_of_line() {
    let out = parse_config_tex(
        doc(&["\\section{T}", "\\alpha", "\\section{U}"]),
        path(&["T"]),
        80,
        false,
        false,
    );
    assert_eq!(out, vec!["\u{03b1}\n".to_string()]);
}

#[test]
fn chained_symbols_resolve_in_turn() {
    let out = parse_config_tex(
        doc(&["\\section{T}", "\\alpha\\beta", "x \\leq \\infty", "\\section{U}"]),
        path(&["T"]),
        80,
        false,
        false,
    );
    assert_eq!(
        out,
        vec!["\u{03b1}\u{03b2}\n".to_string(), "x \u{2264}\u{221e}\n".to_string()]
    );
}

#[test]
fn symbol_with_echoed_delimiter() {
    let out = parse_config_tex(
        doc(&["\\section{T}", "\\mu, then", "\\section{U}"]),
        path(&["T"]),
        80,
        false,
        false,
    );
    assert_eq!(out, vec!["\u{03bc}, then\n".to_string()]);
}

#[test]
fn escaped_characters_pass_through() {
    let out = parse_config_tex(
        doc(&["\\section{T}", "a\\_b\\#c\\^d", "\\section{U}"]),
        path(&["T"]),
        80,
        false,
        false,
    );
    assert_eq!(out, vec!["a_b#c^d\n".to_string()]);
}

#[test]
fn styled_span_gets_escape_and_reset() {
    let out = parse_config_tex(
        doc(&["\\section{T}", "\\textbf{Bold} tail", "\\section{U}"]),
        path(&["T"]),
        80,
        false,
        false,
    );
    assert_eq!(out, vec!["\u{1b}[1mBold\u{1b}[0m tail\n".to_string()]);
}

#[test]
fn unknown_command_suppresses_its_span() {
    let out = parse_config_tex(
        doc(&["\\section{T}", "\\unknown{hidden}visible", "\\section{U}"]),
        path(&["T"]),
        80,
        false,
        false,
    );
    assert_eq!(out, vec!["visible\n".to_string()]);
}

#[test]
fn href_span_suppressed_without_url_display() {
    let out = parse_config_tex(
        doc(&["\\section{T}", "pre\\href{http://x}post", "\\section{U}"]),
        path(&["T"]),
        80,
        false,
        false,
    );
    // the span disappears; the pending hyperlink command resolves to a space
    // at end of line
    assert_eq!(out, vec!["prepost \n".to_string()]);
}

#[test]
fn href_span_colored_with_url_display() {
    let out = parse_config_tex(
        doc(&["\\section{T}", "pre\\href{http://x}post", "\\section{U}"]),
        path(&["T"]),
        80,
        false,
        true,
    );
    assert_eq!(
        out,
        vec!["pre\u{1b}[34mhttp://x\u{1b}[0m post\n".to_string()]
    );
}

#[test]
fn tightlist_line_is_dropped() {
    let out = parse_config_tex(
        doc(&["\\section{T}", "\\tightlist", "kept", "\\section{U}"]),
        path(&["T"]),
        80,
        false,
        false,
    );
    assert_eq!(out, vec!["kept\n".to_string()]);
}

#[test]
fn hline_becomes_a_rule_of_width_minus_four() {
    let out = parse_config_tex(
        doc(&["\\section{T}", "\\hline", "\\section{U}"]),
        path(&["T"]),
        10,
        false,
        false,
    );
    assert_eq!(out, vec![format!("\u{200b}{}\n", "-".repeat(6))]);
}

#[test]
fn math_mode_suppresses_alignment_markers() {
    let out = parse_config_tex(
        doc(&[
            "\\section{T}",
            "\\begin{align*}",
            "a&b",
            "\\end{align*}}",
            "c&d",
            "\\section{U}",
        ]),
        path(&["T"]),
        80,
        false,
        false,
    );
    // inside the math block the marker vanishes; outside it is literal
    assert_eq!(out, vec!["ab\n".to_string(), "c&d\n".to_string()]);
}

#[test]
fn gather_collects_only_separator_lines_inside_list() {
    let out = parse_config_tex(
        doc(&[
            "\\section{T}",
            "0x1 --- outside, never collected",
            "\\begin{itemize}",
            "\\item 1 --- one",
            "\\item plain, no separator",
            "\\item 2 --- two",
            "\\end{itemize}",
            "3 --- after list, never collected",
            "\\section{U}",
        ]),
        path(&["T"]),
        80,
        true,
        false,
    );
    assert_eq!(out, vec![" 1 --- one".to_string(), " 2 --- two".to_string()]);
}

#[test]
fn gather_caps_at_ten_entries() {
    let mut lines = vec!["\\section{T}".to_string(), "\\begin{itemize}".to_string()];
    for i in 0..12 {
        lines.push(format!("\\item {} --- value", i));
    }
    lines.push("\\end{itemize}".to_string());
    lines.push("\\section{U}".to_string());
    let out = parse_config_tex(lines, path(&["T"]), 80, true, false);
    assert_eq!(out.len(), 10);
    assert_eq!(out[0], " 0 --- value".to_string());
    assert_eq!(out[9], " 9 --- value".to_string());
}

#[test]
fn two_key_path_uses_properties_subsection() {
    let out = parse_config_tex(
        doc(&[
            "\\section{Kernel}",
            "intro text",
            "\\subsection{Properties}\\label{kernelprops}",
            "\\texttt{Arch}\\ desc",
            "the arch field",
            "\\section{U}",
        ]),
        path(&["Kernel", "Arch"]),
        80,
        false,
        false,
    );
    assert_eq!(out, vec!["the arch field\n".to_string()]);
}

#[test]
fn three_key_path_uses_named_properties_subsection() {
    let out = parse_config_tex(
        doc(&[
            "\\section{Kernel}",
            "\\subsection{Add Properties}\\label{kerneladd}",
            "\\texttt{BundlePath}\\ desc",
            "bundle path docs",
            "\\section{U}",
        ]),
        path(&["Kernel", "Add", "BundlePath"]),
        80,
        false,
        false,
    );
    assert_eq!(out, vec!["bundle path docs\n".to_string()]);
}

#[test]
fn nvram_path_uses_introduction_subsection() {
    let out = parse_config_tex(
        doc(&[
            "\\section{NVRAM}",
            "\\subsection{Introduction}\\label{nvramintro}",
            "\\texttt{Key:Sub} mention",
            "\\subsection{Introduction}",
            "nvram docs",
            "\\section{U}",
        ]),
        path(&["NVRAM", "Add", "Key", "Sub"]),
        80,
        false,
        false,
    );
    // the repeated introduction header inside the block is skipped
    assert_eq!(out, vec!["nvram docs\n".to_string()]);
}

#[test]
fn nvram_three_key_field_has_no_closing_brace() {
    let out = parse_config_tex(
        doc(&[
            "\\section{NVRAM}",
            "\\subsection{Introduction}\\label{nvramintro}",
            "\\texttt{Key} mention",
            "key docs",
            "\\section{U}",
        ]),
        path(&["NVRAM", "Add", "Key"]),
        80,
        false,
        false,
    );
    assert_eq!(out, vec!["key docs\n".to_string()]);
}

#[test]
fn device_properties_path_uses_common_subsection() {
    let out = parse_config_tex(
        doc(&[
            "\\section{DeviceProperties}",
            "\\subsection{Common Properties}\\label{devprops}",
            "\\texttt{layout-id} mention",
            "layout docs",
            "\\section{U}",
        ]),
        path(&["DeviceProperties", "Add", "PciRoot", "layout-id"]),
        80,
        false,
        false,
    );
    assert_eq!(out, vec!["layout docs\n".to_string()]);
}

#[test]
fn misc_four_key_path_uses_entry_properties_subsection() {
    let out = parse_config_tex(
        doc(&[
            "\\section{Misc}",
            "\\subsection{Entry Properties}\\label{miscentry}",
            "\\texttt{Name}\\ desc",
            "entry name docs",
            "\\section{U}",
        ]),
        path(&["Misc", "Boot", "Entries", "Name"]),
        80,
        false,
        false,
    );
    assert_eq!(out, vec!["entry name docs\n".to_string()]);
}

#[test]
fn missing_subsection_yields_nothing() {
    let out = parse_config_tex(
        doc(&["\\section{Kernel}", "intro", "\\section{U}"]),
        path(&["Kernel", "Arch"]),
        80,
        false,
        false,
    );
    assert!(out.is_empty());
}

#[test]
fn mbox_and_generic_close_lines_are_dropped() {
    let out = parse_config_tex(
        doc(&[
            "\\section{T}",
            "\\mbox{anything}",
            "\\end{quote}",
            "kept",
            "\\section{U}",
        ]),
        path(&["T"]),
        80,
        false,
        false,
    );
    assert_eq!(out, vec!["kept\n".to_string()]);
}

#[test]
fn double_backslash_resolves_to_space() {
    let out = parse_config_tex(
        doc(&["\\section{T}", "a\\\\b", "\\section{U}"]),
        path(&["T"]),
        80,
        false,
        false,
    );
    assert_eq!(out, vec!["a b\n".to_string()]);
}

#[test]
fn textbackslash_resolves_to_backslash() {
    let out = parse_config_tex(
        doc(&["\\section{T}", "x \\textbackslash0 y", "\\section{U}"]),
        path(&["T"]),
        80,
        false,
        false,
    );
    assert_eq!(out, vec!["x \\0 y\n".to_string()]);
}

#[test]
fn empty_line_keeps_its_newline() {
    let out = parse_config_tex(
        vec![
            "\\section{T}".to_string(),
            "".to_string(),
            "x".to_string(),
            "\\section{U}".to_string(),
        ],
        vec!["T".to_string()],
        80,
        false,
        false,
    );
    assert_eq!(out, vec!["\n".to_string(), "x\n".to_string()]);
}

#[test]
fn gather_without_separator_collects_nothing() {
    let out = parse_config_tex(
        vec![
            "\\section{T}".to_string(),
            "\\begin{itemize}".to_string(),
            "\\item one".to_string(),
            "\\end{itemize}".to_string(),
            "\\section{U}".to_string(),
        ],
        vec!["T".to_string()],
        80,
        true,
        false,
    );
    assert!(out.is_empty());
}

#[test]
fn bare_brace_group_gets_underline_and_reset() {
    let out = parse_config_tex(
        vec![
            "\\section{T}".to_string(),
            "a{b}c".to_string(),
            "\\section{U}".to_string(),
        ],
        vec!["T".to_string()],
        80,
        false,
        false,
    );
    assert_eq!(out, vec!["a\u{1b}[4mb\u{1b}[0mc\n".to_string()]);
}

#[test]
fn closing_bracket_resets_and_is_echoed() {
    let out = parse_config_tex(
        vec![
            "\\section{T}".to_string(),
            "a]b".to_string(),
            "\\section{U}".to_string(),
        ],
        vec!["T".to_string()],
        80,
        false,
        false,
    );
    assert_eq!(out, vec!["a\u{1b}[0m]b\n".to_string()]);
}
