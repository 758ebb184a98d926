use gridcat::formatter::{add_end_chars, add_line_numbers, add_tab_chars, u64_digits};

#[test]
fn numbering_three_lines() {
    let out = add_line_numbers("a\nb\nc");
    assert_eq!(out, "     1 a\n     2 b\n     3 c");
}

#[test]
fn numbering_right_aligns_wider_indices() {
    let input = "a\nb\nc\nd\ne\nf\ng\nh\ni\nj";
    let out = add_line_numbers(input);
    let lines: Vec<&str> = out.lines().collect();
    assert_eq!(lines.len(), 10);
    assert_eq!(lines[0], "     1 a");
    assert_eq!(lines[8], "     9 i");
    assert_eq!(lines[9], "    10 j");
}

#[test]
fn numbering_counts_trailing_content_as_a_line() {
    // A final line break opens no extra line; content without one is
    // still a line of its own.
    assert_eq!(add_line_numbers("a\n"), "     1 a");
    assert_eq!(add_line_numbers("a\nb"), "     1 a\n     2 b");
}

#[test]
fn numbering_empty_input_is_empty() {
    assert_eq!(add_line_numbers(""), "");
}

#[test]
fn show_ends_marks_every_line() {
    assert_eq!(add_end_chars("a\nb", '$'), "a$\nb$");
}

#[test]
fn show_ends_with_trailing_newline() {
    assert_eq!(add_end_chars("a\n", '$'), "a$");
    assert_eq!(add_end_chars("a\nb\n", '$'), "a$\nb$");
}

#[test]
fn show_ends_empty_line_in_the_middle() {
    assert_eq!(add_end_chars("a\n\nb", '$'), "a$\n$\nb$");
}

#[test]
fn show_ends_strips_carriage_return_of_crlf() {
    assert_eq!(add_end_chars("a\r\nb", '$'), "a$\nb$");
}

#[test]
fn show_ends_empty_input_is_empty() {
    assert_eq!(add_end_chars("", '$'), "");
}

#[test]
fn show_tabs_replaces_double_spaces() {
    assert_eq!(add_tab_chars("a  b"), "a^Ib");
}

#[test]
fn show_tabs_leaves_single_spaces() {
    assert_eq!(add_tab_chars("a b c"), "a b c");
}

#[test]
fn show_tabs_takes_pairs_from_the_left() {
    assert_eq!(add_tab_chars("   "), "^I ");
    assert_eq!(add_tab_chars("    "), "^I^I");
}

#[test]
fn show_tabs_ignores_real_tab_characters() {
    // The substitution is a literal two-space pattern match, not a
    // detection of tab characters.
    assert_eq!(add_tab_chars("a\tb"), "a\tb");
}

#[test]
fn show_tabs_empty_input_is_empty() {
    assert_eq!(add_tab_chars(""), "");
}

#[test]
fn digits_of_round_and_plain_numbers() {
    assert_eq!(u64_digits(0), vec!['0']);
    assert_eq!(u64_digits(7), vec!['7']);
    assert_eq!(u64_digits(10), vec!['1', '0']);
    assert_eq!(u64_digits(90127), vec!['9', '0', '1', '2', '7']);
}
