use jotdown::parse_jotdown;
use jotdown::JdElement;

fn s(t: &str) -> String {
    String::from(t)
}

#[test]
fn empty_input_yields_nothing() {
    let (rest, output) = parse_jotdown("").unwrap();
    assert_eq!(rest, s(""));
    assert_eq!(output, vec![]);
}

#[test]
fn remainder_is_always_empty() {
    let (rest, _) = parse_jotdown("# A title\n\nSome text.\n").unwrap();
    assert_eq!(rest, s(""));
}

#[test]
fn heading_level_counts_hashes() {
    let input = "### Three deep\n";
    let expected = vec![JdElement::TitleOrHeading((s("Three deep"), 3))];
    let (_, output) = parse_jotdown(input).unwrap();
    assert_eq!(output, expected);
}

#[test]
fn heading_text_is_trimmed() {
    let input = "##   padded heading   \n";
    let expected = vec![JdElement::TitleOrHeading((s("padded heading"), 2))];
    let (_, output) = parse_jotdown(input).unwrap();
    assert_eq!(output, expected);
}

#[test]
fn bare_hash_is_prose() {
    let input = "#\n# \n";
    let expected = vec![JdElement::Paragraph(s("# #"))];
    let (_, output) = parse_jotdown(input).unwrap();
    assert_eq!(output, expected);
}

#[test]
fn heading_needs_no_blank_lines() {
    let input = "## H\nP.\n";
    let expected = vec![
        JdElement::TitleOrHeading((s("H"), 2)),
        JdElement::Paragraph(s("P.")),
    ];
    let (_, output) = parse_jotdown(input).unwrap();
    assert_eq!(output, expected);
}

#[test]
fn paragraph_lines_join_with_a_space() {
    let input = "First line.\nSecond line.\n";
    let expected = vec![JdElement::Paragraph(s("First line. Second line."))];
    let (_, output) = parse_jotdown(input).unwrap();
    assert_eq!(output, expected);
}

#[test]
fn bare_dash_is_prose() {
    let input = "- \n";
    let expected = vec![JdElement::Paragraph(s("-"))];
    let (_, output) = parse_jotdown(input).unwrap();
    assert_eq!(output, expected);
}

#[test]
fn empty_check_box_is_a_plain_item() {
    let input = "- [ ] \n";
    let expected = vec![JdElement::UnorderedList(vec![s("[ ]")])];
    let (_, output) = parse_jotdown(input).unwrap();
    assert_eq!(output, expected);
}

#[test]
fn check_mark_is_case_sensitive() {
    let input = "- [X] not a box\n";
    let expected = vec![JdElement::UnorderedList(vec![s("[X] not a box")])];
    let (_, output) = parse_jotdown(input).unwrap();
    assert_eq!(output, expected);
}

#[test]
fn list_items_are_trimmed() {
    let input = "-   spaced out   \n";
    let expected = vec![JdElement::UnorderedList(vec![s("spaced out")])];
    let (_, output) = parse_jotdown(input).unwrap();
    assert_eq!(output, expected);
}

#[test]
fn ordered_list_may_start_anywhere() {
    let input = "3. third\n4. fourth\n";
    let expected = vec![JdElement::OrderedList(vec![s("third"), s("fourth")])];
    let (_, output) = parse_jotdown(input).unwrap();
    assert_eq!(output, expected);
}

#[test]
fn marker_jump_splits_ordered_lists() {
    let input = "1. a\n2. b\n5. c\n";
    let expected = vec![
        JdElement::OrderedList(vec![s("a"), s("b")]),
        JdElement::OrderedList(vec![s("c")]),
    ];
    let (_, output) = parse_jotdown(input).unwrap();
    assert_eq!(output, expected);
}

#[test]
fn leading_zeros_keep_the_sequence() {
    let input = "01. a\n2. b\n";
    let expected = vec![JdElement::OrderedList(vec![s("a"), s("b")])];
    let (_, output) = parse_jotdown(input).unwrap();
    assert_eq!(output, expected);
}

#[test]
fn nineteen_digit_marker_is_a_list() {
    let input = "9999999999999999999. huge\n";
    let expected = vec![JdElement::OrderedList(vec![s("huge")])];
    let (_, output) = parse_jotdown(input).unwrap();
    assert_eq!(output, expected);
}

#[test]
fn twenty_digit_marker_is_prose() {
    let input = "99999999999999999999. huge\n";
    let expected = vec![JdElement::Paragraph(s("99999999999999999999. huge"))];
    let (_, output) = parse_jotdown(input).unwrap();
    assert_eq!(output, expected);
}

#[test]
fn checklist_then_ordered_without_blank() {
    let input = "- [ ] a\n1. b\n";
    let expected = vec![
        JdElement::Checklist(vec![(s("a"), false)]),
        JdElement::OrderedList(vec![s("b")]),
    ];
    let (_, output) = parse_jotdown(input).unwrap();
    assert_eq!(output, expected);
}

#[test]
fn blank_line_splits_equal_lists() {
    let input = "- a\n\n- b\n";
    let expected = vec![
        JdElement::UnorderedList(vec![s("a")]),
        JdElement::UnorderedList(vec![s("b")]),
    ];
    let (_, output) = parse_jotdown(input).unwrap();
    assert_eq!(output, expected);
}

#[test]
fn whitespace_only_lines_are_blank() {
    let input = " \t \n- a\n \t\r \n- b\n\t\n";
    let expected = vec![
        JdElement::UnorderedList(vec![s("a")]),
        JdElement::UnorderedList(vec![s("b")]),
    ];
    let (_, output) = parse_jotdown(input).unwrap();
    assert_eq!(output, expected);
}

#[test]
fn reparsing_gives_identical_output() {
    let input = "# T\n\n- [x] done\n- [ ] open\n\n1. a\n2. b\n\nclosing words\n";
    let (_, first) = parse_jotdown(input).unwrap();
    let (_, second) = parse_jotdown(input).unwrap();
    assert_eq!(first, second);
}
