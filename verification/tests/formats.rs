use mm::format::{table, FormatAlignment, FormatType, FormatTypeable, IntoFormatType};

fn strings(items: &[&str]) -> Vec<String> {
    items.iter().map(|s| s.to_string()).collect()
}

fn lines_of(piece: &FormatType) -> Vec<String> {
    match piece {
        FormatType::RawLine(line) => vec![line.clone()],
        FormatType::Chain(items) => items.iter().flat_map(lines_of).collect(),
        other => panic!("no line: {other:?}"),
    }
}

#[test]
fn texts_are_put_into_their_columns() {
    assert_eq!(FormatType::align("ab", FormatAlignment::Left, 5, (0, 0)), "ab   ");
    assert_eq!(FormatType::align("ab", FormatAlignment::Right, 5, (0, 0)), "   ab");
    assert_eq!(FormatType::align("ab", FormatAlignment::Center, 5, (0, 0)), "  ab ");
    assert_eq!(FormatType::align("ab", FormatAlignment::Center, 6, (0, 0)), "  ab  ");
    assert_eq!(FormatType::align("ab", FormatAlignment::Center, 2, (0, 0)), "ab");
    assert_eq!(FormatType::align("ab", FormatAlignment::Left, 3, (1, 2)), " ab   ");
    assert_eq!(FormatType::align("", FormatAlignment::Right, 0, (0, 0)), "");
    assert_eq!(FormatType::align("ä", FormatAlignment::Left, 3, (0, 0)), "ä ");
}

#[test]
fn pieces_are_chained_and_put_into_blocks() {
    let chain = FormatType::Info("a".to_string()).chain(FormatType::Error("b".to_string()));
    let FormatType::Chain(items) = &chain else { panic!("no chain") };
    assert!(matches!(&items[..], [FormatType::Info(a), FormatType::Error(b)] if a == "a" && b == "b"));
    let longer = chain.chain(FormatType::Bold("c".to_string()));
    let FormatType::Chain(items) = &longer else { panic!("no chain") };
    assert!(matches!(&items[..], [FormatType::Info(_), FormatType::Error(_), FormatType::Bold(c)] if c == "c"));

    let block = FormatType::RawLine("head".to_string()).block(FormatType::Success("body".to_string()));
    let FormatType::Block(head, body) = &block else { panic!("no block") };
    assert!(matches!(&**head, FormatType::RawLine(h) if h == "head"));
    assert!(matches!(&**body, FormatType::Success(b) if b == "body"));
}

#[test]
fn texts_turn_into_pieces() {
    assert!(matches!("x".info(), FormatType::Info(s) if s == "x"));
    assert!(matches!("x".success(), FormatType::Success(s) if s == "x"));
    assert!(matches!("x".error(), FormatType::Error(s) if s == "x"));
    assert!(matches!("x".line(), FormatType::RawLine(s) if s == "x"));
    assert!(matches!("x".to_string().info(), FormatType::Info(s) if s == "x"));
    assert!(matches!("x".to_string().success(), FormatType::Success(s) if s == "x"));
    assert!(matches!("x".to_string().error(), FormatType::Error(s) if s == "x"));
    assert!(matches!("x".to_string().line(), FormatType::RawLine(s) if s == "x"));
    assert!(matches!("x".to_string().format(), FormatType::Success(s) if s == "x"));
    assert!(matches!("y".format(), FormatType::Success(s) if s == "y"));
    assert!(matches!(FormatType::Bold("x".to_string()).format(), FormatType::Bold(s) if s == "x"));
    let failed: Result<FormatType, String> = Err("no".to_string());
    assert!(matches!(failed.format(), FormatType::Error(s) if s == "no"));
    let done: Result<FormatType, String> = Ok(FormatType::Info("yes".to_string()));
    assert!(matches!(done.format(), FormatType::Info(s) if s == "yes"));
}

#[test]
fn a_table_has_a_line_of_headings_and_a_line_for_each_row() {
    let piece = table(
        &strings(&["active", "courses"]),
        &vec![strings(&["*", " "]), strings(&["b01", "m02-long"])],
        &vec![FormatAlignment::Center, FormatAlignment::Left],
    );
    assert_eq!(
        lines_of(&piece),
        strings(&["active | courses ", "   *     b01     ", "         m02-long"])
    );
    assert!(matches!(piece, FormatType::Chain(_)));
}

#[test]
fn a_short_column_goes_on_with_empty_texts() {
    let piece = table(
        &strings(&["a", "bb", "c"]),
        &vec![strings(&["1", "2", "3"]), strings(&[]), strings(&["wide"])],
        &vec![FormatAlignment::Right, FormatAlignment::Left, FormatAlignment::Right],
    );
    assert_eq!(
        lines_of(&piece),
        strings(&["a | bb |    c", "1        wide", "2            ", "3            "])
    );
}

#[test]
fn a_table_without_rows_is_its_headings() {
    let piece = table(
        &strings(&["only", "heads"]),
        &vec![strings(&[]), strings(&[])],
        &vec![FormatAlignment::Left, FormatAlignment::Left],
    );
    assert!(matches!(&piece, FormatType::RawLine(line) if line == "only | heads"));
    let empty = table(&vec![], &vec![], &vec![]);
    assert!(matches!(&empty, FormatType::RawLine(line) if line.is_empty()));
}
