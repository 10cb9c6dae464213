use mdsite::front_matter::front_matter;

fn found(block: &str) -> Option<String> {
    Some(block.to_string())
}

#[test]
fn block_between_marker_and_closing_line() {
    let document = "<!-- metadata\ntitle = \"My Article\"\npublished = 2024-05-01\ntags = [\"tech\", \"life\"]\n-->\n# Body\n";
    assert_eq!(
        front_matter(document),
        found("title = \"My Article\"\npublished = 2024-05-01\ntags = [\"tech\", \"life\"]\n")
    );
}

#[test]
fn no_marker_gives_no_block() {
    assert_eq!(front_matter(""), None);
    assert_eq!(front_matter("# Title\n\ntext\n"), None);
    assert_eq!(front_matter("title = \"x\"\n-->\n"), None);
    assert_eq!(front_matter("<!--"), None);
    assert_eq!(front_matter("<!-- metadat"), None);
}

#[test]
fn marker_must_stand_at_the_very_start() {
    assert_eq!(front_matter(" <!-- metadata\ntitle = \"x\"\n-->\n"), None);
    assert_eq!(front_matter("\n<!-- metadata\ntitle = \"x\"\n-->\n"), None);
    assert_eq!(front_matter("<!-- metadat\ntitle = \"x\"\n-->\n"), None);
    assert_eq!(front_matter("<!--metadata\ntitle = \"x\"\n-->\n"), None);
    assert_eq!(front_matter("<!-- Metadata\ntitle = \"x\"\n-->\n"), None);
    assert_eq!(front_matter("text\n<!-- metadata\ntitle = \"x\"\n-->\n"), None);
}

#[test]
fn marker_alone_gives_an_empty_block() {
    assert_eq!(front_matter("<!-- metadata"), found(""));
}

#[test]
fn marker_and_line_break_give_one_empty_line() {
    assert_eq!(front_matter("<!-- metadata\n"), found("\n"));
}

#[test]
fn closing_line_right_after_the_marker() {
    assert_eq!(front_matter("<!-- metadata\n-->\ntext"), found(""));
    assert_eq!(front_matter("<!-- metadata\n-->"), found(""));
}

#[test]
fn unterminated_block_runs_to_the_end() {
    assert_eq!(front_matter("<!-- metadata\na = 1\nb = 2"), found("a = 1\nb = 2\n"));
    assert_eq!(front_matter("<!-- metadata\na = 1\nb = 2\n"), found("a = 1\nb = 2\n\n"));
}

#[test]
fn closing_line_must_match_exactly() {
    assert_eq!(front_matter("<!-- metadata\na = 1\n -->\n-->\nrest"), found("a = 1\n -->\n"));
    assert_eq!(front_matter("<!-- metadata\na = 1\n--> \n-->\nrest"), found("a = 1\n--> \n"));
    assert_eq!(front_matter("<!-- metadata\na = 1\n--->\n-->\nrest"), found("a = 1\n--->\n"));
    assert_eq!(
        front_matter("<!-- metadata\na = 1\r\n-->\r\nrest"),
        found("a = 1\r\n-->\r\nrest\n")
    );
}

#[test]
fn first_line_must_be_the_marker_exactly() {
    assert_eq!(front_matter("<!-- metadata title = \"x\"\na = 1\n-->\n"), None);
    assert_eq!(front_matter("<!-- metadata -->\na = 1\n"), None);
    assert_eq!(front_matter("<!-- metadata -->"), None);
    assert_eq!(front_matter("<!-- metadata-draft\ntitle = \"T\"\n-->\nX\n"), None);
    assert_eq!(front_matter("<!-- metadata \na = 1\n-->\n"), None);
    assert_eq!(front_matter("<!-- metadata\r\na = 1\r\n-->\r\n"), None);
    assert_eq!(front_matter("<!-- metadatum"), None);
}

#[test]
fn only_the_first_closing_line_counts() {
    assert_eq!(front_matter("<!-- metadata\na\n-->\nb\n-->\n"), found("a\n"));
}

#[test]
fn empty_lines_are_kept() {
    assert_eq!(front_matter("<!-- metadata\n\na = 1\n\n-->\n"), found("\na = 1\n\n"));
}

#[test]
fn block_keeps_characters_outside_ascii() {
    assert_eq!(
        front_matter("<!-- metadata\ntitle = \"Caf\u{e9} \u{4e16}\u{754c}\"\n-->\n"),
        found("title = \"Caf\u{e9} \u{4e16}\u{754c}\"\n")
    );
}
