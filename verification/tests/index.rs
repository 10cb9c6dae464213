use mdsite::config::{IndexConfig, Tag};
use mdsite::date::Date;
use mdsite::index::{build_index, has_tag, render_index};
use mdsite::metadata::Metadata;

fn article(title: Option<&str>, tags: &[&str], date: Option<(u16, u8, u8)>, file: &str) -> Metadata {
    Metadata {
        title: title.map(|t| t.to_string()),
        tags: tags.iter().map(|t| t.to_string()).collect(),
        publish_date: date.map(|(year, month, day)| Date { year, month, day }),
        file_name: file.to_string(),
    }
}

fn config(title: &str, tags: &[(&str, &str)]) -> IndexConfig {
    IndexConfig {
        title: title.to_string(),
        tags: tags
            .iter()
            .map(|(name, description)| Tag {
                name: name.to_string(),
                description: description.to_string(),
            })
            .collect(),
    }
}

#[test]
fn three_documents_under_one_tag() {
    let articles = vec![
        article(Some("January"), &["tech"], Some((2024, 1, 15)), "january.html"),
        article(Some("Undated"), &["tech"], None, "undated.html"),
        article(Some("March"), &["tech"], Some((2024, 3, 1)), "march.html"),
    ];
    let markdown = build_index(&config("Site", &[("tech", "desc")]), articles);
    assert_eq!(
        markdown,
        "# <center> Site </center>\n## tech\ndesc\n- [March](march.html)<br>March 1st, 2024\n- [January](january.html)<br>January 15th, 2024\n- [Undated](undated.html)\n"
    );
}

#[test]
fn index_of_nothing() {
    assert_eq!(build_index(&IndexConfig::new(), Vec::new()), "# <center>  </center>\n");
    assert_eq!(render_index(&IndexConfig::new(), &Vec::new()), "# <center>  </center>\n");
}

#[test]
fn config_without_tags_gives_the_heading_alone() {
    let articles = vec![article(Some("A"), &["tech"], Some((2024, 1, 15)), "a.html")];
    assert_eq!(render_index(&config("Site", &[]), &articles), "# <center> Site </center>\n");
}

#[test]
fn tag_without_documents_keeps_its_heading() {
    let articles = vec![article(Some("A"), &["tech"], None, "a.html")];
    let markdown = render_index(&config("S", &[("life", "Personal posts"), ("tech", "T")]), &articles);
    assert_eq!(
        markdown,
        "# <center> S </center>\n## life\nPersonal posts\n## tech\nT\n- [A](a.html)\n"
    );
}

#[test]
fn render_index_keeps_the_order_given() {
    let articles = vec![
        article(Some("Old"), &["t"], Some((2000, 1, 1)), "old.html"),
        article(Some("None"), &["t"], None, "none.html"),
        article(Some("New"), &["t"], Some((2024, 1, 1)), "new.html"),
    ];
    assert_eq!(
        render_index(&config("", &[("t", "")]), &articles),
        "# <center>  </center>\n## t\n\n- [Old](old.html)<br>January 1st, 2000\n- [None](none.html)\n- [New](new.html)<br>January 1st, 2024\n"
    );
}

#[test]
fn build_index_sorts_every_section() {
    let articles = vec![
        article(Some("Old"), &["a", "b"], Some((2000, 1, 1)), "old.html"),
        article(Some("None"), &["b"], None, "none.html"),
        article(Some("New"), &["b", "a"], Some((2024, 1, 1)), "new.html"),
        article(Some("Mid"), &["a"], Some((2010, 6, 2)), "mid.html"),
    ];
    assert_eq!(
        build_index(&config("S", &[("a", "first"), ("b", "second")]), articles),
        "# <center> S </center>\n## a\nfirst\n- [New](new.html)<br>January 1st, 2024\n- [Mid](mid.html)<br>June 2nd, 2010\n- [Old](old.html)<br>January 1st, 2000\n## b\nsecond\n- [New](new.html)<br>January 1st, 2024\n- [Old](old.html)<br>January 1st, 2000\n- [None](none.html)\n"
    );
}

#[test]
fn documents_of_one_date_keep_their_order_in_a_section() {
    let articles = vec![
        article(Some("One"), &["t"], Some((2024, 5, 1)), "1.html"),
        article(Some("Skipped"), &["other"], Some((2024, 5, 1)), "s.html"),
        article(Some("Two"), &["t"], Some((2024, 5, 1)), "2.html"),
        article(Some("U1"), &["t"], None, "u1.html"),
        article(Some("Three"), &["t"], Some((2024, 5, 1)), "3.html"),
        article(Some("U2"), &["t"], None, "u2.html"),
    ];
    assert_eq!(
        build_index(&config("S", &[("t", "d")]), articles),
        "# <center> S </center>\n## t\nd\n- [One](1.html)<br>May 1st, 2024\n- [Two](2.html)<br>May 1st, 2024\n- [Three](3.html)<br>May 1st, 2024\n- [U1](u1.html)\n- [U2](u2.html)\n"
    );
}

#[test]
fn document_is_listed_under_each_of_its_configured_tags() {
    let articles = vec![article(Some("A"), &["x", "y", "z"], None, "a.html")];
    assert_eq!(
        render_index(&config("S", &[("z", "Z"), ("w", "W"), ("x", "X")]), &articles),
        "# <center> S </center>\n## z\nZ\n- [A](a.html)\n## w\nW\n## x\nX\n- [A](a.html)\n"
    );
}

#[test]
fn tag_that_is_not_configured_gives_no_section() {
    let articles = vec![article(Some("A"), &["hidden"], None, "a.html")];
    assert_eq!(
        render_index(&config("S", &[("shown", "d")]), &articles),
        "# <center> S </center>\n## shown\nd\n"
    );
}

#[test]
fn document_without_title_is_in_no_section() {
    let articles = vec![
        article(None, &["t"], Some((2024, 5, 1)), "untitled.html"),
        article(Some("Titled"), &["t"], None, "titled.html"),
    ];
    assert_eq!(
        build_index(&config("S", &[("t", "d"), ("t", "again")]), articles),
        "# <center> S </center>\n## t\nd\n- [Titled](titled.html)\n## t\nagain\n- [Titled](titled.html)\n"
    );
}

#[test]
fn document_with_an_empty_title_is_listed() {
    let articles = vec![article(Some(""), &["t"], None, "e.html")];
    assert_eq!(
        render_index(&config("S", &[("t", "d")]), &articles),
        "# <center> S </center>\n## t\nd\n- [](e.html)\n"
    );
}

#[test]
fn tag_declared_twice_by_a_document_lists_it_once() {
    let articles = vec![article(Some("A"), &["t", "t"], None, "a.html")];
    assert_eq!(
        render_index(&config("S", &[("t", "d")]), &articles),
        "# <center> S </center>\n## t\nd\n- [A](a.html)\n"
    );
}

#[test]
fn document_without_tags_is_in_no_section() {
    let articles = vec![article(Some("A"), &[], Some((2024, 5, 1)), "a.html")];
    assert_eq!(
        render_index(&config("S", &[("t", "d"), ("", "empty name")]), &articles),
        "# <center> S </center>\n## t\nd\n## \nempty name\n"
    );
}

#[test]
fn titles_and_descriptions_are_written_as_they_are() {
    let articles = vec![article(Some("a [b] <i>c</i>"), &["t"], None, "dir/a b.html")];
    assert_eq!(
        render_index(&config("<S>", &[("t", "*markdown* here\nsecond line")]), &articles),
        "# <center> <S> </center>\n## t\n*markdown* here\nsecond line\n- [a [b] <i>c</i>](dir/a b.html)\n"
    );
}

#[test]
fn has_tag_looks_for_the_exact_name() {
    let a = article(Some("A"), &["tech", "life", ""], None, "a.html");
    assert!(has_tag(&a, &"tech".to_string()));
    assert!(has_tag(&a, &"life".to_string()));
    assert!(has_tag(&a, &"".to_string()));
    assert!(!has_tag(&a, &"Tech".to_string()));
    assert!(!has_tag(&a, &"tec".to_string()));
    assert!(!has_tag(&a, &"techs".to_string()));
    let none = article(Some("A"), &[], None, "a.html");
    assert!(!has_tag(&none, &"tech".to_string()));
    assert!(!has_tag(&none, &"".to_string()));
}

#[test]
fn index_from_parsed_documents_and_config() {
    let config = IndexConfig::from_toml(
        "title = \"Site Name\"\n[[tag]]\nname = \"tech\"\ndescription = \"Technical writeups\"\n[[tag]]\nname = \"life\"\ndescription = \"Personal posts\"\n",
    );
    let mut first = Metadata::from_toml("title = \"One\"\ntags = [\"tech\"]\npublished = 2023-02-03\n");
    first.file_name = "one.html".to_string();
    let mut second = Metadata::from_toml("title = \"Two\"\ntags = [\"life\", \"tech\"]\npublished = 2024-11-22\n");
    second.file_name = "two.html".to_string();
    assert_eq!(
        build_index(&config, vec![first, second]),
        "# <center> Site Name </center>\n## tech\nTechnical writeups\n- [Two](two.html)<br>November 22nd, 2024\n- [One](one.html)<br>February 3rd, 2023\n## life\nPersonal posts\n- [Two](two.html)<br>November 22nd, 2024\n"
    );
}
