use mdsite::config::{IndexConfig, Tag};

fn tag(name: &str, description: &str) -> Tag {
    Tag { name: name.to_string(), description: description.to_string() }
}

#[test]
fn new_config_is_empty() {
    let config = IndexConfig::new();
    assert_eq!(config.title, "");
    assert_eq!(config.tags, Vec::<Tag>::new());
}

#[test]
fn config_with_title_and_tags() {
    let config = IndexConfig::from_toml(
        "title = \"Site Name\"\n[[tag]]\nname = \"tech\"\ndescription = \"Technical writeups\"\n[[tag]]\nname = \"life\"\ndescription = \"Personal posts\"\n",
    );
    assert_eq!(config.title, "Site Name");
    assert_eq!(
        config.tags,
        vec![tag("tech", "Technical writeups"), tag("life", "Personal posts")]
    );
}

#[test]
fn tags_keep_their_declared_order() {
    let config = IndexConfig::from_toml(
        "[[tag]]\nname = \"z\"\n[[tag]]\nname = \"a\"\n[[tag]]\nname = \"m\"\n[[tag]]\nname = \"a\"\n",
    );
    assert_eq!(config.tags, vec![tag("z", ""), tag("a", ""), tag("m", ""), tag("a", "")]);
}

#[test]
fn missing_fields_are_empty() {
    let config = IndexConfig::from_toml("[[tag]]\nname = \"only-name\"\n[[tag]]\ndescription = \"only text\"\n[[tag]]\n");
    assert_eq!(config.title, "");
    assert_eq!(config.tags, vec![tag("only-name", ""), tag("", "only text"), tag("", "")]);
}

#[test]
fn fields_of_the_wrong_kind_are_empty() {
    let config = IndexConfig::from_toml(
        "title = 3\n[[tag]]\nname = 1\ndescription = [\"x\"]\n",
    );
    assert_eq!(config.title, "");
    assert_eq!(config.tags, vec![tag("", "")]);
}

#[test]
fn items_that_are_no_tables_give_no_tag() {
    let config = IndexConfig::from_toml("tag = [1, { name = \"x\", description = \"d\" }, \"y\", { name = \"z\" }]\n");
    assert_eq!(config.tags, vec![tag("x", "d"), tag("z", "")]);
}

#[test]
fn tag_that_is_no_array_gives_no_tags() {
    let config = IndexConfig::from_toml("title = \"T\"\ntag = \"tech\"\n");
    assert_eq!(config.title, "T");
    assert_eq!(config.tags, Vec::<Tag>::new());
    let config = IndexConfig::from_toml("title = \"T\"\n[tag]\nname = \"tech\"\n");
    assert_eq!(config.tags, Vec::<Tag>::new());
}

#[test]
fn empty_text_is_an_empty_config() {
    assert_eq!(IndexConfig::from_toml(""), IndexConfig::new());
    assert_eq!(IndexConfig::parse(""), Ok(IndexConfig::new()));
}

#[test]
fn other_keys_are_passed_over() {
    let config = IndexConfig::from_toml("title = \"T\"\ntags = [\"a\"]\n[[section]]\nname = \"x\"\n");
    assert_eq!(config.title, "T");
    assert_eq!(config.tags, Vec::<Tag>::new());
}

#[test]
fn malformed_config_is_empty() {
    assert_eq!(IndexConfig::from_toml("title = \"Site\n[[tag]]\n"), IndexConfig::new());
    assert_eq!(IndexConfig::from_toml("[[tag]\nname = \"x\"\n"), IndexConfig::new());
}

#[test]
fn malformed_config_is_an_error_of_parse() {
    assert!(IndexConfig::parse("title = \"Site\n").is_err());
    assert!(IndexConfig::parse("title = \"Site\"\n").is_ok());
}

#[test]
fn config_from_a_table_built_by_hand() {
    let mut inner = toml::Table::new();
    inner.insert("name".to_string(), toml::Value::String("tech".to_string()));
    inner.insert("description".to_string(), toml::Value::String("desc".to_string()));
    let mut table = toml::Table::new();
    table.insert("title".to_string(), toml::Value::String("Site".to_string()));
    table.insert(
        "tag".to_string(),
        toml::Value::Array(vec![
            toml::Value::Integer(1),
            toml::Value::Table(inner),
            toml::Value::Table(toml::Table::new()),
        ]),
    );
    let config = IndexConfig::from_table(&table);
    assert_eq!(config.title, "Site");
    assert_eq!(config.tags, vec![tag("tech", "desc"), tag("", "")]);
}

#[test]
fn description_may_hold_markdown() {
    let config = IndexConfig::from_toml("[[tag]]\nname = \"t\"\ndescription = \"*see* [here](x.html)\"\n");
    assert_eq!(config.tags, vec![tag("t", "*see* [here](x.html)")]);
}
