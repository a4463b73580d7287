use summon::store::{config_file_name, load_config, Config, Entry, Found};

fn s(text: &str) -> String {
    text.to_string()
}

fn entry(name: &str, path: &str) -> Entry {
    Entry { name: s(name), path: s(path) }
}

#[test]
fn new_table_is_empty() {
    let config = Config::new();
    assert_eq!(config.len(), 0);
    assert_eq!(config.entries(), Vec::<Entry>::new());
    assert_eq!(config.get(&s("work")), None);
}

#[test]
fn insert_then_get_gives_the_path() {
    let mut config = Config::new();
    assert_eq!(config.insert(s("work"), s("/home/u/proj")), None);
    assert_eq!(config.get(&s("work")), Some(&s("/home/u/proj")));
    assert_eq!(config.get(&s("wor")), None);
    assert_eq!(config.get(&s("work ")), None);
    assert_eq!(config.len(), 1);
}

#[test]
fn insert_over_a_name_replaces_the_path_in_place() {
    let mut config = Config::new();
    config.insert(s("a"), s("/one"));
    config.insert(s("b"), s("/two"));
    config.insert(s("c"), s("/three"));
    assert_eq!(config.insert(s("b"), s("/other")), Some(s("/two")));
    assert_eq!(config.len(), 3);
    assert_eq!(
        config.entries(),
        vec![entry("a", "/one"), entry("b", "/other"), entry("c", "/three")]
    );
    assert_eq!(config.get(&s("b")), Some(&s("/other")));
}

#[test]
fn insert_over_the_first_and_the_last_name() {
    let mut config = Config::new();
    config.insert(s("a"), s("1"));
    config.insert(s("b"), s("2"));
    assert_eq!(config.insert(s("a"), s("3")), Some(s("1")));
    assert_eq!(config.insert(s("b"), s("4")), Some(s("2")));
    assert_eq!(config.entries(), vec![entry("a", "3"), entry("b", "4")]);
}

#[test]
fn remove_takes_the_entry_out_and_keeps_the_order() {
    let mut config = Config::new();
    config.insert(s("a"), s("/one"));
    config.insert(s("b"), s("/two"));
    config.insert(s("c"), s("/three"));
    assert_eq!(config.remove(&s("b")), Some(s("/two")));
    assert_eq!(config.entries(), vec![entry("a", "/one"), entry("c", "/three")]);
    assert_eq!(config.get(&s("b")), None);
    assert_eq!(config.len(), 2);
}

#[test]
fn remove_of_a_missing_name_changes_nothing() {
    let mut config = Config::new();
    config.insert(s("a"), s("/one"));
    assert_eq!(config.remove(&s("z")), None);
    assert_eq!(config.remove(&s("z")), None);
    assert_eq!(config.entries(), vec![entry("a", "/one")]);
}

#[test]
fn remove_then_insert_puts_the_name_at_the_end() {
    let mut config = Config::new();
    config.insert(s("a"), s("1"));
    config.insert(s("b"), s("2"));
    config.remove(&s("a"));
    config.insert(s("a"), s("3"));
    assert_eq!(config.entries(), vec![entry("b", "2"), entry("a", "3")]);
}

#[test]
fn names_differ_by_case_and_may_be_empty() {
    let mut config = Config::new();
    config.insert(s("Work"), s("/upper"));
    config.insert(s("work"), s("/lower"));
    config.insert(s(""), s("/nameless"));
    assert_eq!(config.len(), 3);
    assert_eq!(config.get(&s("Work")), Some(&s("/upper")));
    assert_eq!(config.get(&s("work")), Some(&s("/lower")));
    assert_eq!(config.get(&s("")), Some(&s("/nameless")));
}

#[test]
fn from_entries_keeps_the_later_path_at_the_first_place() {
    let items = vec![entry("a", "1"), entry("b", "2"), entry("a", "3")];
    let config = Config::from_entries(&items);
    assert_eq!(config.entries(), vec![entry("a", "3"), entry("b", "2")]);
}

#[test]
fn a_table_made_of_its_own_entries_is_the_same() {
    let mut config = Config::new();
    config.insert(s("x"), s("/x"));
    config.insert(s("y"), s("/y"));
    config.insert(s("z"), s("C:\\z z"));
    let again = Config::from_entries(&config.entries());
    assert_eq!(again.entries(), config.entries());
}

#[test]
fn the_file_is_named_config_json() {
    assert_eq!(config_file_name(), "config.json");
}

#[test]
fn no_file_gives_an_empty_table() {
    let config = load_config(Found::Nothing).unwrap();
    assert_eq!(config.len(), 0);
}

#[test]
fn a_file_that_was_read_gives_its_entries() {
    let found = Found::Entries(vec![entry("docs", "/srv/docs"), entry("tmp", "/tmp")]);
    let config = load_config(found).unwrap();
    assert_eq!(config.entries(), vec![entry("docs", "/srv/docs"), entry("tmp", "/tmp")]);
}

#[test]
fn a_file_that_cannot_be_read_gives_the_line_to_print() {
    let found = Found::Unreadable(s("expected value at line 1 column 1"));
    assert_eq!(
        load_config(found).unwrap_err(),
        "Error loading config.json: expected value at line 1 column 1"
    );
}
