use pioneer_supervisor::config::{deep_merge, ConfigTree};

fn num(text: &str) -> ConfigTree {
    ConfigTree::Number(text.to_string())
}

fn text(text: &str) -> ConfigTree {
    ConfigTree::Text(text.to_string())
}

fn object(entries: Vec<(&str, ConfigTree)>) -> ConfigTree {
    ConfigTree::Object(entries.into_iter().map(|(k, v)| (k.to_string(), v)).collect())
}

fn sample() -> ConfigTree {
    object(vec![
        ("threads", num("4")),
        ("paths", object(vec![("library", text("lib.poin")), ("results", text("out"))])),
        ("flags", ConfigTree::Array(vec![ConfigTree::Bool(true), ConfigTree::Null])),
    ])
}

#[test]
fn default_leaves_survive() {
    let over = object(vec![("paths", object(vec![("results", text("elsewhere"))]))]);
    let merged = deep_merge(&sample(), &over);
    assert_eq!(
        merged,
        object(vec![
            ("threads", num("4")),
            ("paths", object(vec![("library", text("lib.poin")), ("results", text("elsewhere"))])),
            ("flags", ConfigTree::Array(vec![ConfigTree::Bool(true), ConfigTree::Null])),
        ])
    );
}

#[test]
fn override_leaves_replace() {
    let over = object(vec![("threads", num("8")), ("flags", ConfigTree::Array(vec![]))]);
    let merged = deep_merge(&sample(), &over);
    assert_eq!(
        merged,
        object(vec![
            ("threads", num("8")),
            ("paths", object(vec![("library", text("lib.poin")), ("results", text("out"))])),
            ("flags", ConfigTree::Array(vec![])),
        ])
    );
}

#[test]
fn keys_of_the_override_alone_are_added() {
    let over = object(vec![("extra", ConfigTree::Bool(false)), ("threads", num("2"))]);
    let merged = deep_merge(&sample(), &over);
    assert_eq!(
        merged,
        object(vec![
            ("threads", num("2")),
            ("paths", object(vec![("library", text("lib.poin")), ("results", text("out"))])),
            ("flags", ConfigTree::Array(vec![ConfigTree::Bool(true), ConfigTree::Null])),
            ("extra", ConfigTree::Bool(false)),
        ])
    );
}

#[test]
fn override_wins_on_type_mismatch() {
    let over = object(vec![("paths", text("flat")), ("threads", object(vec![("n", num("1"))]))]);
    let merged = deep_merge(&sample(), &over);
    assert_eq!(
        merged,
        object(vec![
            ("threads", object(vec![("n", num("1"))])),
            ("paths", text("flat")),
            ("flags", ConfigTree::Array(vec![ConfigTree::Bool(true), ConfigTree::Null])),
        ])
    );
}

#[test]
fn scalar_pairings_give_the_override() {
    assert_eq!(deep_merge(&num("1"), &num("2")), num("2"));
    assert_eq!(deep_merge(&sample(), &ConfigTree::Null), ConfigTree::Null);
    assert_eq!(deep_merge(&ConfigTree::Null, &sample()), sample());
    assert_eq!(deep_merge(&text("a"), &ConfigTree::Bool(true)), ConfigTree::Bool(true));
    let arrays = deep_merge(
        &ConfigTree::Array(vec![num("1"), num("2")]),
        &ConfigTree::Array(vec![num("3")]),
    );
    assert_eq!(arrays, ConfigTree::Array(vec![num("3")]));
}

#[test]
fn merging_with_itself_changes_nothing() {
    assert_eq!(deep_merge(&sample(), &sample()), sample());
    assert_eq!(deep_merge(&num("7"), &num("7")), num("7"));
}

#[test]
fn merging_twice_changes_nothing() {
    let over = object(vec![("paths", object(vec![("cache", text("c"))])), ("threads", num("1"))]);
    let once = deep_merge(&sample(), &over);
    let twice = deep_merge(&once, &over);
    assert_eq!(once, twice);
}

#[test]
fn empty_override_keeps_an_object() {
    assert_eq!(deep_merge(&sample(), &object(vec![])), sample());
    assert_eq!(deep_merge(&object(vec![]), &object(vec![])), object(vec![]));
}

#[test]
fn empty_override_replaces_a_scalar() {
    assert_eq!(deep_merge(&num("5"), &object(vec![])), object(vec![]));
}

#[test]
fn merge_leaves_its_arguments_alone() {
    let base = sample();
    let over = object(vec![("threads", num("8"))]);
    let _ = deep_merge(&base, &over);
    assert_eq!(base, sample());
    assert_eq!(over, object(vec![("threads", num("8"))]));
}

#[test]
fn nested_merge_goes_all_the_way_down() {
    let base = object(vec![("a", object(vec![("b", object(vec![("c", num("1")), ("d", num("2"))]))]))]);
    let over = object(vec![("a", object(vec![("b", object(vec![("c", num("9"))]))]))]);
    assert_eq!(
        deep_merge(&base, &over),
        object(vec![("a", object(vec![("b", object(vec![("c", num("9")), ("d", num("2"))]))]))])
    );
}

#[test]
fn the_last_entry_of_a_repeated_key_counts() {
    let base = object(vec![("k", num("1")), ("k", object(vec![("x", num("1"))]))]);
    let over = object(vec![("k", num("0")), ("k", object(vec![("y", num("2"))]))]);
    let merged = deep_merge(&base, &over);
    match merged {
        ConfigTree::Object(entries) => {
            let (key, value) = entries.last().unwrap();
            assert_eq!(key, "k");
            assert_eq!(*value, object(vec![("x", num("1")), ("y", num("2"))]));
        }
        _ => panic!("an object was expected"),
    }
}

#[test]
fn duplicate_is_equal() {
    assert_eq!(sample().duplicate(), sample());
}
