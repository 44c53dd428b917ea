use charon::{Global, Variables};

#[test]
fn sort() {
    let mut table = vec![
        Global {
            name: "test".into(),
            variables: Default::default(),
        },
        Global {
            name: "first".into(),
            variables: Default::default(),
        },
    ];
    table.sort();
    let mut i = table.iter();
    assert_eq!(i.next().unwrap().name, "first");
    assert_eq!(i.next().unwrap().name, "test");
}

#[test]
fn globals_io() {
    let mut variables = Variables::default();
    variables.insert("foo".into(), "bar".into());
    variables.insert("baz".into(), "quux".into());
    let item = Global {
        name: "test".into(),
        variables,
    };
    for (key, value) in [("foo", "bar"), ("baz", "quux")] {
        assert_eq!(item.var(key).unwrap(), value);
    }
    assert_eq!(item.var("unset"), None);
}

#[test]
fn insert_replaces() {
    let mut variables = Variables::new();
    variables.insert("k".into(), "one".into());
    variables.insert("k".into(), "two".into());
    assert_eq!(variables.get("k"), Some("two".into()));
    let mut other = Variables::new();
    other.insert("k".into(), "two".into());
    assert_eq!(variables, other);
}
