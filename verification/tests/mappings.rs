use tex2typst_core::mapping::StringMap;

fn s(text: &str) -> String {
    text.to_string()
}

#[test]
fn new_map_is_empty() {
    let m: StringMap<String> = StringMap::new();
    assert_eq!(m.len(), 0);
    assert!(m.is_empty());
    assert_eq!(m.get(&s("a")), None);
}

#[test]
fn insert_keeps_arrival_order() {
    let mut m: StringMap<String> = StringMap::new();
    m.insert(s("b"), s("2"));
    m.insert(s("a"), s("1"));
    m.insert(s("c"), s("3"));
    assert_eq!(m.len(), 3);
    assert!(!m.is_empty());
    assert_eq!(m.key(0), "b");
    assert_eq!(m.value(0), "2");
    assert_eq!(m.key(1), "a");
    assert_eq!(m.value(1), "1");
    assert_eq!(m.key(2), "c");
    assert_eq!(m.value(2), "3");
}

#[test]
fn insert_replaces_in_place() {
    let mut m: StringMap<String> = StringMap::new();
    m.insert(s("b"), s("2"));
    m.insert(s("a"), s("1"));
    m.insert(s("b"), s("20"));
    assert_eq!(m.len(), 2);
    assert_eq!(m.key(0), "b");
    assert_eq!(m.value(0), "20");
    assert_eq!(m.key(1), "a");
    assert_eq!(m.value(1), "1");
}

#[test]
fn no_key_occurs_twice() {
    let mut m: StringMap<bool> = StringMap::new();
    for round in 0..3 {
        for key in ["x", "y", "x", "z", "y"] {
            m.insert(s(key), round % 2 == 0);
        }
    }
    assert_eq!(m.len(), 3);
    for i in 0..m.len() {
        for j in (i + 1)..m.len() {
            assert_ne!(m.key(i), m.key(j));
        }
    }
}

#[test]
fn get_finds_the_value_of_a_key() {
    let mut m: StringMap<String> = StringMap::new();
    m.insert(s("\\R"), s("\\mathbb{R}"));
    m.insert(s("\\N"), s("\\mathbb{N}"));
    assert_eq!(m.get(&s("\\R")), Some(&s("\\mathbb{R}")));
    assert_eq!(m.get(&s("\\N")), Some(&s("\\mathbb{N}")));
    assert_eq!(m.get(&s("\\Z")), None);
    assert_eq!(m.get(&s("")), None);
}

#[test]
fn empty_key_is_a_key() {
    let mut m: StringMap<String> = StringMap::new();
    m.insert(s(""), s("v"));
    assert_eq!(m.len(), 1);
    assert_eq!(m.get(&s("")), Some(&s("v")));
}

#[test]
fn clone_has_the_same_entries() {
    let mut m: StringMap<String> = StringMap::new();
    m.insert(s("a"), s("1"));
    m.insert(s("b"), s("2"));
    let c = m.clone();
    assert_eq!(c, m);
    assert_eq!(c.len(), 2);
    assert_eq!(c.key(1), "b");
    assert_eq!(c.value(1), "2");
    m.insert(s("a"), s("changed"));
    assert_eq!(c.value(0), "1");
}
