use juno_gen::atom::AtomTable;

#[test]
fn test_tab() {
    let mut idtab = AtomTable::new();

    let id_foo = idtab.atom("foo");
    let p_foo = idtab.str(id_foo).as_ptr();
    let id_bar = idtab.atom("bar");
    assert_ne!(id_foo, id_bar);

    assert_eq!(idtab.atom("foo"), id_foo);
    assert_eq!(idtab.atom("bar"), id_bar);

    assert_eq!(idtab.atom(String::from("foo").as_str()), id_foo);
    assert_eq!(idtab.atom(String::from("bar").as_str()), id_bar);

    assert_eq!(idtab.str(id_foo), "foo");
    assert_eq!(idtab.str(id_bar), "bar");

    assert_eq!(idtab.str(id_foo).as_ptr(), p_foo);
}

#[test]
fn intern_is_idempotent() {
    let mut t = AtomTable::new();
    let a1 = t.atom("alpha");
    let a2 = t.atom("alpha");
    assert_eq!(a1, a2);
    assert_eq!(t.str(a1), "alpha");
}

#[test]
fn distinct_texts_get_distinct_atoms() {
    let mut t = AtomTable::new();
    let a = t.atom("x");
    let b = t.atom("y");
    let c = t.atom("");
    assert_ne!(a, b);
    assert_ne!(a, c);
    assert_ne!(b, c);
}

#[test]
fn try_str_is_total() {
    let mut t = AtomTable::new();
    let a = t.atom("only");
    assert_eq!(t.try_str(a), Some("only"));
    let bad = juno_gen::atom::Atom::invalid();
    assert_eq!(t.try_str(bad), None);
}
