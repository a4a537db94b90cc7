use mlslib::module::{hello, module_doc};
use mlslib::registration::{Action, Attribute, Registration};

#[test]
fn hello_returns_greeting() {
    assert_eq!(hello(), "Hello World");
}

#[test]
fn hello_is_the_same_every_time() {
    let first = hello();
    for _ in 0..5 {
        assert_eq!(hello(), first);
    }
    assert_eq!(first.as_bytes(), b"Hello World");
}

#[test]
fn doc_is_fixed_text() {
    assert_eq!(module_doc(), "This module is implemented in Rust");
}

#[test]
fn import_then_read_doc_and_call_hello() {
    let mut reg = Registration::new();
    let mut doc = None;
    let mut has_hello = false;
    loop {
        match reg.next_action() {
            Action::SetAttr(Attribute::Doc) => {
                doc = Some(module_doc());
                reg.record(true);
            }
            Action::SetAttr(Attribute::Hello) => {
                has_hello = true;
                reg.record(true);
            }
            Action::Complete => break,
            Action::Abort => panic!("initialisation aborted"),
        }
    }
    assert_eq!(doc.as_deref(), Some("This module is implemented in Rust"));
    assert!(has_hello);
    assert_eq!(hello(), "Hello World");
}

#[test]
fn attribute_names() {
    assert_eq!(Attribute::Doc.name(), "__doc__");
    assert_eq!(Attribute::Hello.name(), "hello");
}

#[test]
fn attributes_are_set_in_order() {
    let mut reg = Registration::new();
    assert_eq!(reg.next_action(), Action::SetAttr(Attribute::Doc));
    reg.record(true);
    assert_eq!(reg.next_action(), Action::SetAttr(Attribute::Hello));
    reg.record(true);
    assert_eq!(reg.next_action(), Action::Complete);
}

#[test]
fn refused_doc_aborts() {
    let mut reg = Registration::new();
    reg.record(false);
    assert_eq!(reg.next_action(), Action::Abort);
}

#[test]
fn refused_hello_aborts() {
    let mut reg = Registration::new();
    reg.record(true);
    reg.record(false);
    assert_eq!(reg.next_action(), Action::Abort);
}

#[test]
fn reload_sets_the_same_attributes() {
    let mut seen = Vec::new();
    for _ in 0..2 {
        let mut reg = Registration::new();
        let mut names = Vec::new();
        while let Action::SetAttr(a) = reg.next_action() {
            names.push(a.name());
            reg.record(true);
        }
        assert_eq!(reg.next_action(), Action::Complete);
        seen.push(names);
    }
    assert_eq!(seen[0], seen[1]);
    assert_eq!(seen[0], vec!["__doc__", "hello"]);
}
