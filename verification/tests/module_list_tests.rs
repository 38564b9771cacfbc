use hsm::{Error, ErrorKind, ModuleDetails, ModuleList};

#[test]
fn new_module_list_keeps_its_descriptors() {
    let mods = vec![
        ModuleDetails::new(String::from("agent")),
        ModuleDetails::new(String::from("hub")),
    ];
    let list = ModuleList::new(mods);
    assert_eq!(list.modules().len(), 2);
    assert_eq!(list.modules()[0].name(), "agent");
    assert_eq!(list.modules()[1].name(), "hub");
}

#[test]
fn set_modules_replaces_the_descriptors() {
    let mut list = ModuleList::new(vec![ModuleDetails::new(String::from("agent"))]);
    list.set_modules(vec![
        ModuleDetails::new(String::from("hub")),
        ModuleDetails::new(String::from("sensor")),
    ]);
    assert_eq!(list.modules().len(), 2);
    assert_eq!(list.modules()[0].name(), "hub");
}

#[test]
fn with_modules_replaces_the_descriptors() {
    let list = ModuleList::new(vec![ModuleDetails::new(String::from("agent"))])
        .with_modules(vec![ModuleDetails::new(String::from("sensor"))]);
    assert_eq!(list.modules().len(), 1);
    assert_eq!(list.modules()[0].name(), "sensor");
}

#[test]
fn empty_module_list_is_allowed() {
    let list = ModuleList::new(Vec::new());
    assert_eq!(list.modules().len(), 0);
}

#[test]
fn error_carries_its_kind() {
    let e = Error::new(ErrorKind::ExportDenied);
    assert_eq!(e.kind(), ErrorKind::ExportDenied);
    let e2 = Error::new(ErrorKind::ModuleUnavailable);
    assert_ne!(e.kind(), e2.kind());
}
