use chat_relay::registry::{get_lista_usuarios, remove_usuario, Registry};

#[test]
fn register_then_lookup() {
    let mut reg = Registry::new();
    reg.register(1, String::from("Alice"));
    assert_eq!(reg.lookup(1), Some(String::from("Alice")));
    assert_eq!(reg.lookup(2), None);
    assert_eq!(reg.len(), 1);
}

#[test]
fn register_overwrites_in_place() {
    let mut reg = Registry::new();
    reg.register(1, String::from("Alice"));
    reg.register(2, String::from("Bob"));
    reg.register(1, String::from("Alicia"));
    assert_eq!(reg.len(), 2);
    assert_eq!(reg.lookup(1), Some(String::from("Alicia")));
    assert_eq!(reg.snapshot_names(), vec![String::from("Alicia"), String::from("Bob")]);
}

#[test]
fn update_returns_previous_name() {
    let mut reg = Registry::new();
    assert_eq!(reg.update(5, String::from("Eve")), None);
    assert_eq!(reg.update(5, String::from("Eva")), Some(String::from("Eve")));
    assert_eq!(reg.lookup(5), Some(String::from("Eva")));
}

#[test]
fn remove_returns_removed_name() {
    let mut reg = Registry::new();
    reg.register(3, String::from("Carol"));
    assert_eq!(reg.remove(3), Some(String::from("Carol")));
    assert_eq!(reg.lookup(3), None);
    assert_eq!(reg.len(), 0);
}

#[test]
fn remove_of_absent_identity_is_noop() {
    let mut reg = Registry::new();
    reg.register(1, String::from("Alice"));
    reg.register(2, String::from("Bob"));
    assert_eq!(reg.remove(9), None);
    assert_eq!(reg.len(), 2);
    assert_eq!(reg.snapshot_names(), vec![String::from("Alice"), String::from("Bob")]);
    let mut empty = Registry::new();
    assert_eq!(empty.remove(1), None);
    assert_eq!(empty.len(), 0);
}

#[test]
fn duplicate_names_are_allowed() {
    let mut reg = Registry::new();
    reg.register(1, String::from("Sam"));
    reg.register(2, String::from("Sam"));
    assert_eq!(reg.len(), 2);
    assert_eq!(reg.snapshot_names(), vec![String::from("Sam"), String::from("Sam")]);
}

#[test]
fn snapshot_keeps_registration_order() {
    let mut reg = Registry::new();
    reg.register(4, String::from("d"));
    reg.register(2, String::from("b"));
    reg.register(3, String::from("c"));
    assert_eq!(
        reg.snapshot_names(),
        vec![String::from("d"), String::from("b"), String::from("c")]
    );
}

#[test]
fn remove_usuario_matches_remove() {
    let mut reg = Registry::new();
    reg.register(7, String::from("Grace"));
    assert_eq!(remove_usuario(&mut reg, 8), None);
    assert_eq!(remove_usuario(&mut reg, 7), Some(String::from("Grace")));
    assert_eq!(remove_usuario(&mut reg, 7), None);
}

#[test]
fn get_lista_usuarios_formats_listing() {
    let mut reg = Registry::new();
    assert_eq!(get_lista_usuarios(&reg), "Usu\u{e1}rios online:\n");
    reg.register(1, String::from("Alice"));
    reg.register(2, String::from("Bob"));
    assert_eq!(get_lista_usuarios(&reg), "Usu\u{e1}rios online:\n- Alice\n- Bob\n");
}
