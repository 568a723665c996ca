use openusb::acl::AclEngine;
use openusb::shared_config::DeviceAcl;
use openusb::strmap::StrMap;

fn acl(users: &[&str], pw: bool) -> DeviceAcl {
    DeviceAcl { allowed_users: users.iter().map(|u| u.to_string()).collect(), require_password: pw }
}

fn engine() -> AclEngine {
    let mut rules = StrMap::new();
    rules.insert("0765:5020".to_string(), acl(&["alice", "bob"], true));
    rules.insert("046d:c52b".to_string(), acl(&[], false));
    rules.insert("0781:5583".to_string(), acl(&["*"], false));
    AclEngine::new(rules)
}

#[test]
fn device_without_acl_is_open() {
    let e = engine();
    assert!(e.can_access("1234:5678", "mallory"));
    assert!(!e.requires_password("1234:5678"));
    assert!(e.get_acl("1234:5678").is_none());
}

#[test]
fn listed_users_only() {
    let e = engine();
    assert!(e.can_access("0765:5020", "alice"));
    assert!(e.can_access("0765:5020", "bob"));
    assert!(!e.can_access("0765:5020", "carol"));
    assert!(e.requires_password("0765:5020"));
}

#[test]
fn empty_list_and_wildcard_are_open() {
    let e = engine();
    assert!(e.can_access("046d:c52b", "anyone"));
    assert!(e.can_access("0781:5583", "anyone"));
}

#[test]
fn set_then_get_and_remove_reopens() {
    let mut e = engine();
    e.set_acl("0765:5020".to_string(), acl(&["carol"], false));
    assert!(e.can_access("0765:5020", "carol"));
    assert!(!e.can_access("0765:5020", "alice"));
    assert!(!e.requires_password("0765:5020"));
    assert_eq!(e.get_acl("0765:5020").unwrap().allowed_users, vec!["carol".to_string()]);
    assert!(!e.can_access("0765:5020", "bob"));
    e.remove_acl("0765:5020");
    assert!(e.can_access("0765:5020", "alice"));
    assert!(!e.requires_password("0765:5020"));
    assert!(e.can_access("0781:5583", "anyone"));
    assert_eq!(e.all_rules().len(), 2);
}
