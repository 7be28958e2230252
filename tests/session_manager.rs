use striputary::session_manager::{
    SessionDirIdentifier, SessionDirManager, SessionIdentifier, SessionManager,
};

fn dirs() -> Vec<String> {
    vec!["out/b".to_string(), "out/a".to_string()]
}

#[test]
fn manager_selects_latest_then_others() {
    let mut m = SessionManager::new("out".into(), dirs(), "out/new".into(), Some(1));
    assert_eq!(m.get_currently_selected(), Some("out/a".to_string()));
    assert!(m.is_currently_selected(&SessionIdentifier::Old(1)));
    m.select(SessionIdentifier::Old(0));
    assert_eq!(m.get_currently_selected(), Some("out/b".to_string()));
    m.select_new();
    assert_eq!(m.get_currently_selected(), Some("out/new".to_string()));
    assert!(!m.is_currently_selected(&SessionIdentifier::Old(0)));
    m.select(SessionIdentifier::Old(5));
    assert_eq!(m.get_currently_selected(), None);
    let m = SessionManager::new("out".into(), vec![], "out/new".into(), None);
    assert_eq!(m.get_currently_selected(), None);
}

#[test]
fn dir_manager_defaults_to_new() {
    let mut m = SessionDirManager::new("out".into(), dirs(), "out/new".into(), None);
    assert_eq!(m.get_currently_selected(), Some("out/new".to_string()));
    m.select(SessionDirIdentifier::Old(1));
    assert_eq!(m.get_currently_selected(), Some("out/a".to_string()));
    m.select_new();
    assert_eq!(m.selected, SessionDirIdentifier::New);
}

#[test]
fn listings_carry_names_and_identifiers() {
    let m = SessionManager::new("out".into(), vec!["out/b.x".into(), "out/a/".into()], "out/new".into(), None);
    assert_eq!(
        m.iter_relative_paths_with_indices(),
        vec![(SessionIdentifier::Old(0), "b".to_string()), (SessionIdentifier::Old(1), "a".to_string())]
    );
    let d = SessionDirManager::new("out".into(), vec!["out/old".into()], "out/new".into(), Some(0));
    assert_eq!(
        d.iter_relative_paths_with_indices(),
        vec![(SessionDirIdentifier::New, "new".to_string()), (SessionDirIdentifier::Old(0), "old".to_string())]
    );
}
