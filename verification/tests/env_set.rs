use xunlei::env::EnvSet;

#[test]
fn new_set_is_empty() {
    let envs = EnvSet::new();
    assert!(envs.to_vec().is_empty());
    assert_eq!(envs.get("HOME"), None);
    assert!(!envs.contains("HOME"));
}

#[test]
fn insert_then_get() {
    let mut envs = EnvSet::new();
    envs.set("HOME", "/root");
    envs.insert("PATH".to_string(), "/bin".to_string());
    assert_eq!(envs.get("HOME"), Some("/root".to_string()));
    assert_eq!(envs.get("PATH"), Some("/bin".to_string()));
    assert_eq!(envs.get("home"), None);
    assert!(envs.contains("PATH"));
}

#[test]
fn insert_again_replaces_the_value() {
    let mut envs = EnvSet::new();
    envs.set("A", "1");
    envs.set("B", "2");
    envs.set("A", "3");
    assert_eq!(envs.get("A"), Some("3".to_string()));
    assert_eq!(envs.get("B"), Some("2".to_string()));
    let list = envs.to_vec();
    assert_eq!(list.len(), 2);
    assert_eq!(list.iter().filter(|e| e.0 == "A").count(), 1);
}

#[test]
fn clone_is_independent() {
    let mut envs = EnvSet::new();
    envs.set("A", "1");
    let mut copy = envs.clone();
    copy.set("A", "2");
    copy.set("B", "3");
    assert_eq!(envs.get("A"), Some("1".to_string()));
    assert_eq!(envs.get("B"), None);
    assert_eq!(copy.get("A"), Some("2".to_string()));
}

#[test]
fn empty_name_and_value_are_kept() {
    let mut envs = EnvSet::new();
    envs.set("", "");
    assert_eq!(envs.get(""), Some(String::new()));
    assert_eq!(envs.to_vec(), vec![(String::new(), String::new())]);
}
