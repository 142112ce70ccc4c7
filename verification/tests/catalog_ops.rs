use jabroni::catalog::{partition_columns, resolve_name};

#[test]
fn resolution_is_case_insensitive_and_canonical() {
    let names = vec!["Users".to_string(), "Orders".to_string()];
    assert_eq!(resolve_name(&names, "users"), Some("Users".to_string()));
    assert_eq!(resolve_name(&names, "USERS"), Some("Users".to_string()));
    assert_eq!(resolve_name(&names, "Users"), Some("Users".to_string()));
    assert_eq!(resolve_name(&names, "oRdErS"), Some("Orders".to_string()));
}

#[test]
fn resolution_of_unknown_name_is_none() {
    let names = vec!["Users".to_string()];
    assert_eq!(resolve_name(&names, "customers"), None);
    let empty: Vec<String> = Vec::new();
    assert_eq!(resolve_name(&empty, "users"), None);
}

#[test]
fn resolution_returns_first_match() {
    let names = vec!["AB".to_string(), "ab".to_string()];
    assert_eq!(resolve_name(&names, "Ab"), Some("AB".to_string()));
}

#[test]
fn partition_is_exhaustive_and_order_preserving() {
    let all = vec!["id".to_string(), "name".to_string()];
    let raws = vec!["NAME".to_string(), "nope".to_string(), "id".to_string(), "other".to_string()];
    let (found, not_found) = partition_columns(&all, &raws);
    let found_strs: Vec<&str> = found.iter().map(|c| c.as_str()).collect();
    assert_eq!(found_strs, vec!["name", "id"]);
    assert_eq!(not_found, vec!["nope".to_string(), "other".to_string()]);
    assert_eq!(found.len() + not_found.len(), raws.len());
}

#[test]
fn partition_of_all_matches_has_empty_not_found() {
    let all = vec!["a".to_string(), "b".to_string()];
    let raws = vec!["B".to_string(), "A".to_string()];
    let (found, not_found) = partition_columns(&all, &raws);
    let found_strs: Vec<&str> = found.iter().map(|c| c.as_str()).collect();
    assert_eq!(found_strs, vec!["b", "a"]);
    assert!(not_found.is_empty());
}
