use kbr_api_rust::cors::{cors_policy, is_production, CorsPolicy};

#[test]
fn blank_setting_is_permissive() {
    assert!(matches!(cors_policy(""), CorsPolicy::Permissive));
    assert!(matches!(cors_policy("  \t "), CorsPolicy::Permissive));
    assert!(!is_production(" "));
}

#[test]
fn origins_are_split_and_trimmed() {
    match cors_policy(" https://a.example , https://b.example,, ") {
        CorsPolicy::Restricted(list) => {
            assert_eq!(list, vec!["https://a.example".to_string(), "https://b.example".to_string()])
        }
        CorsPolicy::Permissive => panic!("expected restricted"),
    }
    assert!(is_production("https://a.example"));
}

#[test]
fn single_origin() {
    match cors_policy("https://kbr.example") {
        CorsPolicy::Restricted(list) => assert_eq!(list, vec!["https://kbr.example".to_string()]),
        CorsPolicy::Permissive => panic!("expected restricted"),
    }
}
