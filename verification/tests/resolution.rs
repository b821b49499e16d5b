use sudachi_facade::TokenizerConfig;
use sudachi_facade::parent_dir;
use sudachi_facade::resolve_config;

#[test]
fn test_parent_dir_plain() {
    assert_eq!(parent_dir("/a/b/d.dic"), Some("/a/b".to_string()));
    assert_eq!(parent_dir("/x/y/cfg.json"), Some("/x/y".to_string()));
    assert_eq!(parent_dir("a/b"), Some("a".to_string()));
}

#[test]
fn test_parent_dir_edges() {
    assert_eq!(parent_dir(""), None);
    assert_eq!(parent_dir("/"), None);
    assert_eq!(parent_dir("///"), None);
    assert_eq!(parent_dir("/d.dic"), Some("/".to_string()));
    assert_eq!(parent_dir("d.dic"), Some("".to_string()));
    assert_eq!(parent_dir("/a/b/"), Some("/a".to_string()));
    assert_eq!(parent_dir("/a//b"), Some("/a".to_string()));
}

#[test]
fn test_resource_dir_from_dictionary_path() {
    let resolved = resolve_config(TokenizerConfig {
        dictionary_path: "/a/b/d.dic".to_string(),
        config_path: None,
        resource_path: None,
        user_dictionary_path: None,
    });
    assert_eq!(resolved.dictionary_path, "/a/b/d.dic");
    assert_eq!(resolved.resource_path, Some("/a/b".to_string()));
    assert_eq!(resolved.config_path, None);
    assert_eq!(resolved.user_dictionary_path, None);
}

#[test]
fn test_resource_dir_from_config_path() {
    let resolved = resolve_config(TokenizerConfig {
        dictionary_path: "/a/b/d.dic".to_string(),
        config_path: Some("/x/y/cfg.json".to_string()),
        resource_path: None,
        user_dictionary_path: None,
    });
    assert_eq!(resolved.resource_path, Some("/x/y".to_string()));
    assert_eq!(resolved.config_path, Some("/x/y/cfg.json".to_string()));
}

#[test]
fn test_resource_dir_explicit_wins() {
    let resolved = resolve_config(TokenizerConfig {
        dictionary_path: "/a/b/d.dic".to_string(),
        config_path: Some("/x/y/cfg.json".to_string()),
        resource_path: Some("/res".to_string()),
        user_dictionary_path: Some("/u/user.dic".to_string()),
    });
    assert_eq!(resolved.resource_path, Some("/res".to_string()));
    assert_eq!(resolved.user_dictionary_path, Some("/u/user.dic".to_string()));
}

#[test]
fn test_resource_dir_config_without_parent_falls_back() {
    let resolved = resolve_config(TokenizerConfig {
        dictionary_path: "/a/b/d.dic".to_string(),
        config_path: Some("/".to_string()),
        resource_path: None,
        user_dictionary_path: None,
    });
    assert_eq!(resolved.resource_path, Some("/a/b".to_string()));
}

#[test]
fn test_config_from_dictionary_path() {
    let config = TokenizerConfig::from_dictionary_path("/a/b/d.dic".to_string());
    assert_eq!(config.dictionary_path, "/a/b/d.dic");
    assert_eq!(config.config_path, None);
    assert_eq!(config.resource_path, None);
    assert_eq!(config.user_dictionary_path, None);
    let resolved = resolve_config(config);
    assert_eq!(resolved.resource_path, Some("/a/b".to_string()));
}

#[test]
fn test_resource_dir_none_when_no_parent() {
    let resolved = resolve_config(TokenizerConfig {
        dictionary_path: "/".to_string(),
        config_path: None,
        resource_path: None,
        user_dictionary_path: None,
    });
    assert_eq!(resolved.resource_path, None);
}
