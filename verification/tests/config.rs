use selection_capture::config::{clear_config_cache, get_config, Config, ConfigCache};

fn sample() -> Config {
    Config {
        hotkey: Some("Alt+T".to_string()),
        ocr_hotkey: None,
        writing_hotkey: Some("Alt+W".to_string()),
        writing_newline_hotkey: None,
        restore_previous_position: Some(true),
        always_show_icons: None,
        allow_using_clipboard_when_selected_text_not_available: Some(false),
        automatic_check_for_updates: Some(true),
        hide_the_icon_in_the_dock: None,
    }
}

#[test]
fn empty_cache_gives_nothing() {
    let cache = ConfigCache::new();
    assert_eq!(get_config(&cache), None);
}

#[test]
fn loaded_config_is_kept_and_handed_on() {
    let mut cache = ConfigCache::new();
    assert_eq!(cache.fill(Ok(sample())), Ok(sample()));
    assert_eq!(get_config(&cache), Some(sample()));
    assert_eq!(get_config(&cache), Some(sample()));
}

#[test]
fn failed_load_leaves_the_cache_alone() {
    let mut cache = ConfigCache::new();
    assert_eq!(
        cache.fill(Err("Failed to read config file".to_string())),
        Err("Failed to read config file".to_string())
    );
    assert_eq!(get_config(&cache), None);
    cache.fill(Ok(sample())).unwrap();
    assert_eq!(cache.fill(Err("again".to_string())), Err("again".to_string()));
    assert_eq!(get_config(&cache), Some(sample()));
}

#[test]
fn cleared_cache_gives_nothing() {
    let mut cache = ConfigCache::new();
    cache.fill(Ok(sample())).unwrap();
    clear_config_cache(&mut cache);
    assert_eq!(get_config(&cache), None);
}

#[test]
fn clone_keeps_every_field() {
    let config = sample();
    assert_eq!(config.clone(), sample());
}
