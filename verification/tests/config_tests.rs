use kucheat::config::{default_check_interval, same_texts, ApiConfig, ChannelConfig, Config, Settings};

fn channel(id: &str, name: &str) -> ChannelConfig {
    ChannelConfig { id: id.to_string(), name: name.to_string() }
}

fn config_with(channels: Vec<ChannelConfig>) -> Config {
    Config {
        api: ApiConfig { client_id: String::new(), client_secret: String::new() },
        settings: Settings { check_interval_secs: 60, notify_offline: false },
        channels,
    }
}

fn pairs(config: &Config) -> Vec<(String, String)> {
    config.channels.iter().map(|c| (c.id.clone(), c.name.clone())).collect()
}

#[test]
fn default_config_matches_first_run_file() {
    let c = Config::default();
    assert_eq!(c.api.client_id, "");
    assert_eq!(c.api.client_secret, "");
    assert_eq!(c.settings.check_interval_secs, 60);
    assert!(!c.settings.notify_offline);
    assert!(c.channels.is_empty());
}

#[test]
fn default_check_interval_is_sixty_seconds() {
    assert_eq!(default_check_interval(), 60);
}

#[test]
fn add_channel_appends_a_new_channel() {
    let mut c = config_with(vec![channel("a", "A")]);
    c.add_channel("b", "B");
    assert_eq!(pairs(&c), vec![("a".into(), "A".into()), ("b".into(), "B".into())]);
}

#[test]
fn add_channel_replaces_and_moves_existing_entry_to_end() {
    let mut c = config_with(vec![channel("a", "A"), channel("b", "B"), channel("c", "C")]);
    c.add_channel("a", "Renamed");
    assert_eq!(
        pairs(&c),
        vec![("b".into(), "B".into()), ("c".into(), "C".into()), ("a".into(), "Renamed".into())]
    );
}

#[test]
fn add_channel_twice_is_adding_once() {
    let mut once = config_with(vec![channel("x", "X")]);
    once.add_channel("a", "A");
    let mut twice = config_with(vec![channel("x", "X")]);
    twice.add_channel("a", "A");
    twice.add_channel("a", "A");
    assert_eq!(pairs(&once), pairs(&twice));
}

#[test]
fn add_channel_keeps_api_and_settings() {
    let mut c = config_with(vec![]);
    c.api.client_id = "id".into();
    c.settings.notify_offline = true;
    c.add_channel("a", "A");
    assert_eq!(c.api.client_id, "id");
    assert!(c.settings.notify_offline);
}

#[test]
fn remove_channel_reports_found_and_removes_every_match() {
    let mut c = config_with(vec![channel("a", "A"), channel("b", "B"), channel("a", "A2")]);
    assert!(c.remove_channel("a"));
    assert_eq!(pairs(&c), vec![("b".into(), "B".into())]);
}

#[test]
fn remove_channel_of_unknown_id_changes_nothing() {
    let mut c = config_with(vec![channel("a", "A")]);
    assert!(!c.remove_channel("zzz"));
    assert_eq!(pairs(&c), vec![("a".into(), "A".into())]);
}

#[test]
fn remove_channel_twice_second_finds_nothing() {
    let mut c = config_with(vec![channel("a", "A"), channel("b", "B")]);
    assert!(c.remove_channel("b"));
    assert!(!c.remove_channel("b"));
    assert_eq!(pairs(&c), vec![("a".into(), "A".into())]);
}

#[test]
fn add_then_remove_leaves_others() {
    let mut c = config_with(vec![channel("a", "A"), channel("b", "B")]);
    c.add_channel("n", "N");
    assert!(c.remove_channel("n"));
    assert_eq!(pairs(&c), vec![("a".into(), "A".into()), ("b".into(), "B".into())]);
}

#[test]
fn remove_channel_on_empty_list() {
    let mut c = config_with(vec![]);
    assert!(!c.remove_channel("a"));
    assert!(c.channels.is_empty());
}

#[test]
fn channel_ids_in_order() {
    let c = config_with(vec![channel("b", "B"), channel("a", "A")]);
    assert_eq!(c.channel_ids(), vec!["b".to_string(), "a".to_string()]);
}

#[test]
fn same_texts_compares_order_and_content() {
    let a = vec!["x".to_string(), "y".to_string()];
    let b = vec!["y".to_string(), "x".to_string()];
    assert!(same_texts(&a, &a.clone()));
    assert!(!same_texts(&a, &b));
    assert!(!same_texts(&a, &vec!["x".to_string()]));
}

#[test]
fn config_path_joins_with_separator() {
    assert_eq!(Config::config_path("/home/u/.config/kucheat"), "/home/u/.config/kucheat/config.toml");
    assert_eq!(Config::config_path("/tmp/"), "/tmp/config.toml");
    assert_eq!(Config::config_path(""), "config.toml");
}

#[test]
fn app_dir_is_kucheat_under_base() {
    assert_eq!(Config::app_dir("/home/u/.config"), "/home/u/.config/kucheat");
    assert_eq!(Config::app_dir("/home/u/.local/state/"), "/home/u/.local/state/kucheat");
}
