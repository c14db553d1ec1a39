use twelve_factor::{
    ConfigTable, ConfigValue, Configuration, ConfigurationPreferences, EnvVar, LookupError,
};

fn key(s: &str) -> Vec<u8> {
    s.as_bytes().to_vec()
}

fn entry(name: &str, value: ConfigValue, rest: ConfigTable) -> ConfigTable {
    ConfigTable::Entry(key(name), Box::new(value), Box::new(rest))
}

fn single(name: &str, value: ConfigValue) -> ConfigTable {
    entry(name, value, ConfigTable::Empty)
}

fn read(sources: Vec<ConfigTable>, env: Vec<EnvVar>) -> Configuration {
    let prefs = ConfigurationPreferences::default();
    Configuration::read_configuration(&prefs, sources, env)
}

#[test]
fn nested_objects_merge_key_by_key() {
    // {a: {x: 1}} merged with {a: {y: 2}} keeps both inner keys.
    let first = single("a", ConfigValue::Table(single("x", ConfigValue::Int(1))));
    let second = single("a", ConfigValue::Table(single("y", ConfigValue::Int(2))));
    let c = read(vec![first, second], vec![]);
    assert_eq!(c.get_value_i64(b"a.x"), Ok(1));
    assert_eq!(c.get_value_i64(b"a.y"), Ok(2));
}

#[test]
fn scalar_replaces_whole_subtree() {
    // {a: {x: 1}} merged with {a: "replaced"} drops the subtree.
    let first = single("a", ConfigValue::Table(single("x", ConfigValue::Int(1))));
    let second = single("a", ConfigValue::Str("replaced".to_string()));
    let c = read(vec![first, second], vec![]);
    assert_eq!(c.get_value_str(b"a"), Ok("replaced".to_string()));
    assert_eq!(c.get_value_i64(b"a.x"), Err(LookupError::NotFound));
}

#[test]
fn secrets_file_overrides_primary() {
    let primary = entry(
        "token",
        ConfigValue::Str("from-config".to_string()),
        single("kept", ConfigValue::Str("stays".to_string())),
    );
    let secrets = single("token", ConfigValue::Str("from-secrets".to_string()));
    let c = read(vec![primary, secrets], vec![]);
    assert_eq!(c.get_value_str(b"token"), Ok("from-secrets".to_string()));
    assert_eq!(c.get_value_str(b"kept"), Ok("stays".to_string()));
}

#[test]
fn environment_overrides_files() {
    let primary = single(
        "logging",
        ConfigValue::Table(single("level", ConfigValue::Str("info".to_string()))),
    );
    let env = vec![EnvVar { name: key("logging_level"), value: "debug".to_string() }];
    let c = read(vec![primary], env);
    assert_eq!(c.get_value_str(b"logging.level"), Ok("debug".to_string()));
}

#[test]
fn environment_prefix_selects_variables() {
    let env = vec![
        EnvVar { name: key("app_db_host"), value: "inside".to_string() },
        EnvVar { name: key("other_db_host"), value: "outside".to_string() },
    ];
    let prefs = ConfigurationPreferences {
        config_file: None,
        secrets_file: None,
        prefix: Some("app".to_string()),
        separator: None,
    };
    let c = Configuration::read_configuration(&prefs, vec![], env);
    assert_eq!(c.get_value_str(b"db.host"), Ok("inside".to_string()));
    assert_eq!(c.get_value_str(b"other.db.host"), Err(LookupError::NotFound));
}

#[test]
fn custom_separator_splits_paths() {
    let env = vec![EnvVar { name: key("app__db__port"), value: "5432".to_string() }];
    let prefs = ConfigurationPreferences {
        config_file: None,
        secrets_file: None,
        prefix: Some("app".to_string()),
        separator: Some("__".to_string()),
    };
    let c = Configuration::read_configuration(&prefs, vec![], env);
    assert_eq!(c.get_value_str(b"db.port"), Ok("5432".to_string()));
}

#[test]
fn later_environment_variable_wins() {
    let env = vec![
        EnvVar { name: key("flag"), value: "first".to_string() },
        EnvVar { name: key("flag"), value: "second".to_string() },
    ];
    let c = read(vec![], env);
    assert_eq!(c.get_value_str(b"flag"), Ok("second".to_string()));
}

#[test]
fn merging_is_deterministic() {
    let build = || {
        let primary = entry(
            "a",
            ConfigValue::Table(single("x", ConfigValue::Int(1))),
            single("b", ConfigValue::Bool(true)),
        );
        let secrets = single("a", ConfigValue::Table(single("y", ConfigValue::Int(2))));
        let env = vec![EnvVar { name: key("a_z"), value: "3".to_string() }];
        read(vec![primary, secrets], env)
    };
    assert_eq!(build(), build());
}
