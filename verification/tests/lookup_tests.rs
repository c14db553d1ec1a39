use twelve_factor::{
    logging_config_or_default, monitoring_config_or_default, ConfigTable, ConfigValue,
    Configuration, ConfigurationPreferences, EnvVar, LookupError,
};

fn key(s: &str) -> Vec<u8> {
    s.as_bytes().to_vec()
}

fn single(name: &str, value: ConfigValue) -> ConfigTable {
    ConfigTable::Entry(key(name), Box::new(value), Box::new(ConfigTable::Empty))
}

fn empty_configuration() -> Configuration {
    let prefs = ConfigurationPreferences::default();
    Configuration::read_configuration(&prefs, vec![], Vec::<EnvVar>::new())
}

#[test]
fn missing_key_is_not_found() {
    let c = empty_configuration();
    assert_eq!(c.get_value_str(b"logging.level"), Err(LookupError::NotFound));
    assert_eq!(c.get_value_bool(b"anything"), Err(LookupError::NotFound));
    assert_eq!(c.get_value_i64(b"a.b.c"), Err(LookupError::NotFound));
}

#[test]
fn wrong_shape_is_type_mismatch() {
    let prefs = ConfigurationPreferences::default();
    let source = single("flag", ConfigValue::Str("yes".to_string()));
    let c = Configuration::read_configuration(&prefs, vec![source], vec![]);
    assert_eq!(c.get_value_bool(b"flag"), Err(LookupError::TypeMismatch));
    assert_eq!(c.get_value_str(b"flag"), Ok("yes".to_string()));
}

#[test]
fn table_node_mismatches_scalar_requests() {
    let prefs = ConfigurationPreferences::default();
    let source = single("section", ConfigValue::Table(single("x", ConfigValue::Int(1))));
    let c = Configuration::read_configuration(&prefs, vec![source], vec![]);
    assert_eq!(c.get_value_bool(b"section"), Err(LookupError::TypeMismatch));
    assert_eq!(c.get_value_str(b"section"), Err(LookupError::TypeMismatch));
    assert!(c.get_table(b"section").is_ok());
    assert_eq!(c.get_table(b"section.x"), Err(LookupError::TypeMismatch));
    assert_eq!(c.get_table(b"absent"), Err(LookupError::NotFound));
}

#[test]
fn empty_sources_fall_back_to_defaults() {
    let c = empty_configuration();
    let lc = logging_config_or_default(&c);
    assert_eq!(lc.root_level, "warn".to_string());
    assert!(!lc.log_to_file);
    assert_eq!(lc.directory, None);
    assert_eq!(lc.rotate_size_mb, None);
    assert_eq!(lc.num_keep_files, None);
    assert!(lc.loggers.is_none());
    let mc = monitoring_config_or_default(&c);
    assert!(mc.enabled);
    assert_eq!(mc.bind_addr, "0.0.0.0".to_string());
    assert_eq!(mc.bind_port, "9080".to_string());
}

#[test]
fn malformed_subconfig_falls_back_to_defaults() {
    let prefs = ConfigurationPreferences::default();
    // `logging` is present but `root_level` holds a boolean.
    let source = single(
        "logging",
        ConfigValue::Table(single("root_level", ConfigValue::Bool(true))),
    );
    let c = Configuration::read_configuration(&prefs, vec![source], vec![]);
    let lc = logging_config_or_default(&c);
    assert_eq!(lc.root_level, "warn".to_string());
    assert!(!lc.log_to_file);
}

#[test]
fn well_formed_subconfigs_decode() {
    let prefs = ConfigurationPreferences::default();
    let logging_table = ConfigTable::Entry(
        key("root_level"),
        Box::new(ConfigValue::Str("info".to_string())),
        Box::new(ConfigTable::Entry(
            key("log_to_file"),
            Box::new(ConfigValue::Bool(false)),
            Box::new(ConfigTable::Empty),
        )),
    );
    let monitoring_table = ConfigTable::Entry(
        key("enabled"),
        Box::new(ConfigValue::Bool(false)),
        Box::new(ConfigTable::Entry(
            key("bind_addr"),
            Box::new(ConfigValue::Str("127.0.0.1".to_string())),
            Box::new(ConfigTable::Entry(
                key("bind_port"),
                Box::new(ConfigValue::Str("9999".to_string())),
                Box::new(ConfigTable::Empty),
            )),
        )),
    );
    let source = ConfigTable::Entry(
        key("logging"),
        Box::new(ConfigValue::Table(logging_table)),
        Box::new(ConfigTable::Entry(
            key("monitoring"),
            Box::new(ConfigValue::Table(monitoring_table)),
            Box::new(ConfigTable::Empty),
        )),
    );
    let c = Configuration::read_configuration(&prefs, vec![source], vec![]);
    let lc = logging_config_or_default(&c);
    assert_eq!(lc.root_level, "info".to_string());
    assert!(!lc.log_to_file);
    let mc = monitoring_config_or_default(&c);
    assert!(!mc.enabled);
    assert_eq!(mc.bind_addr, "127.0.0.1".to_string());
    assert_eq!(mc.bind_port, "9999".to_string());
}
