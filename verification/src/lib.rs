pub mod configuration;
pub mod logging;
pub mod monitoring;
pub mod overlay;
pub mod paths;
pub mod tree;

pub use configuration::{Configuration, ConfigurationPreferences, LookupError};
pub use logging::{LogPlan, LoggingConfig, StartupError};
pub use monitoring::{BeaconPlan, BeaconRoute, HttpReply, MonitoringConfig};
pub use overlay::EnvVar;
pub use tree::{ConfigTable, ConfigValue};

use vstd::prelude::*;

use crate::configuration::spec_configuration_of;
use crate::logging::{
    decode_logging, is_default_logging, key_logging, log_plan_ok, logging_decode_ok, logging_plan,
    logging_table_ok,
};
use crate::monitoring::{
    beacon_plan, beacon_plan_ok, decode_monitoring, is_default_monitoring, key_monitoring,
    monitoring_decode_ok, monitoring_table_ok,
};
use crate::tree::{find_key, spec_find};

verus! {

/// Collects what the application starts with: configuration
/// preferences and explicit logging and monitoring configurations.
pub struct ApplicationBuilder {
    pub config_prefs: ConfigurationPreferences,
    pub logging_config: LoggingConfig,
    pub monitoring_config: MonitoringConfig,
}

impl ApplicationBuilder {
    /// A builder with every part at its built-in default.
    pub fn default() -> (b: ApplicationBuilder)
        ensures
            b.config_prefs.config_file is None,
            b.config_prefs.secrets_file is None,
            b.config_prefs.prefix is None,
            b.config_prefs.separator is None,
            is_default_logging(b.logging_config),
            is_default_monitoring(b.monitoring_config),
    {
        ApplicationBuilder {
            config_prefs: Default::default(),
            logging_config: Default::default(),
            monitoring_config: Default::default(),
        }
    }

    /// The builder with its configuration preferences replaced.
    pub fn with_config_preferences(self, config_prefs: ConfigurationPreferences) -> (b:
        ApplicationBuilder)
        ensures
            b.config_prefs == config_prefs,
            b.logging_config == self.logging_config,
            b.monitoring_config == self.monitoring_config,
    {
        ApplicationBuilder {
            config_prefs,
            logging_config: self.logging_config,
            monitoring_config: self.monitoring_config,
        }
    }

    /// The builder with its logging configuration replaced.
    pub fn with_logging_config(self, logging_config: LoggingConfig) -> (b: ApplicationBuilder)
        ensures
            b.config_prefs == self.config_prefs,
            b.logging_config == logging_config,
            b.monitoring_config == self.monitoring_config,
    {
        ApplicationBuilder {
            config_prefs: self.config_prefs,
            logging_config,
            monitoring_config: self.monitoring_config,
        }
    }

    /// The builder with its monitoring configuration replaced.
    pub fn with_monitoring_config(self, monitoring_config: MonitoringConfig) -> (b:
        ApplicationBuilder)
        ensures
            b.config_prefs == self.config_prefs,
            b.logging_config == self.logging_config,
            b.monitoring_config == monitoring_config,
    {
        ApplicationBuilder {
            config_prefs: self.config_prefs,
            logging_config: self.logging_config,
            monitoring_config,
        }
    }

    /// Assembles the application: merges the parsed file sources and
    /// the environment overlay into a configuration, and lays out the
    /// logging and beacon start plans from the builder's own
    /// configurations. Fails exactly where file logging is asked for
    /// without a directory.
    pub fn build(self, file_sources: Vec<ConfigTable>, env_vars: Vec<EnvVar>) -> (r: Result<
        (Application, LogPlan, Option<BeaconPlan>),
        StartupError,
    >)
        ensures
            r is Err <==> self.logging_config.log_to_file && self.logging_config.directory
                is None,
            (r matches Ok(t) ==> spec_configuration_of(
                self.config_prefs,
                file_sources@,
                env_vars@,
                t.0.configuration,
            ) && log_plan_ok(self.logging_config, t.1) && beacon_plan_ok(
                self.monitoring_config,
                t.2,
            )),
    {
        let configuration = Configuration::read_configuration(
            &self.config_prefs,
            file_sources,
            env_vars,
        );
        let plan = match logging_plan(&self.logging_config) {
            Ok(p) => p,
            Err(e) => {
                return Err(e);
            },
        };
        let beacon = beacon_plan(&self.monitoring_config);
        Ok((Application { configuration }, plan, beacon))
    }
}

/// What a host process may ask of a running facility.
pub trait LifeCycle {
    fn shutdown(&self);
}

/// The handle the bootstrap returns: the merged configuration, kept
/// for later queries.
pub struct Application {
    pub configuration: Configuration,
}

/// The logging sub-configuration under the top-level key `logging`,
/// or the built-in default wherever extraction fails.
pub fn logging_config_or_default(c: &Configuration) -> (lc: LoggingConfig)
    ensures
        (match spec_find(c.root, key_logging()) {
            Some(v) => (match v {
                ConfigValue::Table(t) => if logging_table_ok(t) {
                    logging_decode_ok(t, lc)
                } else {
                    is_default_logging(lc)
                },
                _ => is_default_logging(lc),
            }),
            None => is_default_logging(lc),
        }),
{
    match find_key(&c.root, "logging") {
        Some(ConfigValue::Table(t)) => match decode_logging(t) {
            Some(lc) => lc,
            None => Default::default(),
        },
        _ => Default::default(),
    }
}

/// The monitoring sub-configuration under the top-level key
/// `monitoring`, or the built-in default wherever extraction fails.
pub fn monitoring_config_or_default(c: &Configuration) -> (mc: MonitoringConfig)
    ensures
        (match spec_find(c.root, key_monitoring()) {
            Some(v) => (match v {
                ConfigValue::Table(t) => if monitoring_table_ok(t) {
                    monitoring_decode_ok(t, mc)
                } else {
                    is_default_monitoring(mc)
                },
                _ => is_default_monitoring(mc),
            }),
            None => is_default_monitoring(mc),
        }),
{
    match find_key(&c.root, "monitoring") {
        Some(ConfigValue::Table(t)) => match decode_monitoring(t) {
            Some(mc) => mc,
            None => Default::default(),
        },
        _ => Default::default(),
    }
}

} // verus!
