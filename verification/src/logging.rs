use vstd::prelude::*;

use crate::tree::{find_key, spec_find, ConfigTable, ConfigValue};
use vstd::string::StringExecFns;
use vstd::utf8::{encode_utf8, valid_utf8};

verus! {

/// Bytes in one megabyte, the unit of the rotation size.
pub const MEGA_BYTE: u64 = 1048576;

/// How logging should be set up, extracted from the tree under the
/// top-level key `logging`.
#[derive(Debug, PartialEq, Eq)]
pub struct LoggingConfig {
    pub root_level: String,
    pub log_to_file: bool,
    pub directory: Option<String>,
    pub rotate_size_mb: Option<u32>,
    pub num_keep_files: Option<u16>,
    pub loggers: Option<Vec<(String, String)>>,
}

/// The built-in logging fallback: level `warn`, to the console.
pub open spec fn is_default_logging(lc: LoggingConfig) -> bool {
    &&& lc.root_level@ == "warn"@
    &&& lc.log_to_file == false
    &&& lc.directory is None
    &&& lc.rotate_size_mb is None
    &&& lc.num_keep_files is None
    &&& lc.loggers is None
}

impl Default for LoggingConfig {
    fn default() -> (r: LoggingConfig)
        ensures
            is_default_logging(r),
    {
        LoggingConfig {
            root_level: "warn".to_owned(),
            log_to_file: false,
            directory: None,
            rotate_size_mb: None,
            num_keep_files: None,
            loggers: None,
        }
    }
}

/// The byte key of the logging subtree.
pub open spec fn key_logging() -> Seq<u8> {
    encode_utf8("logging"@)
}

/// `ps` lists the per-logger level overrides of `t`, in `t`'s order,
/// each name decoded from its key's bytes.
pub open spec fn loggers_match(t: ConfigTable, ps: Seq<(String, String)>) -> bool
    decreases t,
{
    match t {
        ConfigTable::Empty => ps.len() == 0,
        ConfigTable::Entry(k, v, rest) => ps.len() >= 1 && encode_utf8(ps[0].0@) == k@ && (match *v {
            ConfigValue::Str(s) => ps[0].1 == s,
            _ => false,
        }) && loggers_match(*rest, ps.drop_first()),
    }
}

/// Every override in `t` is a string under a decodable name.
pub open spec fn loggers_ok(t: ConfigTable) -> bool
    decreases t,
{
    match t {
        ConfigTable::Empty => true,
        ConfigTable::Entry(k, v, rest) => valid_utf8(k@) && (*v) is Str && loggers_ok(*rest),
    }
}

/// The `logging` subtree decodes: required fields present with their
/// types, optional fields absent or of their types.
pub open spec fn logging_table_ok(t: ConfigTable) -> bool {
    &&& spec_find(t, encode_utf8("root_level"@)) matches Some(v) && v is Str
    &&& spec_find(t, encode_utf8("log_to_file"@)) matches Some(v) && v is Bool
    &&& (match spec_find(t, encode_utf8("directory"@)) {
        Some(v) => v is Str,
        None => true,
    })
    &&& (match spec_find(t, encode_utf8("rotate_size_mb"@)) {
        Some(v) => v matches ConfigValue::Int(n) && 0 <= n <= u32::MAX,
        None => true,
    })
    &&& (match spec_find(t, encode_utf8("num_keep_files"@)) {
        Some(v) => v matches ConfigValue::Int(n) && 0 <= n <= u16::MAX,
        None => true,
    })
    &&& (match spec_find(t, encode_utf8("loggers"@)) {
        Some(v) => v matches ConfigValue::Table(lt) && loggers_ok(lt),
        None => true,
    })
}

/// `lc` holds exactly what the `logging` subtree `t` says.
pub open spec fn logging_decode_ok(t: ConfigTable, lc: LoggingConfig) -> bool {
    &&& spec_find(t, encode_utf8("root_level"@)) == Some(ConfigValue::Str(lc.root_level))
    &&& spec_find(t, encode_utf8("log_to_file"@)) == Some(ConfigValue::Bool(lc.log_to_file))
    &&& (match lc.directory {
        Some(d) => spec_find(t, encode_utf8("directory"@)) == Some(ConfigValue::Str(d)),
        None => spec_find(t, encode_utf8("directory"@)) is None,
    })
    &&& (match lc.rotate_size_mb {
        Some(n) => spec_find(t, encode_utf8("rotate_size_mb"@)) == Some(
            ConfigValue::Int(n as i64),
        ),
        None => spec_find(t, encode_utf8("rotate_size_mb"@)) is None,
    })
    &&& (match lc.num_keep_files {
        Some(n) => spec_find(t, encode_utf8("num_keep_files"@)) == Some(
            ConfigValue::Int(n as i64),
        ),
        None => spec_find(t, encode_utf8("num_keep_files"@)) is None,
    })
    &&& (match lc.loggers {
        Some(ps) => spec_find(t, encode_utf8("loggers"@)) matches Some(v) && v matches
            ConfigValue::Table(lt) && loggers_match(lt, ps@),
        None => spec_find(t, encode_utf8("loggers"@)) is None,
    })
}

/// Relies on String::from_utf8: the returned string's UTF-8 encoding is
/// exactly the input bytes; it fails exactly on bytes that are not
/// valid UTF-8.
#[verifier::external_body]
fn bytes_to_string(v: Vec<u8>) -> (r: Option<String>)
    ensures
        (match r {
            Some(s) => encode_utf8(s@) == v@,
            None => !valid_utf8(v@),
        }),
{
    match String::from_utf8(v) {
        Ok(s) => Some(s),
        Err(_) => None,
    }
}

/// A copy of a byte key.
fn bytes_copy(v: &Vec<u8>) -> (r: Vec<u8>)
    ensures
        r@ == v@,
{
    let mut r: Vec<u8> = Vec::new();
    let mut i: usize = 0;
    while i < v.len()
        invariant
            i <= v@.len(),
            r@ == v@.subrange(0, i as int),
        decreases v.len() - i,
    {
        r.push(v[i]);
        proof {
            assert(v@.subrange(0, i + 1 as int) =~= v@.subrange(0, i as int).push(v@[i as int]));
        }
        i += 1;
    }
    proof {
        assert(v@.subrange(0, v@.len() as int) =~= v@);
    }
    r
}

/// The per-logger overrides of `t` as name and level pairs, or `None`
/// where an entry is not a string or its name does not decode.
fn decode_loggers(t: &ConfigTable) -> (r: Option<Vec<(String, String)>>)
    ensures
        (match r {
            Some(ps) => loggers_match(*t, ps@),
            None => !loggers_ok(*t),
        }),
    decreases t,
{
    match t {
        ConfigTable::Empty => Some(Vec::new()),
        ConfigTable::Entry(k, v, rest) => {
            match &**v {
                ConfigValue::Str(s) => {
                    match bytes_to_string(bytes_copy(k)) {
                        Some(name) => {
                            match decode_loggers(&**rest) {
                                Some(mut ps) => {
                                    let pair = (name, s.clone());
                                    let ghost tail = ps@;
                                    ps.insert(0, pair);
                                    proof {
                                        assert(ps@.drop_first() =~= tail);
                                    }
                                    Some(ps)
                                },
                                None => None,
                            }
                        },
                        None => None,
                    }
                },
                _ => None,
            }
        },
    }
}

/// A decoded override list certifies the subtree's shape.
proof fn lemma_loggers_match_ok(t: ConfigTable, ps: Seq<(String, String)>)
    requires
        loggers_match(t, ps),
    ensures
        loggers_ok(t),
    decreases t,
{
    broadcast use vstd::utf8::encode_utf8_valid_utf8;

    match t {
        ConfigTable::Empty => {},
        ConfigTable::Entry(k, v, rest) => {
            lemma_loggers_match_ok(*rest, ps.drop_first());
        },
    }
}

/// Decodes the `logging` subtree `t`; fails exactly where the schema
/// does not fit.
pub fn decode_logging(t: &ConfigTable) -> (r: Option<LoggingConfig>)
    ensures
        r is Some <==> logging_table_ok(*t),
        (r matches Some(lc) ==> logging_decode_ok(*t, lc)),
{
    let root_level: String = match find_key(t, "root_level") {
        Some(ConfigValue::Str(s)) => s.clone(),
        _ => {
            return None;
        },
    };
    let log_to_file: bool = match find_key(t, "log_to_file") {
        Some(ConfigValue::Bool(b)) => *b,
        _ => {
            return None;
        },
    };
    let directory: Option<String> = match find_key(t, "directory") {
        Some(ConfigValue::Str(s)) => Some(s.clone()),
        Some(_) => {
            return None;
        },
        None => None,
    };
    let rotate_size_mb: Option<u32> = match find_key(t, "rotate_size_mb") {
        Some(ConfigValue::Int(n)) => {
            if *n >= 0 && *n <= u32::MAX as i64 {
                Some(*n as u32)
            } else {
                return None;
            }
        },
        Some(_) => {
            return None;
        },
        None => None,
    };
    let num_keep_files: Option<u16> = match find_key(t, "num_keep_files") {
        Some(ConfigValue::Int(n)) => {
            if *n >= 0 && *n <= u16::MAX as i64 {
                Some(*n as u16)
            } else {
                return None;
            }
        },
        Some(_) => {
            return None;
        },
        None => None,
    };
    let loggers: Option<Vec<(String, String)>> = match find_key(t, "loggers") {
        Some(ConfigValue::Table(lt)) => {
            match decode_loggers(lt) {
                Some(ps) => {
                    proof {
                        lemma_loggers_match_ok(*lt, ps@);
                    }
                    Some(ps)
                },
                None => {
                    return None;
                },
            }
        },
        Some(_) => {
            return None;
        },
        None => None,
    };
    Some(
        LoggingConfig {
            root_level,
            log_to_file,
            directory,
            rotate_size_mb,
            num_keep_files,
            loggers,
        },
    )
}

/// The level line handed to the logger: the root level, then each
/// override as `, name=level` in order.
pub open spec fn spec_log_line(root: Seq<char>, loggers: Seq<(String, String)>) -> Seq<char>
    decreases loggers.len(),
{
    if loggers.len() == 0 {
        root
    } else {
        spec_log_line(root, loggers.drop_last()) + ", "@ + loggers.last().0@ + "="@
            + loggers.last().1@
    }
}

/// The override pairs of an optional list.
pub open spec fn opt_pairs(o: Option<Vec<(String, String)>>) -> Seq<(String, String)> {
    match o {
        Some(v) => v@,
        None => Seq::empty(),
    }
}

/// Builds the level line for a configuration.
fn build_log_line(root_level: &String, loggers: &Option<Vec<(String, String)>>) -> (r: String)
    ensures
        r@ == spec_log_line(root_level@, opt_pairs(*loggers)),
{
    let mut acc = root_level.clone();
    match loggers {
        None => acc,
        Some(v) => {
            let mut i: usize = 0;
            while i < v.len()
                invariant
                    i <= v@.len(),
                    acc@ == spec_log_line(root_level@, v@.take(i as int)),
                decreases v.len() - i,
            {
                let pair = vstd::slice::slice_index_get(v.as_slice(), i);
                acc.append(", ");
                acc.append(pair.0.as_str());
                acc.append("=");
                acc.append(pair.1.as_str());
                proof {
                    assert(v@.take(i + 1 as int).drop_last() =~= v@.take(i as int));
                    assert(v@.take(i + 1 as int).last() == v@[i as int]);
                }
                i += 1;
            }
            proof {
                assert(v@.take(v@.len() as int) =~= v@);
            }
            acc
        },
    }
}

/// A fatal startup fault.
#[derive(Debug, PartialEq, Eq)]
pub enum StartupError {
    MissingLogDirectory,
}

/// Where rotated log files go and when they rotate.
#[derive(Debug, PartialEq, Eq)]
pub struct FileLogPlan {
    pub directory: String,
    pub rotate_bytes: u64,
    pub keep_files: usize,
}

/// Everything the logger is started with: the level line, and the file
/// plan when logging to a file.
#[derive(Debug, PartialEq, Eq)]
pub struct LogPlan {
    pub levels: String,
    pub file: Option<FileLogPlan>,
}

/// The rotation size in bytes: the configured megabytes, one by
/// default.
pub open spec fn spec_rotate_bytes(o: Option<u32>) -> int {
    match o {
        Some(n) => n * (MEGA_BYTE as int),
        None => MEGA_BYTE as int,
    }
}

/// How many rotated files are kept: as configured, five by default.
pub open spec fn spec_keep_files(o: Option<u16>) -> int {
    match o {
        Some(n) => n as int,
        None => 5,
    }
}

/// `p` is the plan that `cfg` calls for.
pub open spec fn log_plan_ok(cfg: LoggingConfig, p: LogPlan) -> bool {
    &&& p.levels@ == spec_log_line(cfg.root_level@, opt_pairs(cfg.loggers))
    &&& (match p.file {
        Some(f) => cfg.log_to_file && cfg.directory == Some(f.directory) && f.rotate_bytes
            == spec_rotate_bytes(cfg.rotate_size_mb) && f.keep_files == spec_keep_files(
            cfg.num_keep_files,
        ),
        None => !cfg.log_to_file,
    })
}

/// Turns a logging configuration into a start plan. Logging to a file
/// without a directory is a fatal startup error.
pub fn logging_plan(config: &LoggingConfig) -> (r: Result<LogPlan, StartupError>)
    ensures
        r is Err <==> config.log_to_file && config.directory is None,
        r == Err::<LogPlan, StartupError>(StartupError::MissingLogDirectory) <==> (
        config.log_to_file && config.directory is None),
        (r matches Ok(p) ==> log_plan_ok(*config, p)),
{
    let levels = build_log_line(&config.root_level, &config.loggers);
    if config.log_to_file {
        let directory: String = match &config.directory {
            Some(d) => d.clone(),
            None => {
                return Err(StartupError::MissingLogDirectory);
            },
        };
        let rotate_bytes: u64 = match &config.rotate_size_mb {
            Some(n) => (*n as u64) * MEGA_BYTE,
            None => MEGA_BYTE,
        };
        let keep_files: usize = match &config.num_keep_files {
            Some(n) => *n as usize,
            None => 5,
        };
        Ok(LogPlan { levels, file: Some(FileLogPlan { directory, rotate_bytes, keep_files }) })
    } else {
        Ok(LogPlan { levels, file: None })
    }
}

} // verus!
