use vstd::prelude::*;

use crate::overlay::{env_overlay, opt_view, spec_overlay_rel, EnvVar};
use crate::paths::{spec_split, split_bytes, views_of};
use crate::tree::{
    merge_sources, merge_table, spec_lookup, spec_merge_sources, spec_merge_table,
    table_find, ConfigTable, ConfigValue,
};
use vstd::utf8::encode_utf8;

verus! {

/// What the caller asks the loader for: optional primary and secrets
/// files, and the environment prefix and separator convention.
#[derive(Debug, Clone)]
pub struct ConfigurationPreferences {
    pub config_file: Option<String>,
    pub secrets_file: Option<String>,
    pub prefix: Option<String>,
    pub separator: Option<String>,
}

impl Default for ConfigurationPreferences {
    /// No files, no prefix, the default separator.
    fn default() -> (r: ConfigurationPreferences)
        ensures
            r.config_file is None,
            r.secrets_file is None,
            r.prefix is None,
            r.separator is None,
    {
        ConfigurationPreferences {
            config_file: None,
            secrets_file: None,
            prefix: None,
            separator: None,
        }
    }
}

/// Why a typed lookup failed: no node at the path, or a node that does
/// not have the requested shape.
#[derive(Debug, PartialEq, Eq)]
pub enum LookupError {
    NotFound,
    TypeMismatch,
}

/// The dotted-path separator of lookup keys.
pub open spec fn spec_dot() -> Seq<u8> {
    seq![46u8]
}

/// The default environment separator, an underscore.
pub open spec fn spec_underscore() -> Seq<u8> {
    seq![95u8]
}

/// The environment prefix of the preferences, as bytes.
pub open spec fn spec_prefix_bytes(prefs: ConfigurationPreferences) -> Option<Seq<u8>> {
    match prefs.prefix {
        Some(s) => Some(encode_utf8(s@)),
        None => None,
    }
}

/// The environment separator of the preferences, as bytes; an
/// unsupplied or empty separator falls back to the default.
pub open spec fn spec_sep_bytes(prefs: ConfigurationPreferences) -> Seq<u8> {
    match prefs.separator {
        Some(s) => if encode_utf8(s@).len() == 0 {
            spec_underscore()
        } else {
            encode_utf8(s@)
        },
        None => spec_underscore(),
    }
}

/// The path a dotted key denotes: its pieces between the dots.
pub open spec fn spec_key_path(key: Seq<u8>) -> Seq<Seq<u8>> {
    spec_split(key, spec_dot())
}

/// The node a dotted key reaches in a tree.
pub open spec fn spec_key_lookup(root: ConfigTable, key: Seq<u8>) -> Option<ConfigValue> {
    spec_lookup(ConfigValue::Table(root), spec_key_path(key))
}

/// The bytes of a string.
fn string_to_bytes(s: &String) -> (r: Vec<u8>)
    ensures
        r@ == encode_utf8(s@),
{
    vstd::slice::slice_to_vec(s.as_str().as_bytes())
}

/// A one-byte separator vector holding an underscore.
fn underscore_sep() -> (r: Vec<u8>)
    ensures
        r@ == spec_underscore(),
{
    let mut v: Vec<u8> = Vec::new();
    v.push(95u8);
    proof {
        assert(v@ =~= spec_underscore());
    }
    v
}

/// A one-byte separator vector holding a dot.
fn dot_sep() -> (r: Vec<u8>)
    ensures
        r@ == spec_dot(),
{
    let mut v: Vec<u8> = Vec::new();
    v.push(46u8);
    proof {
        assert(v@ =~= spec_dot());
    }
    v
}

/// The node reached by the key path `path[i..]` from `t`.
fn table_lookup<'a>(t: &'a ConfigTable, path: &Vec<Vec<u8>>, i: usize) -> (r: Option<
    &'a ConfigValue,
>)
    requires
        i < path@.len(),
    ensures
        (match r {
            Some(v) => spec_lookup(ConfigValue::Table(*t), views_of(path@).skip(i as int)) == Some(
                *v,
            ),
            None => spec_lookup(ConfigValue::Table(*t), views_of(path@).skip(i as int)) is None,
        }),
    decreases path@.len() - i,
{
    proof {
        assert(views_of(path@).skip(i as int)[0] == path@[i as int]@);
        assert(views_of(path@).skip(i as int).drop_first() =~= views_of(path@).skip(i + 1 as int));
    }
    let n = path.len();
    let key = vstd::slice::slice_index_get(path.as_slice(), i);
    match table_find(t, key) {
        None => None,
        Some(child) => {
            if i + 1 == n {
                proof {
                    assert(views_of(path@).skip(i + 1 as int) =~= Seq::<Seq<u8>>::empty());
                }
                Some(child)
            } else {
                match child {
                    ConfigValue::Table(ct) => table_lookup(ct, path, i + 1),
                    _ => None,
                }
            }
        },
    }
}

/// The merged, read-only configuration tree.
#[derive(Debug, PartialEq, Eq)]
pub struct Configuration {
    pub root: ConfigTable,
}

/// `c` is the configuration the inputs call for: the file sources
/// merged in order, and the environment overlay for the preferences'
/// prefix and separator convention merged on top, with the highest
/// precedence.
pub open spec fn spec_configuration_of(
    prefs: ConfigurationPreferences,
    file_sources: Seq<ConfigTable>,
    env_vars: Seq<EnvVar>,
    c: Configuration,
) -> bool {
    exists|overlay: ConfigTable|
        #[trigger] spec_overlay_rel(
            env_vars,
            spec_prefix_bytes(prefs),
            spec_sep_bytes(prefs),
            overlay,
        ) && c.root == spec_merge_table(spec_merge_sources(file_sources), overlay)
}

/// With no files to load and no environment variables, the
/// configuration is empty, so every lookup fails.
pub proof fn lemma_no_sources_is_empty(prefs: ConfigurationPreferences, c: Configuration)
    requires
        spec_configuration_of(prefs, Seq::empty(), Seq::empty(), c),
    ensures
        c.root == ConfigTable::Empty,
{
    let overlay = choose|overlay: ConfigTable|
        #[trigger] spec_overlay_rel(
            Seq::empty(),
            spec_prefix_bytes(prefs),
            spec_sep_bytes(prefs),
            overlay,
        ) && c.root == spec_merge_table(spec_merge_sources(Seq::empty()), overlay);
    let trace = choose|trace: Seq<ConfigTable>|
        #[trigger] crate::overlay::overlay_trace_ok(
            Seq::empty(),
            spec_prefix_bytes(prefs),
            spec_sep_bytes(prefs),
            trace,
        ) && trace.last() == overlay;
    assert(trace.last() == trace[0]);
    assert(overlay == ConfigTable::Empty);
    assert(c.root == spec_merge_table(ConfigTable::Empty, ConfigTable::Empty));
}

impl Configuration {
    /// Builds the configuration: the parsed file sources (primary
    /// first, secrets second, exactly the files the preferences name)
    /// merged in order, then the environment overlay on top with the
    /// highest precedence, under the preferences' prefix and separator
    /// convention.
    pub fn read_configuration(
        prefs: &ConfigurationPreferences,
        file_sources: Vec<ConfigTable>,
        env_vars: Vec<EnvVar>,
    ) -> (c: Configuration)
        ensures
            spec_configuration_of(*prefs, file_sources@, env_vars@, c),
    {
        let prefix_bytes: Option<Vec<u8>> = match &prefs.prefix {
            Some(s) => Some(string_to_bytes(s)),
            None => None,
        };
        let sep_bytes: Vec<u8> = match &prefs.separator {
            Some(s) => {
                let b = string_to_bytes(s);
                if b.len() == 0 {
                    underscore_sep()
                } else {
                    b
                }
            },
            None => underscore_sep(),
        };
        proof {
            assert(opt_view(prefix_bytes) == spec_prefix_bytes(*prefs));
            assert(sep_bytes@ == spec_sep_bytes(*prefs));
            assert(sep_bytes@.len() >= 1);
        }
        let merged = merge_sources(file_sources);
        let overlay = env_overlay(env_vars, prefix_bytes, sep_bytes);
        let ghost overlay_g = overlay;
        let root = merge_table(merged, overlay);
        proof {
            assert(spec_overlay_rel(
                env_vars@,
                spec_prefix_bytes(*prefs),
                spec_sep_bytes(*prefs),
                overlay_g,
            ));
        }
        Configuration { root }
    }

    /// The string at the dotted key; `NotFound` with no node there,
    /// `TypeMismatch` with a node of another shape.
    pub fn get_value_str(&self, key: &[u8]) -> (r: Result<String, LookupError>)
        ensures
            (match spec_key_lookup(self.root, key@) {
                Some(v) => (match v {
                    ConfigValue::Str(s) => r == Ok::<String, LookupError>(s),
                    _ => r == Err::<String, LookupError>(LookupError::TypeMismatch),
                }),
                None => r == Err::<String, LookupError>(LookupError::NotFound),
            }),
    {
        let sep = dot_sep();
        let path = split_bytes(key, &sep);
        proof {
            assert(views_of(path@).skip(0) =~= views_of(path@));
        }
        match table_lookup(&self.root, &path, 0) {
            None => Err(LookupError::NotFound),
            Some(v) => match v {
                ConfigValue::Str(s) => Ok(s.clone()),
                _ => Err(LookupError::TypeMismatch),
            },
        }
    }

    /// The boolean at the dotted key; `NotFound` with no node there,
    /// `TypeMismatch` with a node of another shape.
    pub fn get_value_bool(&self, key: &[u8]) -> (r: Result<bool, LookupError>)
        ensures
            (match spec_key_lookup(self.root, key@) {
                Some(v) => (match v {
                    ConfigValue::Bool(b) => r == Ok::<bool, LookupError>(b),
                    _ => r == Err::<bool, LookupError>(LookupError::TypeMismatch),
                }),
                None => r == Err::<bool, LookupError>(LookupError::NotFound),
            }),
    {
        let sep = dot_sep();
        let path = split_bytes(key, &sep);
        proof {
            assert(views_of(path@).skip(0) =~= views_of(path@));
        }
        match table_lookup(&self.root, &path, 0) {
            None => Err(LookupError::NotFound),
            Some(v) => match v {
                ConfigValue::Bool(b) => Ok(*b),
                _ => Err(LookupError::TypeMismatch),
            },
        }
    }

    /// The integer at the dotted key; `NotFound` with no node there,
    /// `TypeMismatch` with a node of another shape.
    pub fn get_value_i64(&self, key: &[u8]) -> (r: Result<i64, LookupError>)
        ensures
            (match spec_key_lookup(self.root, key@) {
                Some(v) => (match v {
                    ConfigValue::Int(n) => r == Ok::<i64, LookupError>(n),
                    _ => r == Err::<i64, LookupError>(LookupError::TypeMismatch),
                }),
                None => r == Err::<i64, LookupError>(LookupError::NotFound),
            }),
    {
        let sep = dot_sep();
        let path = split_bytes(key, &sep);
        proof {
            assert(views_of(path@).skip(0) =~= views_of(path@));
        }
        match table_lookup(&self.root, &path, 0) {
            None => Err(LookupError::NotFound),
            Some(v) => match v {
                ConfigValue::Int(n) => Ok(*n),
                _ => Err(LookupError::TypeMismatch),
            },
        }
    }

    /// The nested table at the dotted key, by reference; `NotFound`
    /// with no node there, `TypeMismatch` with a scalar.
    pub fn get_table<'a>(&'a self, key: &[u8]) -> (r: Result<&'a ConfigTable, LookupError>)
        ensures
            (match spec_key_lookup(self.root, key@) {
                Some(v) => (match v {
                    ConfigValue::Table(t) => r matches Ok(rt) && *rt == t,
                    _ => r == Err::<&'a ConfigTable, LookupError>(LookupError::TypeMismatch),
                }),
                None => r == Err::<&'a ConfigTable, LookupError>(LookupError::NotFound),
            }),
    {
        let sep = dot_sep();
        let path = split_bytes(key, &sep);
        proof {
            assert(views_of(path@).skip(0) =~= views_of(path@));
        }
        match table_lookup(&self.root, &path, 0) {
            None => Err(LookupError::NotFound),
            Some(v) => match v {
                ConfigValue::Table(t) => Ok(t),
                _ => Err(LookupError::TypeMismatch),
            },
        }
    }
}

} // verus!
