use vstd::prelude::*;

use vstd::utf8::encode_utf8;

verus! {

/// One node of a configuration tree: a scalar, or a nested table of
/// further nodes. Values are stored untyped and converted on lookup.
#[derive(Debug, PartialEq, Eq)]
pub enum ConfigValue {
    Str(String),
    Bool(bool),
    Int(i64),
    Table(ConfigTable),
}

/// A table: an association list from byte-string keys to values, in
/// insertion order. Later sources are merged into it key by key.
#[derive(Debug, PartialEq, Eq)]
pub enum ConfigTable {
    Empty,
    Entry(Vec<u8>, Box<ConfigValue>, Box<ConfigTable>),
}

impl ConfigValue {
    /// The nested table of a `Table` node; an empty table for scalars.
    pub open spec fn spec_table(self) -> ConfigTable {
        match self {
            ConfigValue::Table(t) => t,
            _ => ConfigTable::Empty,
        }
    }
}

/// The value stored under `key`, taking the first entry with that key.
pub open spec fn spec_find(t: ConfigTable, key: Seq<u8>) -> Option<ConfigValue>
    decreases t,
{
    match t {
        ConfigTable::Empty => None,
        ConfigTable::Entry(k, v, rest) => if k@ == key {
            Some(*v)
        } else {
            spec_find(*rest, key)
        },
    }
}

/// `t` with the first entry keyed `key` removed, if there is one.
pub open spec fn spec_remove(t: ConfigTable, key: Seq<u8>) -> ConfigTable
    decreases t,
{
    match t {
        ConfigTable::Empty => ConfigTable::Empty,
        ConfigTable::Entry(k, v, rest) => if k@ == key {
            *rest
        } else {
            ConfigTable::Entry(k, v, Box::new(spec_remove(*rest, key)))
        },
    }
}

/// How a later source's value `b` overrides an earlier `a` at one key:
/// two tables merge recursively; anything else is replaced by `b`.
pub open spec fn spec_merge_value(a: ConfigValue, b: ConfigValue) -> ConfigValue
    decreases a,
{
    match (a, b) {
        (ConfigValue::Table(ta), ConfigValue::Table(tb)) => ConfigValue::Table(
            spec_merge_table(ta, tb),
        ),
        _ => b,
    }
}

/// Merge of two tables. Keys of `a` keep their order, each merged with
/// `b`'s value for that key if any; keys found only in `b` follow, in
/// `b`'s order.
pub open spec fn spec_merge_table(a: ConfigTable, b: ConfigTable) -> ConfigTable
    decreases a,
{
    match a {
        ConfigTable::Empty => b,
        ConfigTable::Entry(k, v, rest) => {
            let merged = match spec_find(b, k@) {
                Some(bv) => spec_merge_value(*v, bv),
                None => *v,
            };
            ConfigTable::Entry(
                k,
                Box::new(merged),
                Box::new(spec_merge_table(*rest, spec_remove(b, k@))),
            )
        },
    }
}

/// Left-to-right merge of an ordered list of sources; later sources
/// take precedence.
pub open spec fn spec_merge_sources(sources: Seq<ConfigTable>) -> ConfigTable
    decreases sources.len(),
{
    if sources.len() == 0 {
        ConfigTable::Empty
    } else {
        spec_merge_table(spec_merge_sources(sources.drop_last()), sources.last())
    }
}

/// The node reached from `v` by the path of keys `path`, descending
/// through nested tables.
pub open spec fn spec_lookup(v: ConfigValue, path: Seq<Seq<u8>>) -> Option<ConfigValue>
    decreases path.len(),
{
    if path.len() == 0 {
        Some(v)
    } else {
        match v {
            ConfigValue::Table(t) => match spec_find(t, path[0]) {
                Some(child) => spec_lookup(child, path.drop_first()),
                None => None,
            },
            _ => None,
        }
    }
}

/// What a lookup finds in the merge of `a` and `b` at `key`: `b`'s
/// value combined with `a`'s where both have one, else whichever side
/// has one.
pub open spec fn spec_merged_find(a: ConfigTable, b: ConfigTable, key: Seq<u8>) -> Option<
    ConfigValue,
> {
    match spec_find(b, key) {
        Some(bv) => match spec_find(a, key) {
            Some(av) => Some(spec_merge_value(av, bv)),
            None => Some(bv),
        },
        None => spec_find(a, key),
    }
}

/// Byte-string equality of two keys.
pub fn bytes_eq(a: &Vec<u8>, b: &Vec<u8>) -> (r: bool)
    ensures
        r == (a@ == b@),
{
    if a.len() != b.len() {
        assert(a@ != b@);
        return false;
    }
    let mut i: usize = 0;
    while i < a.len()
        invariant
            i <= a.len(),
            a@.len() == b@.len(),
            forall|j: int| 0 <= j < i ==> a@[j] == b@[j],
        decreases a.len() - i,
    {
        if a[i] != b[i] {
            return false;
        }
        i += 1;
    }
    proof {
        assert(a@ =~= b@);
    }
    true
}

/// Removes the first entry keyed `key` from `t`, handing back its value
/// and the remainder of the table.
pub fn table_take(t: ConfigTable, key: &Vec<u8>) -> (r: (Option<ConfigValue>, ConfigTable))
    ensures
        r.0 == spec_find(t, key@),
        r.1 == spec_remove(t, key@),
    decreases t,
{
    match t {
        ConfigTable::Empty => (None, ConfigTable::Empty),
        ConfigTable::Entry(k, v, rest) => {
            if bytes_eq(&k, key) {
                (Some(*v), *rest)
            } else {
                let (found, removed) = table_take(*rest, key);
                (found, ConfigTable::Entry(k, v, Box::new(removed)))
            }
        },
    }
}

/// The value stored under `key`, if any.
pub fn table_find<'a>(t: &'a ConfigTable, key: &Vec<u8>) -> (r: Option<&'a ConfigValue>)
    ensures
        match r {
            Some(v) => spec_find(*t, key@) == Some(*v),
            None => spec_find(*t, key@) is None,
        },
    decreases t,
{
    match t {
        ConfigTable::Empty => None,
        ConfigTable::Entry(k, v, rest) => {
            if bytes_eq(k, key) {
                Some(&**v)
            } else {
                table_find(&**rest, key)
            }
        },
    }
}

/// The value stored under the key named by the string literal.
pub fn find_key<'a>(t: &'a ConfigTable, name: &str) -> (r: Option<&'a ConfigValue>)
    ensures
        (match r {
            Some(v) => spec_find(*t, encode_utf8(name@)) == Some(*v),
            None => spec_find(*t, encode_utf8(name@)) is None,
        }),
{
    let k = vstd::slice::slice_to_vec(name.as_bytes());
    table_find(t, &k)
}

/// Merge of two nodes: `b` overrides `a`, recursively for two tables.
pub fn merge_value(a: ConfigValue, b: ConfigValue) -> (r: ConfigValue)
    ensures
        r == spec_merge_value(a, b),
    decreases a,
{
    match (a, b) {
        (ConfigValue::Table(ta), ConfigValue::Table(tb)) => ConfigValue::Table(
            merge_table(ta, tb),
        ),
        (_, other) => other,
    }
}

/// Merge of two tables, `b` taking precedence key by key.
pub fn merge_table(a: ConfigTable, b: ConfigTable) -> (r: ConfigTable)
    ensures
        r == spec_merge_table(a, b),
    decreases a,
{
    match a {
        ConfigTable::Empty => b,
        ConfigTable::Entry(k, v, rest) => {
            let (found, b_rest) = table_take(b, &k);
            let merged = match found {
                Some(bv) => merge_value(*v, bv),
                None => *v,
            };
            let tail = merge_table(*rest, b_rest);
            ConfigTable::Entry(k, Box::new(merged), Box::new(tail))
        },
    }
}

/// Left-to-right merge of an ordered list of source tables.
pub fn merge_sources(sources: Vec<ConfigTable>) -> (r: ConfigTable)
    ensures
        r == spec_merge_sources(sources@),
{
    let ghost all = sources@;
    let mut rest = sources;
    let mut acc = ConfigTable::Empty;
    while rest.len() > 0
        invariant
            rest@.len() <= all.len(),
            rest@ == all.skip(all.len() - rest@.len()),
            acc == spec_merge_sources(all.take(all.len() - rest@.len())),
        decreases rest.len(),
    {
        let ghost done = all.len() - rest@.len();
        let t = rest.remove(0);
        acc = merge_table(acc, t);
        proof {
            assert(all.take(done + 1).drop_last() =~= all.take(done));
            assert(all.take(done + 1).last() == all[done]);
            assert(rest@ =~= all.skip(all.len() - rest@.len()));
        }
    }
    proof {
        assert(all.take(all.len() as int) =~= all);
    }
    acc
}

/// Removing one key leaves lookups of every other key unchanged.
pub proof fn lemma_find_remove(t: ConfigTable, removed: Seq<u8>, key: Seq<u8>)
    requires
        removed != key,
    ensures
        spec_find(spec_remove(t, removed), key) == spec_find(t, key),
    decreases t,
{
    match t {
        ConfigTable::Empty => {},
        ConfigTable::Entry(k, v, rest) => {
            lemma_find_remove(*rest, removed, key);
        },
    }
}

/// What any single key resolves to after a merge: the later source's
/// value, combined with the earlier one's where both are present.
pub proof fn lemma_merge_find(a: ConfigTable, b: ConfigTable, key: Seq<u8>)
    ensures
        spec_find(spec_merge_table(a, b), key) == spec_merged_find(a, b, key),
    decreases a,
{
    match a {
        ConfigTable::Empty => {},
        ConfigTable::Entry(k, v, rest) => {
            if k@ == key {
            } else {
                lemma_merge_find(*rest, spec_remove(b, k@), key);
                lemma_find_remove(b, k@, key);
            }
        },
    }
}

/// The table held by an optional node; empty for anything else.
pub open spec fn spec_opt_table(o: Option<ConfigValue>) -> ConfigTable {
    match o {
        Some(v) => v.spec_table(),
        None => ConfigTable::Empty,
    }
}

/// Precedence and scalar override: a later source's scalar at any path
/// replaces whatever the earlier source had there, an entire subtree
/// included.
pub proof fn lemma_path_override(a: ConfigValue, b: ConfigValue, path: Seq<Seq<u8>>)
    requires
        spec_lookup(b, path) matches Some(bv) && !(bv is Table),
    ensures
        spec_lookup(spec_merge_value(a, b), path) == spec_lookup(b, path),
    decreases path.len(),
{
    if path.len() == 0 {
    } else {
        match (a, b) {
            (ConfigValue::Table(ta), ConfigValue::Table(tb)) => {
                lemma_merge_find(ta, tb, path[0]);
                match spec_find(tb, path[0]) {
                    Some(child_b) => {
                        match spec_find(ta, path[0]) {
                            Some(child_a) => {
                                lemma_path_override(child_a, child_b, path.drop_first());
                            },
                            None => {},
                        }
                    },
                    None => {},
                }
            },
            _ => {},
        }
    }
}

/// Nested-object merge: where both sources hold a table at the same
/// path, the merged tree holds their key-by-key merge there, not a
/// wholesale replacement.
pub proof fn lemma_path_nested_merge(a: ConfigValue, b: ConfigValue, path: Seq<Seq<u8>>)
    requires
        spec_lookup(a, path) matches Some(av) && av is Table,
        spec_lookup(b, path) matches Some(bv) && bv is Table,
    ensures
        spec_lookup(spec_merge_value(a, b), path) == Some(
            ConfigValue::Table(
                spec_merge_table(
                    spec_opt_table(spec_lookup(a, path)),
                    spec_opt_table(spec_lookup(b, path)),
                ),
            ),
        ),
    decreases path.len(),
{
    if path.len() == 0 {
    } else {
        match (a, b) {
            (ConfigValue::Table(ta), ConfigValue::Table(tb)) => {
                lemma_merge_find(ta, tb, path[0]);
                match (spec_find(ta, path[0]), spec_find(tb, path[0])) {
                    (Some(child_a), Some(child_b)) => {
                        lemma_path_nested_merge(child_a, child_b, path.drop_first());
                    },
                    _ => {},
                }
            },
            _ => {},
        }
    }
}

/// Precedence between two source tables, at any depth: where the later
/// table holds a scalar, the merged table holds exactly that scalar.
pub proof fn lemma_table_scalar_override(a: ConfigTable, b: ConfigTable, path: Seq<Seq<u8>>)
    requires
        spec_lookup(ConfigValue::Table(b), path) matches Some(bv) && !(bv is Table),
    ensures
        spec_lookup(ConfigValue::Table(spec_merge_table(a, b)), path) == spec_lookup(
            ConfigValue::Table(b),
            path,
        ),
{
    lemma_path_override(ConfigValue::Table(a), ConfigValue::Table(b), path);
}

/// Precedence of the secrets file over the primary file: a scalar the
/// secrets source holds at any path is what the merged configuration
/// resolves to there.
pub proof fn lemma_secrets_precedence(primary: ConfigTable, secrets: ConfigTable, path: Seq<Seq<u8>>)
    requires
        spec_lookup(ConfigValue::Table(secrets), path) matches Some(bv) && !(bv is Table),
    ensures
        spec_lookup(
            ConfigValue::Table(spec_merge_sources(seq![primary, secrets])),
            path,
        ) == spec_lookup(ConfigValue::Table(secrets), path),
{
    let sources = seq![primary, secrets];
    assert(sources.drop_last() =~= seq![primary]);
    assert(seq![primary].drop_last() =~= Seq::<ConfigTable>::empty());
    assert(seq![primary].last() == primary);
    assert(spec_merge_sources(Seq::<ConfigTable>::empty()) == ConfigTable::Empty);
    assert(spec_merge_sources(seq![primary]) == spec_merge_table(ConfigTable::Empty, primary));
    lemma_table_scalar_override(spec_merge_sources(sources.drop_last()), secrets, path);
}

/// Precedence of the environment: a scalar the overlay holds at any
/// path is what the full configuration resolves to there, whatever the
/// merged files held.
pub proof fn lemma_environment_precedence(
    files: ConfigTable,
    overlay: ConfigTable,
    path: Seq<Seq<u8>>,
)
    requires
        spec_lookup(ConfigValue::Table(overlay), path) matches Some(bv) && !(bv is Table),
    ensures
        spec_lookup(ConfigValue::Table(spec_merge_table(files, overlay)), path) == spec_lookup(
            ConfigValue::Table(overlay),
            path,
        ),
{
    lemma_table_scalar_override(files, overlay, path);
}

/// Merging is deterministic: the same ordered sources give the same
/// tree, run after run.
pub proof fn lemma_merge_deterministic(s1: Seq<ConfigTable>, s2: Seq<ConfigTable>)
    requires
        s1 == s2,
    ensures
        spec_merge_sources(s1) == spec_merge_sources(s2),
{
}

/// With nothing loaded and nothing overlaid, every lookup fails.
pub proof fn lemma_empty_lookup(path: Seq<Seq<u8>>)
    requires
        path.len() >= 1,
    ensures
        spec_lookup(ConfigValue::Table(ConfigTable::Empty), path) is None,
{
}

} // verus!

