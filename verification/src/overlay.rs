use vstd::prelude::*;

use crate::paths::{bytes_concat, bytes_slice, spec_split, split_bytes, starts_with, views_of};
use crate::tree::{merge_table, spec_merge_table, ConfigTable, ConfigValue};

verus! {

/// One process environment variable, its name already in the host's
/// case convention, as a byte string.
pub struct EnvVar {
    pub name: Vec<u8>,
    pub value: String,
}

/// The views of an optional byte vector.
pub open spec fn opt_view(p: Option<Vec<u8>>) -> Option<Seq<u8>> {
    match p {
        Some(v) => Some(v@),
        None => None,
    }
}

/// The variable name with `<prefix><sep>` removed, if the name starts
/// with that pattern; the whole name when no prefix is asked for.
pub open spec fn spec_strip(name: Seq<u8>, prefix: Option<Seq<u8>>, sep: Seq<u8>) -> Option<
    Seq<u8>,
> {
    match prefix {
        None => Some(name),
        Some(p) => {
            let pattern = p + sep;
            if pattern.len() <= name.len() && name.take(pattern.len() as int) == pattern {
                Some(name.skip(pattern.len() as int))
            } else {
                None
            }
        },
    }
}

/// Whether the variable name matches the prefix convention and so
/// contributes to the overlay.
pub open spec fn spec_var_matches(name: Seq<u8>, prefix: Option<Seq<u8>>, sep: Seq<u8>) -> bool {
    spec_strip(name, prefix, sep) is Some
}

/// The nested key path a matching variable contributes: its stripped
/// name split on the separator.
pub open spec fn spec_var_path(name: Seq<u8>, prefix: Option<Seq<u8>>, sep: Seq<u8>) -> Seq<
    Seq<u8>,
> {
    match spec_strip(name, prefix, sep) {
        Some(rest) => spec_split(rest, sep),
        None => Seq::empty(),
    }
}

/// `v` is the chain of single-entry tables that carries `value` at the
/// end of `path`.
pub open spec fn chain_of(path: Seq<Seq<u8>>, value: String, v: ConfigValue) -> bool
    decreases path.len(),
{
    if path.len() == 0 {
        v == ConfigValue::Str(value)
    } else {
        v matches ConfigValue::Table(ConfigTable::Entry(k, child, rest)) && k@ == path[0] && *rest
            == ConfigTable::Empty && chain_of(path.drop_first(), value, *child)
    }
}

/// `t` is the single-branch table holding `value` at `path`.
pub open spec fn var_table_of(path: Seq<Seq<u8>>, value: String, t: ConfigTable) -> bool {
    path.len() >= 1 && (t matches ConfigTable::Entry(k, child, rest) && k@ == path[0] && *rest
        == ConfigTable::Empty && chain_of(path.drop_first(), value, *child))
}

/// `r` extends `prev` by one variable `v`: merged with `v`'s
/// single-branch table if `v` matches the prefix, unchanged otherwise.
pub open spec fn overlay_step_ok(
    prev: ConfigTable,
    v: EnvVar,
    prefix: Option<Seq<u8>>,
    sep: Seq<u8>,
    r: ConfigTable,
) -> bool {
    if spec_var_matches(v.name@, prefix, sep) {
        exists|vt: ConfigTable|
            #[trigger] var_table_of(spec_var_path(v.name@, prefix, sep), v.value, vt) && r
                == spec_merge_table(prev, vt)
    } else {
        r == prev
    }
}

/// `trace` records the overlay as it grows: it starts from the empty
/// table and takes one `overlay_step_ok` step per variable, in order.
pub open spec fn overlay_trace_ok(
    vars: Seq<EnvVar>,
    prefix: Option<Seq<u8>>,
    sep: Seq<u8>,
    trace: Seq<ConfigTable>,
) -> bool {
    &&& trace.len() == vars.len() + 1
    &&& trace[0] == ConfigTable::Empty
    &&& forall|i: int|
        0 <= i < vars.len() ==> #[trigger] overlay_step_ok(trace[i], vars[i], prefix, sep, trace[i
            + 1])
}

/// `r` is the overlay built from `vars` in order: the merge, later
/// variables taking precedence, of one single-branch table per variable
/// that matches the prefix, keyed by its split name.
pub open spec fn spec_overlay_rel(
    vars: Seq<EnvVar>,
    prefix: Option<Seq<u8>>,
    sep: Seq<u8>,
    r: ConfigTable,
) -> bool {
    exists|trace: Seq<ConfigTable>|
        #[trigger] overlay_trace_ok(vars, prefix, sep, trace) && trace.last() == r
}

/// The single-branch table carrying `value` at the path `segments`.
pub fn var_chain(segments: Vec<Vec<u8>>, value: String) -> (t: ConfigTable)
    requires
        segments@.len() >= 1,
    ensures
        var_table_of(views_of(segments@), value, t),
    decreases segments@.len(),
{
    let mut segs = segments;
    let first = segs.remove(0);
    if segs.len() == 0 {
        let t = ConfigTable::Entry(
            first,
            Box::new(ConfigValue::Str(value)),
            Box::new(ConfigTable::Empty),
        );
        proof {
            assert(views_of(segments@).drop_first() =~= views_of(segs@));
        }
        t
    } else {
        let ghost whole = segments@;
        let inner = var_chain(segs, value);
        let t = ConfigTable::Entry(
            first,
            Box::new(ConfigValue::Table(inner)),
            Box::new(ConfigTable::Empty),
        );
        proof {
            assert(views_of(whole).drop_first() =~= views_of(whole.drop_first()));
        }
        t
    }
}

/// Builds the environment overlay: each variable whose name starts with
/// `<prefix><separator>` (every variable, when no prefix is given)
/// contributes its value at the path given by splitting the stripped
/// name on the separator; later variables take precedence.
pub fn env_overlay(vars: Vec<EnvVar>, prefix: Option<Vec<u8>>, separator: Vec<u8>) -> (r:
    ConfigTable)
    requires
        separator@.len() >= 1,
    ensures
        spec_overlay_rel(vars@, opt_view(prefix), separator@, r),
{
    let ghost all = vars@;
    let ghost pfx = opt_view(prefix);
    let pattern: Option<Vec<u8>> = match prefix {
        Some(p) => Some(bytes_concat(p, &separator)),
        None => None,
    };
    let mut rest = vars;
    let mut acc = ConfigTable::Empty;
    let ghost mut trace: Seq<ConfigTable> = seq![ConfigTable::Empty];
    while rest.len() > 0
        invariant
            separator@.len() >= 1,
            rest@.len() <= all.len(),
            rest@ == all.skip(all.len() - rest@.len()),
            (match pattern {
                Some(q) => pfx matches Some(p) && q@ == p + separator@,
                None => pfx is None,
            }),
            trace.len() == all.len() - rest@.len() + 1,
            trace[0] == ConfigTable::Empty,
            trace.last() == acc,
            forall|i: int|
                0 <= i < all.len() - rest@.len() ==> #[trigger] overlay_step_ok(
                    trace[i],
                    all[i],
                    pfx,
                    separator@,
                    trace[i + 1],
                ),
        decreases rest.len(),
    {
        let ghost done = all.len() - rest@.len();
        let ghost prev = acc;
        let var = rest.remove(0);
        let ghost var_ghost = var;
        let EnvVar { name, value } = var;
        let stripped: Option<Vec<u8>> = match &pattern {
            None => Some(name),
            Some(pat) => {
                if starts_with(&name, pat) {
                    let n = name.len();
                    Some(bytes_slice(name.as_slice(), pat.len(), n))
                } else {
                    None
                }
            },
        };
        proof {
            assert(var_ghost == all[done]);
        }
        match stripped {
            Some(tail) => {
                let segs = split_bytes(tail.as_slice(), &separator);
                let vt = var_chain(segs, value);
                let ghost vt_g = vt;
                acc = merge_table(acc, vt);
                proof {
                    assert(spec_var_matches(var_ghost.name@, pfx, separator@));
                    assert(spec_var_path(var_ghost.name@, pfx, separator@) == views_of(segs@));
                    assert(var_table_of(
                        spec_var_path(var_ghost.name@, pfx, separator@),
                        var_ghost.value,
                        vt_g,
                    ));
                    assert(acc == spec_merge_table(prev, vt_g));
                    assert(overlay_step_ok(prev, var_ghost, pfx, separator@, acc));
                }
            },
            None => {
                proof {
                    assert(!spec_var_matches(var_ghost.name@, pfx, separator@));
                    assert(overlay_step_ok(prev, var_ghost, pfx, separator@, acc)) by {
                        assert(acc == prev);
                        assert(!spec_var_matches(var_ghost.name@, pfx, separator@));
                    }
                }
            },
        }
        proof {
            trace = trace.push(acc);
            assert(trace.last() == acc);
            assert(overlay_step_ok(trace[done], all[done], pfx, separator@, trace[done + 1]));
            assert(rest@ =~= all.skip(all.len() - rest@.len()));
        }
    }
    proof {
        assert(overlay_trace_ok(all, pfx, separator@, trace));
    }
    acc
}

} // verus!
