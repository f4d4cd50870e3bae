//! Laws of the runtime: determinism of the lookup facade, agreement of the
//! two function-resolution paths, independence of class values, and creation
//! of namespace objects by the drain.

use vstd::prelude::*;
use crate::assoc::{assoc_get, assoc_has};
use crate::exports::{lemma_ensure_ns_effect, lemma_set_ns_effect, ns_ensure};
use crate::install::{defined_class_v, drain_exports, FlatClassV};
use crate::registry::{c_callback_result, js_function_result};
use crate::types::{ExportEntryV, FactoryOutcome, FnVal, RegistryError};

verus! {

/// Lookups are idempotent: two results of resolving the same factory's
/// native callback against the same recorded state are equal.
pub proof fn lemma_c_callback_idempotent(
    fns: Seq<(u64, FnVal)>,
    f: u64,
    r1: Result<u64, RegistryError>,
    r2: Result<u64, RegistryError>,
)
    requires
        r1 == c_callback_result(fns, f),
        r2 == c_callback_result(fns, f),
    ensures
        r1 == r2,
{
}

/// Lookups are idempotent: two results of materializing the same factory's
/// function value against the same recorded state are equal.
pub proof fn lemma_js_function_idempotent(
    fns: Seq<(u64, FnVal)>,
    f: u64,
    r1: Result<FnVal, RegistryError>,
    r2: Result<FnVal, RegistryError>,
)
    requires
        r1 == js_function_result(fns, f),
        r2 == js_function_result(fns, f),
    ensures
        r1 == r2,
{
}

/// Lookups are idempotent: two results of resolving the same exposed class
/// name against the same published constructor table are equal.
pub proof fn lemma_class_constructor_idempotent(
    table: Seq<(Seq<char>, u64)>,
    name: Seq<char>,
    r1: Option<u64>,
    r2: Option<u64>,
)
    requires
        r1 == assoc_get(table, name),
        r2 == assoc_get(table, name),
    ensures
        r1 == r2,
{
}

/// The two function-resolution paths agree.  For a factory recorded with a
/// native callback, materializing the function value and resolving the raw
/// callback both succeed, and the callback backing the function value is the
/// one the raw resolution returns; for an unrecorded factory both fail with
/// an invalid-argument error.
pub proof fn lemma_function_and_callback_agree(fns: Seq<(u64, FnVal)>, f: u64)
    ensures
        match assoc_get(fns, f) {
            Some(v) => js_function_result(fns, f) == Ok::<FnVal, RegistryError>(v) && (match v
                .callback {
                Some(c) => c_callback_result(fns, f) == Ok::<u64, RegistryError>(c),
                None => c_callback_result(fns, f) == Err::<u64, RegistryError>(
                    RegistryError::InvalidArg,
                ),
            }),
            None => js_function_result(fns, f) == Err::<FnVal, RegistryError>(
                RegistryError::InvalidArg,
            ) && c_callback_result(fns, f) == Err::<u64, RegistryError>(RegistryError::InvalidArg),
        },
{
}

/// Defining one implementation under two namespaces yields two independent
/// class values: the class handles differ, the constructor references
/// differ, no class handle collides with the other's constructor reference,
/// and classes defined from the same property list share the same member
/// definitions and constructor method.
pub proof fn lemma_class_values_independent(
    row1: FlatClassV,
    row2: FlatClassV,
    first_handle: u64,
    k1: int,
    k2: int,
)
    requires
        0 <= k1,
        0 <= k2,
        k1 != k2,
        first_handle + 2 * k1 + 1 <= u64::MAX,
        first_handle + 2 * k2 + 1 <= u64::MAX,
        row1.props == row2.props,
    ensures
        defined_class_v(row1, first_handle, k1).class_handle != defined_class_v(
            row2,
            first_handle,
            k2,
        ).class_handle,
        defined_class_v(row1, first_handle, k1).ctor_ref != defined_class_v(
            row2,
            first_handle,
            k2,
        ).ctor_ref,
        defined_class_v(row1, first_handle, k1).class_handle != defined_class_v(
            row2,
            first_handle,
            k2,
        ).ctor_ref,
        defined_class_v(row1, first_handle, k1).members == defined_class_v(
            row2,
            first_handle,
            k2,
        ).members,
        defined_class_v(row1, first_handle, k1).ctor_method == defined_class_v(
            row2,
            first_handle,
            k2,
        ).ctor_method,
{
}

/// Draining the export registry creates the namespace object of every
/// registered namespace: after the first `n` registrations are drained, the
/// namespace of any of them exists in the exports object.  Together with the
/// uniqueness of namespace keys (`ExportsObject::wf`), two exports
/// registered under the same namespace share exactly one namespace object.
pub proof fn lemma_drain_creates_namespace(
    props: Seq<(Seq<char>, u64)>,
    mods: Seq<(Seq<char>, Seq<(Seq<char>, u64)>)>,
    es: Seq<ExportEntryV>,
    outs: Seq<FactoryOutcome>,
    n: int,
    i: int,
    m: Seq<char>,
)
    requires
        0 <= i < n <= es.len(),
        es.len() == outs.len(),
        es[i].js_mod == Some(m),
    ensures
        assoc_has(drain_exports(props, mods, es, outs, n).1, m),
    decreases n,
{
    let prev = drain_exports(props, mods, es, outs, n - 1);
    if i == n - 1 {
        lemma_ensure_ns_effect(prev.0, prev.1, m);
        match outs[n - 1] {
            FactoryOutcome::Produced(v) => {
                lemma_set_ns_effect(prev.0, ns_ensure(prev.1, m), m, es[n - 1].name, v);
            },
            FactoryOutcome::Failed => {},
        }
    } else {
        lemma_drain_creates_namespace(props, mods, es, outs, n - 1, i, m);
        match es[n - 1].js_mod {
            Some(m2) => {
                lemma_ensure_ns_effect(prev.0, prev.1, m2);
                match outs[n - 1] {
                    FactoryOutcome::Produced(v) => {
                        lemma_set_ns_effect(prev.0, ns_ensure(prev.1, m2), m2, es[n - 1].name, v);
                    },
                    FactoryOutcome::Failed => {},
                }
            },
            None => {},
        }
    }
}

/// Every export registration whose factory produced a value, and whose
/// `(namespace, name)` key never recurs later in the drain, ends up attached
/// under its namespace and name with exactly the produced value.
pub proof fn lemma_drain_attaches_last_export(
    props: Seq<(Seq<char>, u64)>,
    mods: Seq<(Seq<char>, Seq<(Seq<char>, u64)>)>,
    es: Seq<ExportEntryV>,
    outs: Seq<FactoryOutcome>,
    n: int,
    i: int,
    v: u64,
)
    requires
        0 <= i < n <= es.len(),
        es.len() == outs.len(),
        outs[i] == FactoryOutcome::Produced(v),
        forall|j: int|
            i < j < n ==> !((#[trigger] es[j]).js_mod == es[i].js_mod && es[j].name == es[i].name),
    ensures
        crate::exports::obj_get(
            drain_exports(props, mods, es, outs, n).0,
            drain_exports(props, mods, es, outs, n).1,
            es[i].js_mod,
            es[i].name,
        ) == Some(v),
    decreases n,
{
    let prev = drain_exports(props, mods, es, outs, n - 1);
    if i == n - 1 {
        match es[i].js_mod {
            None => {
                crate::exports::lemma_set_top_effect(prev.0, prev.1, es[i].name, v);
            },
            Some(m) => {
                lemma_ensure_ns_effect(prev.0, prev.1, m);
                lemma_set_ns_effect(prev.0, ns_ensure(prev.1, m), m, es[i].name, v);
            },
        }
    } else {
        lemma_drain_attaches_last_export(props, mods, es, outs, n - 1, i, v);
        match es[n - 1].js_mod {
            Some(m2) => {
                lemma_ensure_ns_effect(prev.0, prev.1, m2);
                match outs[n - 1] {
                    FactoryOutcome::Produced(v2) => {
                        lemma_set_ns_effect(prev.0, ns_ensure(prev.1, m2), m2, es[n - 1].name, v2);
                    },
                    FactoryOutcome::Failed => {},
                }
            },
            None => {
                match outs[n - 1] {
                    FactoryOutcome::Produced(v2) => {
                        crate::exports::lemma_set_top_effect(prev.0, prev.1, es[n - 1].name, v2);
                    },
                    FactoryOutcome::Failed => {},
                }
            },
        }
    }
}

/// The published constructor table maps each exposed class name to the
/// constructor reference of the last class successfully defined under that
/// name.
pub proof fn lemma_table_holds_last_class(
    props: Seq<(Seq<char>, u64)>,
    mods: Seq<(Seq<char>, Seq<(Seq<char>, u64)>)>,
    table: Seq<(Seq<char>, u64)>,
    rows: Seq<crate::install::FlatClassV>,
    oks: Seq<bool>,
    first_handle: u64,
    n: int,
    k: int,
)
    requires
        0 <= k < n <= rows.len(),
        rows.len() == oks.len(),
        oks[k],
        forall|k2: int|
            k < k2 < n ==> !(oks[k2] && (#[trigger] rows[k2]).js_name == rows[k].js_name),
    ensures
        assoc_get(
            crate::install::apply_classes(props, mods, table, rows, oks, first_handle, n).2,
            rows[k].js_name,
        ) == Some((first_handle + 2 * k + 1) as u64),
    decreases n,
{
    let prev = crate::install::apply_classes(props, mods, table, rows, oks, first_handle, n - 1);
    if k == n - 1 {
        crate::assoc::lemma_assoc_set_effect(
            prev.2,
            rows[k].js_name,
            (first_handle + 2 * k + 1) as u64,
        );
    } else {
        lemma_table_holds_last_class(props, mods, table, rows, oks, first_handle, n - 1, k);
        if oks[n - 1] {
            crate::assoc::lemma_assoc_set_effect(
                prev.2,
                rows[n - 1].js_name,
                (first_handle + 2 * (n - 1) + 1) as u64,
            );
        }
    }
}

} // verus!
