//! The installer: the single entry point the host calls once.  It drains the
//! export registry into the exports object (grouping by namespace object,
//! created on first use), defines every registered class, publishes the
//! constructor table, dispatches the whole-module callbacks, and finally
//! flips the registered flag.
//!
//! The host's part — invoking each factory, defining a class value at host
//! level, running a whole-module callback — is summarized by the outcome
//! arguments: the installer is verified for every combination of outcomes,
//! and a failed outcome is surfaced as one error without stopping the drain.

use vstd::prelude::*;
use crate::types::{
    clone_property, opt_view, ClsVal, ExportEntryV, FactoryOutcome, InstallError, InstallErrorV,
    Property, PropertyV,
};

verus! {

/// One class definition the installer will perform: an implementation
/// identifier exposed under one namespace.
pub struct FlatClassV {
    pub rust_name: Seq<char>,
    pub js_mod: Option<Seq<char>>,
    pub js_name: Seq<char>,
    pub props: Seq<PropertyV>,
}

pub open spec fn class_rows(c: (Seq<char>, Seq<(Option<Seq<char>>, ClsVal)>)) -> Seq<FlatClassV> {
    c.1.map(
        |i: int, m: (Option<Seq<char>>, ClsVal)| FlatClassV {
            rust_name: c.0,
            js_mod: m.0,
            js_name: m.1.js_name,
            props: m.1.props,
        },
    )
}

/// The class registry flattened into definition order: records in insertion
/// order, and within a record its namespaces in insertion order.
pub open spec fn flat_classes(cs: Seq<(Seq<char>, Seq<(Option<Seq<char>>, ClsVal)>)>) -> Seq<
    FlatClassV,
>
    decreases cs.len(),
{
    if cs.len() == 0 {
        Seq::empty()
    } else {
        flat_classes(cs.drop_last()) + class_rows(cs.last())
    }
}

/// The first constructor-flagged property, if any.
pub open spec fn first_ctor(ps: Seq<PropertyV>) -> Option<PropertyV>
    decreases ps.len(),
{
    if ps.len() == 0 {
        None
    } else if ps[0].is_ctor {
        Some(ps[0])
    } else {
        first_ctor(ps.drop_first())
    }
}

/// The native method of the effective constructor property; `None` means the
/// class gets a no-op constructor.
pub open spec fn ctor_method(ps: Seq<PropertyV>) -> Option<u64> {
    match first_ctor(ps) {
        Some(p) => p.method,
        None => None,
    }
}

/// A constructor-flagged property must carry a native method.
pub open spec fn ctor_props_ok(ps: Seq<PropertyV>) -> bool {
    match first_ctor(ps) {
        Some(p) => p.method is Some,
        None => true,
    }
}

pub open spec fn all_ctor_props_ok(rows: Seq<FlatClassV>) -> bool {
    forall|k: int| 0 <= k < rows.len() ==> ctor_props_ok(#[trigger] rows[k].props)
}

/// The non-constructor properties among the first `n`, in order.
pub open spec fn members_upto(ps: Seq<PropertyV>, n: int) -> Seq<PropertyV>
    decreases n,
{
    if n <= 0 {
        Seq::empty()
    } else if ps[n - 1].is_ctor {
        members_upto(ps, n - 1)
    } else {
        members_upto(ps, n - 1).push(ps[n - 1])
    }
}

/// The member (non-constructor) properties of a class, in order.
pub open spec fn members_of(ps: Seq<PropertyV>) -> Seq<PropertyV> {
    members_upto(ps, ps.len() as int)
}

proof fn lemma_first_ctor_found(ps: Seq<PropertyV>, i: int)
    requires
        0 <= i < ps.len(),
        ps[i].is_ctor,
        forall|j: int| 0 <= j < i ==> !ps[j].is_ctor,
    ensures
        first_ctor(ps) == Some(ps[i]),
    decreases ps.len(),
{
    if i > 0 {
        lemma_first_ctor_found(ps.drop_first(), i - 1);
    }
}

proof fn lemma_first_ctor_missing(ps: Seq<PropertyV>)
    requires
        forall|j: int| 0 <= j < ps.len() ==> !ps[j].is_ctor,
    ensures
        first_ctor(ps) == None::<PropertyV>,
    decreases ps.len(),
{
    if ps.len() > 0 {
        lemma_first_ctor_missing(ps.drop_first());
    }
}

/// The errors surfaced while draining the first `n` export registrations.
pub open spec fn export_errors(
    es: Seq<ExportEntryV>,
    outs: Seq<FactoryOutcome>,
    n: int,
) -> Seq<InstallErrorV>
    decreases n,
{
    if n <= 0 {
        Seq::empty()
    } else {
        let rest = export_errors(es, outs, n - 1);
        if outs[n - 1] is Failed {
            rest.push(InstallErrorV::ExportFactoryFailed { name: es[n - 1].name })
        } else {
            rest
        }
    }
}

/// The errors surfaced while defining the first `n` classes.
pub open spec fn class_errors(rows: Seq<FlatClassV>, oks: Seq<bool>, n: int) -> Seq<InstallErrorV>
    decreases n,
{
    if n <= 0 {
        Seq::empty()
    } else {
        let rest = class_errors(rows, oks, n - 1);
        if !oks[n - 1] {
            rest.push(InstallErrorV::ClassDefineFailed { js_name: rows[n - 1].js_name })
        } else {
            rest
        }
    }
}

/// The errors surfaced while dispatching the first `n` whole-module
/// callbacks.
pub open spec fn compat_errors(oks: Seq<bool>, n: int) -> Seq<InstallErrorV>
    decreases n,
{
    if n <= 0 {
        Seq::empty()
    } else {
        let rest = compat_errors(oks, n - 1);
        if !oks[n - 1] {
            rest.push(InstallErrorV::ModuleCallbackFailed { index: n - 1 })
        } else {
            rest
        }
    }
}

/// One export registration applied to the exports object: the namespace
/// object is created on first use; a produced value is attached under the
/// export's name (overwriting any earlier attachment); a failure attaches
/// nothing.
pub open spec fn drain_step(
    props: Seq<(Seq<char>, u64)>,
    mods: Seq<(Seq<char>, Seq<(Seq<char>, u64)>)>,
    e: ExportEntryV,
    out: FactoryOutcome,
) -> (Seq<(Seq<char>, u64)>, Seq<(Seq<char>, Seq<(Seq<char>, u64)>)>) {
    match e.js_mod {
        None => match out {
            FactoryOutcome::Produced(v) => (crate::assoc::assoc_set(props, e.name, v), mods),
            FactoryOutcome::Failed => (props, mods),
        },
        Some(m) => {
            let mods1 = crate::exports::ns_ensure(mods, m);
            match out {
                FactoryOutcome::Produced(v) => (
                    props,
                    crate::exports::ns_object_set(mods1, m, e.name, v),
                ),
                FactoryOutcome::Failed => (props, mods1),
            }
        },
    }
}

/// The exports object after draining the first `n` export registrations.
pub open spec fn drain_exports(
    props: Seq<(Seq<char>, u64)>,
    mods: Seq<(Seq<char>, Seq<(Seq<char>, u64)>)>,
    es: Seq<ExportEntryV>,
    outs: Seq<FactoryOutcome>,
    n: int,
) -> (Seq<(Seq<char>, u64)>, Seq<(Seq<char>, Seq<(Seq<char>, u64)>)>)
    decreases n,
{
    if n <= 0 {
        (props, mods)
    } else {
        let prev = drain_exports(props, mods, es, outs, n - 1);
        drain_step(prev.0, prev.1, es[n - 1], outs[n - 1])
    }
}

/// One class definition applied to the exports object and the constructor
/// table: the namespace object is created on first use; when the host
/// definition succeeded, the class value is attached under the exposed name
/// and the constructor reference is recorded.
pub open spec fn class_step(
    props: Seq<(Seq<char>, u64)>,
    mods: Seq<(Seq<char>, Seq<(Seq<char>, u64)>)>,
    table: Seq<(Seq<char>, u64)>,
    row: FlatClassV,
    ok: bool,
    class_handle: u64,
    ctor_ref: u64,
) -> (Seq<(Seq<char>, u64)>, Seq<(Seq<char>, Seq<(Seq<char>, u64)>)>, Seq<(Seq<char>, u64)>) {
    let mods1 = match row.js_mod {
        Some(m) => crate::exports::ns_ensure(mods, m),
        None => mods,
    };
    if ok {
        let attached = match row.js_mod {
            None => (crate::assoc::assoc_set(props, row.js_name, class_handle), mods1),
            Some(m) => (props, crate::exports::ns_object_set(mods1, m, row.js_name, class_handle)),
        };
        (attached.0, attached.1, crate::assoc::assoc_set(table, row.js_name, ctor_ref))
    } else {
        (props, mods1, table)
    }
}

/// The exports object and constructor table after defining the first `n`
/// registered classes, drawing fresh handles from `first_handle`.
pub open spec fn apply_classes(
    props: Seq<(Seq<char>, u64)>,
    mods: Seq<(Seq<char>, Seq<(Seq<char>, u64)>)>,
    table: Seq<(Seq<char>, u64)>,
    rows: Seq<FlatClassV>,
    oks: Seq<bool>,
    first_handle: u64,
    n: int,
) -> (Seq<(Seq<char>, u64)>, Seq<(Seq<char>, Seq<(Seq<char>, u64)>)>, Seq<(Seq<char>, u64)>)
    decreases n,
{
    if n <= 0 {
        (props, mods, table)
    } else {
        let prev = apply_classes(props, mods, table, rows, oks, first_handle, n - 1);
        class_step(
            prev.0,
            prev.1,
            prev.2,
            rows[n - 1],
            oks[n - 1],
            (first_handle + 2 * (n - 1)) as u64,
            (first_handle + 2 * (n - 1) + 1) as u64,
        )
    }
}

/// One class definition the installer performed: where it was attached, its
/// fresh class value and constructor reference, and what it was defined
/// from.
pub struct DefinedClass {
    pub rust_name: String,
    pub js_mod: Option<String>,
    pub js_name: String,
    pub class_handle: u64,
    pub ctor_ref: u64,
    pub ctor_method: Option<u64>,
    pub members: Vec<Property>,
}

pub struct DefinedClassV {
    pub rust_name: Seq<char>,
    pub js_mod: Option<Seq<char>>,
    pub js_name: Seq<char>,
    pub class_handle: u64,
    pub ctor_ref: u64,
    pub ctor_method: Option<u64>,
    pub members: Seq<PropertyV>,
}

impl View for DefinedClass {
    type V = DefinedClassV;

    open spec fn view(&self) -> DefinedClassV {
        DefinedClassV {
            rust_name: self.rust_name@,
            js_mod: opt_view(self.js_mod),
            js_name: self.js_name@,
            class_handle: self.class_handle,
            ctor_ref: self.ctor_ref,
            ctor_method: self.ctor_method,
            members: self.members@.map(|i: int, p: Property| p@),
        }
    }
}

/// The class definition the `k`-th flat class entry yields, with the two
/// fresh handles the host hands back for it.
pub open spec fn defined_class_v(row: FlatClassV, first_handle: u64, k: int) -> DefinedClassV {
    DefinedClassV {
        rust_name: row.rust_name,
        js_mod: row.js_mod,
        js_name: row.js_name,
        class_handle: (first_handle + 2 * k) as u64,
        ctor_ref: (first_handle + 2 * k + 1) as u64,
        ctor_method: ctor_method(row.props),
        members: members_of(row.props),
    }
}

/// What the installer reports for one class entry.
pub enum ClassOutcomeReport {
    Defined(DefinedClass),
    Failed,
}

pub open spec fn class_report_matches(
    c: ClassOutcomeReport,
    row: FlatClassV,
    ok: bool,
    first_handle: u64,
    k: int,
) -> bool {
    if ok {
        c matches ClassOutcomeReport::Defined(d) && d@ == defined_class_v(row, first_handle, k)
    } else {
        c matches ClassOutcomeReport::Failed
    }
}

/// What one installer run did: the classes it defined and every error it
/// surfaced, in order.
pub struct InstallReport {
    pub errors: Vec<InstallError>,
    pub classes: Vec<ClassOutcomeReport>,
}

/// One class definition to perform, taken off the class registry.
pub struct FlatClass {
    pub rust_name: String,
    pub js_mod: Option<String>,
    pub js_name: String,
    pub props: Vec<Property>,
}

impl View for FlatClass {
    type V = FlatClassV;

    open spec fn view(&self) -> FlatClassV {
        FlatClassV {
            rust_name: self.rust_name@,
            js_mod: opt_view(self.js_mod),
            js_name: self.js_name@,
            props: self.props@.map(|i: int, p: Property| p@),
        }
    }
}

/// Duplicate an optional namespace name.
pub(crate) fn clone_opt_string(o: &Option<String>) -> (r: Option<String>)
    ensures
        opt_view(r) == opt_view(*o),
{
    match o {
        Option::Some(s) => Some(s.clone()),
        Option::None => None,
    }
}

/// Duplicate a property list; the copy has the same view.
pub(crate) fn clone_props(ps: &Vec<Property>) -> (r: Vec<Property>)
    ensures
        r@.map(|i: int, p: Property| p@) == ps@.map(|i: int, p: Property| p@),
{
    let n = ps.len();
    let mut r: Vec<Property> = Vec::new();
    while r.len() < n
        invariant
            r@.len() <= n,
            n == ps.len(),
            forall|j: int| 0 <= j < r@.len() ==> (#[trigger] r@[j])@ == ps@[j]@,
        decreases n - r.len(),
    {
        let i = r.len();
        r.push(clone_property(&ps[i]));
    }
    proof {
        assert(r@.map(|i: int, p: Property| p@) =~= ps@.map(|i: int, p: Property| p@));
    }
    r
}

/// Split a property list into its effective constructor method and its
/// member properties.
pub(crate) fn partition_props(ps: &Vec<Property>) -> (r: (Option<u64>, Vec<Property>))
    requires
        ctor_props_ok(ps@.map(|i: int, p: Property| p@)),
    ensures
        r.0 == ctor_method(ps@.map(|i: int, p: Property| p@)),
        r.1@.map(|i: int, p: Property| p@) == members_of(ps@.map(|i: int, p: Property| p@)),
{
    let ghost psv = ps@.map(|i: int, p: Property| p@);
    let n = ps.len();
    let mut ctor: Option<u64> = None;
    let mut i: usize = 0;
    while i < n
        invariant
            i <= n,
            n == ps.len(),
            psv == ps@.map(|ii: int, p: Property| p@),
            ctor is None,
            forall|j: int| 0 <= j < i ==> !(#[trigger] psv[j]).is_ctor,
        decreases n - i,
    {
        if ps[i].is_ctor {
            proof {
                lemma_first_ctor_found(psv, i as int);
            }
            ctor = match ps[i].method {
                Some(m) => Some(m),
                None => None,
            };
            proof {
                assert(ctor == ctor_method(psv));
            }
            let members = collect_members(ps);
            return (ctor, members);
        }
        i += 1;
    }
    proof {
        lemma_first_ctor_missing(psv);
    }
    let members = collect_members(ps);
    (None, members)
}

/// The non-constructor properties, in order.
pub(crate) fn collect_members(ps: &Vec<Property>) -> (r: Vec<Property>)
    ensures
        r@.map(|i: int, p: Property| p@) == members_of(ps@.map(|i: int, p: Property| p@)),
{
    let ghost psv = ps@.map(|ii: int, p: Property| p@);
    let n = ps.len();
    let mut r: Vec<Property> = Vec::new();
    let mut i: usize = 0;
    while i < n
        invariant
            i <= n,
            n == ps.len(),
            psv == ps@.map(|ii: int, p: Property| p@),
            r@.map(|ii: int, p: Property| p@) == members_upto(psv, i as int),
        decreases n - i,
    {
        if !ps[i].is_ctor {
            r.push(clone_property(&ps[i]));
            proof {
                assert(r@.map(|ii: int, p: Property| p@) =~= members_upto(psv, i + 1));
            }
        } else {
            proof {
                assert(r@.map(|ii: int, p: Property| p@) =~= members_upto(psv, i + 1));
            }
        }
        i += 1;
    }
    r
}

} // verus!
