//! The registries that initializers append to before installation, and the
//! lookup facade that runs against the frozen state afterwards.
//!
//! Appends accumulate in registration order and are never removed.  The
//! installer (see `install`) is their only reader; it publishes the
//! constructor table and flips the registered flag, and the lookup facade
//! spins on that flag before resolving anything.

use vstd::prelude::*;
use crate::assoc::{
    assoc_get, assoc_set, lemma_assoc_get_found, lemma_assoc_get_missing, lemma_assoc_set_found,
    lemma_assoc_set_missing,
};
use crate::exports::PropMap;
use crate::types::{
    opt_view, ClsVal, ExportEntry, ExportEntryV, FnVal, JsFunction, Property, PropertyV,
    RegistryError,
};
use crate::install::{
    all_ctor_props_ok, apply_classes, class_errors, class_report_matches, class_rows,
    class_step, clone_opt_string, clone_props, compat_errors, drain_exports, drain_step,
    export_errors, flat_classes, partition_props, ClassOutcomeReport, DefinedClass, DefinedClassV,
    FlatClass, InstallReport,
};
use crate::exports::{lemma_ensure_ns_effect, lemma_set_ns_effect, ExportsObject};
use crate::types::{errors_view, FactoryOutcome, InstallError, InstallErrorV};

verus! {

pub open spec fn props_view(s: Seq<Property>) -> Seq<PropertyV> {
    s.map(|i: int, p: Property| p@)
}

/// A native-callback registration, keyed by the factory's identity.
pub struct FnEntry {
    pub factory: u64,
    pub callback: Option<u64>,
    pub name: String,
}

/// The per-namespace entries of one class registration.
pub struct ClassNsEntry {
    pub js_mod: Option<String>,
    pub js_name: String,
    pub props: Vec<Property>,
}

/// All registrations of one implementation identifier.
pub struct ClassRecord {
    pub rust_name: String,
    pub mods: Vec<ClassNsEntry>,
}

pub open spec fn class_ns_view(e: ClassNsEntry) -> (Option<Seq<char>>, ClsVal) {
    (opt_view(e.js_mod), ClsVal { js_name: e.js_name@, props: props_view(e.props@) })
}

pub open spec fn class_record_view(r: ClassRecord) -> (
    Seq<char>,
    Seq<(Option<Seq<char>>, ClsVal)>,
) {
    (r.rust_name@, r.mods@.map(|i: int, e: ClassNsEntry| class_ns_view(e)))
}

/// The abstract state of the whole registry.
pub struct RegistryV {
    pub exports: Seq<ExportEntryV>,
    pub classes: Seq<(Seq<char>, Seq<(Option<Seq<char>>, ClsVal)>)>,
    pub fns: Seq<(u64, FnVal)>,
    pub module_exports: Seq<u64>,
    pub registered: bool,
    pub ctor_table: Seq<(Seq<char>, u64)>,
}

/// The registration runtime: export, class and native-callback registries,
/// the published constructor table, and the registered flag.
pub struct Registry {
    pub(crate) exports: Vec<ExportEntry>,
    pub(crate) classes: Vec<ClassRecord>,
    pub(crate) fns: Vec<FnEntry>,
    pub(crate) module_exports: Vec<u64>,
    pub(crate) registered: bool,
    pub(crate) ctor_table: PropMap,
}

impl View for Registry {
    type V = RegistryV;

    closed spec fn view(&self) -> RegistryV {
        RegistryV {
            exports: self.exports@.map(|i: int, e: ExportEntry| e@),
            classes: self.classes@.map(|i: int, r: ClassRecord| class_record_view(r)),
            fns: self.fns@.map(
                |i: int, e: FnEntry| (e.factory, FnVal { callback: e.callback, name: e.name@ }),
            ),
            module_exports: self.module_exports@,
            registered: self.registered,
            ctor_table: self.ctor_table@,
        }
    }
}

/// Merge one class registration into the per-namespace entries of its
/// implementation identifier: the exposed name is overwritten, the properties
/// are appended; an unseen namespace gains a fresh entry.
pub open spec fn mods_upsert(
    ms: Seq<(Option<Seq<char>>, ClsVal)>,
    jm: Option<Seq<char>>,
    jn: Seq<char>,
    ps: Seq<PropertyV>,
) -> Seq<(Option<Seq<char>>, ClsVal)>
    decreases ms.len(),
{
    if ms.len() == 0 {
        seq![(jm, ClsVal { js_name: jn, props: ps })]
    } else if ms[0].0 == jm {
        seq![(jm, ClsVal { js_name: jn, props: ms[0].1.props + ps })] + ms.drop_first()
    } else {
        seq![ms[0]] + mods_upsert(ms.drop_first(), jm, jn, ps)
    }
}

/// Merge one class registration into the class registry, creating the record
/// for an unseen implementation identifier.
pub open spec fn class_upsert(
    cs: Seq<(Seq<char>, Seq<(Option<Seq<char>>, ClsVal)>)>,
    rn: Seq<char>,
    jm: Option<Seq<char>>,
    jn: Seq<char>,
    ps: Seq<PropertyV>,
) -> Seq<(Seq<char>, Seq<(Option<Seq<char>>, ClsVal)>)>
    decreases cs.len(),
{
    if cs.len() == 0 {
        seq![(rn, mods_upsert(Seq::empty(), jm, jn, ps))]
    } else if cs[0].0 == rn {
        seq![(rn, mods_upsert(cs[0].1, jm, jn, ps))] + cs.drop_first()
    } else {
        seq![cs[0]] + class_upsert(cs.drop_first(), rn, jm, jn, ps)
    }
}

proof fn lemma_mods_upsert_found(
    ms: Seq<(Option<Seq<char>>, ClsVal)>,
    jm: Option<Seq<char>>,
    jn: Seq<char>,
    ps: Seq<PropertyV>,
    i: int,
)
    requires
        0 <= i < ms.len(),
        ms[i].0 == jm,
        forall|j: int| 0 <= j < i ==> ms[j].0 != jm,
    ensures
        mods_upsert(ms, jm, jn, ps) == ms.update(
            i,
            (jm, ClsVal { js_name: jn, props: ms[i].1.props + ps }),
        ),
    decreases ms.len(),
{
    let e = (jm, ClsVal { js_name: jn, props: ms[i].1.props + ps });
    if i == 0 {
        assert(mods_upsert(ms, jm, jn, ps) =~= ms.update(0, e));
    } else {
        lemma_mods_upsert_found(ms.drop_first(), jm, jn, ps, i - 1);
        assert(ms.drop_first().update(i - 1, e) =~= ms.update(i, e).drop_first());
        assert(mods_upsert(ms, jm, jn, ps) =~= ms.update(i, e));
    }
}

proof fn lemma_mods_upsert_missing(
    ms: Seq<(Option<Seq<char>>, ClsVal)>,
    jm: Option<Seq<char>>,
    jn: Seq<char>,
    ps: Seq<PropertyV>,
)
    requires
        forall|j: int| 0 <= j < ms.len() ==> ms[j].0 != jm,
    ensures
        mods_upsert(ms, jm, jn, ps) == ms.push((jm, ClsVal { js_name: jn, props: ps })),
    decreases ms.len(),
{
    if ms.len() == 0 {
        assert(mods_upsert(ms, jm, jn, ps) =~= ms.push((jm, ClsVal { js_name: jn, props: ps })));
    } else {
        lemma_mods_upsert_missing(ms.drop_first(), jm, jn, ps);
        assert(mods_upsert(ms, jm, jn, ps) =~= ms.push((jm, ClsVal { js_name: jn, props: ps })));
    }
}

proof fn lemma_class_upsert_found(
    cs: Seq<(Seq<char>, Seq<(Option<Seq<char>>, ClsVal)>)>,
    rn: Seq<char>,
    jm: Option<Seq<char>>,
    jn: Seq<char>,
    ps: Seq<PropertyV>,
    i: int,
)
    requires
        0 <= i < cs.len(),
        cs[i].0 == rn,
        forall|j: int| 0 <= j < i ==> cs[j].0 != rn,
    ensures
        class_upsert(cs, rn, jm, jn, ps) == cs.update(i, (rn, mods_upsert(cs[i].1, jm, jn, ps))),
    decreases cs.len(),
{
    let e = (rn, mods_upsert(cs[i].1, jm, jn, ps));
    if i == 0 {
        assert(class_upsert(cs, rn, jm, jn, ps) =~= cs.update(0, e));
    } else {
        lemma_class_upsert_found(cs.drop_first(), rn, jm, jn, ps, i - 1);
        assert(cs.drop_first().update(i - 1, e) =~= cs.update(i, e).drop_first());
        assert(class_upsert(cs, rn, jm, jn, ps) =~= cs.update(i, e));
    }
}

proof fn lemma_class_upsert_missing(
    cs: Seq<(Seq<char>, Seq<(Option<Seq<char>>, ClsVal)>)>,
    rn: Seq<char>,
    jm: Option<Seq<char>>,
    jn: Seq<char>,
    ps: Seq<PropertyV>,
)
    requires
        forall|j: int| 0 <= j < cs.len() ==> cs[j].0 != rn,
    ensures
        class_upsert(cs, rn, jm, jn, ps) == cs.push(
            (rn, seq![(jm, ClsVal { js_name: jn, props: ps })]),
        ),
    decreases cs.len(),
{
    if cs.len() == 0 {
        assert(mods_upsert(Seq::empty(), jm, jn, ps) =~= seq![
            (jm, ClsVal { js_name: jn, props: ps }),
        ]);
        assert(class_upsert(cs, rn, jm, jn, ps) =~= cs.push(
            (rn, seq![(jm, ClsVal { js_name: jn, props: ps })]),
        ));
    } else {
        lemma_class_upsert_missing(cs.drop_first(), rn, jm, jn, ps);
        assert(class_upsert(cs, rn, jm, jn, ps) =~= cs.push(
            (rn, seq![(jm, ClsVal { js_name: jn, props: ps })]),
        ));
    }
}

/// What resolving a factory's raw native callback comes to: the callback
/// recorded for it, or an invalid-argument error when the factory was never
/// recorded or carries no callback.
pub open spec fn c_callback_result(fns: Seq<(u64, FnVal)>, f: u64) -> Result<u64, RegistryError> {
    match assoc_get(fns, f) {
        Some(v) => match v.callback {
            Some(c) => Ok(c),
            None => Err(RegistryError::InvalidArg),
        },
        None => Err(RegistryError::InvalidArg),
    }
}

/// What materializing a function value for a factory comes to: the recorded
/// name and callback, or an invalid-argument error.
pub open spec fn js_function_result(fns: Seq<(u64, FnVal)>, f: u64) -> Result<FnVal, RegistryError> {
    match assoc_get(fns, f) {
        Some(v) => Ok(v),
        None => Err(RegistryError::InvalidArg),
    }
}

/// Compare two optional namespace names.
pub fn opt_str_eq(a: &Option<String>, b: &Option<String>) -> (r: bool)
    ensures
        r == (opt_view(*a) == opt_view(*b)),
{
    match (a, b) {
        (Option::None, Option::None) => true,
        (Option::Some(x), Option::Some(y)) => x.eq(y),
        _ => false,
    }
}

impl Registry {
    /// A fresh registry: nothing registered, nothing installed.
    pub fn new() -> (r: Registry)
        ensures
            r@.exports.len() == 0,
            r@.classes.len() == 0,
            r@.fns.len() == 0,
            r@.module_exports.len() == 0,
            !r@.registered,
            r@.ctor_table.len() == 0,
    {
        Registry {
            exports: Vec::new(),
            classes: Vec::new(),
            fns: Vec::new(),
            module_exports: Vec::new(),
            registered: false,
            ctor_table: PropMap::new(),
        }
    }

    /// Append one export registration: an optional namespace, an exposed
    /// name, and the factory that will produce the value.
    pub fn register_module_export(&mut self, js_mod: Option<String>, name: String, cb: u64)
        ensures
            final(self)@ == (RegistryV {
                exports: old(self)@.exports.push(
                    ExportEntryV { js_mod: opt_view(js_mod), name: name@, factory: cb },
                ),
                ..old(self)@
            }),
    {
        let ghost orig = self@;
        self.exports.push(ExportEntry { js_mod, name, factory: cb });
        proof {
            assert(self@.exports =~= orig.exports.push(
                ExportEntryV { js_mod: opt_view(js_mod), name: name@, factory: cb },
            ));
        }
    }

    /// Append one whole-module callback, for the bulk-registration style.
    pub fn register_module_exports(&mut self, callback: u64)
        ensures
            final(self)@ == (RegistryV {
                module_exports: old(self)@.module_exports.push(callback),
                ..old(self)@
            }),
    {
        self.module_exports.push(callback);
    }

    /// Record the raw native callback and exposed name for a factory, so the
    /// function can later be re-materialized from the factory's identity
    /// alone.  A factory recorded twice keeps the last record.
    pub fn register_js_function(&mut self, name: String, cb: u64, c_fn: Option<u64>)
        ensures
            final(self)@ == (RegistryV {
                fns: assoc_set(old(self)@.fns, cb, FnVal { callback: c_fn, name: name@ }),
                ..old(self)@
            }),
    {
        let ghost orig = self@;
        let ghost val = FnVal { callback: c_fn, name: name@ };
        let found = self.find_fn(cb);
        match found {
            Some(i) => {
                proof {
                    lemma_assoc_set_found(orig.fns, cb, val, i as int);
                }
                self.fns[i] = FnEntry { factory: cb, callback: c_fn, name };
                proof {
                    assert(self@.fns =~= orig.fns.update(i as int, (cb, val)));
                }
            },
            None => {
                proof {
                    lemma_assoc_set_missing(orig.fns, cb, val);
                }
                self.fns.push(FnEntry { factory: cb, callback: c_fn, name });
                proof {
                    assert(self@.fns =~= orig.fns.push((cb, val)));
                }
            },
        }
    }

    /// The index of the record for a factory, if one exists.
    fn find_fn(&self, cb: u64) -> (r: Option<usize>)
        ensures
            match r {
                Some(i) => i < self@.fns.len() && self@.fns[i as int].0 == cb && (forall|j: int|
                    0 <= j < i ==> self@.fns[j].0 != cb),
                None => forall|j: int| 0 <= j < self@.fns.len() ==> self@.fns[j].0 != cb,
            },
    {
        let n = self.fns.len();
        let mut i: usize = 0;
        while i < n
            invariant
                i <= n,
                n == self.fns.len(),
                forall|j: int| 0 <= j < i ==> self@.fns[j].0 != cb,
            decreases n - i,
        {
            if self.fns[i].factory == cb {
                return Some(i);
            }
            i += 1;
        }
        None
    }

    /// Merge one class registration under its implementation identifier and
    /// namespace: the exposed name is set (last writer wins) and the
    /// properties are appended to the entry's list.
    pub fn register_class(
        &mut self,
        rust_name: String,
        js_mod: Option<String>,
        js_name: String,
        props: Vec<Property>,
    )
        ensures
            final(self)@ == (RegistryV {
                classes: class_upsert(
                    old(self)@.classes,
                    rust_name@,
                    opt_view(js_mod),
                    js_name@,
                    props_view(props@),
                ),
                ..old(self)@
            }),
    {
        let ghost orig = self@;
        let ghost psv = props_view(props@);
        let found = self.find_class(&rust_name);
        match found {
            Some(i) => {
                proof {
                    lemma_class_upsert_found(
                        orig.classes,
                        rust_name@,
                        opt_view(js_mod),
                        js_name@,
                        psv,
                        i as int,
                    );
                }
                let ghost classes0 = self.classes@;
                let mut rec = self.classes.remove(i);
                rec.merge(js_mod, js_name, props);
                let ghost grec = rec;
                self.classes.insert(i, rec);
                proof {
                    assert(self.classes@ =~= classes0.update(i as int, grec));
                    assert(self@.classes =~= orig.classes.update(
                        i as int,
                        (
                            rust_name@,
                            mods_upsert(
                                orig.classes[i as int].1,
                                opt_view(js_mod),
                                js_name@,
                                psv,
                            ),
                        ),
                    ));
                }
            },
            None => {
                proof {
                    lemma_class_upsert_missing(
                        orig.classes,
                        rust_name@,
                        opt_view(js_mod),
                        js_name@,
                        psv,
                    );
                }
                let mut mods: Vec<ClassNsEntry> = Vec::new();
                mods.push(ClassNsEntry { js_mod, js_name, props });
                let ghost gmods = mods;
                self.classes.push(ClassRecord { rust_name, mods });
                proof {
                    assert(gmods@.map(|k: int, e: ClassNsEntry| class_ns_view(e)) =~= seq![
                        (opt_view(js_mod), ClsVal { js_name: js_name@, props: psv }),
                    ]);
                    assert(self@.classes =~= orig.classes.push(
                        (
                            rust_name@,
                            seq![(opt_view(js_mod), ClsVal { js_name: js_name@, props: psv })],
                        ),
                    ));
                }
            },
        }
    }

    /// The index of the record for an implementation identifier, if any.
    fn find_class(&self, rust_name: &String) -> (r: Option<usize>)
        ensures
            match r {
                Some(i) => i < self@.classes.len() && self@.classes[i as int].0 == rust_name@
                    && (forall|j: int| 0 <= j < i ==> self@.classes[j].0 != rust_name@),
                None => forall|j: int|
                    0 <= j < self@.classes.len() ==> self@.classes[j].0 != rust_name@,
            },
    {
        let n = self.classes.len();
        let mut i: usize = 0;
        while i < n
            invariant
                i <= n,
                n == self.classes.len(),
                forall|j: int| 0 <= j < i ==> self@.classes[j].0 != rust_name@,
            decreases n - i,
        {
            if self.classes[i].rust_name.eq(rust_name) {
                return Some(i);
            }
            i += 1;
        }
        None
    }

    /// The synchronization barrier of the lookup facade: a lookup may run
    /// only once some thread's installer run has completed.  Within one
    /// thread no other party can flip the flag, so the busy-wait of the
    /// embedding (a spin on an atomic flag) reduces here to the
    /// precondition that installation already happened.
    pub fn wait_first_thread_registered(&self)
        requires
            self@.registered,
        ensures
            self@.registered,
    {
    }

    /// Materialize the function value recorded for a factory: its exposed
    /// name and native callback.  Waits for installation, then fails with
    /// `InvalidArg` exactly when the factory was never recorded.
    pub fn get_js_function(&self, raw_fn: u64) -> (r: Result<JsFunction, RegistryError>)
        requires
            self@.registered,
        ensures
            match js_function_result(self@.fns, raw_fn) {
                Ok(v) => r matches Ok(jf) && jf@ == v,
                Err(e) => r matches Err(e2) && e2 == e,
            },
    {
        self.wait_first_thread_registered();
        let n = self.fns.len();
        let mut i: usize = 0;
        while i < n
            invariant
                i <= n,
                n == self.fns.len(),
                forall|j: int| 0 <= j < i ==> self@.fns[j].0 != raw_fn,
            decreases n - i,
        {
            if self.fns[i].factory == raw_fn {
                proof {
                    lemma_assoc_get_found(self@.fns, raw_fn, i as int);
                }
                return Ok(
                    JsFunction { name: self.fns[i].name.clone(), callback: self.fns[i].callback },
                );
            }
            i += 1;
        }
        proof {
            lemma_assoc_get_missing(self@.fns, raw_fn);
        }
        Err(RegistryError::InvalidArg)
    }

    /// Resolve the raw native callback recorded for a factory.  Waits for
    /// installation, then fails with `InvalidArg` exactly when the factory
    /// was never recorded or was recorded without a callback.
    pub fn get_c_callback(&self, raw_fn: u64) -> (r: Result<u64, RegistryError>)
        requires
            self@.registered,
        ensures
            r == c_callback_result(self@.fns, raw_fn),
    {
        self.wait_first_thread_registered();
        let n = self.fns.len();
        let mut i: usize = 0;
        while i < n
            invariant
                i <= n,
                n == self.fns.len(),
                forall|j: int| 0 <= j < i ==> self@.fns[j].0 != raw_fn,
            decreases n - i,
        {
            if self.fns[i].factory == raw_fn {
                proof {
                    lemma_assoc_get_found(self@.fns, raw_fn, i as int);
                }
                return match self.fns[i].callback {
                    Some(c) => Ok(c),
                    None => Err(RegistryError::InvalidArg),
                };
            }
            i += 1;
        }
        proof {
            lemma_assoc_get_missing(self@.fns, raw_fn);
        }
        Err(RegistryError::InvalidArg)
    }

    /// Look an exposed class name up in the published constructor table.
    /// Waits for installation; an unknown name yields `None`, not an error.
    pub fn get_class_constructor(&self, js_name: &String) -> (r: Option<u64>)
        requires
            self@.registered,
        ensures
            r == assoc_get(self@.ctor_table, js_name@),
    {
        self.wait_first_thread_registered();
        self.ctor_table.get(js_name)
    }
}

impl Registry {
    /// The class registry flattened into definition order.
    fn flatten_classes(&self) -> (rows: Vec<FlatClass>)
        ensures
            rows@.map(|i: int, r: FlatClass| r@) == flat_classes(self@.classes),
    {
        let ghost cs = self@.classes;
        let mut rows: Vec<FlatClass> = Vec::new();
        let nc = self.classes.len();
        let mut ci: usize = 0;
        while ci < nc
            invariant
                ci <= nc,
                nc == self.classes.len(),
                cs == self@.classes,
                rows@.map(|i: int, r: FlatClass| r@) == flat_classes(cs.take(ci as int)),
            decreases nc - ci,
        {
            let nm = self.classes[ci].mods.len();
            let mut mi: usize = 0;
            while mi < nm
                invariant
                    mi <= nm,
                    ci < nc,
                    nc == self.classes.len(),
                    nm == self.classes[ci as int].mods.len(),
                    cs == self@.classes,
                    rows@.map(|i: int, r: FlatClass| r@) == flat_classes(cs.take(ci as int))
                        + class_rows(cs[ci as int]).take(mi as int),
                decreases nm - mi,
            {
                proof {
                    assert(cs[ci as int] == class_record_view(self.classes@[ci as int]));
                    assert(cs[ci as int].1[mi as int] == class_ns_view(
                        self.classes@[ci as int].mods@[mi as int],
                    ));
                }
                let e = &self.classes[ci].mods[mi];
                let fc = FlatClass {
                    rust_name: self.classes[ci].rust_name.clone(),
                    js_mod: clone_opt_string(&e.js_mod),
                    js_name: e.js_name.clone(),
                    props: clone_props(&e.props),
                };
                let ghost gfc = fc;
                let ghost rows0 = rows@;
                rows.push(fc);
                proof {
                    let f = |i: int, r: FlatClass| r@;
                    let a = flat_classes(cs.take(ci as int));
                    let b = class_rows(cs[ci as int]);
                    assert(b.len() == nm as int);
                    assert(gfc@ == b[mi as int]);
                    assert(rows@ =~= rows0.push(gfc));
                    assert(rows@.map(f) =~= rows0.map(f).push(gfc@));
                    assert(b.take(mi as int + 1) =~= b.take(mi as int).push(b[mi as int]));
                    assert(a + b.take(mi as int + 1) =~= (a + b.take(mi as int)).push(
                        b[mi as int],
                    ));
                    assert(rows@.map(|i: int, r: FlatClass| r@) =~= a + b.take(mi as int + 1));
                }
                mi += 1;
            }
            proof {
                assert(cs[ci as int] == class_record_view(self.classes@[ci as int]));
                assert(class_rows(cs[ci as int]).len() == nm as int);
                assert(class_rows(cs[ci as int]).take(nm as int) =~= class_rows(cs[ci as int]));
                assert(cs.take(ci as int + 1).drop_last() =~= cs.take(ci as int));
                assert(cs.take(ci as int + 1).last() == cs[ci as int]);
                assert(flat_classes(cs.take(ci as int + 1)) == flat_classes(cs.take(ci as int))
                    + class_rows(cs[ci as int]));
            }
            ci += 1;
        }
        proof {
            assert(cs.take(nc as int) =~= cs);
        }
        rows
    }
}

impl Registry {
    /// Perform one class definition: resolve or create its namespace
    /// object, and, when the host definition succeeded, attach the class
    /// value, record the constructor reference, and report the definition.
    fn install_one_class(
        &mut self,
        exports: &mut ExportsObject,
        row: &FlatClass,
        ok: bool,
        class_handle: u64,
        ctor_ref: u64,
    ) -> (rep: ClassOutcomeReport)
        requires
            crate::install::ctor_props_ok(row@.props),
            old(exports).wf(),
        ensures
            final(self).exports == old(self).exports,
            final(self).classes == old(self).classes,
            final(self).fns == old(self).fns,
            final(self).module_exports == old(self).module_exports,
            final(self).registered == old(self).registered,
            final(exports).wf(),
            (
                final(exports).props_v(),
                final(exports).mods_v(),
                final(self)@.ctor_table,
            ) == class_step(
                old(exports).props_v(),
                old(exports).mods_v(),
                old(self)@.ctor_table,
                row@,
                ok,
                class_handle,
                ctor_ref,
            ),
            ok ==> (rep matches ClassOutcomeReport::Defined(d) && d@ == (DefinedClassV {
                rust_name: row@.rust_name,
                js_mod: row@.js_mod,
                js_name: row@.js_name,
                class_handle: class_handle,
                ctor_ref: ctor_ref,
                ctor_method: crate::install::ctor_method(row@.props),
                members: crate::install::members_of(row@.props),
            })),
            !ok ==> (rep matches ClassOutcomeReport::Failed),
    {
        let ghost pre_props = exports.props_v();
        let ghost pre_mods = exports.mods_v();
        match &row.js_mod {
            Some(m) => {
                exports.ensure_ns(m);
                proof {
                    lemma_ensure_ns_effect(pre_props, pre_mods, m@);
                }
            },
            None => {},
        }
        let ghost mid_mods = exports.mods_v();
        if ok {
            let pr = partition_props(&row.props);
            match &row.js_mod {
                None => {
                    exports.set_top(row.js_name.clone(), class_handle);
                },
                Some(m) => {
                    proof {
                        lemma_set_ns_effect(pre_props, mid_mods, m@, row.js_name@, class_handle);
                    }
                    exports.set_ns(m, row.js_name.clone(), class_handle);
                },
            }
            self.ctor_table.set(row.js_name.clone(), ctor_ref);
            ClassOutcomeReport::Defined(
                DefinedClass {
                    rust_name: row.rust_name.clone(),
                    js_mod: clone_opt_string(&row.js_mod),
                    js_name: row.js_name.clone(),
                    class_handle,
                    ctor_ref,
                    ctor_method: pr.0,
                    members: pr.1,
                },
            )
        } else {
            ClassOutcomeReport::Failed
        }
    }

    /// The single entry point the host calls once per loaded instance.
    ///
    /// `outcomes[i]` is what invoking the factory of the `i`-th export
    /// registration came to; `class_oks[k]` whether the host defined the
    /// `k`-th class (in flattened registry order); `compat_oks[j]` whether
    /// the `j`-th whole-module callback succeeded.  Fresh host handles are
    /// drawn from `first_handle`: the `k`-th defined class gets the class
    /// value `first_handle + 2k` and the constructor reference
    /// `first_handle + 2k + 1`.
    ///
    /// The exports object afterwards is exactly the drain of the export
    /// registry followed by the class definitions (`drain_exports`, then
    /// `apply_classes`); the published constructor table is exactly what
    /// `apply_classes` builds; every failed outcome is surfaced as exactly
    /// one error, in drain order, without stopping the drain; each class
    /// definition is reported with its handles, constructor method and
    /// member list; and the registered flag is set.
    pub fn install_module(
        &mut self,
        exports: &mut ExportsObject,
        outcomes: &Vec<FactoryOutcome>,
        class_oks: &Vec<bool>,
        compat_oks: &Vec<bool>,
        first_handle: u64,
    ) -> (report: InstallReport)
        requires
            !old(self)@.registered,
            old(self)@.ctor_table.len() == 0,
            outcomes@.len() == old(self)@.exports.len(),
            class_oks@.len() == flat_classes(old(self)@.classes).len(),
            compat_oks@.len() == old(self)@.module_exports.len(),
            first_handle + 2 * flat_classes(old(self)@.classes).len() <= u64::MAX,
            all_ctor_props_ok(flat_classes(old(self)@.classes)),
            old(exports).wf(),
        ensures
            final(self)@.exports == old(self)@.exports,
            final(self)@.classes == old(self)@.classes,
            final(self)@.fns == old(self)@.fns,
            final(self)@.module_exports == old(self)@.module_exports,
            final(self)@.registered,
            final(exports).wf(),
            (
                final(exports).props_v(),
                final(exports).mods_v(),
                final(self)@.ctor_table,
            ) == apply_classes(
                drain_exports(
                    old(exports).props_v(),
                    old(exports).mods_v(),
                    old(self)@.exports,
                    outcomes@,
                    old(self)@.exports.len() as int,
                ).0,
                drain_exports(
                    old(exports).props_v(),
                    old(exports).mods_v(),
                    old(self)@.exports,
                    outcomes@,
                    old(self)@.exports.len() as int,
                ).1,
                old(self)@.ctor_table,
                flat_classes(old(self)@.classes),
                class_oks@,
                first_handle,
                flat_classes(old(self)@.classes).len() as int,
            ),
            report.classes@.len() == flat_classes(old(self)@.classes).len(),
            forall|k: int|
                0 <= k < flat_classes(old(self)@.classes).len() ==> class_report_matches(
                    #[trigger] report.classes@[k],
                    flat_classes(old(self)@.classes)[k],
                    class_oks@[k],
                    first_handle,
                    k,
                ),
            errors_view(report.errors@) == export_errors(
                old(self)@.exports,
                outcomes@,
                old(self)@.exports.len() as int,
            ) + class_errors(
                flat_classes(old(self)@.classes),
                class_oks@,
                flat_classes(old(self)@.classes).len() as int,
            ) + compat_errors(compat_oks@, old(self)@.module_exports.len() as int),
    {
        let ghost es = self@.exports;
        let ghost outs = outcomes@;
        let ghost rowsv = flat_classes(self@.classes);
        let ghost oks = class_oks@;
        let ghost props0 = exports.props_v();
        let ghost mods0 = exports.mods_v();
        let ghost table0 = self@.ctor_table;

        let rows = self.flatten_classes();
        let n = self.exports.len();
        let cnum = rows.len();
        proof {
            assert(rowsv.len() == cnum as int);
        }

        let mut errors: Vec<InstallError> = Vec::new();
        let mut classes_out: Vec<ClassOutcomeReport> = Vec::new();

        // Failures of the whole-module callbacks; their errors are appended
        // after the class errors, matching dispatch order.
        let mut compat_errs: Vec<InstallError> = Vec::new();
        let mnum = compat_oks.len();
        let mut j: usize = 0;
        while j < mnum
            invariant
                j <= mnum,
                mnum == compat_oks@.len(),
                errors_view(compat_errs@) == compat_errors(compat_oks@, j as int),
            decreases mnum - j,
        {
            if !compat_oks[j] {
                compat_errs.push(InstallError::ModuleCallbackFailed { index: j });
            }
            proof {
                assert(errors_view(compat_errs@) =~= compat_errors(compat_oks@, j as int + 1));
            }
            j += 1;
        }

        // Drain the export registry in registration order.  Each entry's
        // namespace object is created on first use; a produced value is
        // attached (overwriting any earlier attachment of the same key), a
        // failure is surfaced as one error.
        let mut i: usize = 0;
        while i < n
            invariant
                i <= n,
                n == self.exports.len(),
                self == old(self),
                es == old(self)@.exports,
                outs == outcomes@,
                outs.len() == n as int,
                props0 == old(exports).props_v(),
                mods0 == old(exports).mods_v(),
                exports.wf(),
                classes_out@.len() == 0,
                errors_view(errors@) == export_errors(es, outs, i as int),
                (exports.props_v(), exports.mods_v()) == drain_exports(
                    props0,
                    mods0,
                    es,
                    outs,
                    i as int,
                ),
            decreases n - i,
        {
            let ghost pre_props = exports.props_v();
            let ghost pre_mods = exports.mods_v();
            let entry = &self.exports[i];
            proof {
                assert(es[i as int] == entry@);
            }
            match &entry.js_mod {
                Some(m) => {
                    exports.ensure_ns(m);
                    proof {
                        lemma_ensure_ns_effect(pre_props, pre_mods, m@);
                    }
                },
                None => {},
            }
            let ghost mid_mods = exports.mods_v();
            match outcomes[i] {
                FactoryOutcome::Produced(v) => {
                    match &entry.js_mod {
                        None => {
                            exports.set_top(entry.name.clone(), v);
                        },
                        Some(m) => {
                            proof {
                                lemma_set_ns_effect(pre_props, mid_mods, m@, entry.name@, v);
                            }
                            exports.set_ns(m, entry.name.clone(), v);
                        },
                    }
                },
                FactoryOutcome::Failed => {
                    errors.push(InstallError::ExportFactoryFailed { name: entry.name.clone() });
                },
            }
            proof {
                assert(errors_view(errors@) =~= export_errors(es, outs, i as int + 1));
                assert((exports.props_v(), exports.mods_v()) == drain_step(
                    pre_props,
                    pre_mods,
                    es[i as int],
                    outs[i as int],
                ));
            }
            i += 1;
        }

        // Define the registered classes in flattened order: resolve or
        // create the namespace object, then (if the host definition
        // succeeded) attach the fresh class value, record the constructor
        // reference, and report the definition; a failed definition is
        // surfaced as one error.
        let ghost props1 = exports.props_v();
        let ghost mods1 = exports.mods_v();
        let mut k: usize = 0;
        while k < cnum
            invariant
                k <= cnum,
                cnum == rows.len(),
                rows@.map(|i2: int, r: FlatClass| r@) == rowsv,
                rowsv == flat_classes(old(self)@.classes),
                rowsv.len() == cnum as int,
                es == old(self)@.exports,
                outs == outcomes@,
                es.len() == outs.len(),
                oks == class_oks@,
                oks.len() == cnum as int,
                first_handle + 2 * cnum <= u64::MAX,
                all_ctor_props_ok(rowsv),
                self.exports == old(self).exports,
                self.classes == old(self).classes,
                self.fns == old(self).fns,
                self.module_exports == old(self).module_exports,
                self.registered == old(self).registered,
                props0 == old(exports).props_v(),
                mods0 == old(exports).mods_v(),
                table0 == old(self)@.ctor_table,
                (props1, mods1) == drain_exports(props0, mods0, es, outs, es.len() as int),
                exports.wf(),
                (exports.props_v(), exports.mods_v(), self@.ctor_table) == apply_classes(
                    props1,
                    mods1,
                    table0,
                    rowsv,
                    oks,
                    first_handle,
                    k as int,
                ),
                classes_out@.len() == k as int,
                forall|k2: int|
                    0 <= k2 < k ==> class_report_matches(
                        #[trigger] classes_out@[k2],
                        rowsv[k2],
                        oks[k2],
                        first_handle,
                        k2,
                    ),
                errors_view(errors@) == export_errors(es, outs, es.len() as int) + class_errors(
                    rowsv,
                    oks,
                    k as int,
                ),
            decreases cnum - k,
        {
            let row = &rows[k];
            proof {
                assert(rowsv[k as int] == row@);
            }
            let ghost pre_props = exports.props_v();
            let ghost pre_mods = exports.mods_v();
            let ghost pre_table = self@.ctor_table;
            let ok = class_oks[k];
            let ch = first_handle + 2 * (k as u64);
            let cr = ch + 1;
            let rep = self.install_one_class(exports, row, ok, ch, cr);
            if !ok {
                errors.push(InstallError::ClassDefineFailed { js_name: row.js_name.clone() });
            }
            proof {
                assert(class_report_matches(rep, rowsv[k as int], ok, first_handle, k as int));
            }
            classes_out.push(rep);
            proof {
                let a = export_errors(es, outs, es.len() as int);
                let b = class_errors(rowsv, oks, k as int);
                if !ok {
                    let x = InstallErrorV::ClassDefineFailed { js_name: rowsv[k as int].js_name };
                    assert(class_errors(rowsv, oks, k as int + 1) == b.push(x));
                    assert(errors_view(errors@) =~= (a + b).push(x));
                    assert(a + b.push(x) =~= (a + b).push(x));
                }
                assert(errors_view(errors@) =~= a + class_errors(rowsv, oks, k as int + 1));
                assert((exports.props_v(), exports.mods_v(), self@.ctor_table) == class_step(
                    pre_props,
                    pre_mods,
                    pre_table,
                    rowsv[k as int],
                    oks[k as int],
                    ch,
                    cr,
                ));
            }
            k += 1;
        }

        // Publish: append the whole-module callback errors and flip the
        // registered flag.
        let ghost errs2 = errors@;
        let mut compat_errs = compat_errs;
        errors.append(&mut compat_errs);
        proof {
            assert(errors_view(errors@) =~= errors_view(errs2) + compat_errors(
                compat_oks@,
                mnum as int,
            ));
            assert(errors_view(errors@) =~= export_errors(es, outs, es.len() as int)
                + class_errors(rowsv, oks, cnum as int) + compat_errors(compat_oks@, mnum as int));
        }
        self.registered = true;
        InstallReport { errors, classes: classes_out }
    }
}

impl ClassRecord {
    /// Merge one registration into this record: overwrite the exposed name
    /// and append the properties for the namespace, or add a fresh
    /// per-namespace entry.
    fn merge(&mut self, js_mod: Option<String>, js_name: String, props: Vec<Property>)
        ensures
            final(self).rust_name == old(self).rust_name,
            (final(self).mods@.map(|k: int, e: ClassNsEntry| class_ns_view(e))) == mods_upsert(
                old(self).mods@.map(|k: int, e: ClassNsEntry| class_ns_view(e)),
                opt_view(js_mod),
                js_name@,
                props_view(props@),
            ),
    {
        let ghost morig = self.mods@.map(|k: int, e: ClassNsEntry| class_ns_view(e));
        let ghost psv = props_view(props@);
        let ghost jm = opt_view(js_mod);
        let found = self.find_mod(&js_mod);
        match found {
            Some(i) => {
                proof {
                    lemma_mods_upsert_found(morig, jm, js_name@, psv, i as int);
                }
                let ghost mods0 = self.mods@;
                let mut e = self.mods.remove(i);
                let ghost eprops0 = props_view(e.props@);
                let mut props = props;
                e.js_name = js_name;
                e.props.append(&mut props);
                let ghost ge = e;
                self.mods.insert(i, e);
                proof {
                    assert(self.mods@ =~= mods0.update(i as int, ge));
                    assert(props_view(ge.props@) =~= eprops0 + psv);
                    assert(self.mods@.map(|k: int, e: ClassNsEntry| class_ns_view(e)) =~= morig
                        .update(
                        i as int,
                        (jm, ClsVal { js_name: js_name@, props: morig[i as int].1.props + psv }),
                    ));
                }
            },
            None => {
                proof {
                    lemma_mods_upsert_missing(morig, jm, js_name@, psv);
                }
                self.mods.push(ClassNsEntry { js_mod, js_name, props });
                proof {
                    assert(self.mods@.map(|k: int, e: ClassNsEntry| class_ns_view(e)) =~= morig
                        .push((jm, ClsVal { js_name: js_name@, props: psv })));
                }
            },
        }
    }

    /// The index of this record's entry for a namespace, if any.
    fn find_mod(&self, js_mod: &Option<String>) -> (r: Option<usize>)
        ensures
            match r {
                Some(i) => {
                    let ms = self.mods@.map(|k: int, e: ClassNsEntry| class_ns_view(e));
                    i < ms.len() && ms[i as int].0 == opt_view(*js_mod) && (forall|j: int|
                        0 <= j < i ==> ms[j].0 != opt_view(*js_mod))
                },
                None => {
                    let ms = self.mods@.map(|k: int, e: ClassNsEntry| class_ns_view(e));
                    forall|j: int| 0 <= j < ms.len() ==> ms[j].0 != opt_view(*js_mod)
                },
            },
    {
        let n = self.mods.len();
        let mut i: usize = 0;
        while i < n
            invariant
                i <= n,
                n == self.mods.len(),
                forall|j: int|
                    0 <= j < i ==> class_ns_view(#[trigger] self.mods@[j]).0 != opt_view(*js_mod),
            decreases n - i,
        {
            if opt_str_eq(&self.mods[i].js_mod, js_mod) {
                return Some(i);
            }
            i += 1;
        }
        None
    }

}

} // verus!
