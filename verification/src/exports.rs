//! The host-side exports object as the installer sees it: a property table of
//! plain value handles, plus one nested namespace object per namespace name,
//! created on first use and reused thereafter.

use vstd::prelude::*;
use crate::assoc::{
    assoc_get, assoc_has, assoc_set, assoc_unique, lemma_assoc_first_occurrence,
    lemma_assoc_get_found, lemma_assoc_get_missing, lemma_assoc_no_occurrence,
    lemma_assoc_push_effect, lemma_assoc_set_effect, lemma_assoc_set_found,
    lemma_assoc_set_missing,
};

verus! {

/// A property table: exposed name to value handle, in insertion order.
pub struct PropMap {
    entries: Vec<(String, u64)>,
}

impl PropMap {
    pub closed spec fn view(&self) -> Seq<(Seq<char>, u64)> {
        self.entries@.map(|i: int, p: (String, u64)| (p.0@, p.1))
    }

    pub fn new() -> (m: PropMap)
        ensures
            m@ == Seq::<(Seq<char>, u64)>::empty(),
    {
        let m = PropMap { entries: Vec::new() };
        proof {
            assert(m@ =~= Seq::<(Seq<char>, u64)>::empty());
        }
        m
    }

    pub fn get(&self, name: &String) -> (r: Option<u64>)
        ensures
            r == assoc_get(self@, name@),
    {
        let n = self.entries.len();
        let mut i: usize = 0;
        while i < n
            invariant
                i <= n,
                n == self.entries.len(),
                forall|j: int| 0 <= j < i ==> self@[j].0 != name@,
            decreases n - i,
        {
            if self.entries[i].0.eq(name) {
                proof {
                    lemma_assoc_get_found(self@, name@, i as int);
                }
                return Some(self.entries[i].1);
            }
            i += 1;
        }
        proof {
            lemma_assoc_get_missing(self@, name@);
        }
        None
    }

    /// Attach a value under a name, overwriting any earlier attachment.
    pub fn set(&mut self, name: String, value: u64)
        ensures
            final(self)@ == assoc_set(old(self)@, name@, value),
    {
        let ghost orig = self@;
        let n = self.entries.len();
        let mut i: usize = 0;
        while i < n
            invariant
                i <= n,
                n == self.entries.len(),
                orig == old(self)@,
                self@ == orig,
                forall|j: int| 0 <= j < i ==> orig[j].0 != name@,
            decreases n - i,
        {
            if self.entries[i].0.eq(&name) {
                proof {
                    lemma_assoc_set_found(orig, name@, value, i as int);
                }
                self.entries[i] = (name, value);
                proof {
                    assert(self@ =~= orig.update(i as int, (name@, value)));
                }
                return ;
            }
            i += 1;
        }
        proof {
            lemma_assoc_set_missing(orig, name@, value);
        }
        self.entries.push((name, value));
        proof {
            assert(self@ =~= orig.push((name@, value)));
        }
    }
}

/// The namespace objects attached to the exports object, keyed by namespace
/// name.
pub struct NsMap {
    entries: Vec<(String, PropMap)>,
}

/// Write `value` under `name` in the namespace object `m`; the namespace must
/// exist.  Only the first entry for `m` changes.
pub open spec fn ns_object_set(
    ms: Seq<(Seq<char>, Seq<(Seq<char>, u64)>)>,
    m: Seq<char>,
    name: Seq<char>,
    value: u64,
) -> Seq<(Seq<char>, Seq<(Seq<char>, u64)>)>
    decreases ms.len(),
{
    if ms.len() == 0 {
        ms
    } else if ms[0].0 == m {
        seq![(m, assoc_set(ms[0].1, name, value))] + ms.drop_first()
    } else {
        seq![ms[0]] + ns_object_set(ms.drop_first(), m, name, value)
    }
}

/// `ns_object_set` changes the namespace it writes and no other.
pub proof fn lemma_ns_object_set_get(
    ms: Seq<(Seq<char>, Seq<(Seq<char>, u64)>)>,
    m: Seq<char>,
    name: Seq<char>,
    value: u64,
    probe: Seq<char>,
)
    ensures
        assoc_get(ns_object_set(ms, m, name, value), probe) == if probe == m && assoc_has(ms, m) {
            Some(assoc_set(assoc_get(ms, m).unwrap(), name, value))
        } else {
            assoc_get(ms, probe)
        },
    decreases ms.len(),
{
    let t = ns_object_set(ms, m, name, value);
    if ms.len() == 0 {
    } else if ms[0].0 == m {
        assert(t[0] == (m, assoc_set(ms[0].1, name, value)));
        assert(t.drop_first() =~= ms.drop_first());
    } else {
        lemma_ns_object_set_get(ms.drop_first(), m, name, value, probe);
        assert(t[0] == ms[0]);
        assert(t.drop_first() =~= ns_object_set(ms.drop_first(), m, name, value));
    }
}

/// Writing into the namespace found at index `i` (first occurrence) updates
/// that entry in place.
pub proof fn lemma_ns_object_set_found(
    ms: Seq<(Seq<char>, Seq<(Seq<char>, u64)>)>,
    m: Seq<char>,
    name: Seq<char>,
    value: u64,
    i: int,
)
    requires
        0 <= i < ms.len(),
        ms[i].0 == m,
        forall|j: int| 0 <= j < i ==> ms[j].0 != m,
    ensures
        ns_object_set(ms, m, name, value) == ms.update(i, (m, assoc_set(ms[i].1, name, value))),
    decreases ms.len(),
{
    if i == 0 {
        assert(ns_object_set(ms, m, name, value) =~= ms.update(
            0,
            (m, assoc_set(ms[0].1, name, value)),
        ));
    } else {
        lemma_ns_object_set_found(ms.drop_first(), m, name, value, i - 1);
        assert(ms.drop_first().update(i - 1, (m, assoc_set(ms[i].1, name, value))) =~= ms.update(
            i,
            (m, assoc_set(ms[i].1, name, value)),
        ).drop_first());
        assert(ns_object_set(ms, m, name, value) =~= ms.update(
            i,
            (m, assoc_set(ms[i].1, name, value)),
        ));
    }
}

/// `ns_object_set` keeps namespace keys unique.
pub proof fn lemma_ns_object_set_unique(
    ms: Seq<(Seq<char>, Seq<(Seq<char>, u64)>)>,
    m: Seq<char>,
    name: Seq<char>,
    value: u64,
)
    requires
        assoc_unique(ms),
    ensures
        assoc_unique(ns_object_set(ms, m, name, value)),
{
    if assoc_has(ms, m) {
        lemma_assoc_first_occurrence(ms, m);
        let i = choose|i: int|
            0 <= i < ms.len() && ms[i].0 == m && (forall|j: int| 0 <= j < i ==> ms[j].0 != m);
        lemma_ns_object_set_found(ms, m, name, value, i);
    } else {
        lemma_assoc_no_occurrence(ms, m);
        lemma_ns_object_set_missing(ms, m, name, value);
    }
}

/// Writing into an absent namespace changes nothing.
pub proof fn lemma_ns_object_set_missing(
    ms: Seq<(Seq<char>, Seq<(Seq<char>, u64)>)>,
    m: Seq<char>,
    name: Seq<char>,
    value: u64,
)
    requires
        forall|j: int| 0 <= j < ms.len() ==> ms[j].0 != m,
    ensures
        ns_object_set(ms, m, name, value) == ms,
    decreases ms.len(),
{
    if ms.len() > 0 {
        lemma_ns_object_set_missing(ms.drop_first(), m, name, value);
        assert(ns_object_set(ms, m, name, value) =~= ms);
    }
}

impl NsMap {
    pub closed spec fn view(&self) -> Seq<(Seq<char>, Seq<(Seq<char>, u64)>)> {
        self.entries@.map(|i: int, p: (String, PropMap)| (p.0@, p.1@))
    }

    pub fn new() -> (m: NsMap)
        ensures
            m@ == Seq::<(Seq<char>, Seq<(Seq<char>, u64)>)>::empty(),
    {
        let m = NsMap { entries: Vec::new() };
        proof {
            assert(m@ =~= Seq::<(Seq<char>, Seq<(Seq<char>, u64)>)>::empty());
        }
        m
    }

    pub fn len(&self) -> (n: usize)
        ensures
            n == self@.len(),
    {
        self.entries.len()
    }

    fn find(&self, name: &String) -> (r: Option<usize>)
        ensures
            match r {
                Some(i) => i < self@.len() && self@[i as int].0 == name@ && (forall|j: int|
                    0 <= j < i ==> self@[j].0 != name@),
                None => forall|j: int| 0 <= j < self@.len() ==> self@[j].0 != name@,
            },
    {
        let n = self.entries.len();
        let mut i: usize = 0;
        while i < n
            invariant
                i <= n,
                n == self.entries.len(),
                forall|j: int| 0 <= j < i ==> self@[j].0 != name@,
            decreases n - i,
        {
            if self.entries[i].0.eq(name) {
                return Some(i);
            }
            i += 1;
        }
        None
    }

    pub fn has(&self, name: &String) -> (r: bool)
        ensures
            r == assoc_has(self@, name@),
    {
        let r = self.find(name);
        proof {
            match r {
                Some(i) => lemma_assoc_get_found(self@, name@, i as int),
                None => lemma_assoc_get_missing(self@, name@),
            }
        }
        r.is_some()
    }

    /// Look a value up inside the namespace object for `ns`.
    pub fn get_in(&self, ns: &String, name: &String) -> (r: Option<u64>)
        ensures
            r == match assoc_get(self@, ns@) {
                Some(obj) => assoc_get(obj, name@),
                None => None::<u64>,
            },
    {
        match self.find(ns) {
            Some(i) => {
                proof {
                    lemma_assoc_get_found(self@, ns@, i as int);
                }
                self.entries[i].1.get(name)
            },
            None => {
                proof {
                    lemma_assoc_get_missing(self@, ns@);
                }
                None
            },
        }
    }

    /// Create the namespace object for `name` if it does not exist yet.
    pub fn ensure(&mut self, name: &String)
        ensures
            final(self)@ == ns_ensure(old(self)@, name@),
    {
        let ghost orig = self@;
        match self.find(name) {
            Some(i) => {
                proof {
                    lemma_assoc_get_found(orig, name@, i as int);
                }
            },
            None => {
                proof {
                    lemma_assoc_get_missing(orig, name@);
                }
                self.entries.push((name.clone(), PropMap::new()));
                proof {
                    assert(self@ =~= orig.push((name@, Seq::<(Seq<char>, u64)>::empty())));
                }
            },
        }
    }

    /// Attach a value under `name` inside the namespace object for `ns`,
    /// which must exist.
    #[verifier::rlimit(30)]
    pub fn set_in(&mut self, ns: &String, name: String, value: u64)
        requires
            assoc_has(old(self)@, ns@),
        ensures
            final(self)@ == ns_object_set(old(self)@, ns@, name@, value),
    {
        let ghost orig = self@;
        let ghost entries0 = self.entries@;
        let found = self.find(ns);
        match found {
            Some(i) => {
                proof {
                    lemma_ns_object_set_found(orig, ns@, name@, value, i as int);
                }
                let mut entry = self.entries.remove(i);
                let ghost inner0 = entry.1@;
                proof {
                    assert(inner0 == orig[i as int].1);
                    assert(entry.0@ == ns@);
                }
                entry.1.set(name, value);
                let ghost gentry = entry;
                self.entries.insert(i, entry);
                proof {
                    assert(self.entries@ =~= entries0.update(i as int, gentry));
                    assert(gentry.1@ == assoc_set(orig[i as int].1, name@, value));
                    assert(self@ =~= orig.update(
                        i as int,
                        (ns@, assoc_set(orig[i as int].1, name@, value)),
                    ));
                }
            },
            None => {
                proof {
                    lemma_assoc_get_missing(orig, ns@);
                    assert(false);
                }
            },
        }
    }
}

/// The value attached under `name` in an exports object with top-level
/// properties `props` and namespace objects `mods`.
pub open spec fn obj_get(
    props: Seq<(Seq<char>, u64)>,
    mods: Seq<(Seq<char>, Seq<(Seq<char>, u64)>)>,
    js_mod: Option<Seq<char>>,
    name: Seq<char>,
) -> Option<u64> {
    match js_mod {
        None => assoc_get(props, name),
        Some(m) => match assoc_get(mods, m) {
            Some(obj) => assoc_get(obj, name),
            None => None,
        },
    }
}

/// The effect of `ns_object_set` on every namespace lookup at once.
pub proof fn lemma_ns_object_set_effect(
    ms: Seq<(Seq<char>, Seq<(Seq<char>, u64)>)>,
    m: Seq<char>,
    name: Seq<char>,
    value: u64,
)
    requires
        assoc_has(ms, m),
    ensures
        assoc_get(ns_object_set(ms, m, name, value), m) == Some(
            assoc_set(assoc_get(ms, m).unwrap(), name, value),
        ),
        forall|probe: Seq<char>|
            probe != m ==> #[trigger] assoc_get(ns_object_set(ms, m, name, value), probe)
                == assoc_get(ms, probe),
{
    lemma_ns_object_set_get(ms, m, name, value, m);
    assert forall|probe: Seq<char>| probe != m implies #[trigger] assoc_get(
        ns_object_set(ms, m, name, value),
        probe,
    ) == assoc_get(ms, probe) by {
        lemma_ns_object_set_get(ms, m, name, value, probe);
    }
}

/// The namespace map after making sure `m` has an object.
pub open spec fn ns_ensure(
    ms: Seq<(Seq<char>, Seq<(Seq<char>, u64)>)>,
    m: Seq<char>,
) -> Seq<(Seq<char>, Seq<(Seq<char>, u64)>)> {
    if assoc_has(ms, m) {
        ms
    } else {
        ms.push((m, Seq::<(Seq<char>, u64)>::empty()))
    }
}

/// Making sure a namespace object exists changes no attached value.
pub proof fn lemma_ensure_ns_effect(
    props: Seq<(Seq<char>, u64)>,
    mods: Seq<(Seq<char>, Seq<(Seq<char>, u64)>)>,
    m: Seq<char>,
)
    ensures
        assoc_has(ns_ensure(mods, m), m),
        forall|m2: Seq<char>|
            m2 != m ==> #[trigger] assoc_get(ns_ensure(mods, m), m2) == assoc_get(mods, m2),
        forall|jm: Option<Seq<char>>, nm: Seq<char>|
            #[trigger] obj_get(props, ns_ensure(mods, m), jm, nm) == obj_get(props, mods, jm, nm),
        assoc_unique(mods) ==> assoc_unique(ns_ensure(mods, m)),
{
    let t = ns_ensure(mods, m);
    if !assoc_has(mods, m) {
        lemma_assoc_push_effect(mods, m, Seq::<(Seq<char>, u64)>::empty());
    }
    assert forall|jm: Option<Seq<char>>, nm: Seq<char>| #[trigger] obj_get(props, t, jm, nm)
        == obj_get(props, mods, jm, nm) by {
        match jm {
            Some(mm) => {
                if mm == m && !assoc_has(mods, m) {
                    assert(assoc_get(t, m) == Some(Seq::<(Seq<char>, u64)>::empty()));
                    assert(assoc_get(Seq::<(Seq<char>, u64)>::empty(), nm) == None::<u64>);
                }
            },
            None => {},
        }
    }
}

/// Attaching a value at top level changes that key's lookup and no other.
pub proof fn lemma_set_top_effect(
    props: Seq<(Seq<char>, u64)>,
    mods: Seq<(Seq<char>, Seq<(Seq<char>, u64)>)>,
    name: Seq<char>,
    value: u64,
)
    ensures
        obj_get(assoc_set(props, name, value), mods, None, name) == Some(value),
        forall|jm: Option<Seq<char>>, nm: Seq<char>|
            !(jm == None::<Seq<char>> && nm == name) ==> #[trigger] obj_get(
                assoc_set(props, name, value),
                mods,
                jm,
                nm,
            ) == obj_get(props, mods, jm, nm),
{
    lemma_assoc_set_effect(props, name, value);
}

/// Attaching a value inside an existing namespace object changes that key's
/// lookup and no other.
pub proof fn lemma_set_ns_effect(
    props: Seq<(Seq<char>, u64)>,
    mods: Seq<(Seq<char>, Seq<(Seq<char>, u64)>)>,
    m: Seq<char>,
    name: Seq<char>,
    value: u64,
)
    requires
        assoc_has(mods, m),
    ensures
        obj_get(props, ns_object_set(mods, m, name, value), Some(m), name) == Some(value),
        forall|jm: Option<Seq<char>>, nm: Seq<char>|
            !(jm == Some(m) && nm == name) ==> #[trigger] obj_get(
                props,
                ns_object_set(mods, m, name, value),
                jm,
                nm,
            ) == obj_get(props, mods, jm, nm),
        assoc_unique(mods) ==> assoc_unique(ns_object_set(mods, m, name, value)),
        assoc_has(ns_object_set(mods, m, name, value), m),
        forall|m2: Seq<char>|
            m2 != m ==> #[trigger] assoc_get(ns_object_set(mods, m, name, value), m2) == assoc_get(
                mods,
                m2,
            ),
{
    let t = ns_object_set(mods, m, name, value);
    lemma_ns_object_set_effect(mods, m, name, value);
    lemma_assoc_set_effect(assoc_get(mods, m).unwrap(), name, value);
    if assoc_unique(mods) {
        lemma_ns_object_set_unique(mods, m, name, value);
    }
    assert forall|jm: Option<Seq<char>>, nm: Seq<char>|
        !(jm == Some(m) && nm == name) implies #[trigger] obj_get(props, t, jm, nm) == obj_get(
        props,
        mods,
        jm,
        nm,
    ) by {
        match jm {
            Some(mm) => {
                if mm == m {
                    assert(assoc_get(t, m) == Some(
                        assoc_set(assoc_get(mods, m).unwrap(), name, value),
                    ));
                }
            },
            None => {},
        }
    }
}

/// The exports object handed to the installer: its top-level properties and
/// the namespace objects attached to it.
pub struct ExportsObject {
    props: PropMap,
    mods: NsMap,
}

impl ExportsObject {
    pub closed spec fn props_v(&self) -> Seq<(Seq<char>, u64)> {
        self.props@
    }

    pub closed spec fn mods_v(&self) -> Seq<(Seq<char>, Seq<(Seq<char>, u64)>)> {
        self.mods@
    }

    /// Namespace names are unique: at most one namespace object per name.
    pub open spec fn wf(&self) -> bool {
        assoc_unique(self.mods_v())
    }

    /// The value attached under `name`, at top level or inside the namespace
    /// object for `js_mod`.
    pub open spec fn spec_get(&self, js_mod: Option<Seq<char>>, name: Seq<char>) -> Option<u64> {
        obj_get(self.props_v(), self.mods_v(), js_mod, name)
    }

    pub fn new() -> (e: ExportsObject)
        ensures
            e.props_v() == Seq::<(Seq<char>, u64)>::empty(),
            e.mods_v() == Seq::<(Seq<char>, Seq<(Seq<char>, u64)>)>::empty(),
            e.wf(),
    {
        ExportsObject { props: PropMap::new(), mods: NsMap::new() }
    }

    pub fn get_export(&self, js_mod: &Option<String>, name: &String) -> (r: Option<u64>)
        ensures
            r == self.spec_get(crate::types::opt_view(*js_mod), name@),
    {
        match js_mod {
            None => self.props.get(name),
            Some(m) => self.mods.get_in(m, name),
        }
    }

    pub fn has_namespace(&self, name: &String) -> (r: bool)
        ensures
            r == assoc_has(self.mods_v(), name@),
    {
        self.mods.has(name)
    }

    pub fn namespace_count(&self) -> (n: usize)
        ensures
            n == self.mods_v().len(),
    {
        self.mods.len()
    }

    /// Attach a value at top level, overwriting any earlier attachment.
    pub fn set_top(&mut self, name: String, value: u64)
        ensures
            final(self).props_v() == assoc_set(old(self).props_v(), name@, value),
            final(self).mods_v() == old(self).mods_v(),
    {
        self.props.set(name, value);
    }

    /// Create the namespace object for `name` if it does not exist yet.
    pub fn ensure_ns(&mut self, name: &String)
        ensures
            final(self).props_v() == old(self).props_v(),
            final(self).mods_v() == ns_ensure(old(self).mods_v(), name@),
    {
        self.mods.ensure(name);
    }

    /// Attach a value inside the namespace object for `ns`, which must exist.
    pub fn set_ns(&mut self, ns: &String, name: String, value: u64)
        requires
            assoc_has(old(self).mods_v(), ns@),
        ensures
            final(self).props_v() == old(self).props_v(),
            final(self).mods_v() == ns_object_set(old(self).mods_v(), ns@, name@, value),
    {
        self.mods.set_in(ns, name, value);
    }
}

} // verus!
