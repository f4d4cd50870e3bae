//! The records that initializers hand to the registry, their
//! specification-level views, and the error values of the runtime.

use vstd::prelude::*;

verus! {

/// The view of an optional namespace name.
pub open spec fn opt_view(o: Option<String>) -> Option<Seq<char>> {
    match o {
        Some(s) => Some(s@),
        None => None,
    }
}

/// One property of a class: either its constructor slot or a regular member.
/// `method` is the identity of the native callback backing the property.
pub struct Property {
    pub name: String,
    pub is_ctor: bool,
    pub method: Option<u64>,
}

pub struct PropertyV {
    pub name: Seq<char>,
    pub is_ctor: bool,
    pub method: Option<u64>,
}

impl View for Property {
    type V = PropertyV;

    open spec fn view(&self) -> PropertyV {
        PropertyV { name: self.name@, is_ctor: self.is_ctor, method: self.method }
    }
}

/// An export registration: an optional namespace, an exposed name, and the
/// identity of the factory that produces the exported value.
pub struct ExportEntry {
    pub js_mod: Option<String>,
    pub name: String,
    pub factory: u64,
}

pub struct ExportEntryV {
    pub js_mod: Option<Seq<char>>,
    pub name: Seq<char>,
    pub factory: u64,
}

impl View for ExportEntry {
    type V = ExportEntryV;

    open spec fn view(&self) -> ExportEntryV {
        ExportEntryV { js_mod: opt_view(self.js_mod), name: self.name@, factory: self.factory }
    }
}

/// What a factory-identity resolves to: its raw native callback (if any) and
/// its exposed name.
pub struct FnVal {
    pub callback: Option<u64>,
    pub name: Seq<char>,
}

/// A function value materialized for a caller: the exposed name together with
/// the native callback recorded for the factory.
#[derive(Debug)]
pub struct JsFunction {
    pub name: String,
    pub callback: Option<u64>,
}

impl View for JsFunction {
    type V = FnVal;

    open spec fn view(&self) -> FnVal {
        FnVal { callback: self.callback, name: self.name@ }
    }
}

/// The per-namespace record of a class registration.
pub struct ClsVal {
    pub js_name: Seq<char>,
    pub props: Seq<PropertyV>,
}

/// Lookup failures: the factory was never registered (or carries no native
/// callback).
#[derive(Clone, Copy, Debug, PartialEq, Eq, Structural)]
pub enum RegistryError {
    InvalidArg,
}

/// What invoking one export factory came to: the produced host value, or a
/// failure to be surfaced.
#[derive(Clone, Copy)]
pub enum FactoryOutcome {
    Produced(u64),
    Failed,
}

/// One failure surfaced by the installer; installation continues past it.
pub enum InstallError {
    ExportFactoryFailed { name: String },
    ClassDefineFailed { js_name: String },
    ModuleCallbackFailed { index: usize },
}

pub enum InstallErrorV {
    ExportFactoryFailed { name: Seq<char> },
    ClassDefineFailed { js_name: Seq<char> },
    ModuleCallbackFailed { index: int },
}

impl View for InstallError {
    type V = InstallErrorV;

    open spec fn view(&self) -> InstallErrorV {
        match self {
            InstallError::ExportFactoryFailed { name } => InstallErrorV::ExportFactoryFailed {
                name: name@,
            },
            InstallError::ClassDefineFailed { js_name } => InstallErrorV::ClassDefineFailed {
                js_name: js_name@,
            },
            InstallError::ModuleCallbackFailed { index } => InstallErrorV::ModuleCallbackFailed {
                index: *index as int,
            },
        }
    }
}

pub open spec fn errors_view(s: Seq<InstallError>) -> Seq<InstallErrorV> {
    s.map(|i: int, e: InstallError| e@)
}

/// Duplicate a property record; the copy has the same view.
pub fn clone_property(p: &Property) -> (r: Property)
    ensures
        r@ == p@,
{
    Property { name: p.name.clone(), is_ctor: p.is_ctor, method: p.method }
}

} // verus!
