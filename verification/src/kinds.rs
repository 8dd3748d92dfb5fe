//! Binding kinds and the per-kind rule table: whether a kind requires or
//! forbids a receiver, forbids parameters, forbids an external-name override,
//! allows generated signature text, and whether it forces a fixed external
//! name.

use vstd::prelude::*;

use crate::SrcLoc;

verus! {

/// The binding-kind tag spelled on a declaration. Absence of a tag means the
/// declaration is a plain method.
#[derive(Clone, Copy, Debug, PartialEq, Eq, Structural)]
pub enum MethodTypeAttribute {
    New,
    Call,
    ClassMethod,
    ClassAttribute,
    StaticMethod,
    Getter,
    Setter,
}

/// The dispatch role a declaration plays when exposed to the dynamic
/// runtime. Exactly one per declaration; [`BindingKind::Plain`] when no tag
/// is given.
#[derive(Clone, Copy, Debug, PartialEq, Eq, Structural)]
pub enum BindingKind {
    Plain,
    Constructor,
    CallOperator,
    ClassMethod,
    StaticMethod,
    ClassAttribute,
    Getter,
    Setter,
}

/// How the receiver object is bound when the declaration is invoked:
/// not at all, by shared or exclusive borrow, or by a fallible conversion
/// from the runtime's wrapper object into the declared first-parameter type.
#[derive(Clone, Copy, Debug, PartialEq, Eq, Structural)]
pub enum ReceiverBinding {
    Unbound,
    ImmutableBorrow,
    MutableBorrow,
    FallibleConversion { loc: SrcLoc },
}

/// The binding kind named by a tag, or [`BindingKind::Plain`] for no tag.
pub open spec fn kind_of_tag(t: Option<MethodTypeAttribute>) -> BindingKind {
    match t {
        None => BindingKind::Plain,
        Some(MethodTypeAttribute::New) => BindingKind::Constructor,
        Some(MethodTypeAttribute::Call) => BindingKind::CallOperator,
        Some(MethodTypeAttribute::ClassMethod) => BindingKind::ClassMethod,
        Some(MethodTypeAttribute::ClassAttribute) => BindingKind::ClassAttribute,
        Some(MethodTypeAttribute::StaticMethod) => BindingKind::StaticMethod,
        Some(MethodTypeAttribute::Getter) => BindingKind::Getter,
        Some(MethodTypeAttribute::Setter) => BindingKind::Setter,
    }
}

/// Kinds whose first parameter is the receiver slot.
pub open spec fn requires_receiver(k: BindingKind) -> bool {
    match k {
        BindingKind::Plain => true,
        BindingKind::CallOperator => true,
        BindingKind::Getter => true,
        BindingKind::Setter => true,
        _ => false,
    }
}

/// Kinds that admit no parameters at all.
pub open spec fn forbids_parameters(k: BindingKind) -> bool {
    k is ClassAttribute
}

/// Kinds whose external name is fixed, so a user override is an error.
pub open spec fn forbids_name_override(k: BindingKind) -> bool {
    k is Constructor || k is CallOperator
}

/// Kinds on which generated signature text may be requested.
pub open spec fn allows_signature_text(k: BindingKind) -> bool {
    k is Plain || k is ClassMethod || k is StaticMethod
}

/// The executable rule table, one query per rule.
pub fn kind_of_tag_exec(t: Option<MethodTypeAttribute>) -> (k: BindingKind)
    ensures
        k == kind_of_tag(t),
{
    match t {
        None => BindingKind::Plain,
        Some(MethodTypeAttribute::New) => BindingKind::Constructor,
        Some(MethodTypeAttribute::Call) => BindingKind::CallOperator,
        Some(MethodTypeAttribute::ClassMethod) => BindingKind::ClassMethod,
        Some(MethodTypeAttribute::ClassAttribute) => BindingKind::ClassAttribute,
        Some(MethodTypeAttribute::StaticMethod) => BindingKind::StaticMethod,
        Some(MethodTypeAttribute::Getter) => BindingKind::Getter,
        Some(MethodTypeAttribute::Setter) => BindingKind::Setter,
    }
}

/// Whether `k` requires a receiver in its first parameter slot.
pub fn kind_requires_receiver(k: BindingKind) -> (b: bool)
    ensures
        b == requires_receiver(k),
{
    match k {
        BindingKind::Plain => true,
        BindingKind::CallOperator => true,
        BindingKind::Getter => true,
        BindingKind::Setter => true,
        _ => false,
    }
}

/// Whether `k` admits no parameters.
pub fn kind_forbids_parameters(k: BindingKind) -> (b: bool)
    ensures
        b == forbids_parameters(k),
{
    matches!(k, BindingKind::ClassAttribute)
}

/// Whether `k` forbids a user-chosen external name.
pub fn kind_forbids_name_override(k: BindingKind) -> (b: bool)
    ensures
        b == forbids_name_override(k),
{
    matches!(k, BindingKind::Constructor | BindingKind::CallOperator)
}

/// Whether generated signature text may be requested on `k`.
pub fn kind_allows_signature_text(k: BindingKind) -> (b: bool)
    ensures
        b == allows_signature_text(k),
{
    matches!(k, BindingKind::Plain | BindingKind::ClassMethod | BindingKind::StaticMethod)
}

} // verus!
