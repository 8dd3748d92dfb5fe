//! Recognition of annotation tag names. Every tag a declaration may carry is
//! mapped to one closed variant; unrecognized tags pass through untouched.

use vstd::prelude::*;

use crate::kinds::MethodTypeAttribute;
use crate::strutil::str_eq;

verus! {

/// The closed set of recognized annotation tags.
#[derive(Clone, Copy, Debug, PartialEq, Eq, Structural)]
pub enum Tag {
    New,
    Call,
    ClassMethod,
    StaticMethod,
    ClassAttr,
    Getter,
    Setter,
    Name,
    Arg,
    Kwarg,
    VarArgs,
    KwArgs,
    TextSignature,
    Doc,
    Other,
}

/// The tag named by a raw annotation's tag text.
pub open spec fn tag_of(s: Seq<char>) -> Tag {
    if s == "new"@ || s == "__new__"@ {
        Tag::New
    } else if s == "call"@ || s == "__call__"@ {
        Tag::Call
    } else if s == "classmethod"@ {
        Tag::ClassMethod
    } else if s == "staticmethod"@ {
        Tag::StaticMethod
    } else if s == "classattr"@ {
        Tag::ClassAttr
    } else if s == "getter"@ {
        Tag::Getter
    } else if s == "setter"@ {
        Tag::Setter
    } else if s == "name"@ {
        Tag::Name
    } else if s == "arg"@ {
        Tag::Arg
    } else if s == "kwarg"@ {
        Tag::Kwarg
    } else if s == "varargs"@ {
        Tag::VarArgs
    } else if s == "kwargs"@ {
        Tag::KwArgs
    } else if s == "text_signature"@ {
        Tag::TextSignature
    } else if s == "doc"@ {
        Tag::Doc
    } else {
        Tag::Other
    }
}

/// The binding kind a tag selects, if it is a binding-kind tag.
pub open spec fn binding_of_tag(t: Tag) -> Option<MethodTypeAttribute> {
    match t {
        Tag::New => Some(MethodTypeAttribute::New),
        Tag::Call => Some(MethodTypeAttribute::Call),
        Tag::ClassMethod => Some(MethodTypeAttribute::ClassMethod),
        Tag::StaticMethod => Some(MethodTypeAttribute::StaticMethod),
        Tag::ClassAttr => Some(MethodTypeAttribute::ClassAttribute),
        Tag::Getter => Some(MethodTypeAttribute::Getter),
        Tag::Setter => Some(MethodTypeAttribute::Setter),
        _ => None,
    }
}

/// True of a tag text that selects a binding kind.
pub open spec fn is_binding_tag(s: Seq<char>) -> bool {
    binding_of_tag(tag_of(s)) is Some
}

/// Recognizes a raw tag name.
pub fn recognize_tag(s: &str) -> (t: Tag)
    ensures
        t == tag_of(s@),
{
    if str_eq(s, "new") || str_eq(s, "__new__") {
        Tag::New
    } else if str_eq(s, "call") || str_eq(s, "__call__") {
        Tag::Call
    } else if str_eq(s, "classmethod") {
        Tag::ClassMethod
    } else if str_eq(s, "staticmethod") {
        Tag::StaticMethod
    } else if str_eq(s, "classattr") {
        Tag::ClassAttr
    } else if str_eq(s, "getter") {
        Tag::Getter
    } else if str_eq(s, "setter") {
        Tag::Setter
    } else if str_eq(s, "name") {
        Tag::Name
    } else if str_eq(s, "arg") {
        Tag::Arg
    } else if str_eq(s, "kwarg") {
        Tag::Kwarg
    } else if str_eq(s, "varargs") {
        Tag::VarArgs
    } else if str_eq(s, "kwargs") {
        Tag::KwArgs
    } else if str_eq(s, "text_signature") {
        Tag::TextSignature
    } else if str_eq(s, "doc") {
        Tag::Doc
    } else {
        Tag::Other
    }
}

} // verus!
