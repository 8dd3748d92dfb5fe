//! The laws of signature assembly: what holds of every declaration, proved
//! once and for all over the assembly model. Each public proof function here
//! states one guarantee of [`crate::assemble::assemble_spec`], which
//! [`crate::assemble::CallSpec::parse`] returns exactly.

use vstd::prelude::*;

use crate::assemble::{
    assemble_spec, external_name_spec, walk_spec, walk_step, walk_upto, CallSpecV,
};
use crate::ast::{decl_wf, AnnotationV, DeclarationV, ParamV};
use crate::argtable::ArgumentAttributeV;
use crate::classify::{
    classify_finish, classify_spec, classify_step, classify_upto, valid_name_text, ClassifiedV,
};
use crate::diag::{DiagnosticV, ErrorKind};
use crate::kinds::{
    forbids_parameters, kind_of_tag, requires_receiver, BindingKind,
};
use crate::strutil::{strip_prefix_spec, unraw_spec};
use crate::tags::{is_binding_tag, Tag};

verus! {

/// Some diagnostic of kind `k` was reported.
pub open spec fn has_kind(diags: Seq<DiagnosticV>, k: ErrorKind) -> bool {
    exists|i: int| 0 <= i < diags.len() && diags[i].kind == k
}

/// `a` is an initial segment of `b`.
pub open spec fn is_prefix(a: Seq<DiagnosticV>, b: Seq<DiagnosticV>) -> bool {
    a.len() <= b.len() && forall|i: int| 0 <= i < a.len() ==> b[i] == a[i]
}

proof fn lemma_has_kind_concat_l(a: Seq<DiagnosticV>, b: Seq<DiagnosticV>, k: ErrorKind)
    requires
        has_kind(a, k),
    ensures
        has_kind(a + b, k),
{
    let i = choose|i: int| 0 <= i < a.len() && a[i].kind == k;
    assert((a + b)[i] == a[i]);
}

proof fn lemma_has_kind_concat_r(a: Seq<DiagnosticV>, b: Seq<DiagnosticV>, k: ErrorKind)
    requires
        has_kind(b, k),
    ensures
        has_kind(a + b, k),
{
    let i = choose|i: int| 0 <= i < b.len() && b[i].kind == k;
    assert((a + b)[a.len() + i] == b[i]);
}

/// The diagnostics already reported when the assembler reaches a later
/// stage survive into the final list.
proof fn lemma_assemble_err_when(d: DeclarationV, k: ErrorKind)
    requires
        ({
            let c = classify_spec(d.annotations);
            let kind = kind_of_tag(c.kind_tag);
            let rr = crate::receiver::resolve_receiver_spec(kind, d.params, d.loc);
            let dd = crate::assemble::decl_issues_spec(kind, d);
            let names = crate::assemble::names_of(d.params, rr.skip);
            let tb = crate::argtable::table_spec(c.arg_attrs, names);
            let w = walk_spec(d.params, tb.entries, rr.skip);
            let rt = crate::assemble::return_info_spec(d.return_type, d.loc);
            let ri = crate::assemble::return_issue_spec(rt);
            let nr = external_name_spec(kind, c.name_override, d.name, d.loc);
            let sr = crate::assemble::signature_text_spec(kind, c.text_signature);
            has_kind(
                c.diags + crate::assemble::opt_diags(rr.issue) + dd + tb.diags + w.diags
                    + crate::assemble::opt_diags(ri) + crate::assemble::opt_diags(nr.issue)
                    + crate::assemble::opt_diags(sr.issue),
                k,
            )
        }),
    ensures
        assemble_spec(d) is Err,
        has_kind(assemble_spec(d)->Err_0, k),
{
    let i = choose|i: int|
        0 <= i < assemble_spec(d)->Err_0.len() && assemble_spec(d)->Err_0[i].kind == k;
}

/// A classification step never erases an already-chosen binding kind, and a
/// non-binding tag never chooses one.
proof fn lemma_step_kind(c: ClassifiedV, a: AnnotationV)
    ensures
        c.kind_tag is Some ==> classify_step(c, a).kind_tag == c.kind_tag,
        !is_binding_tag(a.tag) ==> classify_step(c, a).kind_tag == c.kind_tag,
{
}

/// A classification step only appends diagnostics.
proof fn lemma_step_diags(c: ClassifiedV, a: AnnotationV)
    ensures
        is_prefix(c.diags, classify_step(c, a).diags),
{
}

proof fn lemma_upto_prefix(anns: Seq<AnnotationV>, m: int, n: int)
    requires
        0 <= m <= n,
    ensures
        is_prefix(classify_upto(anns, m).diags, classify_upto(anns, n).diags),
        classify_upto(anns, m).kind_tag is Some ==> classify_upto(anns, n).kind_tag
            == classify_upto(anns, m).kind_tag,
    decreases n - m,
{
    if m < n {
        lemma_upto_prefix(anns, m, n - 1);
        lemma_step_diags(classify_upto(anns, n - 1), anns[n - 1]);
        lemma_step_kind(classify_upto(anns, n - 1), anns[n - 1]);
    }
}

/// Finishing classification only appends diagnostics and keeps the partition.
proof fn lemma_finish(c: ClassifiedV)
    ensures
        is_prefix(c.diags, classify_finish(c).diags),
        classify_finish(c).kind_tag == c.kind_tag,
        classify_finish(c).name_override == c.name_override,
{
}

/// With no binding-kind tag among the first `n` annotations, none is chosen.
proof fn lemma_upto_kind_none(anns: Seq<AnnotationV>, n: int)
    requires
        0 <= n <= anns.len(),
        forall|i: int| 0 <= i < n ==> !is_binding_tag(#[trigger] anns[i].tag),
    ensures
        classify_upto(anns, n).kind_tag is None,
    decreases n,
{
    if n > 0 {
        lemma_upto_kind_none(anns, n - 1);
        lemma_step_kind(classify_upto(anns, n - 1), anns[n - 1]);
    }
}

/// A declaration with no binding-kind annotation is a plain method, and a
/// plain method requires a receiver: with no parameter at all it is rejected
/// for the missing receiver.
pub proof fn lemma_default_binding_kind(d: DeclarationV)
    requires
        forall|i: int| 0 <= i < d.annotations.len() ==> !is_binding_tag(#[trigger] d.annotations[i].tag),
    ensures
        kind_of_tag(classify_spec(d.annotations).kind_tag) == BindingKind::Plain,
        requires_receiver(BindingKind::Plain),
        d.params.len() == 0 ==> assemble_spec(d) is Err && has_kind(
            assemble_spec(d)->Err_0,
            ErrorKind::MissingReceiver,
        ),
{
    lemma_upto_kind_none(d.annotations, d.annotations.len() as int);
    lemma_finish(classify_upto(d.annotations, d.annotations.len() as int));
    let c = classify_spec(d.annotations);
    let kind = kind_of_tag(c.kind_tag);
    if d.params.len() == 0 {
        let rr = crate::receiver::resolve_receiver_spec(kind, d.params, d.loc);
        assert(has_kind(crate::assemble::opt_diags(rr.issue), ErrorKind::MissingReceiver)) by {
            assert(crate::assemble::opt_diags(rr.issue)[0].kind == ErrorKind::MissingReceiver);
        };
        lemma_has_kind_concat_chain(d, ErrorKind::MissingReceiver, 1);
    }
}

/// Extends `has_kind` over one of the eight diagnostic groups of assembly to
/// the whole final list: group 0 is the classifier's, 1 the receiver's, 2 the
/// declaration-level checks', 3 the table's, 4 the walk's, 5 the return
/// type's, 6 the name derivation's and 7 the signature-text check's.
proof fn lemma_has_kind_concat_chain(d: DeclarationV, k: ErrorKind, group: int)
    requires
        0 <= group <= 7,
        ({
            let c = classify_spec(d.annotations);
            let kind = kind_of_tag(c.kind_tag);
            let rr = crate::receiver::resolve_receiver_spec(kind, d.params, d.loc);
            let dd = crate::assemble::decl_issues_spec(kind, d);
            let names = crate::assemble::names_of(d.params, rr.skip);
            let tb = crate::argtable::table_spec(c.arg_attrs, names);
            let w = walk_spec(d.params, tb.entries, rr.skip);
            let rt = crate::assemble::return_info_spec(d.return_type, d.loc);
            let ri = crate::assemble::return_issue_spec(rt);
            let nr = external_name_spec(kind, c.name_override, d.name, d.loc);
            let sr = crate::assemble::signature_text_spec(kind, c.text_signature);
            if group == 0 {
                has_kind(c.diags, k)
            } else if group == 1 {
                has_kind(crate::assemble::opt_diags(rr.issue), k)
            } else if group == 2 {
                has_kind(dd, k)
            } else if group == 3 {
                has_kind(tb.diags, k)
            } else if group == 4 {
                has_kind(w.diags, k)
            } else if group == 5 {
                has_kind(crate::assemble::opt_diags(ri), k)
            } else if group == 6 {
                has_kind(crate::assemble::opt_diags(nr.issue), k)
            } else {
                has_kind(crate::assemble::opt_diags(sr.issue), k)
            }
        }),
    ensures
        assemble_spec(d) is Err,
        has_kind(assemble_spec(d)->Err_0, k),
{
    let c = classify_spec(d.annotations);
    let kind = kind_of_tag(c.kind_tag);
    let rr = crate::receiver::resolve_receiver_spec(kind, d.params, d.loc);
    let dd = crate::assemble::decl_issues_spec(kind, d);
    let names = crate::assemble::names_of(d.params, rr.skip);
    let tb = crate::argtable::table_spec(c.arg_attrs, names);
    let w = walk_spec(d.params, tb.entries, rr.skip);
    let rt = crate::assemble::return_info_spec(d.return_type, d.loc);
    let ri = crate::assemble::return_issue_spec(rt);
    let nr = external_name_spec(kind, c.name_override, d.name, d.loc);
    let sr = crate::assemble::signature_text_spec(kind, c.text_signature);
    let s0 = c.diags;
    let s1 = s0 + crate::assemble::opt_diags(rr.issue);
    let s2 = s1 + dd;
    let s3 = s2 + tb.diags;
    let s4 = s3 + w.diags;
    let s5 = s4 + crate::assemble::opt_diags(ri);
    let s6 = s5 + crate::assemble::opt_diags(nr.issue);
    let s7 = s6 + crate::assemble::opt_diags(sr.issue);
    if group == 0 {
        lemma_has_kind_concat_l(s0, crate::assemble::opt_diags(rr.issue), k);
    }
    if group <= 1 {
        if group == 1 {
            lemma_has_kind_concat_r(s0, crate::assemble::opt_diags(rr.issue), k);
        }
        lemma_has_kind_concat_l(s1, dd, k);
    }
    if group <= 2 {
        if group == 2 {
            lemma_has_kind_concat_r(s1, dd, k);
        }
        lemma_has_kind_concat_l(s2, tb.diags, k);
    }
    if group <= 3 {
        if group == 3 {
            lemma_has_kind_concat_r(s2, tb.diags, k);
        }
        lemma_has_kind_concat_l(s3, w.diags, k);
    }
    if group <= 4 {
        if group == 4 {
            lemma_has_kind_concat_r(s3, w.diags, k);
        }
        lemma_has_kind_concat_l(s4, crate::assemble::opt_diags(ri), k);
    }
    if group <= 5 {
        if group == 5 {
            lemma_has_kind_concat_r(s4, crate::assemble::opt_diags(ri), k);
        }
        lemma_has_kind_concat_l(s5, crate::assemble::opt_diags(nr.issue), k);
    }
    if group <= 6 {
        if group == 6 {
            lemma_has_kind_concat_r(s5, crate::assemble::opt_diags(nr.issue), k);
        }
        lemma_has_kind_concat_l(s6, crate::assemble::opt_diags(sr.issue), k);
    } else {
        lemma_has_kind_concat_r(s6, crate::assemble::opt_diags(sr.issue), k);
    }
    assert(has_kind(s7, k));
    assert(assemble_spec(d) is Err);
}

/// Processing a binding-kind tag when one is already chosen reports a
/// structural conflict.
proof fn lemma_second_tag_step(c: ClassifiedV, a: AnnotationV)
    requires
        c.kind_tag is Some,
        is_binding_tag(a.tag),
    ensures
        has_kind(classify_step(c, a).diags, ErrorKind::StructuralConflict),
{
    let st = classify_step(c, a);
    match crate::tags::tag_of(a.tag) {
        Tag::New | Tag::Call | Tag::ClassMethod | Tag::StaticMethod | Tag::ClassAttr => {
            let c1 = if a.values.len() > 0 {
                ClassifiedV {
                    diags: c.diags.push(
                        DiagnosticV {
                            kind: ErrorKind::IllegalAttributePlacement,
                            message: "this binding kind does not take a value"@,
                            loc: a.loc,
                        },
                    ),
                    ..c
                }
            } else {
                c
            };
            assert(st.diags[c1.diags.len() as int].kind == ErrorKind::StructuralConflict);
        },
        Tag::Getter | Tag::Setter => {
            let p = c.diags.len() as int;
            assert(st.diags[p].kind == ErrorKind::StructuralConflict);
        },
        _ => {
            assert(false);
        },
    }
}

/// Two binding-kind annotations — of any spellings — reject the declaration
/// with a structural conflict, never a silent override.
pub proof fn lemma_two_binding_kinds_conflict(d: DeclarationV, i: int, j: int)
    requires
        0 <= i < j < d.annotations.len(),
        is_binding_tag(d.annotations[i].tag),
        is_binding_tag(d.annotations[j].tag),
    ensures
        assemble_spec(d) is Err,
        has_kind(assemble_spec(d)->Err_0, ErrorKind::StructuralConflict),
{
    let anns = d.annotations;
    let before = classify_upto(anns, i);
    lemma_step_kind(before, anns[i]);
    assert(classify_upto(anns, i + 1).kind_tag is Some) by {
        if before.kind_tag is None {
            assert(classify_upto(anns, i + 1) == classify_step(before, anns[i]));
        }
    };
    lemma_upto_prefix(anns, i + 1, j);
    let at_j = classify_upto(anns, j);
    assert(at_j.kind_tag is Some);
    lemma_second_tag_step(at_j, anns[j]);
    assert(classify_upto(anns, j + 1) == classify_step(at_j, anns[j]));
    lemma_upto_prefix(anns, j + 1, anns.len() as int);
    let folded = classify_upto(anns, anns.len() as int);
    assert(has_kind(folded.diags, ErrorKind::StructuralConflict)) by {
        let stepped = classify_upto(anns, j + 1).diags;
        let p = choose|p: int|
            0 <= p < stepped.len() && #[trigger] stepped[p].kind == ErrorKind::StructuralConflict;
        assert(folded.diags[p].kind == ErrorKind::StructuralConflict);
    };
    lemma_finish(folded);
    assert(has_kind(classify_spec(anns).diags, ErrorKind::StructuralConflict)) by {
        let p = choose|p: int|
            0 <= p < folded.diags.len() && folded.diags[p].kind == ErrorKind::StructuralConflict;
        assert(classify_spec(anns).diags[p].kind == ErrorKind::StructuralConflict);
    };
    lemma_has_kind_concat_chain(d, ErrorKind::StructuralConflict, 0);
}

/// A class-attribute declaration with any parameter at all is rejected.
pub proof fn lemma_class_attribute_forbids_parameters(d: DeclarationV)
    requires
        kind_of_tag(classify_spec(d.annotations).kind_tag) == BindingKind::ClassAttribute,
        d.params.len() > 0,
    ensures
        assemble_spec(d) is Err,
        has_kind(assemble_spec(d)->Err_0, ErrorKind::IllegalAttributePlacement),
{
    let kind = kind_of_tag(classify_spec(d.annotations).kind_tag);
    let dd = crate::assemble::decl_issues_spec(kind, d);
    assert(has_kind(dd, ErrorKind::IllegalAttributePlacement)) by {
        assert(dd[dd.len() - 1].kind == ErrorKind::IllegalAttributePlacement);
    };
    lemma_has_kind_concat_chain(d, ErrorKind::IllegalAttributePlacement, 2);
}

/// The walk only appends diagnostics.
proof fn lemma_walk_prefix(
    params: Seq<ParamV>,
    entries: Seq<ArgumentAttributeV>,
    skip: int,
    m: int,
    n: int,
)
    requires
        m <= n,
    ensures
        is_prefix(walk_upto(params, entries, skip, m).diags, walk_upto(params, entries, skip, n).diags),
    decreases n - m,
{
    if m < n {
        lemma_walk_prefix(params, entries, skip, m, n - 1);
    }
}

/// A parameter whose shape is rejected — a receiver outside the receiver
/// slot, an existential type, or a generic type parameter — makes the walk
/// report an unsupported shape.
proof fn lemma_walk_rejects(
    params: Seq<ParamV>,
    entries: Seq<ArgumentAttributeV>,
    skip: int,
    k: int,
)
    requires
        0 <= skip <= k < params.len(),
        params[k].ty.shape is SelfRef || params[k].ty.shape is Existential || params[k].ty.shape
            is Generic,
    ensures
        has_kind(
            walk_spec(params, entries, skip).diags,
            ErrorKind::UnsupportedParameterShape,
        ),
{
    let before = walk_upto(params, entries, skip, k);
    let after = walk_upto(params, entries, skip, k + 1);
    assert(after == walk_step(before, params[k], entries));
    assert(after.diags[before.diags.len() as int].kind == ErrorKind::UnsupportedParameterShape);
    lemma_walk_prefix(params, entries, skip, k + 1, params.len() as int);
    let p = before.diags.len() as int;
    assert(walk_spec(params, entries, skip).diags[p].kind == ErrorKind::UnsupportedParameterShape);
}

/// A static-method declaration whose first parameter is a receiver-shaped
/// self reference is rejected: the kind forbids a receiver.
pub proof fn lemma_static_method_rejects_receiver(d: DeclarationV)
    requires
        kind_of_tag(classify_spec(d.annotations).kind_tag) == BindingKind::StaticMethod,
        d.params.len() > 0,
        d.params[0].ty.shape is SelfRef,
    ensures
        assemble_spec(d) is Err,
        has_kind(assemble_spec(d)->Err_0, ErrorKind::UnsupportedParameterShape),
{
    let c = classify_spec(d.annotations);
    let kind = kind_of_tag(c.kind_tag);
    let rr = crate::receiver::resolve_receiver_spec(kind, d.params, d.loc);
    assert(rr.skip == 0);
    let names = crate::assemble::names_of(d.params, rr.skip);
    let tb = crate::argtable::table_spec(c.arg_attrs, names);
    lemma_walk_rejects(d.params, tb.entries, 0, 0);
    lemma_has_kind_concat_chain(d, ErrorKind::UnsupportedParameterShape, 4);
}

/// A getter with no parameter at all has no receiver to bind and is
/// rejected.
pub proof fn lemma_getter_requires_receiver(d: DeclarationV)
    requires
        kind_of_tag(classify_spec(d.annotations).kind_tag) == BindingKind::Getter,
        d.params.len() == 0,
    ensures
        assemble_spec(d) is Err,
        has_kind(assemble_spec(d)->Err_0, ErrorKind::MissingReceiver),
{
    let c = classify_spec(d.annotations);
    let kind = kind_of_tag(c.kind_tag);
    let rr = crate::receiver::resolve_receiver_spec(kind, d.params, d.loc);
    assert(has_kind(crate::assemble::opt_diags(rr.issue), ErrorKind::MissingReceiver)) by {
        assert(crate::assemble::opt_diags(rr.issue)[0].kind == ErrorKind::MissingReceiver);
    };
    lemma_has_kind_concat_chain(d, ErrorKind::MissingReceiver, 1);
}

/// A declaration with open generic type parameters is rejected, whatever its
/// binding kind.
pub proof fn lemma_generics_rejected(d: DeclarationV)
    requires
        d.has_generics,
    ensures
        assemble_spec(d) is Err,
        has_kind(assemble_spec(d)->Err_0, ErrorKind::UnsupportedParameterShape),
{
    let kind = kind_of_tag(classify_spec(d.annotations).kind_tag);
    let dd = crate::assemble::decl_issues_spec(kind, d);
    assert(has_kind(dd, ErrorKind::UnsupportedParameterShape)) by {
        if d.is_async {
            assert(dd[1].kind == ErrorKind::UnsupportedParameterShape);
        } else {
            assert(dd[0].kind == ErrorKind::UnsupportedParameterShape);
        }
    };
    lemma_has_kind_concat_chain(d, ErrorKind::UnsupportedParameterShape, 2);
}

/// A suspend-capable (asynchronous) declaration is rejected, however
/// well-formed otherwise.
pub proof fn lemma_async_rejected(d: DeclarationV)
    requires
        d.is_async,
    ensures
        assemble_spec(d) is Err,
        has_kind(assemble_spec(d)->Err_0, ErrorKind::UnsupportedParameterShape),
{
    let kind = kind_of_tag(classify_spec(d.annotations).kind_tag);
    let dd = crate::assemble::decl_issues_spec(kind, d);
    assert(has_kind(dd, ErrorKind::UnsupportedParameterShape)) by {
        assert(dd[0].kind == ErrorKind::UnsupportedParameterShape);
    };
    lemma_has_kind_concat_chain(d, ErrorKind::UnsupportedParameterShape, 2);
}

/// A parameter typed as an existential (opaque trait) bound is rejected,
/// whatever its position — receiver slot included.
pub proof fn lemma_existential_parameter_rejected(d: DeclarationV, k: int)
    requires
        0 <= k < d.params.len(),
        d.params[k].ty.shape is Existential,
    ensures
        assemble_spec(d) is Err,
        has_kind(assemble_spec(d)->Err_0, ErrorKind::UnsupportedParameterShape),
{
    let c = classify_spec(d.annotations);
    let kind = kind_of_tag(c.kind_tag);
    let rr = crate::receiver::resolve_receiver_spec(kind, d.params, d.loc);
    let names = crate::assemble::names_of(d.params, rr.skip);
    let tb = crate::argtable::table_spec(c.arg_attrs, names);
    if k < rr.skip {
        assert(has_kind(crate::assemble::opt_diags(rr.issue), ErrorKind::UnsupportedParameterShape))
            by {
            assert(crate::assemble::opt_diags(rr.issue)[0].kind
                == ErrorKind::UnsupportedParameterShape);
        };
        lemma_has_kind_concat_chain(d, ErrorKind::UnsupportedParameterShape, 1);
    } else {
        assert(0 <= rr.skip <= k);
        lemma_walk_rejects(d.params, tb.entries, rr.skip, k);
        lemma_has_kind_concat_chain(d, ErrorKind::UnsupportedParameterShape, 4);
    }
}

/// Requesting generated signature text on a kind that forbids it rejects the
/// declaration; the request is legal only for plain, class-method and
/// static-method kinds.
pub proof fn lemma_signature_text_placement(d: DeclarationV)
    requires
        classify_spec(d.annotations).text_signature is Some,
        !crate::kinds::allows_signature_text(kind_of_tag(classify_spec(d.annotations).kind_tag)),
    ensures
        assemble_spec(d) is Err,
        has_kind(assemble_spec(d)->Err_0, ErrorKind::IllegalAttributePlacement),
{
    let c = classify_spec(d.annotations);
    let kind = kind_of_tag(c.kind_tag);
    let sr = crate::assemble::signature_text_spec(kind, c.text_signature);
    assert(has_kind(crate::assemble::opt_diags(sr.issue), ErrorKind::IllegalAttributePlacement))
        by {
        assert(crate::assemble::opt_diags(sr.issue)[0].kind
            == ErrorKind::IllegalAttributePlacement);
    };
    lemma_has_kind_concat_chain(d, ErrorKind::IllegalAttributePlacement, 7);
}

/// An override the classifier accepted is a usable external name.
proof fn lemma_step_override(c: ClassifiedV, a: AnnotationV)
    requires
        c.name_override matches Some(st) ==> valid_name_text(st.text),
    ensures
        classify_step(c, a).name_override matches Some(st) ==> valid_name_text(st.text),
{
}

proof fn lemma_upto_override(anns: Seq<AnnotationV>, n: int)
    requires
        0 <= n,
    ensures
        classify_upto(anns, n).name_override matches Some(st) ==> valid_name_text(st.text),
    decreases n,
{
    if n > 0 {
        lemma_upto_override(anns, n - 1);
        lemma_step_override(classify_upto(anns, n - 1), anns[n - 1]);
    }
}

/// A subrange of a sequence without a character is itself without it.
proof fn lemma_subrange_no_char(s: Seq<char>, a: int, b: int, ch: char)
    requires
        0 <= a <= b <= s.len(),
        !s.contains(ch),
    ensures
        !s.subrange(a, b).contains(ch),
{
    assert forall|i: int| 0 <= i < s.subrange(a, b).len() implies s.subrange(a, b)[i] != ch by {
        assert(s.subrange(a, b)[i] == s[a + i]);
        assert(!s.contains(ch) ==> s[a + i] != ch);
    };
}

/// Every descriptor the walk emits is well formed under the table.
proof fn lemma_walk_descs(
    params: Seq<ParamV>,
    entries: Seq<ArgumentAttributeV>,
    skip: int,
    n: int,
)
    ensures
        forall|i: int|
            0 <= i < walk_upto(params, entries, skip, n).descs.len()
                ==> crate::assemble::desc_wf(
                #[trigger] walk_upto(params, entries, skip, n).descs[i],
                entries,
            ),
    decreases n - skip,
{
    if n > skip {
        lemma_walk_descs(params, entries, skip, n - 1);
        let st = walk_upto(params, entries, skip, n - 1);
        let stepped = walk_upto(params, entries, skip, n);
        assert(stepped == walk_step(st, params[n - 1], entries));
        assert forall|i: int| 0 <= i < stepped.descs.len() implies crate::assemble::desc_wf(
            stepped.descs[i],
            entries,
        ) by {
            if i < st.descs.len() {
                assert(crate::assemble::desc_wf(st.descs[i], entries));
            }
        };
    }
}

/// Every successfully assembled call specification satisfies the structural
/// invariants: a non-empty, null-free external name (forced for constructors
/// and call operators), a receiver exactly for the kinds that require one,
/// no parameters on kinds that forbid them, signature text only where legal,
/// and only concrete user-facing parameters with defaults confined to
/// positional and keyword-only roles.
pub proof fn lemma_call_spec_invariants(d: DeclarationV)
    requires
        decl_wf(d),
        assemble_spec(d) is Ok,
    ensures
        crate::assemble::call_spec_wf(assemble_spec(d)->Ok_0),
{
    let c = classify_spec(d.annotations);
    let kind = kind_of_tag(c.kind_tag);
    let rr = crate::receiver::resolve_receiver_spec(kind, d.params, d.loc);
    let dd = crate::assemble::decl_issues_spec(kind, d);
    let names = crate::assemble::names_of(d.params, rr.skip);
    let tb = crate::argtable::table_spec(c.arg_attrs, names);
    let w = walk_spec(d.params, tb.entries, rr.skip);
    let rt = crate::assemble::return_info_spec(d.return_type, d.loc);
    let ri = crate::assemble::return_issue_spec(rt);
    let nr = external_name_spec(kind, c.name_override, d.name, d.loc);
    let sr = crate::assemble::signature_text_spec(kind, c.text_signature);
    let cs = assemble_spec(d)->Ok_0;
    assert(rr.issue is None && dd.len() == 0 && w.diags.len() == 0 && ri is None && nr.issue
        is None && sr.issue is None);

    // Receiver: required kinds resolved one, forbidden kinds got none.
    if requires_receiver(kind) {
        assert(d.params.len() > 0);
        assert(!(rr.binding is Unbound));
    }

    // No parameters at all on kinds that forbid them.
    if forbids_parameters(kind) {
        assert(d.params.len() == 0);
        assert(w.descs.len() == 0);
    }

    // Signature text only where legal.
    if !crate::kinds::allows_signature_text(kind) {
        assert(c.text_signature is None);
    }

    // The external name is non-empty and free of embedded nulls.
    if kind is Constructor {
        assert(cs.external_name == "__new__"@);
        proof_new_name_usable();
    } else if kind is CallOperator {
        assert(cs.external_name == "__call__"@);
        proof_call_name_usable();
    } else {
        match c.name_override {
            Some(st) => {
                lemma_upto_override(d.annotations, d.annotations.len() as int);
                lemma_finish(classify_upto(d.annotations, d.annotations.len() as int));
                assert(valid_name_text(st.text));
            },
            None => {
                let n = unraw_spec(d.name);
                assert(!d.name.contains('\0'));
                assert(!n.contains('\0')) by {
                    if crate::strutil::starts_with_spec(d.name, "r#"@) {
                        lemma_subrange_no_char(
                            d.name,
                            "r#"@.len() as int,
                            d.name.len() as int,
                            '\0',
                        );
                    }
                };
                if kind is Getter || kind is Setter {
                    match strip_prefix_spec(n, crate::assemble::accessor_prefix(kind)) {
                        Some(rest) => {
                            assert(rest.len() > 0);
                            lemma_subrange_no_char(
                                n,
                                crate::assemble::accessor_prefix(kind).len() as int,
                                n.len() as int,
                                '\0',
                            );
                        },
                        None => {},
                    }
                }
            },
        }
    }

    // Every emitted descriptor is concrete and user facing.
    lemma_walk_descs(d.params, tb.entries, rr.skip, d.params.len() as int);
}

/// The fixed constructor name is a usable external name.
proof fn proof_new_name_usable()
    ensures
        "__new__"@.len() > 0,
        !"__new__"@.contains('\0'),
{
    reveal_strlit("__new__");
    assert forall|i: int| 0 <= i < "__new__"@.len() implies "__new__"@[i] != '\0' by {}
}

/// The fixed call-operator name is a usable external name.
proof fn proof_call_name_usable()
    ensures
        "__call__"@.len() > 0,
        !"__call__"@.contains('\0'),
{
    reveal_strlit("__call__");
    assert forall|i: int| 0 <= i < "__call__"@.len() implies "__call__"@[i] != '\0' by {}
}

/// On kinds that allow it — plain, class-method and static-method — a
/// generated-signature-text request is never itself an error, and a
/// successfully assembled specification carries exactly the requested text.
pub proof fn lemma_signature_text_allowed(d: DeclarationV)
    requires
        crate::kinds::allows_signature_text(kind_of_tag(classify_spec(d.annotations).kind_tag)),
    ensures
        crate::assemble::signature_text_spec(
            kind_of_tag(classify_spec(d.annotations).kind_tag),
            classify_spec(d.annotations).text_signature,
        ).issue is None,
        assemble_spec(d) matches Ok(cs) ==> cs.generated_signature_text == (match classify_spec(
            d.annotations,
        ).text_signature {
            Some(st) => Some(st.text),
            None => None::<Seq<char>>,
        }),
{
}

/// Assembly is a pure function of the declaration: assembling the same
/// declaration twice yields structurally equal call specifications or
/// identical diagnostic lists.
pub proof fn lemma_assembly_idempotent(
    d: DeclarationV,
    r1: Result<CallSpecV, Seq<DiagnosticV>>,
    r2: Result<CallSpecV, Seq<DiagnosticV>>,
)
    requires
        r1 == assemble_spec(d),
        r2 == assemble_spec(d),
    ensures
        r1 == r2,
{
}

} // verus!
