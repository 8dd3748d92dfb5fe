//! The signature assembler: combines classifier output, receiver resolution,
//! the parameter list and the return type into one immutable [`CallSpec`],
//! enforcing every structural invariant and deriving implicit names, or
//! reporting every independent violation it finds.

use vstd::prelude::*;
use vstd::string::StrSliceExecFns;
use vstd::string::StringExecFns;

use crate::argtable::{
    default_of, role_of, ArgumentAttributeTable, ArgumentAttributeV, ParameterRole, table_spec,
};
use crate::ast::{Declaration, DeclarationV, Param, ParamV, TypeDesc, TypeDescV, TypeShape};
use crate::classify::{classify, classify_spec, Classified, SourceText, SourceTextV};
use crate::diag::{append_diags, diag, Diagnostic, DiagnosticV, ErrorKind};
use crate::kinds::{
    forbids_parameters, kind_of_tag, kind_of_tag_exec, kind_allows_signature_text,
    kind_forbids_parameters, BindingKind, ReceiverBinding,
};
use crate::receiver::{resolve_receiver, resolve_receiver_spec};
use crate::strutil::{joined_spec, join_lines, strip_prefix, strip_prefix_spec, unraw, unraw_spec};
use crate::SrcLoc;

verus! {

/// One user-facing parameter of the dynamic calling convention.
#[derive(Debug, PartialEq, Eq)]
pub struct ParameterDescriptor {
    pub name: String,
    pub ty: TypeDesc,
    pub default_expr: Option<String>,
    pub role: ParameterRole,
    pub is_runtime_context: bool,
    pub loc: SrcLoc,
}

/// Mathematical model of a [`ParameterDescriptor`].
pub struct ParameterDescriptorV {
    pub name: Seq<char>,
    pub ty: TypeDescV,
    pub default_expr: Option<Seq<char>>,
    pub role: ParameterRole,
    pub is_runtime_context: bool,
    pub loc: SrcLoc,
}

impl View for ParameterDescriptor {
    type V = ParameterDescriptorV;

    open spec fn view(&self) -> ParameterDescriptorV {
        ParameterDescriptorV {
            name: self.name@,
            ty: self.ty@,
            default_expr: match self.default_expr {
                Some(ref e) => Some(e@),
                None => None,
            },
            role: self.role,
            is_runtime_context: self.is_runtime_context,
            loc: self.loc,
        }
    }
}

impl DeepView for ParameterDescriptor {
    type V = ParameterDescriptorV;

    open spec fn deep_view(&self) -> ParameterDescriptorV {
        self.view()
    }
}

/// The terminal artifact: a validated, immutable description of how the
/// dynamic runtime must invoke one declaration.
#[derive(Debug, PartialEq, Eq)]
pub struct CallSpec {
    pub binding_kind: BindingKind,
    pub receiver: ReceiverBinding,
    pub external_name: String,
    pub ordered_parameters: Vec<ParameterDescriptor>,
    pub return_type: TypeDesc,
    pub documentation: String,
    pub generated_signature_text: Option<String>,
    pub deprecation_notices: Vec<String>,
}

/// Mathematical model of a [`CallSpec`].
#[verifier::ext_equal]
pub struct CallSpecV {
    pub binding_kind: BindingKind,
    pub receiver: ReceiverBinding,
    pub external_name: Seq<char>,
    pub ordered_parameters: Seq<ParameterDescriptorV>,
    pub return_type: TypeDescV,
    pub documentation: Seq<char>,
    pub generated_signature_text: Option<Seq<char>>,
    pub deprecation_notices: Seq<Seq<char>>,
}

impl View for CallSpec {
    type V = CallSpecV;

    open spec fn view(&self) -> CallSpecV {
        CallSpecV {
            binding_kind: self.binding_kind,
            receiver: self.receiver,
            external_name: self.external_name@,
            ordered_parameters: self.ordered_parameters.deep_view(),
            return_type: self.return_type@,
            documentation: self.documentation@,
            generated_signature_text: match self.generated_signature_text {
                Some(ref s) => Some(s@),
                None => None,
            },
            deprecation_notices: self.deprecation_notices.deep_view(),
        }
    }
}

/// State of the parameter walk: descriptors emitted so far, diagnostics, and
/// whether a variadic-positional parameter has been seen.
#[verifier::ext_equal]
pub struct WalkV {
    pub descs: Seq<ParameterDescriptorV>,
    pub diags: Seq<DiagnosticV>,
    pub seen_varpos: bool,
}

/// One step of the parameter walk. Receiver-shaped parameters outside the
/// receiver slot, existential types and generic type parameters are errors;
/// runtime-context handles are excluded from the calling convention; every
/// other parameter becomes a descriptor with its role and default looked up
/// by name.
pub open spec fn walk_step(st: WalkV, p: ParamV, entries: Seq<ArgumentAttributeV>) -> WalkV {
    match p.ty.shape {
        TypeShape::SelfRef { .. } => WalkV {
            diags: st.diags.push(
                DiagnosticV {
                    kind: ErrorKind::UnsupportedParameterShape,
                    message: "unexpected receiver"@,
                    loc: p.loc,
                },
            ),
            ..st
        },
        TypeShape::Existential => WalkV {
            diags: st.diags.push(
                DiagnosticV {
                    kind: ErrorKind::UnsupportedParameterShape,
                    message: "parameters may not have an existential `impl Trait` type"@,
                    loc: p.ty.loc,
                },
            ),
            ..st
        },
        TypeShape::Generic => WalkV {
            diags: st.diags.push(
                DiagnosticV {
                    kind: ErrorKind::UnsupportedParameterShape,
                    message: "parameter type refers to a generic type parameter"@,
                    loc: p.ty.loc,
                },
            ),
            ..st
        },
        TypeShape::Context => st,
        TypeShape::Concrete => {
            let role = role_of(entries, p.name);
            let st1 = if st.seen_varpos && role is KeywordOnly {
                WalkV {
                    diags: st.diags.push(
                        DiagnosticV {
                            kind: ErrorKind::StructuralConflict,
                            message: "keyword-only parameter after a variadic positional parameter"@,
                            loc: p.loc,
                        },
                    ),
                    ..st
                }
            } else {
                st
            };
            WalkV {
                descs: st1.descs.push(
                    ParameterDescriptorV {
                        name: p.name,
                        ty: p.ty,
                        default_expr: default_of(entries, p.name),
                        role,
                        is_runtime_context: false,
                        loc: p.loc,
                    },
                ),
                diags: st1.diags,
                seen_varpos: st1.seen_varpos || role is VariadicPositional,
            }
        },
    }
}

/// The parameter walk over indices `skip..i`.
pub open spec fn walk_upto(
    params: Seq<ParamV>,
    entries: Seq<ArgumentAttributeV>,
    skip: int,
    i: int,
) -> WalkV
    decreases i - skip,
{
    if i <= skip {
        WalkV { descs: Seq::empty(), diags: Seq::empty(), seen_varpos: false }
    } else {
        walk_step(walk_upto(params, entries, skip, i - 1), params[i - 1], entries)
    }
}

/// The whole parameter walk, in declaration order, skipping the receiver
/// slot when one was resolved.
pub open spec fn walk_spec(
    params: Seq<ParamV>,
    entries: Seq<ArgumentAttributeV>,
    skip: int,
) -> WalkV {
    walk_upto(params, entries, skip, params.len() as int)
}

/// The names of the non-receiver parameters, in order.
pub open spec fn names_of(params: Seq<ParamV>, skip: int) -> Seq<Seq<char>> {
    if skip <= params.len() {
        Seq::new((params.len() - skip) as nat, |i: int| params[skip + i].name)
    } else {
        Seq::empty()
    }
}

/// The declared return type, or an inferred placeholder when none is
/// written.
pub open spec fn return_info_spec(rt: Option<TypeDescV>, decl_loc: SrcLoc) -> TypeDescV {
    match rt {
        Some(t) => t,
        None => TypeDescV { shape: TypeShape::Concrete, text: "_"@, loc: decl_loc },
    }
}

/// The type-shape check on the return type.
pub open spec fn return_issue_spec(t: TypeDescV) -> Option<DiagnosticV> {
    match t.shape {
        TypeShape::Existential => Some(
            DiagnosticV {
                kind: ErrorKind::UnsupportedParameterShape,
                message: "existential `impl Trait` return type is not supported"@,
                loc: t.loc,
            },
        ),
        TypeShape::Generic => Some(
            DiagnosticV {
                kind: ErrorKind::UnsupportedParameterShape,
                message: "return type refers to a generic type parameter"@,
                loc: t.loc,
            },
        ),
        _ => None,
    }
}

/// Declaration-level checks: suspend capability, open generics, and the
/// no-parameter rule of class attributes.
pub open spec fn decl_issues_spec(k: BindingKind, d: DeclarationV) -> Seq<DiagnosticV> {
    let s0 = Seq::<DiagnosticV>::empty();
    let s1 = if d.is_async {
        s0.push(
            DiagnosticV {
                kind: ErrorKind::UnsupportedParameterShape,
                message: "asynchronous declarations are not supported"@,
                loc: d.loc,
            },
        )
    } else {
        s0
    };
    let s2 = if d.has_generics {
        s1.push(
            DiagnosticV {
                kind: ErrorKind::UnsupportedParameterShape,
                message: "declarations with generic type parameters are not supported"@,
                loc: d.loc,
            },
        )
    } else {
        s1
    };
    if forbids_parameters(k) && d.params.len() > 0 {
        s2.push(
            DiagnosticV {
                kind: ErrorKind::IllegalAttributePlacement,
                message: "class attribute declarations cannot take parameters"@,
                loc: d.params[0].loc,
            },
        )
    } else {
        s2
    }
}

/// The accessor prefix a getter or setter strips from the declaration's own
/// name.
pub open spec fn accessor_prefix(k: BindingKind) -> Seq<char> {
    if k is Getter {
        "get_"@
    } else {
        "set_"@
    }
}

/// The computed external name together with at most one diagnostic.
#[verifier::ext_equal]
pub struct NamedV {
    pub text: Seq<char>,
    pub issue: Option<DiagnosticV>,
}

/// The external name of a declaration: a constructor or call operator is
/// forced to its fixed identifier; an explicit override takes priority;
/// property accessors strip their recognized prefix from the declaration's
/// own (unrawed) name, falling back to the full name when the prefix is
/// absent; every other kind exposes the declaration's own name.
pub open spec fn external_name_spec(
    k: BindingKind,
    over: Option<SourceTextV>,
    name: Seq<char>,
    decl_loc: SrcLoc,
) -> NamedV {
    if k is Constructor {
        NamedV { text: "__new__"@, issue: None }
    } else if k is CallOperator {
        NamedV { text: "__call__"@, issue: None }
    } else {
        match over {
            Some(st) => NamedV { text: st.text, issue: None },
            None => {
                let n = unraw_spec(name);
                if k is Getter || k is Setter {
                    match strip_prefix_spec(n, accessor_prefix(k)) {
                        Some(rest) => {
                            if rest.len() == 0 {
                                NamedV {
                                    text: n,
                                    issue: Some(
                                        DiagnosticV {
                                            kind: ErrorKind::AmbiguousPropertyName,
                                            message: "cannot derive a property name: nothing follows the accessor prefix"@,
                                            loc: decl_loc,
                                        },
                                    ),
                                }
                            } else {
                                NamedV { text: rest, issue: None }
                            }
                        },
                        None => NamedV { text: n, issue: None },
                    }
                } else {
                    NamedV { text: n, issue: None }
                }
            },
        }
    }
}

/// The accepted generated-signature text together with at most one
/// diagnostic: the request is legal only for plain, class-method and
/// static-method kinds, and each forbidden kind reports its own message.
#[verifier::ext_equal]
pub struct SigTextV {
    pub text: Option<Seq<char>>,
    pub issue: Option<DiagnosticV>,
}

/// The message reported when signature text is requested on a kind that
/// forbids it.
pub open spec fn signature_text_refusal(k: BindingKind) -> Seq<char> {
    match k {
        BindingKind::Constructor => "text_signature not allowed on a constructor; put it on the type definition instead"@,
        BindingKind::CallOperator => "text_signature not allowed on the call operator"@,
        BindingKind::Getter => "text_signature not allowed on a getter"@,
        BindingKind::Setter => "text_signature not allowed on a setter"@,
        _ => "text_signature not allowed on a class attribute"@,
    }
}

/// Whether a requested generated-signature text is accepted.
pub open spec fn signature_text_spec(k: BindingKind, ts: Option<SourceTextV>) -> SigTextV {
    match ts {
        None => SigTextV { text: None, issue: None },
        Some(st) => {
            if crate::kinds::allows_signature_text(k) {
                SigTextV { text: Some(st.text), issue: None }
            } else {
                SigTextV {
                    text: None,
                    issue: Some(
                        DiagnosticV {
                            kind: ErrorKind::IllegalAttributePlacement,
                            message: signature_text_refusal(k),
                            loc: st.loc,
                        },
                    ),
                }
            }
        },
    }
}

/// A single optional diagnostic as a sequence.
pub open spec fn opt_diags(o: Option<DiagnosticV>) -> Seq<DiagnosticV> {
    match o {
        Some(d) => seq![d],
        None => Seq::empty(),
    }
}

/// The whole assembly pipeline on one declaration: classification, receiver
/// resolution, declaration-level checks, the argument-attribute table, the
/// parameter walk, the return-type check, name derivation and the
/// signature-text check, in that order. The declaration is rejected exactly
/// when at least one diagnostic was reported.
pub open spec fn assemble_spec(d: DeclarationV) -> Result<CallSpecV, Seq<DiagnosticV>> {
    let c = classify_spec(d.annotations);
    let kind = kind_of_tag(c.kind_tag);
    let rr = resolve_receiver_spec(kind, d.params, d.loc);
    let dd = decl_issues_spec(kind, d);
    let names = names_of(d.params, rr.skip);
    let tb = table_spec(c.arg_attrs, names);
    let w = walk_spec(d.params, tb.entries, rr.skip);
    let rt = return_info_spec(d.return_type, d.loc);
    let ri = return_issue_spec(rt);
    let nr = external_name_spec(kind, c.name_override, d.name, d.loc);
    let sr = signature_text_spec(kind, c.text_signature);
    let all = c.diags + opt_diags(rr.issue) + dd + tb.diags + w.diags + opt_diags(ri) + opt_diags(
        nr.issue,
    ) + opt_diags(sr.issue);
    if all.len() == 0 {
        Ok(
            CallSpecV {
                binding_kind: kind,
                receiver: rr.binding,
                external_name: nr.text,
                ordered_parameters: w.descs,
                return_type: rt,
                documentation: joined_spec(c.doc_lines),
                generated_signature_text: sr.text,
                deprecation_notices: d.deprecations,
            },
        )
    } else {
        Err(all)
    }
}

/// Well-formedness of one emitted parameter descriptor under the attribute
/// table it was built from: a concrete, user-facing parameter whose role and
/// default come from the table, with a default only on positional and
/// keyword-only roles.
pub open spec fn desc_wf(p: ParameterDescriptorV, entries: Seq<ArgumentAttributeV>) -> bool {
    &&& p.ty.shape is Concrete
    &&& !p.is_runtime_context
    &&& p.role == role_of(entries, p.name)
    &&& p.default_expr == default_of(entries, p.name)
    &&& (p.default_expr is Some ==> p.role is Positional || p.role is KeywordOnly)
}

/// The structural invariants of every produced call specification: a usable
/// external name (forced for constructors and call operators), a receiver
/// exactly for the kinds that require one, no parameters on kinds that
/// forbid them, signature text only where it is legal, and only concrete
/// user-facing parameters.
pub open spec fn call_spec_wf(cs: CallSpecV) -> bool {
    &&& cs.external_name.len() > 0
    &&& !cs.external_name.contains('\0')
    &&& (crate::kinds::requires_receiver(cs.binding_kind) <==> !(cs.receiver
        is Unbound))
    &&& (forbids_parameters(cs.binding_kind) ==> cs.ordered_parameters.len() == 0)
    &&& (cs.binding_kind is Constructor ==> cs.external_name == "__new__"@)
    &&& (cs.binding_kind is CallOperator ==> cs.external_name == "__call__"@)
    &&& (!crate::kinds::allows_signature_text(cs.binding_kind)
        ==> cs.generated_signature_text is None)
    &&& (forall|i: int|
        0 <= i < cs.ordered_parameters.len() ==> {
            let p = #[trigger] cs.ordered_parameters[i];
            &&& p.ty.shape is Concrete
            &&& !p.is_runtime_context
            &&& (p.default_expr is Some ==> p.role is Positional || p.role is KeywordOnly)
        })
}

/// The view of an assembly result.
pub open spec fn result_view(r: Result<CallSpec, Vec<Diagnostic>>) -> Result<
    CallSpecV,
    Seq<DiagnosticV>,
> {
    match r {
        Ok(c) => Ok(c@),
        Err(v) => Err(v.deep_view()),
    }
}

/// The declared return type, or an inferred placeholder when none is
/// written.
pub fn get_return_info(output: &Option<TypeDesc>, decl_loc: SrcLoc) -> (t: TypeDesc)
    ensures
        t@ == return_info_spec(
            match output {
                Some(td) => Some(td@),
                None => None,
            },
            decl_loc,
        ),
{
    match output {
        Some(td) => td.clone(),
        None => TypeDesc { shape: TypeShape::Concrete, text: "_".to_owned(), loc: decl_loc },
    }
}

/// Checks the return type's shape.
fn return_issue(t: &TypeDesc) -> (r: Option<Diagnostic>)
    ensures
        match r {
            Some(d) => return_issue_spec(t@) == Some(d@),
            None => return_issue_spec(t@) is None,
        },
{
    match t.shape {
        TypeShape::Existential => Some(
            diag(
                ErrorKind::UnsupportedParameterShape,
                "existential `impl Trait` return type is not supported",
                t.loc,
            ),
        ),
        TypeShape::Generic => Some(
            diag(
                ErrorKind::UnsupportedParameterShape,
                "return type refers to a generic type parameter",
                t.loc,
            ),
        ),
        _ => None,
    }
}

/// Declaration-level checks, in reporting order.
fn decl_issues(kind: BindingKind, d: &Declaration) -> (v: Vec<Diagnostic>)
    ensures
        v.deep_view() == decl_issues_spec(kind, d@),
{
    let mut v: Vec<Diagnostic> = Vec::new();
    assert(v.deep_view() =~= Seq::<DiagnosticV>::empty());
    if d.is_async {
        let ghost pre = v.deep_view();
        v.push(
            diag(
                ErrorKind::UnsupportedParameterShape,
                "asynchronous declarations are not supported",
                d.loc,
            ),
        );
        proof {
            assert(v.deep_view() =~= pre.push(
                DiagnosticV {
                    kind: ErrorKind::UnsupportedParameterShape,
                    message: "asynchronous declarations are not supported"@,
                    loc: d.loc,
                },
            ));
        }
    }
    if d.has_generics {
        let ghost pre = v.deep_view();
        v.push(
            diag(
                ErrorKind::UnsupportedParameterShape,
                "declarations with generic type parameters are not supported",
                d.loc,
            ),
        );
        proof {
            assert(v.deep_view() =~= pre.push(
                DiagnosticV {
                    kind: ErrorKind::UnsupportedParameterShape,
                    message: "declarations with generic type parameters are not supported"@,
                    loc: d.loc,
                },
            ));
        }
    }
    if kind_forbids_parameters(kind) && d.params.len() > 0 {
        let ghost pre = v.deep_view();
        assert(d.params.deep_view()[0] == d.params@[0].deep_view());
        v.push(
            diag(
                ErrorKind::IllegalAttributePlacement,
                "class attribute declarations cannot take parameters",
                d.params[0].loc,
            ),
        );
        proof {
            assert(v.deep_view() =~= pre.push(
                DiagnosticV {
                    kind: ErrorKind::IllegalAttributePlacement,
                    message: "class attribute declarations cannot take parameters"@,
                    loc: d@.params[0].loc,
                },
            ));
        }
    }
    v
}

/// The names of the non-receiver parameters, cloned in order.
fn param_names(params: &Vec<Param>, skip: usize) -> (names: Vec<String>)
    requires
        skip <= params@.len(),
    ensures
        names.deep_view() == names_of(params.deep_view(), skip as int),
{
    let mut names: Vec<String> = Vec::new();
    let mut i: usize = skip;
    while i < params.len()
        invariant
            skip <= i <= params@.len(),
            names.deep_view() =~= names_of(params.deep_view(), skip as int).subrange(
                0,
                i - skip,
            ),
        decreases params@.len() - i,
    {
        let ghost pre = names.deep_view();
        assert(params.deep_view()[i as int] == params@[i as int].deep_view());
        names.push(params[i].name.clone());
        proof {
            assert(names.deep_view() =~= pre.push(params.deep_view()[i as int].name));
            assert(names.deep_view() =~= names_of(params.deep_view(), skip as int).subrange(
                0,
                i - skip + 1,
            ));
        }
        i += 1;
    }
    assert(names.deep_view() =~= names_of(params.deep_view(), skip as int));
    names
}

/// Walks the non-receiver parameters, emitting descriptors and diagnostics.
fn walk_params(params: &Vec<Param>, table: &ArgumentAttributeTable, skip: usize) -> (r: (
    Vec<ParameterDescriptor>,
    Vec<Diagnostic>,
))
    requires
        skip <= params@.len(),
        table.wf(),
    ensures
        r.0.deep_view() == walk_spec(params.deep_view(), table@, skip as int).descs,
        r.1.deep_view() == walk_spec(params.deep_view(), table@, skip as int).diags,
{
    let ghost pv = params.deep_view();
    let mut descs: Vec<ParameterDescriptor> = Vec::new();
    let mut diags: Vec<Diagnostic> = Vec::new();
    let mut seen_varpos = false;
    let mut i: usize = skip;
    assert(descs.deep_view() =~= walk_upto(pv, table@, skip as int, skip as int).descs);
    assert(diags.deep_view() =~= walk_upto(pv, table@, skip as int, skip as int).diags);
    while i < params.len()
        invariant
            skip <= i <= params@.len(),
            pv == params.deep_view(),
            table.wf(),
            descs.deep_view() == walk_upto(pv, table@, skip as int, i as int).descs,
            diags.deep_view() == walk_upto(pv, table@, skip as int, i as int).diags,
            seen_varpos == walk_upto(pv, table@, skip as int, i as int).seen_varpos,
        decreases params@.len() - i,
    {
        let ghost st = walk_upto(pv, table@, skip as int, i as int);
        let p = &params[i];
        assert(p@ == pv[i as int]);
        match p.ty.shape {
            TypeShape::SelfRef { .. } => {
                let ghost pre = diags.deep_view();
                diags.push(
                    diag(ErrorKind::UnsupportedParameterShape, "unexpected receiver", p.loc),
                );
                proof {
                    assert(diags.deep_view() =~= pre.push(
                        DiagnosticV {
                            kind: ErrorKind::UnsupportedParameterShape,
                            message: "unexpected receiver"@,
                            loc: p@.loc,
                        },
                    ));
                }
            },
            TypeShape::Existential => {
                let ghost pre = diags.deep_view();
                diags.push(
                    diag(
                        ErrorKind::UnsupportedParameterShape,
                        "parameters may not have an existential `impl Trait` type",
                        p.ty.loc,
                    ),
                );
                proof {
                    assert(diags.deep_view() =~= pre.push(
                        DiagnosticV {
                            kind: ErrorKind::UnsupportedParameterShape,
                            message: "parameters may not have an existential `impl Trait` type"@,
                            loc: p@.ty.loc,
                        },
                    ));
                }
            },
            TypeShape::Generic => {
                let ghost pre = diags.deep_view();
                diags.push(
                    diag(
                        ErrorKind::UnsupportedParameterShape,
                        "parameter type refers to a generic type parameter",
                        p.ty.loc,
                    ),
                );
                proof {
                    assert(diags.deep_view() =~= pre.push(
                        DiagnosticV {
                            kind: ErrorKind::UnsupportedParameterShape,
                            message: "parameter type refers to a generic type parameter"@,
                            loc: p@.ty.loc,
                        },
                    ));
                }
            },
            TypeShape::Context => {
            },
            TypeShape::Concrete => {
                let role = table.role(p.name.as_str());
                if seen_varpos && matches!(role, ParameterRole::KeywordOnly) {
                    let ghost pre = diags.deep_view();
                    diags.push(
                        diag(
                            ErrorKind::StructuralConflict,
                            "keyword-only parameter after a variadic positional parameter",
                            p.loc,
                        ),
                    );
                    proof {
                        assert(diags.deep_view() =~= pre.push(
                            DiagnosticV {
                                kind: ErrorKind::StructuralConflict,
                                message: "keyword-only parameter after a variadic positional parameter"@,
                                loc: p@.loc,
                            },
                        ));
                    }
                }
                let ghost pre_d = descs.deep_view();
                let default_expr = table.default_value(p.name.as_str());
                descs.push(
                    ParameterDescriptor {
                        name: p.name.clone(),
                        ty: p.ty.clone(),
                        default_expr,
                        role,
                        is_runtime_context: false,
                        loc: p.loc,
                    },
                );
                proof {
                    assert(descs.deep_view() =~= pre_d.push(
                        ParameterDescriptorV {
                            name: p@.name,
                            ty: p@.ty,
                            default_expr: default_of(table@, p@.name),
                            role,
                            is_runtime_context: false,
                            loc: p@.loc,
                        },
                    ));
                }
                if matches!(role, ParameterRole::VariadicPositional) {
                    seen_varpos = true;
                }
            },
        }
        proof {
            assert(walk_upto(pv, table@, skip as int, i as int + 1) == walk_step(
                st,
                pv[i as int],
                table@,
            ));
            assert(descs.deep_view() =~= walk_step(st, pv[i as int], table@).descs);
            assert(diags.deep_view() =~= walk_step(st, pv[i as int], table@).diags);
        }
        i += 1;
    }
    (descs, diags)
}

/// Computes the external name a declaration is exposed under.
fn compute_external_name(
    k: BindingKind,
    over: Option<SourceText>,
    name: &str,
    decl_loc: SrcLoc,
) -> (r: (String, Option<Diagnostic>))
    ensures
        r.0@ == external_name_spec(k, crate::classify::opt_text_view(over), name@, decl_loc).text,
        match r.1 {
            Some(d) => external_name_spec(k, crate::classify::opt_text_view(over), name@, decl_loc).issue
                == Some(d@),
            None => external_name_spec(k, crate::classify::opt_text_view(over), name@, decl_loc).issue
                is None,
        },
{
    if matches!(k, BindingKind::Constructor) {
        ("__new__".to_owned(), None)
    } else if matches!(k, BindingKind::CallOperator) {
        ("__call__".to_owned(), None)
    } else {
        match over {
            Some(st) => (st.text, None),
            None => {
                let n = unraw(name);
                let is_getter = matches!(k, BindingKind::Getter);
                let is_setter = matches!(k, BindingKind::Setter);
                if is_getter || is_setter {
                    let prefix: &str = if is_getter {
                        "get_"
                    } else {
                        "set_"
                    };
                    assert(prefix@ == accessor_prefix(k));
                    match strip_prefix(n.as_str(), prefix) {
                        Some(rest) => {
                            if rest.as_str().unicode_len() == 0 {
                                (
                                    n,
                                    Some(
                                        diag(
                                            ErrorKind::AmbiguousPropertyName,
                                            "cannot derive a property name: nothing follows the accessor prefix",
                                            decl_loc,
                                        ),
                                    ),
                                )
                            } else {
                                (rest, None)
                            }
                        },
                        None => (n, None),
                    }
                } else {
                    (n, None)
                }
            },
        }
    }
}

/// Decides whether requested signature text is accepted for the kind.
fn compute_signature_text(k: BindingKind, ts: Option<SourceText>) -> (r: (
    Option<String>,
    Option<Diagnostic>,
))
    ensures
        ({
            let s = signature_text_spec(k, crate::classify::opt_text_view(ts));
            &&& (match r.0 {
                Some(t) => s.text == Some(t@),
                None => s.text is None,
            })
            &&& (match r.1 {
                Some(d) => s.issue == Some(d@),
                None => s.issue is None,
            })
        }),
{
    match ts {
        None => (None, None),
        Some(st) => {
            if kind_allows_signature_text(k) {
                (Some(st.text), None)
            } else {
                let msg: &str = match k {
                    BindingKind::Constructor => "text_signature not allowed on a constructor; put it on the type definition instead",
                    BindingKind::CallOperator => "text_signature not allowed on the call operator",
                    BindingKind::Getter => "text_signature not allowed on a getter",
                    BindingKind::Setter => "text_signature not allowed on a setter",
                    _ => "text_signature not allowed on a class attribute",
                };
                assert(msg@ == signature_text_refusal(k));
                (None, Some(diag(ErrorKind::IllegalAttributePlacement, msg, st.loc)))
            }
        },
    }
}

fn push_opt_diag(all: &mut Vec<Diagnostic>, o: Option<Diagnostic>)
    ensures
        final(all).deep_view() == old(all).deep_view() + opt_diags(
            match o {
                Some(d) => Some(d@),
                None => None,
            },
        ),
{
    let ghost pre = all.deep_view();
    match o {
        Some(d) => {
            let ghost dv = d@;
            all.push(d);
            proof {
                assert(all.deep_view() =~= pre.push(dv));
                assert(all.deep_view() =~= pre + opt_diags(Some(dv)));
            }
        },
        None => {
            proof {
                assert(all.deep_view() =~= pre + opt_diags(None));
            }
        },
    }
}

impl CallSpec {
    /// Analyzes one declaration and assembles its call specification, or
    /// returns every structural error found. The result is exactly
    /// [`assemble_spec`] of the declaration's model: assembly is a pure
    /// function of its input.
    pub fn parse(d: &Declaration) -> (r: Result<CallSpec, Vec<Diagnostic>>)
        ensures
            result_view(r) == assemble_spec(d@),
            r matches Err(v) ==> v@.len() > 0,
            crate::ast::decl_wf(d@) ==> (r matches Ok(cs) ==> call_spec_wf(cs@)),
    {
        proof {
            if crate::ast::decl_wf(d@) && assemble_spec(d@) is Ok {
                crate::laws::lemma_call_spec_invariants(d@);
            }
        }
        let ghost dv = d@;
        let c = classify(&d.annotations);
        let ghost cv = c@;
        let Classified {
            kind_tag,
            name_override,
            arg_attrs,
            text_signature,
            doc_lines,
            passthrough: _,
            diags,
        } = c;
        let kind = kind_of_tag_exec(kind_tag);
        assert(kind == kind_of_tag(cv.kind_tag));
        let rr = resolve_receiver(kind, &d.params, d.loc);
        let ghost rrv = rr.view();
        let crate::receiver::ReceiverResolution { binding, skip, issue } = rr;
        assert(skip as int == rrv.skip && skip <= d.params@.len()) by {
            assert(rrv == resolve_receiver_spec(kind, dv.params, dv.loc));
        };

        let mut all: Vec<Diagnostic> = diags;
        assert(all.deep_view() == cv.diags);
        push_opt_diag(&mut all, issue);
        assert(all.deep_view() == cv.diags + opt_diags(rrv.issue));

        let dd = decl_issues(kind, d);
        append_diags(&mut all, &dd);
        let ghost upto_dd = cv.diags + opt_diags(rrv.issue) + decl_issues_spec(kind, dv);
        assert(all.deep_view() == upto_dd);

        let names = param_names(&d.params, skip);
        let (table, tdiags) = ArgumentAttributeTable::build(&arg_attrs, &names);
        append_diags(&mut all, &tdiags);
        let ghost tb = table_spec(cv.arg_attrs, names_of(dv.params, rrv.skip));
        let ghost upto_tb = upto_dd + tb.diags;
        assert(all.deep_view() == upto_tb);
        assert(table@ == tb.entries);

        let (descs, wdiags) = walk_params(&d.params, &table, skip);
        append_diags(&mut all, &wdiags);
        let ghost w = walk_spec(dv.params, tb.entries, rrv.skip);
        let ghost upto_w = upto_tb + w.diags;
        assert(all.deep_view() == upto_w);

        let rt = get_return_info(&d.return_type, d.loc);
        assert(rt@ == return_info_spec(dv.return_type, dv.loc));
        let ri = return_issue(&rt);
        let ghost riv = return_issue_spec(rt@);
        push_opt_diag(&mut all, ri);
        let ghost upto_ri = upto_w + opt_diags(riv);
        assert(all.deep_view() == upto_ri);

        let (ext_name, nissue) = compute_external_name(
            kind,
            name_override,
            d.name.as_str(),
            d.loc,
        );
        let ghost nr = external_name_spec(kind, cv.name_override, dv.name, dv.loc);
        push_opt_diag(&mut all, nissue);
        let ghost upto_nr = upto_ri + opt_diags(nr.issue);
        assert(all.deep_view() == upto_nr);

        let (sig_text, sissue) = compute_signature_text(kind, text_signature);
        let ghost sr = signature_text_spec(kind, cv.text_signature);
        push_opt_diag(&mut all, sissue);
        let ghost full = upto_nr + opt_diags(sr.issue);
        assert(all.deep_view() == full);

        proof {
            assert(full =~= cv.diags + opt_diags(rrv.issue) + decl_issues_spec(kind, dv)
                + tb.diags + w.diags + opt_diags(riv) + opt_diags(nr.issue) + opt_diags(sr.issue));
        }

        if all.len() == 0 {
            let documentation = join_lines(&doc_lines);
            let deprecation_notices = crate::strutil::clone_strings(&d.deprecations);
            let cs = CallSpec {
                binding_kind: kind,
                receiver: binding,
                external_name: ext_name,
                ordered_parameters: descs,
                return_type: rt,
                documentation,
                generated_signature_text: sig_text,
                deprecation_notices,
            };
            proof {
                let s = assemble_spec(dv);
                assert(s is Ok);
                assert(cs@ =~= s->Ok_0);
            }
            Ok(cs)
        } else {
            proof {
                let s = assemble_spec(dv);
                assert(s is Err);
                assert(all.deep_view() =~= s->Err_0);
            }
            Err(all)
        }
    }

    /// The diagnostics of the rejected declarations among the first `n`, in
    /// declaration order. Accepted declarations contribute nothing: errors on
    /// one declaration never affect its siblings.
    pub open spec fn batch_diags_upto(ds: Seq<DeclarationV>, n: int) -> Seq<DiagnosticV>
        decreases n,
    {
        if n <= 0 {
            Seq::empty()
        } else {
            Self::batch_diags_upto(ds, n - 1) + (match assemble_spec(ds[n - 1]) {
                Ok(_) => Seq::<DiagnosticV>::empty(),
                Err(e) => e,
            })
        }
    }

    /// Assembles a batch of independent declarations: each gets its own call
    /// specification or contributes its own diagnostics to the sink, and a
    /// rejected declaration never affects its siblings.
    pub fn parse_batch(decls: &Vec<Declaration>, sink: &mut crate::diag::DiagnosticSink) -> (specs:
        Vec<Option<CallSpec>>)
        ensures
            specs@.len() == decls@.len(),
            forall|i: int|
                0 <= i < decls@.len() ==> (match #[trigger] specs@[i] {
                    Some(cs) => assemble_spec(decls.deep_view()[i]) == Ok::<
                        CallSpecV,
                        Seq<DiagnosticV>,
                    >(cs@),
                    None => assemble_spec(decls.deep_view()[i]) is Err,
                }),
            final(sink)@ == old(sink)@ + Self::batch_diags_upto(
                decls.deep_view(),
                decls@.len() as int,
            ),
    {
        let ghost dv = decls.deep_view();
        let mut specs: Vec<Option<CallSpec>> = Vec::new();
        let mut i: usize = 0;
        while i < decls.len()
            invariant
                i <= decls@.len(),
                dv == decls.deep_view(),
                specs@.len() == i,
                forall|j: int|
                    0 <= j < i ==> (match #[trigger] specs@[j] {
                        Some(cs) => assemble_spec(dv[j]) == Ok::<CallSpecV, Seq<DiagnosticV>>(
                            cs@,
                        ),
                        None => assemble_spec(dv[j]) is Err,
                    }),
                sink@ == old(sink)@ + Self::batch_diags_upto(dv, i as int),
            decreases decls@.len() - i,
        {
            assert(decls[i as int].deep_view() == dv[i as int]);
            let ghost pre = sink@;
            match CallSpec::parse(&decls[i]) {
                Ok(cs) => {
                    specs.push(Some(cs));
                    proof {
                        assert(Self::batch_diags_upto(dv, i as int + 1) =~= Self::batch_diags_upto(
                            dv,
                            i as int,
                        ));
                    }
                },
                Err(errs) => {
                    specs.push(None);
                    sink.absorb(errs);
                },
            }
            proof {
                assert(sink@ =~= old(sink)@ + Self::batch_diags_upto(dv, i as int + 1));
            }
            i += 1;
        }
        specs
    }

    /// The external name followed by one terminating null character, as the
    /// embedding runtime's registration tables expect it.
    pub fn null_terminated_python_name(&self) -> (r: String)
        ensures
            r@ == self.external_name@.push('\0'),
    {
        let r = self.external_name.clone().concat("\0");
        proof {
            reveal_strlit("\0");
            assert(r@ =~= self.external_name@.push('\0'));
        }
        r
    }
}

} // verus!
