//! The attribute classifier: partitions a declaration's raw ordered
//! annotation list into at most one binding-kind tag, an optional
//! external-name override, argument-shape attributes, a generated-signature
//! request, documentation lines and a passthrough list of everything
//! unrecognized, collecting every structural error it finds.

use vstd::prelude::*;
use vstd::string::StrSliceExecFns;

use crate::argtable::{ArgumentAttribute, ArgumentAttributeV};
use crate::ast::{AnnValue, AnnValueV, Annotation, AnnotationV};
use crate::diag::{diag, Diagnostic, DiagnosticV, ErrorKind};
use crate::kinds::{forbids_name_override, kind_of_tag, BindingKind, MethodTypeAttribute};
use crate::strutil::str_contains_char;
use crate::tags::{recognize_tag, tag_of, Tag};
use crate::SrcLoc;

verus! {

/// A piece of user-written text together with where it was written.
#[derive(Debug, PartialEq, Eq)]
pub struct SourceText {
    pub text: String,
    pub loc: SrcLoc,
}

/// Mathematical model of a [`SourceText`].
pub struct SourceTextV {
    pub text: Seq<char>,
    pub loc: SrcLoc,
}

impl View for SourceText {
    type V = SourceTextV;

    open spec fn view(&self) -> SourceTextV {
        SourceTextV { text: self.text@, loc: self.loc }
    }
}

/// The model of an optional piece of located text.
pub open spec fn opt_text_view(o: Option<SourceText>) -> Option<SourceTextV> {
    match o {
        Some(st) => Some(st@),
        None => None,
    }
}

/// The classifier's partition of an annotation list.
#[derive(Debug)]
pub struct Classified {
    pub kind_tag: Option<MethodTypeAttribute>,
    pub name_override: Option<SourceText>,
    pub arg_attrs: Vec<ArgumentAttribute>,
    pub text_signature: Option<SourceText>,
    pub doc_lines: Vec<String>,
    pub passthrough: Vec<Annotation>,
    pub diags: Vec<Diagnostic>,
}

/// Mathematical model of a [`Classified`].
#[verifier::ext_equal]
pub struct ClassifiedV {
    pub kind_tag: Option<MethodTypeAttribute>,
    pub name_override: Option<SourceTextV>,
    pub arg_attrs: Seq<ArgumentAttributeV>,
    pub text_signature: Option<SourceTextV>,
    pub doc_lines: Seq<Seq<char>>,
    pub passthrough: Seq<AnnotationV>,
    pub diags: Seq<DiagnosticV>,
}

impl View for Classified {
    type V = ClassifiedV;

    open spec fn view(&self) -> ClassifiedV {
        ClassifiedV {
            kind_tag: self.kind_tag,
            name_override: match self.name_override {
                Some(ref s) => Some(s@),
                None => None,
            },
            arg_attrs: self.arg_attrs.deep_view(),
            text_signature: match self.text_signature {
                Some(ref s) => Some(s@),
                None => None,
            },
            doc_lines: self.doc_lines.deep_view(),
            passthrough: self.passthrough.deep_view(),
            diags: self.diags.deep_view(),
        }
    }
}

/// The classifier's starting state: nothing recognized yet.
pub open spec fn classify_init() -> ClassifiedV {
    ClassifiedV {
        kind_tag: None,
        name_override: None,
        arg_attrs: Seq::empty(),
        text_signature: None,
        doc_lines: Seq::empty(),
        passthrough: Seq::empty(),
        diags: Seq::empty(),
    }
}

/// External-name text must be usable as an exposed identifier.
pub open spec fn valid_name_text(t: Seq<char>) -> bool {
    t.len() > 0 && !t.contains('\0')
}

/// Attaching a binding-kind tag: a second tag of any spelling is a hard
/// error, never a silent override.
pub open spec fn set_kind_spec(c: ClassifiedV, t: MethodTypeAttribute, loc: SrcLoc) -> ClassifiedV {
    if c.kind_tag is Some {
        ClassifiedV {
            diags: c.diags.push(
                DiagnosticV {
                    kind: ErrorKind::StructuralConflict,
                    message: "cannot specify a second method type"@,
                    loc,
                },
            ),
            ..c
        }
    } else {
        ClassifiedV { kind_tag: Some(t), ..c }
    }
}

/// Recording an external-name override: the text must be a usable name and
/// may be supplied at most once.
pub open spec fn set_name_spec(
    c: ClassifiedV,
    text: Seq<char>,
    vloc: SrcLoc,
    aloc: SrcLoc,
) -> ClassifiedV {
    if !valid_name_text(text) {
        ClassifiedV {
            diags: c.diags.push(
                DiagnosticV {
                    kind: ErrorKind::StructuralConflict,
                    message: "external name must be a nonempty string without embedded null"@,
                    loc: vloc,
                },
            ),
            ..c
        }
    } else if c.name_override is Some {
        ClassifiedV {
            diags: c.diags.push(
                DiagnosticV {
                    kind: ErrorKind::StructuralConflict,
                    message: "`name` may only be specified once"@,
                    loc: aloc,
                },
            ),
            ..c
        }
    } else {
        ClassifiedV { name_override: Some(SourceTextV { text, loc: vloc }), ..c }
    }
}

/// The name text carried by an annotation value, when the value may name a
/// property (an identifier or a string literal).
pub open spec fn name_value_spec(v: AnnValueV) -> Option<SourceTextV> {
    match v {
        AnnValueV::Ident { text, loc } => Some(SourceTextV { text, loc }),
        AnnValueV::Str { text, loc } => Some(SourceTextV { text, loc }),
        AnnValueV::OtherLit { .. } => None,
    }
}

/// A binding-kind tag that takes no nested value.
pub open spec fn plain_kind_step(
    c: ClassifiedV,
    a: AnnotationV,
    t: MethodTypeAttribute,
) -> ClassifiedV {
    let c1 = if a.values.len() > 0 {
        ClassifiedV {
            diags: c.diags.push(
                DiagnosticV {
                    kind: ErrorKind::IllegalAttributePlacement,
                    message: "this binding kind does not take a value"@,
                    loc: a.loc,
                },
            ),
            ..c
        }
    } else {
        c
    };
    set_kind_spec(c1, t, a.loc)
}

/// A property-accessor tag, optionally carrying one nested value that becomes
/// the external-name override.
pub open spec fn accessor_step(
    c: ClassifiedV,
    a: AnnotationV,
    t: MethodTypeAttribute,
) -> ClassifiedV {
    let c1 = set_kind_spec(c, t, a.loc);
    if a.values.len() == 0 {
        c1
    } else if a.values.len() == 1 {
        match name_value_spec(a.values[0]) {
            Some(st) => set_name_spec(c1, st.text, st.loc, a.loc),
            None => ClassifiedV {
                diags: c1.diags.push(
                    DiagnosticV {
                        kind: ErrorKind::StructuralConflict,
                        message: "expected ident or string literal for property name"@,
                        loc: a.loc,
                    },
                ),
                ..c1
            },
        }
    } else {
        ClassifiedV {
            diags: c1.diags.push(
                DiagnosticV {
                    kind: ErrorKind::StructuralConflict,
                    message: "setter/getter requires one value"@,
                    loc: a.loc,
                },
            ),
            ..c1
        }
    }
}

/// A standalone external-name override.
pub open spec fn name_step(c: ClassifiedV, a: AnnotationV) -> ClassifiedV {
    if a.values.len() == 1 && name_value_spec(a.values[0]) is Some {
        let st = name_value_spec(a.values[0]).unwrap();
        set_name_spec(c, st.text, st.loc, a.loc)
    } else {
        ClassifiedV {
            diags: c.diags.push(
                DiagnosticV {
                    kind: ErrorKind::StructuralConflict,
                    message: "`name` requires one identifier or string value"@,
                    loc: a.loc,
                },
            ),
            ..c
        }
    }
}

/// The argument-shape attribute described by an annotation, if its values
/// have the right shape: a parameter name, plus an optional default
/// expression for the kinds that admit one.
pub open spec fn arg_attr_of(a: AnnotationV, t: Tag) -> Option<ArgumentAttributeV> {
    if t == Tag::Arg || t == Tag::Kwarg {
        if a.values.len() == 1 && a.values[0] is Ident {
            let n = a.values[0]->Ident_text;
            if t == Tag::Arg {
                Some(ArgumentAttributeV::PositionalDefault { name: n, expr: None, loc: a.loc })
            } else {
                Some(ArgumentAttributeV::KeywordOnly { name: n, expr: None, loc: a.loc })
            }
        } else if a.values.len() == 2 && a.values[0] is Ident && a.values[1] is Str {
            let n = a.values[0]->Ident_text;
            let e = a.values[1]->Str_text;
            if t == Tag::Arg {
                Some(ArgumentAttributeV::PositionalDefault { name: n, expr: Some(e), loc: a.loc })
            } else {
                Some(ArgumentAttributeV::KeywordOnly { name: n, expr: Some(e), loc: a.loc })
            }
        } else {
            None
        }
    } else {
        if a.values.len() == 1 && a.values[0] is Ident {
            let n = a.values[0]->Ident_text;
            if t == Tag::VarArgs {
                Some(ArgumentAttributeV::VariadicPositional { name: n, loc: a.loc })
            } else {
                Some(ArgumentAttributeV::VariadicKeyword { name: n, loc: a.loc })
            }
        } else {
            None
        }
    }
}

/// An argument-shape tag.
pub open spec fn arg_attr_step(c: ClassifiedV, a: AnnotationV, t: Tag) -> ClassifiedV {
    match arg_attr_of(a, t) {
        Some(attr) => ClassifiedV { arg_attrs: c.arg_attrs.push(attr), ..c },
        None => ClassifiedV {
            diags: c.diags.push(
                DiagnosticV {
                    kind: ErrorKind::StructuralConflict,
                    message: "malformed argument attribute"@,
                    loc: a.loc,
                },
            ),
            ..c
        },
    }
}

/// A generated-signature-text request.
pub open spec fn sig_step(c: ClassifiedV, a: AnnotationV) -> ClassifiedV {
    if a.values.len() == 1 && a.values[0] is Str {
        if c.text_signature is Some {
            ClassifiedV {
                diags: c.diags.push(
                    DiagnosticV {
                        kind: ErrorKind::StructuralConflict,
                        message: "`text_signature` may only be specified once"@,
                        loc: a.loc,
                    },
                ),
                ..c
            }
        } else {
            ClassifiedV {
                text_signature: Some(
                    SourceTextV { text: a.values[0]->Str_text, loc: a.values[0]->Str_loc },
                ),
                ..c
            }
        }
    } else {
        ClassifiedV {
            diags: c.diags.push(
                DiagnosticV {
                    kind: ErrorKind::StructuralConflict,
                    message: "`text_signature` requires one string value"@,
                    loc: a.loc,
                },
            ),
            ..c
        }
    }
}

/// A documentation line; any other shape of doc annotation passes through.
pub open spec fn doc_step(c: ClassifiedV, a: AnnotationV) -> ClassifiedV {
    if a.values.len() == 1 && a.values[0] is Str {
        ClassifiedV { doc_lines: c.doc_lines.push(a.values[0]->Str_text), ..c }
    } else {
        ClassifiedV { passthrough: c.passthrough.push(a), ..c }
    }
}

/// One classification step: dispatch on the recognized tag.
pub open spec fn classify_step(c: ClassifiedV, a: AnnotationV) -> ClassifiedV {
    match tag_of(a.tag) {
        Tag::New => plain_kind_step(c, a, MethodTypeAttribute::New),
        Tag::Call => plain_kind_step(c, a, MethodTypeAttribute::Call),
        Tag::ClassMethod => plain_kind_step(c, a, MethodTypeAttribute::ClassMethod),
        Tag::StaticMethod => plain_kind_step(c, a, MethodTypeAttribute::StaticMethod),
        Tag::ClassAttr => plain_kind_step(c, a, MethodTypeAttribute::ClassAttribute),
        Tag::Getter => accessor_step(c, a, MethodTypeAttribute::Getter),
        Tag::Setter => accessor_step(c, a, MethodTypeAttribute::Setter),
        Tag::Name => name_step(c, a),
        Tag::Arg => arg_attr_step(c, a, Tag::Arg),
        Tag::Kwarg => arg_attr_step(c, a, Tag::Kwarg),
        Tag::VarArgs => arg_attr_step(c, a, Tag::VarArgs),
        Tag::KwArgs => arg_attr_step(c, a, Tag::KwArgs),
        Tag::TextSignature => sig_step(c, a),
        Tag::Doc => doc_step(c, a),
        Tag::Other => ClassifiedV { passthrough: c.passthrough.push(a), ..c },
    }
}

/// Classification of the first `n` annotations, in order.
pub open spec fn classify_upto(anns: Seq<AnnotationV>, n: int) -> ClassifiedV
    decreases n,
{
    if n <= 0 {
        classify_init()
    } else {
        classify_step(classify_upto(anns, n - 1), anns[n - 1])
    }
}

/// The message reported when a name override meets a kind whose external
/// name is fixed.
pub open spec fn name_refusal(k: BindingKind) -> Seq<char> {
    if k is Constructor {
        "`name` not allowed with a constructor"@
    } else {
        "`name` not allowed with the call operator"@
    }
}

/// The final classification check: an external-name override supplied
/// together with a binding kind whose name is fixed is a conflict.
pub open spec fn classify_finish(c: ClassifiedV) -> ClassifiedV {
    match c.name_override {
        Some(st) => {
            if forbids_name_override(kind_of_tag(c.kind_tag)) {
                ClassifiedV {
                    diags: c.diags.push(
                        DiagnosticV {
                            kind: ErrorKind::StructuralConflict,
                            message: name_refusal(kind_of_tag(c.kind_tag)),
                            loc: st.loc,
                        },
                    ),
                    ..c
                }
            } else {
                c
            }
        },
        None => c,
    }
}

/// The whole classifier on an annotation list.
pub open spec fn classify_spec(anns: Seq<AnnotationV>) -> ClassifiedV {
    classify_finish(classify_upto(anns, anns.len() as int))
}

impl Classified {
    /// A classification with nothing recognized yet.
    fn empty() -> (c: Classified)
        ensures
            c@ == classify_init(),
    {
        let c = Classified {
            kind_tag: None,
            name_override: None,
            arg_attrs: Vec::new(),
            text_signature: None,
            doc_lines: Vec::new(),
            passthrough: Vec::new(),
            diags: Vec::new(),
        };
        assert(c@ =~= classify_init());
        c
    }
}

fn push_cl_diag(c: Classified, d: Diagnostic) -> (r: Classified)
    ensures
        r@ == (ClassifiedV { diags: c@.diags.push(d@), ..c@ }),
{
    let ghost pre = c@;
    let mut c = c;
    c.diags.push(d);
    proof {
        assert(c.diags.deep_view() =~= pre.diags.push(d@));
        assert(c@ =~= (ClassifiedV { diags: pre.diags.push(d@), ..pre }));
    }
    c
}

fn set_kind(c: Classified, t: MethodTypeAttribute, loc: SrcLoc) -> (r: Classified)
    ensures
        r@ == set_kind_spec(c@, t, loc),
{
    if c.kind_tag.is_some() {
        push_cl_diag(
            c,
            diag(ErrorKind::StructuralConflict, "cannot specify a second method type", loc),
        )
    } else {
        let ghost pre = c@;
        let mut c = c;
        c.kind_tag = Some(t);
        proof {
            assert(c@ =~= (ClassifiedV { kind_tag: Some(t), ..pre }));
        }
        c
    }
}

fn set_name(c: Classified, text: String, vloc: SrcLoc, aloc: SrcLoc) -> (r: Classified)
    ensures
        r@ == set_name_spec(c@, text@, vloc, aloc),
{
    let len = text.as_str().unicode_len();
    let has_nul = str_contains_char(text.as_str(), '\0');
    if len == 0 || has_nul {
        assert(!valid_name_text(text@));
        push_cl_diag(
            c,
            diag(
                ErrorKind::StructuralConflict,
                "external name must be a nonempty string without embedded null",
                vloc,
            ),
        )
    } else if c.name_override.is_some() {
        push_cl_diag(
            c,
            diag(ErrorKind::StructuralConflict, "`name` may only be specified once", aloc),
        )
    } else {
        let ghost pre = c@;
        let mut c = c;
        c.name_override = Some(SourceText { text, loc: vloc });
        proof {
            assert(c@ =~= (ClassifiedV {
                name_override: Some(SourceTextV { text: text@, loc: vloc }),
                ..pre
            }));
        }
        c
    }
}

/// The name text carried by an annotation value, if it is an identifier or a
/// string literal.
fn name_value(v: &AnnValue) -> (r: Option<SourceText>)
    ensures
        match r {
            Some(st) => name_value_spec(v@) == Some(st@),
            None => name_value_spec(v@) is None,
        },
{
    match v {
        AnnValue::Ident { text, loc } => Some(SourceText { text: text.clone(), loc: *loc }),
        AnnValue::Str { text, loc } => Some(SourceText { text: text.clone(), loc: *loc }),
        AnnValue::OtherLit { .. } => None,
    }
}

/// The argument-shape attribute described by `a` under tag `t`, if well
/// shaped.
fn arg_attr_exec(a: &Annotation, t: Tag) -> (r: Option<ArgumentAttribute>)
    requires
        t == Tag::Arg || t == Tag::Kwarg || t == Tag::VarArgs || t == Tag::KwArgs,
    ensures
        match r {
            Some(attr) => arg_attr_of(a@, t) == Some(attr@),
            None => arg_attr_of(a@, t) is None,
        },
{
    let two_valued = matches!(t, Tag::Arg | Tag::Kwarg);
    if a.values.len() == 1 {
        match &a.values[0] {
            AnnValue::Ident { text, .. } => {
                let name = text.clone();
                match t {
                    Tag::Arg => Some(
                        ArgumentAttribute::PositionalDefault { name, expr: None, loc: a.loc },
                    ),
                    Tag::Kwarg => Some(
                        ArgumentAttribute::KeywordOnly { name, expr: None, loc: a.loc },
                    ),
                    Tag::VarArgs => Some(ArgumentAttribute::VariadicPositional { name, loc: a.loc }),
                    _ => Some(ArgumentAttribute::VariadicKeyword { name, loc: a.loc }),
                }
            },
            _ => None,
        }
    } else if two_valued && a.values.len() == 2 {
        match (&a.values[0], &a.values[1]) {
            (AnnValue::Ident { text, .. }, AnnValue::Str { text: e, .. }) => {
                let name = text.clone();
                let expr = Some(e.clone());
                match t {
                    Tag::Arg => Some(
                        ArgumentAttribute::PositionalDefault { name, expr, loc: a.loc },
                    ),
                    _ => Some(ArgumentAttribute::KeywordOnly { name, expr, loc: a.loc }),
                }
            },
            _ => None,
        }
    } else {
        None
    }
}

/// Classifies one annotation into the running partition.
fn classify_one(c: Classified, a: &Annotation) -> (r: Classified)
    ensures
        r@ == classify_step(c@, a@),
{
    let t = recognize_tag(a.tag.as_str());
    match t {
        Tag::New => {
            let c1 = if a.values.len() > 0 {
                push_cl_diag(
                    c,
                    diag(
                        ErrorKind::IllegalAttributePlacement,
                        "this binding kind does not take a value",
                        a.loc,
                    ),
                )
            } else {
                c
            };
            set_kind(c1, MethodTypeAttribute::New, a.loc)
        },
        Tag::Call => {
            let c1 = if a.values.len() > 0 {
                push_cl_diag(
                    c,
                    diag(
                        ErrorKind::IllegalAttributePlacement,
                        "this binding kind does not take a value",
                        a.loc,
                    ),
                )
            } else {
                c
            };
            set_kind(c1, MethodTypeAttribute::Call, a.loc)
        },
        Tag::ClassMethod => {
            let c1 = if a.values.len() > 0 {
                push_cl_diag(
                    c,
                    diag(
                        ErrorKind::IllegalAttributePlacement,
                        "this binding kind does not take a value",
                        a.loc,
                    ),
                )
            } else {
                c
            };
            set_kind(c1, MethodTypeAttribute::ClassMethod, a.loc)
        },
        Tag::StaticMethod => {
            let c1 = if a.values.len() > 0 {
                push_cl_diag(
                    c,
                    diag(
                        ErrorKind::IllegalAttributePlacement,
                        "this binding kind does not take a value",
                        a.loc,
                    ),
                )
            } else {
                c
            };
            set_kind(c1, MethodTypeAttribute::StaticMethod, a.loc)
        },
        Tag::ClassAttr => {
            let c1 = if a.values.len() > 0 {
                push_cl_diag(
                    c,
                    diag(
                        ErrorKind::IllegalAttributePlacement,
                        "this binding kind does not take a value",
                        a.loc,
                    ),
                )
            } else {
                c
            };
            set_kind(c1, MethodTypeAttribute::ClassAttribute, a.loc)
        },
        Tag::Getter | Tag::Setter => {
            let mt = if matches!(t, Tag::Getter) {
                MethodTypeAttribute::Getter
            } else {
                MethodTypeAttribute::Setter
            };
            let c1 = set_kind(c, mt, a.loc);
            if a.values.len() == 0 {
                c1
            } else if a.values.len() == 1 {
                match name_value(&a.values[0]) {
                    Some(st) => set_name(c1, st.text, st.loc, a.loc),
                    None => push_cl_diag(
                        c1,
                        diag(
                            ErrorKind::StructuralConflict,
                            "expected ident or string literal for property name",
                            a.loc,
                        ),
                    ),
                }
            } else {
                push_cl_diag(
                    c1,
                    diag(ErrorKind::StructuralConflict, "setter/getter requires one value", a.loc),
                )
            }
        },
        Tag::Name => {
            if a.values.len() == 1 {
                match name_value(&a.values[0]) {
                    Some(st) => set_name(c, st.text, st.loc, a.loc),
                    None => push_cl_diag(
                        c,
                        diag(
                            ErrorKind::StructuralConflict,
                            "`name` requires one identifier or string value",
                            a.loc,
                        ),
                    ),
                }
            } else {
                push_cl_diag(
                    c,
                    diag(
                        ErrorKind::StructuralConflict,
                        "`name` requires one identifier or string value",
                        a.loc,
                    ),
                )
            }
        },
        Tag::Arg | Tag::Kwarg | Tag::VarArgs | Tag::KwArgs => {
            match arg_attr_exec(a, t) {
                Some(attr) => {
                    let ghost pre = c@;
                    let mut c = c;
                    c.arg_attrs.push(attr);
                    proof {
                        assert(c.arg_attrs.deep_view() =~= pre.arg_attrs.push(
                            arg_attr_of(a@, t).unwrap(),
                        ));
                        assert(c@ =~= (ClassifiedV {
                            arg_attrs: pre.arg_attrs.push(arg_attr_of(a@, t).unwrap()),
                            ..pre
                        }));
                    }
                    c
                },
                None => push_cl_diag(
                    c,
                    diag(ErrorKind::StructuralConflict, "malformed argument attribute", a.loc),
                ),
            }
        },
        Tag::TextSignature => {
            if a.values.len() == 1 {
                match &a.values[0] {
                    AnnValue::Str { text, loc } => {
                        if c.text_signature.is_some() {
                            push_cl_diag(
                                c,
                                diag(
                                    ErrorKind::StructuralConflict,
                                    "`text_signature` may only be specified once",
                                    a.loc,
                                ),
                            )
                        } else {
                            let ghost pre = c@;
                            let mut c = c;
                            c.text_signature = Some(
                                SourceText { text: text.clone(), loc: *loc },
                            );
                            proof {
                                assert(c@ =~= (ClassifiedV {
                                    text_signature: Some(
                                        SourceTextV {
                                            text: a@.values[0]->Str_text,
                                            loc: a@.values[0]->Str_loc,
                                        },
                                    ),
                                    ..pre
                                }));
                            }
                            c
                        }
                    },
                    _ => push_cl_diag(
                        c,
                        diag(
                            ErrorKind::StructuralConflict,
                            "`text_signature` requires one string value",
                            a.loc,
                        ),
                    ),
                }
            } else {
                push_cl_diag(
                    c,
                    diag(
                        ErrorKind::StructuralConflict,
                        "`text_signature` requires one string value",
                        a.loc,
                    ),
                )
            }
        },
        Tag::Doc => {
            if a.values.len() == 1 {
                match &a.values[0] {
                    AnnValue::Str { text, .. } => {
                        let ghost pre = c@;
                        let mut c = c;
                        c.doc_lines.push(text.clone());
                        proof {
                            assert(c.doc_lines.deep_view() =~= pre.doc_lines.push(
                                a@.values[0]->Str_text,
                            ));
                            assert(c@ =~= (ClassifiedV {
                                doc_lines: pre.doc_lines.push(a@.values[0]->Str_text),
                                ..pre
                            }));
                        }
                        c
                    },
                    _ => {
                        let ghost pre = c@;
                        let mut c = c;
                        c.passthrough.push(a.clone());
                        proof {
                            assert(c.passthrough.deep_view() =~= pre.passthrough.push(a@));
                            assert(c@ =~= (ClassifiedV {
                                passthrough: pre.passthrough.push(a@),
                                ..pre
                            }));
                        }
                        c
                    },
                }
            } else {
                let ghost pre = c@;
                let mut c = c;
                c.passthrough.push(a.clone());
                proof {
                    assert(c.passthrough.deep_view() =~= pre.passthrough.push(a@));
                    assert(c@ =~= (ClassifiedV { passthrough: pre.passthrough.push(a@), ..pre }));
                }
                c
            }
        },
        Tag::Other => {
            let ghost pre = c@;
            let mut c = c;
            c.passthrough.push(a.clone());
            proof {
                assert(c.passthrough.deep_view() =~= pre.passthrough.push(a@));
                assert(c@ =~= (ClassifiedV { passthrough: pre.passthrough.push(a@), ..pre }));
            }
            c
        },
    }
}

fn classify_finish_exec(c: Classified) -> (r: Classified)
    ensures
        r@ == classify_finish(c@),
{
    let oloc: Option<SrcLoc> = match &c.name_override {
        Some(st) => Some(st.loc),
        None => None,
    };
    match oloc {
        Some(loc) => {
            let k = crate::kinds::kind_of_tag_exec(c.kind_tag);
            if crate::kinds::kind_forbids_name_override(k) {
                let msg: &str = if matches!(k, BindingKind::Constructor) {
                    "`name` not allowed with a constructor"
                } else {
                    "`name` not allowed with the call operator"
                };
                assert(msg@ == name_refusal(k));
                push_cl_diag(c, diag(ErrorKind::StructuralConflict, msg, loc))
            } else {
                c
            }
        },
        None => c,
    }
}

/// Partitions a declaration's raw ordered annotation list, collecting every
/// structural error it finds along the way.
pub fn classify(anns: &Vec<Annotation>) -> (c: Classified)
    ensures
        c@ == classify_spec(anns.deep_view()),
{
    let ghost av = anns.deep_view();
    let mut c = Classified::empty();
    let mut i: usize = 0;
    while i < anns.len()
        invariant
            i <= anns@.len(),
            av == anns.deep_view(),
            c@ == classify_upto(av, i as int),
        decreases anns@.len() - i,
    {
        assert(anns[i as int].deep_view() == av[i as int]);
        c = classify_one(c, &anns[i]);
        proof {
            assert(classify_upto(av, i as int + 1) == classify_step(
                classify_upto(av, i as int),
                av[i as int],
            ));
        }
        i += 1;
    }
    assert(av.len() == anns@.len());
    classify_finish_exec(c)
}

} // verus!
