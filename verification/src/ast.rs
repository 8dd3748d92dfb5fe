//! The plain-data model of a native declaration as handed over by the
//! compiler front end: annotations, parameters with type-shape descriptors,
//! a return type and source locations.

use vstd::prelude::*;

use crate::strutil::unraw_spec;
use crate::SrcLoc;

verus! {

/// What signature analysis reads of a declared type: whether it is a
/// receiver-shaped self reference, the embedding runtime's context-token
/// type, an existential (opaque trait) bound, an open generic type
/// parameter, or an ordinary concrete type.
#[derive(Clone, Copy, Debug, PartialEq, Eq, Structural)]
pub enum TypeShape {
    SelfRef { mutable: bool },
    Context,
    Existential,
    Generic,
    Concrete,
}

/// A declared type: its shape together with its source text and location.
#[derive(Debug, PartialEq, Eq)]
pub struct TypeDesc {
    pub shape: TypeShape,
    pub text: String,
    pub loc: SrcLoc,
}

/// Mathematical model of a [`TypeDesc`].
pub struct TypeDescV {
    pub shape: TypeShape,
    pub text: Seq<char>,
    pub loc: SrcLoc,
}

impl View for TypeDesc {
    type V = TypeDescV;

    open spec fn view(&self) -> TypeDescV {
        TypeDescV { shape: self.shape, text: self.text@, loc: self.loc }
    }
}

impl DeepView for TypeDesc {
    type V = TypeDescV;

    open spec fn deep_view(&self) -> TypeDescV {
        self.view()
    }
}

impl Clone for TypeDesc {
    fn clone(&self) -> (r: Self)
        ensures
            r@ == self@,
    {
        TypeDesc { shape: self.shape, text: self.text.clone(), loc: self.loc }
    }
}

/// One declared parameter: its name, its type and its source location.
#[derive(Debug, PartialEq, Eq)]
pub struct Param {
    pub name: String,
    pub ty: TypeDesc,
    pub loc: SrcLoc,
}

/// Mathematical model of a [`Param`].
pub struct ParamV {
    pub name: Seq<char>,
    pub ty: TypeDescV,
    pub loc: SrcLoc,
}

impl View for Param {
    type V = ParamV;

    open spec fn view(&self) -> ParamV {
        ParamV { name: self.name@, ty: self.ty@, loc: self.loc }
    }
}

impl DeepView for Param {
    type V = ParamV;

    open spec fn deep_view(&self) -> ParamV {
        self.view()
    }
}

/// A value carried by an annotation: a path of one segment (an identifier),
/// a string literal, or some other literal that signature analysis does not
/// accept where a name is expected.
#[derive(Debug, PartialEq, Eq)]
pub enum AnnValue {
    Ident { text: String, loc: SrcLoc },
    Str { text: String, loc: SrcLoc },
    OtherLit { loc: SrcLoc },
}

/// Mathematical model of an [`AnnValue`].
pub enum AnnValueV {
    Ident { text: Seq<char>, loc: SrcLoc },
    Str { text: Seq<char>, loc: SrcLoc },
    OtherLit { loc: SrcLoc },
}

impl View for AnnValue {
    type V = AnnValueV;

    open spec fn view(&self) -> AnnValueV {
        match self {
            AnnValue::Ident { text, loc } => AnnValueV::Ident { text: text@, loc: *loc },
            AnnValue::Str { text, loc } => AnnValueV::Str { text: text@, loc: *loc },
            AnnValue::OtherLit { loc } => AnnValueV::OtherLit { loc: *loc },
        }
    }
}

impl DeepView for AnnValue {
    type V = AnnValueV;

    open spec fn deep_view(&self) -> AnnValueV {
        self.view()
    }
}

impl Clone for AnnValue {
    fn clone(&self) -> (r: Self)
        ensures
            r@ == self@,
    {
        match self {
            AnnValue::Ident { text, loc } => AnnValue::Ident { text: text.clone(), loc: *loc },
            AnnValue::Str { text, loc } => AnnValue::Str { text: text.clone(), loc: *loc },
            AnnValue::OtherLit { loc } => AnnValue::OtherLit { loc: *loc },
        }
    }
}

/// One raw annotation on a declaration: a tag name plus zero or more values.
#[derive(Debug, PartialEq, Eq)]
pub struct Annotation {
    pub tag: String,
    pub values: Vec<AnnValue>,
    pub loc: SrcLoc,
}

/// Mathematical model of an [`Annotation`].
pub struct AnnotationV {
    pub tag: Seq<char>,
    pub values: Seq<AnnValueV>,
    pub loc: SrcLoc,
}

impl View for Annotation {
    type V = AnnotationV;

    open spec fn view(&self) -> AnnotationV {
        AnnotationV { tag: self.tag@, values: self.values.deep_view(), loc: self.loc }
    }
}

impl DeepView for Annotation {
    type V = AnnotationV;

    open spec fn deep_view(&self) -> AnnotationV {
        self.view()
    }
}

impl Clone for Annotation {
    fn clone(&self) -> (r: Self)
        ensures
            r@ == self@,
    {
        let mut values: Vec<AnnValue> = Vec::new();
        let mut i: usize = 0;
        while i < self.values.len()
            invariant
                i <= self.values@.len(),
                values.deep_view() == self.values.deep_view().subrange(0, i as int),
            decreases self.values@.len() - i,
        {
            let ghost pre = values.deep_view();
            values.push(self.values[i].clone());
            proof {
                assert(values.deep_view() =~= pre.push(self.values.deep_view()[i as int]));
                assert(values.deep_view() =~= self.values.deep_view().subrange(0, i as int + 1));
            }
            i += 1;
        }
        assert(values.deep_view() =~= self.values.deep_view());
        Annotation { tag: self.tag.clone(), values, loc: self.loc }
    }
}

/// A whole declaration as seen by signature analysis: its own name (possibly
/// raw-escaped), its ordered annotations, its ordered parameters, its return
/// type if one is written, and whether it is suspend-capable or carries open
/// generic type parameters.
#[derive(Debug, PartialEq, Eq)]
pub struct Declaration {
    pub name: String,
    pub annotations: Vec<Annotation>,
    pub params: Vec<Param>,
    pub return_type: Option<TypeDesc>,
    pub is_async: bool,
    pub has_generics: bool,
    pub deprecations: Vec<String>,
    pub loc: SrcLoc,
}

/// Mathematical model of a [`Declaration`].
pub struct DeclarationV {
    pub name: Seq<char>,
    pub annotations: Seq<AnnotationV>,
    pub params: Seq<ParamV>,
    pub return_type: Option<TypeDescV>,
    pub is_async: bool,
    pub has_generics: bool,
    pub deprecations: Seq<Seq<char>>,
    pub loc: SrcLoc,
}

impl View for Declaration {
    type V = DeclarationV;

    open spec fn view(&self) -> DeclarationV {
        DeclarationV {
            name: self.name@,
            annotations: self.annotations.deep_view(),
            params: self.params.deep_view(),
            return_type: match self.return_type {
                Some(t) => Some(t@),
                None => None,
            },
            is_async: self.is_async,
            has_generics: self.has_generics,
            deprecations: self.deprecations.deep_view(),
            loc: self.loc,
        }
    }
}

impl DeepView for Declaration {
    type V = DeclarationV;

    open spec fn deep_view(&self) -> DeclarationV {
        self.view()
    }
}

/// Well-formedness of the front end's input: the declaration's own name is a
/// real identifier — non-empty, free of embedded nulls, and still non-empty
/// once a raw-identifier escape is removed.
pub open spec fn decl_wf(d: DeclarationV) -> bool {
    &&& d.name.len() > 0
    &&& !d.name.contains('\0')
    &&& unraw_spec(d.name).len() > 0
}

} // verus!
