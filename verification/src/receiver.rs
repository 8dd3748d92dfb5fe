//! The receiver resolver: decides from the binding kind and the first
//! declared parameter how — and whether — a receiver object is bound.

use vstd::prelude::*;

use crate::ast::{Param, ParamV};
use crate::diag::{diag, Diagnostic, DiagnosticV, ErrorKind};
use crate::kinds::{kind_requires_receiver, requires_receiver, BindingKind, ReceiverBinding};
use crate::SrcLoc;

verus! {

/// The message reported when a kind that needs a receiver has none.
pub open spec fn missing_receiver_message(k: BindingKind) -> Seq<char> {
    match k {
        BindingKind::CallOperator => "expected receiver for the call operator"@,
        BindingKind::Getter => "expected receiver for a getter"@,
        BindingKind::Setter => "expected receiver for a setter"@,
        _ => "expected receiver for a plain method"@,
    }
}

/// How a receiver-shaped (or conversion-target) first parameter binds the
/// receiver: a self reference binds by borrow, an existential type is
/// rejected, and any other type is a fallible conversion target.
pub open spec fn parse_method_receiver_spec(p: ParamV) -> Result<ReceiverBinding, DiagnosticV> {
    match p.ty.shape {
        crate::ast::TypeShape::SelfRef { mutable } => {
            if mutable {
                Ok(ReceiverBinding::MutableBorrow)
            } else {
                Ok(ReceiverBinding::ImmutableBorrow)
            }
        },
        crate::ast::TypeShape::Existential => Err(
            DiagnosticV {
                kind: ErrorKind::UnsupportedParameterShape,
                message: "parameters may not have an existential `impl Trait` type"@,
                loc: p.ty.loc,
            },
        ),
        _ => Ok(ReceiverBinding::FallibleConversion { loc: p.ty.loc }),
    }
}

/// The outcome of receiver resolution: the binding, how many leading
/// parameters the assembler must skip, and at most one diagnostic.
pub struct ReceiverResolution {
    pub binding: ReceiverBinding,
    pub skip: usize,
    pub issue: Option<Diagnostic>,
}

/// Mathematical model of a [`ReceiverResolution`].
#[verifier::ext_equal]
pub struct ReceiverResolutionV {
    pub binding: ReceiverBinding,
    pub skip: int,
    pub issue: Option<DiagnosticV>,
}

impl View for ReceiverResolution {
    type V = ReceiverResolutionV;

    open spec fn view(&self) -> ReceiverResolutionV {
        ReceiverResolutionV {
            binding: self.binding,
            skip: self.skip as int,
            issue: match self.issue {
                Some(ref d) => Some(d@),
                None => None,
            },
        }
    }
}

/// Receiver resolution for a whole declaration: kinds that require a
/// receiver consume the first parameter slot and fail with MissingReceiver
/// when the parameter list is empty; kinds that forbid one never consult it.
pub open spec fn resolve_receiver_spec(
    k: BindingKind,
    params: Seq<ParamV>,
    decl_loc: SrcLoc,
) -> ReceiverResolutionV {
    if requires_receiver(k) {
        if params.len() == 0 {
            ReceiverResolutionV {
                binding: ReceiverBinding::Unbound,
                skip: 0,
                issue: Some(
                    DiagnosticV {
                        kind: ErrorKind::MissingReceiver,
                        message: missing_receiver_message(k),
                        loc: decl_loc,
                    },
                ),
            }
        } else {
            match parse_method_receiver_spec(params[0]) {
                Ok(b) => ReceiverResolutionV { binding: b, skip: 1, issue: None },
                Err(d) => ReceiverResolutionV {
                    binding: ReceiverBinding::Unbound,
                    skip: 1,
                    issue: Some(d),
                },
            }
        }
    } else {
        ReceiverResolutionV { binding: ReceiverBinding::Unbound, skip: 0, issue: None }
    }
}

/// Inspects one parameter as the receiver slot.
pub fn parse_method_receiver(p: &Param) -> (r: Result<ReceiverBinding, Diagnostic>)
    ensures
        match r {
            Ok(b) => parse_method_receiver_spec(p@) == Ok::<ReceiverBinding, DiagnosticV>(b),
            Err(d) => parse_method_receiver_spec(p@) == Err::<ReceiverBinding, DiagnosticV>(d@),
        },
{
    match p.ty.shape {
        crate::ast::TypeShape::SelfRef { mutable } => {
            if mutable {
                Ok(ReceiverBinding::MutableBorrow)
            } else {
                Ok(ReceiverBinding::ImmutableBorrow)
            }
        },
        crate::ast::TypeShape::Existential => Err(
            diag(
                ErrorKind::UnsupportedParameterShape,
                "parameters may not have an existential `impl Trait` type",
                p.ty.loc,
            ),
        ),
        _ => Ok(ReceiverBinding::FallibleConversion { loc: p.ty.loc }),
    }
}

/// Resolves the receiver binding for a declaration.
pub fn resolve_receiver(k: BindingKind, params: &Vec<Param>, decl_loc: SrcLoc) -> (r:
    ReceiverResolution)
    ensures
        r@ == resolve_receiver_spec(k, params.deep_view(), decl_loc),
{
    if kind_requires_receiver(k) {
        if params.len() == 0 {
            let msg: &str = match k {
                BindingKind::CallOperator => "expected receiver for the call operator",
                BindingKind::Getter => "expected receiver for a getter",
                BindingKind::Setter => "expected receiver for a setter",
                _ => "expected receiver for a plain method",
            };
            let r = ReceiverResolution {
                binding: ReceiverBinding::Unbound,
                skip: 0,
                issue: Some(diag(ErrorKind::MissingReceiver, msg, decl_loc)),
            };
            assert(r@ =~= resolve_receiver_spec(k, params.deep_view(), decl_loc));
            r
        } else {
            assert(params.deep_view()[0] == params@[0].deep_view());
            match parse_method_receiver(&params[0]) {
                Ok(b) => {
                    let r = ReceiverResolution { binding: b, skip: 1, issue: None };
                    assert(r@ =~= resolve_receiver_spec(k, params.deep_view(), decl_loc));
                    r
                },
                Err(d) => {
                    let r = ReceiverResolution {
                        binding: ReceiverBinding::Unbound,
                        skip: 1,
                        issue: Some(d),
                    };
                    assert(r@ =~= resolve_receiver_spec(k, params.deep_view(), decl_loc));
                    r
                },
            }
        }
    } else {
        let r = ReceiverResolution {
            binding: ReceiverBinding::Unbound,
            skip: 0,
            issue: None,
        };
        assert(r@ =~= resolve_receiver_spec(k, params.deep_view(), decl_loc));
        r
    }
}

} // verus!
