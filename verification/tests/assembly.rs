use callspec::argtable::{ArgumentAttribute, ArgumentAttributeTable, ParameterRole};
use callspec::assemble::CallSpec;
use callspec::classify::classify;
use callspec::ast::{AnnValue, Annotation, Declaration, Param, TypeDesc, TypeShape};
use callspec::diag::{DiagnosticSink, ErrorKind};
use callspec::kinds::{
    kind_allows_signature_text, kind_forbids_name_override, kind_forbids_parameters,
    kind_requires_receiver, BindingKind, ReceiverBinding,
};
use callspec::receiver::parse_method_receiver;
use callspec::SrcLoc;

fn loc(line: u32, col: u32) -> SrcLoc {
    SrcLoc { line, col }
}

fn ty(shape: TypeShape, text: &str) -> TypeDesc {
    TypeDesc { shape, text: text.to_string(), loc: loc(1, 0) }
}

fn param(name: &str, shape: TypeShape) -> Param {
    Param { name: name.to_string(), ty: ty(shape, "T"), loc: loc(1, 0) }
}

fn self_param() -> Param {
    param("self", TypeShape::SelfRef { mutable: false })
}

fn tag(name: &str) -> Annotation {
    Annotation { tag: name.to_string(), values: Vec::new(), loc: loc(2, 0) }
}

fn tag_with(name: &str, values: Vec<AnnValue>) -> Annotation {
    Annotation { tag: name.to_string(), values, loc: loc(2, 0) }
}

fn ident_val(text: &str) -> AnnValue {
    AnnValue::Ident { text: text.to_string(), loc: loc(2, 1) }
}

fn str_val(text: &str) -> AnnValue {
    AnnValue::Str { text: text.to_string(), loc: loc(2, 1) }
}

fn decl(name: &str, annotations: Vec<Annotation>, params: Vec<Param>) -> Declaration {
    Declaration {
        name: name.to_string(),
        annotations,
        params,
        return_type: None,
        is_async: false,
        has_generics: false,
        deprecations: Vec::new(),
        loc: loc(1, 0),
    }
}

fn err_kinds(d: &Declaration) -> Vec<ErrorKind> {
    match CallSpec::parse(d) {
        Ok(_) => panic!("expected assembly to fail"),
        Err(diags) => diags.iter().map(|e| e.kind).collect(),
    }
}

#[test]
fn plain_method_defaults_to_plain() {
    let d = decl("f", vec![], vec![self_param()]);
    let cs = CallSpec::parse(&d).expect("plain method with receiver assembles");
    assert_eq!(cs.binding_kind, BindingKind::Plain);
    assert_eq!(cs.receiver, ReceiverBinding::ImmutableBorrow);
    assert_eq!(cs.external_name, "f");
    assert!(cs.ordered_parameters.is_empty());
}

#[test]
fn plain_method_without_receiver_is_missing_receiver() {
    let d = decl("f", vec![], vec![]);
    assert!(err_kinds(&d).contains(&ErrorKind::MissingReceiver));
}

#[test]
fn two_distinct_binding_kinds_conflict() {
    let d = decl("f", vec![tag("classattr"), tag("staticmethod")], vec![]);
    assert!(err_kinds(&d).contains(&ErrorKind::StructuralConflict));
}

#[test]
fn repeated_binding_kind_also_conflicts() {
    let d = decl("f", vec![tag("staticmethod"), tag("staticmethod")], vec![]);
    assert!(err_kinds(&d).contains(&ErrorKind::StructuralConflict));
}

#[test]
fn class_attribute_with_parameter_is_rejected() {
    let d = decl("f", vec![tag("classattr")], vec![param("x", TypeShape::Concrete)]);
    assert!(err_kinds(&d).contains(&ErrorKind::IllegalAttributePlacement));
}

#[test]
fn class_attribute_without_parameters_assembles() {
    let d = decl("answer", vec![tag("classattr")], vec![]);
    let cs = CallSpec::parse(&d).expect("class attribute assembles");
    assert_eq!(cs.binding_kind, BindingKind::ClassAttribute);
    assert_eq!(cs.receiver, ReceiverBinding::Unbound);
    assert_eq!(cs.external_name, "answer");
}

#[test]
fn static_method_with_self_receiver_is_rejected() {
    let d = decl("f", vec![tag("staticmethod")], vec![self_param()]);
    assert!(err_kinds(&d).contains(&ErrorKind::UnsupportedParameterShape));
}

#[test]
fn getter_without_receiver_is_missing_receiver() {
    let d = decl("get_x", vec![tag("getter")], vec![]);
    assert!(err_kinds(&d).contains(&ErrorKind::MissingReceiver));
}

#[test]
fn getter_prefix_is_stripped() {
    let d = decl("get_x", vec![tag("getter")], vec![self_param()]);
    let cs = CallSpec::parse(&d).expect("getter assembles");
    assert_eq!(cs.binding_kind, BindingKind::Getter);
    assert_eq!(cs.external_name, "x");
}

#[test]
fn getter_override_takes_priority() {
    let d = decl("get_x", vec![tag_with("getter", vec![ident_val("y")])], vec![self_param()]);
    let cs = CallSpec::parse(&d).expect("getter with override assembles");
    assert_eq!(cs.external_name, "y");
}

#[test]
fn getter_without_prefix_keeps_full_name() {
    let d = decl("width", vec![tag("getter")], vec![self_param()]);
    let cs = CallSpec::parse(&d).expect("getter assembles");
    assert_eq!(cs.external_name, "width");
}

#[test]
fn getter_with_bare_prefix_name_is_ambiguous() {
    let d = decl("get_", vec![tag("getter")], vec![self_param()]);
    assert!(err_kinds(&d).contains(&ErrorKind::AmbiguousPropertyName));
}

#[test]
fn setter_prefix_is_stripped() {
    let d = decl("set_x", vec![tag("setter")], vec![self_param()]);
    let cs = CallSpec::parse(&d).expect("setter assembles");
    assert_eq!(cs.binding_kind, BindingKind::Setter);
    assert_eq!(cs.external_name, "x");
}

#[test]
fn getter_with_two_values_is_rejected() {
    let d = decl(
        "get_x",
        vec![tag_with("getter", vec![ident_val("y"), ident_val("z")])],
        vec![self_param()],
    );
    assert!(err_kinds(&d).contains(&ErrorKind::StructuralConflict));
}

#[test]
fn getter_with_non_string_value_is_rejected() {
    let d = decl(
        "get_x",
        vec![tag_with("getter", vec![AnnValue::OtherLit { loc: loc(2, 1) }])],
        vec![self_param()],
    );
    assert!(err_kinds(&d).contains(&ErrorKind::StructuralConflict));
}

#[test]
fn empty_name_override_is_rejected() {
    let d = decl("get_x", vec![tag_with("getter", vec![str_val("")])], vec![self_param()]);
    assert!(err_kinds(&d).contains(&ErrorKind::StructuralConflict));
}

#[test]
fn constructor_forces_its_name() {
    let d = decl("build", vec![tag("new")], vec![]);
    let cs = CallSpec::parse(&d).expect("constructor assembles");
    assert_eq!(cs.binding_kind, BindingKind::Constructor);
    assert_eq!(cs.external_name, "__new__");
    assert_eq!(cs.null_terminated_python_name(), "__new__\0");
}

#[test]
fn call_operator_forces_its_name() {
    let d = decl("invoke", vec![tag("call")], vec![self_param()]);
    let cs = CallSpec::parse(&d).expect("call operator assembles");
    assert_eq!(cs.binding_kind, BindingKind::CallOperator);
    assert_eq!(cs.external_name, "__call__");
}

#[test]
fn name_override_on_constructor_conflicts() {
    let d = decl(
        "build",
        vec![tag("new"), tag_with("name", vec![str_val("other")])],
        vec![],
    );
    assert!(err_kinds(&d).contains(&ErrorKind::StructuralConflict));
}

#[test]
fn duplicate_name_override_conflicts() {
    let d = decl(
        "f",
        vec![
            tag_with("name", vec![str_val("a")]),
            tag_with("name", vec![str_val("b")]),
        ],
        vec![self_param()],
    );
    assert!(err_kinds(&d).contains(&ErrorKind::StructuralConflict));
}

#[test]
fn signature_text_on_constructor_is_rejected() {
    let d = decl(
        "build",
        vec![tag("new"), tag_with("text_signature", vec![str_val("(a)")])],
        vec![],
    );
    assert!(err_kinds(&d).contains(&ErrorKind::IllegalAttributePlacement));
}

#[test]
fn signature_text_on_plain_method_is_accepted() {
    let d = decl(
        "f",
        vec![tag_with("text_signature", vec![str_val("(a, b)")])],
        vec![self_param()],
    );
    let cs = CallSpec::parse(&d).expect("plain method with signature text assembles");
    assert_eq!(cs.generated_signature_text.as_deref(), Some("(a, b)"));
}

#[test]
fn signature_text_on_getter_is_rejected() {
    let d = decl(
        "get_x",
        vec![tag("getter"), tag_with("text_signature", vec![str_val("()")])],
        vec![self_param()],
    );
    let kinds = err_kinds(&d);
    assert!(kinds.contains(&ErrorKind::IllegalAttributePlacement));
}

#[test]
fn generic_declaration_is_rejected() {
    let mut d = decl("f", vec![], vec![self_param()]);
    d.has_generics = true;
    assert!(err_kinds(&d).contains(&ErrorKind::UnsupportedParameterShape));
}

#[test]
fn generic_parameter_type_is_rejected() {
    let d = decl(
        "f",
        vec![],
        vec![self_param(), param("x", TypeShape::Generic)],
    );
    assert!(err_kinds(&d).contains(&ErrorKind::UnsupportedParameterShape));
}

#[test]
fn existential_parameter_is_rejected_in_later_position() {
    let d = decl(
        "f",
        vec![],
        vec![self_param(), param("x", TypeShape::Existential)],
    );
    assert!(err_kinds(&d).contains(&ErrorKind::UnsupportedParameterShape));
}

#[test]
fn existential_parameter_is_rejected_in_receiver_position() {
    let d = decl("f", vec![], vec![param("x", TypeShape::Existential)]);
    assert!(err_kinds(&d).contains(&ErrorKind::UnsupportedParameterShape));
}

#[test]
fn async_declaration_is_rejected() {
    let mut d = decl("f", vec![], vec![self_param()]);
    d.is_async = true;
    assert!(err_kinds(&d).contains(&ErrorKind::UnsupportedParameterShape));
}

#[test]
fn assembly_is_idempotent_on_success() {
    let d = decl(
        "get_x",
        vec![tag("getter")],
        vec![self_param()],
    );
    assert_eq!(CallSpec::parse(&d), CallSpec::parse(&d));
}

#[test]
fn assembly_is_idempotent_on_failure() {
    let d = decl("f", vec![tag("classattr"), tag("staticmethod")], vec![]);
    assert_eq!(CallSpec::parse(&d), CallSpec::parse(&d));
}

#[test]
fn unknown_parameter_attribute_is_reported_with_its_name() {
    let d = decl(
        "f",
        vec![tag_with("arg", vec![ident_val("zzz")])],
        vec![self_param(), param("x", TypeShape::Concrete)],
    );
    let diags = CallSpec::parse(&d).expect_err("unknown parameter must fail");
    assert!(diags
        .iter()
        .any(|e| e.kind == ErrorKind::UnknownParameter && e.message == "unknown parameter: zzz"));
}

#[test]
fn duplicate_argument_attribute_conflicts() {
    let d = decl(
        "f",
        vec![
            tag_with("arg", vec![ident_val("x"), str_val("1")]),
            tag_with("kwarg", vec![ident_val("x")]),
        ],
        vec![self_param(), param("x", TypeShape::Concrete)],
    );
    assert!(err_kinds(&d).contains(&ErrorKind::StructuralConflict));
}

#[test]
fn roles_and_defaults_are_assigned() {
    let d = decl(
        "f",
        vec![
            tag_with("arg", vec![ident_val("a"), str_val("1")]),
            tag_with("kwarg", vec![ident_val("b")]),
            tag_with("varargs", vec![ident_val("c")]),
            tag_with("kwargs", vec![ident_val("d")]),
        ],
        vec![
            self_param(),
            param("a", TypeShape::Concrete),
            param("c", TypeShape::Concrete),
            param("d", TypeShape::Concrete),
        ],
    );
    // `b` is keyword-only and must come after the variadic-positional `c`;
    // that ordering is a structural conflict, so keep `b` out of the list.
    let mut d = d;
    d.params.insert(1, param("b", TypeShape::Concrete));
    let cs = CallSpec::parse(&d).expect("roles assemble");
    let p: Vec<_> = cs.ordered_parameters.iter().map(|q| (q.name.as_str(), q.role)).collect();
    assert_eq!(
        p,
        vec![
            ("b", ParameterRole::KeywordOnly),
            ("a", ParameterRole::Positional),
            ("c", ParameterRole::VariadicPositional),
            ("d", ParameterRole::VariadicKeyword),
        ]
    );
    assert_eq!(cs.ordered_parameters[1].default_expr.as_deref(), Some("1"));
    assert_eq!(cs.ordered_parameters[0].default_expr, None);
}

#[test]
fn keyword_only_after_variadic_positional_conflicts() {
    let d = decl(
        "f",
        vec![
            tag_with("varargs", vec![ident_val("a")]),
            tag_with("kwarg", vec![ident_val("b")]),
        ],
        vec![
            self_param(),
            param("a", TypeShape::Concrete),
            param("b", TypeShape::Concrete),
        ],
    );
    assert!(err_kinds(&d).contains(&ErrorKind::StructuralConflict));
}

#[test]
fn malformed_argument_attribute_is_rejected() {
    let d = decl(
        "f",
        vec![tag_with("varargs", vec![ident_val("a"), str_val("1")])],
        vec![self_param(), param("a", TypeShape::Concrete)],
    );
    assert!(err_kinds(&d).contains(&ErrorKind::StructuralConflict));
}

#[test]
fn context_handle_is_excluded_from_parameters() {
    let d = decl(
        "f",
        vec![],
        vec![
            self_param(),
            param("ctx", TypeShape::Context),
            param("x", TypeShape::Concrete),
        ],
    );
    let cs = CallSpec::parse(&d).expect("context handle assembles");
    assert_eq!(cs.ordered_parameters.len(), 1);
    assert_eq!(cs.ordered_parameters[0].name, "x");
    assert!(!cs.ordered_parameters[0].is_runtime_context);
}

#[test]
fn raw_identifier_escape_is_stripped() {
    let d = decl("r#type", vec![], vec![self_param()]);
    let cs = CallSpec::parse(&d).expect("raw identifier assembles");
    assert_eq!(cs.external_name, "type");
}

#[test]
fn class_method_takes_no_receiver() {
    let d = decl(
        "f",
        vec![tag("classmethod")],
        vec![param("cls", TypeShape::Concrete)],
    );
    let cs = CallSpec::parse(&d).expect("class method assembles");
    assert_eq!(cs.binding_kind, BindingKind::ClassMethod);
    assert_eq!(cs.receiver, ReceiverBinding::Unbound);
    assert_eq!(cs.ordered_parameters.len(), 1);
}

#[test]
fn mutable_receiver_binds_mutably() {
    let d = decl(
        "f",
        vec![],
        vec![param("self", TypeShape::SelfRef { mutable: true })],
    );
    let cs = CallSpec::parse(&d).expect("mutable receiver assembles");
    assert_eq!(cs.receiver, ReceiverBinding::MutableBorrow);
}

#[test]
fn typed_first_parameter_is_fallible_conversion() {
    let d = decl("f", vec![], vec![param("slf", TypeShape::Concrete)]);
    let cs = CallSpec::parse(&d).expect("typed receiver assembles");
    assert_eq!(cs.receiver, ReceiverBinding::FallibleConversion { loc: loc(1, 0) });
}

#[test]
fn documentation_lines_are_joined() {
    let d = decl(
        "f",
        vec![
            tag_with("doc", vec![str_val("first line")]),
            tag_with("doc", vec![str_val("second line")]),
        ],
        vec![self_param()],
    );
    let cs = CallSpec::parse(&d).expect("documented method assembles");
    assert_eq!(cs.documentation, "first line\nsecond line");
}

#[test]
fn deprecation_notices_carry_over() {
    let mut d = decl("f", vec![], vec![self_param()]);
    d.deprecations = vec!["old api".to_string()];
    let cs = CallSpec::parse(&d).expect("assembles");
    assert_eq!(cs.deprecation_notices, vec!["old api".to_string()]);
}

#[test]
fn existential_return_type_is_rejected() {
    let mut d = decl("f", vec![], vec![self_param()]);
    d.return_type = Some(ty(TypeShape::Existential, "impl T"));
    assert!(err_kinds(&d).contains(&ErrorKind::UnsupportedParameterShape));
}

#[test]
fn missing_return_type_becomes_inferred() {
    let d = decl("f", vec![], vec![self_param()]);
    let cs = CallSpec::parse(&d).expect("assembles");
    assert_eq!(cs.return_type.text, "_");
    assert_eq!(cs.return_type.shape, TypeShape::Concrete);
}

#[test]
fn multiple_independent_errors_are_all_reported() {
    let mut d = decl(
        "f",
        vec![tag("classattr"), tag("staticmethod")],
        vec![param("x", TypeShape::Existential)],
    );
    d.is_async = true;
    let diags = CallSpec::parse(&d).expect_err("must fail");
    let kinds: Vec<ErrorKind> = diags.iter().map(|e| e.kind).collect();
    assert!(kinds.contains(&ErrorKind::StructuralConflict));
    assert!(kinds.contains(&ErrorKind::UnsupportedParameterShape));
    assert!(kinds.contains(&ErrorKind::IllegalAttributePlacement));
    assert!(diags.len() >= 3);
}

#[test]
fn diagnostics_carry_locations() {
    let mut d = decl("f", vec![], vec![]);
    d.loc = loc(7, 3);
    let diags = CallSpec::parse(&d).expect_err("must fail");
    assert_eq!(diags[0].loc, loc(7, 3));
}

#[test]
fn attribute_table_queries_answer_by_name() {
    let attrs = vec![
        ArgumentAttribute::PositionalDefault {
            name: "a".to_string(),
            expr: Some("1".to_string()),
            loc: loc(1, 0),
        },
        ArgumentAttribute::KeywordOnly { name: "b".to_string(), expr: None, loc: loc(1, 1) },
        ArgumentAttribute::VariadicPositional { name: "c".to_string(), loc: loc(1, 2) },
        ArgumentAttribute::VariadicKeyword { name: "d".to_string(), loc: loc(1, 3) },
    ];
    let names = vec!["a".to_string(), "b".to_string(), "c".to_string(), "d".to_string()];
    let (table, diags) = ArgumentAttributeTable::build(&attrs, &names);
    assert!(diags.is_empty());
    assert!(table.is_args("c") && !table.is_args("a"));
    assert!(table.is_kwargs("d") && !table.is_kwargs("c"));
    assert!(table.is_kw_only("b") && !table.is_kw_only("a"));
    assert_eq!(table.default_value("a").as_deref(), Some("1"));
    assert_eq!(table.default_value("b"), None);
    assert_eq!(table.default_value("c"), None);
}

#[test]
fn dunder_spellings_select_the_same_kinds() {
    let d = decl("build", vec![tag("__new__")], vec![]);
    let cs = CallSpec::parse(&d).expect("dunder constructor tag assembles");
    assert_eq!(cs.binding_kind, BindingKind::Constructor);
    let d2 = decl("invoke", vec![tag("__call__")], vec![self_param()]);
    let cs2 = CallSpec::parse(&d2).expect("dunder call tag assembles");
    assert_eq!(cs2.binding_kind, BindingKind::CallOperator);
}

#[test]
fn batch_assembly_isolates_failures() {
    let good = decl("get_x", vec![tag("getter")], vec![self_param()]);
    let bad = decl("f", vec![tag("classattr")], vec![param("x", TypeShape::Concrete)]);
    let also_good = decl("g", vec![], vec![self_param()]);
    let decls = vec![good, bad, also_good];
    let mut sink = DiagnosticSink::new();
    let specs = CallSpec::parse_batch(&decls, &mut sink);
    assert_eq!(specs.len(), 3);
    assert!(specs[0].is_some() && specs[1].is_none() && specs[2].is_some());
    assert_eq!(specs[0].as_ref().unwrap().external_name, "x");
    let errs = sink.into_entries();
    assert!(!errs.is_empty());
    assert!(errs.iter().all(|e| e.kind == ErrorKind::IllegalAttributePlacement));
}

#[test]
fn nested_value_on_a_tag_that_takes_none_is_rejected() {
    let d = decl(
        "f",
        vec![tag_with("staticmethod", vec![ident_val("x")])],
        vec![],
    );
    assert!(err_kinds(&d).contains(&ErrorKind::IllegalAttributePlacement));
}

#[test]
fn signature_text_refusals_are_distinct_per_kind() {
    let sig_request = || tag_with("text_signature", vec![str_val("()")]);
    let cases: Vec<Declaration> = vec![
        decl("build", vec![tag("new"), sig_request()], vec![]),
        decl("invoke", vec![tag("call"), sig_request()], vec![self_param()]),
        decl("get_x", vec![tag("getter"), sig_request()], vec![self_param()]),
        decl("set_x", vec![tag("setter"), sig_request()], vec![self_param()]),
        decl("c", vec![tag("classattr"), sig_request()], vec![]),
    ];
    let mut messages: Vec<String> = Vec::new();
    for d in &cases {
        let diags = CallSpec::parse(d).expect_err("signature text must be refused");
        let msg = diags
            .iter()
            .find(|e| e.kind == ErrorKind::IllegalAttributePlacement)
            .expect("a placement diagnostic is reported")
            .message
            .clone();
        assert!(!messages.contains(&msg), "each kind reports its own message");
        messages.push(msg);
    }
}

#[test]
fn receiver_slot_shapes_resolve_directly() {
    let ok = parse_method_receiver(&self_param()).expect("self reference binds");
    assert_eq!(ok, ReceiverBinding::ImmutableBorrow);
    let conv = parse_method_receiver(&param("slf", TypeShape::Concrete)).expect("typed binds");
    assert!(matches!(conv, ReceiverBinding::FallibleConversion { .. }));
    let err = parse_method_receiver(&param("slf", TypeShape::Existential))
        .expect_err("existential receiver is refused");
    assert_eq!(err.kind, ErrorKind::UnsupportedParameterShape);
}

#[test]
fn rule_table_fixes_each_kind() {
    assert!(kind_requires_receiver(BindingKind::Plain));
    assert!(kind_requires_receiver(BindingKind::Getter));
    assert!(!kind_requires_receiver(BindingKind::StaticMethod));
    assert!(kind_forbids_parameters(BindingKind::ClassAttribute));
    assert!(!kind_forbids_parameters(BindingKind::Plain));
    assert!(kind_forbids_name_override(BindingKind::Constructor));
    assert!(kind_forbids_name_override(BindingKind::CallOperator));
    assert!(!kind_forbids_name_override(BindingKind::Getter));
    assert!(kind_allows_signature_text(BindingKind::ClassMethod));
    assert!(!kind_allows_signature_text(BindingKind::Setter));
}

#[test]
fn unrecognized_annotations_pass_through() {
    let anns = vec![tag("inline"), tag("getter"), tag_with("doc", vec![str_val("d")])];
    let c = classify(&anns);
    assert_eq!(c.passthrough.len(), 1);
    assert_eq!(c.passthrough[0].tag, "inline");
    assert_eq!(c.doc_lines, vec!["d".to_string()]);
}
