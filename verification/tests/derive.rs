use web_proc_macros::directive::{parse_directive, Annotation, AnnotationArg, Directive, Vocabulary};
use web_proc_macros::error::MacroError;
use web_proc_macros::model::{
    extract, find_attribute, DeclarationBody, DeclarationModel, FieldDeclaration, FieldModel,
    GenericParam, ModelBody, ParamKind, Rule, TypeDeclaration, VariantDeclaration, VariantShape,
    Visibility,
};
use web_proc_macros::transform::{
    derive_opt_struct_values, derive_opt_values, derive_options, derive_partial,
    derive_partial_struct, derive_struct_values, derive_values, get_name_traits,
    partial_object_macro, partial_struct, reading_options_macro, target_name_of, whitelist_of,
    DerivedDeclaration, DerivedType, FieldDefault, WhitelistTable,
};

fn lifetime(name: &str) -> GenericParam {
    GenericParam { kind: ParamKind::Lifetime, name: name.to_string(), bounds: None, default: None }
}

fn type_param(name: &str, bounds: Option<&str>, default: Option<&str>) -> GenericParam {
    GenericParam {
        kind: ParamKind::Type,
        name: name.to_string(),
        bounds: bounds.map(|b| b.to_string()),
        default: default.map(|d| d.to_string()),
    }
}

fn const_param(name: &str, ty: &str) -> GenericParam {
    GenericParam {
        kind: ParamKind::Const,
        name: name.to_string(),
        bounds: Some(ty.to_string()),
        default: None,
    }
}

fn path(text: &str) -> AnnotationArg {
    AnnotationArg::Path(text.to_string())
}

fn name_value(key: &str, value: &str) -> AnnotationArg {
    AnnotationArg::NameValue {
        key: key.to_string(),
        value: value.to_string(),
        text: format!("{} = {:?}", key, value),
    }
}

fn other(text: &str) -> AnnotationArg {
    AnnotationArg::Other(text.to_string())
}

fn annotation(name: &str, args: Vec<AnnotationArg>) -> Annotation {
    Annotation { name: name.to_string(), args: Some(args) }
}

fn bare(name: &str) -> Annotation {
    Annotation { name: name.to_string(), args: None }
}

fn field(name: &str, ty: &str, annotations: Vec<Annotation>) -> FieldDeclaration {
    FieldDeclaration {
        name: name.to_string(),
        declared_type: ty.to_string(),
        visibility: Visibility::Inherited,
        annotations,
    }
}

fn user(attribute: &str, mark: &str, type_level: Vec<Annotation>) -> TypeDeclaration {
    TypeDeclaration {
        name: "User".to_string(),
        generics: Vec::new(),
        where_clause: None,
        annotations: type_level,
        body: DeclarationBody::NamedStruct(vec![
            field("id", "String", vec![annotation(attribute, vec![path(mark)])]),
            field("name", "String", vec![]),
            field("status", "u8", vec![]),
            field("groups", "Vec<String>", vec![bare("doc")]),
        ]),
    }
}

fn names(declaration: &DerivedDeclaration) -> Vec<String> {
    declaration.fields.iter().map(|f| f.name.clone()).collect()
}

fn verbatim(declaration: &DerivedDeclaration, i: usize) -> Option<String> {
    match &declaration.fields[i].ty {
        DerivedType::Verbatim(ty) => Some(ty.clone()),
        _ => None,
    }
}

fn optional(declaration: &DerivedDeclaration, i: usize) -> Option<String> {
    match &declaration.fields[i].ty {
        DerivedType::Optional(ty) => Some(ty.clone()),
        _ => None,
    }
}

#[test]
fn values_keep_unskipped_fields_in_order_with_types() {
    let derived = derive_struct_values(&user("struct_values", "skip", vec![])).unwrap();
    assert_eq!(derived.target_name, "UserValues");
    assert_eq!(names(&derived), vec!["name", "status", "groups"]);
    assert_eq!(verbatim(&derived, 0), Some("String".to_string()));
    assert_eq!(verbatim(&derived, 1), Some("u8".to_string()));
    assert_eq!(verbatim(&derived, 2), Some("Vec<String>".to_string()));
    assert!(derived.fields.iter().all(|f| matches!(f.visibility, Visibility::Public)));
    assert!(derived.fields.iter().all(|f| f.attributes.is_empty()));
    assert_eq!(
        derived.attributes,
        vec!["derive(Serialize, Deserialize, Debug, Clone)".to_string()]
    );
    assert!(derived.generic_parameters.is_empty());
    assert_eq!(derived.where_clause, None);
    assert!(!derived.with_default);
}

#[test]
fn values_without_marks_keep_every_field() {
    let mut declaration = user("struct_values", "skip", vec![]);
    if let DeclarationBody::NamedStruct(fields) = &mut declaration.body {
        fields[0].annotations.clear();
    }
    let derived = derive_struct_values(&declaration).unwrap();
    assert_eq!(names(&derived), vec!["id", "name", "status", "groups"]);
}

#[test]
fn values_carry_generics_and_where_clause() {
    let declaration = TypeDeclaration {
        name: "User".to_string(),
        generics: vec![
            const_param("N", "usize"),
            lifetime("'a"),
            type_param("F", Some("Foo"), Some("FooImpl")),
        ],
        where_clause: Some("where F: Foo".to_string()),
        annotations: vec![],
        body: DeclarationBody::NamedStruct(vec![
            field("id", "&'a str", vec![]),
            field("foo", "F", vec![]),
        ]),
    };
    let derived = derive_struct_values(&declaration).unwrap();
    assert_eq!(derived.generic_parameters.len(), 2);
    assert_eq!(derived.generic_parameters[0].kind, ParamKind::Lifetime);
    assert_eq!(derived.generic_parameters[0].name, "'a");
    assert_eq!(derived.generic_parameters[1].kind, ParamKind::Type);
    assert_eq!(derived.generic_parameters[1].name, "F");
    assert_eq!(derived.generic_parameters[1].bounds, Some("Foo".to_string()));
    assert_eq!(derived.generic_parameters[1].default, Some("FooImpl".to_string()));
    assert_eq!(derived.where_clause, Some("where F: Foo".to_string()));
    assert_eq!(verbatim(&derived, 0), Some("&'a str".to_string()));
    let flags = reading_options_macro(&declaration).unwrap();
    assert_eq!(flags.generic_parameters.len(), 2);
    assert_eq!(flags.where_clause, Some("where F: Foo".to_string()));
}

#[test]
fn opt_values_wrap_every_kept_type() {
    let derived = derive_opt_struct_values(&user("opt_struct_values", "skip", vec![])).unwrap();
    assert_eq!(derived.target_name, "UserOptValues");
    assert_eq!(names(&derived), vec!["name", "status", "groups"]);
    assert_eq!(optional(&derived, 0), Some("String".to_string()));
    assert_eq!(optional(&derived, 1), Some("u8".to_string()));
    assert_eq!(optional(&derived, 2), Some("Vec<String>".to_string()));
    assert_eq!(
        derived.attributes,
        vec!["derive(Serialize, Deserialize, Debug, Clone)".to_string()]
    );
    assert!(derived.with_default);
}

#[test]
fn opt_values_have_the_fields_of_values() {
    let plain = derive_struct_values(&user("struct_values", "skip", vec![])).unwrap();
    let wrapped = derive_opt_struct_values(&user("opt_struct_values", "skip", vec![])).unwrap();
    assert_eq!(names(&plain), names(&wrapped));
    for i in 0..plain.fields.len() {
        assert_eq!(verbatim(&plain, i), optional(&wrapped, i));
    }
}

#[test]
fn all_absent_value_is_constructible() {
    let wrapped = derive_opt_struct_values(&user("opt_struct_values", "skip", vec![])).unwrap();
    assert_eq!(
        wrapped.default_instance(),
        Some(vec![FieldDefault::Absent, FieldDefault::Absent, FieldDefault::Absent])
    );
    let plain = derive_struct_values(&user("struct_values", "skip", vec![])).unwrap();
    assert_eq!(plain.default_instance(), None);
}

#[test]
fn skip_marks_of_another_rule_are_not_read() {
    let derived = derive_struct_values(&user("opt_struct_values", "skip", vec![])).unwrap();
    assert_eq!(names(&derived), vec!["id", "name", "status", "groups"]);
}

#[test]
fn options_leave_out_always_fields() {
    let derived = reading_options_macro(&user("reading_options", "always", vec![])).unwrap();
    assert_eq!(derived.target_name, "UserOptions");
    assert_eq!(names(&derived), vec!["name", "status", "groups"]);
    assert!(derived.fields.iter().all(|f| matches!(f.ty, DerivedType::Flag)));
    assert!(derived.fields.iter().all(|f| matches!(f.visibility, Visibility::Public)));
    assert_eq!(
        derived.attributes,
        vec![
            "derive(serde_derive::Serialize, serde_derive::Deserialize, Clone)".to_string(),
            "serde(default)".to_string(),
        ]
    );
    assert!(derived.with_default);
}

#[test]
fn options_flags_default_to_false() {
    let derived = reading_options_macro(&user("reading_options", "always", vec![])).unwrap();
    assert_eq!(
        derived.default_instance(),
        Some(vec![FieldDefault::False, FieldDefault::False, FieldDefault::False])
    );
}

#[test]
fn partial_keeps_always_fields_required() {
    let derived = partial_object_macro(&user("reading_options", "always", vec![])).unwrap();
    assert_eq!(derived.target_name, "PartialUser");
    assert_eq!(names(&derived), vec!["id", "name", "status", "groups"]);
    assert_eq!(verbatim(&derived, 0), Some("String".to_string()));
    assert_eq!(optional(&derived, 1), Some("String".to_string()));
    assert_eq!(optional(&derived, 2), Some("u8".to_string()));
    assert_eq!(optional(&derived, 3), Some("Vec<String>".to_string()));
    assert_eq!(derived.default_instance(), None);
}

#[test]
fn partial_follows_the_given_whitelist() {
    let model = extract(Rule::Partial, &user("reading_options", "always", vec![])).unwrap();
    assert_eq!(whitelist_of(&model).always, vec![true, false, false, false]);
    let whitelist = WhitelistTable { always: vec![false, false, true, true] };
    let derived = derive_partial(&model, &whitelist).unwrap();
    assert_eq!(optional(&derived, 0), Some("String".to_string()));
    assert_eq!(optional(&derived, 1), Some("String".to_string()));
    assert_eq!(verbatim(&derived, 2), Some("u8".to_string()));
    assert_eq!(verbatim(&derived, 3), Some("Vec<String>".to_string()));
    let nothing = WhitelistTable { always: vec![] };
    let derived = derive_partial(&model, &nothing).unwrap();
    assert_eq!(
        derived.default_instance(),
        Some(vec![FieldDefault::Absent; 4])
    );
}

#[test]
fn rename_overrides_every_default_name() {
    let renamed = |attribute: &str, key: &str, to: &str| {
        vec![annotation(attribute, vec![name_value(key, to)])]
    };
    let values = derive_struct_values(&user(
        "struct_values",
        "skip",
        renamed("struct_values", "name", "UserDestructured"),
    ))
    .unwrap();
    assert_eq!(values.target_name, "UserDestructured");
    let values = derive_struct_values(&user(
        "struct_values",
        "skip",
        renamed("struct_values", "rename", "Other"),
    ))
    .unwrap();
    assert_eq!(values.target_name, "Other");
    let wrapped = derive_opt_struct_values(&user(
        "opt_struct_values",
        "skip",
        renamed("opt_struct_values", "name", "UserInput"),
    ))
    .unwrap();
    assert_eq!(wrapped.target_name, "UserInput");
    let flags = reading_options_macro(&user(
        "reading_options",
        "always",
        renamed("reading_options", "rename", "UserFlags"),
    ))
    .unwrap();
    assert_eq!(flags.target_name, "UserFlags");
    let partial = partial_object_macro(&user(
        "reading_options",
        "always",
        renamed("partial_object", "rename", "UserPatch"),
    ))
    .unwrap();
    assert_eq!(partial.target_name, "UserPatch");
}

#[test]
fn renamed_declarations_differ_in_name_only() {
    let first = derive_struct_values(&user(
        "struct_values",
        "skip",
        vec![annotation("struct_values", vec![name_value("rename", "A")])],
    ))
    .unwrap();
    let second = derive_struct_values(&user(
        "struct_values",
        "skip",
        vec![annotation("struct_values", vec![name_value("rename", "B")])],
    ))
    .unwrap();
    assert_eq!(first.target_name, "A");
    assert_eq!(second.target_name, "B");
    assert_eq!(names(&first), names(&second));
    assert_eq!(first.attributes, second.attributes);
}

#[test]
fn first_rename_wins() {
    let model = DeclarationModel {
        name: "User".to_string(),
        generic_parameters: vec![],
        where_clause: None,
        directives: vec![
            Directive::Skip,
            Directive::Rename("First".to_string()),
            Directive::Rename("Second".to_string()),
        ],
        body: ModelBody::Struct(vec![]),
    };
    assert_eq!(target_name_of(Rule::Values, &model), "First");
    assert_eq!(derive_values(&model).unwrap().target_name, "First");
    assert_eq!(derive_opt_values(&model).unwrap().target_name, "First");
    assert_eq!(derive_options(&model).unwrap().target_name, "First");
}

#[test]
fn default_names_follow_the_rule() {
    let model = DeclarationModel {
        name: "Account".to_string(),
        generic_parameters: vec![],
        where_clause: None,
        directives: vec![],
        body: ModelBody::Struct(vec![]),
    };
    assert_eq!(target_name_of(Rule::Values, &model), "AccountValues");
    assert_eq!(target_name_of(Rule::OptValues, &model), "AccountOptValues");
    assert_eq!(target_name_of(Rule::Options, &model), "AccountOptions");
    assert_eq!(target_name_of(Rule::Partial, &model), "PartialAccount");
    assert_eq!(target_name_of(Rule::PartialStruct, &model), "Account");
}

#[test]
fn tuple_unit_and_enum_are_unsupported_shapes() {
    for body in [DeclarationBody::TupleStruct, DeclarationBody::UnitStruct, DeclarationBody::Union]
    {
        let declaration = TypeDeclaration {
            name: "T".to_string(),
            generics: vec![],
            where_clause: None,
            annotations: vec![annotation("partial_struct", vec![path("Part")])],
            body,
        };
        assert!(matches!(derive_struct_values(&declaration), Err(MacroError::UnsupportedShape)));
        assert!(matches!(
            derive_opt_struct_values(&declaration),
            Err(MacroError::UnsupportedShape)
        ));
        assert!(matches!(reading_options_macro(&declaration), Err(MacroError::UnsupportedShape)));
        assert!(matches!(partial_object_macro(&declaration), Err(MacroError::UnsupportedShape)));
        assert!(matches!(partial_struct(&declaration), Err(MacroError::UnsupportedShape)));
    }
    let an_enum = TypeDeclaration {
        name: "E".to_string(),
        generics: vec![],
        where_clause: None,
        annotations: vec![],
        body: DeclarationBody::Enum(vec![VariantDeclaration {
            name: "A".to_string(),
            shape: VariantShape::Unit,
            annotations: vec![],
        }]),
    };
    assert!(matches!(derive_struct_values(&an_enum), Err(MacroError::UnsupportedShape)));
    assert!(matches!(extract(Rule::Options, &an_enum), Err(MacroError::UnsupportedShape)));
}

#[test]
fn rules_reject_an_enum_model() {
    let model = DeclarationModel {
        name: "E".to_string(),
        generic_parameters: vec![],
        where_clause: None,
        directives: vec![],
        body: ModelBody::Enum(vec![]),
    };
    assert!(matches!(derive_values(&model), Err(MacroError::UnsupportedShape)));
    assert!(matches!(derive_opt_values(&model), Err(MacroError::UnsupportedShape)));
    assert!(matches!(derive_options(&model), Err(MacroError::UnsupportedShape)));
    let whitelist = WhitelistTable { always: vec![] };
    assert!(matches!(derive_partial(&model, &whitelist), Err(MacroError::UnsupportedShape)));
    assert!(matches!(
        derive_partial_struct(&model, "Part", &vec![]),
        Err(MacroError::UnsupportedShape)
    ));
    assert!(whitelist_of(&model).always.is_empty());
}

#[test]
fn malformed_field_annotation_fails_the_derivation() {
    let unknown = user("struct_values", "omit", vec![]);
    assert!(matches!(derive_struct_values(&unknown), Err(MacroError::MalformedAnnotation)));
    let wrong_place = user("struct_values", "always", vec![]);
    assert!(matches!(derive_struct_values(&wrong_place), Err(MacroError::MalformedAnnotation)));
    let wrong_place = user("reading_options", "skip", vec![]);
    assert!(matches!(reading_options_macro(&wrong_place), Err(MacroError::MalformedAnnotation)));
    assert!(matches!(partial_object_macro(&wrong_place), Err(MacroError::MalformedAnnotation)));
    let mut no_list = user("struct_values", "skip", vec![]);
    if let DeclarationBody::NamedStruct(fields) = &mut no_list.body {
        fields[1].annotations.push(bare("struct_values"));
    }
    assert!(matches!(derive_struct_values(&no_list), Err(MacroError::MalformedAnnotation)));
}

#[test]
fn malformed_type_annotation_fails_the_derivation() {
    let skip_on_type = user("struct_values", "skip", vec![annotation(
        "struct_values",
        vec![path("skip")],
    )]);
    assert!(matches!(derive_struct_values(&skip_on_type), Err(MacroError::MalformedAnnotation)));
    let wrong_key = user("struct_values", "skip", vec![annotation(
        "struct_values",
        vec![name_value("title", "X")],
    )]);
    assert!(matches!(derive_struct_values(&wrong_key), Err(MacroError::MalformedAnnotation)));
    let two = user("struct_values", "skip", vec![annotation(
        "struct_values",
        vec![name_value("rename", "X"), name_value("rename", "Y")],
    )]);
    assert!(matches!(derive_struct_values(&two), Err(MacroError::MalformedAnnotation)));
}

#[test]
fn parse_directive_reads_each_vocabulary() {
    let read = |vocabulary, args| parse_directive(vocabulary, &annotation("x", args));
    assert!(matches!(
        read(Vocabulary::SkipField, vec![path("skip")]).unwrap()[..],
        [Directive::Skip]
    ));
    assert!(matches!(
        read(Vocabulary::AlwaysField, vec![path("always")]).unwrap()[..],
        [Directive::Always]
    ));
    assert!(matches!(
        &read(Vocabulary::TargetName, vec![name_value("rename", "N")]).unwrap()[..],
        [Directive::Rename(n)] if n == "N"
    ));
    assert!(matches!(
        &read(Vocabulary::KindVariant, vec![path("ErrorType"), path("A")]).unwrap()[..],
        [Directive::KindMapping(e, v)] if e == "ErrorType" && v == "A"
    ));
    assert!(matches!(
        read(Vocabulary::KindVariant, vec![path("transparent")]).unwrap()[..],
        [Directive::Transparent]
    ));
    assert!(matches!(
        &read(Vocabulary::LiteralKindVariant, vec![path("K"), path("V")]).unwrap()[..],
        [Directive::KindMapping(e, v)] if e == "K" && v == "V"
    ));
    assert!(matches!(
        &read(
            Vocabulary::CopiedField,
            vec![path("pub"), other("serde(skip)"), path("unknown"), name_value("doc", "d")]
        )
        .unwrap()[..],
        [Directive::MakePublic, Directive::AttachTrait(a), Directive::AttachTrait(b), Directive::AttachTrait(c)]
            if a == "serde(skip)" && b == "unknown" && c == "doc = \"d\""
    ));
    assert!(read(Vocabulary::CopiedField, vec![]).unwrap().is_empty());
}

#[test]
fn parse_directive_rejects_wrong_arity_and_context() {
    let read = |vocabulary, args| parse_directive(vocabulary, &annotation("x", args));
    let malformed = |outcome: Result<Vec<Directive>, MacroError>| {
        matches!(outcome, Err(MacroError::MalformedAnnotation))
    };
    for vocabulary in [
        Vocabulary::TargetName,
        Vocabulary::SkipField,
        Vocabulary::AlwaysField,
        Vocabulary::CopiedField,
        Vocabulary::KindVariant,
        Vocabulary::LiteralKindVariant,
    ] {
        assert!(malformed(parse_directive(vocabulary, &bare("x"))));
    }
    assert!(malformed(read(Vocabulary::SkipField, vec![])));
    assert!(malformed(read(Vocabulary::SkipField, vec![path("skip"), path("skip")])));
    assert!(malformed(read(Vocabulary::SkipField, vec![other("skip")])));
    assert!(malformed(read(Vocabulary::AlwaysField, vec![path("skip")])));
    assert!(malformed(read(Vocabulary::TargetName, vec![path("rename")])));
    assert!(malformed(read(Vocabulary::KindVariant, vec![])));
    assert!(malformed(read(Vocabulary::KindVariant, vec![path("opaque")])));
    assert!(malformed(read(
        Vocabulary::KindVariant,
        vec![path("K"), path("A"), path("B")]
    )));
    assert!(malformed(read(Vocabulary::KindVariant, vec![path("K"), other("\"A\"")])));
    assert!(malformed(read(Vocabulary::LiteralKindVariant, vec![path("transparent")])));
}

#[test]
fn find_attribute_gives_the_first_list_under_the_name() {
    let declaration = user("struct_values", "skip", vec![
        bare("partial_struct"),
        annotation("derive", vec![path("Debug")]),
        annotation("partial_struct", vec![path("First")]),
        annotation("partial_struct", vec![path("Second")]),
    ]);
    let found = find_attribute(&declaration, "partial_struct").unwrap();
    assert_eq!(found.len(), 1);
    assert!(matches!(&found[0], AnnotationArg::Path(p) if p == "First"));
    assert!(find_attribute(&declaration, "error_kind").is_none());
}

fn account() -> TypeDeclaration {
    TypeDeclaration {
        name: "Account".to_string(),
        generics: vec![type_param("T", None, None)],
        where_clause: None,
        annotations: vec![annotation(
            "partial_struct",
            vec![path("AccountSummary"), other("derive(Debug, Clone)"), path("non_exhaustive")],
        )],
        body: DeclarationBody::NamedStruct(vec![
            FieldDeclaration {
                name: "id".to_string(),
                declared_type: "u64".to_string(),
                visibility: Visibility::Restricted("pub(crate)".to_string()),
                annotations: vec![],
            },
            field("secret", "String", vec![annotation("partial_struct", vec![path("skip")])]),
            field("owner", "T", vec![annotation(
                "partial_struct",
                vec![path("pub"), other("serde(rename = \"by\")")],
            )]),
            field("note", "String", vec![
                annotation("serde", vec![path("default")]),
                annotation("partial_struct", vec![other("serde(default)")]),
                annotation("partial_struct", vec![other("doc(hidden)")]),
            ]),
        ]),
    }
}

#[test]
fn partial_struct_takes_name_and_traits_from_the_type() {
    let (name, traits) = get_name_traits(&account()).unwrap();
    assert_eq!(name, "AccountSummary");
    assert_eq!(traits, vec!["derive(Debug, Clone)".to_string(), "non_exhaustive".to_string()]);
}

#[test]
fn partial_struct_copies_kept_fields() {
    let (derived, conversion) = partial_struct(&account()).unwrap();
    assert_eq!(derived.target_name, "AccountSummary");
    assert_eq!(
        derived.attributes,
        vec!["derive(Debug, Clone)".to_string(), "non_exhaustive".to_string()]
    );
    assert_eq!(names(&derived), vec!["id", "owner", "note"]);
    assert_eq!(verbatim(&derived, 0), Some("u64".to_string()));
    assert_eq!(verbatim(&derived, 1), Some("T".to_string()));
    assert!(matches!(&derived.fields[0].visibility, Visibility::Restricted(v) if v == "pub(crate)"));
    assert!(matches!(derived.fields[1].visibility, Visibility::Public));
    assert!(matches!(derived.fields[2].visibility, Visibility::Inherited));
    assert!(derived.fields[0].attributes.is_empty());
    assert_eq!(derived.fields[1].attributes, vec!["serde(rename = \"by\")".to_string()]);
    assert_eq!(
        derived.fields[2].attributes,
        vec!["serde(default)".to_string(), "doc(hidden)".to_string()]
    );
    assert_eq!(derived.generic_parameters.len(), 1);
    assert_eq!(conversion.source_name, "Account");
    assert_eq!(conversion.target_name, "AccountSummary");
    assert_eq!(conversion.fields, vec!["id", "owner", "note"]);
}

#[test]
fn partial_struct_needs_its_annotation() {
    let mut declaration = account();
    declaration.annotations.clear();
    assert!(matches!(partial_struct(&declaration), Err(MacroError::MissingDirective)));
    assert!(matches!(get_name_traits(&declaration), Err(MacroError::MissingDirective)));
    declaration.annotations.push(bare("partial_struct"));
    assert!(matches!(partial_struct(&declaration), Err(MacroError::MissingDirective)));
    declaration.annotations.push(annotation("partial_struct", vec![]));
    assert!(matches!(partial_struct(&declaration), Err(MacroError::MalformedAnnotation)));
    declaration.annotations.clear();
    declaration.annotations.push(annotation("partial_struct", vec![other("derive(Debug)")]));
    assert!(matches!(get_name_traits(&declaration), Err(MacroError::MalformedAnnotation)));
}

#[test]
fn partial_struct_reports_the_shape_before_the_name() {
    let declaration = TypeDeclaration {
        name: "T".to_string(),
        generics: vec![],
        where_clause: None,
        annotations: vec![],
        body: DeclarationBody::TupleStruct,
    };
    assert!(matches!(partial_struct(&declaration), Err(MacroError::UnsupportedShape)));
    assert!(matches!(get_name_traits(&declaration), Err(MacroError::MissingDirective)));
}

#[test]
fn partial_struct_from_a_model_takes_the_callers_name() {
    let model = DeclarationModel {
        name: "Source".to_string(),
        generic_parameters: vec![],
        where_clause: Some("where Self: Sized".to_string()),
        directives: vec![Directive::Rename("Ignored".to_string())],
        body: ModelBody::Struct(vec![
            FieldModel {
                name: "a".to_string(),
                declared_type: "u8".to_string(),
                visibility: Visibility::Inherited,
                directives: vec![Directive::MakePublic, Directive::Always],
            },
            FieldModel {
                name: "b".to_string(),
                declared_type: "u8".to_string(),
                visibility: Visibility::Public,
                directives: vec![Directive::AttachTrait("x".to_string()), Directive::Skip],
            },
        ]),
    };
    let traits = vec!["derive(Default)".to_string()];
    let (derived, conversion) = derive_partial_struct(&model, "Target", &traits).unwrap();
    assert_eq!(derived.target_name, "Target");
    assert_eq!(derived.attributes, traits);
    assert_eq!(derived.where_clause, Some("where Self: Sized".to_string()));
    assert_eq!(names(&derived), vec!["a"]);
    assert!(matches!(derived.fields[0].visibility, Visibility::Public));
    assert_eq!(conversion.fields, vec!["a"]);
    assert_eq!(conversion.source_name, "Source");
    assert_eq!(conversion.target_name, "Target");
}

#[test]
fn extract_keeps_declaration_order_and_reads_marks() {
    let model = extract(Rule::Values, &user("struct_values", "skip", vec![])).unwrap();
    assert_eq!(model.name, "User");
    assert!(model.directives.is_empty());
    match &model.body {
        ModelBody::Struct(fields) => {
            let order: Vec<&str> = fields.iter().map(|f| f.name.as_str()).collect();
            assert_eq!(order, vec!["id", "name", "status", "groups"]);
            assert!(matches!(fields[0].directives[..], [Directive::Skip]));
            assert!(fields[1].directives.is_empty());
            assert!(fields[3].directives.is_empty());
            assert_eq!(fields[2].declared_type, "u8");
        },
        ModelBody::Enum(_) => panic!("a struct was declared"),
    }
}

#[test]
fn partial_goes_by_the_mark_where_names_repeat() {
    let declaration = TypeDeclaration {
        name: "Twice".to_string(),
        generics: vec![],
        where_clause: None,
        annotations: vec![],
        body: DeclarationBody::NamedStruct(vec![
            field("id", "String", vec![annotation("reading_options", vec![path("always")])]),
            field("id", "Option<u8>", vec![]),
        ]),
    };
    let derived = partial_object_macro(&declaration).unwrap();
    assert_eq!(names(&derived), vec!["id", "id"]);
    assert_eq!(verbatim(&derived, 0), Some("String".to_string()));
    assert_eq!(optional(&derived, 1), Some("Option<u8>".to_string()));
}

#[test]
fn a_short_whitelist_marks_nothing_behind_its_end() {
    let model = extract(Rule::Partial, &user("reading_options", "always", vec![])).unwrap();
    let derived = derive_partial(&model, &WhitelistTable { always: vec![false, true] }).unwrap();
    assert_eq!(optional(&derived, 0), Some("String".to_string()));
    assert_eq!(verbatim(&derived, 1), Some("String".to_string()));
    assert_eq!(optional(&derived, 2), Some("u8".to_string()));
    assert_eq!(optional(&derived, 3), Some("Vec<String>".to_string()));
}

#[test]
fn extraction_leaves_constant_parameters_out() {
    let declaration = TypeDeclaration {
        name: "Buffer".to_string(),
        generics: vec![
            lifetime("'a"),
            const_param("N", "usize"),
            type_param("T", None, None),
            const_param("M", "u8"),
        ],
        where_clause: None,
        annotations: vec![],
        body: DeclarationBody::NamedStruct(vec![field("data", "&'a T", vec![])]),
    };
    let model = extract(Rule::Values, &declaration).unwrap();
    let carried: Vec<&str> = model.generic_parameters.iter().map(|p| p.name.as_str()).collect();
    assert_eq!(carried, vec!["'a", "T"]);
}
