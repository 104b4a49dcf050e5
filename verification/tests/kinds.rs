use web_proc_macros::directive::{Annotation, AnnotationArg, Directive};
use web_proc_macros::error::MacroError;
use web_proc_macros::kind::{
    derive_kind, derive_literal_kind, error_kind_macro, get_kind_ty, impl_kind_macro, ArmPattern,
    ClassifierTable, KindOutcome, KindValue,
};
use web_proc_macros::model::{
    extract, DeclarationBody, DeclarationModel, FieldDeclaration, ModelBody, Rule,
    TypeDeclaration, VariantDeclaration, VariantModel, VariantShape, Visibility,
};

fn path(text: &str) -> AnnotationArg {
    AnnotationArg::Path(text.to_string())
}

fn kind(args: &[&str]) -> Annotation {
    Annotation {
        name: "error_kind".to_string(),
        args: Some(args.iter().map(|a| path(a)).collect()),
    }
}

fn variant(name: &str, shape: VariantShape, annotations: Vec<Annotation>) -> VariantDeclaration {
    VariantDeclaration { name: name.to_string(), shape, annotations }
}

fn an_enum(name: &str, home: Option<&str>, variants: Vec<VariantDeclaration>) -> TypeDeclaration {
    TypeDeclaration {
        name: name.to_string(),
        generics: vec![],
        where_clause: None,
        annotations: home.iter().map(|h| kind(&[h])).collect(),
        body: DeclarationBody::Enum(variants),
    }
}

fn cache_error() -> TypeDeclaration {
    an_enum("CacheError", Some("ErrorType"), vec![
        variant("Poisoned", VariantShape::Unit, vec![kind(&["ErrorType", "A"])]),
        variant("Missing", VariantShape::Unit, vec![kind(&["ErrorType", "B"])]),
    ])
}

fn service_error() -> TypeDeclaration {
    an_enum("ServiceError", Some("ErrorType"), vec![
        variant("Cache", VariantShape::Unnamed(1), vec![kind(&["transparent"])]),
        variant("Db", VariantShape::Unit, vec![kind(&["ErrorType", "C"])]),
        variant(
            "Io",
            VariantShape::Named(vec!["code".to_string(), "path".to_string()]),
            vec![kind(&["ErrorType", "A"])],
        ),
        variant("Wrapped", VariantShape::Unnamed(2), vec![kind(&["ErrorType", "B"])]),
    ])
}

fn value(enumeration: &str, variant: &str) -> KindValue {
    KindValue { enumeration: enumeration.to_string(), variant: variant.to_string() }
}

fn same(kind: Option<KindValue>, enumeration: &str, variant: &str) -> bool {
    match kind {
        Some(k) => k.enumeration == enumeration && k.variant == variant,
        None => false,
    }
}

#[test]
fn kind_table_has_an_arm_for_every_variant() {
    let table = error_kind_macro(&service_error()).unwrap();
    assert_eq!(table.source_name, "ServiceError");
    assert_eq!(table.home, "ErrorType");
    let order: Vec<&str> = table.arms.iter().map(|a| a.variant.as_str()).collect();
    assert_eq!(order, vec!["Cache", "Db", "Io", "Wrapped"]);
    assert!(matches!(table.arms[0].outcome, KindOutcome::Delegate));
    assert!(matches!(&table.arms[1].outcome, KindOutcome::Literal(k) if k.variant == "C"));
    assert_eq!(table.arms[0].pattern, ArmPattern::Unnamed);
    assert_eq!(table.arms[1].pattern, ArmPattern::Unit);
    assert_eq!(table.arms[2].pattern, ArmPattern::Named);
    assert_eq!(table.arms[3].pattern, ArmPattern::Unnamed);
}

#[test]
fn kind_of_every_variant_is_answered() {
    let cache = error_kind_macro(&cache_error()).unwrap();
    let service = error_kind_macro(&service_error()).unwrap();
    let unused = value("", "");
    let missing = cache.kind_of("Missing", &unused).unwrap();
    assert!(same(Some(missing.clone()), "ErrorType", "B"));
    assert!(same(service.kind_of("Cache", &missing), "ErrorType", "B"));
    assert!(same(service.kind_of("Db", &unused), "ErrorType", "C"));
    assert!(same(service.kind_of("Io", &unused), "ErrorType", "A"));
    assert!(same(service.kind_of("Wrapped", &unused), "ErrorType", "B"));
    assert!(same(cache.kind_of("Poisoned", &unused), "ErrorType", "A"));
    assert!(service.kind_of("Unknown", &unused).is_none());
}

#[test]
fn mapping_decides_whatever_the_shape() {
    for shape in [
        VariantShape::Unit,
        VariantShape::Named(vec!["a".to_string()]),
        VariantShape::Unnamed(1),
        VariantShape::Unnamed(3),
    ] {
        let declaration = an_enum("E", Some("K"), vec![variant("V", shape, vec![kind(&["K", "X"])])]);
        let table = error_kind_macro(&declaration).unwrap();
        assert!(same(table.kind_of("V", &value("K", "Other")), "K", "X"));
        let table = impl_kind_macro(&declaration).unwrap();
        assert!(same(table.kind_of("V", &value("K", "Other")), "K", "X"));
    }
}

#[test]
fn mapping_has_priority_over_transparent() {
    let declaration = an_enum("E", Some("K"), vec![variant(
        "V",
        VariantShape::Unnamed(1),
        vec![kind(&["transparent"]), kind(&["K", "X"])],
    )]);
    let table = error_kind_macro(&declaration).unwrap();
    assert!(matches!(&table.arms[0].outcome, KindOutcome::Literal(k) if k.variant == "X"));
}

#[test]
fn unannotated_variant_fails_the_derivation() {
    let declaration = an_enum("E", Some("K"), vec![
        variant("A", VariantShape::Unit, vec![kind(&["K", "X"])]),
        variant("B", VariantShape::Unit, vec![]),
    ]);
    assert!(matches!(error_kind_macro(&declaration), Err(MacroError::MissingDirective)));
    assert!(matches!(impl_kind_macro(&declaration), Err(MacroError::MissingDirective)));
}

#[test]
fn enum_without_variants_has_nothing_to_resolve() {
    let declaration = an_enum("E", Some("K"), vec![]);
    assert!(matches!(error_kind_macro(&declaration), Err(MacroError::MissingDirective)));
    assert!(matches!(impl_kind_macro(&declaration), Err(MacroError::MissingDirective)));
}

#[test]
fn transparent_needs_one_unnamed_field() {
    for shape in [
        VariantShape::Unit,
        VariantShape::Named(vec!["inner".to_string()]),
        VariantShape::Unnamed(0),
        VariantShape::Unnamed(2),
    ] {
        let declaration =
            an_enum("E", Some("K"), vec![variant("V", shape, vec![kind(&["transparent"])])]);
        assert!(matches!(error_kind_macro(&declaration), Err(MacroError::MalformedAnnotation)));
    }
}

#[test]
fn kind_annotation_with_wrong_arity_is_malformed() {
    for args in [vec![], vec!["opaque"], vec!["K", "A", "B"]] {
        let declaration =
            an_enum("E", Some("K"), vec![variant("V", VariantShape::Unit, vec![kind(&args)])]);
        assert!(matches!(error_kind_macro(&declaration), Err(MacroError::MalformedAnnotation)));
        assert!(matches!(impl_kind_macro(&declaration), Err(MacroError::MalformedAnnotation)));
    }
    let no_list = an_enum("E", Some("K"), vec![variant("V", VariantShape::Unit, vec![
        Annotation { name: "error_kind".to_string(), args: None },
    ])]);
    assert!(matches!(error_kind_macro(&no_list), Err(MacroError::MalformedAnnotation)));
}

#[test]
fn literal_rule_does_not_know_transparent() {
    let declaration = an_enum("E", None, vec![variant(
        "V",
        VariantShape::Unnamed(1),
        vec![kind(&["transparent"])],
    )]);
    assert!(matches!(impl_kind_macro(&declaration), Err(MacroError::MalformedAnnotation)));
    let model = DeclarationModel {
        name: "E".to_string(),
        generic_parameters: vec![],
        where_clause: None,
        directives: vec![],
        body: ModelBody::Enum(vec![VariantModel {
            name: "V".to_string(),
            shape: VariantShape::Unnamed(1),
            directives: vec![Directive::Transparent],
        }]),
    };
    assert!(matches!(derive_literal_kind(&model), Err(MacroError::MalformedAnnotation)));
    assert!(derive_kind(&model, "K").is_ok());
}

#[test]
fn non_enum_is_an_unsupported_shape_for_kinds() {
    let declaration = TypeDeclaration {
        name: "S".to_string(),
        generics: vec![],
        where_clause: None,
        annotations: vec![kind(&["K"])],
        body: DeclarationBody::NamedStruct(vec![FieldDeclaration {
            name: "a".to_string(),
            declared_type: "u8".to_string(),
            visibility: Visibility::Public,
            annotations: vec![],
        }]),
    };
    assert!(matches!(error_kind_macro(&declaration), Err(MacroError::UnsupportedShape)));
    assert!(matches!(impl_kind_macro(&declaration), Err(MacroError::UnsupportedShape)));
    let mut bare = TypeDeclaration {
        name: "S".to_string(),
        generics: vec![],
        where_clause: None,
        annotations: vec![],
        body: DeclarationBody::UnitStruct,
    };
    assert!(matches!(error_kind_macro(&bare), Err(MacroError::UnsupportedShape)));
    assert!(matches!(impl_kind_macro(&bare), Err(MacroError::UnsupportedShape)));
    bare.body = DeclarationBody::Union;
    assert!(matches!(error_kind_macro(&bare), Err(MacroError::UnsupportedShape)));
    let model = extract(Rule::Values, &declaration).unwrap();
    assert!(matches!(derive_kind(&model, "K"), Err(MacroError::UnsupportedShape)));
    assert!(matches!(derive_literal_kind(&model), Err(MacroError::UnsupportedShape)));
}

#[test]
fn home_enumeration_comes_from_the_type() {
    assert_eq!(get_kind_ty(&cache_error()), Ok("ErrorType".to_string()));
    let missing = an_enum("E", None, vec![]);
    assert_eq!(get_kind_ty(&missing), Err(MacroError::MissingDirective));
    let mut malformed = an_enum("E", None, vec![]);
    malformed.annotations.push(Annotation {
        name: "error_kind".to_string(),
        args: Some(vec![AnnotationArg::Other("\"ErrorType\"".to_string())]),
    });
    assert_eq!(get_kind_ty(&malformed), Err(MacroError::MalformedAnnotation));
    let mut empty = an_enum("E", None, vec![]);
    empty.annotations.push(kind(&[]));
    assert_eq!(get_kind_ty(&empty), Err(MacroError::MalformedAnnotation));
    let without = an_enum("E", None, vec![variant(
        "V",
        VariantShape::Unit,
        vec![kind(&["K", "X"])],
    )]);
    assert!(matches!(error_kind_macro(&without), Err(MacroError::MissingDirective)));
}

#[test]
fn literal_rule_takes_the_home_from_the_first_variant() {
    let declaration = an_enum("E", None, vec![
        variant("A", VariantShape::Unit, vec![kind(&["Level", "Low"])]),
        variant("B", VariantShape::Unnamed(1), vec![kind(&["Level", "High"])]),
    ]);
    let table: ClassifierTable = impl_kind_macro(&declaration).unwrap();
    assert_eq!(table.home, "Level");
    assert!(same(table.kind_of("B", &value("", "")), "Level", "High"));
}

#[test]
fn mixed_enumerations_are_rejected() {
    let declaration = an_enum("E", Some("Level"), vec![
        variant("A", VariantShape::Unit, vec![kind(&["Level", "Low"])]),
        variant("B", VariantShape::Unit, vec![kind(&["Other", "High"])]),
    ]);
    assert!(matches!(impl_kind_macro(&declaration), Err(MacroError::MalformedAnnotation)));
    assert!(matches!(error_kind_macro(&declaration), Err(MacroError::MalformedAnnotation)));
    let foreign_home = an_enum("E", Some("Severity"), vec![variant(
        "A",
        VariantShape::Unit,
        vec![kind(&["Level", "Low"])],
    )]);
    assert!(matches!(error_kind_macro(&foreign_home), Err(MacroError::MalformedAnnotation)));
}

#[test]
fn first_failing_variant_decides_the_failure() {
    let declaration = an_enum("E", Some("K"), vec![
        variant("A", VariantShape::Unit, vec![kind(&["K", "X"])]),
        variant("B", VariantShape::Unit, vec![]),
        variant("C", VariantShape::Unit, vec![kind(&["Other", "Y"])]),
    ]);
    let model = extract(Rule::Kind, &declaration).unwrap();
    assert!(matches!(derive_kind(&model, "K"), Err(MacroError::MissingDirective)));
    let declaration = an_enum("E", Some("K"), vec![
        variant("A", VariantShape::Unit, vec![kind(&["Other", "X"])]),
        variant("B", VariantShape::Unit, vec![]),
    ]);
    let model = extract(Rule::Kind, &declaration).unwrap();
    assert!(matches!(derive_kind(&model, "K"), Err(MacroError::MalformedAnnotation)));
}
