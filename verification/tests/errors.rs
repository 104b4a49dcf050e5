use web_proc_macros::directive::{is_path, AnnotationArg, Directive, Vocabulary};
use web_proc_macros::error::MacroError;
use web_proc_macros::model::{
    carry_generics, duplicate_generics, duplicate_optional, duplicate_texts, GenericParam,
    ParamKind, Rule, VariantShape, Visibility,
};
use web_proc_macros::transform::carries;

#[test]
fn every_failure_names_its_category_and_the_expected_shape() {
    assert!(MacroError::MalformedAnnotation.message().starts_with("malformed annotation: expected"));
    assert!(MacroError::UnsupportedShape.message().starts_with("unsupported shape: expected"));
    assert!(MacroError::MissingDirective.message().starts_with("missing directive: expected"));
    assert!(MacroError::AmbiguousArgument.message().starts_with("ambiguous argument: expected"));
    assert_eq!(
        MacroError::UnsupportedShape.message(),
        "unsupported shape: expected a struct with named fields, or an enum where kinds are derived"
    );
}

#[test]
fn failures_compare_by_category() {
    assert_eq!(MacroError::MissingDirective, MacroError::MissingDirective);
    assert_ne!(MacroError::MissingDirective, MacroError::MalformedAnnotation);
}

#[test]
fn rules_read_their_own_annotation_names() {
    assert_eq!(Rule::Values.type_attribute_name(), "struct_values");
    assert_eq!(Rule::Values.member_attribute_name(), "struct_values");
    assert_eq!(Rule::OptValues.type_attribute_name(), "opt_struct_values");
    assert_eq!(Rule::OptValues.member_attribute_name(), "opt_struct_values");
    assert_eq!(Rule::Options.type_attribute_name(), "reading_options");
    assert_eq!(Rule::Options.member_attribute_name(), "reading_options");
    assert_eq!(Rule::Partial.type_attribute_name(), "partial_object");
    assert_eq!(Rule::Partial.member_attribute_name(), "reading_options");
    assert_eq!(Rule::PartialStruct.type_attribute_name(), "partial_struct");
    assert_eq!(Rule::PartialStruct.member_attribute_name(), "partial_struct");
    assert_eq!(Rule::Kind.member_attribute_name(), "error_kind");
    assert_eq!(Rule::LiteralKind.member_attribute_name(), "error_kind");
    assert_eq!(Rule::Kind.type_attribute_name(), "error_kind");
    assert_eq!(Rule::LiteralKind.type_attribute_name(), "error_kind");
}

#[test]
fn rules_know_their_vocabularies_and_shapes() {
    assert_eq!(Rule::Values.type_vocabulary_of(), Some(Vocabulary::TargetName));
    assert_eq!(Rule::Partial.type_vocabulary_of(), Some(Vocabulary::TargetName));
    assert_eq!(Rule::PartialStruct.type_vocabulary_of(), None);
    assert_eq!(Rule::Kind.type_vocabulary_of(), None);
    assert_eq!(Rule::Values.member_vocabulary_of(), Vocabulary::SkipField);
    assert_eq!(Rule::OptValues.member_vocabulary_of(), Vocabulary::SkipField);
    assert_eq!(Rule::Options.member_vocabulary_of(), Vocabulary::AlwaysField);
    assert_eq!(Rule::Partial.member_vocabulary_of(), Vocabulary::AlwaysField);
    assert_eq!(Rule::PartialStruct.member_vocabulary_of(), Vocabulary::CopiedField);
    assert_eq!(Rule::Kind.member_vocabulary_of(), Vocabulary::KindVariant);
    assert_eq!(Rule::LiteralKind.member_vocabulary_of(), Vocabulary::LiteralKindVariant);
    assert!(Rule::Kind.works_on_variants());
    assert!(Rule::LiteralKind.works_on_variants());
    assert!(!Rule::Values.works_on_variants());
    assert!(!Rule::PartialStruct.works_on_variants());
}

#[test]
fn annotation_arguments_give_their_text() {
    let path = AnnotationArg::Path("skip".to_string());
    let pair = AnnotationArg::NameValue {
        key: "rename".to_string(),
        value: "X".to_string(),
        text: "rename = \"X\"".to_string(),
    };
    let other = AnnotationArg::Other("derive(Debug)".to_string());
    assert_eq!(path.text(), "skip");
    assert_eq!(pair.text(), "rename = \"X\"");
    assert_eq!(other.text(), "derive(Debug)");
    assert!(path.is_word("skip"));
    assert!(!path.is_word("pub"));
    assert!(!other.is_word("derive(Debug)"));
    assert!(is_path(&path));
    assert!(!is_path(&pair));
    assert!(!is_path(&other));
}

#[test]
fn carries_compares_whole_directives() {
    let directives = vec![
        Directive::Rename("A".to_string()),
        Directive::KindMapping("K".to_string(), "V".to_string()),
        Directive::MakePublic,
    ];
    assert!(carries(&directives, &Directive::MakePublic));
    assert!(carries(&directives, &Directive::Rename("A".to_string())));
    assert!(!carries(&directives, &Directive::Rename("B".to_string())));
    assert!(carries(&directives, &Directive::KindMapping("K".to_string(), "V".to_string())));
    assert!(!carries(&directives, &Directive::KindMapping("K".to_string(), "W".to_string())));
    assert!(!carries(&directives, &Directive::Skip));
    assert!(!carries(&directives, &Directive::AttachTrait("A".to_string())));
    assert!(!carries(&vec![], &Directive::Skip));
}

#[test]
fn copies_hold_what_was_copied() {
    assert_eq!(
        duplicate_texts(&vec!["a".to_string(), "b".to_string()]),
        vec!["a".to_string(), "b".to_string()]
    );
    assert_eq!(duplicate_optional(&Some("w".to_string())), Some("w".to_string()));
    assert_eq!(duplicate_optional(&None), None);
    let written = vec![
        GenericParam {
            kind: ParamKind::Lifetime,
            name: "'a".to_string(),
            bounds: None,
            default: None,
        },
        GenericParam {
            kind: ParamKind::Const,
            name: "N".to_string(),
            bounds: Some("usize".to_string()),
            default: None,
        },
        GenericParam {
            kind: ParamKind::Type,
            name: "T".to_string(),
            bounds: Some("Clone".to_string()),
            default: Some("u8".to_string()),
        },
    ];
    let generics = duplicate_generics(&written);
    assert_eq!(generics.len(), 3);
    assert_eq!(generics[1].kind, ParamKind::Const);
    assert_eq!(generics[2].name, "T");
    assert_eq!(generics[2].bounds, Some("Clone".to_string()));
    assert_eq!(generics[2].default, Some("u8".to_string()));
    let carried = carry_generics(&written);
    assert_eq!(carried.len(), 2);
    assert_eq!(carried[0].name, "'a");
    assert_eq!(carried[1].name, "T");
    assert_eq!(carried[1].default, Some("u8".to_string()));
    assert!(matches!(
        Visibility::Restricted("pub(super)".to_string()).duplicate(),
        Visibility::Restricted(scope) if scope == "pub(super)"
    ));
    assert!(matches!(
        VariantShape::Named(vec!["x".to_string()]).duplicate(),
        VariantShape::Named(names) if names == vec!["x".to_string()]
    ));
    assert!(matches!(VariantShape::Unnamed(2).duplicate(), VariantShape::Unnamed(2)));
}
