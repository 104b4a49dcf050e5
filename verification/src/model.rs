//! Type declarations as they are written, and the normalized model that the
//! derivation rules work on.

use crate::directive::{
    directive_outcome, directives_of, parse_directive, Annotation, AnnotationArg,
    AnnotationArgView, AnnotationView, Directive, DirectiveView, Vocabulary,
};
use crate::error::MacroError;
use crate::text::text_is;
use vstd::prelude::*;

verus! {

/// Who may see a field.
#[derive(Clone, Debug)]
pub enum Visibility {
    /// `pub`.
    Public,
    /// A restricted form such as `pub(crate)`, as it was written.
    Restricted(String),
    /// No visibility was written.
    Inherited,
}

/// The model of a [`Visibility`].
pub enum VisibilityView {
    Public,
    Restricted(Seq<char>),
    Inherited,
}

impl DeepView for Visibility {
    type V = VisibilityView;

    open spec fn deep_view(&self) -> VisibilityView {
        match self {
            Visibility::Public => VisibilityView::Public,
            Visibility::Restricted(scope) => VisibilityView::Restricted(scope@),
            Visibility::Inherited => VisibilityView::Inherited,
        }
    }
}

impl Visibility {
    /// A copy of the visibility.
    pub fn duplicate(&self) -> (copy: Visibility)
        ensures
            copy.deep_view() == self.deep_view(),
    {
        match self {
            Visibility::Public => Visibility::Public,
            Visibility::Restricted(scope) => Visibility::Restricted(scope.clone()),
            Visibility::Inherited => Visibility::Inherited,
        }
    }
}

/// What a generic parameter stands for.
#[derive(Clone, Copy, Debug, PartialEq, Eq, Structural)]
pub enum ParamKind {
    /// A lifetime, such as `'a`.
    Lifetime,
    /// A type, such as `T`.
    Type,
    /// A constant, such as `const N: usize`.
    Const,
}

/// One generic parameter: its name, and what was written behind the name.
#[derive(Clone, Debug)]
pub struct GenericParam {
    pub kind: ParamKind,
    /// The name by which the parameter is used: `'a`, `T`.
    pub name: String,
    /// What stands behind the colon, where there is one.
    pub bounds: Option<String>,
    /// What stands behind the equals sign, where there is one.
    pub default: Option<String>,
}

/// The model of a [`GenericParam`].
pub struct GenericParamView {
    pub kind: ParamKind,
    pub name: Seq<char>,
    pub bounds: Option<Seq<char>>,
    pub default: Option<Seq<char>>,
}

impl DeepView for GenericParam {
    type V = GenericParamView;

    open spec fn deep_view(&self) -> GenericParamView {
        GenericParamView {
            kind: self.kind,
            name: self.name@,
            bounds: self.bounds.deep_view(),
            default: self.default.deep_view(),
        }
    }
}

impl GenericParam {
    /// A copy of the parameter.
    pub fn duplicate(&self) -> (copy: GenericParam)
        ensures
            copy.deep_view() == self.deep_view(),
    {
        GenericParam {
            kind: self.kind,
            name: self.name.clone(),
            bounds: duplicate_optional(&self.bounds),
            default: duplicate_optional(&self.default),
        }
    }
}

/// The shape of an enum variant.
#[derive(Clone, Debug)]
pub enum VariantShape {
    /// No fields.
    Unit,
    /// Named fields, by their names.
    Named(Vec<String>),
    /// Unnamed fields, by their number.
    Unnamed(usize),
}

/// The model of a [`VariantShape`].
pub enum VariantShapeView {
    Unit,
    Named(Seq<Seq<char>>),
    Unnamed(nat),
}

impl DeepView for VariantShape {
    type V = VariantShapeView;

    open spec fn deep_view(&self) -> VariantShapeView {
        match self {
            VariantShape::Unit => VariantShapeView::Unit,
            VariantShape::Named(names) => VariantShapeView::Named(names.deep_view()),
            VariantShape::Unnamed(arity) => VariantShapeView::Unnamed(*arity as nat),
        }
    }
}

/// A copy of a list of texts.
pub fn duplicate_texts(texts: &Vec<String>) -> (copy: Vec<String>)
    ensures
        copy.deep_view() == texts.deep_view(),
{
    let mut copy: Vec<String> = Vec::new();
    let mut i: usize = 0;
    while i < texts.len()
        invariant
            i <= texts.len(),
            copy.len() == i,
            forall|k: int| 0 <= k < i ==> (#[trigger] copy[k])@ == texts[k]@,
        decreases texts.len() - i,
    {
        copy.push(texts[i].clone());
        i += 1;
    }
    proof {
        assert(copy.deep_view() =~= texts.deep_view());
    }
    copy
}

/// A copy of an optional text.
pub fn duplicate_optional(text: &Option<String>) -> (copy: Option<String>)
    ensures
        copy.deep_view() == text.deep_view(),
{
    match text {
        Some(text) => Some(text.clone()),
        None => None,
    }
}

/// A copy of a list of generic parameters.
pub fn duplicate_generics(generics: &Vec<GenericParam>) -> (copy: Vec<GenericParam>)
    ensures
        copy.deep_view() == generics.deep_view(),
{
    let mut copy: Vec<GenericParam> = Vec::new();
    let mut i: usize = 0;
    while i < generics.len()
        invariant
            i <= generics.len(),
            copy.len() == i,
            forall|k: int|
                0 <= k < i ==> (#[trigger] copy[k]).deep_view() == generics[k].deep_view(),
        decreases generics.len() - i,
    {
        copy.push(generics[i].duplicate());
        i += 1;
    }
    proof {
        assert(copy.deep_view() =~= generics.deep_view());
    }
    copy
}

impl VariantShape {
    /// A copy of the shape.
    pub fn duplicate(&self) -> (copy: VariantShape)
        ensures
            copy.deep_view() == self.deep_view(),
    {
        match self {
            VariantShape::Unit => VariantShape::Unit,
            VariantShape::Named(names) => VariantShape::Named(duplicate_texts(names)),
            VariantShape::Unnamed(arity) => VariantShape::Unnamed(*arity),
        }
    }
}

/// A field as it was declared.
#[derive(Clone, Debug)]
pub struct FieldDeclaration {
    pub name: String,
    pub declared_type: String,
    pub visibility: Visibility,
    pub annotations: Vec<Annotation>,
}

/// The model of a [`FieldDeclaration`].
pub struct FieldDeclarationView {
    pub name: Seq<char>,
    pub declared_type: Seq<char>,
    pub visibility: VisibilityView,
    pub annotations: Seq<AnnotationView>,
}

impl DeepView for FieldDeclaration {
    type V = FieldDeclarationView;

    open spec fn deep_view(&self) -> FieldDeclarationView {
        FieldDeclarationView {
            name: self.name@,
            declared_type: self.declared_type@,
            visibility: self.visibility.deep_view(),
            annotations: self.annotations.deep_view(),
        }
    }
}

/// An enum variant as it was declared.
#[derive(Clone, Debug)]
pub struct VariantDeclaration {
    pub name: String,
    pub shape: VariantShape,
    pub annotations: Vec<Annotation>,
}

/// The model of a [`VariantDeclaration`].
pub struct VariantDeclarationView {
    pub name: Seq<char>,
    pub shape: VariantShapeView,
    pub annotations: Seq<AnnotationView>,
}

impl DeepView for VariantDeclaration {
    type V = VariantDeclarationView;

    open spec fn deep_view(&self) -> VariantDeclarationView {
        VariantDeclarationView {
            name: self.name@,
            shape: self.shape.deep_view(),
            annotations: self.annotations.deep_view(),
        }
    }
}

/// What a type declaration declares.
#[derive(Clone, Debug)]
pub enum DeclarationBody {
    /// A struct with named fields.
    NamedStruct(Vec<FieldDeclaration>),
    /// A tuple struct.
    TupleStruct,
    /// A unit struct.
    UnitStruct,
    /// An enum.
    Enum(Vec<VariantDeclaration>),
    /// A union.
    Union,
}

/// The model of a [`DeclarationBody`].
pub enum DeclarationBodyView {
    NamedStruct(Seq<FieldDeclarationView>),
    TupleStruct,
    UnitStruct,
    Enum(Seq<VariantDeclarationView>),
    Union,
}

impl DeepView for DeclarationBody {
    type V = DeclarationBodyView;

    open spec fn deep_view(&self) -> DeclarationBodyView {
        match self {
            DeclarationBody::NamedStruct(fields) => DeclarationBodyView::NamedStruct(
                fields.deep_view(),
            ),
            DeclarationBody::TupleStruct => DeclarationBodyView::TupleStruct,
            DeclarationBody::UnitStruct => DeclarationBodyView::UnitStruct,
            DeclarationBody::Enum(variants) => DeclarationBodyView::Enum(variants.deep_view()),
            DeclarationBody::Union => DeclarationBodyView::Union,
        }
    }
}

/// A type declaration as it was written, annotations unread.
#[derive(Clone, Debug)]
pub struct TypeDeclaration {
    pub name: String,
    pub generics: Vec<GenericParam>,
    pub where_clause: Option<String>,
    pub annotations: Vec<Annotation>,
    pub body: DeclarationBody,
}

/// The model of a [`TypeDeclaration`].
pub struct TypeDeclarationView {
    pub name: Seq<char>,
    pub generics: Seq<GenericParamView>,
    pub where_clause: Option<Seq<char>>,
    pub annotations: Seq<AnnotationView>,
    pub body: DeclarationBodyView,
}

impl DeepView for TypeDeclaration {
    type V = TypeDeclarationView;

    open spec fn deep_view(&self) -> TypeDeclarationView {
        TypeDeclarationView {
            name: self.name@,
            generics: self.generics.deep_view(),
            where_clause: self.where_clause.deep_view(),
            annotations: self.annotations.deep_view(),
            body: self.body.deep_view(),
        }
    }
}

/// A field with its annotations read.
#[derive(Clone, Debug)]
pub struct FieldModel {
    pub name: String,
    pub declared_type: String,
    pub visibility: Visibility,
    pub directives: Vec<Directive>,
}

/// The model of a [`FieldModel`].
pub struct FieldModelView {
    pub name: Seq<char>,
    pub declared_type: Seq<char>,
    pub visibility: VisibilityView,
    pub directives: Seq<DirectiveView>,
}

impl DeepView for FieldModel {
    type V = FieldModelView;

    open spec fn deep_view(&self) -> FieldModelView {
        FieldModelView {
            name: self.name@,
            declared_type: self.declared_type@,
            visibility: self.visibility.deep_view(),
            directives: self.directives.deep_view(),
        }
    }
}

/// A variant with its annotations read.
#[derive(Clone, Debug)]
pub struct VariantModel {
    pub name: String,
    pub shape: VariantShape,
    pub directives: Vec<Directive>,
}

/// The model of a [`VariantModel`].
pub struct VariantModelView {
    pub name: Seq<char>,
    pub shape: VariantShapeView,
    pub directives: Seq<DirectiveView>,
}

impl DeepView for VariantModel {
    type V = VariantModelView;

    open spec fn deep_view(&self) -> VariantModelView {
        VariantModelView {
            name: self.name@,
            shape: self.shape.deep_view(),
            directives: self.directives.deep_view(),
        }
    }
}

/// The members of a declaration model.
#[derive(Clone, Debug)]
pub enum ModelBody {
    Struct(Vec<FieldModel>),
    Enum(Vec<VariantModel>),
}

/// The model of a [`ModelBody`].
pub enum ModelBodyView {
    Struct(Seq<FieldModelView>),
    Enum(Seq<VariantModelView>),
}

impl DeepView for ModelBody {
    type V = ModelBodyView;

    open spec fn deep_view(&self) -> ModelBodyView {
        match self {
            ModelBody::Struct(fields) => ModelBodyView::Struct(fields.deep_view()),
            ModelBody::Enum(variants) => ModelBodyView::Enum(variants.deep_view()),
        }
    }
}

/// A declaration with every annotation of the rule at hand read into
/// directives. Members stand in declaration order.
#[derive(Clone, Debug)]
pub struct DeclarationModel {
    pub name: String,
    pub generic_parameters: Vec<GenericParam>,
    pub where_clause: Option<String>,
    pub directives: Vec<Directive>,
    pub body: ModelBody,
}

/// The model of a [`DeclarationModel`].
pub struct DeclarationModelView {
    pub name: Seq<char>,
    pub generic_parameters: Seq<GenericParamView>,
    pub where_clause: Option<Seq<char>>,
    pub directives: Seq<DirectiveView>,
    pub body: ModelBodyView,
}

impl DeepView for DeclarationModel {
    type V = DeclarationModelView;

    open spec fn deep_view(&self) -> DeclarationModelView {
        DeclarationModelView {
            name: self.name@,
            generic_parameters: self.generic_parameters.deep_view(),
            where_clause: self.where_clause.deep_view(),
            directives: self.directives.deep_view(),
            body: self.body.deep_view(),
        }
    }
}

/// The derivation that a declaration is read for.
#[derive(Clone, Copy, Debug, PartialEq, Eq, Structural)]
pub enum Rule {
    /// The fields as they are, minus the skipped ones.
    Values,
    /// The same fields, every one optional.
    OptValues,
    /// Every field, optional unless it is always read.
    Partial,
    /// A caller-named part of the struct, with a conversion into it.
    PartialStruct,
    /// A flag for each field that is not always read.
    Options,
    /// A kind for each variant, literal or taken from the wrapped value.
    Kind,
    /// A literal kind for each variant.
    LiteralKind,
}

impl Rule {
    /// The annotation name that the rule reads on the type itself.
    pub open spec fn type_attribute(self) -> Seq<char> {
        match self {
            Rule::Values => "struct_values"@,
            Rule::OptValues => "opt_struct_values"@,
            Rule::Partial => "partial_object"@,
            Rule::PartialStruct => "partial_struct"@,
            Rule::Options => "reading_options"@,
            Rule::Kind => "error_kind"@,
            Rule::LiteralKind => "error_kind"@,
        }
    }

    /// The annotation name that the rule reads on fields or variants.
    pub open spec fn member_attribute(self) -> Seq<char> {
        match self {
            Rule::Values => "struct_values"@,
            Rule::OptValues => "opt_struct_values"@,
            Rule::Partial => "reading_options"@,
            Rule::PartialStruct => "partial_struct"@,
            Rule::Options => "reading_options"@,
            Rule::Kind => "error_kind"@,
            Rule::LiteralKind => "error_kind"@,
        }
    }

    /// The vocabulary of the rule's annotations on the type itself, where
    /// they are read into directives. The caller-named rule and the kind
    /// rules take what the type-level annotation says as arguments of their
    /// own instead.
    pub open spec fn type_vocabulary(self) -> Option<Vocabulary> {
        match self {
            Rule::Values => Some(Vocabulary::TargetName),
            Rule::OptValues => Some(Vocabulary::TargetName),
            Rule::Partial => Some(Vocabulary::TargetName),
            Rule::PartialStruct => None,
            Rule::Options => Some(Vocabulary::TargetName),
            Rule::Kind => None,
            Rule::LiteralKind => None,
        }
    }

    /// The vocabulary of the rule's annotations on fields or variants.
    pub open spec fn member_vocabulary(self) -> Vocabulary {
        match self {
            Rule::Values => Vocabulary::SkipField,
            Rule::OptValues => Vocabulary::SkipField,
            Rule::Partial => Vocabulary::AlwaysField,
            Rule::PartialStruct => Vocabulary::CopiedField,
            Rule::Options => Vocabulary::AlwaysField,
            Rule::Kind => Vocabulary::KindVariant,
            Rule::LiteralKind => Vocabulary::LiteralKindVariant,
        }
    }

    /// Whether the rule works on enums rather than on structs.
    pub open spec fn on_variants(self) -> bool {
        self == Rule::Kind || self == Rule::LiteralKind
    }

    /// The annotation name that the rule reads on the type itself.
    pub fn type_attribute_name(self) -> (name: &'static str)
        ensures
            name@ == self.type_attribute(),
    {
        match self {
            Rule::Values => "struct_values",
            Rule::OptValues => "opt_struct_values",
            Rule::Partial => "partial_object",
            Rule::PartialStruct => "partial_struct",
            Rule::Options => "reading_options",
            Rule::Kind => "error_kind",
            Rule::LiteralKind => "error_kind",
        }
    }

    /// The annotation name that the rule reads on fields or variants.
    pub fn member_attribute_name(self) -> (name: &'static str)
        ensures
            name@ == self.member_attribute(),
    {
        match self {
            Rule::Values => "struct_values",
            Rule::OptValues => "opt_struct_values",
            Rule::Partial => "reading_options",
            Rule::PartialStruct => "partial_struct",
            Rule::Options => "reading_options",
            Rule::Kind => "error_kind",
            Rule::LiteralKind => "error_kind",
        }
    }

    /// The vocabulary of the rule's annotations on the type itself.
    pub fn type_vocabulary_of(self) -> (vocabulary: Option<Vocabulary>)
        ensures
            vocabulary == self.type_vocabulary(),
    {
        match self {
            Rule::Values => Some(Vocabulary::TargetName),
            Rule::OptValues => Some(Vocabulary::TargetName),
            Rule::Partial => Some(Vocabulary::TargetName),
            Rule::PartialStruct => None,
            Rule::Options => Some(Vocabulary::TargetName),
            Rule::Kind => None,
            Rule::LiteralKind => None,
        }
    }

    /// The vocabulary of the rule's annotations on fields or variants.
    pub fn member_vocabulary_of(self) -> (vocabulary: Vocabulary)
        ensures
            vocabulary == self.member_vocabulary(),
    {
        match self {
            Rule::Values => Vocabulary::SkipField,
            Rule::OptValues => Vocabulary::SkipField,
            Rule::Partial => Vocabulary::AlwaysField,
            Rule::PartialStruct => Vocabulary::CopiedField,
            Rule::Options => Vocabulary::AlwaysField,
            Rule::Kind => Vocabulary::KindVariant,
            Rule::LiteralKind => Vocabulary::LiteralKindVariant,
        }
    }

    /// Whether the rule works on enums rather than on structs.
    pub fn works_on_variants(self) -> (yes: bool)
        ensures
            yes == self.on_variants(),
    {
        match self {
            Rule::Kind => true,
            Rule::LiteralKind => true,
            _ => false,
        }
    }
}

/// The parameters among the first `n` that a derived declaration carries:
/// the lifetimes and the types, in declaration order. A constant parameter
/// is not part of the model.
pub open spec fn carried_generics_upto(generics: Seq<GenericParamView>, n: int) -> Seq<
    GenericParamView,
>
    decreases n,
{
    if n <= 0 {
        Seq::empty()
    } else if generics[n - 1].kind == ParamKind::Const {
        carried_generics_upto(generics, n - 1)
    } else {
        carried_generics_upto(generics, n - 1).push(generics[n - 1])
    }
}

/// The parameters that a derived declaration carries: the lifetimes and
/// the types, in declaration order and as they were written.
pub open spec fn carried_generics(generics: Seq<GenericParamView>) -> Seq<GenericParamView> {
    carried_generics_upto(generics, generics.len() as int)
}

/// The parameters that a derived declaration carries.
pub fn carry_generics(generics: &Vec<GenericParam>) -> (carried: Vec<GenericParam>)
    ensures
        carried.deep_view() == carried_generics(generics.deep_view()),
{
    let ghost all = generics.deep_view();
    let mut carried: Vec<GenericParam> = Vec::new();
    proof {
        assert(carried.deep_view() =~= Seq::<GenericParamView>::empty());
    }
    let mut i: usize = 0;
    while i < generics.len()
        invariant
            i <= generics.len(),
            all == generics.deep_view(),
            carried.deep_view() == carried_generics_upto(all, i as int),
        decreases generics.len() - i,
    {
        let is_const = match generics[i].kind {
            ParamKind::Const => true,
            _ => false,
        };
        if !is_const {
            let ghost front = carried.deep_view();
            let copy = generics[i].duplicate();
            carried.push(copy);
            proof {
                assert(carried.deep_view() =~= front.push(all[i as int]));
            }
        }
        i += 1;
    }
    carried
}

/// The argument list of the first annotation among `annotations[start..]`
/// that goes by `name` and has an argument list.
pub open spec fn first_attribute_from(
    annotations: Seq<AnnotationView>,
    name: Seq<char>,
    start: int,
) -> Option<Seq<AnnotationArgView>>
    decreases annotations.len() - start,
{
    if start < 0 || start >= annotations.len() {
        None
    } else if annotations[start].name == name && annotations[start].args is Some {
        annotations[start].args
    } else {
        first_attribute_from(annotations, name, start + 1)
    }
}

/// The argument list of the first annotation that goes by `name` and has an
/// argument list.
pub open spec fn first_attribute(annotations: Seq<AnnotationView>, name: Seq<char>) -> Option<
    Seq<AnnotationArgView>,
> {
    first_attribute_from(annotations, name, 0)
}

/// Looks on the type itself for the first annotation that goes by `name`
/// and has an argument list, and gives that list.
pub fn find_attribute<'a>(definition: &'a TypeDeclaration, name: &str) -> (found: Option<
    &'a Vec<AnnotationArg>,
>)
    ensures
        found.deep_view() == first_attribute(definition.deep_view().annotations, name@),
{
    let ghost all = definition.annotations.deep_view();
    let mut i: usize = 0;
    while i < definition.annotations.len()
        invariant
            i <= definition.annotations.len(),
            all == definition.annotations.deep_view(),
            first_attribute(all, name@) == first_attribute_from(all, name@, i as int),
        decreases definition.annotations.len() - i,
    {
        let annotation = &definition.annotations[i];
        if text_is(&annotation.name, name) {
            match &annotation.args {
                Some(args) => {
                    return Some(args);
                },
                None => {},
            }
        }
        i += 1;
    }
    None
}

/// The directives that the annotations named `attribute` among the first
/// `n` stand for, in order; the first malformed one fails the whole.
pub open spec fn collected_upto(
    annotations: Seq<AnnotationView>,
    attribute: Seq<char>,
    vocabulary: Vocabulary,
    n: int,
) -> Result<Seq<DirectiveView>, MacroError>
    decreases n,
{
    if n <= 0 {
        Ok(Seq::empty())
    } else {
        match collected_upto(annotations, attribute, vocabulary, n - 1) {
            Err(error) => Err(error),
            Ok(front) => if annotations[n - 1].name == attribute {
                match directives_of(vocabulary, annotations[n - 1]) {
                    Ok(found) => Ok(front + found),
                    Err(error) => Err(error),
                }
            } else {
                Ok(front)
            },
        }
    }
}

/// The directives that the annotations named `attribute` stand for.
/// Annotations under another name are not this rule's and are passed over.
pub open spec fn collected(
    annotations: Seq<AnnotationView>,
    attribute: Seq<char>,
    vocabulary: Vocabulary,
) -> Result<Seq<DirectiveView>, MacroError> {
    collected_upto(annotations, attribute, vocabulary, annotations.len() as int)
}

/// A failure among the first annotations is the failure of the whole.
proof fn lemma_collected_failure_stays(
    annotations: Seq<AnnotationView>,
    attribute: Seq<char>,
    vocabulary: Vocabulary,
    n: int,
    m: int,
)
    requires
        0 <= n <= m,
        collected_upto(annotations, attribute, vocabulary, n) is Err,
    ensures
        collected_upto(annotations, attribute, vocabulary, m) == collected_upto(
            annotations,
            attribute,
            vocabulary,
            n,
        ),
    decreases m - n,
{
    if n < m {
        lemma_collected_failure_stays(annotations, attribute, vocabulary, n, m - 1);
    }
}

/// Reads every annotation named `attribute` under the vocabulary.
pub fn collect_directives(
    annotations: &Vec<Annotation>,
    attribute: &str,
    vocabulary: Vocabulary,
) -> (outcome: Result<Vec<Directive>, MacroError>)
    ensures
        directive_outcome(outcome) == collected(
            annotations.deep_view(),
            attribute@,
            vocabulary,
        ),
{
    let ghost all = annotations.deep_view();
    let mut list: Vec<Directive> = Vec::new();
    proof {
        assert(list.deep_view() =~= Seq::<DirectiveView>::empty());
    }
    let mut i: usize = 0;
    while i < annotations.len()
        invariant
            i <= annotations.len(),
            all == annotations.deep_view(),
            collected_upto(all, attribute@, vocabulary, i as int) == Ok::<
                Seq<DirectiveView>,
                MacroError,
            >(list.deep_view()),
        decreases annotations.len() - i,
    {
        if text_is(&annotations[i].name, attribute) {
            match parse_directive(vocabulary, &annotations[i]) {
                Ok(mut found) => {
                    let ghost front = list.deep_view();
                    let ghost back = found.deep_view();
                    list.append(&mut found);
                    proof {
                        assert(list.deep_view() =~= front + back);
                    }
                },
                Err(error) => {
                    proof {
                        lemma_collected_failure_stays(
                            all,
                            attribute@,
                            vocabulary,
                            i + 1,
                            all.len() as int,
                        );
                    }
                    return Err(error);
                },
            }
        }
        i += 1;
    }
    Ok(list)
}

/// A field with the rule's annotations read.
pub open spec fn extracted_field(rule: Rule, field: FieldDeclarationView) -> Result<
    FieldModelView,
    MacroError,
> {
    match collected(field.annotations, rule.member_attribute(), rule.member_vocabulary()) {
        Ok(directives) => Ok(
            FieldModelView {
                name: field.name,
                declared_type: field.declared_type,
                visibility: field.visibility,
                directives,
            },
        ),
        Err(error) => Err(error),
    }
}

/// The first `n` fields with the rule's annotations read.
pub open spec fn extracted_fields_upto(
    rule: Rule,
    fields: Seq<FieldDeclarationView>,
    n: int,
) -> Result<Seq<FieldModelView>, MacroError>
    decreases n,
{
    if n <= 0 {
        Ok(Seq::empty())
    } else {
        match extracted_fields_upto(rule, fields, n - 1) {
            Err(error) => Err(error),
            Ok(front) => match extracted_field(rule, fields[n - 1]) {
                Ok(field) => Ok(front.push(field)),
                Err(error) => Err(error),
            },
        }
    }
}

/// A variant with the rule's annotations read.
pub open spec fn extracted_variant(rule: Rule, variant: VariantDeclarationView) -> Result<
    VariantModelView,
    MacroError,
> {
    match collected(variant.annotations, rule.member_attribute(), rule.member_vocabulary()) {
        Ok(directives) => Ok(
            VariantModelView { name: variant.name, shape: variant.shape, directives },
        ),
        Err(error) => Err(error),
    }
}

/// The first `n` variants with the rule's annotations read.
pub open spec fn extracted_variants_upto(
    rule: Rule,
    variants: Seq<VariantDeclarationView>,
    n: int,
) -> Result<Seq<VariantModelView>, MacroError>
    decreases n,
{
    if n <= 0 {
        Ok(Seq::empty())
    } else {
        match extracted_variants_upto(rule, variants, n - 1) {
            Err(error) => Err(error),
            Ok(front) => match extracted_variant(rule, variants[n - 1]) {
                Ok(variant) => Ok(front.push(variant)),
                Err(error) => Err(error),
            },
        }
    }
}

/// The directives on the type itself, where the rule reads any.
pub open spec fn extracted_type_directives(rule: Rule, declaration: TypeDeclarationView) -> Result<
    Seq<DirectiveView>,
    MacroError,
> {
    match rule.type_vocabulary() {
        Some(vocabulary) => collected(declaration.annotations, rule.type_attribute(), vocabulary),
        None => Ok(Seq::empty()),
    }
}

/// The members of the declaration under the rule. A rule on fields takes a
/// struct with named fields and nothing else; a rule on variants takes an
/// enum and nothing else.
pub open spec fn extracted_body(rule: Rule, body: DeclarationBodyView) -> Result<
    ModelBodyView,
    MacroError,
> {
    match body {
        DeclarationBodyView::NamedStruct(fields) => if rule.on_variants() {
            Err(MacroError::UnsupportedShape)
        } else {
            match extracted_fields_upto(rule, fields, fields.len() as int) {
                Ok(fields) => Ok(ModelBodyView::Struct(fields)),
                Err(error) => Err(error),
            }
        },
        DeclarationBodyView::Enum(variants) => if rule.on_variants() {
            match extracted_variants_upto(rule, variants, variants.len() as int) {
                Ok(variants) => Ok(ModelBodyView::Enum(variants)),
                Err(error) => Err(error),
            }
        } else {
            Err(MacroError::UnsupportedShape)
        },
        _ => Err(MacroError::UnsupportedShape),
    }
}

/// Whether the declaration has the shape that the rule works on.
pub open spec fn shape_fits(rule: Rule, body: DeclarationBodyView) -> bool {
    if rule.on_variants() {
        body is Enum
    } else {
        body is NamedStruct
    }
}

/// The model of a declaration under a rule. A wrong shape is reported
/// before any annotation is read; then the type's own annotations are read,
/// then the members' in declaration order. The name, the lifetime and
/// type parameters and the where clause are carried over as they are.
pub open spec fn extracted(rule: Rule, declaration: TypeDeclarationView) -> Result<
    DeclarationModelView,
    MacroError,
> {
    if !shape_fits(rule, declaration.body) {
        Err(MacroError::UnsupportedShape)
    } else {
        match extracted_type_directives(rule, declaration) {
            Err(error) => Err(error),
            Ok(directives) => match extracted_body(rule, declaration.body) {
                Err(error) => Err(error),
                Ok(body) => Ok(
                    DeclarationModelView {
                        name: declaration.name,
                        generic_parameters: carried_generics(declaration.generics),
                        where_clause: declaration.where_clause,
                        directives,
                        body,
                    },
                ),
            },
        }
    }
}

/// A failure among the first fields is the failure of the whole.
proof fn lemma_fields_failure_stays(
    rule: Rule,
    fields: Seq<FieldDeclarationView>,
    n: int,
    m: int,
)
    requires
        0 <= n <= m,
        extracted_fields_upto(rule, fields, n) is Err,
    ensures
        extracted_fields_upto(rule, fields, m) == extracted_fields_upto(rule, fields, n),
    decreases m - n,
{
    if n < m {
        lemma_fields_failure_stays(rule, fields, n, m - 1);
    }
}

/// A failure among the first variants is the failure of the whole.
proof fn lemma_variants_failure_stays(
    rule: Rule,
    variants: Seq<VariantDeclarationView>,
    n: int,
    m: int,
)
    requires
        0 <= n <= m,
        extracted_variants_upto(rule, variants, n) is Err,
    ensures
        extracted_variants_upto(rule, variants, m) == extracted_variants_upto(rule, variants, n),
    decreases m - n,
{
    if n < m {
        lemma_variants_failure_stays(rule, variants, n, m - 1);
    }
}

/// Reads the rule's annotations on every field, in declaration order.
fn extract_fields(rule: Rule, fields: &Vec<FieldDeclaration>) -> (outcome: Result<
    Vec<FieldModel>,
    MacroError,
>)
    ensures
        match outcome {
            Ok(models) => extracted_fields_upto(
                rule,
                fields.deep_view(),
                fields.deep_view().len() as int,
            ) == Ok::<Seq<FieldModelView>, MacroError>(models.deep_view()),
            Err(error) => extracted_fields_upto(
                rule,
                fields.deep_view(),
                fields.deep_view().len() as int,
            ) == Err::<Seq<FieldModelView>, MacroError>(error),
        },
{
    let ghost all = fields.deep_view();
    let mut models: Vec<FieldModel> = Vec::new();
    proof {
        assert(models.deep_view() =~= Seq::<FieldModelView>::empty());
    }
    let mut i: usize = 0;
    while i < fields.len()
        invariant
            i <= fields.len(),
            all == fields.deep_view(),
            extracted_fields_upto(rule, all, i as int) == Ok::<Seq<FieldModelView>, MacroError>(
                models.deep_view(),
            ),
        decreases fields.len() - i,
    {
        let field = &fields[i];
        match collect_directives(
            &field.annotations,
            rule.member_attribute_name(),
            rule.member_vocabulary_of(),
        ) {
            Ok(directives) => {
                let ghost front = models.deep_view();
                let model = FieldModel {
                    name: field.name.clone(),
                    declared_type: field.declared_type.clone(),
                    visibility: field.visibility.duplicate(),
                    directives,
                };
                models.push(model);
                proof {
                    assert(models.deep_view() =~= front.push(model.deep_view()));
                }
            },
            Err(error) => {
                proof {
                    lemma_fields_failure_stays(rule, all, i + 1, all.len() as int);
                }
                return Err(error);
            },
        }
        i += 1;
    }
    Ok(models)
}

/// Reads the rule's annotations on every variant, in declaration order.
fn extract_variants(rule: Rule, variants: &Vec<VariantDeclaration>) -> (outcome: Result<
    Vec<VariantModel>,
    MacroError,
>)
    ensures
        match outcome {
            Ok(models) => extracted_variants_upto(
                rule,
                variants.deep_view(),
                variants.deep_view().len() as int,
            ) == Ok::<Seq<VariantModelView>, MacroError>(models.deep_view()),
            Err(error) => extracted_variants_upto(
                rule,
                variants.deep_view(),
                variants.deep_view().len() as int,
            ) == Err::<Seq<VariantModelView>, MacroError>(error),
        },
{
    let ghost all = variants.deep_view();
    let mut models: Vec<VariantModel> = Vec::new();
    proof {
        assert(models.deep_view() =~= Seq::<VariantModelView>::empty());
    }
    let mut i: usize = 0;
    while i < variants.len()
        invariant
            i <= variants.len(),
            all == variants.deep_view(),
            extracted_variants_upto(rule, all, i as int) == Ok::<
                Seq<VariantModelView>,
                MacroError,
            >(models.deep_view()),
        decreases variants.len() - i,
    {
        let variant = &variants[i];
        match collect_directives(
            &variant.annotations,
            rule.member_attribute_name(),
            rule.member_vocabulary_of(),
        ) {
            Ok(directives) => {
                let ghost front = models.deep_view();
                let model = VariantModel {
                    name: variant.name.clone(),
                    shape: variant.shape.duplicate(),
                    directives,
                };
                models.push(model);
                proof {
                    assert(models.deep_view() =~= front.push(model.deep_view()));
                }
            },
            Err(error) => {
                proof {
                    lemma_variants_failure_stays(rule, all, i + 1, all.len() as int);
                }
                return Err(error);
            },
        }
        i += 1;
    }
    Ok(models)
}

/// Whether the declaration has the shape that the rule works on.
pub fn has_fitting_shape(rule: Rule, declaration: &TypeDeclaration) -> (fits: bool)
    ensures
        fits == shape_fits(rule, declaration.deep_view().body),
{
    match &declaration.body {
        DeclarationBody::NamedStruct(_) => !rule.works_on_variants(),
        DeclarationBody::Enum(_) => rule.works_on_variants(),
        _ => false,
    }
}

/// A declaration model or a failure, with the model taken by its view.
pub open spec fn model_outcome(outcome: Result<DeclarationModel, MacroError>) -> Result<
    DeclarationModelView,
    MacroError,
> {
    match outcome {
        Ok(model) => Ok(model.deep_view()),
        Err(error) => Err(error),
    }
}

/// Walks a type declaration and reads it into the model that the rule works
/// on. A rule on fields accepts a struct with named fields only, a rule on
/// variants an enum only; anything else is an unsupported shape. Field and
/// variant order is kept.
pub fn extract(rule: Rule, declaration: &TypeDeclaration) -> (outcome: Result<
    DeclarationModel,
    MacroError,
>)
    ensures
        model_outcome(outcome) == extracted(rule, declaration.deep_view()),
{
    if !has_fitting_shape(rule, declaration) {
        return Err(MacroError::UnsupportedShape);
    }
    let directives = match rule.type_vocabulary_of() {
        Some(vocabulary) => {
            match collect_directives(
                &declaration.annotations,
                rule.type_attribute_name(),
                vocabulary,
            ) {
                Ok(directives) => directives,
                Err(error) => {
                    return Err(error);
                },
            }
        },
        None => {
            let none: Vec<Directive> = Vec::new();
            proof {
                assert(none.deep_view() =~= Seq::<DirectiveView>::empty());
            }
            none
        },
    };
    let body = match &declaration.body {
        DeclarationBody::NamedStruct(fields) => match extract_fields(rule, fields) {
            Ok(fields) => ModelBody::Struct(fields),
            Err(error) => {
                return Err(error);
            },
        },
        DeclarationBody::Enum(variants) => match extract_variants(rule, variants) {
            Ok(variants) => ModelBody::Enum(variants),
            Err(error) => {
                return Err(error);
            },
        },
        _ => {
            return Err(MacroError::UnsupportedShape);
        },
    };
    Ok(
        DeclarationModel {
            name: declaration.name.clone(),
            generic_parameters: carry_generics(&declaration.generics),
            where_clause: duplicate_optional(&declaration.where_clause),
            directives,
            body,
        },
    )
}

} // verus!
