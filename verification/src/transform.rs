//! The schema transformer: the rules that turn the model of a struct into a
//! derived declaration.

use crate::directive::{is_path, Directive, DirectiveView};
use crate::error::MacroError;
use crate::model::{
    duplicate_generics, duplicate_optional, duplicate_texts, extract, extracted,
    find_attribute, first_attribute, has_fitting_shape, shape_fits, DeclarationModel,
    DeclarationModelView, FieldModel, FieldModelView, GenericParam, GenericParamView, ModelBody,
    ModelBodyView, Rule, TypeDeclaration, TypeDeclarationView, Visibility, VisibilityView,
};
use vstd::prelude::*;
use vstd::string::StringExecFns;

verus! {

/// The type of a derived field.
#[derive(Clone, Debug)]
pub enum DerivedType {
    /// The declared type, as it was written.
    Verbatim(String),
    /// The declared type in an optional wrapper.
    Optional(String),
    /// A boolean flag.
    Flag,
}

/// The model of a [`DerivedType`].
pub enum DerivedTypeView {
    Verbatim(Seq<char>),
    Optional(Seq<char>),
    Flag,
}

impl DeepView for DerivedType {
    type V = DerivedTypeView;

    open spec fn deep_view(&self) -> DerivedTypeView {
        match self {
            DerivedType::Verbatim(ty) => DerivedTypeView::Verbatim(ty@),
            DerivedType::Optional(ty) => DerivedTypeView::Optional(ty@),
            DerivedType::Flag => DerivedTypeView::Flag,
        }
    }
}

/// One field of a derived declaration.
#[derive(Clone, Debug)]
pub struct DerivedField {
    pub name: String,
    pub ty: DerivedType,
    pub visibility: Visibility,
    /// The attributes copied onto the field.
    pub attributes: Vec<String>,
}

/// The model of a [`DerivedField`].
pub struct DerivedFieldView {
    pub name: Seq<char>,
    pub ty: DerivedTypeView,
    pub visibility: VisibilityView,
    pub attributes: Seq<Seq<char>>,
}

impl DeepView for DerivedField {
    type V = DerivedFieldView;

    open spec fn deep_view(&self) -> DerivedFieldView {
        DerivedFieldView {
            name: self.name@,
            ty: self.ty.deep_view(),
            visibility: self.visibility.deep_view(),
            attributes: self.attributes.deep_view(),
        }
    }
}

/// A declaration produced by one of the rules.
#[derive(Clone, Debug)]
pub struct DerivedDeclaration {
    pub target_name: String,
    pub generic_parameters: Vec<GenericParam>,
    pub where_clause: Option<String>,
    /// The attributes put on the declaration.
    pub attributes: Vec<String>,
    pub fields: Vec<DerivedField>,
    /// Whether the declaration comes with the value in which nothing is
    /// given: every optional field absent, every flag off.
    pub with_default: bool,
}

/// The model of a [`DerivedDeclaration`].
pub struct DerivedDeclarationView {
    pub target_name: Seq<char>,
    pub generic_parameters: Seq<GenericParamView>,
    pub where_clause: Option<Seq<char>>,
    pub attributes: Seq<Seq<char>>,
    pub fields: Seq<DerivedFieldView>,
    pub with_default: bool,
}

impl DeepView for DerivedDeclaration {
    type V = DerivedDeclarationView;

    open spec fn deep_view(&self) -> DerivedDeclarationView {
        DerivedDeclarationView {
            target_name: self.target_name@,
            generic_parameters: self.generic_parameters.deep_view(),
            where_clause: self.where_clause.deep_view(),
            attributes: self.attributes.deep_view(),
            fields: self.fields.deep_view(),
            with_default: self.with_default,
        }
    }
}

/// A conversion that consumes a value of the source declaration and gives
/// one of the derived declaration, copying each listed field by name.
#[derive(Clone, Debug)]
pub struct Conversion {
    pub source_name: String,
    pub target_name: String,
    pub fields: Vec<String>,
}

/// The model of a [`Conversion`].
pub struct ConversionView {
    pub source_name: Seq<char>,
    pub target_name: Seq<char>,
    pub fields: Seq<Seq<char>>,
}

impl DeepView for Conversion {
    type V = ConversionView;

    open spec fn deep_view(&self) -> ConversionView {
        ConversionView {
            source_name: self.source_name@,
            target_name: self.target_name@,
            fields: self.fields.deep_view(),
        }
    }
}

/// Which fields are read whatever the caller selects: a mark for each field
/// of the struct, in declaration order. A field behind the end of the table
/// is not marked.
#[derive(Clone, Debug)]
pub struct WhitelistTable {
    /// Whether the field at this position is marked "always".
    pub always: Vec<bool>,
}

impl DeepView for WhitelistTable {
    type V = Seq<bool>;

    open spec fn deep_view(&self) -> Seq<bool> {
        self.always@
    }
}

/// Whether the whitelist marks the field at position `i`.
pub open spec fn listed(whitelist: Seq<bool>, i: int) -> bool {
    0 <= i < whitelist.len() && whitelist[i]
}

/// What a field holds when nothing was given for it.
#[derive(Clone, Copy, Debug, PartialEq, Eq, Structural)]
pub enum FieldDefault {
    /// An optional field without a value.
    Absent,
    /// A flag that is off.
    False,
}

/// The name of the first rename among `directives[start..]`.
pub open spec fn first_rename_from(directives: Seq<DirectiveView>, start: int) -> Option<
    Seq<char>,
>
    decreases directives.len() - start,
{
    if start < 0 || start >= directives.len() {
        None
    } else {
        match directives[start] {
            DirectiveView::Rename(name) => Some(name),
            _ => first_rename_from(directives, start + 1),
        }
    }
}

/// The name that a rule gives its result where no override is written.
/// The caller-named rule and the rules on variants have none.
pub open spec fn default_name(rule: Rule, source: Seq<char>) -> Seq<char> {
    match rule {
        Rule::Values => source + "Values"@,
        Rule::OptValues => source + "OptValues"@,
        Rule::Partial => "Partial"@ + source,
        Rule::Options => source + "Options"@,
        _ => source,
    }
}

/// The name of the derived declaration: the first override on the type,
/// else the rule's default.
pub open spec fn target_name(rule: Rule, model: DeclarationModelView) -> Seq<char> {
    match first_rename_from(model.directives, 0) {
        Some(name) => name,
        None => default_name(rule, model.name),
    }
}

/// The attributes that a rule puts on its result. The caller-named rule
/// takes them from its caller. The all-absent value of the optional-values
/// and of the options result is written out beside the struct and not
/// derived, so that nothing is asked of the type parameters; the options
/// result also takes that value for every flag that is left out when it is
/// read.
pub open spec fn rule_attributes(rule: Rule) -> Seq<Seq<char>> {
    match rule {
        Rule::Values => seq!["derive(Serialize, Deserialize, Debug, Clone)"@],
        Rule::OptValues => seq!["derive(Serialize, Deserialize, Debug, Clone)"@],
        Rule::Partial => seq![
            "derive(serde_derive::Serialize, serde_derive::Deserialize, Clone)"@,
        ],
        Rule::Options => seq![
            "derive(serde_derive::Serialize, serde_derive::Deserialize, Clone)"@,
            "serde(default)"@,
        ],
        _ => Seq::empty(),
    }
}

/// Whether a rule's result comes with its all-absent value: that of the
/// optional-values rule and that of the options rule do.
pub open spec fn rule_gives_default(rule: Rule) -> bool {
    rule == Rule::OptValues || rule == Rule::Options
}

/// The attributes among the first `n` directives, in order.
pub open spec fn attached_upto(directives: Seq<DirectiveView>, n: int) -> Seq<Seq<char>>
    decreases n,
{
    if n <= 0 {
        Seq::empty()
    } else {
        match directives[n - 1] {
            DirectiveView::AttachTrait(attribute) => attached_upto(directives, n - 1).push(
                attribute,
            ),
            _ => attached_upto(directives, n - 1),
        }
    }
}

/// The attributes that the directives attach, in order.
pub open spec fn attached(directives: Seq<DirectiveView>) -> Seq<Seq<char>> {
    attached_upto(directives, directives.len() as int)
}

/// What a rule makes of one field, or nothing where it leaves the field
/// out. `always` says whether the whitelist marks the field; the partial
/// rule alone reads it.
pub open spec fn derived_field(
    rule: Rule,
    always: bool,
    field: FieldModelView,
) -> Option<DerivedFieldView> {
    match rule {
        Rule::Values => if field.directives.contains(DirectiveView::Skip) {
            None
        } else {
            Some(
                DerivedFieldView {
                    name: field.name,
                    ty: DerivedTypeView::Verbatim(field.declared_type),
                    visibility: VisibilityView::Public,
                    attributes: Seq::empty(),
                },
            )
        },
        Rule::OptValues => if field.directives.contains(DirectiveView::Skip) {
            None
        } else {
            Some(
                DerivedFieldView {
                    name: field.name,
                    ty: DerivedTypeView::Optional(field.declared_type),
                    visibility: VisibilityView::Public,
                    attributes: Seq::empty(),
                },
            )
        },
        Rule::Partial => Some(
            DerivedFieldView {
                name: field.name,
                ty: if always {
                    DerivedTypeView::Verbatim(field.declared_type)
                } else {
                    DerivedTypeView::Optional(field.declared_type)
                },
                visibility: VisibilityView::Public,
                attributes: Seq::empty(),
            },
        ),
        Rule::PartialStruct => if field.directives.contains(DirectiveView::Skip) {
            None
        } else {
            Some(
                DerivedFieldView {
                    name: field.name,
                    ty: DerivedTypeView::Verbatim(field.declared_type),
                    visibility: if field.directives.contains(DirectiveView::MakePublic) {
                        VisibilityView::Public
                    } else {
                        field.visibility
                    },
                    attributes: attached(field.directives),
                },
            )
        },
        Rule::Options => if field.directives.contains(DirectiveView::Always) {
            None
        } else {
            Some(
                DerivedFieldView {
                    name: field.name,
                    ty: DerivedTypeView::Flag,
                    visibility: VisibilityView::Public,
                    attributes: Seq::empty(),
                },
            )
        },
        _ => None,
    }
}

/// What a rule makes of the first `n` fields: each kept field's image, in
/// source order.
pub open spec fn derived_fields_upto(
    rule: Rule,
    whitelist: Seq<bool>,
    fields: Seq<FieldModelView>,
    n: int,
) -> Seq<DerivedFieldView>
    decreases n,
{
    if n <= 0 {
        Seq::empty()
    } else {
        match derived_field(rule, listed(whitelist, n - 1), fields[n - 1]) {
            Some(field) => derived_fields_upto(rule, whitelist, fields, n - 1).push(field),
            None => derived_fields_upto(rule, whitelist, fields, n - 1),
        }
    }
}

/// What a rule makes of the fields of a struct.
pub open spec fn derived_fields(
    rule: Rule,
    whitelist: Seq<bool>,
    fields: Seq<FieldModelView>,
) -> Seq<DerivedFieldView> {
    derived_fields_upto(rule, whitelist, fields, fields.len() as int)
}

/// The whitelist that a model itself states: for each field, whether it
/// carries "always". An enum states none.
pub open spec fn stated_whitelist(model: DeclarationModelView) -> Seq<bool> {
    match model.body {
        ModelBodyView::Struct(fields) => Seq::new(
            fields.len(),
            |i: int| fields[i].directives.contains(DirectiveView::Always),
        ),
        ModelBodyView::Enum(_) => Seq::empty(),
    }
}

/// The declaration that a rule derives from a model under a name and with
/// attributes. Generic parameters and the where clause are the source's.
/// Only a struct can be derived from.
pub open spec fn derived_as(
    rule: Rule,
    whitelist: Seq<bool>,
    model: DeclarationModelView,
    name: Seq<char>,
    attributes: Seq<Seq<char>>,
) -> Result<DerivedDeclarationView, MacroError> {
    match model.body {
        ModelBodyView::Struct(fields) => Ok(
            DerivedDeclarationView {
                target_name: name,
                generic_parameters: model.generic_parameters,
                where_clause: model.where_clause,
                attributes,
                fields: derived_fields(rule, whitelist, fields),
                with_default: rule_gives_default(rule),
            },
        ),
        ModelBodyView::Enum(_) => Err(MacroError::UnsupportedShape),
    }
}

/// The declaration that one of the self-naming rules derives from a model.
pub open spec fn derived(
    rule: Rule,
    whitelist: Seq<bool>,
    model: DeclarationModelView,
) -> Result<DerivedDeclarationView, MacroError> {
    derived_as(rule, whitelist, model, target_name(rule, model), rule_attributes(rule))
}

/// The names of the fields, in order.
pub open spec fn field_names(fields: Seq<DerivedFieldView>) -> Seq<Seq<char>> {
    Seq::new(fields.len(), |i: int| fields[i].name)
}

/// The caller-named part of a struct together with the conversion into it.
pub open spec fn derived_partial_struct(
    model: DeclarationModelView,
    name: Seq<char>,
    traits: Seq<Seq<char>>,
) -> Result<(DerivedDeclarationView, ConversionView), MacroError> {
    match derived_as(Rule::PartialStruct, Seq::<bool>::empty(), model, name, traits) {
        Ok(declaration) => Ok(
            (
                declaration,
                ConversionView {
                    source_name: model.name,
                    target_name: name,
                    fields: field_names(declaration.fields),
                },
            ),
        ),
        Err(error) => Err(error),
    }
}

/// What a field of this type holds when nothing was given for it, where
/// the type has such a value.
pub open spec fn default_of(ty: DerivedTypeView) -> Option<FieldDefault> {
    match ty {
        DerivedTypeView::Verbatim(_) => None,
        DerivedTypeView::Optional(_) => Some(FieldDefault::Absent),
        DerivedTypeView::Flag => Some(FieldDefault::False),
    }
}

/// Whether every field has a value of its own when nothing is given.
pub open spec fn default_constructible(fields: Seq<DerivedFieldView>) -> bool {
    forall|i: int| 0 <= i < fields.len() ==> default_of(#[trigger] fields[i].ty) is Some
}

/// A derived declaration or a failure, with the declaration taken by its
/// model.
pub open spec fn derived_outcome(outcome: Result<DerivedDeclaration, MacroError>) -> Result<
    DerivedDeclarationView,
    MacroError,
> {
    match outcome {
        Ok(declaration) => Ok(declaration.deep_view()),
        Err(error) => Err(error),
    }
}

/// Whether two directives are the same.
fn same_directive(left: &Directive, right: &Directive) -> (same: bool)
    ensures
        same == (left.deep_view() == right.deep_view()),
{
    match (left, right) {
        (Directive::Skip, Directive::Skip) => true,
        (Directive::Always, Directive::Always) => true,
        (Directive::MakePublic, Directive::MakePublic) => true,
        (Directive::Transparent, Directive::Transparent) => true,
        (Directive::Rename(a), Directive::Rename(b)) => *a == *b,
        (Directive::AttachTrait(a), Directive::AttachTrait(b)) => *a == *b,
        (Directive::KindMapping(a, b), Directive::KindMapping(c, d)) => *a == *c && *b == *d,
        _ => false,
    }
}

/// Whether the directives hold `wanted`.
pub fn carries(directives: &Vec<Directive>, wanted: &Directive) -> (yes: bool)
    ensures
        yes == directives.deep_view().contains(wanted.deep_view()),
{
    let ghost all = directives.deep_view();
    let mut i: usize = 0;
    while i < directives.len()
        invariant
            i <= directives.len(),
            all == directives.deep_view(),
            forall|k: int| 0 <= k < i ==> all[k] != wanted.deep_view(),
        decreases directives.len() - i,
    {
        if same_directive(&directives[i], wanted) {
            proof {
                assert(all[i as int] == wanted.deep_view());
            }
            return true;
        }
        i += 1;
    }
    false
}

/// The attributes that the directives attach, in order.
fn attached_attributes(directives: &Vec<Directive>) -> (attributes: Vec<String>)
    ensures
        attributes.deep_view() == attached(directives.deep_view()),
{
    let ghost all = directives.deep_view();
    let mut attributes: Vec<String> = Vec::new();
    proof {
        assert(attributes.deep_view() =~= Seq::<Seq<char>>::empty());
    }
    let mut i: usize = 0;
    while i < directives.len()
        invariant
            i <= directives.len(),
            all == directives.deep_view(),
            attributes.deep_view() == attached_upto(all, i as int),
        decreases directives.len() - i,
    {
        match &directives[i] {
            Directive::AttachTrait(attribute) => {
                let ghost front = attributes.deep_view();
                attributes.push(attribute.clone());
                proof {
                    assert(attributes.deep_view() =~= front.push(attribute@));
                }
            },
            _ => {},
        }
        i += 1;
    }
    attributes
}

/// What a rule makes of one field.
fn transform_field(rule: Rule, always: bool, field: &FieldModel) -> (derived: Option<DerivedField>)
    ensures
        derived.deep_view() == derived_field(rule, always, field.deep_view()),
{
    let (ty, visibility, attributes) = match rule {
        Rule::Values => {
            if carries(&field.directives, &Directive::Skip) {
                return None;
            }
            (DerivedType::Verbatim(field.declared_type.clone()), Visibility::Public, Vec::new())
        },
        Rule::OptValues => {
            if carries(&field.directives, &Directive::Skip) {
                return None;
            }
            (DerivedType::Optional(field.declared_type.clone()), Visibility::Public, Vec::new())
        },
        Rule::Partial => {
            let ty = if always {
                DerivedType::Verbatim(field.declared_type.clone())
            } else {
                DerivedType::Optional(field.declared_type.clone())
            };
            (ty, Visibility::Public, Vec::new())
        },
        Rule::PartialStruct => {
            if carries(&field.directives, &Directive::Skip) {
                return None;
            }
            let visibility = if carries(&field.directives, &Directive::MakePublic) {
                Visibility::Public
            } else {
                field.visibility.duplicate()
            };
            (
                DerivedType::Verbatim(field.declared_type.clone()),
                visibility,
                attached_attributes(&field.directives),
            )
        },
        Rule::Options => {
            if carries(&field.directives, &Directive::Always) {
                return None;
            }
            (DerivedType::Flag, Visibility::Public, Vec::new())
        },
        _ => {
            return None;
        },
    };
    proof {
        if rule != Rule::PartialStruct {
            assert(attributes.deep_view() =~= Seq::<Seq<char>>::empty());
        }
    }
    Some(DerivedField { name: field.name.clone(), ty, visibility, attributes })
}

/// What a rule makes of the fields of a struct, in source order.
fn transform_fields(rule: Rule, whitelist: &Vec<bool>, fields: &Vec<FieldModel>) -> (derived:
    Vec<DerivedField>)
    ensures
        derived.deep_view() == derived_fields(rule, whitelist@, fields.deep_view()),
{
    let ghost all = fields.deep_view();
    let mut derived: Vec<DerivedField> = Vec::new();
    proof {
        assert(derived.deep_view() =~= Seq::<DerivedFieldView>::empty());
    }
    let mut i: usize = 0;
    while i < fields.len()
        invariant
            i <= fields.len(),
            all == fields.deep_view(),
            derived.deep_view() == derived_fields_upto(rule, whitelist@, all, i as int),
        decreases fields.len() - i,
    {
        let always = i < whitelist.len() && whitelist[i];
        match transform_field(rule, always, &fields[i]) {
            Some(field) => {
                let ghost front = derived.deep_view();
                let ghost image = field.deep_view();
                derived.push(field);
                proof {
                    assert(derived.deep_view() =~= front.push(image));
                }
            },
            None => {},
        }
        i += 1;
    }
    derived
}

/// The attributes that a rule puts on its result.
fn attributes_of(rule: Rule) -> (attributes: Vec<String>)
    ensures
        attributes.deep_view() == rule_attributes(rule),
{
    let mut attributes: Vec<String> = Vec::new();
    match rule {
        Rule::Values => {
            attributes.push(String::from_str("derive(Serialize, Deserialize, Debug, Clone)"));
        },
        Rule::OptValues => {
            attributes.push(String::from_str("derive(Serialize, Deserialize, Debug, Clone)"));
        },
        Rule::Partial => {
            attributes.push(
                String::from_str(
                    "derive(serde_derive::Serialize, serde_derive::Deserialize, Clone)",
                ),
            );
        },
        Rule::Options => {
            attributes.push(
                String::from_str(
                    "derive(serde_derive::Serialize, serde_derive::Deserialize, Clone)",
                ),
            );
            attributes.push(String::from_str("serde(default)"));
        },
        _ => {},
    }
    proof {
        assert(attributes.deep_view() =~= rule_attributes(rule));
    }
    attributes
}

/// The name of the derived declaration: the first override on the type,
/// else the rule's default.
pub fn target_name_of(rule: Rule, model: &DeclarationModel) -> (name: String)
    ensures
        name@ == target_name(rule, model.deep_view()),
{
    let ghost all = model.directives.deep_view();
    let mut i: usize = 0;
    while i < model.directives.len()
        invariant
            i <= model.directives.len(),
            all == model.directives.deep_view(),
            first_rename_from(all, 0) == first_rename_from(all, i as int),
        decreases model.directives.len() - i,
    {
        match &model.directives[i] {
            Directive::Rename(name) => {
                return name.clone();
            },
            _ => {},
        }
        i += 1;
    }
    match rule {
        Rule::Values => model.name.clone().concat("Values"),
        Rule::OptValues => model.name.clone().concat("OptValues"),
        Rule::Partial => String::from_str("Partial").concat(model.name.as_str()),
        Rule::Options => model.name.clone().concat("Options"),
        _ => model.name.clone(),
    }
}

/// Derives under a rule, a name and attributes.
fn derive_as(
    rule: Rule,
    whitelist: &Vec<bool>,
    model: &DeclarationModel,
    name: String,
    attributes: Vec<String>,
) -> (outcome: Result<DerivedDeclaration, MacroError>)
    ensures
        derived_outcome(outcome) == derived_as(
            rule,
            whitelist@,
            model.deep_view(),
            name@,
            attributes.deep_view(),
        ),
{
    match &model.body {
        ModelBody::Struct(fields) => Ok(
            DerivedDeclaration {
                target_name: name,
                generic_parameters: duplicate_generics(&model.generic_parameters),
                where_clause: duplicate_optional(&model.where_clause),
                attributes,
                fields: transform_fields(rule, whitelist, fields),
                with_default: match rule {
                    Rule::OptValues => true,
                    Rule::Options => true,
                    _ => false,
                },
            },
        ),
        ModelBody::Enum(_) => Err(MacroError::UnsupportedShape),
    }
}

/// The values rule: every field that is not skipped, with its declared
/// type, in source order, under `<Name>Values` or the override.
pub fn derive_values(model: &DeclarationModel) -> (outcome: Result<DerivedDeclaration, MacroError>)
    ensures
        derived_outcome(outcome) == derived(Rule::Values, Seq::<bool>::empty(), model.deep_view()),
{
    let none: Vec<bool> = Vec::new();
    proof {
        assert(none@ =~= Seq::<bool>::empty());
    }
    derive_as(
        Rule::Values,
        &none,
        model,
        target_name_of(Rule::Values, model),
        attributes_of(Rule::Values),
    )
}

/// The optional-values rule: the fields of the values rule, every type in
/// an optional wrapper, under `<Name>OptValues` or the override.
pub fn derive_opt_values(model: &DeclarationModel) -> (outcome: Result<
    DerivedDeclaration,
    MacroError,
>)
    ensures
        derived_outcome(outcome) == derived(Rule::OptValues, Seq::<bool>::empty(), model.deep_view()),
{
    let none: Vec<bool> = Vec::new();
    proof {
        assert(none@ =~= Seq::<bool>::empty());
    }
    derive_as(
        Rule::OptValues,
        &none,
        model,
        target_name_of(Rule::OptValues, model),
        attributes_of(Rule::OptValues),
    )
}

/// The options rule: a flag for every field that is not marked "always",
/// under `<Name>Options` or the override.
pub fn derive_options(model: &DeclarationModel) -> (outcome: Result<
    DerivedDeclaration,
    MacroError,
>)
    ensures
        derived_outcome(outcome) == derived(Rule::Options, Seq::<bool>::empty(), model.deep_view()),
{
    let none: Vec<bool> = Vec::new();
    proof {
        assert(none@ =~= Seq::<bool>::empty());
    }
    derive_as(
        Rule::Options,
        &none,
        model,
        target_name_of(Rule::Options, model),
        attributes_of(Rule::Options),
    )
}

/// The partial rule: every field, with its declared type where the
/// whitelist marks its position and optional otherwise, under
/// `Partial<Name>` or the override.
pub fn derive_partial(model: &DeclarationModel, whitelist: &WhitelistTable) -> (outcome: Result<
    DerivedDeclaration,
    MacroError,
>)
    ensures
        derived_outcome(outcome) == derived(
            Rule::Partial,
            whitelist.deep_view(),
            model.deep_view(),
        ),
{
    derive_as(
        Rule::Partial,
        &whitelist.always,
        model,
        target_name_of(Rule::Partial, model),
        attributes_of(Rule::Partial),
    )
}

/// The whitelist that a model itself states: for each field, whether it
/// carries "always".
pub fn whitelist_of(model: &DeclarationModel) -> (whitelist: WhitelistTable)
    ensures
        whitelist.deep_view() == stated_whitelist(model.deep_view()),
{
    let mut always: Vec<bool> = Vec::new();
    match &model.body {
        ModelBody::Struct(fields) => {
            let ghost all = fields.deep_view();
            let mut i: usize = 0;
            while i < fields.len()
                invariant
                    i <= fields.len(),
                    all == fields.deep_view(),
                    always.len() == i,
                    forall|k: int|
                        0 <= k < i ==> #[trigger] always[k] == all[k].directives.contains(
                            DirectiveView::Always,
                        ),
                decreases fields.len() - i,
            {
                always.push(carries(&fields[i].directives, &Directive::Always));
                i += 1;
            }
            proof {
                assert(always@ =~= stated_whitelist(model.deep_view()));
            }
        },
        ModelBody::Enum(_) => {
            proof {
                assert(always@ =~= stated_whitelist(model.deep_view()));
            }
        },
    }
    WhitelistTable { always }
}

/// The names of the fields, in order.
fn names_of(fields: &Vec<DerivedField>) -> (names: Vec<String>)
    ensures
        names.deep_view() == field_names(fields.deep_view()),
{
    let mut names: Vec<String> = Vec::new();
    let mut i: usize = 0;
    while i < fields.len()
        invariant
            i <= fields.len(),
            names.len() == i,
            forall|k: int| 0 <= k < i ==> (#[trigger] names[k])@ == fields[k].name@,
        decreases fields.len() - i,
    {
        names.push(fields[i].name.clone());
        i += 1;
    }
    proof {
        assert(names.deep_view() =~= field_names(fields.deep_view()));
    }
    names
}

/// The caller-named rule: every field that is not skipped, with its
/// declared type, public where marked so and as visible as in the source
/// otherwise, with the sub-annotations that are not the rule's own copied
/// onto it; and beside the declaration the conversion into it, which copies
/// each kept field by name, in source order.
pub fn derive_partial_struct(
    model: &DeclarationModel,
    target_name: &str,
    traits: &Vec<String>,
) -> (outcome: Result<(DerivedDeclaration, Conversion), MacroError>)
    ensures
        match outcome {
            Ok(pair) => derived_partial_struct(model.deep_view(), target_name@, traits.deep_view())
                == Ok::<(DerivedDeclarationView, ConversionView), MacroError>(
                (pair.0.deep_view(), pair.1.deep_view()),
            ),
            Err(error) => derived_partial_struct(
                model.deep_view(),
                target_name@,
                traits.deep_view(),
            ) == Err::<(DerivedDeclarationView, ConversionView), MacroError>(error),
        },
{
    let none: Vec<bool> = Vec::new();
    proof {
        assert(none@ =~= Seq::<bool>::empty());
    }
    match derive_as(
        Rule::PartialStruct,
        &none,
        model,
        String::from_str(target_name),
        duplicate_texts(traits),
    ) {
        Ok(declaration) => {
            let conversion = Conversion {
                source_name: model.name.clone(),
                target_name: String::from_str(target_name),
                fields: names_of(&declaration.fields),
            };
            Ok((declaration, conversion))
        },
        Err(error) => Err(error),
    }
}

impl DerivedDeclaration {
    /// The value of the declaration in which nothing was given: every
    /// optional field absent and every flag off. There is none where a
    /// field has a type of the source's own.
    pub fn default_instance(&self) -> (instance: Option<Vec<FieldDefault>>)
        ensures
            instance is Some <==> default_constructible(self.deep_view().fields),
            instance is Some ==> instance->0@.len() == self.deep_view().fields.len(),
            instance is Some ==> forall|i: int|
                0 <= i < self.deep_view().fields.len() ==> Some(#[trigger] instance->0@[i])
                    == default_of(self.deep_view().fields[i].ty),
    {
        let ghost all = self.fields.deep_view();
        let mut instance: Vec<FieldDefault> = Vec::new();
        let mut i: usize = 0;
        while i < self.fields.len()
            invariant
                i <= self.fields.len(),
                all == self.fields.deep_view(),
                instance.len() == i,
                forall|k: int| 0 <= k < i ==> default_of(#[trigger] all[k].ty) is Some,
                forall|k: int| 0 <= k < i ==> Some(#[trigger] instance@[k]) == default_of(all[k].ty),
            decreases self.fields.len() - i,
        {
            match &self.fields[i].ty {
                DerivedType::Verbatim(_) => {
                    proof {
                        assert(default_of(all[i as int].ty) is None);
                    }
                    return None;
                },
                DerivedType::Optional(_) => {
                    instance.push(FieldDefault::Absent);
                },
                DerivedType::Flag => {
                    instance.push(FieldDefault::False);
                },
            }
            i += 1;
        }
        Some(instance)
    }
}

/// What one of the self-naming rules derives from a declaration as it was
/// written: the declaration is read under the rule, then transformed. The
/// partial rule takes its whitelist from the fields' own "always" marks.
pub open spec fn derived_from(rule: Rule, declaration: TypeDeclarationView) -> Result<
    DerivedDeclarationView,
    MacroError,
> {
    match extracted(rule, declaration) {
        Ok(model) => derived(
            rule,
            if rule == Rule::Partial {
                stated_whitelist(model)
            } else {
                Seq::<bool>::empty()
            },
            model,
        ),
        Err(error) => Err(error),
    }
}

/// The target name and the attributes that the type's `partial_struct`
/// annotation gives: its first argument, a bare path, is the name, every
/// later argument is attached as it was written. Without the annotation the
/// directive is missing; with another first argument it is malformed.
pub open spec fn name_and_traits(declaration: TypeDeclarationView) -> Result<
    (Seq<char>, Seq<Seq<char>>),
    MacroError,
> {
    match first_attribute(declaration.annotations, "partial_struct"@) {
        None => Err(MacroError::MissingDirective),
        Some(args) => if args.len() >= 1 && args[0] is Path {
            Ok((args[0].text(), Seq::new((args.len() - 1) as nat, |i: int| args[i + 1].text())))
        } else {
            Err(MacroError::MalformedAnnotation)
        },
    }
}

/// What the caller-named rule derives from a declaration as it was
/// written. What is no struct with named fields is an unsupported shape,
/// whatever it is annotated with; then the name and the attributes are
/// read, then the fields.
pub open spec fn partial_struct_from(declaration: TypeDeclarationView) -> Result<
    (DerivedDeclarationView, ConversionView),
    MacroError,
> {
    if !shape_fits(Rule::PartialStruct, declaration.body) {
        Err(MacroError::UnsupportedShape)
    } else {
        match name_and_traits(declaration) {
            Err(error) => Err(error),
            Ok(named) => match extracted(Rule::PartialStruct, declaration) {
                Err(error) => Err(error),
                Ok(model) => derived_partial_struct(model, named.0, named.1),
            },
        }
    }
}

/// `<Name>Values`: the struct's fields minus the skipped ones, types
/// unchanged.
pub fn derive_struct_values(input: &TypeDeclaration) -> (outcome: Result<
    DerivedDeclaration,
    MacroError,
>)
    ensures
        derived_outcome(outcome) == derived_from(Rule::Values, input.deep_view()),
{
    match extract(Rule::Values, input) {
        Ok(model) => derive_values(&model),
        Err(error) => Err(error),
    }
}

/// `<Name>OptValues`: the struct's fields minus the skipped ones, every
/// type optional.
pub fn derive_opt_struct_values(input: &TypeDeclaration) -> (outcome: Result<
    DerivedDeclaration,
    MacroError,
>)
    ensures
        derived_outcome(outcome) == derived_from(Rule::OptValues, input.deep_view()),
{
    match extract(Rule::OptValues, input) {
        Ok(model) => derive_opt_values(&model),
        Err(error) => Err(error),
    }
}

/// `<Name>Options`: a flag for every field of the struct that is not
/// marked "always".
pub fn reading_options_macro(input: &TypeDeclaration) -> (outcome: Result<
    DerivedDeclaration,
    MacroError,
>)
    ensures
        derived_outcome(outcome) == derived_from(Rule::Options, input.deep_view()),
{
    match extract(Rule::Options, input) {
        Ok(model) => derive_options(&model),
        Err(error) => Err(error),
    }
}

/// `Partial<Name>`: every field of the struct, optional unless it is
/// marked "always".
pub fn partial_object_macro(input: &TypeDeclaration) -> (outcome: Result<
    DerivedDeclaration,
    MacroError,
>)
    ensures
        derived_outcome(outcome) == derived_from(Rule::Partial, input.deep_view()),
{
    match extract(Rule::Partial, input) {
        Ok(model) => {
            let whitelist = whitelist_of(&model);
            derive_partial(&model, &whitelist)
        },
        Err(error) => Err(error),
    }
}

/// Reads the target name and the attributes to attach from the type's
/// `partial_struct` annotation.
pub fn get_name_traits(input: &TypeDeclaration) -> (outcome: Result<
    (String, Vec<String>),
    MacroError,
>)
    ensures
        match outcome {
            Ok(named) => name_and_traits(input.deep_view()) == Ok::<
                (Seq<char>, Seq<Seq<char>>),
                MacroError,
            >((named.0@, named.1.deep_view())),
            Err(error) => name_and_traits(input.deep_view()) == Err::<
                (Seq<char>, Seq<Seq<char>>),
                MacroError,
            >(error),
        },
{
    let args = match find_attribute(input, "partial_struct") {
        Some(args) => args,
        None => {
            return Err(MacroError::MissingDirective);
        },
    };
    if args.len() == 0 || !is_path(&args[0]) {
        return Err(MacroError::MalformedAnnotation);
    }
    let name = args[0].text();
    let mut traits: Vec<String> = Vec::new();
    let mut i: usize = 1;
    while i < args.len()
        invariant
            1 <= i <= args.len(),
            traits.len() == i - 1,
            forall|k: int|
                0 <= k < i - 1 ==> (#[trigger] traits[k])@ == args[k + 1].deep_view().text(),
        decreases args.len() - i,
    {
        traits.push(args[i].text());
        i += 1;
    }
    proof {
        let model = args.deep_view();
        assert(traits.deep_view() =~= Seq::new(
            (model.len() - 1) as nat,
            |i: int| model[i + 1].text(),
        ));
    }
    Ok((name, traits))
}

/// The caller-named part of a struct and the conversion into it, from the
/// declaration as it was written.
pub fn partial_struct(input: &TypeDeclaration) -> (outcome: Result<
    (DerivedDeclaration, Conversion),
    MacroError,
>)
    ensures
        match outcome {
            Ok(pair) => partial_struct_from(input.deep_view()) == Ok::<
                (DerivedDeclarationView, ConversionView),
                MacroError,
            >((pair.0.deep_view(), pair.1.deep_view())),
            Err(error) => partial_struct_from(input.deep_view()) == Err::<
                (DerivedDeclarationView, ConversionView),
                MacroError,
            >(error),
        },
{
    if !has_fitting_shape(Rule::PartialStruct, input) {
        return Err(MacroError::UnsupportedShape);
    }
    let (name, traits) = match get_name_traits(input) {
        Ok(named) => named,
        Err(error) => {
            return Err(error);
        },
    };
    match extract(Rule::PartialStruct, input) {
        Ok(model) => derive_partial_struct(&model, name.as_str(), &traits),
        Err(error) => Err(error),
    }
}

} // verus!
