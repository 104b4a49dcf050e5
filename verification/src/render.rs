//! The source text of what the derivations produce: the derived struct, the
//! conversion into it, and the `kind` method of a classified enum.
//!
//! Each text is one line of Rust, its tokens divided by single spaces where
//! the language wants a division.

use crate::kind::{
    ArmPattern, ClassifierArm, ClassifierArmView, ClassifierTable, ClassifierTableView,
    KindOutcome, KindOutcomeView,
};
use crate::model::{GenericParam, GenericParamView, ParamKind, Visibility, VisibilityView};
use crate::text::{join, join_with};
use crate::transform::{
    default_constructible, Conversion, ConversionView, DerivedDeclaration,
    DerivedDeclarationView, DerivedField, DerivedFieldView, DerivedType, DerivedTypeView,
};
use vstd::prelude::*;
use vstd::string::StringExecFns;

verus! {

/// Each attribute as it is written on an item: `#[attribute] `.
pub open spec fn attribute_texts(attributes: Seq<Seq<char>>) -> Seq<Seq<char>> {
    Seq::new(attributes.len(), |i: int| "#["@ + attributes[i] + "] "@)
}

/// The attributes of an item, one after another.
pub open spec fn attributes_text(attributes: Seq<Seq<char>>) -> Seq<char> {
    join(attribute_texts(attributes), ""@)
}

/// A visibility as it is written before a field's name.
pub open spec fn visibility_text(visibility: VisibilityView) -> Seq<char> {
    match visibility {
        VisibilityView::Public => "pub "@,
        VisibilityView::Restricted(scope) => scope + " "@,
        VisibilityView::Inherited => ""@,
    }
}

/// A derived type as it is written: the declared type, that type in
/// `Option<..>`, or `bool`.
pub open spec fn type_text(ty: DerivedTypeView) -> Seq<char> {
    match ty {
        DerivedTypeView::Verbatim(declared) => declared,
        DerivedTypeView::Optional(declared) => "Option<"@ + declared + ">"@,
        DerivedTypeView::Flag => "bool"@,
    }
}

/// A field as it is written: attributes, visibility, `name: type,`.
pub open spec fn field_text(field: DerivedFieldView) -> Seq<char> {
    attributes_text(field.attributes) + visibility_text(field.visibility) + field.name + ": "@
        + type_text(field.ty) + ","@
}

/// Every field as it is written.
pub open spec fn field_texts(fields: Seq<DerivedFieldView>) -> Seq<Seq<char>> {
    Seq::new(fields.len(), |i: int| field_text(fields[i]))
}

/// Where a generic parameter is written.
#[derive(Clone, Copy, Debug, PartialEq, Eq, Structural)]
pub enum ParamForm {
    /// On the struct that declares it: bounds and default are written.
    Declared,
    /// On an impl: bounds are written, a default is not.
    Bounded,
    /// As an argument of a type: the name alone.
    Named,
}

/// What is written before a parameter's name where it is introduced.
pub open spec fn introduction_text(kind: ParamKind) -> Seq<char> {
    match kind {
        ParamKind::Const => "const "@,
        _ => ""@,
    }
}

/// What is written behind a parameter's name for its bounds.
pub open spec fn bounds_text(bounds: Option<Seq<char>>) -> Seq<char> {
    match bounds {
        Some(bounds) => ": "@ + bounds,
        None => ""@,
    }
}

/// What is written behind a parameter for its default.
pub open spec fn default_text(default: Option<Seq<char>>) -> Seq<char> {
    match default {
        Some(default) => " = "@ + default,
        None => ""@,
    }
}

/// A generic parameter as it is written in the given place.
pub open spec fn param_text(form: ParamForm, parameter: GenericParamView) -> Seq<char> {
    match form {
        ParamForm::Declared => introduction_text(parameter.kind) + parameter.name + bounds_text(
            parameter.bounds,
        ) + default_text(parameter.default),
        ParamForm::Bounded => introduction_text(parameter.kind) + parameter.name + bounds_text(
            parameter.bounds,
        ),
        ParamForm::Named => parameter.name,
    }
}

/// Every generic parameter as it is written in the given place.
pub open spec fn param_texts(form: ParamForm, parameters: Seq<GenericParamView>) -> Seq<
    Seq<char>,
> {
    Seq::new(parameters.len(), |i: int| param_text(form, parameters[i]))
}

/// The generic parameters between angle brackets: `<'a, T: Bound>` where
/// they are introduced, `<'a, T>` where they are used.
pub open spec fn generics_text(form: ParamForm, parameters: Seq<GenericParamView>) -> Seq<char> {
    "<"@ + join(param_texts(form, parameters), ", "@) + ">"@
}

/// A where clause as it is written behind a header, or nothing.
pub open spec fn where_text(clause: Option<Seq<char>>) -> Seq<char> {
    match clause {
        Some(clause) => " "@ + clause,
        None => ""@,
    }
}

/// The derived struct alone:
/// `#[attribute] pub struct Name<generics> where_clause { fields }`.
pub open spec fn struct_text(declaration: DerivedDeclarationView) -> Seq<char> {
    attributes_text(declaration.attributes) + "pub struct "@ + declaration.target_name
        + generics_text(ParamForm::Declared, declaration.generic_parameters) + where_text(
        declaration.where_clause,
    ) + " { "@ + join(field_texts(declaration.fields), " "@) + " }"@
}

/// What a field of this type is given where nothing was given for it:
/// `None` for an optional field, `false` for a flag.
pub open spec fn absent_text(ty: DerivedTypeView) -> Seq<char> {
    match ty {
        DerivedTypeView::Optional(_) => "None"@,
        DerivedTypeView::Flag => "false"@,
        DerivedTypeView::Verbatim(_) => ""@,
    }
}

/// Each field as the all-absent value sets it: `name: None,` or
/// `name: false,`.
pub open spec fn absent_texts(fields: Seq<DerivedFieldView>) -> Seq<Seq<char>> {
    Seq::new(fields.len(), |i: int| fields[i].name + ": "@ + absent_text(fields[i].ty) + ","@)
}

/// The impl of `Default` for the derived struct, which makes the value in
/// which every optional field is absent and every flag is off. It asks
/// nothing of the type parameters beyond what the struct itself asks.
pub open spec fn default_impl_text(declaration: DerivedDeclarationView) -> Seq<char> {
    "impl"@ + generics_text(ParamForm::Bounded, declaration.generic_parameters)
        + " Default for "@ + declaration.target_name + generics_text(
        ParamForm::Named,
        declaration.generic_parameters,
    ) + where_text(declaration.where_clause) + " { fn default() -> Self { Self { "@ + join(
        absent_texts(declaration.fields),
        " "@,
    ) + " } } }"@
}

/// Whether the declaration is written with its all-absent value: the rule
/// promises one, and every field has a value of its own where nothing is
/// given.
pub open spec fn comes_with_default(declaration: DerivedDeclarationView) -> bool {
    declaration.with_default && default_constructible(declaration.fields)
}

/// The derived struct, and behind it the impl of `Default` where the
/// declaration comes with its all-absent value.
pub open spec fn declaration_text(declaration: DerivedDeclarationView) -> Seq<char> {
    if comes_with_default(declaration) {
        struct_text(declaration) + " "@ + default_impl_text(declaration)
    } else {
        struct_text(declaration)
    }
}

/// Each field as the conversion copies it: `name: value.name,`.
pub open spec fn copy_texts(fields: Seq<Seq<char>>) -> Seq<Seq<char>> {
    Seq::new(fields.len(), |i: int| fields[i] + ": value."@ + fields[i] + ","@)
}

/// The conversion into the derived struct: an impl of `From<Source<..>>`
/// for `Target<..>`, under the derived struct's generic parameters and
/// where clause, whose `from` copies each listed field by name.
pub open spec fn conversion_text(
    declaration: DerivedDeclarationView,
    conversion: ConversionView,
) -> Seq<char> {
    let introduced = generics_text(ParamForm::Bounded, declaration.generic_parameters);
    let used = generics_text(ParamForm::Named, declaration.generic_parameters);
    "impl"@ + introduced + " From<"@ + conversion.source_name + used + "> for "@
        + conversion.target_name + used + where_text(declaration.where_clause)
        + " { fn from(value: "@ + conversion.source_name + used + ") -> Self { Self { "@ + join(
        copy_texts(conversion.fields),
        " "@,
    ) + " } } }"@
}

/// How an arm matches its variant: nothing behind a unit variant, ` { .. }`
/// behind one with named fields, `(..)` behind one with unnamed fields.
pub open spec fn pattern_text(pattern: ArmPattern) -> Seq<char> {
    match pattern {
        ArmPattern::Unit => ""@,
        ArmPattern::Named => " { .. }"@,
        ArmPattern::Unnamed => "(..)"@,
    }
}

/// One arm of the dispatch: `Self::Variant(..) => Enumeration::Value,` for
/// a literal, `Self::Variant(inner) => inner.kind(),` where the arm
/// delegates.
pub open spec fn arm_text(arm: ClassifierArmView) -> Seq<char> {
    match arm.outcome {
        KindOutcomeView::Literal(value) => "Self::"@ + arm.variant + pattern_text(arm.pattern)
            + " => "@ + value.enumeration + "::"@ + value.variant + ","@,
        KindOutcomeView::Delegate => "Self::"@ + arm.variant + "(inner) => inner.kind(),"@,
    }
}

/// Every arm as it is written.
pub open spec fn arm_texts(arms: Seq<ClassifierArmView>) -> Seq<Seq<char>> {
    Seq::new(arms.len(), |i: int| arm_text(arms[i]))
}

/// The `kind` method of a classified enum: an inherent impl whose one
/// method matches on `self` with the table's arms and returns the home
/// enumeration.
pub open spec fn classifier_text(table: ClassifierTableView) -> Seq<char> {
    "impl "@ + table.source_name + " { pub fn kind(&self) -> "@ + table.home
        + " { match self { "@ + join(arm_texts(table.arms), " "@) + " } } }"@
}

/// Writes the attributes of an item, one after another.
fn write_attributes(attributes: &Vec<String>) -> (text: String)
    ensures
        text@ == attributes_text(attributes.deep_view()),
{
    let mut items: Vec<String> = Vec::new();
    let mut i: usize = 0;
    while i < attributes.len()
        invariant
            i <= attributes.len(),
            items.len() == i,
            forall|k: int|
                0 <= k < i ==> (#[trigger] items[k])@ == "#["@ + attributes[k]@ + "] "@,
        decreases attributes.len() - i,
    {
        let mut item = String::from_str("#[");
        item.append(attributes[i].as_str());
        item.append("] ");
        items.push(item);
        i += 1;
    }
    proof {
        assert(items.deep_view() =~= attribute_texts(attributes.deep_view()));
    }
    join_with(&items, "")
}

/// Writes a field.
fn write_field(field: &DerivedField) -> (text: String)
    ensures
        text@ == field_text(field.deep_view()),
{
    let mut text = write_attributes(&field.attributes);
    match &field.visibility {
        Visibility::Public => {
            text.append("pub ");
        },
        Visibility::Restricted(scope) => {
            text.append(scope.as_str());
            text.append(" ");
        },
        Visibility::Inherited => {
            text.append("");
        },
    }
    text.append(field.name.as_str());
    text.append(": ");
    match &field.ty {
        DerivedType::Verbatim(declared) => {
            text.append(declared.as_str());
        },
        DerivedType::Optional(declared) => {
            text.append("Option<");
            text.append(declared.as_str());
            text.append(">");
        },
        DerivedType::Flag => {
            text.append("bool");
        },
    }
    text.append(",");
    proof {
        assert(text@ =~= field_text(field.deep_view()));
    }
    text
}

/// Writes a generic parameter in the given place.
fn write_param(form: ParamForm, parameter: &GenericParam) -> (text: String)
    ensures
        text@ == param_text(form, parameter.deep_view()),
{
    let named = match form {
        ParamForm::Named => true,
        _ => false,
    };
    if named {
        return parameter.name.clone();
    }
    let mut text = match parameter.kind {
        ParamKind::Const => String::from_str("const "),
        _ => String::from_str(""),
    };
    text.append(parameter.name.as_str());
    match &parameter.bounds {
        Some(bounds) => {
            text.append(": ");
            text.append(bounds.as_str());
        },
        None => {
            text.append("");
        },
    }
    let declared = match form {
        ParamForm::Declared => true,
        _ => false,
    };
    if declared {
        match &parameter.default {
            Some(default) => {
                text.append(" = ");
                text.append(default.as_str());
            },
            None => {
                text.append("");
            },
        }
    }
    proof {
        assert(text@ =~= param_text(form, parameter.deep_view()));
    }
    text
}

/// Writes the generic parameters between angle brackets.
fn write_generics(form: ParamForm, parameters: &Vec<GenericParam>) -> (text: String)
    ensures
        text@ == generics_text(form, parameters.deep_view()),
{
    let mut items: Vec<String> = Vec::new();
    let mut i: usize = 0;
    while i < parameters.len()
        invariant
            i <= parameters.len(),
            items.len() == i,
            forall|k: int|
                0 <= k < i ==> (#[trigger] items[k])@ == param_text(
                    form,
                    parameters[k].deep_view(),
                ),
        decreases parameters.len() - i,
    {
        items.push(write_param(form, &parameters[i]));
        i += 1;
    }
    proof {
        assert(items.deep_view() =~= param_texts(form, parameters.deep_view()));
    }
    let mut text = String::from_str("<");
    text.append(join_with(&items, ", ").as_str());
    text.append(">");
    text
}

/// Writes a where clause behind a header.
fn write_where(clause: &Option<String>) -> (text: String)
    ensures
        text@ == where_text(clause.deep_view()),
{
    match clause {
        Some(clause) => {
            let mut text = String::from_str(" ");
            text.append(clause.as_str());
            text
        },
        None => String::from_str(""),
    }
}

/// Writes the derived struct alone.
fn write_struct(declaration: &DerivedDeclaration) -> (text: String)
    ensures
        text@ == struct_text(declaration.deep_view()),
{
    let mut fields: Vec<String> = Vec::new();
    let mut i: usize = 0;
    while i < declaration.fields.len()
        invariant
            i <= declaration.fields.len(),
            fields.len() == i,
            forall|k: int|
                0 <= k < i ==> (#[trigger] fields[k])@ == field_text(
                    declaration.fields[k].deep_view(),
                ),
        decreases declaration.fields.len() - i,
    {
        fields.push(write_field(&declaration.fields[i]));
        i += 1;
    }
    proof {
        assert(fields.deep_view() =~= field_texts(declaration.deep_view().fields));
    }
    let mut text = write_attributes(&declaration.attributes);
    text.append("pub struct ");
    text.append(declaration.target_name.as_str());
    text.append(write_generics(ParamForm::Declared, &declaration.generic_parameters).as_str());
    text.append(write_where(&declaration.where_clause).as_str());
    text.append(" { ");
    text.append(join_with(&fields, " ").as_str());
    text.append(" }");
    proof {
        assert(text@ =~= struct_text(declaration.deep_view()));
    }
    text
}

/// Writes the impl of `Default` for the derived struct.
fn write_default_impl(declaration: &DerivedDeclaration) -> (text: String)
    ensures
        text@ == default_impl_text(declaration.deep_view()),
{
    let mut values: Vec<String> = Vec::new();
    let mut i: usize = 0;
    while i < declaration.fields.len()
        invariant
            i <= declaration.fields.len(),
            values.len() == i,
            forall|k: int|
                0 <= k < i ==> (#[trigger] values[k])@ == declaration.fields[k].name@ + ": "@
                    + absent_text(declaration.fields[k].ty.deep_view()) + ","@,
        decreases declaration.fields.len() - i,
    {
        let mut item = declaration.fields[i].name.clone();
        item.append(": ");
        match &declaration.fields[i].ty {
            DerivedType::Optional(_) => {
                item.append("None");
            },
            DerivedType::Flag => {
                item.append("false");
            },
            DerivedType::Verbatim(_) => {
                item.append("");
            },
        }
        item.append(",");
        values.push(item);
        i += 1;
    }
    proof {
        assert(values.deep_view() =~= absent_texts(declaration.deep_view().fields));
    }
    let mut text = String::from_str("impl");
    text.append(write_generics(ParamForm::Bounded, &declaration.generic_parameters).as_str());
    text.append(" Default for ");
    text.append(declaration.target_name.as_str());
    text.append(write_generics(ParamForm::Named, &declaration.generic_parameters).as_str());
    text.append(write_where(&declaration.where_clause).as_str());
    text.append(" { fn default() -> Self { Self { ");
    text.append(join_with(&values, " ").as_str());
    text.append(" } } }");
    proof {
        assert(text@ =~= default_impl_text(declaration.deep_view()));
    }
    text
}

/// The derived struct as source text, with the impl of `Default` behind it
/// where the declaration comes with its all-absent value.
pub fn render_declaration(declaration: &DerivedDeclaration) -> (text: String)
    ensures
        text@ == declaration_text(declaration.deep_view()),
{
    let mut text = write_struct(declaration);
    if declaration.with_default {
        match declaration.default_instance() {
            Some(_) => {
                text.append(" ");
                text.append(write_default_impl(declaration).as_str());
            },
            None => {},
        }
    }
    text
}

/// The conversion into the derived struct as source text.
pub fn render_conversion(declaration: &DerivedDeclaration, conversion: &Conversion) -> (text:
    String)
    ensures
        text@ == conversion_text(declaration.deep_view(), conversion.deep_view()),
{
    let mut copies: Vec<String> = Vec::new();
    let mut i: usize = 0;
    while i < conversion.fields.len()
        invariant
            i <= conversion.fields.len(),
            copies.len() == i,
            forall|k: int|
                0 <= k < i ==> (#[trigger] copies[k])@ == conversion.fields[k]@ + ": value."@
                    + conversion.fields[k]@ + ","@,
        decreases conversion.fields.len() - i,
    {
        let mut item = conversion.fields[i].clone();
        item.append(": value.");
        item.append(conversion.fields[i].as_str());
        item.append(",");
        copies.push(item);
        i += 1;
    }
    proof {
        assert(copies.deep_view() =~= copy_texts(conversion.deep_view().fields));
    }
    let introduced = write_generics(ParamForm::Bounded, &declaration.generic_parameters);
    let used = write_generics(ParamForm::Named, &declaration.generic_parameters);
    let mut text = String::from_str("impl");
    text.append(introduced.as_str());
    text.append(" From<");
    text.append(conversion.source_name.as_str());
    text.append(used.as_str());
    text.append("> for ");
    text.append(conversion.target_name.as_str());
    text.append(used.as_str());
    text.append(write_where(&declaration.where_clause).as_str());
    text.append(" { fn from(value: ");
    text.append(conversion.source_name.as_str());
    text.append(used.as_str());
    text.append(") -> Self { Self { ");
    text.append(join_with(&copies, " ").as_str());
    text.append(" } } }");
    proof {
        assert(text@ =~= conversion_text(declaration.deep_view(), conversion.deep_view()));
    }
    text
}

/// Writes one arm of the dispatch.
fn write_arm(arm: &ClassifierArm) -> (text: String)
    ensures
        text@ == arm_text(arm.deep_view()),
{
    let mut text = String::from_str("Self::");
    text.append(arm.variant.as_str());
    match &arm.outcome {
        KindOutcome::Literal(value) => {
            match arm.pattern {
                ArmPattern::Unit => {
                    text.append("");
                },
                ArmPattern::Named => {
                    text.append(" { .. }");
                },
                ArmPattern::Unnamed => {
                    text.append("(..)");
                },
            }
            text.append(" => ");
            text.append(value.enumeration.as_str());
            text.append("::");
            text.append(value.variant.as_str());
            text.append(",");
        },
        KindOutcome::Delegate => {
            text.append("(inner) => inner.kind(),");
        },
    }
    proof {
        assert(text@ =~= arm_text(arm.deep_view()));
    }
    text
}

/// The `kind` method of a classified enum as source text.
pub fn render_classifier(table: &ClassifierTable) -> (text: String)
    ensures
        text@ == classifier_text(table.deep_view()),
{
    let mut arms: Vec<String> = Vec::new();
    let mut i: usize = 0;
    while i < table.arms.len()
        invariant
            i <= table.arms.len(),
            arms.len() == i,
            forall|k: int|
                0 <= k < i ==> (#[trigger] arms[k])@ == arm_text(table.arms[k].deep_view()),
        decreases table.arms.len() - i,
    {
        arms.push(write_arm(&table.arms[i]));
        i += 1;
    }
    proof {
        assert(arms.deep_view() =~= arm_texts(table.deep_view().arms));
    }
    let mut text = String::from_str("impl ");
    text.append(table.source_name.as_str());
    text.append(" { pub fn kind(&self) -> ");
    text.append(table.home.as_str());
    text.append(" { match self { ");
    text.append(join_with(&arms, " ").as_str());
    text.append(" } } }");
    proof {
        assert(text@ =~= classifier_text(table.deep_view()));
    }
    text
}

} // verus!
