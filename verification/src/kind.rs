//! The kind classifier: a total mapping from the variants of an enum to the
//! values of a second enumeration.

use crate::directive::{is_path, Directive, DirectiveView};
use crate::error::MacroError;
use crate::model::{
    extract, extracted, find_attribute, first_attribute, has_fitting_shape, shape_fits,
    DeclarationModel, DeclarationModelView, ModelBody, ModelBodyView, Rule, TypeDeclaration,
    TypeDeclarationView, VariantModel, VariantModelView, VariantShape, VariantShapeView,
};
use crate::text::text_is;
use crate::transform::carries;
use vstd::prelude::*;
use vstd::string::StringExecFns;

verus! {

/// A value of the second enumeration: the enumeration and its variant.
#[derive(Clone, Debug)]
pub struct KindValue {
    pub enumeration: String,
    pub variant: String,
}

/// The model of a [`KindValue`].
pub struct KindValueView {
    pub enumeration: Seq<char>,
    pub variant: Seq<char>,
}

impl DeepView for KindValue {
    type V = KindValueView;

    open spec fn deep_view(&self) -> KindValueView {
        KindValueView { enumeration: self.enumeration@, variant: self.variant@ }
    }
}

/// What a variant resolves to.
#[derive(Clone, Debug)]
pub enum KindOutcome {
    /// This value, whatever the variant holds.
    Literal(KindValue),
    /// The kind of the one value that the variant wraps.
    Delegate,
}

/// The model of a [`KindOutcome`].
pub enum KindOutcomeView {
    Literal(KindValueView),
    Delegate,
}

impl DeepView for KindOutcome {
    type V = KindOutcomeView;

    open spec fn deep_view(&self) -> KindOutcomeView {
        match self {
            KindOutcome::Literal(value) => KindOutcomeView::Literal(value.deep_view()),
            KindOutcome::Delegate => KindOutcomeView::Delegate,
        }
    }
}

/// How a dispatch arm matches its variant.
#[derive(Clone, Copy, Debug, PartialEq, Eq, Structural)]
pub enum ArmPattern {
    /// `Variant`.
    Unit,
    /// `Variant { .. }`.
    Named,
    /// `Variant(..)`.
    Unnamed,
}

/// One arm of the dispatch: a variant and what it resolves to.
#[derive(Clone, Debug)]
pub struct ClassifierArm {
    pub variant: String,
    pub pattern: ArmPattern,
    pub outcome: KindOutcome,
}

/// The model of a [`ClassifierArm`].
pub struct ClassifierArmView {
    pub variant: Seq<char>,
    pub pattern: ArmPattern,
    pub outcome: KindOutcomeView,
}

impl DeepView for ClassifierArm {
    type V = ClassifierArmView;

    open spec fn deep_view(&self) -> ClassifierArmView {
        ClassifierArmView {
            variant: self.variant@,
            pattern: self.pattern,
            outcome: self.outcome.deep_view(),
        }
    }
}

/// The dispatch from an enum to its kinds: one arm for each variant, in
/// declaration order, and the enumeration that the dispatch returns.
#[derive(Clone, Debug)]
pub struct ClassifierTable {
    pub source_name: String,
    pub home: String,
    pub arms: Vec<ClassifierArm>,
}

/// The model of a [`ClassifierTable`].
pub struct ClassifierTableView {
    pub source_name: Seq<char>,
    pub home: Seq<char>,
    pub arms: Seq<ClassifierArmView>,
}

impl DeepView for ClassifierTable {
    type V = ClassifierTableView;

    open spec fn deep_view(&self) -> ClassifierTableView {
        ClassifierTableView {
            source_name: self.source_name@,
            home: self.home@,
            arms: self.arms.deep_view(),
        }
    }
}

/// The first kind mapping among `directives[start..]`.
pub open spec fn first_mapping_from(directives: Seq<DirectiveView>, start: int) -> Option<
    KindValueView,
>
    decreases directives.len() - start,
{
    if start < 0 || start >= directives.len() {
        None
    } else {
        match directives[start] {
            DirectiveView::KindMapping(enumeration, variant) => Some(
                KindValueView { enumeration, variant },
            ),
            _ => first_mapping_from(directives, start + 1),
        }
    }
}

/// How an arm matches a variant of this shape.
pub open spec fn pattern_of(shape: VariantShapeView) -> ArmPattern {
    match shape {
        VariantShapeView::Unit => ArmPattern::Unit,
        VariantShapeView::Named(_) => ArmPattern::Named,
        VariantShapeView::Unnamed(_) => ArmPattern::Unnamed,
    }
}

/// What a variant resolves to. A kind mapping decides, whatever the
/// variant's shape. Without one, "transparent" delegates to the wrapped
/// value, and is legal only under the rule that knows it and on a variant
/// with exactly one unnamed field. A variant with neither has no kind.
pub open spec fn resolved(rule: Rule, variant: VariantModelView) -> Result<
    KindOutcomeView,
    MacroError,
> {
    match first_mapping_from(variant.directives, 0) {
        Some(value) => Ok(KindOutcomeView::Literal(value)),
        None => if variant.directives.contains(DirectiveView::Transparent) {
            if rule == Rule::Kind && variant.shape == VariantShapeView::Unnamed(1) {
                Ok(KindOutcomeView::Delegate)
            } else {
                Err(MacroError::MalformedAnnotation)
            }
        } else {
            Err(MacroError::MissingDirective)
        },
    }
}

/// The arm for a variant under a home enumeration. A literal of another
/// enumeration than the home is rejected.
pub open spec fn arm_of(rule: Rule, home: Seq<char>, variant: VariantModelView) -> Result<
    ClassifierArmView,
    MacroError,
> {
    match resolved(rule, variant) {
        Err(error) => Err(error),
        Ok(outcome) => if outcome matches KindOutcomeView::Literal(value) && value.enumeration
            != home {
            Err(MacroError::MalformedAnnotation)
        } else {
            Ok(
                ClassifierArmView {
                    variant: variant.name,
                    pattern: pattern_of(variant.shape),
                    outcome,
                },
            )
        },
    }
}

/// The arms for the first `n` variants, in order; the first variant
/// without an arm fails the whole.
pub open spec fn arms_upto(
    rule: Rule,
    home: Seq<char>,
    variants: Seq<VariantModelView>,
    n: int,
) -> Result<Seq<ClassifierArmView>, MacroError>
    decreases n,
{
    if n <= 0 {
        Ok(Seq::empty())
    } else {
        match arms_upto(rule, home, variants, n - 1) {
            Err(error) => Err(error),
            Ok(front) => match arm_of(rule, home, variants[n - 1]) {
                Ok(arm) => Ok(front.push(arm)),
                Err(error) => Err(error),
            },
        }
    }
}

/// The table for an enum under a home enumeration. Only an enum can be
/// classified, and one without variants has nothing to resolve.
pub open spec fn classifier(rule: Rule, model: DeclarationModelView, home: Seq<char>) -> Result<
    ClassifierTableView,
    MacroError,
> {
    match model.body {
        ModelBodyView::Struct(_) => Err(MacroError::UnsupportedShape),
        ModelBodyView::Enum(variants) => if variants.len() == 0 {
            Err(MacroError::MissingDirective)
        } else {
            match arms_upto(rule, home, variants, variants.len() as int) {
                Ok(arms) => Ok(ClassifierTableView { source_name: model.name, home, arms }),
                Err(error) => Err(error),
            }
        },
    }
}

/// The home enumeration where no annotation on the type names one: the
/// enumeration of the first variant's literal.
pub open spec fn literal_home(model: DeclarationModelView) -> Result<Seq<char>, MacroError> {
    match model.body {
        ModelBodyView::Struct(_) => Err(MacroError::UnsupportedShape),
        ModelBodyView::Enum(variants) => if variants.len() == 0 {
            Err(MacroError::MissingDirective)
        } else {
            match resolved(Rule::LiteralKind, variants[0]) {
                Ok(KindOutcomeView::Literal(value)) => Ok(value.enumeration),
                Ok(KindOutcomeView::Delegate) => Err(MacroError::MalformedAnnotation),
                Err(error) => Err(error),
            }
        },
    }
}

/// The table for an enum whose variants all carry a literal, under the
/// enumeration of the first.
pub open spec fn literal_classifier(model: DeclarationModelView) -> Result<
    ClassifierTableView,
    MacroError,
> {
    match literal_home(model) {
        Ok(home) => classifier(Rule::LiteralKind, model, home),
        Err(error) => Err(error),
    }
}

/// The home enumeration that the type's `error_kind` annotation names: its
/// first argument, a bare path. Without the annotation the directive is
/// missing; with another first argument it is malformed.
pub open spec fn kind_type(declaration: TypeDeclarationView) -> Result<Seq<char>, MacroError> {
    match first_attribute(declaration.annotations, "error_kind"@) {
        None => Err(MacroError::MissingDirective),
        Some(args) => if args.len() >= 1 && args[0] is Path {
            Ok(args[0].text())
        } else {
            Err(MacroError::MalformedAnnotation)
        },
    }
}

/// The table for an enum as it was written, under the home enumeration that
/// its own annotation names. What is no enum is an unsupported shape,
/// whatever it is annotated with; then the home is read, then the variants
/// are read and resolved.
pub open spec fn error_kind_table(declaration: TypeDeclarationView) -> Result<
    ClassifierTableView,
    MacroError,
> {
    if !shape_fits(Rule::Kind, declaration.body) {
        Err(MacroError::UnsupportedShape)
    } else {
        match kind_type(declaration) {
            Err(error) => Err(error),
            Ok(home) => match extracted(Rule::Kind, declaration) {
                Err(error) => Err(error),
                Ok(model) => classifier(Rule::Kind, model, home),
            },
        }
    }
}

/// The table for an enum as it was written whose variants all carry a
/// literal.
pub open spec fn impl_kind_table(declaration: TypeDeclarationView) -> Result<
    ClassifierTableView,
    MacroError,
> {
    match extracted(Rule::LiteralKind, declaration) {
        Err(error) => Err(error),
        Ok(model) => literal_classifier(model),
    }
}

/// The position of the first arm for `variant` among `arms[start..]`.
pub open spec fn arm_index_from(arms: Seq<ClassifierArmView>, variant: Seq<char>, start: int)
    -> Option<int>
    decreases arms.len() - start,
{
    if start < 0 || start >= arms.len() {
        None
    } else if arms[start].variant == variant {
        Some(start)
    } else {
        arm_index_from(arms, variant, start + 1)
    }
}

/// What the dispatch returns for a value of the variant named `variant`
/// whose wrapped value, where the arm asks for it, has the kind `inner`:
/// the literal of the variant's arm, or `inner` where the arm delegates.
/// There is no answer for a name that no arm carries.
pub open spec fn dispatched(
    table: ClassifierTableView,
    variant: Seq<char>,
    inner: KindValueView,
) -> Option<KindValueView> {
    match arm_index_from(table.arms, variant, 0) {
        Some(index) => match table.arms[index].outcome {
            KindOutcomeView::Literal(value) => Some(value),
            KindOutcomeView::Delegate => Some(inner),
        },
        None => None,
    }
}

/// A table or a failure, with the table taken by its model.
pub open spec fn table_outcome(outcome: Result<ClassifierTable, MacroError>) -> Result<
    ClassifierTableView,
    MacroError,
> {
    match outcome {
        Ok(table) => Ok(table.deep_view()),
        Err(error) => Err(error),
    }
}

/// The first kind mapping among the directives.
fn first_mapping(directives: &Vec<Directive>) -> (found: Option<KindValue>)
    ensures
        found.deep_view() == first_mapping_from(directives.deep_view(), 0),
{
    let ghost all = directives.deep_view();
    let mut i: usize = 0;
    while i < directives.len()
        invariant
            i <= directives.len(),
            all == directives.deep_view(),
            first_mapping_from(all, 0) == first_mapping_from(all, i as int),
        decreases directives.len() - i,
    {
        match &directives[i] {
            Directive::KindMapping(enumeration, variant) => {
                return Some(
                    KindValue { enumeration: enumeration.clone(), variant: variant.clone() },
                );
            },
            _ => {},
        }
        i += 1;
    }
    None
}

/// What a variant resolves to.
fn resolve(rule: Rule, variant: &VariantModel) -> (outcome: Result<KindOutcome, MacroError>)
    ensures
        match outcome {
            Ok(found) => resolved(rule, variant.deep_view()) == Ok::<KindOutcomeView, MacroError>(
                found.deep_view(),
            ),
            Err(error) => resolved(rule, variant.deep_view()) == Err::<
                KindOutcomeView,
                MacroError,
            >(error),
        },
{
    match first_mapping(&variant.directives) {
        Some(value) => Ok(KindOutcome::Literal(value)),
        None => {
            if carries(&variant.directives, &Directive::Transparent) {
                let wraps_one = match &variant.shape {
                    VariantShape::Unnamed(arity) => *arity == 1,
                    _ => false,
                };
                let knows_transparent = match rule {
                    Rule::Kind => true,
                    _ => false,
                };
                if knows_transparent && wraps_one {
                    Ok(KindOutcome::Delegate)
                } else {
                    Err(MacroError::MalformedAnnotation)
                }
            } else {
                Err(MacroError::MissingDirective)
            }
        },
    }
}

/// The arm for a variant under a home enumeration.
fn build_arm(rule: Rule, home: &str, variant: &VariantModel) -> (outcome: Result<
    ClassifierArm,
    MacroError,
>)
    ensures
        match outcome {
            Ok(arm) => arm_of(rule, home@, variant.deep_view()) == Ok::<
                ClassifierArmView,
                MacroError,
            >(arm.deep_view()),
            Err(error) => arm_of(rule, home@, variant.deep_view()) == Err::<
                ClassifierArmView,
                MacroError,
            >(error),
        },
{
    let outcome = match resolve(rule, variant) {
        Ok(outcome) => outcome,
        Err(error) => {
            return Err(error);
        },
    };
    let fits = match &outcome {
        KindOutcome::Literal(value) => text_is(&value.enumeration, home),
        KindOutcome::Delegate => true,
    };
    if !fits {
        return Err(MacroError::MalformedAnnotation);
    }
    let pattern = match &variant.shape {
        VariantShape::Unit => ArmPattern::Unit,
        VariantShape::Named(_) => ArmPattern::Named,
        VariantShape::Unnamed(_) => ArmPattern::Unnamed,
    };
    Ok(ClassifierArm { variant: variant.name.clone(), pattern, outcome })
}

/// A failure among the first variants is the failure of the whole.
proof fn lemma_arms_failure_stays(
    rule: Rule,
    home: Seq<char>,
    variants: Seq<VariantModelView>,
    n: int,
    m: int,
)
    requires
        0 <= n <= m,
        arms_upto(rule, home, variants, n) is Err,
    ensures
        arms_upto(rule, home, variants, m) == arms_upto(rule, home, variants, n),
    decreases m - n,
{
    if n < m {
        lemma_arms_failure_stays(rule, home, variants, n, m - 1);
    }
}

/// Builds the table for an enum under a home enumeration.
fn build_table(rule: Rule, model: &DeclarationModel, home: &str) -> (outcome: Result<
    ClassifierTable,
    MacroError,
>)
    ensures
        table_outcome(outcome) == classifier(rule, model.deep_view(), home@),
{
    let variants = match &model.body {
        ModelBody::Enum(variants) => variants,
        ModelBody::Struct(_) => {
            return Err(MacroError::UnsupportedShape);
        },
    };
    if variants.len() == 0 {
        return Err(MacroError::MissingDirective);
    }
    let ghost all = variants.deep_view();
    let mut arms: Vec<ClassifierArm> = Vec::new();
    proof {
        assert(arms.deep_view() =~= Seq::<ClassifierArmView>::empty());
    }
    let mut i: usize = 0;
    while i < variants.len()
        invariant
            i <= variants.len(),
            all == variants.deep_view(),
            all.len() > 0,
            model.deep_view().body == ModelBodyView::Enum(all),
            arms_upto(rule, home@, all, i as int) == Ok::<Seq<ClassifierArmView>, MacroError>(
                arms.deep_view(),
            ),
        decreases variants.len() - i,
    {
        match build_arm(rule, home, &variants[i]) {
            Ok(arm) => {
                let ghost front = arms.deep_view();
                let ghost image = arm.deep_view();
                arms.push(arm);
                proof {
                    assert(arms.deep_view() =~= front.push(image));
                }
            },
            Err(error) => {
                proof {
                    assert(all[i as int] == variants[i as int].deep_view());
                    assert(arms_upto(rule, home@, all, i + 1) == Err::<
                        Seq<ClassifierArmView>,
                        MacroError,
                    >(error));
                    lemma_arms_failure_stays(rule, home@, all, i + 1, all.len() as int);
                }
                return Err(error);
            },
        }
        i += 1;
    }
    Ok(
        ClassifierTable {
            source_name: model.name.clone(),
            home: String::from_str(home),
            arms,
        },
    )
}

/// The classifier of an enum under the home enumeration `home`: an arm for
/// every variant, in declaration order. A variant resolves to the literal
/// of its kind mapping, whatever its shape; without a mapping,
/// "transparent" on a variant with exactly one unnamed field delegates to
/// the wrapped value. It fails where the model is no enum or has no
/// variant, where a variant carries neither directive, where "transparent"
/// stands on another shape, and where a literal belongs to another
/// enumeration than `home`; of several failing variants the first decides.
pub fn derive_kind(model: &DeclarationModel, home: &str) -> (outcome: Result<
    ClassifierTable,
    MacroError,
>)
    ensures
        table_outcome(outcome) == classifier(Rule::Kind, model.deep_view(), home@),
{
    build_table(Rule::Kind, model, home)
}

/// The classifier of an enum whose variants all carry a kind mapping. The
/// home enumeration is that of the first variant, and every other variant
/// must map into the same one. "transparent" is not known here.
pub fn derive_literal_kind(model: &DeclarationModel) -> (outcome: Result<
    ClassifierTable,
    MacroError,
>)
    ensures
        table_outcome(outcome) == literal_classifier(model.deep_view()),
{
    let variants = match &model.body {
        ModelBody::Enum(variants) => variants,
        ModelBody::Struct(_) => {
            return Err(MacroError::UnsupportedShape);
        },
    };
    if variants.len() == 0 {
        return Err(MacroError::MissingDirective);
    }
    let home = match resolve(Rule::LiteralKind, &variants[0]) {
        Ok(KindOutcome::Literal(value)) => value.enumeration,
        Ok(KindOutcome::Delegate) => {
            return Err(MacroError::MalformedAnnotation);
        },
        Err(error) => {
            return Err(error);
        },
    };
    build_table(Rule::LiteralKind, model, home.as_str())
}

/// Reads the home enumeration from the type's `error_kind` annotation.
pub fn get_kind_ty(input: &TypeDeclaration) -> (outcome: Result<String, MacroError>)
    ensures
        match outcome {
            Ok(home) => kind_type(input.deep_view()) == Ok::<Seq<char>, MacroError>(home@),
            Err(error) => kind_type(input.deep_view()) == Err::<Seq<char>, MacroError>(error),
        },
{
    match find_attribute(input, "error_kind") {
        Some(args) => {
            if args.len() >= 1 && is_path(&args[0]) {
                Ok(args[0].text())
            } else {
                Err(MacroError::MalformedAnnotation)
            }
        },
        None => Err(MacroError::MissingDirective),
    }
}

/// The classifier of an enum as it was written, under the home enumeration
/// that its own `error_kind` annotation names.
pub fn error_kind_macro(input: &TypeDeclaration) -> (outcome: Result<ClassifierTable, MacroError>)
    ensures
        table_outcome(outcome) == error_kind_table(input.deep_view()),
{
    if !has_fitting_shape(Rule::Kind, input) {
        return Err(MacroError::UnsupportedShape);
    }
    let home = match get_kind_ty(input) {
        Ok(home) => home,
        Err(error) => {
            return Err(error);
        },
    };
    match extract(Rule::Kind, input) {
        Ok(model) => derive_kind(&model, home.as_str()),
        Err(error) => Err(error),
    }
}

/// The classifier of an enum as it was written whose variants all carry a
/// kind mapping.
pub fn impl_kind_macro(input: &TypeDeclaration) -> (outcome: Result<ClassifierTable, MacroError>)
    ensures
        table_outcome(outcome) == impl_kind_table(input.deep_view()),
{
    match extract(Rule::LiteralKind, input) {
        Ok(model) => derive_literal_kind(&model),
        Err(error) => Err(error),
    }
}

impl ClassifierTable {
    /// The kind of a value of the variant named `variant`. `inner` is the
    /// kind of the value that the variant wraps, which a delegating arm
    /// hands on; other arms do not read it. The first arm for the name
    /// decides, and a name without an arm has no kind.
    pub fn kind_of(&self, variant: &str, inner: &KindValue) -> (kind: Option<KindValue>)
        ensures
            kind.deep_view() == dispatched(self.deep_view(), variant@, inner.deep_view()),
    {
        let ghost all = self.arms.deep_view();
        let mut i: usize = 0;
        while i < self.arms.len()
            invariant
                i <= self.arms.len(),
                all == self.arms.deep_view(),
                arm_index_from(all, variant@, 0) == arm_index_from(all, variant@, i as int),
            decreases self.arms.len() - i,
        {
            if text_is(&self.arms[i].variant, variant) {
                return match &self.arms[i].outcome {
                    KindOutcome::Literal(value) => Some(
                        KindValue {
                            enumeration: value.enumeration.clone(),
                            variant: value.variant.clone(),
                        },
                    ),
                    KindOutcome::Delegate => Some(
                        KindValue {
                            enumeration: inner.enumeration.clone(),
                            variant: inner.variant.clone(),
                        },
                    ),
                };
            }
            i += 1;
        }
        None
    }
}

} // verus!
