//! What holds of every derivation and of every rendered statement.

use crate::directive::DirectiveView;
use crate::error::MacroError;
use crate::kind::{
    arm_index_from, arm_of, arms_upto, classifier, dispatched, first_mapping_from, resolved,
    ClassifierArmView, ClassifierTableView, KindValueView,
};
use crate::model::{
    carried_generics, extracted, extracted_field, extracted_fields_upto, extracted_variant,
    extracted_variants_upto, DeclarationBodyView, DeclarationModelView, FieldDeclarationView,
    FieldModelView, ModelBodyView, Rule, TypeDeclarationView, VariantDeclarationView,
    VariantModelView, VariantShapeView,
};
use crate::statement::{
    assignments, column_at, columns_upto, expansion, flattened, flattened_upto, literals_upto,
    bind_parameters, rendered, ArgumentView, StatementRequest, StatementVerb,
};
use crate::render::{
    absent_text, comes_with_default, declaration_text, default_impl_text, struct_text,
};
use crate::text::{join, lemma_join_preserves_order, offset_of};
use crate::transform::{
    default_constructible, default_name, default_of, derived, derived_field,
    derived_fields_upto, first_rename_from, listed, stated_whitelist, DerivedDeclarationView,
    DerivedTypeView, FieldDefault,
};
use vstd::prelude::*;

verus! {

/// The place of source field `i` in the result, if the rule keeps it: the
/// number of fields kept before it.
pub open spec fn place(
    rule: Rule,
    whitelist: Seq<bool>,
    fields: Seq<FieldModelView>,
    i: int,
) -> int {
    derived_fields_upto(rule, whitelist, fields, i).len() as int
}

/// A kept field stands at its place in the result of every longer prefix.
pub proof fn lemma_kept_field_stands(
    rule: Rule,
    whitelist: Seq<bool>,
    fields: Seq<FieldModelView>,
    i: int,
    n: int,
)
    requires
        0 <= i < n,
        derived_field(rule, listed(whitelist, i), fields[i]) is Some,
    ensures
        place(rule, whitelist, fields, i) < place(rule, whitelist, fields, n),
        derived_fields_upto(rule, whitelist, fields, n)[place(rule, whitelist, fields, i)] == (
        derived_field(rule, listed(whitelist, i), fields[i])->0),
    decreases n - i,
{
    if i + 1 < n {
        lemma_kept_field_stands(rule, whitelist, fields, i, n - 1);
    }
}

/// Every field of the result is the image of a kept source field, which
/// stands at that field's place.
pub proof fn lemma_result_field_has_source(
    rule: Rule,
    whitelist: Seq<bool>,
    fields: Seq<FieldModelView>,
    n: int,
    p: int,
) -> (i: int)
    requires
        0 <= p < place(rule, whitelist, fields, n),
    ensures
        0 <= i < n,
        derived_field(rule, listed(whitelist, i), fields[i]) is Some,
        place(rule, whitelist, fields, i) == p,
        derived_fields_upto(rule, whitelist, fields, n)[p] == (derived_field(
            rule,
            listed(whitelist, i),
            fields[i],
        )->0),
    decreases n,
{
    if derived_field(rule, listed(whitelist, n - 1), fields[n - 1]) is Some && p == place(
        rule,
        whitelist,
        fields,
        n - 1,
    ) {
        n - 1
    } else {
        lemma_result_field_has_source(rule, whitelist, fields, n - 1, p)
    }
}

/// The values rule keeps exactly the fields that carry no "skip": each
/// stands in the result under its own name and with its declared type,
/// kept fields stand in source order, and the result holds nothing else.
pub proof fn law_values_keep_unskipped_fields(
    model: DeclarationModelView,
    fields: Seq<FieldModelView>,
)
    requires
        model.body == ModelBodyView::Struct(fields),
    ensures
        derived(Rule::Values, Seq::<bool>::empty(), model) is Ok,
        ({
            let out = derived(Rule::Values, Seq::<bool>::empty(), model)->Ok_0.fields;
            let at = |i: int| place(Rule::Values, Seq::<bool>::empty(), fields, i);
            &&& forall|i: int|
                0 <= i < fields.len() && !(#[trigger] fields[i]).directives.contains(
                    DirectiveView::Skip,
                ) ==> 0 <= at(i) < out.len() && out[at(i)].name == fields[i].name && out[at(i)].ty
                    == DerivedTypeView::Verbatim(fields[i].declared_type)
            &&& forall|i: int, j: int|
                0 <= i < j < fields.len() && !(#[trigger] fields[i]).directives.contains(
                    DirectiveView::Skip,
                ) && !(#[trigger] fields[j]).directives.contains(DirectiveView::Skip) ==> at(i)
                    < at(j)
            &&& forall|p: int|
                0 <= p < out.len() ==> exists|i: int|
                    0 <= i < fields.len() && !(#[trigger] fields[i]).directives.contains(
                        DirectiveView::Skip,
                    ) && at(i) == p && (#[trigger] out[p]).name == fields[i].name
        }),
{
    let rule = Rule::Values;
    let none = Seq::<bool>::empty();
    let out = derived(rule, none, model)->Ok_0.fields;
    let n = fields.len() as int;
    assert(out == derived_fields_upto(rule, none, fields, n));
    assert forall|i: int|
        0 <= i < fields.len() && !(#[trigger] fields[i]).directives.contains(
            DirectiveView::Skip,
        ) implies 0 <= place(rule, none, fields, i) < out.len() && out[place(
        rule,
        none,
        fields,
        i,
    )].name == fields[i].name && out[place(rule, none, fields, i)].ty
        == DerivedTypeView::Verbatim(fields[i].declared_type) by {
        lemma_kept_field_stands(rule, none, fields, i, n);
    }
    assert forall|i: int, j: int|
        0 <= i < j < fields.len() && !(#[trigger] fields[i]).directives.contains(
            DirectiveView::Skip,
        ) && !(#[trigger] fields[j]).directives.contains(DirectiveView::Skip) implies place(
        rule,
        none,
        fields,
        i,
    ) < place(rule, none, fields, j) by {
        lemma_kept_field_stands(rule, none, fields, i, j);
    }
    assert forall|p: int| 0 <= p < out.len() implies exists|i: int|
        0 <= i < fields.len() && !(#[trigger] fields[i]).directives.contains(
            DirectiveView::Skip,
        ) && place(rule, none, fields, i) == p && (#[trigger] out[p]).name == fields[i].name by {
        let i = lemma_result_field_has_source(rule, none, fields, n, p);
        assert(!fields[i].directives.contains(DirectiveView::Skip));
    }
}

/// The two value rules keep the same fields.
proof fn lemma_opt_values_mirror(fields: Seq<FieldModelView>, n: int)
    ensures
        ({
            let plain = derived_fields_upto(Rule::Values, Seq::<bool>::empty(), fields, n);
            let wrapped = derived_fields_upto(Rule::OptValues, Seq::<bool>::empty(), fields, n);
            &&& plain.len() == wrapped.len()
            &&& forall|p: int|
                0 <= p < plain.len() ==> (#[trigger] wrapped[p]).name == plain[p].name
                    && plain[p].ty is Verbatim && wrapped[p].ty == DerivedTypeView::Optional(
                    plain[p].ty->Verbatim_0,
                )
        }),
    decreases n,
{
    if n > 0 {
        lemma_opt_values_mirror(fields, n - 1);
    }
}

/// The optional-values rule gives the fields of the values rule, in the
/// same order and under the same names, each type wrapped optional; and the
/// value in which every field is absent can be made.
pub proof fn law_opt_values_wrap_values(model: DeclarationModelView, fields: Seq<FieldModelView>)
    requires
        model.body == ModelBodyView::Struct(fields),
    ensures
        derived(Rule::Values, Seq::<bool>::empty(), model) is Ok,
        derived(Rule::OptValues, Seq::<bool>::empty(), model) is Ok,
        ({
            let plain = derived(Rule::Values, Seq::<bool>::empty(), model)->Ok_0.fields;
            let wrapped = derived(Rule::OptValues, Seq::<bool>::empty(), model)->Ok_0.fields;
            &&& plain.len() == wrapped.len()
            &&& forall|p: int|
                0 <= p < plain.len() ==> (#[trigger] wrapped[p]).name == plain[p].name
                    && plain[p].ty is Verbatim && wrapped[p].ty == DerivedTypeView::Optional(
                    plain[p].ty->Verbatim_0,
                )
            &&& default_constructible(wrapped)
            &&& forall|p: int|
                0 <= p < wrapped.len() ==> default_of((#[trigger] wrapped[p]).ty) == Some(
                    FieldDefault::Absent,
                )
        }),
{
    lemma_opt_values_mirror(fields, fields.len() as int);
}

/// The partial rule keeps every field, in place.
proof fn lemma_partial_keeps_all(whitelist: Seq<bool>, fields: Seq<FieldModelView>, n: int)
    requires
        0 <= n <= fields.len(),
    ensures
        ({
            let out = derived_fields_upto(Rule::Partial, whitelist, fields, n);
            &&& out.len() == n
            &&& forall|i: int|
                0 <= i < n ==> Some(#[trigger] out[i]) == derived_field(
                    Rule::Partial,
                    listed(whitelist, i),
                    fields[i],
                )
        }),
    decreases n,
{
    if n > 0 {
        lemma_partial_keeps_all(whitelist, fields, n - 1);
    }
}

/// Under the partial rule every field of the source is kept, in place and
/// under its name: with its declared type where the whitelist marks its
/// position, and with that type wrapped optional where it does not.
pub proof fn law_partial_requires_whitelisted_fields(
    model: DeclarationModelView,
    fields: Seq<FieldModelView>,
    whitelist: Seq<bool>,
)
    requires
        model.body == ModelBodyView::Struct(fields),
    ensures
        derived(Rule::Partial, whitelist, model) is Ok,
        ({
            let out = derived(Rule::Partial, whitelist, model)->Ok_0.fields;
            &&& out.len() == fields.len()
            &&& forall|i: int|
                0 <= i < fields.len() ==> (#[trigger] out[i]).name == fields[i].name && out[i].ty
                    == if listed(whitelist, i) {
                    DerivedTypeView::Verbatim(fields[i].declared_type)
                } else {
                    DerivedTypeView::Optional(fields[i].declared_type)
                }
        }),
{
    lemma_partial_keeps_all(whitelist, fields, fields.len() as int);
}

/// Under the whitelist that a model states itself, the partial rule goes by
/// each field's own mark: a field that carries "always" keeps its declared
/// type, and every other field has that type wrapped optional, whatever the
/// type is and whatever the fields are called.
pub proof fn law_partial_follows_the_marks(
    model: DeclarationModelView,
    fields: Seq<FieldModelView>,
)
    requires
        model.body == ModelBodyView::Struct(fields),
    ensures
        derived(Rule::Partial, stated_whitelist(model), model) is Ok,
        ({
            let out = derived(Rule::Partial, stated_whitelist(model), model)->Ok_0.fields;
            &&& out.len() == fields.len()
            &&& forall|i: int|
                0 <= i < fields.len() ==> (#[trigger] out[i]).name == fields[i].name && out[i].ty
                    == if fields[i].directives.contains(DirectiveView::Always) {
                    DerivedTypeView::Verbatim(fields[i].declared_type)
                } else {
                    DerivedTypeView::Optional(fields[i].declared_type)
                }
        }),
{
    law_partial_requires_whitelisted_fields(model, fields, stated_whitelist(model));
}

/// The partial and the options result of one struct divide its fields
/// between them by the same mark: a field is required in the one exactly
/// where it has no flag in the other.
pub proof fn law_partial_requires_what_options_leave_out(
    model: DeclarationModelView,
    fields: Seq<FieldModelView>,
    i: int,
)
    requires
        model.body == ModelBodyView::Struct(fields),
        0 <= i < fields.len(),
    ensures
        derived(Rule::Partial, stated_whitelist(model), model) is Ok,
        derived(Rule::Partial, stated_whitelist(model), model)->Ok_0.fields[i].ty is Verbatim
            <==> derived_field(Rule::Options, false, fields[i]) is None,
{
    law_partial_follows_the_marks(model, fields);
}

/// The options rule leaves out exactly the fields that carry "always":
/// every other field stands in the result under its name as a flag, in
/// source order; the result holds nothing else; and a flag that is not
/// given is off.
pub proof fn law_options_flag_unmarked_fields(
    model: DeclarationModelView,
    fields: Seq<FieldModelView>,
)
    requires
        model.body == ModelBodyView::Struct(fields),
    ensures
        derived(Rule::Options, Seq::<bool>::empty(), model) is Ok,
        ({
            let out = derived(Rule::Options, Seq::<bool>::empty(), model)->Ok_0.fields;
            let at = |i: int| place(Rule::Options, Seq::<bool>::empty(), fields, i);
            &&& forall|i: int|
                0 <= i < fields.len() && !(#[trigger] fields[i]).directives.contains(
                    DirectiveView::Always,
                ) ==> 0 <= at(i) < out.len() && out[at(i)].name == fields[i].name && out[at(i)].ty
                    == DerivedTypeView::Flag
            &&& forall|i: int, j: int|
                0 <= i < j < fields.len() && !(#[trigger] fields[i]).directives.contains(
                    DirectiveView::Always,
                ) && !(#[trigger] fields[j]).directives.contains(DirectiveView::Always) ==> at(i)
                    < at(j)
            &&& forall|p: int|
                0 <= p < out.len() ==> exists|i: int|
                    0 <= i < fields.len() && !(#[trigger] fields[i]).directives.contains(
                        DirectiveView::Always,
                    ) && at(i) == p && (#[trigger] out[p]).name == fields[i].name
            &&& default_constructible(out)
            &&& forall|p: int|
                0 <= p < out.len() ==> default_of((#[trigger] out[p]).ty) == Some(
                    FieldDefault::False,
                )
        }),
{
    let rule = Rule::Options;
    let none = Seq::<bool>::empty();
    let out = derived(rule, none, model)->Ok_0.fields;
    let n = fields.len() as int;
    assert(out == derived_fields_upto(rule, none, fields, n));
    assert forall|i: int|
        0 <= i < fields.len() && !(#[trigger] fields[i]).directives.contains(
            DirectiveView::Always,
        ) implies 0 <= place(rule, none, fields, i) < out.len() && out[place(
        rule,
        none,
        fields,
        i,
    )].name == fields[i].name && out[place(rule, none, fields, i)].ty
        == DerivedTypeView::Flag by {
        lemma_kept_field_stands(rule, none, fields, i, n);
    }
    assert forall|i: int, j: int|
        0 <= i < j < fields.len() && !(#[trigger] fields[i]).directives.contains(
            DirectiveView::Always,
        ) && !(#[trigger] fields[j]).directives.contains(DirectiveView::Always) implies place(
        rule,
        none,
        fields,
        i,
    ) < place(rule, none, fields, j) by {
        lemma_kept_field_stands(rule, none, fields, i, j);
    }
    assert forall|p: int| 0 <= p < out.len() implies (exists|i: int|
        0 <= i < fields.len() && !(#[trigger] fields[i]).directives.contains(
            DirectiveView::Always,
        ) && place(rule, none, fields, i) == p && (#[trigger] out[p]).name == fields[i].name)
        && default_of(out[p].ty) == Some(FieldDefault::False) by {
        let i = lemma_result_field_has_source(rule, none, fields, n, p);
        assert(!fields[i].directives.contains(DirectiveView::Always));
    }
}

/// The result of the optional-values rule and that of the options rule are
/// written with their all-absent value: behind the struct stands an impl of
/// `Default` that gives every field `None` under the one rule and `false`
/// under the other.
pub proof fn law_absent_value_is_written(
    rule: Rule,
    model: DeclarationModelView,
    fields: Seq<FieldModelView>,
)
    requires
        model.body == ModelBodyView::Struct(fields),
        rule == Rule::OptValues || rule == Rule::Options,
    ensures
        derived(rule, Seq::<bool>::empty(), model) is Ok,
        ({
            let out = derived(rule, Seq::<bool>::empty(), model)->Ok_0;
            &&& comes_with_default(out)
            &&& declaration_text(out) == struct_text(out) + " "@ + default_impl_text(out)
            &&& forall|p: int|
                0 <= p < out.fields.len() ==> absent_text((#[trigger] out.fields[p]).ty) == if rule
                    == Rule::OptValues {
                    "None"@
                } else {
                    "false"@
                }
        }),
{
    if rule == Rule::OptValues {
        law_opt_values_wrap_values(model, fields);
    } else {
        law_options_flag_unmarked_fields(model, fields);
    }
}

/// Whether no two fields go by the same name.
pub open spec fn distinct_names(fields: Seq<FieldModelView>) -> bool {
    forall|i: int, j: int|
        0 <= i < j < fields.len() ==> (#[trigger] fields[i]).name != (#[trigger] fields[j]).name
}

/// Where no two fields of the struct go by the same name, the options
/// result has no flag under the name of a field that carries "always": a
/// caller has nothing by which to switch such a field off.
pub proof fn law_options_name_no_always_field(
    model: DeclarationModelView,
    fields: Seq<FieldModelView>,
    i: int,
)
    requires
        model.body == ModelBodyView::Struct(fields),
        distinct_names(fields),
        0 <= i < fields.len(),
        fields[i].directives.contains(DirectiveView::Always),
    ensures
        derived(Rule::Options, Seq::<bool>::empty(), model) is Ok,
        forall|p: int|
            0 <= p < derived(Rule::Options, Seq::<bool>::empty(), model)->Ok_0.fields.len() ==> (
            #[trigger] derived(Rule::Options, Seq::<bool>::empty(), model)->Ok_0.fields[p]).name
                != fields[i].name,
{
    let none = Seq::<bool>::empty();
    let out = derived(Rule::Options, none, model)->Ok_0.fields;
    let n = fields.len() as int;
    assert forall|p: int| 0 <= p < out.len() implies (#[trigger] out[p]).name
        != fields[i].name by {
        let j = lemma_result_field_has_source(Rule::Options, none, fields, n, p);
        assert(!fields[j].directives.contains(DirectiveView::Always));
        if j < i {
            assert(fields[j].name != fields[i].name);
        } else {
            assert(fields[i].name != fields[j].name);
        }
    }
}

/// Where no two fields of the struct go by the same name, the values
/// result has no field under the name of a field that carries "skip".
pub proof fn law_values_name_no_skipped_field(
    model: DeclarationModelView,
    fields: Seq<FieldModelView>,
    i: int,
)
    requires
        model.body == ModelBodyView::Struct(fields),
        distinct_names(fields),
        0 <= i < fields.len(),
        fields[i].directives.contains(DirectiveView::Skip),
    ensures
        derived(Rule::Values, Seq::<bool>::empty(), model) is Ok,
        forall|p: int|
            0 <= p < derived(Rule::Values, Seq::<bool>::empty(), model)->Ok_0.fields.len() ==> (
            #[trigger] derived(Rule::Values, Seq::<bool>::empty(), model)->Ok_0.fields[p]).name
                != fields[i].name,
{
    let none = Seq::<bool>::empty();
    let out = derived(Rule::Values, none, model)->Ok_0.fields;
    let n = fields.len() as int;
    assert forall|p: int| 0 <= p < out.len() implies (#[trigger] out[p]).name
        != fields[i].name by {
        let j = lemma_result_field_has_source(Rule::Values, none, fields, n, p);
        assert(!fields[j].directives.contains(DirectiveView::Skip));
        if j < i {
            assert(fields[j].name != fields[i].name);
        } else {
            assert(fields[i].name != fields[j].name);
        }
    }
}

/// Whether the rule names its result itself.
pub open spec fn names_itself(rule: Rule) -> bool {
    rule == Rule::Values || rule == Rule::OptValues || rule == Rule::Partial || rule
        == Rule::Options
}

/// An override on the type decides the name of the result, whatever the
/// rule's default would be: of two structs that differ in nothing but the
/// directives on the type, the one with an override has a result that
/// goes by the override, and that differs from the other's result in
/// nothing but the name.
pub proof fn law_rename_decides_name(
    rule: Rule,
    whitelist: Seq<bool>,
    other: DeclarationModelView,
    renamed: DeclarationModelView,
    name: Seq<char>,
)
    requires
        names_itself(rule),
        other.body is Struct,
        renamed == (DeclarationModelView { directives: renamed.directives, ..other }),
        first_rename_from(renamed.directives, 0) == Some(name),
    ensures
        derived(rule, whitelist, other) is Ok,
        derived(rule, whitelist, renamed) is Ok,
        derived(rule, whitelist, renamed)->Ok_0.target_name == name,
        derived(rule, whitelist, renamed)->Ok_0 == (DerivedDeclarationView {
            target_name: name,
            ..derived(rule, whitelist, other)->Ok_0
        }),
{
}

/// Without an override on the type the result goes by the rule's default
/// name: `<Name>Values`, `<Name>OptValues`, `Partial<Name>` or
/// `<Name>Options`.
pub proof fn law_default_name_without_rename(
    rule: Rule,
    whitelist: Seq<bool>,
    model: DeclarationModelView,
)
    requires
        names_itself(rule),
        model.body is Struct,
        forall|k: int| 0 <= k < model.directives.len() ==> !(#[trigger] model.directives[k] is Rename),
    ensures
        derived(rule, whitelist, model) is Ok,
        derived(rule, whitelist, model)->Ok_0.target_name == default_name(rule, model.name),
{
    lemma_no_rename(model.directives, 0);
}

/// Directives without an override give none.
proof fn lemma_no_rename(directives: Seq<DirectiveView>, start: int)
    requires
        0 <= start,
        forall|k: int| 0 <= k < directives.len() ==> !(#[trigger] directives[k] is Rename),
    ensures
        first_rename_from(directives, start) is None,
    decreases directives.len() - start,
{
    if start < directives.len() {
        lemma_no_rename(directives, start + 1);
    }
}

/// The arms of a table stand for the variants, one for one and in order.
proof fn lemma_arms_follow_variants(
    rule: Rule,
    home: Seq<char>,
    variants: Seq<VariantModelView>,
    n: int,
)
    requires
        0 <= n <= variants.len(),
        arms_upto(rule, home, variants, n) is Ok,
    ensures
        arms_upto(rule, home, variants, n)->Ok_0.len() == n,
        forall|i: int|
            0 <= i < n ==> arm_of(rule, home, #[trigger] variants[i]) == Ok::<
                ClassifierArmView,
                MacroError,
            >(arms_upto(rule, home, variants, n)->Ok_0[i]),
    decreases n,
{
    if n > 0 {
        lemma_arms_follow_variants(rule, home, variants, n - 1);
    }
}

/// A name that some arm carries from `start` on is found.
proof fn lemma_arm_is_found(arms: Seq<ClassifierArmView>, variant: Seq<char>, start: int, i: int)
    requires
        0 <= start <= i < arms.len(),
        arms[i].variant == variant,
    ensures
        arm_index_from(arms, variant, start) is Some,
        start <= arm_index_from(arms, variant, start)->0 <= i,
        arms[arm_index_from(arms, variant, start)->0].variant == variant,
    decreases i - start,
{
    if arms[start].variant != variant {
        lemma_arm_is_found(arms, variant, start + 1, i);
    }
}

/// Where the variants fail from some point on, so does the whole.
proof fn lemma_unresolved_variant_fails(
    rule: Rule,
    home: Seq<char>,
    variants: Seq<VariantModelView>,
    i: int,
    n: int,
)
    requires
        0 <= i < n,
        arm_of(rule, home, variants[i]) is Err,
    ensures
        arms_upto(rule, home, variants, n) is Err,
    decreases n - i,
{
    if i + 1 < n {
        lemma_unresolved_variant_fails(rule, home, variants, i, n - 1);
    }
}

/// A derived classifier is total: it has one arm for each variant of the
/// enum, in declaration order and under the variant's name, each arm is
/// what the variant resolves to, and the dispatch has an answer for every
/// variant of the enum.
pub proof fn law_classifier_is_total(
    rule: Rule,
    model: DeclarationModelView,
    variants: Seq<VariantModelView>,
    home: Seq<char>,
    table: ClassifierTableView,
    i: int,
    inner: KindValueView,
)
    requires
        model.body == ModelBodyView::Enum(variants),
        classifier(rule, model, home) == Ok::<ClassifierTableView, MacroError>(table),
        0 <= i < variants.len(),
    ensures
        table.arms.len() == variants.len(),
        table.arms[i].variant == variants[i].name,
        resolved(rule, variants[i]) == Ok::<_, MacroError>(table.arms[i].outcome),
        dispatched(table, variants[i].name, inner) is Some,
{
    lemma_arms_follow_variants(rule, home, variants, variants.len() as int);
    lemma_arm_is_found(table.arms, variants[i].name, 0, i);
}

/// A variant that carries neither a kind mapping nor "transparent" fails
/// the derivation: no table is made for an enum that holds one.
pub proof fn law_unannotated_variant_fails(
    rule: Rule,
    model: DeclarationModelView,
    variants: Seq<VariantModelView>,
    home: Seq<char>,
    i: int,
)
    requires
        model.body == ModelBodyView::Enum(variants),
        0 <= i < variants.len(),
        forall|k: int|
            0 <= k < variants[i].directives.len() ==> !(
            #[trigger] variants[i].directives[k] is KindMapping) && !(
            variants[i].directives[k] is Transparent),
    ensures
        classifier(rule, model, home) is Err,
{
    lemma_no_mapping(variants[i].directives, 0);
    assert(!variants[i].directives.contains(DirectiveView::Transparent));
    lemma_unresolved_variant_fails(rule, home, variants, i, variants.len() as int);
}

/// Directives without a kind mapping give none.
proof fn lemma_no_mapping(directives: Seq<DirectiveView>, start: int)
    requires
        0 <= start,
        forall|k: int| 0 <= k < directives.len() ==> !(#[trigger] directives[k] is KindMapping),
    ensures
        first_mapping_from(directives, start) is None,
    decreases directives.len() - start,
{
    if start < directives.len() {
        lemma_no_mapping(directives, start + 1);
    }
}

/// Whether a variant resolves under a home enumeration: its first kind
/// mapping, where it has one, names the home; without a mapping it carries
/// "transparent" under the rule that knows it and wraps exactly one unnamed
/// field.
pub open spec fn well_annotated(rule: Rule, home: Seq<char>, variant: VariantModelView) -> bool {
    match first_mapping_from(variant.directives, 0) {
        Some(value) => value.enumeration == home,
        None => rule == Rule::Kind && variant.directives.contains(DirectiveView::Transparent)
            && variant.shape == VariantShapeView::Unnamed(1),
    }
}

/// The arms of the first variants are made where each of them resolves,
/// and only there.
proof fn lemma_arms_made_where_annotated(
    rule: Rule,
    home: Seq<char>,
    variants: Seq<VariantModelView>,
    n: int,
)
    requires
        0 <= n <= variants.len(),
    ensures
        arms_upto(rule, home, variants, n) is Ok <==> forall|i: int|
            0 <= i < n ==> well_annotated(rule, home, #[trigger] variants[i]),
    decreases n,
{
    if n > 0 {
        lemma_arms_made_where_annotated(rule, home, variants, n - 1);
        if arms_upto(rule, home, variants, n) is Ok {
            assert forall|i: int| 0 <= i < n implies well_annotated(
                rule,
                home,
                #[trigger] variants[i],
            ) by {
                if i == n - 1 {
                    assert(arm_of(rule, home, variants[n - 1]) is Ok);
                }
            }
        } else if arms_upto(rule, home, variants, n - 1) is Ok {
            assert(arm_of(rule, home, variants[n - 1]) is Err);
            assert(!well_annotated(rule, home, variants[n - 1]));
        }
    }
}

/// A classifier is derived exactly for an enum that has a variant and whose
/// variants all resolve under the home enumeration.
pub proof fn law_annotated_enum_is_classified(
    rule: Rule,
    model: DeclarationModelView,
    home: Seq<char>,
)
    ensures
        classifier(rule, model, home) is Ok <==> (model.body matches ModelBodyView::Enum(variants)
            && variants.len() > 0 && forall|i: int|
            0 <= i < variants.len() ==> well_annotated(rule, home, #[trigger] variants[i])),
{
    match model.body {
        ModelBodyView::Enum(variants) => {
            lemma_arms_made_where_annotated(rule, home, variants, variants.len() as int);
        },
        ModelBodyView::Struct(_) => {},
    }
}

/// The first `n` members are read one for one where all of them can be
/// read.
proof fn lemma_fields_read_in_place(rule: Rule, fields: Seq<FieldDeclarationView>, n: int)
    requires
        0 <= n <= fields.len(),
        extracted_fields_upto(rule, fields, n) is Ok,
    ensures
        extracted_fields_upto(rule, fields, n)->Ok_0.len() == n,
        forall|i: int|
            0 <= i < n ==> extracted_field(rule, #[trigger] fields[i]) == Ok::<
                FieldModelView,
                MacroError,
            >(extracted_fields_upto(rule, fields, n)->Ok_0[i]),
    decreases n,
{
    if n > 0 {
        lemma_fields_read_in_place(rule, fields, n - 1);
    }
}

/// The first `n` variants are read one for one where all of them can be
/// read.
proof fn lemma_variants_read_in_place(rule: Rule, variants: Seq<VariantDeclarationView>, n: int)
    requires
        0 <= n <= variants.len(),
        extracted_variants_upto(rule, variants, n) is Ok,
    ensures
        extracted_variants_upto(rule, variants, n)->Ok_0.len() == n,
        forall|i: int|
            0 <= i < n ==> extracted_variant(rule, #[trigger] variants[i]) == Ok::<
                VariantModelView,
                MacroError,
            >(extracted_variants_upto(rule, variants, n)->Ok_0[i]),
    decreases n,
{
    if n > 0 {
        lemma_variants_read_in_place(rule, variants, n - 1);
    }
}

/// Reading a declaration keeps its name, its lifetime and type parameters
/// and its where clause, and keeps its members one for one in declaration
/// order: each
/// field with its name, declared type and visibility, each variant with its
/// name and shape.
pub proof fn law_extraction_keeps_declaration_order(
    rule: Rule,
    declaration: TypeDeclarationView,
    model: DeclarationModelView,
)
    requires
        extracted(rule, declaration) == Ok::<DeclarationModelView, MacroError>(model),
    ensures
        model.name == declaration.name,
        model.generic_parameters == carried_generics(declaration.generics),
        model.where_clause == declaration.where_clause,
        match model.body {
            ModelBodyView::Struct(fields) => declaration.body matches DeclarationBodyView::NamedStruct(
                declared,
            ) && fields.len() == declared.len() && forall|i: int|
                0 <= i < fields.len() ==> (#[trigger] fields[i]).name == declared[i].name
                    && fields[i].declared_type == declared[i].declared_type
                    && fields[i].visibility == declared[i].visibility,
            ModelBodyView::Enum(variants) => declaration.body matches DeclarationBodyView::Enum(
                declared,
            ) && variants.len() == declared.len() && forall|i: int|
                0 <= i < variants.len() ==> (#[trigger] variants[i]).name == declared[i].name
                    && variants[i].shape == declared[i].shape,
        },
{
    match declaration.body {
        DeclarationBodyView::NamedStruct(declared) => {
            lemma_fields_read_in_place(rule, declared, declared.len() as int);
        },
        DeclarationBodyView::Enum(declared) => {
            lemma_variants_read_in_place(rule, declared, declared.len() as int);
        },
        _ => {},
    }
}

/// The number of columns among the first `n` arguments of a SELECT or an
/// UPDATE.
pub open spec fn column_rank(args: Seq<ArgumentView>, n: int) -> int {
    columns_upto(args, n).len() as int
}

/// A column stands in every longer reading at the rank of its position.
proof fn lemma_column_stands(args: Seq<ArgumentView>, i: int, n: int)
    requires
        0 <= i < n,
        column_at(args, i),
    ensures
        column_rank(args, i) < column_rank(args, n),
        columns_upto(args, n)[column_rank(args, i)] == args[i].text(),
    decreases n - i,
{
    if i + 1 < n {
        lemma_column_stands(args, i, n - 1);
    }
}

/// The columns of a SELECT or an UPDATE stand in argument order, each with
/// its own text, and a column that is written twice is listed twice.
pub proof fn law_columns_keep_argument_order(args: Seq<ArgumentView>, i: int, j: int)
    requires
        column_at(args, i),
        column_at(args, j),
        i < j,
    ensures
        ({
            let columns = columns_upto(args, args.len() as int);
            &&& 0 <= column_rank(args, i) < column_rank(args, j) < columns.len()
            &&& columns[column_rank(args, i)] == args[i].text()
            &&& columns[column_rank(args, j)] == args[j].text()
        }),
{
    lemma_column_stands(args, i, j);
    lemma_column_stands(args, i, args.len() as int);
    lemma_column_stands(args, j, args.len() as int);
}

/// The number of string literals among the first `n` arguments of an
/// INSERT.
pub open spec fn literal_rank(args: Seq<ArgumentView>, n: int) -> int {
    literals_upto(args, n).len() as int
}

/// A literal stands in every longer reading at the rank of its position.
proof fn lemma_literal_stands(args: Seq<ArgumentView>, i: int, n: int)
    requires
        2 <= i < n,
        args[i] is Literal,
    ensures
        literal_rank(args, i) < literal_rank(args, n),
        literals_upto(args, n)[literal_rank(args, i)] == args[i].text(),
    decreases n - i,
{
    if i + 1 < n {
        lemma_literal_stands(args, i, n - 1);
    }
}

/// The columns of an INSERT stand in argument order, each with its own
/// text, and a column that is written twice is listed twice.
pub proof fn law_insert_columns_keep_argument_order(args: Seq<ArgumentView>, i: int, j: int)
    requires
        2 <= i < j < args.len(),
        args[i] is Literal,
        args[j] is Literal,
    ensures
        ({
            let columns = literals_upto(args, args.len() as int);
            &&& 0 <= literal_rank(args, i) < literal_rank(args, j) < columns.len()
            &&& columns[literal_rank(args, i)] == args[i].text()
            &&& columns[literal_rank(args, j)] == args[j].text()
        }),
{
    lemma_literal_stands(args, i, j);
    lemma_literal_stands(args, i, args.len() as int);
    lemma_literal_stands(args, j, args.len() as int);
}

/// The pieces of a statement, written one after another with each
/// expression as it was written, are the statement itself; and the pieces
/// fail where the statement fails.
pub proof fn law_expansion_flattens_to_statement(verb: StatementVerb, request: StatementRequest)
    ensures
        match expansion(verb, request) {
            Ok(segments) => rendered(verb, request) == Ok::<Seq<char>, MacroError>(
                flattened(segments),
            ),
            Err(error) => rendered(verb, request) == Err::<Seq<char>, MacroError>(error),
        },
{
    match expansion(verb, request) {
        Ok(segments) => {
            let n = segments.len() as int;
            assert(flattened_upto(segments, 0) =~= Seq::<char>::empty());
            assert(flattened_upto(segments, 1) =~= segments[0].text());
            assert(flattened_upto(segments, 2) =~= segments[0].text() + segments[1].text());
            if n >= 3 {
                assert(flattened_upto(segments, 3) =~= segments[0].text() + segments[1].text()
                    + segments[2].text());
            }
            if n >= 4 {
                assert(flattened_upto(segments, 4) =~= segments[0].text() + segments[1].text()
                    + segments[2].text() + segments[3].text());
            }
            assert(rendered(verb, request)->Ok_0 =~= flattened(segments));
        },
        Err(_) => {},
    }
}

/// Every rendered column list keeps the columns whole and in input order:
/// in the plain list, in the list of bind parameters and in the list of
/// assignments, column `i` stands at its offset, behind every earlier
/// column and the separators between them.
pub proof fn law_column_lists_keep_order(columns: Seq<Seq<char>>, i: int)
    requires
        0 <= i < columns.len(),
    ensures
        ({
            let sep = ", "@;
            let plain = join(columns, sep);
            let bound = join(bind_parameters(columns), sep);
            let assigned = join(assignments(columns), sep);
            let at_plain = offset_of(columns, sep, i);
            let at_bound = offset_of(bind_parameters(columns), sep, i);
            let at_assigned = offset_of(assignments(columns), sep, i);
            &&& 0 <= at_plain && at_plain + columns[i].len() <= plain.len()
            &&& plain.subrange(at_plain, at_plain + columns[i].len()) == columns[i]
            &&& 0 <= at_bound && at_bound + (":"@ + columns[i]).len() <= bound.len()
            &&& bound.subrange(at_bound, at_bound + (":"@ + columns[i]).len()) == ":"@
                + columns[i]
            &&& 0 <= at_assigned && at_assigned + (columns[i] + " = :"@ + columns[i]).len()
                <= assigned.len()
            &&& assigned.subrange(
                at_assigned,
                at_assigned + (columns[i] + " = :"@ + columns[i]).len(),
            ) == columns[i] + " = :"@ + columns[i]
            &&& i + 1 < columns.len() ==> at_plain < offset_of(columns, sep, i + 1) && at_bound
                < offset_of(bind_parameters(columns), sep, i + 1) && at_assigned < offset_of(
                assignments(columns),
                sep,
                i + 1,
            )
        }),
{
    let sep = ", "@;
    reveal_strlit(", ");
    lemma_join_preserves_order(columns, sep, i);
    lemma_join_preserves_order(bind_parameters(columns), sep, i);
    lemma_join_preserves_order(assignments(columns), sep, i);
}

} // verus!
