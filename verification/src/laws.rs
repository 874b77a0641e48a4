//! The laws the engine obeys, stated over the evaluation model and proved
//! once and for all: a valid instance yields an empty report, validation
//! is deterministic, a single failure is reported exactly once under its
//! field's path, skipped struct-level rules never reach the report, and
//! nested sub-reports carry their field's path prefix.

use vstd::prelude::*;
use crate::context::ContextView;
use crate::engine::{eval_field, eval_fields_upto, eval_items_upto, eval_rules_upto, eval_struct, eval_struct_check, eval_struct_rule, eval_struct_rules_upto, lookup, prefix_all, usage_struct};
use crate::report::SegView;
use crate::rules::{check_passes, RuleView};
use crate::schema::{FieldSpecView, NestedSpecView, StructRuleView, StructSpecView};
use crate::value::{FieldValueView, ValueView};
use crate::report::ViolationView;

verus! {

broadcast use vstd::std_specs::vec::group_vec_axioms, vstd::seq::group_seq_axioms;

/// A value satisfies a schema when every direct rule of every field
/// passes on the field's value, every nested value satisfies its child
/// schema, and every struct-level check passes. This is what
/// "valid by construction" means against this schema.
pub open spec fn satisfies(s: StructSpecView, v: ValueView, ctx: Option<ContextView>) -> bool
    decreases s, 5int, 0int,
{
    match v {
        ValueView::StructOf(fvs) => {
            &&& satisfies_fields(s, fvs, ctx, s.fields.len() as int)
            &&& forall|j: int| 0 <= j < s.rules.len() ==> eval_struct_check(
                #[trigger] s.rules[j].check,
                fvs,
                ctx,
            )
        },
        _ => false,
    }
}

/// The first `n` fields are satisfied.
pub open spec fn satisfies_fields(
    s: StructSpecView,
    fvs: Seq<FieldValueView>,
    ctx: Option<ContextView>,
    n: int,
) -> bool
    decreases s, 3int, n,
{
    if n <= 0 || n > s.fields.len() {
        true
    } else {
        satisfies_fields(s, fvs, ctx, n - 1) && satisfies_field(s.fields[n - 1], fvs, ctx)
    }
}

/// One field is satisfied: its rules pass on its value and its nested
/// validator, if any, is satisfied in turn.
pub open spec fn satisfies_field(
    f: FieldSpecView,
    fvs: Seq<FieldValueView>,
    ctx: Option<ContextView>,
) -> bool
    decreases f, 6int, 0int,
{
    match lookup(fvs, f.name) {
        None => false,
        Some(v) => {
            &&& forall|j: int| 0 <= j < f.rules.len() ==> check_passes(
                (#[trigger] f.rules[j]).check,
                v,
            )
            &&& match f.nested {
                None => true,
                Some(NestedSpecView::OfStruct(b)) => satisfies(*b, v, ctx),
                Some(NestedSpecView::OfItems(b)) => match v {
                    ValueView::ListOf(items) => satisfies_items(*b, items, ctx, items.len() as int),
                    _ => false,
                },
                Some(NestedSpecView::OfItemRules(rs)) => match v {
                    ValueView::ListOf(items) => satisfies_rule_items(rs, items, items.len() as int),
                    _ => false,
                },
            }
        },
    }
}

/// The first `n` elements are satisfied.
pub open spec fn satisfies_items(
    es: StructSpecView,
    items: Seq<ValueView>,
    ctx: Option<ContextView>,
    n: int,
) -> bool
    decreases es, 7int, n,
{
    if n <= 0 || n > items.len() {
        true
    } else {
        satisfies_items(es, items, ctx, n - 1) && satisfies(es, items[n - 1], ctx)
    }
}

/// The first `n` elements each pass every rule of the list.
pub open spec fn satisfies_rule_items(rs: Seq<RuleView>, items: Seq<ValueView>, n: int) -> bool
    decreases n,
{
    if n <= 0 || n > items.len() {
        true
    } else {
        satisfies_rule_items(rs, items, n - 1) && (forall|j: int| 0 <= j < rs.len()
            ==> check_passes((#[trigger] rs[j]).check, items[n - 1]))
    }
}

/// Rules that all pass contribute no violation.
pub proof fn lemma_passing_rules_empty(rs: Seq<RuleView>, v: ValueView, n: int)
    requires
        n <= rs.len(),
        forall|j: int| 0 <= j < n ==> check_passes((#[trigger] rs[j]).check, v),
    ensures
        eval_rules_upto(rs, v, n) =~= Seq::<ViolationView>::empty(),
    decreases n,
{
    if n > 0 {
        lemma_passing_rules_empty(rs, v, n - 1);
    }
}

/// Struct-level checks that all pass contribute no violation.
pub proof fn lemma_passing_struct_rules_empty(
    rs: Seq<StructRuleView>,
    fvs: Seq<FieldValueView>,
    ctx: Option<ContextView>,
    field_errs: bool,
    n: int,
)
    requires
        n <= rs.len(),
        forall|j: int| 0 <= j < n ==> eval_struct_check((#[trigger] rs[j]).check, fvs, ctx),
    ensures
        eval_struct_rules_upto(rs, fvs, ctx, field_errs, n) =~= Seq::<ViolationView>::empty(),
    decreases n,
{
    if n > 0 {
        lemma_passing_struct_rules_empty(rs, fvs, ctx, field_errs, n - 1);
    }
}

/// A valid instance yields an empty report: when a value satisfies its
/// schema, validation finds nothing to say.
pub proof fn lemma_valid_instance_empty_report(
    s: StructSpecView,
    v: ValueView,
    ctx: Option<ContextView>,
)
    requires
        satisfies(s, v, ctx),
    ensures
        eval_struct(s, v, ctx) =~= Seq::<ViolationView>::empty(),
    decreases s, 5int, 1int,
{
    let fvs = v->StructOf_0;
    lemma_valid_fields_empty(s, fvs, ctx, s.fields.len() as int);
    lemma_passing_struct_rules_empty(s.rules, fvs, ctx, false, s.rules.len() as int);
}

pub proof fn lemma_valid_fields_empty(
    s: StructSpecView,
    fvs: Seq<FieldValueView>,
    ctx: Option<ContextView>,
    n: int,
)
    requires
        satisfies_fields(s, fvs, ctx, n),
        n <= s.fields.len(),
    ensures
        eval_fields_upto(s, fvs, ctx, n) =~= Seq::<ViolationView>::empty(),
    decreases s, 4int, n,
{
    if 0 < n {
        lemma_valid_fields_empty(s, fvs, ctx, n - 1);
        lemma_valid_field_empty(s.fields[n - 1], fvs, ctx);
    }
}

pub proof fn lemma_valid_field_empty(
    f: FieldSpecView,
    fvs: Seq<FieldValueView>,
    ctx: Option<ContextView>,
)
    requires
        satisfies_field(f, fvs, ctx),
    ensures
        eval_field(f, fvs, ctx) =~= Seq::<ViolationView>::empty(),
    decreases f, 7int, 0int,
{
    let v = lookup(fvs, f.name)->Some_0;
    lemma_passing_rules_empty(f.rules, v, f.rules.len() as int);
    match f.nested {
        None => {},
        Some(NestedSpecView::OfStruct(b)) => {
            lemma_valid_instance_empty_report(*b, v, ctx);
        },
        Some(NestedSpecView::OfItems(b)) => {
            lemma_valid_items_empty(*b, v->ListOf_0, ctx, v->ListOf_0.len() as int);
        },
        Some(NestedSpecView::OfItemRules(rs)) => {
            lemma_valid_rule_items_empty(rs, v->ListOf_0, v->ListOf_0.len() as int);
        },
    }
}

/// Elements that each pass every rule of the list contribute nothing.
pub proof fn lemma_valid_rule_items_empty(rs: Seq<RuleView>, items: Seq<ValueView>, n: int)
    requires
        satisfies_rule_items(rs, items, n),
        n <= items.len(),
    ensures
        crate::engine::eval_rule_items_upto(rs, items, n) =~= Seq::<ViolationView>::empty(),
    decreases n,
{
    if 0 < n {
        lemma_valid_rule_items_empty(rs, items, n - 1);
        lemma_passing_rules_empty(rs, items[n - 1], rs.len() as int);
        assert(prefix_all(SegView::At(n - 1), eval_rules_upto(rs, items[n - 1], rs.len() as int))
            =~= Seq::<ViolationView>::empty());
    }
}

pub proof fn lemma_valid_items_empty(
    es: StructSpecView,
    items: Seq<ValueView>,
    ctx: Option<ContextView>,
    n: int,
)
    requires
        satisfies_items(es, items, ctx, n),
        n <= items.len(),
    ensures
        eval_items_upto(es, items, ctx, n) =~= Seq::<ViolationView>::empty(),
    decreases es, 8int, n,
{
    if 0 < n {
        lemma_valid_items_empty(es, items, ctx, n - 1);
        lemma_valid_instance_empty_report(es, items[n - 1], ctx);
        assert(prefix_all(SegView::At(n - 1), eval_struct(es, items[n - 1], ctx))
            =~= Seq::<ViolationView>::empty());
    }
}

/// Validation is deterministic: two reports of the same schema, value
/// and context are the same report, so validating an unchanged instance
/// twice yields identical reports.
pub proof fn lemma_validate_deterministic(
    s: StructSpecView,
    v: ValueView,
    ctx: Option<ContextView>,
    r1: Seq<ViolationView>,
    r2: Seq<ViolationView>,
)
    requires
        r1 == eval_struct(s, v, ctx),
        r2 == eval_struct(s, v, ctx),
    ensures
        r1 == r2,
{
}

/// Every violation a field contributes carries that field's name as the
/// first step of its path: nested failures are reported under the
/// compound path, never under the child's bare name.
pub proof fn lemma_field_viols_prefixed(
    f: FieldSpecView,
    fvs: Seq<FieldValueView>,
    ctx: Option<ContextView>,
)
    ensures
        forall|k: int| 0 <= k < eval_field(f, fvs, ctx).len() ==> {
            let p = (#[trigger] eval_field(f, fvs, ctx)[k]).path;
            p.len() >= 1 && p[0] == SegView::Field(f.name)
        },
{
}

/// A struct-level rule marked `skip_on_field_errors` contributes nothing
/// once field-level violations exist: every violation among the
/// struct-level ones then comes from a rule without that mark.
pub proof fn lemma_skipped_rules_stay_out(
    rs: Seq<StructRuleView>,
    fvs: Seq<FieldValueView>,
    ctx: Option<ContextView>,
    n: int,
)
    requires
        n <= rs.len(),
    ensures
        forall|k: int|
            #![trigger eval_struct_rules_upto(rs, fvs, ctx, true, n)[k]]
            0 <= k < eval_struct_rules_upto(rs, fvs, ctx, true, n).len() ==> exists|j: int|
                #![trigger rs[j]]
                0 <= j < n && !rs[j].skip_on_field_errors && eval_struct_rules_upto(
                    rs,
                    fvs,
                    ctx,
                    true,
                    n,
                )[k] == crate::engine::struct_rule_violation(rs[j], fvs),
    decreases n,
{
    if n > 0 {
        lemma_skipped_rules_stay_out(rs, fvs, ctx, n - 1);
        let pre = eval_struct_rules_upto(rs, fvs, ctx, true, n - 1);
        let cur = eval_struct_rule(rs[n - 1], fvs, ctx, true);
        assert forall|k: int|
            #![trigger eval_struct_rules_upto(rs, fvs, ctx, true, n)[k]]
            0 <= k < eval_struct_rules_upto(rs, fvs, ctx, true, n).len() implies exists|j: int|
                #![trigger rs[j]]
                0 <= j < n && !rs[j].skip_on_field_errors && eval_struct_rules_upto(
                    rs,
                    fvs,
                    ctx,
                    true,
                    n,
                )[k] == crate::engine::struct_rule_violation(rs[j], fvs) by {
            if k < pre.len() {
                assert(pre[k] == eval_struct_rules_upto(rs, fvs, ctx, true, n)[k]);
                let j = choose|j: int|
                    #![trigger rs[j]]
                    0 <= j < n - 1 && !rs[j].skip_on_field_errors && pre[k]
                        == crate::engine::struct_rule_violation(rs[j], fvs);
                assert(0 <= j < n && !rs[j].skip_on_field_errors && eval_struct_rules_upto(
                    rs,
                    fvs,
                    ctx,
                    true,
                    n,
                )[k] == crate::engine::struct_rule_violation(rs[j], fvs));
            } else {
                assert(cur.len() > 0);
                assert(!rs[n - 1].skip_on_field_errors);
                assert(eval_struct_rules_upto(rs, fvs, ctx, true, n)[k]
                    == crate::engine::struct_rule_violation(rs[n - 1], fvs));
            }
        }
    }
}

/// A struct-level rule marked `skip_on_field_errors` leaves no trace by
/// code either, once field-level violations exist, provided no unskipped
/// rule shares its code.
pub proof fn lemma_skipped_rule_code_absent(
    rs: Seq<StructRuleView>,
    fvs: Seq<FieldValueView>,
    ctx: Option<ContextView>,
    m: int,
    n: int,
)
    requires
        0 <= m < rs.len(),
        n <= rs.len(),
        rs[m].skip_on_field_errors,
        forall|j: int| 0 <= j < n && !(#[trigger] rs[j]).skip_on_field_errors ==> rs[j].code
            != rs[m].code,
    ensures
        forall|k: int|
            #![trigger eval_struct_rules_upto(rs, fvs, ctx, true, n)[k]]
            0 <= k < eval_struct_rules_upto(rs, fvs, ctx, true, n).len()
                ==> eval_struct_rules_upto(rs, fvs, ctx, true, n)[k].code != rs[m].code,
{
    lemma_skipped_rules_stay_out(rs, fvs, ctx, n);
    assert forall|k: int|
        0 <= k < eval_struct_rules_upto(rs, fvs, ctx, true, n).len() implies #[trigger]
        eval_struct_rules_upto(rs, fvs, ctx, true, n)[k].code != rs[m].code by {
        let j = choose|j: int|
            #![trigger rs[j]]
            0 <= j < n && !rs[j].skip_on_field_errors && eval_struct_rules_upto(
                rs,
                fvs,
                ctx,
                true,
                n,
            )[k] == crate::engine::struct_rule_violation(rs[j], fvs);
        assert(eval_struct_rules_upto(rs, fvs, ctx, true, n)[k].code == rs[j].code);
    }
}

/// Fields other than one all clean: the field part of the report is
/// exactly what the one remaining field contributes.
pub proof fn lemma_only_field_remains(
    s: StructSpecView,
    fvs: Seq<FieldValueView>,
    ctx: Option<ContextView>,
    k: int,
    n: int,
)
    requires
        0 <= k < s.fields.len(),
        n <= s.fields.len(),
        forall|j: int| 0 <= j < s.fields.len() && j != k ==> eval_field(
            #[trigger] s.fields[j],
            fvs,
            ctx,
        ) =~= Seq::<ViolationView>::empty(),
    ensures
        n <= k ==> eval_fields_upto(s, fvs, ctx, n) =~= Seq::<ViolationView>::empty(),
        n > k ==> eval_fields_upto(s, fvs, ctx, n) =~= eval_field(s.fields[k], fvs, ctx),
    decreases n,
{
    if n > 0 {
        lemma_only_field_remains(s, fvs, ctx, k, n - 1);
    }
}

/// An instance with exactly one failing field is reported with exactly
/// that field's violations and nothing else, provided every struct-level
/// rule passes or is skipped on field errors.
pub proof fn lemma_single_failing_field(
    s: StructSpecView,
    v: ValueView,
    ctx: Option<ContextView>,
    k: int,
)
    requires
        v is StructOf,
        0 <= k < s.fields.len(),
        forall|j: int| 0 <= j < s.fields.len() && j != k ==> eval_field(
            #[trigger] s.fields[j],
            v->StructOf_0,
            ctx,
        ) =~= Seq::<ViolationView>::empty(),
        eval_field(s.fields[k], v->StructOf_0, ctx).len() > 0,
        forall|j: int| 0 <= j < s.rules.len() ==> ((#[trigger] s.rules[j]).skip_on_field_errors
            || eval_struct_check(s.rules[j].check, v->StructOf_0, ctx)),
    ensures
        eval_struct(s, v, ctx) =~= eval_field(s.fields[k], v->StructOf_0, ctx),
{
    let fvs = v->StructOf_0;
    lemma_only_field_remains(s, fvs, ctx, k, s.fields.len() as int);
    lemma_all_struct_rules_silent(s.rules, fvs, ctx, s.rules.len() as int);
}

/// Struct-level rules that each pass or are skipped contribute nothing.
pub proof fn lemma_all_struct_rules_silent(
    rs: Seq<StructRuleView>,
    fvs: Seq<FieldValueView>,
    ctx: Option<ContextView>,
    n: int,
)
    requires
        n <= rs.len(),
        forall|j: int| 0 <= j < n ==> ((#[trigger] rs[j]).skip_on_field_errors || eval_struct_check(
            rs[j].check,
            fvs,
            ctx,
        )),
    ensures
        eval_struct_rules_upto(rs, fvs, ctx, true, n) =~= Seq::<ViolationView>::empty(),
    decreases n,
{
    if n > 0 {
        lemma_all_struct_rules_silent(rs, fvs, ctx, n - 1);
    }
}

/// Elements other than one all clean: the sequence field's report is
/// exactly the one failing element's, under that element's index.
pub proof fn lemma_single_failing_element(
    es: StructSpecView,
    items: Seq<ValueView>,
    ctx: Option<ContextView>,
    i: int,
    n: int,
)
    requires
        0 <= i < items.len(),
        n <= items.len(),
        forall|j: int| 0 <= j < items.len() && j != i ==> eval_struct(es, #[trigger] items[j], ctx)
            =~= Seq::<ViolationView>::empty(),
    ensures
        n <= i ==> eval_items_upto(es, items, ctx, n) =~= Seq::<ViolationView>::empty(),
        n > i ==> eval_items_upto(es, items, ctx, n) =~= prefix_all(
            SegView::At(i),
            eval_struct(es, items[i], ctx),
        ),
    decreases n,
{
    if n > 0 {
        lemma_single_failing_element(es, items, ctx, i, n - 1);
        if n - 1 != i {
            assert(prefix_all(SegView::At(n - 1), eval_struct(es, items[n - 1], ctx))
                =~= Seq::<ViolationView>::empty());
        }
    }
}

/// A rule list with exactly one failing rule contributes exactly that
/// rule's violation: together with `lemma_single_failing_field`, an
/// instance whose only flaw is one out-of-bounds field is reported with
/// exactly one violation, under that field's path.
pub proof fn lemma_single_failing_rule(rs: Seq<RuleView>, v: ValueView, m: int, n: int)
    requires
        0 <= m < rs.len(),
        n <= rs.len(),
        forall|j: int| 0 <= j < rs.len() && j != m ==> check_passes((#[trigger] rs[j]).check, v),
        crate::rules::check_applies(rs[m].check, v),
        !check_passes(rs[m].check, v),
    ensures
        n <= m ==> eval_rules_upto(rs, v, n) =~= Seq::<ViolationView>::empty(),
        n > m ==> eval_rules_upto(rs, v, n) =~= seq![crate::rules::rule_violation(rs[m])],
    decreases n,
{
    if n > 0 {
        lemma_single_failing_rule(rs, v, m, n - 1);
    }
}

/// An instance whose only flaw is one failing rule on one plain field is
/// reported with exactly one violation, under that field's path and with
/// that rule's code.
pub proof fn lemma_one_bad_field_one_violation(
    s: StructSpecView,
    v: ValueView,
    ctx: Option<ContextView>,
    k: int,
    m: int,
)
    requires
        v is StructOf,
        0 <= k < s.fields.len(),
        forall|j: int| 0 <= j < s.fields.len() && j != k ==> eval_field(
            #[trigger] s.fields[j],
            v->StructOf_0,
            ctx,
        ) =~= Seq::<ViolationView>::empty(),
        forall|j: int| 0 <= j < s.rules.len() ==> ((#[trigger] s.rules[j]).skip_on_field_errors
            || eval_struct_check(s.rules[j].check, v->StructOf_0, ctx)),
        lookup(v->StructOf_0, s.fields[k].name) is Some,
        s.fields[k].nested is None,
        0 <= m < s.fields[k].rules.len(),
        forall|j: int| 0 <= j < s.fields[k].rules.len() && j != m ==> check_passes(
            (#[trigger] s.fields[k].rules[j]).check,
            lookup(v->StructOf_0, s.fields[k].name)->Some_0,
        ),
        crate::rules::check_applies(
            s.fields[k].rules[m].check,
            lookup(v->StructOf_0, s.fields[k].name)->Some_0,
        ),
        !check_passes(
            s.fields[k].rules[m].check,
            lookup(v->StructOf_0, s.fields[k].name)->Some_0,
        ),
    ensures
        eval_struct(s, v, ctx).len() == 1,
        eval_struct(s, v, ctx)[0].path == seq![SegView::Field(s.fields[k].name)],
        eval_struct(s, v, ctx)[0].code == s.fields[k].rules[m].code,
{
    let fvs = v->StructOf_0;
    let f = s.fields[k];
    let v0 = lookup(fvs, f.name)->Some_0;
    lemma_single_failing_rule(f.rules, v0, m, f.rules.len() as int);
    let rv = crate::rules::rule_violation(f.rules[m]);
    assert(eval_rules_upto(f.rules, v0, f.rules.len() as int) + Seq::<ViolationView>::empty()
        =~= seq![rv]);
    assert(eval_field(f, fvs, ctx) =~= prefix_all(SegView::Field(f.name), seq![rv]));
    assert(prefix_all(SegView::Field(f.name), seq![rv]).len() == 1);
    assert(prefix_all(SegView::Field(f.name), seq![rv])[0].path =~= seq![
        SegView::Field(f.name),
    ]);
    lemma_single_failing_field(s, v, ctx, k);
}

/// The rule-list form of a single failing element: every other element
/// passes every rule, so the sequence field's report is exactly the one
/// failing element's violations, under that element's index.
pub proof fn lemma_single_failing_element_rules(
    rs: Seq<RuleView>,
    items: Seq<ValueView>,
    i: int,
    n: int,
)
    requires
        0 <= i < items.len(),
        n <= items.len(),
        forall|j: int| 0 <= j < items.len() && j != i ==> eval_rules_upto(
            rs,
            #[trigger] items[j],
            rs.len() as int,
        ) =~= Seq::<ViolationView>::empty(),
    ensures
        n <= i ==> crate::engine::eval_rule_items_upto(rs, items, n) =~= Seq::<
            ViolationView,
        >::empty(),
        n > i ==> crate::engine::eval_rule_items_upto(rs, items, n) =~= prefix_all(
            SegView::At(i),
            eval_rules_upto(rs, items[i], rs.len() as int),
        ),
    decreases n,
{
    if n > 0 {
        lemma_single_failing_element_rules(rs, items, i, n - 1);
        if n - 1 != i {
            assert(prefix_all(
                SegView::At(n - 1),
                eval_rules_upto(rs, items[n - 1], rs.len() as int),
            ) =~= Seq::<ViolationView>::empty());
        }
    }
}

} // verus!
