//! The evaluator: what a validation call returns, stated mathematically
//! over the views of schema, value and context, and the executable
//! functions that are proved to return exactly that.
//!
//! Validation never stops at the first violation: every field and every
//! struct-level rule in reach is judged, so one call surfaces every
//! problem at once. A usage error (a schema naming an absent field, a
//! rule on a value of the wrong kind, a context-reading rule without a
//! context) aborts the call instead; the first one found, in evaluation
//! order, is returned.

use vstd::prelude::*;
use crate::context::{ContextView, DatabaseContex};
use crate::report::{lemma_viols_view_push, viols_view, ErrorReport, Seg, SegView, UsageError, Violation, ViolationView};
use crate::rules::{eval_rule, usage_rule, Rule, RuleView};
use crate::schema::{field_spec_view, struct_spec_view, lemma_field_specs_view, rules_view, struct_rules_view, FieldSpec, FieldSpecView, Message, MessageView, NestedSpec, NestedSpecView, StructCheck, StructCheckView, StructRule, StructRuleView, StructSpec, StructSpecView};
use crate::value::{field_value_view, field_values_view, lemma_field_values_view, lemma_values_view, value_view, values_view, FieldValue, FieldValueView, Value, ValueView};

verus! {

broadcast use vstd::std_specs::vec::group_vec_axioms, vstd::seq::group_seq_axioms;

/// The view of an optional borrowed context.
pub open spec fn octx(c: Option<&DatabaseContex>) -> Option<ContextView> {
    match c {
        Some(c) => Some(c@),
        None => None,
    }
}

/// The value of the first field named `name`, looking from position `i`.
pub open spec fn lookup_from(fvs: Seq<FieldValueView>, name: Seq<char>, i: int) -> Option<
    ValueView,
>
    decreases fvs.len() - i,
{
    if i < 0 || i >= fvs.len() {
        None
    } else if fvs[i].name == name {
        Some(fvs[i].value)
    } else {
        lookup_from(fvs, name, i + 1)
    }
}

/// The value of the first field named `name`, if any.
pub open spec fn lookup(fvs: Seq<FieldValueView>, name: Seq<char>) -> Option<ValueView> {
    lookup_from(fvs, name, 0)
}

/// A violation moved one level down: the segment is prepended to its path.
pub open spec fn prefix_violation(seg: SegView, v: ViolationView) -> ViolationView {
    ViolationView { path: seq![seg] + v.path, code: v.code, message: v.message }
}

/// A sub-report merged under a path prefix.
pub open spec fn prefix_all(seg: SegView, vs: Seq<ViolationView>) -> Seq<ViolationView> {
    vs.map_values(|v: ViolationView| prefix_violation(seg, v))
}

/// The violations of the first `n` rules against one value, in rule
/// declaration order; rules that cannot judge the value contribute
/// nothing here (they raise a usage error instead).
pub open spec fn eval_rules_upto(rs: Seq<RuleView>, v: ValueView, n: int) -> Seq<ViolationView>
    decreases n,
{
    if n <= 0 || n > rs.len() {
        Seq::empty()
    } else {
        eval_rules_upto(rs, v, n - 1) + eval_rule(rs[n - 1], v)
    }
}

/// The first usage error among the first `n` rules, if any.
pub open spec fn usage_rules_upto(rs: Seq<RuleView>, v: ValueView, n: int) -> Option<UsageError>
    decreases n,
{
    if n <= 0 || n > rs.len() {
        None
    } else {
        match usage_rules_upto(rs, v, n - 1) {
            Some(e) => Some(e),
            None => usage_rule(rs[n - 1], v),
        }
    }
}

/// Whether a struct-level check passes. Where the check cannot even be
/// made (a usage error), it is treated as passing here; the usage side
/// reports the mistake and validation aborts before this answer is used.
pub open spec fn eval_struct_check(
    c: StructCheckView,
    fvs: Seq<FieldValueView>,
    ctx: Option<ContextView>,
) -> bool {
    match c {
        StructCheckView::FieldsEqual { left, right } => match (
            lookup(fvs, left),
            lookup(fvs, right),
        ) {
            (Some(ValueView::Str(a)), Some(ValueView::Str(b))) => a == b,
            _ => true,
        },
        StructCheckView::HasCapacity => match ctx {
            Some(c) => c.total < c.max_data,
            None => true,
        },
    }
}

/// The usage error a struct-level check raises, if any: the fields it
/// reads must exist and hold text, and a context-reading check needs a
/// context.
pub open spec fn usage_struct_check(
    c: StructCheckView,
    fvs: Seq<FieldValueView>,
    ctx: Option<ContextView>,
) -> Option<UsageError> {
    match c {
        StructCheckView::FieldsEqual { left, right } => match lookup(fvs, left) {
            None => Some(UsageError::UnknownField),
            Some(ValueView::Str(_)) => match lookup(fvs, right) {
                None => Some(UsageError::UnknownField),
                Some(ValueView::Str(_)) => None,
                Some(_) => Some(UsageError::TypeMismatch),
            },
            Some(_) => Some(UsageError::TypeMismatch),
        },
        StructCheckView::HasCapacity => match ctx {
            Some(_) => None,
            None => Some(UsageError::MissingContext),
        },
    }
}

/// The text a struct-level rule's violation carries: fixed text, or the
/// template with the named field's text spliced in. A template field
/// that is absent or not text contributes nothing to the message.
pub open spec fn resolve_message(m: MessageView, fvs: Seq<FieldValueView>) -> Seq<char> {
    match m {
        MessageView::Text(t) => t,
        MessageView::WithField { before, field, after } => match lookup(fvs, field) {
            Some(ValueView::Str(s)) => before + s + after,
            _ => before + after,
        },
    }
}

/// The violation a struct-level rule reports, under the empty path: the
/// rule speaks of the instance as a whole.
pub open spec fn struct_rule_violation(r: StructRuleView, fvs: Seq<FieldValueView>) -> ViolationView {
    ViolationView { path: Seq::empty(), code: r.code, message: resolve_message(r.message, fvs) }
}

/// What one struct-level rule contributes: nothing when it is skipped
/// because field-level violations exist, nothing when it passes, and its
/// one violation when it fails.
pub open spec fn eval_struct_rule(
    r: StructRuleView,
    fvs: Seq<FieldValueView>,
    ctx: Option<ContextView>,
    field_errs: bool,
) -> Seq<ViolationView> {
    if r.skip_on_field_errors && field_errs {
        Seq::empty()
    } else if !eval_struct_check(r.check, fvs, ctx) {
        seq![struct_rule_violation(r, fvs)]
    } else {
        Seq::empty()
    }
}

/// The usage error one struct-level rule raises, if any; a skipped rule
/// is not evaluated and raises none.
pub open spec fn usage_struct_rule(
    r: StructRuleView,
    fvs: Seq<FieldValueView>,
    ctx: Option<ContextView>,
    field_errs: bool,
) -> Option<UsageError> {
    if r.skip_on_field_errors && field_errs {
        None
    } else {
        usage_struct_check(r.check, fvs, ctx)
    }
}

/// The violations of the first `n` struct-level rules, in declaration
/// order.
pub open spec fn eval_struct_rules_upto(
    rs: Seq<StructRuleView>,
    fvs: Seq<FieldValueView>,
    ctx: Option<ContextView>,
    field_errs: bool,
    n: int,
) -> Seq<ViolationView>
    decreases n,
{
    if n <= 0 || n > rs.len() {
        Seq::empty()
    } else {
        eval_struct_rules_upto(rs, fvs, ctx, field_errs, n - 1) + eval_struct_rule(
            rs[n - 1],
            fvs,
            ctx,
            field_errs,
        )
    }
}

/// The first usage error among the first `n` struct-level rules, if any.
pub open spec fn usage_struct_rules_upto(
    rs: Seq<StructRuleView>,
    fvs: Seq<FieldValueView>,
    ctx: Option<ContextView>,
    field_errs: bool,
    n: int,
) -> Option<UsageError>
    decreases n,
{
    if n <= 0 || n > rs.len() {
        None
    } else {
        match usage_struct_rules_upto(rs, fvs, ctx, field_errs, n - 1) {
            Some(e) => Some(e),
            None => usage_struct_rule(rs[n - 1], fvs, ctx, field_errs),
        }
    }
}

/// The whole report of validating `v` against schema `s`: every field's
/// violations in field declaration order, then the struct-level rules'.
/// Meaningful when `usage_struct` finds no usage error.
pub open spec fn eval_struct(s: StructSpecView, v: ValueView, ctx: Option<ContextView>) -> Seq<
    ViolationView,
>
    decreases s, 5int, 0int,
{
    match v {
        ValueView::StructOf(fvs) => {
            let fp = eval_fields_upto(s, fvs, ctx, s.fields.len() as int);
            fp + eval_struct_rules_upto(s.rules, fvs, ctx, fp.len() != 0, s.rules.len() as int)
        },
        _ => Seq::empty(),
    }
}

/// The first usage error of validating `v` against schema `s`, if any.
/// `None` means the schema fits the value and the report of
/// `eval_struct` is what validation returns.
pub open spec fn usage_struct(s: StructSpecView, v: ValueView, ctx: Option<ContextView>) -> Option<
    UsageError,
>
    decreases s, 5int, 1int,
{
    match v {
        ValueView::StructOf(fvs) => match usage_fields_upto(s, fvs, ctx, s.fields.len() as int) {
            Some(e) => Some(e),
            None => usage_struct_rules_upto(
                s.rules,
                fvs,
                ctx,
                eval_fields_upto(s, fvs, ctx, s.fields.len() as int).len() != 0,
                s.rules.len() as int,
            ),
        },
        _ => Some(UsageError::TypeMismatch),
    }
}

/// The violations of the first `n` fields, in declaration order.
pub open spec fn eval_fields_upto(
    s: StructSpecView,
    fvs: Seq<FieldValueView>,
    ctx: Option<ContextView>,
    n: int,
) -> Seq<ViolationView>
    decreases s, 3int, n,
{
    if n <= 0 || n > s.fields.len() {
        Seq::empty()
    } else {
        eval_fields_upto(s, fvs, ctx, n - 1) + eval_field(s.fields[n - 1], fvs, ctx)
    }
}

/// The first usage error among the first `n` fields, if any.
pub open spec fn usage_fields_upto(
    s: StructSpecView,
    fvs: Seq<FieldValueView>,
    ctx: Option<ContextView>,
    n: int,
) -> Option<UsageError>
    decreases s, 4int, n,
{
    if n <= 0 || n > s.fields.len() {
        None
    } else {
        match usage_fields_upto(s, fvs, ctx, n - 1) {
            Some(e) => Some(e),
            None => usage_field(s.fields[n - 1], fvs, ctx),
        }
    }
}

/// One field's violations: its direct rules' first, then its nested
/// validator's, the whole merged under the field's name. A field the
/// value does not have contributes nothing here; the usage side reports
/// it and validation aborts.
pub open spec fn eval_field(
    f: FieldSpecView,
    fvs: Seq<FieldValueView>,
    ctx: Option<ContextView>,
) -> Seq<ViolationView>
    decreases f, 6int, 0int,
{
    match lookup(fvs, f.name) {
        None => Seq::empty(),
        Some(v) => {
            let direct = eval_rules_upto(f.rules, v, f.rules.len() as int);
            let sub = match f.nested {
                None => Seq::empty(),
                Some(NestedSpecView::OfStruct(b)) => eval_struct(*b, v, ctx),
                Some(NestedSpecView::OfItems(b)) => match v {
                    ValueView::ListOf(items) => eval_items_upto(*b, items, ctx, items.len() as int),
                    _ => Seq::empty(),
                },
                Some(NestedSpecView::OfItemRules(rs)) => match v {
                    ValueView::ListOf(items) => eval_rule_items_upto(rs, items, items.len() as int),
                    _ => Seq::empty(),
                },
            };
            prefix_all(SegView::Field(f.name), direct + sub)
        },
    }
}

/// The first usage error of one field, if any: the field must exist,
/// its rules must fit the value's kind, and its nested validator must
/// fit in turn.
pub open spec fn usage_field(
    f: FieldSpecView,
    fvs: Seq<FieldValueView>,
    ctx: Option<ContextView>,
) -> Option<UsageError>
    decreases f, 6int, 1int,
{
    match lookup(fvs, f.name) {
        None => Some(UsageError::UnknownField),
        Some(v) => match usage_rules_upto(f.rules, v, f.rules.len() as int) {
            Some(e) => Some(e),
            None => match f.nested {
                None => None,
                Some(NestedSpecView::OfStruct(b)) => usage_struct(*b, v, ctx),
                Some(NestedSpecView::OfItems(b)) => match v {
                    ValueView::ListOf(items) => usage_items_upto(
                        *b,
                        items,
                        ctx,
                        items.len() as int,
                    ),
                    _ => Some(UsageError::TypeMismatch),
                },
                Some(NestedSpecView::OfItemRules(rs)) => match v {
                    ValueView::ListOf(items) => usage_rule_items_upto(rs, items, items.len() as int),
                    _ => Some(UsageError::TypeMismatch),
                },
            },
        },
    }
}

/// The violations of a plain rule list applied to each of the first `n`
/// elements of a sequence field, each element's merged under its index.
pub open spec fn eval_rule_items_upto(rs: Seq<RuleView>, items: Seq<ValueView>, n: int) -> Seq<
    ViolationView,
>
    decreases n,
{
    if n <= 0 || n > items.len() {
        Seq::empty()
    } else {
        eval_rule_items_upto(rs, items, n - 1) + prefix_all(
            SegView::At(n - 1),
            eval_rules_upto(rs, items[n - 1], rs.len() as int),
        )
    }
}

/// The first usage error of a plain rule list applied to each of the
/// first `n` elements, if any.
pub open spec fn usage_rule_items_upto(rs: Seq<RuleView>, items: Seq<ValueView>, n: int) -> Option<
    UsageError,
>
    decreases n,
{
    if n <= 0 || n > items.len() {
        None
    } else {
        match usage_rule_items_upto(rs, items, n - 1) {
            Some(e) => Some(e),
            None => usage_rules_upto(rs, items[n - 1], rs.len() as int),
        }
    }
}

/// The violations of the first `n` elements of a sequence field, each
/// element's merged under its zero-based index.
pub open spec fn eval_items_upto(
    es: StructSpecView,
    items: Seq<ValueView>,
    ctx: Option<ContextView>,
    n: int,
) -> Seq<ViolationView>
    decreases es, 7int, n,
{
    if n <= 0 || n > items.len() {
        Seq::empty()
    } else {
        eval_items_upto(es, items, ctx, n - 1) + prefix_all(
            SegView::At(n - 1),
            eval_struct(es, items[n - 1], ctx),
        )
    }
}

/// The first usage error among the first `n` elements, if any.
pub open spec fn usage_items_upto(
    es: StructSpecView,
    items: Seq<ValueView>,
    ctx: Option<ContextView>,
    n: int,
) -> Option<UsageError>
    decreases es, 8int, n,
{
    if n <= 0 || n > items.len() {
        None
    } else {
        match usage_items_upto(es, items, ctx, n - 1) {
            Some(e) => Some(e),
            None => usage_struct(es, items[n - 1], ctx),
        }
    }
}

pub proof fn lemma_viols_view_concat(a: Seq<Violation>, b: Seq<Violation>)
    ensures
        viols_view(a + b) =~= viols_view(a) + viols_view(b),
{
}

pub proof fn lemma_rules_view(rs: Seq<crate::rules::Rule>)
    ensures
        rules_view(rs).len() == rs.len(),
        forall|i: int| 0 <= i < rs.len() ==> rules_view(rs)[i] == rs[i]@,
{
}

pub proof fn lemma_struct_rules_view(rs: Seq<StructRule>)
    ensures
        struct_rules_view(rs).len() == rs.len(),
        forall|i: int| 0 <= i < rs.len() ==> struct_rules_view(rs)[i] == rs[i]@,
{
}

/// A usage error found among the first `i` rules is the one the whole
/// rule list reports.
pub proof fn lemma_usage_rules_propagate(rs: Seq<RuleView>, v: ValueView, i: int, n: int)
    requires
        0 < i <= n <= rs.len(),
        usage_rules_upto(rs, v, i) is Some,
    ensures
        usage_rules_upto(rs, v, n) == usage_rules_upto(rs, v, i),
    decreases n,
{
    if n > i {
        lemma_usage_rules_propagate(rs, v, i, n - 1);
    }
}

/// A usage error found among the first `i` fields is the one the whole
/// field list reports.
pub proof fn lemma_usage_fields_propagate(
    s: StructSpecView,
    fvs: Seq<FieldValueView>,
    ctx: Option<ContextView>,
    i: int,
    n: int,
)
    requires
        0 < i <= n <= s.fields.len(),
        usage_fields_upto(s, fvs, ctx, i) is Some,
    ensures
        usage_fields_upto(s, fvs, ctx, n) == usage_fields_upto(s, fvs, ctx, i),
    decreases n,
{
    if n > i {
        lemma_usage_fields_propagate(s, fvs, ctx, i, n - 1);
    }
}

/// A usage error found among the first `i` struct-level rules is the one
/// the whole list reports.
pub proof fn lemma_usage_struct_rules_propagate(
    rs: Seq<StructRuleView>,
    fvs: Seq<FieldValueView>,
    ctx: Option<ContextView>,
    field_errs: bool,
    i: int,
    n: int,
)
    requires
        0 < i <= n <= rs.len(),
        usage_struct_rules_upto(rs, fvs, ctx, field_errs, i) is Some,
    ensures
        usage_struct_rules_upto(rs, fvs, ctx, field_errs, n) == usage_struct_rules_upto(
            rs,
            fvs,
            ctx,
            field_errs,
            i,
        ),
    decreases n,
{
    if n > i {
        lemma_usage_struct_rules_propagate(rs, fvs, ctx, field_errs, i, n - 1);
    }
}

/// A usage error found among the first `i` elements is the one the whole
/// sequence reports.
pub proof fn lemma_usage_items_propagate(
    es: StructSpecView,
    items: Seq<ValueView>,
    ctx: Option<ContextView>,
    i: int,
    n: int,
)
    requires
        0 < i <= n <= items.len(),
        usage_items_upto(es, items, ctx, i) is Some,
    ensures
        usage_items_upto(es, items, ctx, n) == usage_items_upto(es, items, ctx, i),
    decreases n,
{
    if n > i {
        lemma_usage_items_propagate(es, items, ctx, i, n - 1);
    }
}

/// A usage error found among the first `i` elements judged by a rule
/// list is the one the whole sequence reports.
pub proof fn lemma_usage_rule_items_propagate(
    rs: Seq<RuleView>,
    items: Seq<ValueView>,
    i: int,
    n: int,
)
    requires
        0 < i <= n <= items.len(),
        usage_rule_items_upto(rs, items, i) is Some,
    ensures
        usage_rule_items_upto(rs, items, n) == usage_rule_items_upto(rs, items, i),
    decreases n,
{
    if n > i {
        lemma_usage_rule_items_propagate(rs, items, i, n - 1);
    }
}

/// A sequence whose every element fits the element schema raises no
/// usage error.
pub proof fn lemma_usage_items_none(
    es: StructSpecView,
    items: Seq<ValueView>,
    ctx: Option<ContextView>,
    n: int,
)
    requires
        0 <= n <= items.len(),
        forall|j: int| 0 <= j < n ==> usage_struct(es, #[trigger] items[j], ctx) is None,
    ensures
        usage_items_upto(es, items, ctx, n) is None,
    decreases n,
{
    if n > 0 {
        lemma_usage_items_none(es, items, ctx, n - 1);
    }
}

/// The value of the first field with the given name, if any.
fn lookup_field<'a>(fields: &'a Vec<FieldValue>, name: &String) -> (r: Option<&'a Value>)
    ensures
        match r {
            Some(v) => lookup(field_values_view(fields@), name@) == Some(value_view(*v)),
            None => lookup(field_values_view(fields@), name@) is None,
        },
{
    proof {
        lemma_field_values_view(fields@);
    }
    let ghost fvs = field_values_view(fields@);
    let n = fields.len();
    let mut i: usize = 0;
    while i < n
        invariant
            n == fields.len(),
            i <= n,
            fvs == field_values_view(fields@),
            fvs.len() == n,
            forall|j: int| 0 <= j < n ==> fvs[j] == field_value_view(fields@[j]),
            lookup_from(fvs, name@, 0) == lookup_from(fvs, name@, i as int),
        decreases n - i,
    {
        if fields[i].name == *name {
            return Some(&fields[i].value);
        }
        i += 1;
    }
    None
}

/// Prepends one path segment to every violation of a sub-report: the
/// merge of a child's report under its field's or element's path.
fn prefix_violations(seg: &Seg, vs: Vec<Violation>) -> (r: Vec<Violation>)
    ensures
        viols_view(r@) == prefix_all(seg@, viols_view(vs@)),
{
    let mut out: Vec<Violation> = Vec::new();
    let n = vs.len();
    let mut i: usize = 0;
    while i < n
        invariant
            n == vs.len(),
            i <= n,
            viols_view(out@) =~= prefix_all(seg@, viols_view(vs@)).take(i as int),
        decreases n - i,
    {
        let mut c = vs[i].clone();
        c.path.insert(0, seg.clone());
        proof {
            assert(c@.path =~= seq![seg@] + vs@[i as int]@.path);
            assert(c@ =~= prefix_violation(seg@, vs@[i as int]@));
            lemma_viols_view_push(out@, c);
            assert(prefix_all(seg@, viols_view(vs@)).take(i + 1) =~= prefix_all(
                seg@,
                viols_view(vs@),
            ).take(i as int).push(prefix_violation(seg@, vs@[i as int]@)));
        }
        out.push(c);
        i += 1;
    }
    proof {
        assert(prefix_all(seg@, viols_view(vs@)).take(n as int) =~= prefix_all(
            seg@,
            viols_view(vs@),
        ));
    }
    out
}

/// Builds the text a struct-level rule's violation carries, splicing the
/// named field's text into a template message.
fn resolve_message_exec(m: &Message, fields: &Vec<FieldValue>) -> (r: String)
    ensures
        r@ == resolve_message(m@, field_values_view(fields@)),
{
    match m {
        Message::Text(t) => t.clone(),
        Message::WithField { before, field, after } => {
            match lookup_field(fields, field) {
                Some(Value::VStr(s)) => before.clone().concat(s.as_str()).concat(after.as_str()),
                Some(_) => before.clone().concat(after.as_str()),
                None => before.clone().concat(after.as_str()),
            }
        },
    }
}

/// Runs one struct-level check, the skip decision left to the caller: at
/// most one violation, under the empty path, or the check's usage error.
fn eval_struct_check_exec(
    rule: &StructRule,
    fields: &Vec<FieldValue>,
    ctx: Option<&DatabaseContex>,
) -> (r: Result<Option<Violation>, UsageError>)
    ensures
        match r {
            Ok(Some(v)) => usage_struct_check(rule@.check, field_values_view(fields@), octx(ctx))
                is None && !eval_struct_check(rule@.check, field_values_view(fields@), octx(ctx))
                && v@ == struct_rule_violation(rule@, field_values_view(fields@)),
            Ok(None) => usage_struct_check(rule@.check, field_values_view(fields@), octx(ctx))
                is None && eval_struct_check(rule@.check, field_values_view(fields@), octx(ctx)),
            Err(e) => usage_struct_check(rule@.check, field_values_view(fields@), octx(ctx))
                == Some(e),
        },
{
    let passed: bool = match &rule.check {
        StructCheck::FieldsEqual { left, right } => {
            let lv = match lookup_field(fields, left) {
                None => {
                    return Err(UsageError::UnknownField);
                },
                Some(v) => v,
            };
            let a = match lv {
                Value::VStr(a) => a,
                _ => {
                    return Err(UsageError::TypeMismatch);
                },
            };
            let rv = match lookup_field(fields, right) {
                None => {
                    return Err(UsageError::UnknownField);
                },
                Some(v) => v,
            };
            let b = match rv {
                Value::VStr(b) => b,
                _ => {
                    return Err(UsageError::TypeMismatch);
                },
            };
            *a == *b
        },
        StructCheck::HasCapacity => {
            match ctx {
                None => {
                    return Err(UsageError::MissingContext);
                },
                Some(c) => c.has_capacity(),
            }
        },
    };
    if passed {
        Ok(None)
    } else {
        let path: Vec<Seg> = Vec::new();
        let message = resolve_message_exec(&rule.message, fields);
        let v = Violation::new(path, rule.code.clone(), message);
        proof {
            let fvs = field_values_view(fields@);
            assert(v@.path =~= struct_rule_violation(rule@, fvs).path);
            assert(v@ =~= struct_rule_violation(rule@, fvs));
        }
        Ok(Some(v))
    }
}

/// Runs a rule list against one value, collecting every violation in
/// rule order, or the first rule's usage error.
#[verifier::loop_isolation(false)]
fn evaluate_rules(rules: &Vec<Rule>, v: &Value) -> (r: Result<Vec<Violation>, UsageError>)
    ensures
        match r {
            Ok(vs) => usage_rules_upto(rules_view(rules@), value_view(*v), rules@.len() as int)
                is None && viols_view(vs@) == eval_rules_upto(
                rules_view(rules@),
                value_view(*v),
                rules@.len() as int,
            ),
            Err(e) => usage_rules_upto(rules_view(rules@), value_view(*v), rules@.len() as int)
                == Some(e),
        },
{
    let ghost vv = value_view(*v);
    let ghost rsv = rules_view(rules@);
    proof {
        lemma_rules_view(rules@);
    }
    let mut out: Vec<Violation> = Vec::new();
    let nr = rules.len();
    let mut k: usize = 0;
    while k < nr
        invariant
            nr == rules.len(),
            k <= nr,
            usage_rules_upto(rsv, vv, k as int) is None,
            viols_view(out@) == eval_rules_upto(rsv, vv, k as int),
        decreases nr - k,
    {
        match rules[k].evaluate(v) {
            Err(e) => {
                proof {
                    assert(usage_rules_upto(rsv, vv, k + 1) == Some(e));
                    lemma_usage_rules_propagate(rsv, vv, k + 1, nr as int);
                }
                return Err(e);
            },
            Ok(Some(viol)) => {
                proof {
                    lemma_viols_view_push(out@, viol);
                    assert(viols_view(out@).push(viol@) =~= viols_view(out@) + seq![viol@]);
                    assert(eval_rules_upto(rsv, vv, k + 1) =~= eval_rules_upto(rsv, vv, k as int)
                        + seq![viol@]);
                }
                out.push(viol);
            },
            Ok(None) => {
                proof {
                    assert(eval_rules_upto(rsv, vv, k + 1) =~= eval_rules_upto(
                        rsv,
                        vv,
                        k as int,
                    ));
                }
            },
        }
        k += 1;
    }
    Ok(out)
}

/// Validates one field: looks its value up, runs the field's direct
/// rules in order, then its nested validator, and merges the whole
/// sub-report under the field's name.
#[verifier::loop_isolation(false)]
fn validate_field(f: &FieldSpec, fields: &Vec<FieldValue>, ctx: Option<&DatabaseContex>) -> (r:
    Result<Vec<Violation>, UsageError>)
    ensures
        match r {
            Ok(vs) => usage_field(f@, field_values_view(fields@), octx(ctx)) is None && viols_view(
                vs@,
            ) == eval_field(f@, field_values_view(fields@), octx(ctx)),
            Err(e) => usage_field(f@, field_values_view(fields@), octx(ctx)) == Some(e),
        },
    decreases *f, 0int,
{
    let ghost fvs = field_values_view(fields@);
    let ghost c = octx(ctx);
    let v: &Value = match lookup_field(fields, &f.name) {
        None => {
            return Err(UsageError::UnknownField);
        },
        Some(v) => v,
    };
    let ghost vv = value_view(*v);
    let ghost rsv = rules_view(f.rules@);
    let mut out: Vec<Violation> = match evaluate_rules(&f.rules, v) {
        Err(e) => {
            return Err(e);
        },
        Ok(vs) => vs,
    };
    let ghost direct = eval_rules_upto(rsv, vv, f.rules@.len() as int);
    match &f.nested {
        None => {},
        Some(NestedSpec::OfStruct(child)) => {
            match child.validate_inner(v, ctx) {
                Err(e) => {
                    return Err(e);
                },
                Ok(mut sub) => {
                    proof {
                        lemma_viols_view_concat(out@, sub@);
                    }
                    out.append(&mut sub);
                },
            }
        },
        Some(NestedSpec::OfItems(child)) => {
            let items: &Vec<Value> = match v {
                Value::VList(its) => its,
                _ => {
                    return Err(UsageError::TypeMismatch);
                },
            };
            proof {
                lemma_values_view(items@);
            }
            let ghost csv = struct_spec_view(**child);
            let ghost itemsv = values_view(items@);
            let ni = items.len();
            let mut m: usize = 0;
            while m < ni
                invariant
                    ni == items.len(),
                    m <= ni,
                    csv == struct_spec_view(**child),
                    itemsv == values_view(items@),
                    itemsv.len() == ni,
                    forall|j: int| 0 <= j < ni ==> itemsv[j] == value_view(items@[j]),
                    c == octx(ctx),
                    usage_items_upto(csv, itemsv, c, m as int) is None,
                    viols_view(out@) == direct + eval_items_upto(csv, itemsv, c, m as int),
                decreases ni - m,
            {
                match child.validate_inner(&items[m], ctx) {
                    Err(e) => {
                        proof {
                            assert(usage_items_upto(csv, itemsv, c, m + 1) == Some(e));
                            lemma_usage_items_propagate(csv, itemsv, c, m + 1, ni as int);
                        }
                        return Err(e);
                    },
                    Ok(sub) => {
                        let ghost subv = viols_view(sub@);
                        let pre = prefix_violations(&Seg::At(m), sub);
                        proof {
                            lemma_viols_view_concat(out@, pre@);
                            assert(eval_items_upto(csv, itemsv, c, m + 1) =~= eval_items_upto(
                                csv,
                                itemsv,
                                c,
                                m as int,
                            ) + prefix_all(SegView::At(m as int), subv));
                            assert(direct + (eval_items_upto(csv, itemsv, c, m as int)
                                + prefix_all(SegView::At(m as int), subv)) =~= (direct
                                + eval_items_upto(csv, itemsv, c, m as int)) + prefix_all(
                                SegView::At(m as int),
                                subv,
                            ));
                        }
                        let mut pre = pre;
                        out.append(&mut pre);
                    },
                }
                m += 1;
            }
        },
        Some(NestedSpec::OfItemRules(item_rules)) => {
            let items: &Vec<Value> = match v {
                Value::VList(its) => its,
                _ => {
                    return Err(UsageError::TypeMismatch);
                },
            };
            proof {
                lemma_values_view(items@);
                lemma_rules_view(item_rules@);
            }
            let ghost irsv = rules_view(item_rules@);
            let ghost itemsv = values_view(items@);
            let ni = items.len();
            let mut m: usize = 0;
            while m < ni
                invariant
                    ni == items.len(),
                    m <= ni,
                    usage_rule_items_upto(irsv, itemsv, m as int) is None,
                    viols_view(out@) == direct + eval_rule_items_upto(irsv, itemsv, m as int),
                decreases ni - m,
            {
                match evaluate_rules(item_rules, &items[m]) {
                    Err(e) => {
                        proof {
                            assert(usage_rule_items_upto(irsv, itemsv, m + 1) == Some(e));
                            lemma_usage_rule_items_propagate(irsv, itemsv, m + 1, ni as int);
                        }
                        return Err(e);
                    },
                    Ok(sub) => {
                        let ghost subv = viols_view(sub@);
                        let pre = prefix_violations(&Seg::At(m), sub);
                        proof {
                            lemma_viols_view_concat(out@, pre@);
                            assert(eval_rule_items_upto(irsv, itemsv, m + 1)
                                =~= eval_rule_items_upto(irsv, itemsv, m as int) + prefix_all(
                                SegView::At(m as int),
                                subv,
                            ));
                            assert(direct + (eval_rule_items_upto(irsv, itemsv, m as int)
                                + prefix_all(SegView::At(m as int), subv)) =~= (direct
                                + eval_rule_items_upto(irsv, itemsv, m as int)) + prefix_all(
                                SegView::At(m as int),
                                subv,
                            ));
                        }
                        let mut pre = pre;
                        out.append(&mut pre);
                    },
                }
                m += 1;
            }
        },
    }
    let seg = Seg::Field(f.name.clone());
    let r = prefix_violations(&seg, out);
    proof {
        assert(viols_view(r@) == eval_field(f@, fvs, c));
    }
    Ok(r)
}

impl StructSpec {
    /// Validates one struct value against this schema: every field in
    /// declaration order, then every struct-level rule in declaration
    /// order, skipping those marked `skip_on_field_errors` when a field
    /// already has violations.
    #[verifier::loop_isolation(false)]
    fn validate_inner(&self, value: &Value, ctx: Option<&DatabaseContex>) -> (r: Result<
        Vec<Violation>,
        UsageError,
    >)
        ensures
            match r {
                Ok(vs) => usage_struct(self@, value@, octx(ctx)) is None && viols_view(vs@)
                    == eval_struct(self@, value@, octx(ctx)),
                Err(e) => usage_struct(self@, value@, octx(ctx)) == Some(e),
            },
        decreases *self, 1int,
    {
        let ghost c = octx(ctx);
        let fields: &Vec<FieldValue> = match value {
            Value::VStruct(fs) => fs,
            _ => {
                return Err(UsageError::TypeMismatch);
            },
        };
        let ghost fvs = field_values_view(fields@);
        let ghost sv = struct_spec_view(*self);
        proof {
            assert(value@ == ValueView::StructOf(fvs));
            lemma_field_specs_view(self.fields@);
        }
        let mut acc: Vec<Violation> = Vec::new();
        let nf = self.fields.len();
        let mut i: usize = 0;
        while i < nf
            invariant
                nf == self.fields.len(),
                i <= nf,
                sv == struct_spec_view(*self),
                sv.fields.len() == nf,
                forall|j: int| 0 <= j < nf ==> sv.fields[j] == field_spec_view(self.fields@[j]),
                fvs == field_values_view(fields@),
                c == octx(ctx),
                usage_fields_upto(sv, fvs, c, i as int) is None,
                viols_view(acc@) == eval_fields_upto(sv, fvs, c, i as int),
            decreases nf - i,
        {
            match validate_field(&self.fields[i], fields, ctx) {
                Err(e) => {
                    proof {
                        assert(usage_fields_upto(sv, fvs, c, i + 1) == Some(e));
                        lemma_usage_fields_propagate(sv, fvs, c, i + 1, nf as int);
                    }
                    return Err(e);
                },
                Ok(mut vs) => {
                    proof {
                        lemma_viols_view_concat(acc@, vs@);
                    }
                    acc.append(&mut vs);
                },
            }
            i += 1;
        }
        let ghost fp = eval_fields_upto(sv, fvs, c, sv.fields.len() as int);
        let field_errs = acc.len() > 0;
        proof {
            assert(field_errs == (fp.len() != 0));
            lemma_struct_rules_view(self.rules@);
        }
        let nr = self.rules.len();
        let mut j: usize = 0;
        while j < nr
            invariant
                nr == self.rules.len(),
                j <= nr,
                sv == struct_spec_view(*self),
                sv.rules.len() == nr,
                forall|k: int| 0 <= k < nr ==> sv.rules[k] == self.rules@[k]@,
                fvs == field_values_view(fields@),
                c == octx(ctx),
                fp == eval_fields_upto(sv, fvs, c, sv.fields.len() as int),
                usage_fields_upto(sv, fvs, c, sv.fields.len() as int) is None,
                field_errs == (fp.len() != 0),
                usage_struct_rules_upto(sv.rules, fvs, c, field_errs, j as int) is None,
                viols_view(acc@) == fp + eval_struct_rules_upto(sv.rules, fvs, c, field_errs, j as int),
            decreases nr - j,
        {
            let rule = &self.rules[j];
            if rule.skip_on_field_errors && field_errs {
                proof {
                    assert(eval_struct_rules_upto(sv.rules, fvs, c, field_errs, j + 1)
                        =~= eval_struct_rules_upto(sv.rules, fvs, c, field_errs, j as int));
                }
            } else {
                match eval_struct_check_exec(rule, fields, ctx) {
                    Err(e) => {
                        proof {
                            assert(usage_struct_rules_upto(sv.rules, fvs, c, field_errs, j + 1)
                                == Some(e));
                            lemma_usage_struct_rules_propagate(
                                sv.rules,
                                fvs,
                                c,
                                field_errs,
                                j + 1,
                                nr as int,
                            );
                        }
                        return Err(e);
                    },
                    Ok(Some(viol)) => {
                        proof {
                            lemma_viols_view_push(acc@, viol);
                            assert(eval_struct_rule(sv.rules[j as int], fvs, c, field_errs)
                                =~= seq![viol@]);
                            assert(viols_view(acc@).push(viol@) =~= viols_view(acc@) + seq![
                                viol@,
                            ]);
                            assert(fp + (eval_struct_rules_upto(sv.rules, fvs, c, field_errs, j as int)
                                + seq![viol@]) =~= (fp + eval_struct_rules_upto(
                                sv.rules,
                                fvs,
                                c,
                                field_errs,
                                j as int,
                            )) + seq![viol@]);
                        }
                        acc.push(viol);
                    },
                    Ok(None) => {
                        proof {
                            assert(eval_struct_rule(sv.rules[j as int], fvs, c, field_errs)
                                =~= Seq::<ViolationView>::empty());
                            assert(eval_struct_rules_upto(sv.rules, fvs, c, field_errs, j + 1)
                                =~= eval_struct_rules_upto(sv.rules, fvs, c, field_errs, j as int));
                        }
                    },
                }
            }
            j += 1;
        }
        proof {
            assert(usage_struct(sv, value@, c) is None);
            assert(viols_view(acc@) == eval_struct(sv, value@, c));
        }
        Ok(acc)
    }

    /// Validates a value against this schema without a context: the
    /// report of every violation found, or the first usage error. An
    /// empty report means the value is valid.
    pub fn validate(&self, value: &Value) -> (r: Result<ErrorReport, UsageError>)
        ensures
            match r {
                Ok(rep) => usage_struct(self@, value@, None) is None && rep@ == eval_struct(
                    self@,
                    value@,
                    None,
                ),
                Err(e) => usage_struct(self@, value@, None) == Some(e),
            },
    {
        match self.validate_inner(value, None) {
            Ok(vs) => Ok(ErrorReport { violations: vs }),
            Err(e) => Err(e),
        }
    }

    /// Validates a value with the caller's read-only context supplied to
    /// the struct-level rules that ask for it. The context is only read,
    /// never kept.
    pub fn validate_with_context(&self, value: &Value, context: &DatabaseContex) -> (r: Result<
        ErrorReport,
        UsageError,
    >)
        ensures
            match r {
                Ok(rep) => usage_struct(self@, value@, Some(context@)) is None && rep@
                    == eval_struct(self@, value@, Some(context@)),
                Err(e) => usage_struct(self@, value@, Some(context@)) == Some(e),
            },
    {
        match self.validate_inner(value, Some(context)) {
            Ok(vs) => Ok(ErrorReport { violations: vs }),
            Err(e) => Err(e),
        }
    }
}

} // verus!
