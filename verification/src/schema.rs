//! Schemas: the compiled, immutable description of how one entity type is
//! validated. A [`StructSpec`] binds field specs (each a named field with
//! its rules and, for struct- or sequence-typed fields, a nested schema)
//! and struct-level rules that read several fields at once, possibly
//! together with the caller's context.

use vstd::prelude::*;
use crate::rules::{Rule, RuleView};

verus! {

broadcast use vstd::std_specs::vec::group_vec_axioms, vstd::seq::group_seq_axioms;

/// The check a struct-level rule makes against the whole instance.
#[derive(Debug)]
pub enum StructCheck {
    /// The two named string fields must hold the same text.
    FieldsEqual { left: String, right: String },
    /// The context must still have room (`total < max_data`); this check
    /// reads the context and needs one to be supplied.
    HasCapacity,
}

/// The mathematical shape of a struct-level check.
#[verifier::ext_equal]
pub enum StructCheckView {
    FieldsEqual { left: Seq<char>, right: Seq<char> },
    HasCapacity,
}

impl View for StructCheck {
    type V = StructCheckView;

    open spec fn view(&self) -> StructCheckView {
        match self {
            StructCheck::FieldsEqual { left, right } => StructCheckView::FieldsEqual {
                left: left@,
                right: right@,
            },
            StructCheck::HasCapacity => StructCheckView::HasCapacity,
        }
    }
}

/// The message a struct-level rule's violation carries: fixed text, or a
/// template that splices the text of one named field of the instance
/// between two fragments.
#[derive(Debug)]
pub enum Message {
    Text(String),
    WithField { before: String, field: String, after: String },
}

/// The mathematical shape of a message.
#[verifier::ext_equal]
pub enum MessageView {
    Text(Seq<char>),
    WithField { before: Seq<char>, field: Seq<char>, after: Seq<char> },
}

impl View for Message {
    type V = MessageView;

    open spec fn view(&self) -> MessageView {
        match self {
            Message::Text(t) => MessageView::Text(t@),
            Message::WithField { before, field, after } => MessageView::WithField {
                before: before@,
                field: field@,
                after: after@,
            },
        }
    }
}

/// One struct-level rule: its code, message, whether it is skipped when
/// field-level violations were already found, and its check. Struct-level
/// rules run after every field rule, in declaration order.
#[derive(Debug)]
pub struct StructRule {
    pub code: String,
    pub message: Message,
    pub skip_on_field_errors: bool,
    pub check: StructCheck,
}

/// The mathematical shape of a struct-level rule.
#[verifier::ext_equal]
pub struct StructRuleView {
    pub code: Seq<char>,
    pub message: MessageView,
    pub skip_on_field_errors: bool,
    pub check: StructCheckView,
}

impl View for StructRule {
    type V = StructRuleView;

    open spec fn view(&self) -> StructRuleView {
        StructRuleView {
            code: self.code@,
            message: self.message@,
            skip_on_field_errors: self.skip_on_field_errors,
            check: self.check@,
        }
    }
}

/// The nested validator of a struct- or sequence-typed field. The element
/// validator of a sequence field is a schema or a plain rule list, each
/// applied to every element under the element's zero-based index.
#[derive(Debug)]
pub enum NestedSpec {
    /// The field holds one nested struct, validated by this schema.
    OfStruct(Box<StructSpec>),
    /// The field holds an ordered sequence whose every element is
    /// validated by this schema, under the element's zero-based index.
    OfItems(Box<StructSpec>),
    /// The field holds an ordered sequence whose every element is judged
    /// by these rules, under the element's zero-based index.
    OfItemRules(Vec<Rule>),
}

/// The mathematical shape of a nested validator.
#[verifier::ext_equal]
pub enum NestedSpecView {
    OfStruct(Box<StructSpecView>),
    OfItems(Box<StructSpecView>),
    OfItemRules(Seq<RuleView>),
}

/// One field's specification: its name, its rules in declaration order,
/// and, for nested fields, the child validator.
#[derive(Debug)]
pub struct FieldSpec {
    pub name: String,
    pub rules: Vec<Rule>,
    pub nested: Option<NestedSpec>,
}

/// The mathematical shape of a field spec.
#[verifier::ext_equal]
pub struct FieldSpecView {
    pub name: Seq<char>,
    pub rules: Seq<RuleView>,
    pub nested: Option<NestedSpecView>,
}

/// A whole entity's schema: its name, its field specs and its
/// struct-level rules, all in declaration order. Built once per entity
/// type, immutable afterwards, and reusable across validation calls.
#[derive(Debug)]
pub struct StructSpec {
    pub name: String,
    pub fields: Vec<FieldSpec>,
    pub rules: Vec<StructRule>,
}

/// The mathematical shape of a schema.
#[verifier::ext_equal]
pub struct StructSpecView {
    pub name: Seq<char>,
    pub fields: Seq<FieldSpecView>,
    pub rules: Seq<StructRuleView>,
}

/// The views of a sequence of field rules, in order.
pub open spec fn rules_view(rs: Seq<Rule>) -> Seq<RuleView> {
    rs.map_values(|r: Rule| r@)
}

/// The views of a sequence of struct-level rules, in order.
pub open spec fn struct_rules_view(rs: Seq<StructRule>) -> Seq<StructRuleView> {
    rs.map_values(|r: StructRule| r@)
}

/// The view of a schema, defined by structural recursion.
pub open spec fn struct_spec_view(s: StructSpec) -> StructSpecView
    decreases s, 3int, 0int,
{
    StructSpecView {
        name: s.name@,
        fields: field_specs_view(s.fields@),
        rules: struct_rules_view(s.rules@),
    }
}

/// The views of a schema's field specs, in order.
pub open spec fn field_specs_view(fs: Seq<FieldSpec>) -> Seq<FieldSpecView>
    decreases fs, 2int, 0int,
{
    field_specs_view_upto(fs, fs.len() as int)
}

/// The views of the first `n` field specs, in order.
pub open spec fn field_specs_view_upto(fs: Seq<FieldSpec>, n: int) -> Seq<FieldSpecView>
    decreases fs, 1int, n,
{
    if n <= 0 || n > fs.len() {
        Seq::empty()
    } else {
        field_specs_view_upto(fs, n - 1).push(field_spec_view(fs[n - 1]))
    }
}

/// The view of one field spec.
pub open spec fn field_spec_view(f: FieldSpec) -> FieldSpecView
    decreases f, 4int, 0int,
{
    FieldSpecView {
        name: f.name@,
        rules: rules_view(f.rules@),
        nested: match f.nested {
            None => None,
            Some(NestedSpec::OfStruct(s)) => Some(
                NestedSpecView::OfStruct(Box::new(struct_spec_view(*s))),
            ),
            Some(NestedSpec::OfItems(s)) => Some(
                NestedSpecView::OfItems(Box::new(struct_spec_view(*s))),
            ),
            Some(NestedSpec::OfItemRules(rs)) => Some(NestedSpecView::OfItemRules(rules_view(rs@))),
        },
    }
}

pub proof fn lemma_field_specs_view_upto(fs: Seq<FieldSpec>, n: int)
    requires
        0 <= n <= fs.len(),
    ensures
        field_specs_view_upto(fs, n).len() == n,
        forall|i: int| 0 <= i < n ==> field_specs_view_upto(fs, n)[i] == field_spec_view(fs[i]),
    decreases n,
{
    if n > 0 {
        lemma_field_specs_view_upto(fs, n - 1);
    }
}

/// Each field spec's view stands at its position.
pub proof fn lemma_field_specs_view(fs: Seq<FieldSpec>)
    ensures
        field_specs_view(fs).len() == fs.len(),
        forall|i: int| 0 <= i < fs.len() ==> field_specs_view(fs)[i] == field_spec_view(fs[i]),
{
    lemma_field_specs_view_upto(fs, fs.len() as int);
}

impl View for StructSpec {
    type V = StructSpecView;

    open spec fn view(&self) -> StructSpecView {
        struct_spec_view(*self)
    }
}

impl View for FieldSpec {
    type V = FieldSpecView;

    open spec fn view(&self) -> FieldSpecView {
        field_spec_view(*self)
    }
}

impl FieldSpec {
    /// A field spec with the given direct rules and no nested validator.
    pub fn new(name: String, rules: Vec<Rule>) -> (r: FieldSpec)
        ensures
            r@ == (FieldSpecView {
                name: name@,
                rules: rules_view(rules@),
                nested: None::<NestedSpecView>,
            }),
    {
        FieldSpec { name, rules, nested: None }
    }

    /// A field spec whose value is a nested struct, validated by `child`
    /// under this field's name, besides any direct rules.
    pub fn nested_struct(name: String, rules: Vec<Rule>, child: StructSpec) -> (r: FieldSpec)
        ensures
            r@ == (FieldSpecView {
                name: name@,
                rules: rules_view(rules@),
                nested: Some(NestedSpecView::OfStruct(Box::new(child@))),
            }),
    {
        FieldSpec { name, rules, nested: Some(NestedSpec::OfStruct(Box::new(child))) }
    }

    /// A field spec whose value is a sequence, each element validated by
    /// `child` under the element's index, besides any direct rules on
    /// the sequence itself.
    pub fn nested_items(name: String, rules: Vec<Rule>, child: StructSpec) -> (r: FieldSpec)
        ensures
            r@ == (FieldSpecView {
                name: name@,
                rules: rules_view(rules@),
                nested: Some(NestedSpecView::OfItems(Box::new(child@))),
            }),
    {
        FieldSpec { name, rules, nested: Some(NestedSpec::OfItems(Box::new(child))) }
    }
}

impl FieldSpec {
    /// A field spec whose value is a sequence, each element judged by
    /// `item_rules` under the element's index, besides any direct rules
    /// on the sequence itself.
    pub fn items_with_rules(name: String, rules: Vec<Rule>, item_rules: Vec<Rule>) -> (r:
        FieldSpec)
        ensures
            r@ == (FieldSpecView {
                name: name@,
                rules: rules_view(rules@),
                nested: Some(NestedSpecView::OfItemRules(rules_view(item_rules@))),
            }),
    {
        FieldSpec { name, rules, nested: Some(NestedSpec::OfItemRules(item_rules)) }
    }
}

impl StructRule {
    /// A struct-level equality rule between two string fields.
    pub fn fields_equal(
        code: String,
        message: String,
        skip_on_field_errors: bool,
        left: String,
        right: String,
    ) -> (r: StructRule)
        ensures
            r@ == (StructRuleView {
                code: code@,
                message: MessageView::Text(message@),
                skip_on_field_errors,
                check: (StructCheckView::FieldsEqual { left: left@, right: right@ }),
            }),
    {
        StructRule {
            code,
            message: Message::Text(message),
            skip_on_field_errors,
            check: StructCheck::FieldsEqual { left, right },
        }
    }

    /// A struct-level capacity rule: it reads the caller's context.
    pub fn has_capacity(code: String, message: String, skip_on_field_errors: bool) -> (r:
        StructRule)
        ensures
            r@ == (StructRuleView {
                code: code@,
                message: MessageView::Text(message@),
                skip_on_field_errors,
                check: StructCheckView::HasCapacity,
            }),
    {
        StructRule {
            code,
            message: Message::Text(message),
            skip_on_field_errors,
            check: StructCheck::HasCapacity,
        }
    }

    /// The same rule, its violation message now a template that splices
    /// the named field's text between the two fragments.
    pub fn with_message_about(self, before: String, field: String, after: String) -> (r:
        StructRule)
        ensures
            r@ == (StructRuleView {
                code: self@.code,
                message: (MessageView::WithField { before: before@, field: field@, after: after@ }),
                skip_on_field_errors: self@.skip_on_field_errors,
                check: self@.check,
            }),
    {
        StructRule {
            code: self.code,
            message: Message::WithField { before, field, after },
            skip_on_field_errors: self.skip_on_field_errors,
            check: self.check,
        }
    }
}

} // verus!
