//! The structured values that the engine validates: a small dynamic tree
//! of strings, integers, structs with named fields, and sequences. A
//! value-extraction layer (such as the entity types of this crate) turns a
//! concrete data type into this shape once per validation call.

use vstd::prelude::*;

verus! {

broadcast use vstd::std_specs::vec::group_vec_axioms, vstd::seq::group_seq_axioms;

/// A value under validation.
#[derive(Debug)]
pub enum Value {
    /// A text value; length rules count its characters.
    VStr(String),
    /// A numeric value; range rules compare it.
    VInt(i64),
    /// A struct: named fields in declaration order.
    VStruct(Vec<FieldValue>),
    /// An ordered sequence; length rules count its elements.
    VList(Vec<Value>),
}

/// One named field of a struct value.
#[derive(Debug)]
pub struct FieldValue {
    pub name: String,
    pub value: Value,
}

/// The mathematical shape of a value.
#[verifier::ext_equal]
pub enum ValueView {
    Str(Seq<char>),
    Int(int),
    StructOf(Seq<FieldValueView>),
    ListOf(Seq<ValueView>),
}

/// The mathematical shape of one named field.
#[verifier::ext_equal]
pub struct FieldValueView {
    pub name: Seq<char>,
    pub value: ValueView,
}

/// The view of a value, defined by structural recursion.
pub open spec fn value_view(v: Value) -> ValueView
    decreases v, 3int, 0int,
{
    match v {
        Value::VStr(s) => ValueView::Str(s@),
        Value::VInt(i) => ValueView::Int(i as int),
        Value::VStruct(fs) => ValueView::StructOf(field_values_view(fs@)),
        Value::VList(items) => ValueView::ListOf(values_view(items@)),
    }
}

/// The view of one named field.
pub open spec fn field_value_view(f: FieldValue) -> FieldValueView
    decreases f, 4int, 0int,
{
    FieldValueView { name: f.name@, value: value_view(f.value) }
}

/// The views of a struct's fields, in order.
pub open spec fn field_values_view(fs: Seq<FieldValue>) -> Seq<FieldValueView>
    decreases fs, 2int, 0int,
{
    field_values_view_upto(fs, fs.len() as int)
}

/// The views of the first `n` of a struct's fields, in order.
pub open spec fn field_values_view_upto(fs: Seq<FieldValue>, n: int) -> Seq<FieldValueView>
    decreases fs, 1int, n,
{
    if n <= 0 || n > fs.len() {
        Seq::empty()
    } else {
        field_values_view_upto(fs, n - 1).push(field_value_view(fs[n - 1]))
    }
}

/// The views of a sequence's elements, in order.
pub open spec fn values_view(items: Seq<Value>) -> Seq<ValueView>
    decreases items, 2int, 0int,
{
    values_view_upto(items, items.len() as int)
}

/// The views of the first `n` elements of a sequence, in order.
pub open spec fn values_view_upto(items: Seq<Value>, n: int) -> Seq<ValueView>
    decreases items, 1int, n,
{
    if n <= 0 || n > items.len() {
        Seq::empty()
    } else {
        values_view_upto(items, n - 1).push(value_view(items[n - 1]))
    }
}

pub proof fn lemma_field_values_view_upto(fs: Seq<FieldValue>, n: int)
    requires
        0 <= n <= fs.len(),
    ensures
        field_values_view_upto(fs, n).len() == n,
        forall|i: int| 0 <= i < n ==> field_values_view_upto(fs, n)[i] == field_value_view(fs[i]),
    decreases n,
{
    if n > 0 {
        lemma_field_values_view_upto(fs, n - 1);
    }
}

/// Each field's view stands at its field's position.
pub proof fn lemma_field_values_view(fs: Seq<FieldValue>)
    ensures
        field_values_view(fs).len() == fs.len(),
        forall|i: int| 0 <= i < fs.len() ==> field_values_view(fs)[i] == field_value_view(fs[i]),
{
    lemma_field_values_view_upto(fs, fs.len() as int);
}

pub proof fn lemma_values_view_upto(items: Seq<Value>, n: int)
    requires
        0 <= n <= items.len(),
    ensures
        values_view_upto(items, n).len() == n,
        forall|i: int| 0 <= i < n ==> values_view_upto(items, n)[i] == value_view(items[i]),
    decreases n,
{
    if n > 0 {
        lemma_values_view_upto(items, n - 1);
    }
}

/// Each element's view stands at its element's position.
pub proof fn lemma_values_view(items: Seq<Value>)
    ensures
        values_view(items).len() == items.len(),
        forall|i: int| 0 <= i < items.len() ==> values_view(items)[i] == value_view(items[i]),
{
    lemma_values_view_upto(items, items.len() as int);
}

impl View for Value {
    type V = ValueView;

    open spec fn view(&self) -> ValueView {
        value_view(*self)
    }
}

impl View for FieldValue {
    type V = FieldValueView;

    open spec fn view(&self) -> FieldValueView {
        field_value_view(*self)
    }
}

} // verus!
