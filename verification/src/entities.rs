//! The entity types this library ships with, each with its compiled
//! schema, its extraction into the engine's value tree, and a validate
//! method proved to return exactly what the engine's model says. The
//! custom checks (`not_blank`, `password_equals_confirm_password`,
//! `can_register`) are also offered as standalone functions.

use vstd::prelude::*;
use crate::context::DatabaseContex;
use crate::engine::{eval_struct, usage_struct, usage_field, usage_fields_upto, usage_rules_upto, usage_struct_rules_upto, lookup, lookup_from};
use crate::report::ErrorReport;
use crate::rules::{blank, str_blank, CheckView, Rule, RuleView};
use crate::schema::{FieldSpec, FieldSpecView, MessageView, NestedSpecView, StructCheckView, StructRule, StructRuleView, StructSpec, StructSpecView};
use crate::value::{FieldValue, FieldValueView, Value, ValueView};
use vstd::string::StringExecFns;

verus! {

broadcast use vstd::std_specs::vec::group_vec_axioms, vstd::seq::group_seq_axioms, vstd::string::group_string_axioms;

/// What a standalone custom check reports when it fails: the same code
/// and message a schema-level violation would carry.
#[derive(Debug, PartialEq, Eq)]
pub struct ValidationError {
    pub code: String,
    pub message: String,
}

/// Rejects a string that is empty after trimming whitespace.
pub fn not_blank(value: &str) -> (r: Result<(), ValidationError>)
    ensures
        r is Ok <==> !blank(value@),
        r matches Err(e) ==> e.code@ == "not_blank"@ && e.message@ == "value cannot be blank"@,
{
    if str_blank(value) {
        Err(
            ValidationError {
                code: String::from_str("not_blank"),
                message: String::from_str("value cannot be blank"),
            },
        )
    } else {
        Ok(())
    }
}

/// The struct-level equality check between a registration's password and
/// its confirmation, as a standalone function.
pub fn password_equals_confirm_password(request: &RegisterUserRequest) -> (r: Result<
    (),
    ValidationError,
>)
    ensures
        r is Ok <==> request.password@ == request.confirm_password@,
        r matches Err(e) ==> e.code@ == "password_equals_confirm_password"@ && e.message@
            == "password and confirm password must be the same"@,
{
    if request.password == request.confirm_password {
        Ok(())
    } else {
        Err(
            ValidationError {
                code: String::from_str("password_equals_confirm_password"),
                message: String::from_str("password and confirm password must be the same"),
            },
        )
    }
}

/// The struct-level capacity check: registration is allowed while the
/// context still has room, as a standalone function.
pub fn can_register(request: &RegisterUserRequest, context: &DatabaseContex) -> (r: Result<
    (),
    ValidationError,
>)
    ensures
        r is Ok <==> context@.total < context@.max_data,
        r matches Err(e) ==> e.code@ == "can_register"@ && e.message@ == "cannot register user "@
            + request.username@ + ", database is full"@,
{
    if context.has_capacity() {
        Ok(())
    } else {
        let message = String::from_str("cannot register user ").concat(
            request.username.as_str(),
        ).concat(", database is full");
        Err(ValidationError { code: String::from_str("can_register"), message })
    }
}

/// A login request: both fields are length-bounded.
#[derive(Debug)]
pub struct LoginRequest {
    pub username: String,
    pub password: String,
}

/// The view of a length rule under its default code, with a message of
/// its own.
pub open spec fn length_rule_view(min: int, max: int, message: Seq<char>) -> RuleView {
    RuleView { code: "length"@, message, check: CheckView::Length { min: Some(min), max: Some(max) } }
}

/// The schema a login request is validated against.
pub open spec fn login_schema() -> StructSpecView {
    StructSpecView {
        name: "LoginRequest"@,
        fields: seq![
            FieldSpecView {
                name: "username"@,
                rules: seq![
                    length_rule_view(3, 15, "username must be between 3 and 15 character"@),
                ],
                nested: None,
            },
            FieldSpecView {
                name: "password"@,
                rules: seq![
                    length_rule_view(3, 20, "password must be between 3 and 15 character"@),
                ],
                nested: None,
            },
        ],
        rules: Seq::empty(),
    }
}

/// The value tree a login request is extracted to.
pub open spec fn login_value(username: Seq<char>, password: Seq<char>) -> ValueView {
    ValueView::StructOf(
        seq![
            FieldValueView { name: "username"@, value: ValueView::Str(username) },
            FieldValueView { name: "password"@, value: ValueView::Str(password) },
        ],
    )
}

impl LoginRequest {
    /// The compiled schema of this entity, the same on every call.
    pub fn schema() -> (s: StructSpec)
        ensures
            s@ == login_schema(),
    {
        let mut r0: Vec<Rule> = Vec::new();
        r0.push(
            Rule::length(Some(3), Some(15)).with_message(
                String::from_str("username must be between 3 and 15 character"),
            ),
        );
        let mut r1: Vec<Rule> = Vec::new();
        r1.push(
            Rule::length(Some(3), Some(20)).with_message(
                String::from_str("password must be between 3 and 15 character"),
            ),
        );
        let mut fields: Vec<FieldSpec> = Vec::new();
        fields.push(FieldSpec::new(String::from_str("username"), r0));
        fields.push(FieldSpec::new(String::from_str("password"), r1));
        let rules: Vec<StructRule> = Vec::new();
        let s = StructSpec { name: String::from_str("LoginRequest"), fields, rules };
        proof {
            crate::schema::lemma_field_specs_view(s.fields@);
            assert(s@.fields[0].rules =~= login_schema().fields[0].rules);
            assert(s@.fields[1].rules =~= login_schema().fields[1].rules);
            assert(s@.fields[0] =~~= login_schema().fields[0]);
            assert(s@.fields[1] =~~= login_schema().fields[1]);
            assert(s@.fields =~= login_schema().fields);
            assert(s@.rules =~= login_schema().rules);
            assert(s@ =~~= login_schema());
        }
        s
    }

    /// This request as the engine's value tree.
    pub fn to_value(&self) -> (v: Value)
        ensures
            v@ == login_value(self.username@, self.password@),
    {
        let mut fs: Vec<FieldValue> = Vec::new();
        fs.push(
            FieldValue { name: String::from_str("username"), value: Value::VStr(self.username.clone()) },
        );
        fs.push(
            FieldValue { name: String::from_str("password"), value: Value::VStr(self.password.clone()) },
        );
        let v = Value::VStruct(fs);
        proof {
            crate::value::lemma_field_values_view(v->VStruct_0@);
            let av = v@->StructOf_0;
            let bv = login_value(self.username@, self.password@)->StructOf_0;
            assert(av[0] =~~= bv[0]);
            assert(av[1] =~~= bv[1]);
            assert(av =~= bv);
            assert(v@ =~~= login_value(self.username@, self.password@));
        }
        v
    }

    /// Validates this request: `Ok` exactly when every rule of its schema
    /// passes, else the full report.
    pub fn validate(&self) -> (r: Result<(), ErrorReport>)
        ensures
            usage_struct(login_schema(), login_value(self.username@, self.password@), None)
                is None,
            r is Ok <==> eval_struct(
                login_schema(),
                login_value(self.username@, self.password@),
                None,
            ).len() == 0,
            r matches Err(rep) ==> rep@ == eval_struct(
                login_schema(),
                login_value(self.username@, self.password@),
                None,
            ),
    {
        proof {
            lemma_login_usage(self.username@, self.password@);
        }
        let schema = Self::schema();
        let value = self.to_value();
        match schema.validate(&value) {
            Ok(rep) => {
                if rep.is_empty() {
                    Ok(())
                } else {
                    Err(rep)
                }
            },
            // Unreachable: the usage lemma above excludes every usage error.
            Err(_) => Ok(()),
        }
    }
}

/// A login request's schema never raises a usage error on a login
/// request's value: every named field exists and every rule fits.
pub proof fn lemma_login_usage(username: Seq<char>, password: Seq<char>)
    ensures
        usage_struct(login_schema(), login_value(username, password), None) is None,
{
    reveal_strlit("username");
    reveal_strlit("password");
    assert("username"@[0] == 'u');
    assert("password"@[0] == 'p');
    reveal_with_fuel(usage_rules_upto, 3);
    let s = login_schema();
    let v = login_value(username, password);
    let fvs = v->StructOf_0;
    assert(usage_field(s.fields[0], fvs, None) is None);
    assert(lookup_from(fvs, "password"@, 0) == lookup_from(fvs, "password"@, 1));
    assert(usage_field(s.fields[1], fvs, None) is None);
    assert(usage_fields_upto(s, fvs, None, 0) is None);
    assert(usage_fields_upto(s, fvs, None, 1) is None);
    assert(usage_fields_upto(s, fvs, None, 2) is None);
}

/// The view of a length rule under a caller-chosen code, with the
/// default message.
pub open spec fn coded_length_rule_view(code: Seq<char>, min: int, max: int) -> RuleView {
    RuleView {
        code,
        message: "value length is out of bounds"@,
        check: CheckView::Length { min: Some(min), max: Some(max) },
    }
}

/// A postal address: every field is length-bounded.
#[derive(Debug)]
pub struct AddressRequest {
    pub street: String,
    pub city: String,
    pub country: String,
}

/// The schema an address is validated against.
pub open spec fn address_schema() -> StructSpecView {
    StructSpecView {
        name: "AddressRequest"@,
        fields: seq![
            FieldSpecView {
                name: "street"@,
                rules: seq![coded_length_rule_view("length"@, 5, 100)],
                nested: None,
            },
            FieldSpecView {
                name: "city"@,
                rules: seq![coded_length_rule_view("length"@, 5, 100)],
                nested: None,
            },
            FieldSpecView {
                name: "country"@,
                rules: seq![coded_length_rule_view("length"@, 5, 100)],
                nested: None,
            },
        ],
        rules: Seq::empty(),
    }
}

/// The value tree an address is extracted to.
pub open spec fn address_value(street: Seq<char>, city: Seq<char>, country: Seq<char>) -> ValueView {
    ValueView::StructOf(
        seq![
            FieldValueView { name: "street"@, value: ValueView::Str(street) },
            FieldValueView { name: "city"@, value: ValueView::Str(city) },
            FieldValueView { name: "country"@, value: ValueView::Str(country) },
        ],
    )
}

impl AddressRequest {
    /// The compiled schema of this entity, the same on every call.
    pub fn schema() -> (s: StructSpec)
        ensures
            s@ == address_schema(),
    {
        let mut r0: Vec<Rule> = Vec::new();
        r0.push(Rule::length(Some(5), Some(100)));
        let mut r1: Vec<Rule> = Vec::new();
        r1.push(Rule::length(Some(5), Some(100)));
        let mut r2: Vec<Rule> = Vec::new();
        r2.push(Rule::length(Some(5), Some(100)));
        let mut fields: Vec<FieldSpec> = Vec::new();
        fields.push(FieldSpec::new(String::from_str("street"), r0));
        fields.push(FieldSpec::new(String::from_str("city"), r1));
        fields.push(FieldSpec::new(String::from_str("country"), r2));
        let rules: Vec<StructRule> = Vec::new();
        let s = StructSpec { name: String::from_str("AddressRequest"), fields, rules };
        proof {
            crate::schema::lemma_field_specs_view(s.fields@);
            assert(s@.fields[0].rules =~= address_schema().fields[0].rules);
            assert(s@.fields[1].rules =~= address_schema().fields[1].rules);
            assert(s@.fields[2].rules =~= address_schema().fields[2].rules);
            assert(s@.fields[0] =~~= address_schema().fields[0]);
            assert(s@.fields[1] =~~= address_schema().fields[1]);
            assert(s@.fields[2] =~~= address_schema().fields[2]);
            assert(s@.fields =~= address_schema().fields);
            assert(s@.rules =~= address_schema().rules);
            assert(s@ =~~= address_schema());
        }
        s
    }

    /// This address as the engine's value tree.
    pub fn to_value(&self) -> (v: Value)
        ensures
            v@ == address_value(self.street@, self.city@, self.country@),
    {
        let mut fs: Vec<FieldValue> = Vec::new();
        fs.push(
            FieldValue { name: String::from_str("street"), value: Value::VStr(self.street.clone()) },
        );
        fs.push(FieldValue { name: String::from_str("city"), value: Value::VStr(self.city.clone()) });
        fs.push(
            FieldValue { name: String::from_str("country"), value: Value::VStr(self.country.clone()) },
        );
        let v = Value::VStruct(fs);
        proof {
            crate::value::lemma_field_values_view(v->VStruct_0@);
            let av = v@->StructOf_0;
            let bv = address_value(self.street@, self.city@, self.country@)->StructOf_0;
            assert(av[0] =~~= bv[0]);
            assert(av[1] =~~= bv[1]);
            assert(av[2] =~~= bv[2]);
            assert(av =~= bv);
            assert(v@ =~~= address_value(self.street@, self.city@, self.country@));
        }
        v
    }

    /// Validates this address: `Ok` exactly when every rule of its
    /// schema passes, else the full report.
    pub fn validate(&self) -> (r: Result<(), ErrorReport>)
        ensures
            usage_struct(address_schema(), address_value(self.street@, self.city@, self.country@), None) is None,
            r is Ok <==> eval_struct(
                address_schema(),
                address_value(self.street@, self.city@, self.country@),
                None,
            ).len() == 0,
            r matches Err(rep) ==> rep@ == eval_struct(
                address_schema(),
                address_value(self.street@, self.city@, self.country@),
                None,
            ),
    {
        proof {
            lemma_address_usage(self.street@, self.city@, self.country@, None);
        }
        let schema = Self::schema();
        let value = self.to_value();
        match schema.validate(&value) {
            Ok(rep) => {
                if rep.is_empty() {
                    Ok(())
                } else {
                    Err(rep)
                }
            },
            // Unreachable: the usage lemma above excludes every usage error.
            Err(_) => Ok(()),
        }
    }
}

/// An address's schema never raises a usage error on an address's value,
/// with or without a context.
pub proof fn lemma_address_usage(
    street: Seq<char>,
    city: Seq<char>,
    country: Seq<char>,
    ctx: Option<crate::context::ContextView>,
)
    ensures
        usage_struct(address_schema(), address_value(street, city, country), ctx) is None,
{
    reveal_strlit("street");
    reveal_strlit("city");
    reveal_strlit("country");
    assert("street"@[0] == 's');
    assert("city"@[0] == 'c');
    assert("country"@[0] == 'c');
    assert("city"@[1] == 'i');
    assert("country"@[1] == 'o');
    reveal_with_fuel(usage_rules_upto, 3);
    let s = address_schema();
    let v = address_value(street, city, country);
    let fvs = v->StructOf_0;
    assert(usage_field(s.fields[0], fvs, ctx) is None);
    assert(lookup_from(fvs, "city"@, 0) == lookup_from(fvs, "city"@, 1));
    assert(usage_field(s.fields[1], fvs, ctx) is None);
    assert(lookup_from(fvs, "country"@, 0) == lookup_from(fvs, "country"@, 1));
    assert(lookup_from(fvs, "country"@, 1) == lookup_from(fvs, "country"@, 2));
    assert(usage_field(s.fields[2], fvs, ctx) is None);
    assert(usage_fields_upto(s, fvs, ctx, 0) is None);
    assert(usage_fields_upto(s, fvs, ctx, 1) is None);
    assert(usage_fields_upto(s, fvs, ctx, 2) is None);
    assert(usage_fields_upto(s, fvs, ctx, 3) is None);
}

/// A registration request: length-bounded fields, a nested address, and
/// two struct-level rules (password confirmation and, with the caller's
/// context, remaining capacity).
#[derive(Debug)]
pub struct RegisterUserRequest {
    pub username: String,
    pub password: String,
    pub confirm_password: String,
    pub name: String,
    pub address: AddressRequest,
}

/// The schema a registration request is validated against.
pub open spec fn register_schema() -> StructSpecView {
    StructSpecView {
        name: "RegisterUserRequest"@,
        fields: seq![
            FieldSpecView {
                name: "username"@,
                rules: seq![coded_length_rule_view("username"@, 5, 20)],
                nested: None,
            },
            FieldSpecView {
                name: "password"@,
                rules: seq![coded_length_rule_view("password"@, 5, 20)],
                nested: None,
            },
            FieldSpecView {
                name: "confirm_password"@,
                rules: seq![coded_length_rule_view("confirm_password"@, 5, 20)],
                nested: None,
            },
            FieldSpecView {
                name: "name"@,
                rules: seq![coded_length_rule_view("name"@, 5, 100)],
                nested: None,
            },
            FieldSpecView {
                name: "address"@,
                rules: Seq::empty(),
                nested: Some(NestedSpecView::OfStruct(Box::new(address_schema()))),
            },
        ],
        rules: seq![
            StructRuleView {
                code: "password_equals_confirm_password"@,
                message: MessageView::Text("password and confirm password must be the same"@),
                skip_on_field_errors: false,
                check: StructCheckView::FieldsEqual { left: "password"@, right: "confirm_password"@ },
            },
            StructRuleView {
                code: "can_register"@,
                message: (MessageView::WithField {
                    before: "cannot register user "@,
                    field: "username"@,
                    after: ", database is full"@,
                }),
                skip_on_field_errors: false,
                check: StructCheckView::HasCapacity,
            },
        ],
    }
}

/// The value tree a registration request is extracted to.
pub open spec fn register_value(
    username: Seq<char>,
    password: Seq<char>,
    confirm_password: Seq<char>,
    name: Seq<char>,
    street: Seq<char>,
    city: Seq<char>,
    country: Seq<char>,
) -> ValueView {
    ValueView::StructOf(
        seq![
            FieldValueView { name: "username"@, value: ValueView::Str(username) },
            FieldValueView { name: "password"@, value: ValueView::Str(password) },
            FieldValueView { name: "confirm_password"@, value: ValueView::Str(confirm_password) },
            FieldValueView { name: "name"@, value: ValueView::Str(name) },
            FieldValueView { name: "address"@, value: address_value(street, city, country) },
        ],
    )
}

/// The view of one registration request's value tree.
pub open spec fn register_value_of(r: RegisterUserRequest) -> ValueView {
    register_value(
        r.username@,
        r.password@,
        r.confirm_password@,
        r.name@,
        r.address.street@,
        r.address.city@,
        r.address.country@,
    )
}

impl RegisterUserRequest {
    /// The compiled schema of this entity, the same on every call.
    pub fn schema() -> (s: StructSpec)
        ensures
            s@ == register_schema(),
    {
        let mut r0: Vec<Rule> = Vec::new();
        r0.push(Rule::length(Some(5), Some(20)).with_code(String::from_str("username")));
        let mut r1: Vec<Rule> = Vec::new();
        r1.push(Rule::length(Some(5), Some(20)).with_code(String::from_str("password")));
        let mut r2: Vec<Rule> = Vec::new();
        r2.push(Rule::length(Some(5), Some(20)).with_code(String::from_str("confirm_password")));
        let mut r3: Vec<Rule> = Vec::new();
        r3.push(Rule::length(Some(5), Some(100)).with_code(String::from_str("name")));
        let r4: Vec<Rule> = Vec::new();
        let mut fields: Vec<FieldSpec> = Vec::new();
        fields.push(FieldSpec::new(String::from_str("username"), r0));
        fields.push(FieldSpec::new(String::from_str("password"), r1));
        fields.push(FieldSpec::new(String::from_str("confirm_password"), r2));
        fields.push(FieldSpec::new(String::from_str("name"), r3));
        fields.push(
            FieldSpec::nested_struct(String::from_str("address"), r4, AddressRequest::schema()),
        );
        let mut rules: Vec<StructRule> = Vec::new();
        rules.push(
            StructRule::fields_equal(
                String::from_str("password_equals_confirm_password"),
                String::from_str("password and confirm password must be the same"),
                false,
                String::from_str("password"),
                String::from_str("confirm_password"),
            ),
        );
        rules.push(
            StructRule::has_capacity(
                String::from_str("can_register"),
                String::new(),
                false,
            ).with_message_about(
                String::from_str("cannot register user "),
                String::from_str("username"),
                String::from_str(", database is full"),
            ),
        );
        let s = StructSpec { name: String::from_str("RegisterUserRequest"), fields, rules };
        proof {
            crate::schema::lemma_field_specs_view(s.fields@);
            crate::engine::lemma_struct_rules_view(s.rules@);
            assert(s@.fields[0].rules =~= register_schema().fields[0].rules);
            assert(s@.fields[1].rules =~= register_schema().fields[1].rules);
            assert(s@.fields[2].rules =~= register_schema().fields[2].rules);
            assert(s@.fields[3].rules =~= register_schema().fields[3].rules);
            assert(s@.fields[4].rules =~= register_schema().fields[4].rules);
            assert(s@.fields[0] =~~= register_schema().fields[0]);
            assert(s@.fields[1] =~~= register_schema().fields[1]);
            assert(s@.fields[2] =~~= register_schema().fields[2]);
            assert(s@.fields[3] =~~= register_schema().fields[3]);
            assert(s@.fields[4] =~~= register_schema().fields[4]);
            assert(s@.rules[0] =~~= register_schema().rules[0]);
            assert(s@.rules[1] =~~= register_schema().rules[1]);
            assert(s@.fields =~= register_schema().fields);
            assert(s@.rules =~= register_schema().rules);
            assert(s@ =~~= register_schema());
        }
        s
    }

    /// This request as the engine's value tree.
    pub fn to_value(&self) -> (v: Value)
        ensures
            v@ == register_value_of(*self),
    {
        let mut fs: Vec<FieldValue> = Vec::new();
        fs.push(
            FieldValue { name: String::from_str("username"), value: Value::VStr(self.username.clone()) },
        );
        fs.push(
            FieldValue { name: String::from_str("password"), value: Value::VStr(self.password.clone()) },
        );
        fs.push(
            FieldValue {
                name: String::from_str("confirm_password"),
                value: Value::VStr(self.confirm_password.clone()),
            },
        );
        fs.push(FieldValue { name: String::from_str("name"), value: Value::VStr(self.name.clone()) });
        fs.push(FieldValue { name: String::from_str("address"), value: self.address.to_value() });
        let v = Value::VStruct(fs);
        proof {
            crate::value::lemma_field_values_view(v->VStruct_0@);
            let av = v@->StructOf_0;
            let bv = register_value_of(*self)->StructOf_0;
            assert(av[0] =~~= bv[0]);
            assert(av[1] =~~= bv[1]);
            assert(av[2] =~~= bv[2]);
            assert(av[3] =~~= bv[3]);
            assert(av[4] =~~= bv[4]);
            assert(av =~= bv);
            assert(v@ =~~= register_value_of(*self));
        }
        v
    }

    /// Validates this request with the caller's context: `Ok` exactly
    /// when every field rule and both struct-level rules pass, else the
    /// full report. The capacity rule reads the context, so one is
    /// required here.
    pub fn validate_with_context(&self, context: &DatabaseContex) -> (r: Result<(), ErrorReport>)
        ensures
            usage_struct(register_schema(), register_value_of(*self), Some(context@)) is None,
            r is Ok <==> eval_struct(register_schema(), register_value_of(*self), Some(context@)).len() == 0,
            r matches Err(rep) ==> rep@ == eval_struct(
                register_schema(),
                register_value_of(*self),
                Some(context@),
            ),
    {
        proof {
            lemma_register_usage(*self, context@);
        }
        let schema = Self::schema();
        let value = self.to_value();
        match schema.validate_with_context(&value, context) {
            Ok(rep) => {
                if rep.is_empty() {
                    Ok(())
                } else {
                    Err(rep)
                }
            },
            // Unreachable: the usage lemma above excludes every usage error.
            Err(_) => Ok(()),
        }
    }
}

/// A registration's schema never raises a usage error on a registration's
/// value when a context is supplied.
pub proof fn lemma_register_usage(r: RegisterUserRequest, c: crate::context::ContextView)
    ensures
        usage_struct(register_schema(), register_value_of(r), Some(c)) is None,
{
    reveal_strlit("username");
    reveal_strlit("password");
    reveal_strlit("confirm_password");
    reveal_strlit("name");
    reveal_strlit("address");
    assert("username"@[0] == 'u');
    assert("password"@[0] == 'p');
    assert("confirm_password"@[0] == 'c');
    assert("name"@[0] == 'n');
    assert("address"@[0] == 'a');
    reveal_with_fuel(usage_rules_upto, 3);
    let s = register_schema();
    let v = register_value_of(r);
    let fvs = v->StructOf_0;
    let ctx = Some(c);
    assert(usage_field(s.fields[0], fvs, ctx) is None);
    assert(lookup_from(fvs, "password"@, 0) == lookup_from(fvs, "password"@, 1));
    assert(usage_field(s.fields[1], fvs, ctx) is None);
    assert(lookup_from(fvs, "confirm_password"@, 0) == lookup_from(fvs, "confirm_password"@, 1));
    assert(lookup_from(fvs, "confirm_password"@, 1) == lookup_from(fvs, "confirm_password"@, 2));
    assert(usage_field(s.fields[2], fvs, ctx) is None);
    assert(lookup_from(fvs, "name"@, 0) == lookup_from(fvs, "name"@, 1));
    assert(lookup_from(fvs, "name"@, 1) == lookup_from(fvs, "name"@, 2));
    assert(lookup_from(fvs, "name"@, 2) == lookup_from(fvs, "name"@, 3));
    assert(usage_field(s.fields[3], fvs, ctx) is None);
    assert(lookup_from(fvs, "address"@, 0) == lookup_from(fvs, "address"@, 1));
    assert(lookup_from(fvs, "address"@, 1) == lookup_from(fvs, "address"@, 2));
    assert(lookup_from(fvs, "address"@, 2) == lookup_from(fvs, "address"@, 3));
    assert(lookup_from(fvs, "address"@, 3) == lookup_from(fvs, "address"@, 4));
    assert(lookup(fvs, "address"@) == Some(
        address_value(r.address.street@, r.address.city@, r.address.country@),
    ));
    lemma_address_usage(r.address.street@, r.address.city@, r.address.country@, ctx);
    assert(usage_field(s.fields[4], fvs, ctx) is None);
    assert(usage_fields_upto(s, fvs, ctx, 0) is None);
    assert(usage_fields_upto(s, fvs, ctx, 1) is None);
    assert(usage_fields_upto(s, fvs, ctx, 2) is None);
    assert(usage_fields_upto(s, fvs, ctx, 3) is None);
    assert(usage_fields_upto(s, fvs, ctx, 4) is None);
    assert(usage_fields_upto(s, fvs, ctx, 5) is None);
    let field_errs = crate::engine::eval_fields_upto(s, fvs, ctx, 5).len() != 0;
    assert(crate::engine::usage_struct_check(s.rules[0].check, fvs, ctx) is None);
    assert(crate::engine::usage_struct_check(s.rules[1].check, fvs, ctx) is None);
    assert(usage_struct_rules_upto(s.rules, fvs, ctx, field_errs, 0) is None);
    assert(usage_struct_rules_upto(s.rules, fvs, ctx, field_errs, 1) is None);
    assert(usage_struct_rules_upto(s.rules, fvs, ctx, field_errs, 2) is None);
}

/// A category-creation request: both fields use the `not_blank` check.
#[derive(Debug)]
pub struct CreateCategoryRequest {
    pub id: String,
    pub name: String,
}

/// The view of the `not_blank` rule.
pub open spec fn not_blank_rule_view() -> RuleView {
    RuleView { code: "not_blank"@, message: "value cannot be blank"@, check: CheckView::NotBlank }
}

/// The schema a category request is validated against.
pub open spec fn category_schema() -> StructSpecView {
    StructSpecView {
        name: "CreateCategoryRequest"@,
        fields: seq![
            FieldSpecView { name: "id"@, rules: seq![not_blank_rule_view()], nested: None },
            FieldSpecView { name: "name"@, rules: seq![not_blank_rule_view()], nested: None },
        ],
        rules: Seq::empty(),
    }
}

/// The value tree a category request is extracted to.
pub open spec fn category_value(id: Seq<char>, name: Seq<char>) -> ValueView {
    ValueView::StructOf(
        seq![
            FieldValueView { name: "id"@, value: ValueView::Str(id) },
            FieldValueView { name: "name"@, value: ValueView::Str(name) },
        ],
    )
}

impl CreateCategoryRequest {
    /// The compiled schema of this entity, the same on every call.
    pub fn schema() -> (s: StructSpec)
        ensures
            s@ == category_schema(),
    {
        let mut r0: Vec<Rule> = Vec::new();
        r0.push(Rule::not_blank());
        let mut r1: Vec<Rule> = Vec::new();
        r1.push(Rule::not_blank());
        let mut fields: Vec<FieldSpec> = Vec::new();
        fields.push(FieldSpec::new(String::from_str("id"), r0));
        fields.push(FieldSpec::new(String::from_str("name"), r1));
        let rules: Vec<StructRule> = Vec::new();
        let s = StructSpec { name: String::from_str("CreateCategoryRequest"), fields, rules };
        proof {
            crate::schema::lemma_field_specs_view(s.fields@);
            assert(s@.fields[0].rules =~= category_schema().fields[0].rules);
            assert(s@.fields[1].rules =~= category_schema().fields[1].rules);
            assert(s@.fields[0] =~~= category_schema().fields[0]);
            assert(s@.fields[1] =~~= category_schema().fields[1]);
            assert(s@.fields =~= category_schema().fields);
            assert(s@.rules =~= category_schema().rules);
            assert(s@ =~~= category_schema());
        }
        s
    }

    /// This request as the engine's value tree.
    pub fn to_value(&self) -> (v: Value)
        ensures
            v@ == category_value(self.id@, self.name@),
    {
        let mut fs: Vec<FieldValue> = Vec::new();
        fs.push(FieldValue { name: String::from_str("id"), value: Value::VStr(self.id.clone()) });
        fs.push(FieldValue { name: String::from_str("name"), value: Value::VStr(self.name.clone()) });
        let v = Value::VStruct(fs);
        proof {
            crate::value::lemma_field_values_view(v->VStruct_0@);
            let av = v@->StructOf_0;
            let bv = category_value(self.id@, self.name@)->StructOf_0;
            assert(av[0] =~~= bv[0]);
            assert(av[1] =~~= bv[1]);
            assert(av =~= bv);
            assert(v@ =~~= category_value(self.id@, self.name@));
        }
        v
    }

    /// Validates this request: `Ok` exactly when neither field is blank,
    /// else the full report.
    pub fn validate(&self) -> (r: Result<(), ErrorReport>)
        ensures
            usage_struct(category_schema(), category_value(self.id@, self.name@), None) is None,
            r is Ok <==> eval_struct(category_schema(), category_value(self.id@, self.name@), None).len() == 0,
            r matches Err(rep) ==> rep@ == eval_struct(
                category_schema(),
                category_value(self.id@, self.name@),
                None,
            ),
    {
        proof {
            lemma_category_usage(self.id@, self.name@);
        }
        let schema = Self::schema();
        let value = self.to_value();
        match schema.validate(&value) {
            Ok(rep) => {
                if rep.is_empty() {
                    Ok(())
                } else {
                    Err(rep)
                }
            },
            // Unreachable: the usage lemma above excludes every usage error.
            Err(_) => Ok(()),
        }
    }
}

/// A category request's schema never raises a usage error on a category
/// request's value.
pub proof fn lemma_category_usage(id: Seq<char>, name: Seq<char>)
    ensures
        usage_struct(category_schema(), category_value(id, name), None) is None,
{
    reveal_strlit("id");
    reveal_strlit("name");
    assert("id"@.len() == 2);
    assert("name"@.len() == 4);
    reveal_with_fuel(usage_rules_upto, 3);
    let s = category_schema();
    let v = category_value(id, name);
    let fvs = v->StructOf_0;
    assert(usage_field(s.fields[0], fvs, None) is None);
    assert(lookup_from(fvs, "name"@, 0) == lookup_from(fvs, "name"@, 1));
    assert(usage_field(s.fields[1], fvs, None) is None);
    assert(usage_fields_upto(s, fvs, None, 0) is None);
    assert(usage_fields_upto(s, fvs, None, 1) is None);
    assert(usage_fields_upto(s, fvs, None, 2) is None);
}

/// One variant of a product: a length-bounded name and a range-bounded
/// price.
#[derive(Debug)]
pub struct ProductVariant {
    pub name: String,
    pub price: i32,
}

/// The schema a product variant is validated against.
pub open spec fn variant_schema() -> StructSpecView {
    StructSpecView {
        name: "ProductVariant"@,
        fields: seq![
            FieldSpecView {
                name: "name"@,
                rules: seq![coded_length_rule_view("length"@, 3, 100)],
                nested: None,
            },
            FieldSpecView {
                name: "price"@,
                rules: seq![
                    RuleView {
                        code: "range"@,
                        message: "value is out of range"@,
                        check: CheckView::Range { min: Some(1), max: Some(1000000000) },
                    },
                ],
                nested: None,
            },
        ],
        rules: Seq::empty(),
    }
}

/// The value tree a product variant is extracted to.
pub open spec fn variant_value(name: Seq<char>, price: int) -> ValueView {
    ValueView::StructOf(
        seq![
            FieldValueView { name: "name"@, value: ValueView::Str(name) },
            FieldValueView { name: "price"@, value: ValueView::Int(price) },
        ],
    )
}

impl ProductVariant {
    /// The compiled schema of this entity, the same on every call.
    pub fn schema() -> (s: StructSpec)
        ensures
            s@ == variant_schema(),
    {
        let mut r0: Vec<Rule> = Vec::new();
        r0.push(Rule::length(Some(3), Some(100)));
        let mut r1: Vec<Rule> = Vec::new();
        r1.push(Rule::range(Some(1), Some(1000000000)));
        let mut fields: Vec<FieldSpec> = Vec::new();
        fields.push(FieldSpec::new(String::from_str("name"), r0));
        fields.push(FieldSpec::new(String::from_str("price"), r1));
        let rules: Vec<StructRule> = Vec::new();
        let s = StructSpec { name: String::from_str("ProductVariant"), fields, rules };
        proof {
            crate::schema::lemma_field_specs_view(s.fields@);
            assert(s@.fields[0].rules =~= variant_schema().fields[0].rules);
            assert(s@.fields[1].rules =~= variant_schema().fields[1].rules);
            assert(s@.fields[0] =~~= variant_schema().fields[0]);
            assert(s@.fields[1] =~~= variant_schema().fields[1]);
            assert(s@.fields =~= variant_schema().fields);
            assert(s@.rules =~= variant_schema().rules);
            assert(s@ =~~= variant_schema());
        }
        s
    }

    /// This variant as the engine's value tree.
    pub fn to_value(&self) -> (v: Value)
        ensures
            v@ == variant_value(self.name@, self.price as int),
    {
        let mut fs: Vec<FieldValue> = Vec::new();
        fs.push(FieldValue { name: String::from_str("name"), value: Value::VStr(self.name.clone()) });
        fs.push(FieldValue { name: String::from_str("price"), value: Value::VInt(self.price as i64) });
        let v = Value::VStruct(fs);
        proof {
            crate::value::lemma_field_values_view(v->VStruct_0@);
            let av = v@->StructOf_0;
            let bv = variant_value(self.name@, self.price as int)->StructOf_0;
            assert(av[0] =~~= bv[0]);
            assert(av[1] =~~= bv[1]);
            assert(av =~= bv);
            assert(v@ =~~= variant_value(self.name@, self.price as int));
        }
        v
    }
}

/// A variant's schema never raises a usage error on a variant's value,
/// with or without a context.
pub proof fn lemma_variant_usage(
    name: Seq<char>,
    price: int,
    ctx: Option<crate::context::ContextView>,
)
    ensures
        usage_struct(variant_schema(), variant_value(name, price), ctx) is None,
{
    reveal_strlit("name");
    reveal_strlit("price");
    assert("name"@[0] == 'n');
    assert("price"@[0] == 'p');
    reveal_with_fuel(usage_rules_upto, 3);
    let s = variant_schema();
    let v = variant_value(name, price);
    let fvs = v->StructOf_0;
    assert(usage_field(s.fields[0], fvs, ctx) is None);
    assert(lookup_from(fvs, "price"@, 0) == lookup_from(fvs, "price"@, 1));
    assert(usage_field(s.fields[1], fvs, ctx) is None);
    assert(usage_fields_upto(s, fvs, ctx, 0) is None);
    assert(usage_fields_upto(s, fvs, ctx, 1) is None);
    assert(usage_fields_upto(s, fvs, ctx, 2) is None);
}

/// A product: length-bounded identifier and name, and a non-empty list of
/// variants, each validated against the variant schema under its index.
#[derive(Debug)]
pub struct Product {
    pub id: String,
    pub name: String,
    pub variants: Vec<ProductVariant>,
}

/// The views of a product's variants as value trees, in order.
pub open spec fn variant_values(vs: Seq<ProductVariant>) -> Seq<ValueView> {
    vs.map_values(|p: ProductVariant| variant_value(p.name@, p.price as int))
}

/// The schema a product is validated against.
pub open spec fn product_schema() -> StructSpecView {
    StructSpecView {
        name: "Product"@,
        fields: seq![
            FieldSpecView {
                name: "id"@,
                rules: seq![coded_length_rule_view("length"@, 3, 100)],
                nested: None,
            },
            FieldSpecView {
                name: "name"@,
                rules: seq![coded_length_rule_view("length"@, 3, 100)],
                nested: None,
            },
            FieldSpecView {
                name: "variants"@,
                rules: seq![
                    RuleView {
                        code: "length"@,
                        message: "value length is out of bounds"@,
                        check: CheckView::Length { min: Some(1), max: None },
                    },
                ],
                nested: Some(NestedSpecView::OfItems(Box::new(variant_schema()))),
            },
        ],
        rules: Seq::empty(),
    }
}

/// The value tree a product is extracted to: its variants stand in a
/// sequence value.
pub open spec fn product_value(id: Seq<char>, name: Seq<char>, items: Seq<ValueView>) -> ValueView {
    ValueView::StructOf(
        seq![
            FieldValueView { name: "id"@, value: ValueView::Str(id) },
            FieldValueView { name: "name"@, value: ValueView::Str(name) },
            FieldValueView { name: "variants"@, value: ValueView::ListOf(items) },
        ],
    )
}

impl Product {
    /// The compiled schema of this entity, the same on every call.
    pub fn schema() -> (s: StructSpec)
        ensures
            s@ == product_schema(),
    {
        let mut r0: Vec<Rule> = Vec::new();
        r0.push(Rule::length(Some(3), Some(100)));
        let mut r1: Vec<Rule> = Vec::new();
        r1.push(Rule::length(Some(3), Some(100)));
        let mut r2: Vec<Rule> = Vec::new();
        r2.push(Rule::length(Some(1), None));
        let mut fields: Vec<FieldSpec> = Vec::new();
        fields.push(FieldSpec::new(String::from_str("id"), r0));
        fields.push(FieldSpec::new(String::from_str("name"), r1));
        fields.push(
            FieldSpec::nested_items(String::from_str("variants"), r2, ProductVariant::schema()),
        );
        let rules: Vec<StructRule> = Vec::new();
        let s = StructSpec { name: String::from_str("Product"), fields, rules };
        proof {
            crate::schema::lemma_field_specs_view(s.fields@);
            assert(s@.fields[0].rules =~= product_schema().fields[0].rules);
            assert(s@.fields[1].rules =~= product_schema().fields[1].rules);
            assert(s@.fields[2].rules =~= product_schema().fields[2].rules);
            assert(s@.fields[0] =~~= product_schema().fields[0]);
            assert(s@.fields[1] =~~= product_schema().fields[1]);
            assert(s@.fields[2] =~~= product_schema().fields[2]);
            assert(s@.fields =~= product_schema().fields);
            assert(s@.rules =~= product_schema().rules);
            assert(s@ =~~= product_schema());
        }
        s
    }

    /// This product as the engine's value tree.
    pub fn to_value(&self) -> (v: Value)
        ensures
            v@ == product_value(self.id@, self.name@, variant_values(self.variants@)),
    {
        let mut items: Vec<Value> = Vec::new();
        let n = self.variants.len();
        let mut i: usize = 0;
        while i < n
            invariant
                n == self.variants.len(),
                i <= n,
                items@.len() == i,
                forall|j: int| 0 <= j < i ==> crate::value::value_view(#[trigger] items@[j])
                    == variant_values(self.variants@)[j],
            decreases n - i,
        {
            items.push(self.variants[i].to_value());
            i += 1;
        }
        let mut fs: Vec<FieldValue> = Vec::new();
        fs.push(FieldValue { name: String::from_str("id"), value: Value::VStr(self.id.clone()) });
        fs.push(FieldValue { name: String::from_str("name"), value: Value::VStr(self.name.clone()) });
        fs.push(FieldValue { name: String::from_str("variants"), value: Value::VList(items) });
        let v = Value::VStruct(fs);
        proof {
            crate::value::lemma_field_values_view(v->VStruct_0@);
            crate::value::lemma_values_view(v->VStruct_0@[2].value->VList_0@);
            let av = v@->StructOf_0;
            let bv = product_value(self.id@, self.name@, variant_values(self.variants@))->StructOf_0;
            assert(av[0] =~~= bv[0]);
            assert(av[1] =~~= bv[1]);
            assert(av[2].value->ListOf_0 =~= bv[2].value->ListOf_0);
            assert(av[2] =~~= bv[2]);
            assert(av =~= bv);
            assert(v@ =~~= product_value(self.id@, self.name@, variant_values(self.variants@)));
        }
        v
    }

    /// Validates this product: `Ok` exactly when its own rules pass and
    /// every variant passes the variant schema, else the full report.
    pub fn validate(&self) -> (r: Result<(), ErrorReport>)
        ensures
            usage_struct(
                product_schema(),
                product_value(self.id@, self.name@, variant_values(self.variants@)),
                None,
            ) is None,
            r is Ok <==> eval_struct(
                product_schema(),
                product_value(self.id@, self.name@, variant_values(self.variants@)),
                None,
            ).len() == 0,
            r matches Err(rep) ==> rep@ == eval_struct(
                product_schema(),
                product_value(self.id@, self.name@, variant_values(self.variants@)),
                None,
            ),
    {
        proof {
            let items = variant_values(self.variants@);
            assert forall|j: int| 0 <= j < items.len() implies usage_struct(
                variant_schema(),
                #[trigger] items[j],
                None,
            ) is None by {
                lemma_variant_usage(self.variants@[j].name@, self.variants@[j].price as int, None);
            }
            lemma_product_usage(self.id@, self.name@, items);
        }
        let schema = Self::schema();
        let value = self.to_value();
        match schema.validate(&value) {
            Ok(rep) => {
                if rep.is_empty() {
                    Ok(())
                } else {
                    Err(rep)
                }
            },
            // Unreachable: the usage lemma above excludes every usage error.
            Err(_) => Ok(()),
        }
    }
}

/// A product's schema never raises a usage error on a product's value
/// whose every variant fits the variant schema.
pub proof fn lemma_product_usage(id: Seq<char>, name: Seq<char>, items: Seq<ValueView>)
    requires
        forall|j: int| 0 <= j < items.len() ==> usage_struct(variant_schema(), #[trigger] items[j], None)
            is None,
    ensures
        usage_struct(product_schema(), product_value(id, name, items), None) is None,
{
    reveal_strlit("id");
    reveal_strlit("name");
    reveal_strlit("variants");
    assert("id"@[0] == 'i');
    assert("name"@[0] == 'n');
    assert("variants"@[0] == 'v');
    reveal_with_fuel(usage_rules_upto, 3);
    let s = product_schema();
    let v = product_value(id, name, items);
    let fvs = v->StructOf_0;
    assert(usage_field(s.fields[0], fvs, None) is None);
    assert(lookup_from(fvs, "name"@, 0) == lookup_from(fvs, "name"@, 1));
    assert(usage_field(s.fields[1], fvs, None) is None);
    assert(lookup_from(fvs, "variants"@, 0) == lookup_from(fvs, "variants"@, 1));
    assert(lookup_from(fvs, "variants"@, 1) == lookup_from(fvs, "variants"@, 2));
    assert(lookup(fvs, "variants"@) == Some(ValueView::ListOf(items)));
    crate::engine::lemma_usage_items_none(variant_schema(), items, None, items.len() as int);
    assert(usage_field(s.fields[2], fvs, None) is None);
    assert(usage_fields_upto(s, fvs, None, 0) is None);
    assert(usage_fields_upto(s, fvs, None, 1) is None);
    assert(usage_fields_upto(s, fvs, None, 2) is None);
    assert(usage_fields_upto(s, fvs, None, 3) is None);
}

/// An address whose every field is within its length bounds satisfies the
/// address schema.
pub proof fn lemma_address_satisfies(
    street: Seq<char>,
    city: Seq<char>,
    country: Seq<char>,
    ctx: Option<crate::context::ContextView>,
)
    requires
        5 <= street.len() <= 100,
        5 <= city.len() <= 100,
        5 <= country.len() <= 100,
    ensures
        crate::laws::satisfies(address_schema(), address_value(street, city, country), ctx),
{
    reveal_strlit("street");
    reveal_strlit("city");
    reveal_strlit("country");
    assert("street"@[0] == 's');
    assert("city"@[0] == 'c');
    assert("country"@[0] == 'c');
    assert("city"@[1] == 'i');
    assert("country"@[1] == 'o');
    let s = address_schema();
    let v = address_value(street, city, country);
    let fvs = v->StructOf_0;
    assert(lookup_from(fvs, "city"@, 0) == lookup_from(fvs, "city"@, 1));
    assert(lookup_from(fvs, "country"@, 0) == lookup_from(fvs, "country"@, 1));
    assert(lookup_from(fvs, "country"@, 1) == lookup_from(fvs, "country"@, 2));
    assert(crate::laws::satisfies_field(s.fields[0], fvs, ctx)) by {
        assert(lookup(fvs, s.fields[0].name) == Some(ValueView::Str(street)));
        assert forall|j: int| 0 <= j < s.fields[0].rules.len() implies crate::rules::check_passes(
            (#[trigger] s.fields[0].rules[j]).check,
            ValueView::Str(street),
        ) by {
            assert(s.fields[0].rules[j] == coded_length_rule_view("length"@, 5, 100));
        }
    }
    assert(crate::laws::satisfies_field(s.fields[1], fvs, ctx)) by {
        assert(lookup(fvs, s.fields[1].name) == Some(ValueView::Str(city)));
        assert forall|j: int| 0 <= j < s.fields[1].rules.len() implies crate::rules::check_passes(
            (#[trigger] s.fields[1].rules[j]).check,
            ValueView::Str(city),
        ) by {
            assert(s.fields[1].rules[j] == coded_length_rule_view("length"@, 5, 100));
        }
    }
    assert(crate::laws::satisfies_field(s.fields[2], fvs, ctx)) by {
        assert(lookup(fvs, s.fields[2].name) == Some(ValueView::Str(country)));
        assert forall|j: int| 0 <= j < s.fields[2].rules.len() implies crate::rules::check_passes(
            (#[trigger] s.fields[2].rules[j]).check,
            ValueView::Str(country),
        ) by {
            assert(s.fields[2].rules[j] == coded_length_rule_view("length"@, 5, 100));
        }
    }
    assert(crate::laws::satisfies_fields(s, fvs, ctx, 0));
    assert(crate::laws::satisfies_fields(s, fvs, ctx, 1));
    assert(crate::laws::satisfies_fields(s, fvs, ctx, 2));
    assert(crate::laws::satisfies_fields(s, fvs, ctx, 3));
}

/// A registration whose every field is within its length bounds satisfies
/// every field spec of the registration schema.
pub proof fn lemma_register_fields_satisfied(
    r: RegisterUserRequest,
    ctx: Option<crate::context::ContextView>,
)
    requires
        5 <= r.username@.len() <= 20,
        5 <= r.password@.len() <= 20,
        5 <= r.confirm_password@.len() <= 20,
        5 <= r.name@.len() <= 100,
        5 <= r.address.street@.len() <= 100,
        5 <= r.address.city@.len() <= 100,
        5 <= r.address.country@.len() <= 100,
    ensures
        crate::laws::satisfies_fields(
            register_schema(),
            register_value_of(r)->StructOf_0,
            ctx,
            5,
        ),
{
    reveal_strlit("username");
    reveal_strlit("password");
    reveal_strlit("confirm_password");
    reveal_strlit("name");
    reveal_strlit("address");
    assert("username"@[0] == 'u');
    assert("password"@[0] == 'p');
    assert("confirm_password"@[0] == 'c');
    assert("name"@[0] == 'n');
    assert("address"@[0] == 'a');
    let s = register_schema();
    let v = register_value_of(r);
    let fvs = v->StructOf_0;
    assert(crate::laws::satisfies_field(s.fields[0], fvs, ctx)) by {
        assert(lookup(fvs, s.fields[0].name) == Some(ValueView::Str(r.username@)));
        assert forall|j: int| 0 <= j < s.fields[0].rules.len() implies crate::rules::check_passes(
            (#[trigger] s.fields[0].rules[j]).check,
            ValueView::Str(r.username@),
        ) by {
            assert(s.fields[0].rules[j] == coded_length_rule_view("username"@, 5, 20));
        }
    }
    assert(lookup_from(fvs, "password"@, 0) == lookup_from(fvs, "password"@, 1));
    assert(crate::laws::satisfies_field(s.fields[1], fvs, ctx)) by {
        assert(lookup(fvs, s.fields[1].name) == Some(ValueView::Str(r.password@)));
        assert forall|j: int| 0 <= j < s.fields[1].rules.len() implies crate::rules::check_passes(
            (#[trigger] s.fields[1].rules[j]).check,
            ValueView::Str(r.password@),
        ) by {
            assert(s.fields[1].rules[j] == coded_length_rule_view("password"@, 5, 20));
        }
    }
    assert(lookup_from(fvs, "confirm_password"@, 0) == lookup_from(fvs, "confirm_password"@, 1));
    assert(lookup_from(fvs, "confirm_password"@, 1) == lookup_from(fvs, "confirm_password"@, 2));
    assert(crate::laws::satisfies_field(s.fields[2], fvs, ctx)) by {
        assert(lookup(fvs, s.fields[2].name) == Some(ValueView::Str(r.confirm_password@)));
        assert forall|j: int| 0 <= j < s.fields[2].rules.len() implies crate::rules::check_passes(
            (#[trigger] s.fields[2].rules[j]).check,
            ValueView::Str(r.confirm_password@),
        ) by {
            assert(s.fields[2].rules[j] == coded_length_rule_view("confirm_password"@, 5, 20));
        }
    }
    assert(lookup_from(fvs, "name"@, 0) == lookup_from(fvs, "name"@, 1));
    assert(lookup_from(fvs, "name"@, 1) == lookup_from(fvs, "name"@, 2));
    assert(lookup_from(fvs, "name"@, 2) == lookup_from(fvs, "name"@, 3));
    assert(crate::laws::satisfies_field(s.fields[3], fvs, ctx)) by {
        assert(lookup(fvs, s.fields[3].name) == Some(ValueView::Str(r.name@)));
        assert forall|j: int| 0 <= j < s.fields[3].rules.len() implies crate::rules::check_passes(
            (#[trigger] s.fields[3].rules[j]).check,
            ValueView::Str(r.name@),
        ) by {
            assert(s.fields[3].rules[j] == coded_length_rule_view("name"@, 5, 100));
        }
    }
    assert(lookup_from(fvs, "address"@, 0) == lookup_from(fvs, "address"@, 1));
    assert(lookup_from(fvs, "address"@, 1) == lookup_from(fvs, "address"@, 2));
    assert(lookup_from(fvs, "address"@, 2) == lookup_from(fvs, "address"@, 3));
    assert(lookup_from(fvs, "address"@, 3) == lookup_from(fvs, "address"@, 4));
    let av = address_value(r.address.street@, r.address.city@, r.address.country@);
    assert(crate::laws::satisfies_field(s.fields[4], fvs, ctx)) by {
        assert(lookup(fvs, s.fields[4].name) == Some(av));
        lemma_address_satisfies(r.address.street@, r.address.city@, r.address.country@, ctx);
    }
    assert(crate::laws::satisfies_fields(s, fvs, ctx, 0));
    assert(crate::laws::satisfies_fields(s, fvs, ctx, 1));
    assert(crate::laws::satisfies_fields(s, fvs, ctx, 2));
    assert(crate::laws::satisfies_fields(s, fvs, ctx, 3));
    assert(crate::laws::satisfies_fields(s, fvs, ctx, 4));
}

/// A valid-by-construction registration validates cleanly: every field
/// within bounds, matching passwords and remaining capacity give the
/// empty report.
pub proof fn lemma_valid_registration_empty_report(
    r: RegisterUserRequest,
    c: crate::context::ContextView,
)
    requires
        5 <= r.username@.len() <= 20,
        5 <= r.password@.len() <= 20,
        5 <= r.confirm_password@.len() <= 20,
        5 <= r.name@.len() <= 100,
        5 <= r.address.street@.len() <= 100,
        5 <= r.address.city@.len() <= 100,
        5 <= r.address.country@.len() <= 100,
        r.password@ == r.confirm_password@,
        c.total < c.max_data,
    ensures
        crate::laws::satisfies(register_schema(), register_value_of(r), Some(c)),
        eval_struct(register_schema(), register_value_of(r), Some(c))
            =~= Seq::<crate::report::ViolationView>::empty(),
{
    reveal_strlit("username");
    reveal_strlit("password");
    reveal_strlit("confirm_password");
    assert("username"@[0] == 'u');
    assert("password"@[0] == 'p');
    assert("confirm_password"@[0] == 'c');
    let s = register_schema();
    let v = register_value_of(r);
    let fvs = v->StructOf_0;
    let ctx = Some(c);
    lemma_register_fields_satisfied(r, ctx);
    assert(lookup_from(fvs, "password"@, 0) == lookup_from(fvs, "password"@, 1));
    assert(lookup_from(fvs, "confirm_password"@, 0) == lookup_from(fvs, "confirm_password"@, 1));
    assert(lookup_from(fvs, "confirm_password"@, 1) == lookup_from(fvs, "confirm_password"@, 2));
    assert forall|j: int| 0 <= j < s.rules.len() implies crate::engine::eval_struct_check(
        #[trigger] s.rules[j].check,
        fvs,
        ctx,
    ) by {
        assert(lookup(fvs, "password"@) == Some(ValueView::Str(r.password@)));
        assert(lookup(fvs, "confirm_password"@) == Some(ValueView::Str(r.confirm_password@)));
    }
    crate::laws::lemma_valid_instance_empty_report(s, v, ctx);
}

/// A full database is the one thing a valid registration is rejected
/// for: with every field rule passing and matching passwords, a context
/// without room yields exactly one violation, under the empty path, with
/// the code `can_register` and the message naming the user.
pub proof fn lemma_full_database_one_violation(
    r: RegisterUserRequest,
    c: crate::context::ContextView,
)
    requires
        5 <= r.username@.len() <= 20,
        5 <= r.password@.len() <= 20,
        5 <= r.confirm_password@.len() <= 20,
        5 <= r.name@.len() <= 100,
        5 <= r.address.street@.len() <= 100,
        5 <= r.address.city@.len() <= 100,
        5 <= r.address.country@.len() <= 100,
        r.password@ == r.confirm_password@,
        c.total >= c.max_data,
    ensures
        eval_struct(register_schema(), register_value_of(r), Some(c)) =~= seq![
            (crate::report::ViolationView {
                path: Seq::empty(),
                code: "can_register"@,
                message: "cannot register user "@ + r.username@ + ", database is full"@,
            }),
        ],
{
    reveal_strlit("username");
    reveal_strlit("password");
    reveal_strlit("confirm_password");
    assert("username"@[0] == 'u');
    assert("password"@[0] == 'p');
    assert("confirm_password"@[0] == 'c');
    let s = register_schema();
    let v = register_value_of(r);
    let fvs = v->StructOf_0;
    let ctx = Some(c);
    lemma_register_fields_satisfied(r, ctx);
    crate::laws::lemma_valid_fields_empty(s, fvs, ctx, 5);
    let fp = crate::engine::eval_fields_upto(s, fvs, ctx, 5);
    assert(fp.len() == 0);
    assert(lookup_from(fvs, "password"@, 0) == lookup_from(fvs, "password"@, 1));
    assert(lookup_from(fvs, "confirm_password"@, 0) == lookup_from(fvs, "confirm_password"@, 1));
    assert(lookup_from(fvs, "confirm_password"@, 1) == lookup_from(fvs, "confirm_password"@, 2));
    assert(lookup(fvs, "password"@) == Some(ValueView::Str(r.password@)));
    assert(lookup(fvs, "confirm_password"@) == Some(ValueView::Str(r.confirm_password@)));
    assert(crate::engine::eval_struct_check(s.rules[0].check, fvs, ctx));
    assert(crate::engine::eval_struct_rule(s.rules[0], fvs, ctx, false)
        =~= Seq::<crate::report::ViolationView>::empty());
    assert(!crate::engine::eval_struct_check(s.rules[1].check, fvs, ctx));
    assert(lookup(fvs, "username"@) == Some(ValueView::Str(r.username@)));
    assert(crate::engine::resolve_message(s.rules[1].message, fvs) == "cannot register user "@
        + r.username@ + ", database is full"@);
    assert(crate::engine::eval_struct_rules_upto(s.rules, fvs, ctx, false, 0)
        =~= Seq::<crate::report::ViolationView>::empty());
    assert(crate::engine::eval_struct_rules_upto(s.rules, fvs, ctx, false, 1)
        =~= Seq::<crate::report::ViolationView>::empty());
    assert(crate::engine::eval_struct_rules_upto(s.rules, fvs, ctx, false, 2) =~= seq![
        crate::engine::struct_rule_violation(s.rules[1], fvs),
    ]);
}

} // verus!
