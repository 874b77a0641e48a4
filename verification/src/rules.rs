//! Field-level rules: one atomic check against one value, with the code
//! and message its violations carry. A rule is a pure function of the
//! value it judges; it never mutates the value and reports at most one
//! violation.

use vstd::prelude::*;
use crate::report::{Seg, SegView, UsageError, Violation, ViolationView};
use crate::value::{value_view, Value, ValueView};
use vstd::string::{StrSliceExecFns, StringExecFns};

verus! {

broadcast use vstd::std_specs::vec::group_vec_axioms, vstd::seq::group_seq_axioms;

/// The checks a rule can make. `Length` counts a string's characters or a
/// sequence's elements; `Range` compares a numeric value; `NotBlank`
/// fails a string that is empty once leading and trailing whitespace is
/// trimmed. A bound left as `None` is not enforced; present bounds are
/// inclusive.
#[derive(Debug)]
#[allow(inconsistent_fields)]
pub enum Check {
    Length { min: Option<usize>, max: Option<usize> },
    Range { min: Option<i64>, max: Option<i64> },
    NotBlank,
}

/// The mathematical shape of a check.
#[verifier::ext_equal]
pub enum CheckView {
    Length { min: Option<int>, max: Option<int> },
    Range { min: Option<int>, max: Option<int> },
    NotBlank,
}

impl View for Check {
    type V = CheckView;

    open spec fn view(&self) -> CheckView {
        match self {
            Check::Length { min, max } => CheckView::Length {
                min: match min {
                    Some(m) => Some(*m as int),
                    None => None,
                },
                max: match max {
                    Some(m) => Some(*m as int),
                    None => None,
                },
            },
            Check::Range { min, max } => CheckView::Range {
                min: match min {
                    Some(m) => Some(*m as int),
                    None => None,
                },
                max: match max {
                    Some(m) => Some(*m as int),
                    None => None,
                },
            },
            Check::NotBlank => CheckView::NotBlank,
        }
    }
}

/// One atomic rule: its identifying code, the message its violations
/// carry, and the check it makes.
#[derive(Debug)]
pub struct Rule {
    pub code: String,
    pub message: String,
    pub check: Check,
}

/// The mathematical shape of a rule.
#[verifier::ext_equal]
pub struct RuleView {
    pub code: Seq<char>,
    pub message: Seq<char>,
    pub check: CheckView,
}

impl View for Rule {
    type V = RuleView;

    open spec fn view(&self) -> RuleView {
        RuleView { code: self.code@, message: self.message@, check: self.check@ }
    }
}

/// Whitespace for the purpose of `NotBlank`: the Unicode White_Space
/// characters, exactly those that trimming a string removes.
pub open spec fn is_space(c: char) -> bool {
    ||| c == '\t'
    ||| c == '\n'
    ||| c == '\u{000B}'
    ||| c == '\u{000C}'
    ||| c == '\r'
    ||| c == ' '
    ||| c == '\u{0085}'
    ||| c == '\u{00A0}'
    ||| c == '\u{1680}'
    ||| c == '\u{2000}'
    ||| c == '\u{2001}'
    ||| c == '\u{2002}'
    ||| c == '\u{2003}'
    ||| c == '\u{2004}'
    ||| c == '\u{2005}'
    ||| c == '\u{2006}'
    ||| c == '\u{2007}'
    ||| c == '\u{2008}'
    ||| c == '\u{2009}'
    ||| c == '\u{200A}'
    ||| c == '\u{2028}'
    ||| c == '\u{2029}'
    ||| c == '\u{202F}'
    ||| c == '\u{205F}'
    ||| c == '\u{3000}'
}

/// True when trimming removes this character.
pub fn space_char(c: char) -> (r: bool)
    ensures
        r == is_space(c),
{
    c == '\t' || c == '\n' || c == '\u{000B}' || c == '\u{000C}' || c == '\r' || c == ' '
        || c == '\u{0085}' || c == '\u{00A0}' || c == '\u{1680}' || c == '\u{2000}'
        || c == '\u{2001}' || c == '\u{2002}' || c == '\u{2003}' || c == '\u{2004}'
        || c == '\u{2005}' || c == '\u{2006}' || c == '\u{2007}' || c == '\u{2008}'
        || c == '\u{2009}' || c == '\u{200A}' || c == '\u{2028}' || c == '\u{2029}'
        || c == '\u{202F}' || c == '\u{205F}' || c == '\u{3000}'
}

/// A string is blank when every character is whitespace, i.e. trimming
/// leaves it empty.
pub open spec fn blank(s: Seq<char>) -> bool {
    forall|i: int| 0 <= i < s.len() ==> is_space(s[i])
}

/// The count a length check judges: characters of a string, elements of a
/// sequence. Other kinds of value expose no count.
pub open spec fn count_of(v: ValueView) -> Option<int> {
    match v {
        ValueView::Str(s) => Some(s.len() as int),
        ValueView::ListOf(items) => Some(items.len() as int),
        _ => None,
    }
}

/// Whether a check can judge a value of this kind at all. A check on a
/// kind it cannot judge is a schema mistake, not a violation.
pub open spec fn check_applies(c: CheckView, v: ValueView) -> bool {
    match c {
        CheckView::Length { .. } => count_of(v) is Some,
        CheckView::Range { .. } => v is Int,
        CheckView::NotBlank => v is Str,
    }
}

/// Whether an inclusive bound admits `n`.
pub open spec fn within(n: int, min: Option<int>, max: Option<int>) -> bool {
    &&& (min matches Some(m) ==> n >= m)
    &&& (max matches Some(m) ==> n <= m)
}

/// Whether an applicable check passes on the value.
pub open spec fn check_passes(c: CheckView, v: ValueView) -> bool {
    match c {
        CheckView::Length { min, max } => within(count_of(v)->Some_0, min, max),
        CheckView::Range { min, max } => within(v->Int_0, min, max),
        CheckView::NotBlank => !blank(v->Str_0),
    }
}

/// The violation a rule reports, under the empty path: the validator that
/// runs the rule prefixes the path of the value it judged.
pub open spec fn rule_violation(r: RuleView) -> ViolationView {
    ViolationView { path: Seq::empty(), code: r.code, message: r.message }
}

/// What evaluating one rule against one value yields: no violation when
/// the check passes, one violation when it fails.
pub open spec fn eval_rule(r: RuleView, v: ValueView) -> Seq<ViolationView> {
    if check_applies(r.check, v) && !check_passes(r.check, v) {
        seq![rule_violation(r)]
    } else {
        Seq::empty()
    }
}

/// The usage error evaluating one rule raises, if any.
pub open spec fn usage_rule(r: RuleView, v: ValueView) -> Option<UsageError> {
    if check_applies(r.check, v) {
        None
    } else {
        Some(UsageError::TypeMismatch)
    }
}

/// True when every character of the string is whitespace.
pub fn str_blank(st: &str) -> (r: bool)
    ensures
        r == blank(st@),
{
    let n = st.unicode_len();
    let mut i: usize = 0;
    while i < n
        invariant
            n == st@.len(),
            i <= n,
            forall|j: int| 0 <= j < i ==> is_space(st@[j]),
        decreases n - i,
    {
        let c = st.get_char(i);
        if !space_char(c) {
            proof {
                assert(!is_space(st@[i as int]));
            }
            return false;
        }
        i += 1;
    }
    true
}

/// Runs one check against one value: whether it passes, or the usage
/// error of a check that cannot judge the value's kind.
pub fn check_value(c: &Check, v: &Value) -> (r: Result<bool, UsageError>)
    ensures
        match r {
            Ok(b) => check_applies(c@, v@) && b == check_passes(c@, v@),
            Err(e) => !check_applies(c@, v@) && usage_rule_err(e),
        },
{
    match (c, v) {
        (Check::Length { min, max }, Value::VStr(s)) => {
            let n = s.as_str().unicode_len();
            let min_ok = match min {
                Some(m) => n >= *m,
                None => true,
            };
            let max_ok = match max {
                Some(m) => n <= *m,
                None => true,
            };
            proof {
                assert(value_view(*v) == ValueView::Str(s@));
                assert(check_applies(c@, v@));
            }
            Ok(min_ok && max_ok)
        },
        (Check::Length { min, max }, Value::VList(items)) => {
            let n = items.len();
            let min_ok = match min {
                Some(m) => n >= *m,
                None => true,
            };
            let max_ok = match max {
                Some(m) => n <= *m,
                None => true,
            };
            proof {
                assert(value_view(*v) is ListOf);
                crate::value::lemma_values_view(items@);
                assert(count_of(v@) == Some(items@.len() as int));
                assert(check_applies(c@, v@));
            }
            Ok(min_ok && max_ok)
        },
        (Check::Range { min, max }, Value::VInt(n)) => {
            let min_ok = match min {
                Some(m) => *n >= *m,
                None => true,
            };
            let max_ok = match max {
                Some(m) => *n <= *m,
                None => true,
            };
            proof {
                assert(value_view(*v) == ValueView::Int(*n as int));
                assert(check_applies(c@, v@));
            }
            Ok(min_ok && max_ok)
        },
        (Check::NotBlank, Value::VStr(s)) => {
            proof {
                assert(value_view(*v) == ValueView::Str(s@));
                assert(check_applies(c@, v@));
            }
            Ok(!str_blank(s.as_str()))
        },
        _ => Err(UsageError::TypeMismatch),
    }
}

/// The one usage error a field rule can raise.
pub open spec fn usage_rule_err(e: UsageError) -> bool {
    e == UsageError::TypeMismatch
}

impl Rule {
    /// A length rule with inclusive bounds, under the code `length`.
    pub fn length(min: Option<usize>, max: Option<usize>) -> (r: Rule)
        ensures
            r@ == (RuleView {
                code: "length"@,
                message: "value length is out of bounds"@,
                check: (Check::Length { min, max })@,
            }),
    {
        Rule {
            code: String::from_str("length"),
            message: String::from_str("value length is out of bounds"),
            check: Check::Length { min, max },
        }
    }

    /// A numeric range rule with inclusive bounds, under the code `range`.
    pub fn range(min: Option<i64>, max: Option<i64>) -> (r: Rule)
        ensures
            r@ == (RuleView {
                code: "range"@,
                message: "value is out of range"@,
                check: (Check::Range { min, max })@,
            }),
    {
        Rule {
            code: String::from_str("range"),
            message: String::from_str("value is out of range"),
            check: Check::Range { min, max },
        }
    }

    /// A rule that rejects blank strings, under the code `not_blank`.
    pub fn not_blank() -> (r: Rule)
        ensures
            r@ == (RuleView {
                code: "not_blank"@,
                message: "value cannot be blank"@,
                check: CheckView::NotBlank,
            }),
    {
        Rule {
            code: String::from_str("not_blank"),
            message: String::from_str("value cannot be blank"),
            check: Check::NotBlank,
        }
    }

    /// The same rule under another code.
    pub fn with_code(self, code: String) -> (r: Rule)
        ensures
            r@ == (RuleView { code: code@, message: self@.message, check: self@.check }),
    {
        Rule { code, message: self.message, check: self.check }
    }

    /// The same rule with another message.
    pub fn with_message(self, message: String) -> (r: Rule)
        ensures
            r@ == (RuleView { code: self@.code, message: message@, check: self@.check }),
    {
        Rule { code: self.code, message, check: self.check }
    }

    /// Evaluates the rule against one value: at most one violation, under
    /// the empty path, or the usage error of a check that cannot judge
    /// the value's kind.
    pub fn evaluate(&self, value: &Value) -> (r: Result<Option<Violation>, UsageError>)
        ensures
            match r {
                Ok(Some(v)) => usage_rule(self@, value@) is None && eval_rule(self@, value@)
                    =~= seq![v@],
                Ok(None) => usage_rule(self@, value@) is None && eval_rule(self@, value@)
                    =~= Seq::<ViolationView>::empty(),
                Err(e) => usage_rule(self@, value@) == Some(e),
            },
    {
        let passed: bool = match check_value(&self.check, value) {
            Ok(b) => b,
            Err(e) => {
                return Err(e);
            },
        };
        if passed {
            Ok(None)
        } else {
            let path: Vec<Seg> = Vec::new();
            let v = Violation::new(path, self.code.clone(), self.message.clone());
            proof {
                assert(v@.path =~= rule_violation(self@).path);
                assert(v@ =~= rule_violation(self@));
            }
            Ok(Some(v))
        }
    }
}

} // verus!
