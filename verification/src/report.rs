//! Violations, field paths and the aggregated error report, together with
//! the errors that a misused schema raises.

use vstd::prelude::*;

verus! {

/// One step in a field path: a named field of a struct, or a zero-based
/// position in a sequence-valued field.
#[derive(Debug, PartialEq, Eq)]
pub enum Seg {
    Field(String),
    At(usize),
}

/// The mathematical shape of a path segment.
#[verifier::ext_equal]
pub enum SegView {
    Field(Seq<char>),
    At(int),
}

impl View for Seg {
    type V = SegView;

    open spec fn view(&self) -> SegView {
        match self {
            Seg::Field(s) => SegView::Field(s@),
            Seg::At(i) => SegView::At(*i as int),
        }
    }
}

impl Clone for Seg {
    fn clone(&self) -> (r: Seg)
        ensures
            r@ == self@,
    {
        match self {
            Seg::Field(s) => Seg::Field(s.clone()),
            Seg::At(i) => Seg::At(*i),
        }
    }
}

/// The view of a whole path: each segment's view, in order.
pub open spec fn segs_view(s: Seq<Seg>) -> Seq<SegView> {
    s.map_values(|x: Seg| x@)
}

pub proof fn lemma_segs_view_push(s: Seq<Seg>, x: Seg)
    ensures
        segs_view(s.push(x)) =~= segs_view(s).push(x@),
{
}

/// One failed rule: the path of the value it concerns, the failed rule's
/// code, and its human-readable message.
#[derive(Debug, PartialEq, Eq)]
pub struct Violation {
    pub path: Vec<Seg>,
    pub code: String,
    pub message: String,
}

/// The mathematical shape of a violation.
#[verifier::ext_equal]
pub struct ViolationView {
    pub path: Seq<SegView>,
    pub code: Seq<char>,
    pub message: Seq<char>,
}

impl View for Violation {
    type V = ViolationView;

    open spec fn view(&self) -> ViolationView {
        ViolationView { path: segs_view(self.path@), code: self.code@, message: self.message@ }
    }
}

/// A mistake by the caller or schema author, distinct from a data-driven
/// violation: validation aborts instead of producing a misleading partial
/// report.
#[derive(Debug, Clone, Copy, PartialEq, Eq, Structural)]
pub enum UsageError {
    /// A schema names a field that the validated value does not have.
    UnknownField,
    /// A rule was applied to a value of a kind it cannot judge.
    TypeMismatch,
    /// A struct-level rule reads the context, but none was supplied.
    MissingContext,
}

/// The aggregated outcome of one validation call: every violation found,
/// in schema declaration order (fields first, struct-level rules last).
/// An empty report means the value is valid.
#[derive(Debug, PartialEq, Eq)]
pub struct ErrorReport {
    pub violations: Vec<Violation>,
}

/// The view of a list of violations: each violation's view, in order.
pub open spec fn viols_view(s: Seq<Violation>) -> Seq<ViolationView> {
    s.map_values(|v: Violation| v@)
}

pub proof fn lemma_viols_view_push(s: Seq<Violation>, v: Violation)
    ensures
        viols_view(s.push(v)) =~= viols_view(s).push(v@),
{
}

impl View for ErrorReport {
    type V = Seq<ViolationView>;

    open spec fn view(&self) -> Seq<ViolationView> {
        viols_view(self.violations@)
    }
}

/// The violations of `rep` whose path equals `path`, keeping their order.
pub open spec fn at_path(rep: Seq<ViolationView>, path: Seq<SegView>) -> Seq<ViolationView> {
    rep.filter(|v: ViolationView| v.path == path)
}

pub proof fn lemma_at_path_push(rep: Seq<ViolationView>, path: Seq<SegView>, v: ViolationView)
    ensures
        v.path == path ==> at_path(rep.push(v), path) == at_path(rep, path).push(v),
        v.path != path ==> at_path(rep.push(v), path) == at_path(rep, path),
{
    reveal(Seq::filter);
    assert(rep.push(v).drop_last() =~= rep);
    assert(rep.push(v).last() == v);
}

/// When two reports say the same thing: under every path, the same
/// violations in the same order. Two equal reports are equivalent; two
/// equivalent reports may still list their paths in different orders.
pub open spec fn reports_equivalent(a: Seq<ViolationView>, b: Seq<ViolationView>) -> bool {
    forall|p: Seq<SegView>| at_path(a, p) == at_path(b, p)
}

/// Equal reports are equivalent.
pub proof fn lemma_equal_reports_equivalent(a: Seq<ViolationView>, b: Seq<ViolationView>)
    requires
        a == b,
    ensures
        reports_equivalent(a, b),
{
}

/// True when the two segments denote the same path step.
pub fn seg_eq(a: &Seg, b: &Seg) -> (r: bool)
    ensures
        r == (a@ == b@),
{
    match (a, b) {
        (Seg::Field(x), Seg::Field(y)) => *x == *y,
        (Seg::At(x), Seg::At(y)) => *x == *y,
        _ => false,
    }
}

/// True when the two paths are equal step for step.
pub fn path_eq(a: &Vec<Seg>, b: &Vec<Seg>) -> (r: bool)
    ensures
        r == (segs_view(a@) == segs_view(b@)),
{
    if a.len() != b.len() {
        proof {
            assert(segs_view(a@).len() != segs_view(b@).len());
        }
        return false;
    }
    let n = a.len();
    let mut i: usize = 0;
    while i < n
        invariant
            n == a.len() == b.len(),
            i <= n,
            forall|j: int| 0 <= j < i ==> segs_view(a@)[j] == segs_view(b@)[j],
        decreases n - i,
    {
        if !seg_eq(&a[i], &b[i]) {
            proof {
                assert(segs_view(a@)[i as int] != segs_view(b@)[i as int]);
            }
            return false;
        }
        i += 1;
    }
    proof {
        assert(segs_view(a@) =~= segs_view(b@));
    }
    true
}

impl Violation {
    /// Builds a violation from its parts.
    pub fn new(path: Vec<Seg>, code: String, message: String) -> (r: Violation)
        ensures
            r@ == (ViolationView { path: segs_view(path@), code: code@, message: message@ }),
    {
        Violation { path, code, message }
    }
}

impl Clone for Violation {
    fn clone(&self) -> (r: Violation)
        ensures
            r@ == self@,
    {
        let mut path: Vec<Seg> = Vec::new();
        let n = self.path.len();
        let mut i: usize = 0;
        while i < n
            invariant
                n == self.path.len(),
                i <= n,
                segs_view(path@) =~= segs_view(self.path@).take(i as int),
            decreases n - i,
        {
            let s = self.path[i].clone();
            proof {
                lemma_segs_view_push(path@, s);
            }
            path.push(s);
            i += 1;
        }
        proof {
            assert(segs_view(path@) =~= segs_view(self.path@));
        }
        let r = Violation { path, code: self.code.clone(), message: self.message.clone() };
        proof {
            assert(r@ =~= self@);
        }
        r
    }
}

impl ErrorReport {
    /// A report with no violations: the outcome on a valid value.
    pub fn new() -> (r: ErrorReport)
        ensures
            r@ == Seq::<ViolationView>::empty(),
    {
        let r = ErrorReport { violations: Vec::new() };
        proof {
            assert(r@ =~= Seq::<ViolationView>::empty());
        }
        r
    }

    /// True when the report holds no violation, i.e. the value was valid.
    pub fn is_empty(&self) -> (r: bool)
        ensures
            r == (self@.len() == 0),
    {
        self.violations.len() == 0
    }

    /// The number of violations in the report.
    pub fn len(&self) -> (r: usize)
        ensures
            r == self@.len(),
    {
        self.violations.len()
    }

    /// The flattened, ordered list of every violation in the report.
    pub fn errors(&self) -> (r: &Vec<Violation>)
        ensures
            viols_view(r@) == self@,
    {
        &self.violations
    }

    /// The violations recorded under exactly the given path, in order.
    pub fn violations_at(&self, path: &Vec<Seg>) -> (r: Vec<Violation>)
        ensures
            viols_view(r@) == at_path(self@, segs_view(path@)),
    {
        let ghost p = segs_view(path@);
        let mut out: Vec<Violation> = Vec::new();
        let n = self.violations.len();
        let mut i: usize = 0;
        while i < n
            invariant
                n == self.violations.len(),
                i <= n,
                p == segs_view(path@),
                viols_view(out@) == at_path(self@.take(i as int), p),
            decreases n - i,
        {
            proof {
                assert(self@.take(i + 1) =~= self@.take(i as int).push(self@[i as int]));
                lemma_at_path_push(self@.take(i as int), p, self@[i as int]);
                assert(self@[i as int] == self.violations@[i as int]@);
            }
            if path_eq(&self.violations[i].path, path) {
                let v = self.violations[i].clone();
                proof {
                    lemma_viols_view_push(out@, v);
                }
                out.push(v);
            }
            i += 1;
        }
        proof {
            assert(self@.take(n as int) =~= self@);
        }
        out
    }
}

} // verus!
