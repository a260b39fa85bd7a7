//! Type terms, type ladders and the ladder compatibility matcher.
//!
//! A type ladder is an ordered chain of representation descriptions, most
//! concrete first, expressing that identical bytes admit several valid
//! interpretations.  The matcher compares a producer's declared output ladder
//! against a consumer's declared input ladder term by term from index 0.

use vstd::prelude::*;

verus! {

/// Mathematical value of a [`TypeTerm`]: an identifier plus its parameters.
pub struct TermModel {
    pub id: Seq<char>,
    pub params: Seq<Seq<char>>,
}

/// One named, optionally parameterized representation kind.
/// Compared by structural equality; never mutated after construction.
pub struct TypeTerm {
    pub id: String,
    pub params: Vec<String>,
}

impl View for TypeTerm {
    type V = TermModel;

    open spec fn view(&self) -> TermModel {
        TermModel { id: self.id@, params: self.params.deep_view() }
    }
}

impl DeepView for TypeTerm {
    type V = TermModel;

    open spec fn deep_view(&self) -> TermModel {
        self.view()
    }
}

impl TypeTerm {
    /// A term with the given identifier and no parameters.
    pub fn new(id: String) -> (r: TypeTerm)
        ensures
            r@.id == id@,
            r@.params == Seq::<Seq<char>>::empty(),
    {
        let r = TypeTerm { id, params: Vec::new() };
        proof {
            assert(r@.params =~= Seq::<Seq<char>>::empty());
        }
        r
    }
}

impl Clone for TypeTerm {
    fn clone(&self) -> (r: Self)
        ensures
            r@ == self@,
    {
        let r = TypeTerm { id: self.id.clone(), params: self.params.clone() };
        proof {
            assert(r.params.deep_view() =~= self.params.deep_view());
        }
        r
    }
}

/// Structural equality of two terms, decided in executable code.
pub fn term_eq(a: &TypeTerm, b: &TypeTerm) -> (r: bool)
    ensures
        r == (a@ == b@),
{
    if !(a.id == b.id) {
        return false;
    }
    if a.params.len() != b.params.len() {
        proof {
            assert(a@.params.len() != b@.params.len());
        }
        return false;
    }
    let n = a.params.len();
    let mut i: usize = 0;
    while i < n
        invariant
            n == a.params.len(),
            n == b.params.len(),
            i <= n,
            a@.id == b@.id,
            forall|j: int| 0 <= j < i ==> a@.params[j] == b@.params[j],
        decreases n - i,
    {
        if !(a.params[i] == b.params[i]) {
            proof {
                assert(a@.params[i as int] != b@.params[i as int]);
            }
            return false;
        }
        i += 1;
    }
    proof {
        assert(a@.params =~= b@.params);
    }
    true
}

/// Ordered chain of type terms; index 0 is the most concrete encoding and
/// increasing index gives a more abstract reading of the same data.
/// An empty ladder carries no information ("unknown").
pub struct TypeLadder {
    pub terms: Vec<TypeTerm>,
}

impl View for TypeLadder {
    type V = Seq<TermModel>;

    open spec fn view(&self) -> Seq<TermModel> {
        self.terms.deep_view()
    }
}

impl DeepView for TypeLadder {
    type V = Seq<TermModel>;

    open spec fn deep_view(&self) -> Seq<TermModel> {
        self.view()
    }
}

impl Clone for TypeLadder {
    fn clone(&self) -> (r: Self)
        ensures
            r@ == self@,
    {
        let r = TypeLadder { terms: self.terms.clone() };
        proof {
            assert(r.terms.deep_view() =~= self.terms.deep_view());
        }
        r
    }
}

impl TypeLadder {
    /// The ladder holding exactly the given terms.
    pub fn new(terms: Vec<TypeTerm>) -> (r: TypeLadder)
        ensures
            r@ == terms.deep_view(),
    {
        TypeLadder { terms }
    }

    /// How many terms the ladder declares.
    pub fn len(&self) -> (n: usize)
        ensures
            n == self@.len(),
    {
        self.terms.len()
    }
}

/// Length of the longest structurally equal prefix of the two sequences.
pub open spec fn common_prefix_len(a: Seq<TermModel>, b: Seq<TermModel>) -> nat
    decreases a.len(),
{
    if a.len() == 0 || b.len() == 0 || a[0] != b[0] {
        0
    } else {
        1 + common_prefix_len(a.drop_first(), b.drop_first())
    }
}

/// The matcher's verdict on one producer/consumer ladder pair.
#[derive(Clone, Copy, PartialEq, Eq, Structural)]
pub enum MatchResult {
    /// The longest common prefix has length `k >= 1`: the producer's
    /// representation is compatible at level `k`.
    Matched(usize),
    /// No common prefix: the first field is the number of equal leading
    /// terms, the second the index in the input ladder where the
    /// comparison diverged.
    Mismatched(usize, usize),
    /// One of the two ladders was empty, so nothing could be compared;
    /// callers must treat this permissively, not as a mismatch.
    Unknown,
}

/// What the matcher returns for the given output/input ladder pair.
pub open spec fn spec_match(out_l: Seq<TermModel>, in_l: Seq<TermModel>) -> MatchResult {
    if out_l.len() == 0 || in_l.len() == 0 {
        MatchResult::Unknown
    } else if common_prefix_len(out_l, in_l) == 0 {
        MatchResult::Mismatched(0, 0)
    } else {
        MatchResult::Matched(common_prefix_len(out_l, in_l) as usize)
    }
}

proof fn lemma_common_prefix_len_bound(a: Seq<TermModel>, b: Seq<TermModel>)
    ensures
        common_prefix_len(a, b) <= a.len(),
        common_prefix_len(a, b) <= b.len(),
    decreases a.len(),
{
    if a.len() == 0 || b.len() == 0 || a[0] != b[0] {
    } else {
        lemma_common_prefix_len_bound(a.drop_first(), b.drop_first());
    }
}

proof fn lemma_common_prefix_len_step(a: Seq<TermModel>, b: Seq<TermModel>, i: int)
    requires
        0 <= i < a.len(),
        0 <= i < b.len(),
        forall|j: int| 0 <= j < i ==> a[j] == b[j],
    ensures
        a[i] == b[i] ==> common_prefix_len(a, b) >= i + 1,
        a[i] != b[i] ==> common_prefix_len(a, b) == i,
    decreases i,
{
    if i == 0 {
        if a[0] == b[0] {
            assert(common_prefix_len(a, b) == 1 + common_prefix_len(
                a.drop_first(),
                b.drop_first(),
            ));
        }
    } else {
        assert(a[0] == b[0]);
        lemma_common_prefix_len_step(a.drop_first(), b.drop_first(), i - 1);
        assert(a.drop_first()[i - 1] == a[i]);
        assert(b.drop_first()[i - 1] == b[i]);
    }
}

impl TypeLadder {
    /// Compares this ladder (a producer's declared output) term by term
    /// against `expected` (the consumer's declared input), from index 0
    /// upward.  Returns `Matched(k)` when the longest common prefix has
    /// length `k >= 1`, `Mismatched` when not even the first terms agree,
    /// and `Unknown` when either ladder is empty.
    pub fn is_matching_repr(&self, expected: &TypeLadder) -> (r: MatchResult)
        ensures
            r == spec_match(self@, expected@),
    {
        if self.terms.len() == 0 || expected.terms.len() == 0 {
            return MatchResult::Unknown;
        }
        let n = if self.terms.len() < expected.terms.len() {
            self.terms.len()
        } else {
            expected.terms.len()
        };
        let mut i: usize = 0;
        while i < n
            invariant
                n <= self@.len(),
                n <= expected@.len(),
                n == if self@.len() < expected@.len() {
                    self@.len()
                } else {
                    expected@.len()
                },
                i <= n,
                forall|j: int| 0 <= j < i ==> self@[j] == expected@[j],
            decreases n - i,
        {
            if !term_eq(&self.terms[i], &expected.terms[i]) {
                proof {
                    lemma_common_prefix_len_step(self@, expected@, i as int);
                }
                if i == 0 {
                    return MatchResult::Mismatched(0, 0);
                } else {
                    return MatchResult::Matched(i);
                }
            }
            i += 1;
        }
        proof {
            lemma_common_prefix_len_bound(self@, expected@);
            lemma_common_prefix_len_step(self@, expected@, n - 1);
        }
        MatchResult::Matched(n)
    }
}

/// For adjacent declared ladders sharing a nonempty structurally equal
/// prefix of length `k` and diverging after it (or with one ladder
/// exhausted after it), the matcher reports `Matched(k)`.
pub proof fn lemma_match_common_prefix(out_l: Seq<TermModel>, in_l: Seq<TermModel>, k: int)
    requires
        1 <= k <= out_l.len(),
        k <= in_l.len(),
        forall|j: int| 0 <= j < k ==> out_l[j] == in_l[j],
        k < out_l.len() && k < in_l.len() ==> out_l[k] != in_l[k],
        out_l.len() <= usize::MAX,
    ensures
        spec_match(out_l, in_l) == MatchResult::Matched(k as usize),
{
    lemma_common_prefix_len_bound(out_l, in_l);
    if k < out_l.len() && k < in_l.len() {
        lemma_common_prefix_len_step(out_l, in_l, k);
    } else {
        lemma_common_prefix_len_step(out_l, in_l, k - 1);
    }
}

/// For adjacent declared ladders, both nonempty, whose first terms already
/// disagree, the matcher reports `Mismatched(0, 0)`.
pub proof fn lemma_match_disjoint(out_l: Seq<TermModel>, in_l: Seq<TermModel>)
    requires
        out_l.len() > 0,
        in_l.len() > 0,
        out_l[0] != in_l[0],
    ensures
        spec_match(out_l, in_l) == MatchResult::Mismatched(0, 0),
{
    lemma_common_prefix_len_step(out_l, in_l, 0);
}

} // verus!
