//! Pattern lookup over argument vectors, the intended generalization of the
//! catalog's exact-match rule: a pattern is a list of atoms, each either a
//! literal token that must appear verbatim or a typed variable that binds
//! whatever token stands in its place.

use vstd::prelude::*;

use crate::ladder::{TermModel, TypeTerm};

verus! {

/// A parsed argument vector in the utility-convention shape: the option
/// groups (each beginning with its option name) and the plain operands.
pub struct IEEEArgs {
    pub options: Vec<Vec<String>>,
    pub operands: Vec<String>,
}

/// The first option group whose name equals `opt`, if any.
pub open spec fn spec_get_option(options: Seq<Seq<Seq<char>>>, opt: Seq<char>) -> Seq<Seq<char>>
    decreases options.len(),
{
    if options.len() == 0 {
        Seq::empty()
    } else if options[0].len() > 0 && options[0][0] == opt {
        options[0]
    } else {
        spec_get_option(options.drop_first(), opt)
    }
}

proof fn lemma_get_option_skip(options: Seq<Seq<Seq<char>>>, opt: Seq<char>, i: int)
    requires
        0 <= i < options.len(),
        !(options[i].len() > 0 && options[i][0] == opt),
    ensures
        spec_get_option(options.skip(i), opt) == spec_get_option(options.skip(i + 1), opt),
{
    assert(options.skip(i)[0] == options[i]);
    assert(options.skip(i).drop_first() =~~= options.skip(i + 1));
}

impl IEEEArgs {
    /// The first option group given under the name `opt`, or nothing when
    /// the option was not given.
    pub fn get_option(&self, opt: String) -> (r: Vec<String>)
        ensures
            r.deep_view() == spec_get_option(self.options.deep_view(), opt@),
    {
        let n = self.options.len();
        let mut i: usize = 0;
        proof {
            assert(self.options.deep_view().skip(0) =~~= self.options.deep_view());
        }
        while i < n
            invariant
                n == self.options.deep_view().len(),
                i <= n,
                spec_get_option(self.options.deep_view(), opt@) == spec_get_option(
                    self.options.deep_view().skip(i as int),
                    opt@,
                ),
            decreases n - i,
        {
            let o = &self.options[i];
            proof {
                assert(o.deep_view() == self.options.deep_view()[i as int]);
            }
            if o.len() > 0 && o[0] == opt {
                let r = o.clone();
                proof {
                    assert(self.options.deep_view().skip(i as int)[0]
                        == self.options.deep_view()[i as int]);
                    assert(r.deep_view() =~~= o.deep_view());
                }
                return r;
            }
            proof {
                lemma_get_option_skip(self.options.deep_view(), opt@, i as int);
            }
            i += 1;
        }
        proof {
            assert(self.options.deep_view().skip(n as int) =~~= Seq::<Seq<Seq<char>>>::empty());
        }
        Vec::new()
    }
}

/// Mathematical value of one pattern atom.
pub enum AtomModel {
    Var(Seq<char>),
    Lit(Seq<char>),
}

/// One pattern position: a typed variable that binds the token standing
/// there, or a literal token that must appear verbatim.
pub enum IEEEArgPatternAtom {
    Var(String),
    Lit(String),
}

impl View for IEEEArgPatternAtom {
    type V = AtomModel;

    open spec fn view(&self) -> AtomModel {
        match self {
            IEEEArgPatternAtom::Var(s) => AtomModel::Var(s@),
            IEEEArgPatternAtom::Lit(s) => AtomModel::Lit(s@),
        }
    }
}

impl DeepView for IEEEArgPatternAtom {
    type V = AtomModel;

    open spec fn deep_view(&self) -> AtomModel {
        self.view()
    }
}

/// A whole argument-vector pattern in the utility convention: the atoms of
/// the option part followed by the atoms of the operand part.
pub struct IEEEArgPattern {
    pub option: Vec<IEEEArgPatternAtom>,
    pub operands: Vec<IEEEArgPatternAtom>,
}

/// A pattern over one literal invocation.
pub enum CommandPattern {
    /// Positional atoms in the utility convention.
    IEEE(IEEEArgPattern),
    /// A regular-expression pattern, resolved by an external matcher that
    /// this checker does not consult.
    RegExp(String),
}

/// Assigns each matched variable name the type term its token stands for.
pub struct Substitution(pub Vec<(String, TypeTerm)>);

impl View for Substitution {
    type V = Seq<(Seq<char>, TermModel)>;

    open spec fn view(&self) -> Seq<(Seq<char>, TermModel)> {
        self.0.deep_view()
    }
}

/// The type term a bound token stands for: the token itself as an
/// unparameterized term.
pub open spec fn spec_term_of_token(tok: Seq<char>) -> TermModel {
    TermModel { id: tok, params: Seq::empty() }
}

/// The bindings produced by matching the atoms against the argument vector
/// position by position, or nothing when some position refuses: the lengths
/// must agree, a literal atom must equal its token, and each variable atom
/// binds its token.
pub open spec fn spec_match_atoms(atoms: Seq<AtomModel>, argv: Seq<Seq<char>>) -> Option<
    Seq<(Seq<char>, TermModel)>,
>
    decreases atoms.len(),
{
    if atoms.len() != argv.len() {
        None
    } else if atoms.len() == 0 {
        Some(Seq::empty())
    } else {
        let rest = spec_match_atoms(atoms.drop_first(), argv.drop_first());
        match atoms[0] {
            AtomModel::Lit(s) => if argv[0] == s {
                rest
            } else {
                None
            },
            AtomModel::Var(v) => match rest {
                Some(bs) => Some(seq![(v, spec_term_of_token(argv[0]))] + bs),
                None => None,
            },
        }
    }
}

proof fn lemma_match_atoms_skip(atoms: Seq<AtomModel>, argv: Seq<Seq<char>>, i: int)
    requires
        atoms.len() == argv.len(),
        0 <= i < atoms.len(),
    ensures
        spec_match_atoms(atoms.skip(i), argv.skip(i)) == ({
            let rest = spec_match_atoms(atoms.skip(i + 1), argv.skip(i + 1));
            match atoms[i] {
                AtomModel::Lit(s) => if argv[i] == s {
                    rest
                } else {
                    None
                },
                AtomModel::Var(v) => match rest {
                    Some(bs) => Some(seq![(v, spec_term_of_token(argv[i]))] + bs),
                    None => None,
                },
            }
        }),
{
    assert(atoms.skip(i)[0] == atoms[i]);
    assert(argv.skip(i)[0] == argv[i]);
    assert(atoms.skip(i).drop_first() =~~= atoms.skip(i + 1));
    assert(argv.skip(i).drop_first() =~~= argv.skip(i + 1));
}

impl CommandPattern {
    /// Matches the pattern against one literal argument vector.  A pattern
    /// in the utility convention matches position by position, its option
    /// atoms first and its operand atoms after them; a regular-expression
    /// pattern yields no substitution here.
    pub fn match_pattern(&self, argv: Vec<String>) -> (r: Option<Substitution>)
        ensures
            match self {
                CommandPattern::IEEE(p) => {
                    let atoms = p.option.deep_view() + p.operands.deep_view();
                    match r {
                        Some(s) => spec_match_atoms(atoms, argv.deep_view()) == Some(s@),
                        None => spec_match_atoms(atoms, argv.deep_view()) is None,
                    }
                },
                CommandPattern::RegExp(_) => r is None,
            },
    {
        let p = match self {
            CommandPattern::IEEE(p) => p,
            CommandPattern::RegExp(_) => {
                return None;
            },
        };
        let ghost atoms = p.option.deep_view() + p.operands.deep_view();
        let opt_len = p.option.len();
        let n = argv.len();
        if n < opt_len || n - opt_len != p.operands.len() {
            proof {
                assert(atoms.len() != argv.deep_view().len());
            }
            return None;
        }
        let mut binds: Vec<(String, TypeTerm)> = Vec::new();
        let mut i: usize = 0;
        proof {
            assert(atoms.skip(0) =~~= atoms);
            assert(argv.deep_view().skip(0) =~~= argv.deep_view());
        }
        while i < n
            invariant
                n == argv.deep_view().len(),
                n == atoms.len(),
                opt_len == p.option.deep_view().len(),
                *self == CommandPattern::IEEE(*p),
                atoms == p.option.deep_view() + p.operands.deep_view(),
                i <= n,
                spec_match_atoms(atoms, argv.deep_view()) == (match spec_match_atoms(
                    atoms.skip(i as int),
                    argv.deep_view().skip(i as int),
                ) {
                    Some(bs) => Some(binds.deep_view() + bs),
                    None => None::<Seq<(Seq<char>, TermModel)>>,
                }),
            decreases n - i,
        {
            proof {
                lemma_match_atoms_skip(atoms, argv.deep_view(), i as int);
            }
            let atom = if i < opt_len {
                &p.option[i]
            } else {
                &p.operands[i - opt_len]
            };
            proof {
                assert(atom.deep_view() == atoms[i as int]);
            }
            match atom {
                IEEEArgPatternAtom::Lit(s) => {
                    if !(*s == argv[i]) {
                        proof {
                            assert(argv.deep_view()[i as int] != s@);
                        }
                        return None;
                    }
                    proof {
                        assert(argv.deep_view()[i as int] == s@);
                    }
                },
                IEEEArgPatternAtom::Var(v) => {
                    let ghost pre = binds.deep_view();
                    let t = TypeTerm::new(argv[i].clone());
                    proof {
                        assert(t@ == spec_term_of_token(argv.deep_view()[i as int]));
                    }
                    binds.push((v.clone(), t));
                    proof {
                        assert(binds.deep_view() =~~= pre.push(
                            (v@, spec_term_of_token(argv.deep_view()[i as int])),
                        ));
                        assert(forall|bs: Seq<(Seq<char>, TermModel)>|
                            pre + (seq![(v@, spec_term_of_token(argv.deep_view()[i as int]))] + bs)
                                =~= binds.deep_view() + bs);
                    }
                },
            }
            i += 1;
        }
        proof {
            assert(atoms.skip(n as int) =~~= Seq::<AtomModel>::empty());
            assert(argv.deep_view().skip(n as int) =~~= Seq::<Seq<char>>::empty());
            assert(binds.deep_view() + Seq::<(Seq<char>, TermModel)>::empty()
                =~~= binds.deep_view());
        }
        Some(Substitution(binds))
    }
}

} // verus!
