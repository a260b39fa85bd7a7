//! The process type catalog: an exact-match lookup table from a literal
//! process invocation (the full token vector, flags included) to the type
//! ladders declared for its standard input and standard output.
//!
//! Absence of an entry means "unknown" for that invocation; the type checker
//! treats unknown sides permissively rather than as a failure.

use vstd::prelude::*;

use crate::ladder::{TermModel, TypeLadder};
use crate::text::str_eq;

verus! {

/// Mathematical value of a [`PipeTypes`] pair.
pub struct PipeTypesModel {
    pub stdin_type: Option<Seq<TermModel>>,
    pub stdout_type: Option<Seq<TermModel>>,
}

/// The declared input and output ladders of one invocation, both optional.
pub struct PipeTypes {
    pub stdin_type: Option<TypeLadder>,
    pub stdout_type: Option<TypeLadder>,
}

impl View for PipeTypes {
    type V = PipeTypesModel;

    open spec fn view(&self) -> PipeTypesModel {
        PipeTypesModel {
            stdin_type: self.stdin_type.deep_view(),
            stdout_type: self.stdout_type.deep_view(),
        }
    }
}

impl DeepView for PipeTypes {
    type V = PipeTypesModel;

    open spec fn deep_view(&self) -> PipeTypesModel {
        self.view()
    }
}

/// Mathematical value of one catalog entry.
pub struct EntryModel {
    pub cmd: Seq<Seq<char>>,
    pub types: PipeTypesModel,
}

/// One catalog row: a literal token vector and its declared pipe types.
pub struct CatalogEntry {
    pub cmd: Vec<String>,
    pub types: PipeTypes,
}

impl View for CatalogEntry {
    type V = EntryModel;

    open spec fn view(&self) -> EntryModel {
        EntryModel { cmd: self.cmd.deep_view(), types: self.types.view() }
    }
}

impl DeepView for CatalogEntry {
    type V = EntryModel;

    open spec fn deep_view(&self) -> EntryModel {
        self.view()
    }
}

/// The declared pipe types of the first entry whose token vector equals
/// `cmd`, if any entry does.
pub open spec fn spec_lookup(cat: Seq<EntryModel>, cmd: Seq<Seq<char>>) -> Option<PipeTypesModel>
    decreases cat.len(),
{
    if cat.len() == 0 {
        None
    } else if cat[0].cmd == cmd {
        Some(cat[0].types)
    } else {
        spec_lookup(cat.drop_first(), cmd)
    }
}

/// The declared standard-input ladder of `cmd`, when the catalog has one.
pub open spec fn spec_stdin(cat: Seq<EntryModel>, cmd: Seq<Seq<char>>) -> Option<Seq<TermModel>> {
    match spec_lookup(cat, cmd) {
        Some(t) => t.stdin_type,
        None => None,
    }
}

/// The declared standard-output ladder of `cmd`, when the catalog has one.
pub open spec fn spec_stdout(cat: Seq<EntryModel>, cmd: Seq<Seq<char>>) -> Option<Seq<TermModel>> {
    match spec_lookup(cat, cmd) {
        Some(t) => t.stdout_type,
        None => None,
    }
}

/// Token-vector equality, character for character.
pub fn tokens_eq(a: &Vec<String>, b: &Vec<String>) -> (r: bool)
    ensures
        r == (a.deep_view() == b.deep_view()),
{
    if a.len() != b.len() {
        proof {
            assert(a.deep_view().len() != b.deep_view().len());
        }
        return false;
    }
    let n = a.len();
    let mut i: usize = 0;
    while i < n
        invariant
            n == a.len(),
            n == b.len(),
            i <= n,
            forall|j: int| 0 <= j < i ==> a.deep_view()[j] == b.deep_view()[j],
        decreases n - i,
    {
        if !(a[i] == b[i]) {
            proof {
                assert(a.deep_view()[i as int] != b.deep_view()[i as int]);
            }
            return false;
        }
        i += 1;
    }
    proof {
        assert(a.deep_view() =~= b.deep_view());
    }
    true
}

/// The catalog itself: an ordered list of rows, searched front to back, so
/// the earliest declaration of a token vector is the one in force.
pub struct ProcessTypes {
    pub entries: Vec<CatalogEntry>,
}

impl View for ProcessTypes {
    type V = Seq<EntryModel>;

    open spec fn view(&self) -> Seq<EntryModel> {
        self.entries.deep_view()
    }
}

proof fn lemma_lookup_step(cat: Seq<EntryModel>, cmd: Seq<Seq<char>>, i: int)
    requires
        0 <= i < cat.len(),
        cat.skip(i)[0].cmd != cmd,
    ensures
        spec_lookup(cat.skip(i), cmd) == spec_lookup(cat.skip(i + 1), cmd),
{
    assert(cat.skip(i).drop_first() =~= cat.skip(i + 1));
}

impl ProcessTypes {
    /// An empty catalog: every lookup is "unknown".
    pub fn new() -> (r: ProcessTypes)
        ensures
            r@ == Seq::<EntryModel>::empty(),
    {
        let r = ProcessTypes { entries: Vec::new() };
        proof {
            assert(r@ =~= Seq::<EntryModel>::empty());
        }
        r
    }

    /// Appends a declaration for one literal invocation.
    pub fn declare(&mut self, cmd: Vec<String>, types: PipeTypes)
        ensures
            final(self)@ == old(self)@.push(
                EntryModel { cmd: cmd.deep_view(), types: types@ },
            ),
    {
        let entry = CatalogEntry { cmd, types };
        let ghost entry_model = entry@;
        self.entries.push(entry);
        proof {
            assert(self@ =~= old(self)@.push(entry_model));
        }
    }

    /// Looks up the declared pipe types of the given invocation: the `item`
    /// tag `">0"` selects the standard-input ladder and `"<1"` the
    /// standard-output ladder, as in the catalog's query protocol; any other
    /// tag yields no information.
    pub fn get_type(&self, cmd: &Vec<String>, item: &str) -> (r: Option<TypeLadder>)
        ensures
            item@ == ">0"@ ==> r.deep_view() == spec_stdin(self@, cmd.deep_view()),
            item@ == "<1"@ ==> r.deep_view() == spec_stdout(self@, cmd.deep_view()),
            item@ != ">0"@ && item@ != "<1"@ ==> r is None,
    {
        proof {
            reveal_strlit(">0");
            reveal_strlit("<1");
            assert(">0"@[0] == '>');
            assert("<1"@[0] == '<');
            assert(">0"@ != "<1"@);
        }
        let want_stdin = str_eq(item, ">0");
        let want_stdout = str_eq(item, "<1");
        if !want_stdin && !want_stdout {
            return None;
        }
        let n = self.entries.len();
        let mut i: usize = 0;
        proof {
            assert(self@.skip(0) =~= self@);
        }
        while i < n
            invariant
                n == self@.len(),
                i <= n,
                want_stdin == (item@ == ">0"@),
                want_stdout == (item@ == "<1"@),
                want_stdin || want_stdout,
                ">0"@ != "<1"@,
                spec_lookup(self@, cmd.deep_view()) == spec_lookup(
                    self@.skip(i as int),
                    cmd.deep_view(),
                ),
            decreases n - i,
        {
            if tokens_eq(&self.entries[i].cmd, cmd) {
                proof {
                    assert(self@.skip(i as int)[0] == self@[i as int]);
                    assert(spec_lookup(self@, cmd.deep_view()) == Some(self@[i as int].types));
                }
                let types = &self.entries[i].types;
                if want_stdin {
                    return match &types.stdin_type {
                        Some(l) => Some(l.clone()),
                        None => None,
                    };
                } else {
                    return match &types.stdout_type {
                        Some(l) => Some(l.clone()),
                        None => None,
                    };
                }
            }
            proof {
                assert(self@.skip(i as int)[0] == self@[i as int]);
                lemma_lookup_step(self@, cmd.deep_view(), i as int);
            }
            i += 1;
        }
        proof {
            assert(self@.skip(n as int) =~= Seq::<EntryModel>::empty());
        }
        None
    }

    /// The ladder declared for what the invocation reads on standard input.
    pub fn get_stdin_type(&self, cmd: &Vec<String>) -> (r: Option<TypeLadder>)
        ensures
            r.deep_view() == spec_stdin(self@, cmd.deep_view()),
    {
        self.get_type(cmd, ">0")
    }

    /// The ladder declared for what the invocation writes on standard output.
    pub fn get_stdout_type(&self, cmd: &Vec<String>) -> (r: Option<TypeLadder>)
        ensures
            r.deep_view() == spec_stdout(self@, cmd.deep_view()),
    {
        self.get_type(cmd, "<1")
    }
}

} // verus!
