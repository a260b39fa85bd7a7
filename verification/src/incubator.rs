//! The incubator's reinterpretation step: before the first token of a
//! command is committed, raw typed units are nudged toward a more abstract
//! reading — a terminal event carrying a printable character becomes a
//! character value, and a character that is a decimal digit can also be read
//! as a digit.

use vstd::prelude::*;

use crate::ladder::{TermModel, TypeTerm};
use crate::text::str_eq;

verus! {

/// One labeled scalar value: a character carrying the type term it is
/// currently read as.
pub struct TypedLeaf {
    pub tag: TypeTerm,
    pub value: char,
}

/// Mathematical value of a [`TypedLeaf`].
pub struct LeafModel {
    pub tag: TermModel,
    pub value: char,
}

impl View for TypedLeaf {
    type V = LeafModel;

    open spec fn view(&self) -> LeafModel {
        LeafModel { tag: self.tag@, value: self.value }
    }
}

impl DeepView for TypedLeaf {
    type V = LeafModel;

    open spec fn deep_view(&self) -> LeafModel {
        self.view()
    }
}

/// The one-step reinterpretation of a labeled value: a terminal event is
/// read as the character it carries, and a character that is a decimal
/// digit is read as a base-10 digit; anything else stays as it is.
pub open spec fn spec_incubate(leaf: LeafModel) -> Option<LeafModel> {
    if leaf.tag.id == "TerminalEvent"@ {
        Some(
            LeafModel {
                tag: TermModel { id: "Char"@, params: Seq::empty() },
                value: leaf.value,
            },
        )
    } else if leaf.tag.id == "Char"@ && '0' <= leaf.value <= '9' {
        Some(
            LeafModel {
                tag: TermModel { id: "Digit"@, params: seq!["10"@] },
                value: leaf.value,
            },
        )
    } else {
        None
    }
}

/// Collects raw typed units and offers their next, more abstract reading.
pub struct Incubator {
    pub stack: Vec<TypedLeaf>,
    pub target: TypeTerm,
}

impl Incubator {
    /// An empty incubator aiming at the given target type.
    pub fn new(target: TypeTerm) -> (r: Incubator)
        ensures
            r.stack.deep_view() == Seq::<LeafModel>::empty(),
            r.target@ == target@,
    {
        let r = Incubator { stack: Vec::new(), target };
        proof {
            assert(r.stack.deep_view() =~~= Seq::<LeafModel>::empty());
        }
        r
    }

    /// Reinterprets one labeled value a step toward a more abstract reading,
    /// when one applies.
    pub fn incubate(&self, obj: &TypedLeaf) -> (r: Option<TypedLeaf>)
        ensures
            r.deep_view() == spec_incubate(obj@),
    {
        if str_eq(obj.tag.id.as_str(), "TerminalEvent") {
            let r = TypedLeaf { tag: TypeTerm::new(String::from_str("Char")), value: obj.value };
            proof {
                assert(r@ == spec_incubate(obj@).unwrap());
            }
            Some(r)
        } else if str_eq(obj.tag.id.as_str(), "Char") && '0' <= obj.value && obj.value <= '9' {
            let mut params: Vec<String> = Vec::new();
            params.push(String::from_str("10"));
            let tag = TypeTerm { id: String::from_str("Digit"), params };
            let r = TypedLeaf { tag, value: obj.value };
            proof {
                assert(r.tag@.params =~~= seq!["10"@]);
                assert(r@ == spec_incubate(obj@).unwrap());
            }
            Some(r)
        } else {
            None
        }
    }

    /// Collects one raw character as a character-typed unit.
    pub fn send_cmd(&mut self, c: char)
        ensures
            final(self).stack.deep_view() == old(self).stack.deep_view().push(
                LeafModel { tag: TermModel { id: "Char"@, params: Seq::empty() }, value: c },
            ),
            final(self).target == old(self).target,
    {
        let ghost pre = self.stack.deep_view();
        let leaf = TypedLeaf { tag: TypeTerm::new(String::from_str("Char")), value: c };
        let ghost lm = leaf@;
        self.stack.push(leaf);
        proof {
            assert(lm.tag.params =~~= Seq::<Seq<char>>::empty());
            assert(self.stack.deep_view() =~~= pre.push(lm));
        }
    }
}

} // verus!
