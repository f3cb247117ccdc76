//! An ordered set of names, kept as a strictly increasing vector.

use vstd::prelude::*;
use crate::text::{lemma_lex_lt_irreflexive, lemma_lex_lt_total, lemma_lex_lt_transitive, lex_lt, text_lt};

verus! {

/// Every name of `names` comes before all that follow it.
pub open spec fn strictly_increasing(names: Seq<String>) -> bool {
    forall|i: int, j: int| 0 <= i < j < names.len() ==> lex_lt(#[trigger] names[i]@, #[trigger] names[j]@)
}

/// The names that occur in `names`.
pub open spec fn names_of(names: Seq<String>) -> Set<Seq<char>> {
    Set::new(|name: Seq<char>| exists|i: int| 0 <= i < names.len() && (#[trigger] names[i])@ == name)
}

/// A set of names that is walked in lexicographic order.
#[derive(Debug)]
pub struct NameSet {
    names: Vec<String>,
}

impl View for NameSet {
    type V = Set<Seq<char>>;

    closed spec fn view(&self) -> Set<Seq<char>> {
        names_of(self.names@)
    }
}

impl NameSet {
    #[verifier::type_invariant]
    spec fn ordered(self) -> bool {
        strictly_increasing(self.names@)
    }

    /// The names in the order in which they are walked.
    pub closed spec fn in_order(self) -> Seq<String> {
        self.names@
    }

    /// What ties the order to the set; it holds of every value of the type.
    pub open spec fn well_formed(self) -> bool {
        &&& strictly_increasing(self.in_order())
        &&& self@ == names_of(self.in_order())
    }

    /// The empty set.
    pub fn new() -> (set: NameSet)
        ensures
            set@ == Set::<Seq<char>>::empty(),
            set.in_order().len() == 0,
            set.well_formed(),
    {
        let set = NameSet { names: Vec::new() };
        assert(set@ =~= Set::<Seq<char>>::empty());
        set
    }

    /// How many names the set holds.
    pub fn len(&self) -> (n: usize)
        ensures
            n == self.in_order().len(),
            self.well_formed(),
    {
        proof {
            use_type_invariant(self);
        }
        self.names.len()
    }

    /// The name at position `i` of the order.
    pub fn get(&self, i: usize) -> (name: &String)
        requires
            i < self.in_order().len(),
        ensures
            *name == self.in_order()[i as int],
            self.well_formed(),
    {
        proof {
            use_type_invariant(self);
        }
        &self.names[i]
    }

    /// Tells whether `name` is in the set.
    pub fn contains(&self, name: &str) -> (yes: bool)
        ensures
            yes == self@.contains(name@),
    {
        let at = self.position(name);
        if at < self.names.len() {
            let hit = !text_lt(name, self.names[at].as_str());
            proof {
                use_type_invariant(self);
                self.lemma_position_decides(name@, at as int);
            }
            hit
        } else {
            proof {
                use_type_invariant(self);
                self.lemma_position_decides(name@, at as int);
            }
            false
        }
    }

    /// Adds `name` to the set.
    pub fn insert(self, name: String) -> (set: NameSet)
        ensures
            set@ == self@.insert(name@),
            set.well_formed(),
    {
        proof {
            use_type_invariant(&self);
        }
        let at = self.position(name.as_str());
        let present = at < self.names.len() && !text_lt(name.as_str(), self.names[at].as_str());
        proof {
            self.lemma_position_decides(name@, at as int);
        }
        if present {
            assert(self@.insert(name@) =~= self@);
            return self;
        }
        let ghost before = self.names@;
        let mut names = self.names;
        names.insert(at, name);
        proof {
            assert forall|i: int, j: int| 0 <= i < j < names@.len() implies lex_lt(
                #[trigger] names@[i]@,
                #[trigger] names@[j]@,
            ) by {
                if i < at && j > at {
                    assert(lex_lt(before[i]@, before[j - 1]@));
                } else if i == at {
                    if j - 1 > at {
                        lemma_lex_lt_transitive(name@, before[at as int]@, before[j - 1]@);
                    }
                } else if j == at {
                } else if j < at {
                } else {
                    assert(lex_lt(before[i - 1]@, before[j - 1]@));
                }
            }
            assert(names_of(names@) =~= names_of(before).insert(name@)) by {
                assert forall|n: Seq<char>| names_of(before).insert(name@).contains(n) implies names_of(
                    names@,
                ).contains(n) by {
                    if n == name@ {
                        assert(names@[at as int]@ == n);
                    } else {
                        let k = choose|k: int| 0 <= k < before.len() && (#[trigger] before[k])@ == n;
                        if k < at {
                            assert(names@[k]@ == n);
                        } else {
                            assert(names@[k + 1]@ == n);
                        }
                    }
                }
                assert forall|n: Seq<char>| names_of(names@).contains(n) implies names_of(
                    before,
                ).insert(name@).contains(n) by {
                    let k = choose|k: int| 0 <= k < names@.len() && (#[trigger] names@[k])@ == n;
                    if k < at {
                        assert(before[k]@ == n);
                    } else if k > at {
                        assert(before[k - 1]@ == n);
                    }
                }
            }
        }
        NameSet { names }
    }

    /// The names in order, as owned strings.
    pub fn to_vec(&self) -> (out: Vec<String>)
        ensures
            out@ == self.in_order(),
            self.well_formed(),
    {
        proof {
            use_type_invariant(self);
        }
        let mut out: Vec<String> = Vec::new();
        let mut i: usize = 0;
        while i < self.names.len()
            invariant
                i <= self.names.len(),
                out@ == self.names@.take(i as int),
            decreases self.names.len() - i,
        {
            out.push(self.names[i].clone());
            proof {
                assert(out@ =~= self.names@.take(i as int + 1));
            }
            i += 1;
        }
        assert(out@ =~= self.names@);
        out
    }

    /// The first position whose name does not come before `name`.
    fn position(&self, name: &str) -> (at: usize)
        ensures
            at <= self.names@.len(),
            forall|i: int| 0 <= i < at ==> lex_lt(#[trigger] self.names@[i]@, name@),
            at < self.names@.len() ==> !lex_lt(self.names@[at as int]@, name@),
    {
        let mut at: usize = 0;
        while at < self.names.len() && text_lt(self.names[at].as_str(), name)
            invariant
                at <= self.names@.len(),
                forall|i: int| 0 <= i < at ==> lex_lt(#[trigger] self.names@[i]@, name@),
            decreases self.names@.len() - at,
        {
            at += 1;
        }
        at
    }

    /// At the position that `position` finds, the name is in the set exactly
    /// if it stands there.
    proof fn lemma_position_decides(self, name: Seq<char>, at: int)
        requires
            self.ordered(),
            0 <= at <= self.names@.len(),
            forall|i: int| 0 <= i < at ==> lex_lt(#[trigger] self.names@[i]@, name),
            at < self.names@.len() ==> !lex_lt(self.names@[at]@, name),
        ensures
            self@.contains(name) <==> (at < self.names@.len() && !lex_lt(name, self.names@[at]@)),
            at < self.names@.len() && !lex_lt(name, self.names@[at]@) ==> self.names@[at]@ == name,
            at < self.names@.len() && lex_lt(name, self.names@[at]@) ==> forall|j: int|
                at <= j < self.names@.len() ==> lex_lt(name, #[trigger] self.names@[j]@),
    {
        if at < self.names@.len() && !lex_lt(name, self.names@[at]@) {
            lemma_lex_lt_total(name, self.names@[at]@);
        }
        if at < self.names@.len() && lex_lt(name, self.names@[at]@) {
            assert forall|j: int| at <= j < self.names@.len() implies lex_lt(
                name,
                #[trigger] self.names@[j]@,
            ) by {
                if j > at {
                    lemma_lex_lt_transitive(name, self.names@[at]@, self.names@[j]@);
                }
            }
        }
        if self@.contains(name) {
            let k = choose|k: int| 0 <= k < self.names@.len() && (#[trigger] self.names@[k])@ == name;
            lemma_lex_lt_irreflexive(name);
            if k > at {
                if lex_lt(name, self.names@[at]@) {
                    lemma_lex_lt_transitive(name, self.names@[at]@, self.names@[k]@);
                }
            }
        }
    }
}

} // verus!
