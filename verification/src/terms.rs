//! Value shapes of the structured query language: what a parsed search term
//! may carry, and the tree that combines the terms of one query.

use vstd::prelude::*;

verus! {

/// One endpoint of a range.
#[derive(Clone, Debug, PartialEq, Eq)]
pub enum Bound<T> {
    /// The endpoint belongs to the range.
    Included(T),
    /// The endpoint is the first value outside the range.
    Excluded(T),
    /// The range has no endpoint on this side.
    Unbounded,
}

/// A primary search value: an exact one, or one to be found anywhere inside
/// the field.
#[derive(Clone, Debug, PartialEq, Eq)]
pub enum Primary {
    /// The field equals the value.
    Equal(String),
    /// The field contains the value.
    Partial(String),
}

impl Primary {
    /// The text that is searched for, whatever the kind of match.
    pub open spec fn text(self) -> Seq<char> {
        match self {
            Primary::Equal(v) => v@,
            Primary::Partial(v) => v@,
        }
    }

    /// The text that is searched for.
    pub fn value(&self) -> (v: &String)
        ensures
            v@ == self.text(),
    {
        match self {
            Primary::Equal(v) => v,
            Primary::Partial(v) => v,
        }
    }
}

/// A comparison against a value of a totally ordered type.
#[derive(Clone, Debug, PartialEq, Eq)]
pub enum Ordered<T> {
    Equal(T),
    Greater(T),
    GreaterEqual(T),
    Less(T),
    LessEqual(T),
    Range(Bound<T>, Bound<T>),
}

/// A comparison against a value of a partially ordered type. There is no
/// test for equality.
#[derive(Clone, Debug, PartialEq, Eq)]
pub enum PartialOrdered<T> {
    Greater(T),
    GreaterEqual(T),
    Less(T),
    LessEqual(T),
    Range(Bound<T>, Bound<T>),
}

/// The terms of a query, combined by negation, conjunction and disjunction.
/// `R` is the resource that a single term matches against.
#[derive(Debug, PartialEq, Eq)]
pub enum SearchTerm<R> {
    Match(R),
    Not(Box<SearchTerm<R>>),
    Or(Vec<SearchTerm<R>>),
    And(Vec<SearchTerm<R>>),
}

/// The mathematical form of a [`SearchTerm`]: the same tree over sequences.
pub enum TermTree<R> {
    Match(R),
    Not(Box<TermTree<R>>),
    Or(Seq<TermTree<R>>),
    And(Seq<TermTree<R>>),
}

impl<R> SearchTerm<R> {
    /// The tree as a mathematical value.
    pub open spec fn tree(self) -> TermTree<R>
        decreases self,
    {
        match self {
            SearchTerm::Match(r) => TermTree::Match(r),
            SearchTerm::Not(t) => TermTree::Not(Box::new(t.tree())),
            SearchTerm::Or(ts) => TermTree::Or(
                Seq::new(
                    ts.len() as nat,
                    |i: int|
                        if 0 <= i < ts.len() {
                            ts[i].tree()
                        } else {
                            TermTree::Or(Seq::empty())
                        },
                ),
            ),
            SearchTerm::And(ts) => TermTree::And(
                Seq::new(
                    ts.len() as nat,
                    |i: int|
                        if 0 <= i < ts.len() {
                            ts[i].tree()
                        } else {
                            TermTree::Or(Seq::empty())
                        },
                ),
            ),
        }
    }
}

impl<R> View for SearchTerm<R> {
    type V = TermTree<R>;

    open spec fn view(&self) -> TermTree<R> {
        self.tree()
    }
}

impl<R> TermTree<R> {
    /// The tree with a conjunction or disjunction of a single term at its
    /// top replaced by that term.
    pub open spec fn compacted(self) -> TermTree<R> {
        match self {
            TermTree::Or(ts) => if ts.len() == 1 {
                ts[0]
            } else {
                self
            },
            TermTree::And(ts) => if ts.len() == 1 {
                ts[0]
            } else {
                self
            },
            _ => self,
        }
    }
}

impl<R> SearchTerm<R> {
    /// Simplifies the top of the tree: a conjunction or disjunction of
    /// exactly one term becomes that term.
    pub fn compact(self) -> (out: SearchTerm<R>)
        ensures
            out@ == self@.compacted(),
    {
        match self {
            SearchTerm::Or(mut terms) => {
                if terms.len() == 1 {
                    terms.pop().unwrap()
                } else {
                    SearchTerm::Or(terms)
                }
            },
            SearchTerm::And(mut terms) => {
                if terms.len() == 1 {
                    terms.pop().unwrap()
                } else {
                    SearchTerm::And(terms)
                }
            },
            other => other,
        }
    }
}

} // verus!
