use std::rc::Rc;

use vstd::prelude::*;

verus! {

/// A node of the syntax tree. Nodes are never changed once built, so
/// sub-terms may be shared through `Rc`.
#[derive(Debug, PartialEq)]
pub enum Node {
    Atom(String),
    Variable(String),
    Predicate { name: String, args: Vec<Rc<Node>> },
    Clause { left: Rc<Node>, right: Vec<Rc<Node>> },
    /// Reserved for a rule without a body; the grammar never produces it.
    True,
}

/// The value of an argument: an atom or a variable, by its text.
pub enum TermView {
    Atom(Seq<char>),
    Variable(Seq<char>),
}

/// The value of a predicate: its name and its arguments, in order.
pub struct PredicateView {
    pub name: Seq<char>,
    pub args: Seq<TermView>,
}

/// The value of a clause: a fact, or a head with a non-empty body.
pub enum ClauseView {
    Fact(PredicateView),
    Rule(PredicateView, Seq<PredicateView>),
}

/// `n` is the node of the term `t`.
pub open spec fn shows_term(n: Node, t: TermView) -> bool {
    match t {
        TermView::Atom(a) => n matches Node::Atom(s) && s@ == a,
        TermView::Variable(v) => n matches Node::Variable(s) && s@ == v,
    }
}

pub open spec fn shows_terms(ns: Seq<Rc<Node>>, ts: Seq<TermView>) -> bool {
    &&& ns.len() == ts.len()
    &&& forall|i: int| 0 <= i < ts.len() ==> shows_term(*#[trigger] ns[i], ts[i])
}

/// `n` is the node of the predicate `p`.
pub open spec fn shows_predicate(n: Node, p: PredicateView) -> bool {
    n matches Node::Predicate { name, args } && name@ == p.name && shows_terms(args@, p.args)
}

pub open spec fn shows_predicates(ns: Seq<Rc<Node>>, ps: Seq<PredicateView>) -> bool {
    &&& ns.len() == ps.len()
    &&& forall|i: int| 0 <= i < ps.len() ==> shows_predicate(*#[trigger] ns[i], ps[i])
}

/// `n` is the node of the clause `c`: a fact is its predicate's node.
pub open spec fn shows_clause(n: Node, c: ClauseView) -> bool {
    match c {
        ClauseView::Fact(p) => shows_predicate(n, p),
        ClauseView::Rule(h, b) => n matches Node::Clause { left, right } && shows_predicate(*left, h)
            && shows_predicates(right@, b),
    }
}

pub open spec fn shows_clauses(ns: Seq<Rc<Node>>, cs: Seq<ClauseView>) -> bool {
    &&& ns.len() == cs.len()
    &&& forall|i: int| 0 <= i < cs.len() ==> shows_clause(*#[trigger] ns[i], cs[i])
}

} // verus!
