use vstd::prelude::*;

verus! {

/// Structural AST for a journey/flow graph.
#[derive(Debug)]
pub enum JourneyAst {
    Empty,
    Sequence(Vec<JourneyAst>),
    Step { label: &'static str },
    Conditional {
        label: &'static str,
        metadata: &'static str,
        left: Box<JourneyAst>,
        right: Box<JourneyAst>,
    },
    While { label: &'static str, metadata: &'static str, body: Box<JourneyAst> },
    Transparent { label: &'static str, metadata: &'static str, body: Box<JourneyAst> },
    Select {
        label: &'static str,
        metadata: &'static str,
        left: Box<JourneyAst>,
        right: Box<JourneyAst>,
    },
    Join {
        label: &'static str,
        metadata: &'static str,
        left: Box<JourneyAst>,
        right: Box<JourneyAst>,
    },
}

/// The nodes of `s` that are not `Empty`, in order.
pub open spec fn non_empty_nodes(s: Seq<JourneyAst>) -> Seq<JourneyAst>
    decreases s.len(),
{
    if s.len() == 0 {
        Seq::empty()
    } else if s.last() is Empty {
        non_empty_nodes(s.drop_last())
    } else {
        non_empty_nodes(s.drop_last()).push(s.last())
    }
}

/// What one node contributes to a flattened sequence: nothing for `Empty`,
/// the non-empty children of a `Sequence`, and the node itself otherwise.
pub open spec fn sequence_contribution(node: JourneyAst) -> Seq<JourneyAst> {
    match node {
        JourneyAst::Empty => Seq::empty(),
        JourneyAst::Sequence(children) => non_empty_nodes(children@),
        _ => seq![node],
    }
}

/// The items of a flattened sequence built from `nodes`, in order.
pub open spec fn sequence_items(nodes: Seq<JourneyAst>) -> Seq<JourneyAst>
    decreases nodes.len(),
{
    if nodes.len() == 0 {
        Seq::empty()
    } else {
        sequence_items(nodes.drop_last()) + sequence_contribution(nodes.last())
    }
}

/// True when a node is `Sequence` whose children are exactly `items`.
pub open spec fn is_sequence_of(node: JourneyAst, items: Seq<JourneyAst>) -> bool {
    match node {
        JourneyAst::Sequence(children) => children@ == items,
        _ => false,
    }
}

impl JourneyAst {
    /// Flattens `nodes` one level into a sequence: `Empty` nodes vanish, the
    /// non-empty children of nested sequences are spliced in, and a result of
    /// zero or one item collapses to `Empty` or to that item.
    pub fn sequence(nodes: Vec<JourneyAst>) -> (result: JourneyAst)
        ensures
            ({
                let flat = sequence_items(nodes@);
                &&& flat.len() == 0 ==> result is Empty
                &&& flat.len() == 1 ==> result == flat[0]
                &&& flat.len() >= 2 ==> is_sequence_of(result, flat)
            }),
    {
        let ghost given = nodes@;
        let mut rest = nodes;
        let total = rest.len();
        let mut flat: Vec<JourneyAst> = Vec::new();
        let mut k: usize = 0;
        while rest.len() > 0
            invariant
                k + rest@.len() == given.len(),
                given.len() == total,
                rest@ == given.skip(k as int),
                flat@ == sequence_items(given.take(k as int)),
            decreases rest@.len(),
        {
            let node = rest.remove(0);
            proof {
                assert(given.take(k as int + 1).drop_last() =~= given.take(k as int));
                assert(given.take(k as int + 1).last() == node);
                assert(rest@ =~= given.skip(k as int + 1));
            }
            match node {
                JourneyAst::Empty => {
                    proof {
                        assert(sequence_contribution(JourneyAst::Empty) =~= Seq::<JourneyAst>::empty());
                        assert(flat@ + Seq::<JourneyAst>::empty() =~= flat@);
                    }
                },
                JourneyAst::Sequence(children) => {
                    let ghost start = flat@;
                    let ghost kids = children@;
                    let mut children = children;
                    let kids_len = children.len();
                    let mut j: usize = 0;
                    while children.len() > 0
                        invariant
                            j + children@.len() == kids.len(),
                            kids.len() == kids_len,
                            children@ == kids.skip(j as int),
                            flat@ == start + non_empty_nodes(kids.take(j as int)),
                        decreases children@.len(),
                    {
                        let child = children.remove(0);
                        proof {
                            assert(kids.take(j as int + 1).drop_last() =~= kids.take(j as int));
                            assert(kids.take(j as int + 1).last() == child);
                            assert(children@ =~= kids.skip(j as int + 1));
                        }
                        let is_empty = match child {
                            JourneyAst::Empty => true,
                            _ => false,
                        };
                        if !is_empty {
                            flat.push(child);
                        }
                        proof {
                            assert(flat@ =~= start + non_empty_nodes(kids.take(j as int + 1)));
                        }
                        j = j + 1;
                    }
                    proof {
                        assert(kids.take(j as int) =~= kids);
                    }
                },
                other => {
                    proof {
                        assert(sequence_contribution(other) =~= seq![other]);
                    }
                    flat.push(other);
                },
            }
            k = k + 1;
        }
        proof {
            assert(given.take(k as int) =~= given);
        }
        if flat.len() == 0 {
            JourneyAst::Empty
        } else if flat.len() == 1 {
            let only = flat.pop().unwrap();
            only
        } else {
            JourneyAst::Sequence(flat)
        }
    }
}

} // verus!
