//! What the evaluation of a combination comes to.

use vstd::prelude::*;
use crate::combination::CombinationView;
use crate::evaluate::{
    looked_up, merged, missing_source, planned, run, MachineView, ProgressView, StepView,
};
use crate::pagelist::{merge_obstacle, needs_conversion, PageListView};

verus! {

/// The merge of two outcomes: the first that is no result, or else the
/// merge of the two results. Results of different wikis ask for the second
/// to be converted to the wiki of the first; results without tag fail.
pub open spec fn merged_outcome(step: StepView, a: ProgressView, b: ProgressView) -> ProgressView {
    match (a, b) {
        (ProgressView::Done(x), ProgressView::Done(y)) => if merge_obstacle(x, y) is None {
            ProgressView::Done(merged(step, x, y))
        } else if needs_conversion(x, y) {
            ProgressView::Convert(x.wiki->Some_0)
        } else {
            ProgressView::Failed(merge_obstacle(x, y)->Some_0)
        },
        (ProgressView::Done(_), other) => other,
        (other, _) => other,
    }
}

/// What a combination comes to over the results of the sources, up to the
/// first conversion that it needs. A source comes to its result. A union
/// with nothing comes to its other side, and so does a difference from
/// which nothing is taken away. An intersection with nothing, a difference
/// taken from nothing, and nothing itself fail.
pub open spec fn evaluated(c: CombinationView, results: Seq<(Seq<char>, PageListView)>) -> ProgressView
    decreases c,
{
    match c {
        CombinationView::Nothing => ProgressView::Failed("Combination::None found"@),
        CombinationView::Source(s) => match looked_up(results, s) {
            Some(list) => ProgressView::Done(list),
            None => ProgressView::Failed(missing_source(s)),
        },
        CombinationView::Union(a, b) => if *a is Nothing {
            evaluated(*b, results)
        } else if *b is Nothing {
            evaluated(*a, results)
        } else {
            merged_outcome(StepView::Union, evaluated(*a, results), evaluated(*b, results))
        },
        CombinationView::Intersection(a, b) => if *a is Nothing || *b is Nothing {
            ProgressView::Failed("Intersection with Combination::None found"@)
        } else {
            merged_outcome(StepView::Intersection, evaluated(*a, results), evaluated(*b, results))
        },
        CombinationView::Not(a, b) => if *a is Nothing {
            ProgressView::Failed("Not with Combination::None found"@)
        } else if *b is Nothing {
            evaluated(*a, results)
        } else {
            merged_outcome(StepView::Difference, evaluated(*a, results), evaluated(*b, results))
        },
    }
}

/// The machine after the steps of a combination that came to the result `x`.
pub open spec fn after_plan(m: MachineView, c: CombinationView, x: PageListView) -> MachineView {
    MachineView {
        next: (m.next + planned(c).len()) as nat,
        stack: m.stack.push(x),
        fresh: false,
        ..m
    }
}

/// A machine that stands before the steps of a combination runs like the
/// machine behind them with the combination's result on the stack, or ends
/// as the combination does where that is no result.
pub proof fn lemma_run_plan(
    c: CombinationView,
    m: MachineView,
    results: Seq<(Seq<char>, PageListView)>,
)
    requires
        m.next + planned(c).len() <= m.steps.len(),
        m.steps.subrange(m.next as int, (m.next + planned(c).len()) as int) == planned(c),
    ensures
        planned(c).len() >= 1,
        match evaluated(c, results) {
            ProgressView::Done(x) => run(m, results) == run(after_plan(m, c, x), results),
            other => run(m, results).1 == other,
        },
    decreases c,
{
    let p = planned(c);
    let n = p.len() as int;
    let i = m.next as int;
    assert forall|k: int| 0 <= k < n implies m.steps[i + k] == p[k] by {
        assert(m.steps.subrange(i, i + n)[k] == m.steps[i + k]);
    }
    match c {
        CombinationView::Nothing => {
            assert(m.steps[i] == p[0]);
        },
        CombinationView::Source(s) => {
            assert(m.steps[i] == p[0]);
        },
        CombinationView::Union(a, b) => {
            if *a is Nothing {
                lemma_run_plan(*b, m, results);
            } else if *b is Nothing {
                lemma_run_plan(*a, m, results);
            } else {
                lemma_run_merge(c, *a, *b, StepView::Union, m, results);
            }
        },
        CombinationView::Intersection(a, b) => {
            if *a is Nothing || *b is Nothing {
                assert(m.steps[i] == p[0]);
            } else {
                lemma_run_merge(c, *a, *b, StepView::Intersection, m, results);
            }
        },
        CombinationView::Not(a, b) => {
            if *a is Nothing {
                assert(m.steps[i] == p[0]);
            } else if *b is Nothing {
                lemma_run_plan(*a, m, results);
            } else {
                lemma_run_merge(c, *a, *b, StepView::Difference, m, results);
            }
        },
    }
}

/// The case of `lemma_run_plan` for a merge of two sides.
proof fn lemma_run_merge(
    c: CombinationView,
    a: CombinationView,
    b: CombinationView,
    step: StepView,
    m: MachineView,
    results: Seq<(Seq<char>, PageListView)>,
)
    requires
        step is Union || step is Intersection || step is Difference,
        planned(c) == planned(a) + planned(b) + seq![step],
        evaluated(c, results) == merged_outcome(
            step,
            evaluated(a, results),
            evaluated(b, results),
        ),
        m.next + planned(c).len() <= m.steps.len(),
        m.steps.subrange(m.next as int, (m.next + planned(c).len()) as int) == planned(c),
        decreases_to!(c => a),
        decreases_to!(c => b),
    ensures
        planned(c).len() >= 1,
        match evaluated(c, results) {
            ProgressView::Done(x) => run(m, results) == run(after_plan(m, c, x), results),
            other => run(m, results).1 == other,
        },
    decreases c, 0int,
{
    let p = planned(c);
    let pa = planned(a);
    let pb = planned(b);
    let n = p.len() as int;
    let i = m.next as int;
    assert forall|k: int| 0 <= k < n implies m.steps[i + k] == p[k] by {
        assert(m.steps.subrange(i, i + n)[k] == m.steps[i + k]);
    }
    assert(m.steps.subrange(i, i + pa.len()) =~= pa) by {
        assert forall|k: int| 0 <= k < pa.len() implies m.steps.subrange(i, i + pa.len())[k]
            == pa[k] by {
            assert(m.steps[i + k] == p[k]);
        }
    }
    lemma_run_plan(a, m, results);
    match evaluated(a, results) {
        ProgressView::Done(x) => {
            let m1 = after_plan(m, a, x);
            assert(m1.steps.subrange(m1.next as int, (m1.next + pb.len()) as int) =~= pb) by {
                assert forall|k: int| 0 <= k < pb.len() implies m1.steps.subrange(
                    m1.next as int,
                    (m1.next + pb.len()) as int,
                )[k] == pb[k] by {
                    assert(m.steps[i + pa.len() + k] == p[pa.len() + k]);
                }
            }
            lemma_run_plan(b, m1, results);
            match evaluated(b, results) {
                ProgressView::Done(y) => {
                    let m2 = after_plan(m1, b, y);
                    assert(m2.next == i + pa.len() + pb.len());
                    assert(m.steps[i + pa.len() + pb.len()] == p[(pa.len() + pb.len()) as int]);
                    assert(m2.steps[m2.next as int] == step);
                    assert(m2.stack.len() >= 2);
                    assert(m2.stack[m2.stack.len() - 2] == x);
                    assert(m2.stack[m2.stack.len() - 1] == y);
                    assert(m2.stack.take(m2.stack.len() - 2) =~= m.stack);
                    if merge_obstacle(x, y) is None {
                        let m3 = MachineView {
                            next: m2.next + 1,
                            stack: m2.stack.take(m2.stack.len() - 2).push(merged(step, x, y)),
                            fresh: false,
                            ..m2
                        };
                        assert(m3 == after_plan(m, c, merged(step, x, y)));
                        assert(run(m2, results) == run(m3, results));
                    }
                },
                _ => {},
            }
        },
        _ => {},
    }
}

/// The evaluation of a combination, run from its start, ends as the
/// combination comes to: with its result, with its failure, or with the
/// first conversion that it needs.
pub proof fn lemma_evaluation(c: CombinationView, results: Seq<(Seq<char>, PageListView)>)
    ensures
        run(
            MachineView { steps: planned(c), next: 0, stack: Seq::empty(), fresh: false },
            results,
        ).1 == evaluated(c, results),
{
    let m = MachineView { steps: planned(c), next: 0, stack: Seq::empty(), fresh: false };
    assert(m.steps.subrange(0, planned(c).len() as int) =~= planned(c));
    lemma_run_plan(c, m, results);
    match evaluated(c, results) {
        ProgressView::Done(x) => {
            let end = after_plan(m, c, x);
            assert(end.stack.len() == 1);
            assert(end.stack[0] == x);
        },
        _ => {},
    }
}

} // verus!
