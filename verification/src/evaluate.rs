//! Evaluating a source combination over the results of the sources.
//!
//! A combination is first laid out as a run of steps for a stack machine.
//! The machine merges lists of one wiki by itself. Where the two lists of a
//! merge belong to different wikis, it stops and asks for the second list to
//! be converted to the wiki of the first; the caller converts, hands the
//! list back, and lets the machine go on.

use vstd::prelude::*;
use crate::combination::{Combination, CombinationView};
use crate::pagelist::{
    common, merge_obstacle, needs_conversion, put_all, without, PageList, PageListView,
};
use crate::text::{concat, str_eq};

verus! {

/// What a step is, mathematically.
pub enum StepView {
    Load(Seq<char>),
    Union,
    Intersection,
    Difference,
    Fail(Seq<char>),
}

/// One step of an evaluation: put the result of a source on the stack, merge
/// the two lists on top of the stack, or give up with a message.
#[derive(Debug)]
pub enum Step {
    Load(String),
    Union,
    Intersection,
    Difference,
    Fail(String),
}

impl View for Step {
    type V = StepView;

    open spec fn view(&self) -> StepView {
        match self {
            Step::Load(s) => StepView::Load(s@),
            Step::Union => StepView::Union,
            Step::Intersection => StepView::Intersection,
            Step::Difference => StepView::Difference,
            Step::Fail(s) => StepView::Fail(s@),
        }
    }
}

impl DeepView for Step {
    type V = StepView;

    open spec fn deep_view(&self) -> StepView {
        self@
    }
}

/// The steps that evaluate a combination: first the left side, then the
/// right side, then the merge. A union with nothing is its other side, and so
/// is a difference from which nothing is taken away; an intersection with
/// nothing, a difference taken from nothing, and nothing itself cannot be
/// evaluated.
pub open spec fn planned(c: CombinationView) -> Seq<StepView>
    decreases c,
{
    match c {
        CombinationView::Nothing => seq![StepView::Fail("Combination::None found"@)],
        CombinationView::Source(s) => seq![StepView::Load(s)],
        CombinationView::Union(a, b) => if *a is Nothing {
            planned(*b)
        } else if *b is Nothing {
            planned(*a)
        } else {
            planned(*a) + planned(*b) + seq![StepView::Union]
        },
        CombinationView::Intersection(a, b) => if *a is Nothing || *b is Nothing {
            seq![StepView::Fail("Intersection with Combination::None found"@)]
        } else {
            planned(*a) + planned(*b) + seq![StepView::Intersection]
        },
        CombinationView::Not(a, b) => if *a is Nothing {
            seq![StepView::Fail("Not with Combination::None found"@)]
        } else if *b is Nothing {
            planned(*a)
        } else {
            planned(*a) + planned(*b) + seq![StepView::Difference]
        },
    }
}

/// The result of the source `name` among `results`: that of the first pair with this name.
pub open spec fn looked_up(results: Seq<(Seq<char>, PageListView)>, name: Seq<char>) -> Option<
    PageListView,
>
    decreases results.len(),
{
    if results.len() == 0 {
        None
    } else if results[0].0 == name {
        Some(results[0].1)
    } else {
        looked_up(results.skip(1), name)
    }
}

/// The results as pairs of name and list.
pub open spec fn results_view(results: Seq<(String, PageList)>) -> Seq<(Seq<char>, PageListView)> {
    Seq::new(results.len(), |i: int| (results[i].0@, results[i].1@))
}

/// The list that a merge step makes of the two lists on top of the stack.
pub open spec fn merged(step: StepView, a: PageListView, b: PageListView) -> PageListView {
    match step {
        StepView::Union => PageListView { entries: put_all(a.entries, b.entries), ..a },
        StepView::Intersection => PageListView { entries: common(a.entries, b.entries), ..a },
        StepView::Difference => PageListView { entries: without(a.entries, b.entries), ..a },
        _ => a,
    }
}

/// How far an evaluation has come: the next step, the lists on the stack,
/// and whether the list on top has just come back from a conversion.
pub struct MachineView {
    pub steps: Seq<StepView>,
    pub next: nat,
    pub stack: Seq<PageListView>,
    pub fresh: bool,
}

/// How a run of the machine ends: with the result, with an error, or with
/// the request to convert the list on top of the stack to a wiki.
pub enum ProgressView {
    Done(PageListView),
    Failed(Seq<char>),
    Convert(Seq<char>),
}

/// The message for a source that has no result.
pub open spec fn missing_source(name: Seq<char>) -> Seq<char> {
    "No result for source "@ + name
}

/// The message for a run of steps that no combination gives.
pub open spec fn broken_plan() -> Seq<char> {
    "Combination cannot be evaluated"@
}

/// The machine after it has run as far as it can, and how the run ends.
pub open spec fn run(m: MachineView, results: Seq<(Seq<char>, PageListView)>) -> (
    MachineView,
    ProgressView,
)
    decreases m.steps.len() - m.next,
{
    if m.next >= m.steps.len() {
        if m.stack.len() == 1 {
            (MachineView { stack: Seq::empty(), ..m }, ProgressView::Done(m.stack[0]))
        } else {
            (m, ProgressView::Failed(broken_plan()))
        }
    } else {
        match m.steps[m.next as int] {
            StepView::Load(name) => match looked_up(results, name) {
                Some(list) => run(
                    MachineView { next: m.next + 1, stack: m.stack.push(list), fresh: false, ..m },
                    results,
                ),
                None => (m, ProgressView::Failed(missing_source(name))),
            },
            StepView::Fail(msg) => (m, ProgressView::Failed(msg)),
            step => if m.stack.len() < 2 {
                (m, ProgressView::Failed(broken_plan()))
            } else {
                let a = m.stack[m.stack.len() - 2];
                let b = m.stack[m.stack.len() - 1];
                if merge_obstacle(a, b) is None {
                    run(
                        MachineView {
                            next: m.next + 1,
                            stack: m.stack.take(m.stack.len() - 2).push(merged(step, a, b)),
                            fresh: false,
                            ..m
                        },
                        results,
                    )
                } else if needs_conversion(a, b) && !m.fresh {
                    (m, ProgressView::Convert(a.wiki->Some_0))
                } else {
                    (m, ProgressView::Failed(merge_obstacle(a, b)->Some_0))
                }
            },
        }
    }
}

/// How a run of the machine ends.
#[derive(Debug)]
pub enum Progress {
    /// The combination is evaluated; this is its result.
    Done(PageList),
    /// The combination cannot be evaluated.
    Failed(String),
    /// The list on top of the stack has to be converted to this wiki.
    Convert(String),
}

impl View for Progress {
    type V = ProgressView;

    open spec fn view(&self) -> ProgressView {
        match self {
            Progress::Done(list) => ProgressView::Done(list@),
            Progress::Failed(msg) => ProgressView::Failed(msg@),
            Progress::Convert(wiki) => ProgressView::Convert(wiki@),
        }
    }
}

/// An evaluation under way.
#[derive(Debug)]
pub struct Evaluation {
    steps: Vec<Step>,
    next: usize,
    stack: Vec<PageList>,
    fresh: bool,
}

impl View for Evaluation {
    type V = MachineView;

    closed spec fn view(&self) -> MachineView {
        MachineView {
            steps: self.steps.deep_view(),
            next: self.next as nat,
            stack: Seq::new(self.stack.len() as nat, |i: int| self.stack@[i]@),
            fresh: self.fresh,
        }
    }
}

/// Appends the steps that evaluate `c` to `steps`.
fn push_plan(steps: &mut Vec<Step>, c: &Combination)
    ensures
        final(steps).deep_view() == old(steps).deep_view() + planned(c@),
    decreases c,
{
    let ghost before = steps.deep_view();
    match c {
        Combination::Nothing => {
            steps.push(Step::Fail(String::from_str("Combination::None found")));
            proof {
                assert(steps.deep_view() =~= before + planned(c@));
            }
        },
        Combination::Source(s) => {
            steps.push(Step::Load(s.clone()));
            proof {
                assert(steps.deep_view() =~= before + planned(c@));
            }
        },
        Combination::Union((a, b)) => {
            if is_nothing(&**a) {
                push_plan(steps, &**b);
            } else if is_nothing(&**b) {
                push_plan(steps, &**a);
            } else {
                push_plan(steps, &**a);
                push_plan(steps, &**b);
                let ghost mid = steps.deep_view();
                steps.push(Step::Union);
                proof {
                    assert(steps.deep_view() =~= mid.push(StepView::Union));
                    assert(steps.deep_view() =~= before + planned(c@));
                }
            }
        },
        Combination::Intersection((a, b)) => {
            if is_nothing(&**a) || is_nothing(&**b) {
                steps.push(Step::Fail(String::from_str("Intersection with Combination::None found")));
                proof {
                    assert(steps.deep_view() =~= before + planned(c@));
                }
            } else {
                push_plan(steps, &**a);
                push_plan(steps, &**b);
                let ghost mid = steps.deep_view();
                steps.push(Step::Intersection);
                proof {
                    assert(steps.deep_view() =~= mid.push(StepView::Intersection));
                    assert(steps.deep_view() =~= before + planned(c@));
                }
            }
        },
        Combination::Not((a, b)) => {
            if is_nothing(&**a) {
                steps.push(Step::Fail(String::from_str("Not with Combination::None found")));
                proof {
                    assert(steps.deep_view() =~= before + planned(c@));
                }
            } else if is_nothing(&**b) {
                push_plan(steps, &**a);
            } else {
                push_plan(steps, &**a);
                push_plan(steps, &**b);
                let ghost mid = steps.deep_view();
                steps.push(Step::Difference);
                proof {
                    assert(steps.deep_view() =~= mid.push(StepView::Difference));
                    assert(steps.deep_view() =~= before + planned(c@));
                }
            }
        },
    }
}

/// Whether the combination is the empty one.
fn is_nothing(c: &Combination) -> (r: bool)
    ensures
        r == (c@ is Nothing),
{
    match c {
        Combination::Nothing => true,
        _ => false,
    }
}

/// The result of the source `name`, if it has one.
fn look_up<'a>(results: &'a Vec<(String, PageList)>, name: &str) -> (r: Option<&'a PageList>)
    ensures
        match r {
            Some(list) => looked_up(results_view(results@), name@) == Some(list@),
            None => looked_up(results_view(results@), name@) is None,
        },
{
    let ghost all = results_view(results@);
    let mut i: usize = 0;
    proof {
        assert(all.skip(0) =~= all);
    }
    while i < results.len()
        invariant
            i <= results.len(),
            all == results_view(results@),
            looked_up(all.skip(i as int), name@) == looked_up(all, name@),
        decreases results.len() - i,
    {
        proof {
            assert(all.skip(i as int)[0] == all[i as int]);
            assert(all.skip(i as int).skip(1) =~= all.skip(i + 1));
        }
        if str_eq(results[i].0.as_str(), name) {
            return Some(&results[i].1);
        }
        i += 1;
    }
    None
}

impl Evaluation {
    /// The evaluation of `combination`, before its first step.
    pub fn new(combination: &Combination) -> (r: Self)
        ensures
            r@ == (MachineView {
                steps: planned(combination@),
                next: 0,
                stack: Seq::empty(),
                fresh: false,
            }),
    {
        let mut steps: Vec<Step> = Vec::new();
        proof {
            assert(steps.deep_view() =~= Seq::<StepView>::empty());
        }
        push_plan(&mut steps, combination);
        proof {
            assert(Seq::<StepView>::empty() + planned(combination@) =~= planned(combination@));
        }
        let r = Evaluation { steps, next: 0, stack: Vec::new(), fresh: false };
        proof {
            assert(r@.stack =~= Seq::<PageListView>::empty());
        }
        r
    }

    /// Runs the machine as far as it goes: to the result, to an error, or to
    /// a merge of lists of different wikis. On `Progress::Convert` the list
    /// that `take_pending` hands out has to be converted and handed back
    /// with `put_converted`, and the machine run again.
    pub fn advance(&mut self, results: &Vec<(String, PageList)>) -> (r: Progress)
        ensures
            (final(self)@, r@) == run(old(self)@, results_view(results@)),
    {
        let ghost env = results_view(results@);
        let ghost goal = run(self@, env);
        loop
            invariant
                env == results_view(results@),
                goal == run(old(self)@, env),
                run(self@, env) == goal,
            decreases self.steps.len() - self.next,
        {
            let ghost m = self@;
            if self.next >= self.steps.len() {
                if self.stack.len() == 1 {
                    let list = self.stack.pop().unwrap();
                    proof {
                        assert(self@.stack =~= Seq::<PageListView>::empty());
                        assert(list@ == m.stack[0]);
                    }
                    return Progress::Done(list);
                } else {
                    return Progress::Failed(String::from_str("Combination cannot be evaluated"));
                }
            }
            proof {
                assert(self.steps.deep_view()[self.next as int] == self.steps@[self.next as int]@);
            }
            let kind = kind_of(&self.steps[self.next]);
            match kind {
                StepKind::Load => {
                    let name = text_of(&self.steps[self.next]);
                    match look_up(results, name.as_str()) {
                        Some(list) => {
                            self.stack.push(list.clone());
                            self.next = self.next + 1;
                            self.fresh = false;
                            proof {
                                assert(self@.stack =~= m.stack.push(list@));
                            }
                        },
                        None => {
                            return Progress::Failed(concat("No result for source ", name.as_str()));
                        },
                    }
                },
                StepKind::Fail => {
                    return Progress::Failed(text_of(&self.steps[self.next]));
                },
                _ => {
                    if self.stack.len() < 2 {
                        return Progress::Failed(
                            String::from_str("Combination cannot be evaluated"),
                        );
                    }
                    let b = self.stack.pop().unwrap();
                    let mut a = self.stack.pop().unwrap();
                    let ghost base = m.stack.take(m.stack.len() - 2);
                    proof {
                        assert(self@.stack =~= base);
                        assert(a@ == m.stack[m.stack.len() - 2]);
                        assert(b@ == m.stack[m.stack.len() - 1]);
                    }
                    match a.check_before_merging(&b, !self.fresh) {
                        Ok(false) => {
                            match kind {
                                StepKind::Union => {
                                    let _ = a.union(&b);
                                },
                                StepKind::Intersection => {
                                    let _ = a.intersection(&b);
                                },
                                _ => {
                                    let _ = a.difference(&b);
                                },
                            }
                            self.stack.push(a);
                            self.next = self.next + 1;
                            self.fresh = false;
                            proof {
                                assert(self@.stack =~= base.push(a@));
                            }
                        },
                        Ok(true) => {
                            let wiki = match a.wiki() {
                                Some(w) => w,
                                None => String::new(),
                            };
                            self.stack.push(a);
                            self.stack.push(b);
                            proof {
                                assert(self@.stack =~= m.stack);
                            }
                            return Progress::Convert(wiki);
                        },
                        Err(msg) => {
                            self.stack.push(a);
                            self.stack.push(b);
                            proof {
                                assert(self@.stack =~= m.stack);
                            }
                            return Progress::Failed(msg);
                        },
                    }
                },
            }
        }
    }

    /// The list that has to be converted, taken off the stack: the one on top.
    pub fn take_pending(&mut self) -> (r: Option<PageList>)
        ensures
            match r {
                Some(list) => old(self)@.stack.len() > 0 && list@ == old(self)@.stack.last()
                    && final(self)@ == (MachineView {
                    stack: old(self)@.stack.drop_last(),
                    ..old(self)@
                }),
                None => old(self)@.stack.len() == 0 && final(self)@ == old(self)@,
            },
    {
        let ghost m = self@;
        let r = self.stack.pop();
        proof {
            if m.stack.len() > 0 {
                assert(self@.stack =~= m.stack.drop_last());
            } else {
                assert(self@.stack =~= m.stack);
            }
        }
        r
    }

    /// Puts a converted list on the stack. The merge that asked for the
    /// conversion will not ask again: if the wikis still differ, it fails.
    pub fn put_converted(&mut self, list: PageList)
        ensures
            final(self)@ == (MachineView {
                stack: old(self)@.stack.push(list@),
                fresh: true,
                ..old(self)@
            }),
    {
        let ghost m = self@;
        self.stack.push(list);
        self.fresh = true;
        proof {
            assert(self@.stack =~= m.stack.push(list@));
        }
    }
}

/// The kinds of step.
#[derive(Clone, Copy, PartialEq, Eq, Structural)]
enum StepKind {
    Load,
    Fail,
    Union,
    Intersection,
    Difference,
}

/// The kind of a step.
fn kind_of(step: &Step) -> (k: StepKind)
    ensures
        k == StepKind::Load <==> step@ is Load,
        k == StepKind::Fail <==> step@ is Fail,
        k == StepKind::Union <==> step@ is Union,
        k == StepKind::Intersection <==> step@ is Intersection,
        k == StepKind::Difference <==> step@ is Difference,
{
    match step {
        Step::Load(_) => StepKind::Load,
        Step::Fail(_) => StepKind::Fail,
        Step::Union => StepKind::Union,
        Step::Intersection => StepKind::Intersection,
        Step::Difference => StepKind::Difference,
    }
}

/// The text that a step carries.
fn text_of(step: &Step) -> (r: String)
    ensures
        step@ is Load ==> r@ == step@->Load_0,
        step@ is Fail ==> r@ == step@->Fail_0,
{
    match step {
        Step::Load(s) => s.clone(),
        Step::Fail(s) => s.clone(),
        _ => String::new(),
    }
}

} // verus!
