//! The calls of a builder as mathematical values, and why their order does
//! not matter.

use crate::item::ItemType;
use crate::request::filter::FilterView;
use crate::request::pagination::Pagination;
use crate::request::sort::Sort;
use crate::request::RequestView;
use vstd::prelude::*;

verus! {

/// The parts of a request that a builder can set.
pub enum Part {
    Id,
    SecondaryItemType,
    Sort,
    Filter,
    Pagination,
}

/// One call of a builder method with its argument.
pub enum Step {
    Id(Seq<char>),
    SecondaryItemType(ItemType),
    Sort(Sort),
    Filter(FilterView),
    Pagination(Pagination),
}

impl Step {
    /// The part that the step sets.
    pub open spec fn part(self) -> Part {
        match self {
            Step::Id(_) => Part::Id,
            Step::SecondaryItemType(_) => Part::SecondaryItemType,
            Step::Sort(_) => Part::Sort,
            Step::Filter(_) => Part::Filter,
            Step::Pagination(_) => Part::Pagination,
        }
    }
}

/// The last of `steps` that sets `part`, if any does.
pub open spec fn last_of(steps: Seq<Step>, part: Part) -> Option<Step>
    decreases steps.len(),
{
    if steps.len() == 0 {
        None
    } else if steps.last().part() == part {
        Some(steps.last())
    } else {
        last_of(steps.drop_last(), part)
    }
}

/// No two of `steps` set the same part.
pub open spec fn each_part_once(steps: Seq<Step>) -> bool {
    forall|i: int, j: int|
        0 <= i < j < steps.len() ==> (#[trigger] steps[i]).part() != (#[trigger] steps[j]).part()
}

impl RequestView {
    /// The request after one call of a builder method.
    pub open spec fn after(self, step: Step) -> RequestView {
        match step {
            Step::Id(id) => self.with_id(id),
            Step::SecondaryItemType(item_type) => self.with_secondary_item_type(item_type),
            Step::Sort(sort) => self.with_sort(sort),
            Step::Filter(filter) => self.with_filter(filter),
            Step::Pagination(pagination) => self.with_pagination(pagination),
        }
    }

    /// The request after a step that may be missing.
    pub open spec fn after_maybe(self, step: Option<Step>) -> RequestView {
        match step {
            Some(step) => self.after(step),
            None => self,
        }
    }

    /// The request after the calls of `steps`, first to last.
    pub open spec fn after_all(self, steps: Seq<Step>) -> RequestView
        decreases steps.len(),
    {
        if steps.len() == 0 {
            self
        } else {
            self.after_all(steps.drop_last()).after(steps.last())
        }
    }
}

/// What `last_of` finds is one of the steps, and sets the part asked for;
/// it finds nothing only where no step sets that part.
pub proof fn lemma_last_of(steps: Seq<Step>, part: Part)
    ensures
        last_of(steps, part) matches Some(step) ==> step.part() == part && steps.contains(step),
        last_of(steps, part) is None ==> forall|i: int|
            0 <= i < steps.len() ==> (#[trigger] steps[i]).part() != part,
    decreases steps.len(),
{
    if steps.len() > 0 {
        let init = steps.drop_last();
        lemma_last_of(init, part);
        if steps.last().part() == part {
            assert(steps[steps.len() - 1] == steps.last());
        } else {
            if let Some(step) = last_of(init, part) {
                let i = choose|i: int| 0 <= i < init.len() && init[i] == step;
                assert(steps[i] == step);
            } else {
                assert forall|i: int| 0 <= i < steps.len() implies (#[trigger] steps[i]).part()
                    != part by {
                    if i < init.len() {
                        assert(init[i] == steps[i]);
                    }
                }
            }
        }
    }
}

/// Where no two steps set the same part, each step is the last that sets
/// its part.
pub proof fn lemma_last_of_unique(steps: Seq<Step>, step: Step)
    requires
        each_part_once(steps),
        steps.contains(step),
    ensures
        last_of(steps, step.part()) == Some(step),
    decreases steps.len(),
{
    let k = choose|k: int| 0 <= k < steps.len() && steps[k] == step;
    let init = steps.drop_last();
    if k == steps.len() - 1 {
    } else {
        assert(steps[k].part() != steps[steps.len() - 1].part());
        assert(init[k] == step);
        assert forall|i: int, j: int| 0 <= i < j < init.len() implies (#[trigger] init[i]).part()
            != (#[trigger] init[j]).part() by {
            assert(init[i] == steps[i]);
            assert(init[j] == steps[j]);
        }
        lemma_last_of_unique(init, step);
    }
}

/// Two calls that set different parts give the same request in either
/// order.
pub proof fn lemma_steps_commute(request: RequestView, first: Step, second: Step)
    requires
        first.part() != second.part(),
    ensures
        request.after(first).after(second) == request.after(second).after(first),
{
}

/// Of any sequence of calls, only the last call for each part counts.
pub proof fn lemma_last_call_decides(request: RequestView, steps: Seq<Step>)
    ensures
        request.after_all(steps) == request.after_maybe(last_of(steps, Part::Id)).after_maybe(
            last_of(steps, Part::SecondaryItemType),
        ).after_maybe(last_of(steps, Part::Sort)).after_maybe(
            last_of(steps, Part::Filter),
        ).after_maybe(last_of(steps, Part::Pagination)),
    decreases steps.len(),
{
    if steps.len() > 0 {
        let init = steps.drop_last();
        lemma_last_call_decides(request, init);
        lemma_last_of(init, Part::Id);
        lemma_last_of(init, Part::SecondaryItemType);
        lemma_last_of(init, Part::Sort);
        lemma_last_of(init, Part::Filter);
        lemma_last_of(init, Part::Pagination);
    }
}

/// The order of the builder calls does not matter: where each call sets a
/// part of its own, any sequence of the same calls gives the same request and
/// so the same address.
pub proof fn lemma_order_independent(request: RequestView, first: Seq<Step>, second: Seq<Step>)
    requires
        each_part_once(first),
        forall|step: Step| first.contains(step) <==> second.contains(step),
    ensures
        request.after_all(first) == request.after_all(second),
        request.after_all(first).url() == request.after_all(second).url(),
{
    assert forall|part: Part| last_of(first, part) == last_of(second, part) by {
        lemma_last_of(first, part);
        lemma_last_of(second, part);
        match last_of(second, part) {
            Some(step) => {
                lemma_last_of_unique(first, step);
            },
            None => {
                if let Some(step) = last_of(first, part) {
                    let i = choose|i: int| 0 <= i < second.len() && second[i] == step;
                    assert(second[i].part() == part);
                }
            },
        }
    }
    lemma_last_call_decides(request, first);
    lemma_last_call_decides(request, second);
}

} // verus!
