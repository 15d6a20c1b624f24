//! The merge and filter engine: pairs each role with the work at the same
//! position and keeps the pairs that have a role label and at least one
//! component of a release date.

use crate::errors::{anilist_data_format, ServiceError, ServiceErrorView};
use crate::records::{Role, RoleView, Work, WorkView};
use vstd::prelude::*;

verus! {

/// Diagnostic for roles and works that differ in number.
pub const LENGTH_MISMATCH: &'static str =
    "Staff.staffMedia.edges and Staff.staffMedia.nodes differ in length";

/// A role label and the work it was credited on: a pair that passed the
/// coarse filter but whose date is not yet resolved.
#[derive(Debug)]
pub struct Credit {
    pub role: String,
    pub work: Work,
}

/// Mathematical model of a [`Credit`].
pub struct CreditView {
    pub role: Seq<char>,
    pub work: WorkView,
}

impl View for Credit {
    type V = CreditView;

    open spec fn view(&self) -> CreditView {
        CreditView { role: self.role@, work: self.work@ }
    }
}

impl DeepView for Credit {
    type V = CreditView;

    open spec fn deep_view(&self) -> CreditView {
        self@
    }
}

/// The items that are present, in the order they stand in.
pub open spec fn present<T>(items: Seq<Option<T>>) -> Seq<T>
    decreases items.len(),
{
    if items.len() == 0 {
        Seq::empty()
    } else {
        match items.last() {
            Some(item) => present(items.drop_last()).push(item),
            None => present(items.drop_last()),
        }
    }
}

/// The credit a role and a work make together. There is none when either
/// is absent, when the role has no label or an empty one, or when the work
/// names no component of a release date.
pub open spec fn paired(role: Option<RoleView>, work: Option<WorkView>) -> Option<CreditView> {
    match (role, work) {
        (Some(role), Some(work)) => match role.label {
            Some(label) => if label.len() > 0 && work.has_any_date_component() {
                Some(CreditView { role: label, work })
            } else {
                None
            },
            None => None,
        },
        _ => None,
    }
}

/// For each position, the credit that the role and the work at that
/// position make.
pub open spec fn aligned(roles: Seq<Option<RoleView>>, works: Seq<Option<WorkView>>) -> Seq<
    Option<CreditView>,
> {
    Seq::new(roles.len(), |i: int| paired(roles[i], works[i]))
}

/// The credits kept from index-aligned roles and works, in input order.
pub open spec fn provisional_pairs(
    roles: Seq<Option<RoleView>>,
    works: Seq<Option<WorkView>>,
) -> Seq<CreditView> {
    present(aligned(roles, works))
}

/// The outcome of a merge: a data-format error when the two sequences
/// differ in length, else the credits kept.
pub open spec fn merged(roles: Seq<Option<RoleView>>, works: Seq<Option<WorkView>>) -> Result<
    Seq<CreditView>,
    ServiceErrorView,
> {
    if roles.len() != works.len() {
        Err(ServiceErrorView::DataFormat(LENGTH_MISMATCH@))
    } else {
        Ok(provisional_pairs(roles, works))
    }
}

/// The present items of a concatenation are those of its parts, in turn.
pub proof fn lemma_present_concat<T>(front: Seq<Option<T>>, back: Seq<Option<T>>)
    ensures
        present(front + back) == present(front) + present(back),
    decreases back.len(),
{
    if back.len() == 0 {
        assert(front + back =~= front);
        assert(present(front) + present(back) =~= present(front));
    } else {
        lemma_present_concat(front, back.drop_last());
        assert((front + back).drop_last() =~= front + back.drop_last());
        assert((front + back).last() == back.last());
        match back.last() {
            Some(item) => {
                assert((present(front) + present(back.drop_last())).push(item) =~= present(front)
                    + present(back.drop_last()).push(item));
            },
            None => {},
        }
    }
}

/// Every item of `present(items)` is an item of `items`, and items keep
/// their relative order: the positions they come from increase.
pub open spec fn is_origin_map<T>(items: Seq<Option<T>>, origins: Seq<int>) -> bool {
    &&& origins.len() == present(items).len()
    &&& forall|k: int|
        0 <= k < origins.len() ==> 0 <= #[trigger] origins[k] < items.len() && items[origins[k]]
            == Some(present(items)[k])
    &&& forall|j: int, k: int|
        0 <= j < k < origins.len() ==> #[trigger] origins[j] < #[trigger] origins[k]
}

/// For each item kept, a position it was kept from.
pub proof fn lemma_present_origins<T>(items: Seq<Option<T>>) -> (origins: Seq<int>)
    ensures
        is_origin_map(items, origins),
    decreases items.len(),
{
    if items.len() == 0 {
        Seq::empty()
    } else {
        let earlier = lemma_present_origins(items.drop_last());
        match items.last() {
            Some(item) => {
                let origins = earlier.push(items.len() - 1);
                assert forall|k: int| 0 <= k < origins.len() implies 0 <= #[trigger] origins[k]
                    < items.len() && items[origins[k]] == Some(present(items)[k]) by {
                    if k < earlier.len() {
                        assert(items.drop_last()[earlier[k]] == items[earlier[k]]);
                    }
                }
                origins
            },
            None => {
                assert forall|k: int| 0 <= k < earlier.len() implies 0 <= #[trigger] earlier[k]
                    < items.len() && items[earlier[k]] == Some(present(items)[k]) by {
                    assert(items.drop_last()[earlier[k]] == items[earlier[k]]);
                }
                earlier
            },
        }
    }
}

/// Every item that is present is kept.
pub proof fn lemma_present_keeps<T>(items: Seq<Option<T>>, i: int) -> (k: int)
    requires
        0 <= i < items.len(),
        items[i] is Some,
    ensures
        0 <= k < present(items).len(),
        items[i] == Some(present(items)[k]),
    decreases items.len(),
{
    if i == items.len() - 1 {
        present(items).len() - 1
    } else {
        let k = lemma_present_keeps(items.drop_last(), i);
        match items.last() {
            Some(item) => {
                assert(present(items)[k] == present(items.drop_last())[k]);
            },
            None => {},
        }
        k
    }
}

/// Merging is positional across pages. When each page's roles and works
/// are index-aligned, merging the concatenation of two pages gives the
/// credits of the first page followed by those of the second: a role is
/// never paired with a work of another page.
pub proof fn lemma_merge_is_positional_across_pages(
    roles_1: Seq<Option<RoleView>>,
    works_1: Seq<Option<WorkView>>,
    roles_2: Seq<Option<RoleView>>,
    works_2: Seq<Option<WorkView>>,
)
    requires
        roles_1.len() == works_1.len(),
        roles_2.len() == works_2.len(),
    ensures
        provisional_pairs(roles_1 + roles_2, works_1 + works_2) == provisional_pairs(
            roles_1,
            works_1,
        ) + provisional_pairs(roles_2, works_2),
{
    assert(aligned(roles_1 + roles_2, works_1 + works_2) =~= aligned(roles_1, works_1) + aligned(
        roles_2,
        works_2,
    ));
    lemma_present_concat(aligned(roles_1, works_1), aligned(roles_2, works_2));
}

/// Every credit kept is made of the role and the work at one and the same
/// absolute position, and the credits come out in the order of those
/// positions.
pub proof fn lemma_merge_pairs_equal_positions(
    roles: Seq<Option<RoleView>>,
    works: Seq<Option<WorkView>>,
) -> (positions: Seq<int>)
    requires
        roles.len() == works.len(),
    ensures
        positions.len() == provisional_pairs(roles, works).len(),
        forall|k: int|
            0 <= k < positions.len() ==> {
                let i = #[trigger] positions[k];
                &&& 0 <= i < roles.len()
                &&& roles[i] matches Some(role)
                &&& works[i] matches Some(work)
                &&& role.label == Some(provisional_pairs(roles, works)[k].role)
                &&& work == provisional_pairs(roles, works)[k].work
            },
        forall|j: int, k: int|
            0 <= j < k < positions.len() ==> #[trigger] positions[j] < #[trigger] positions[k],
{
    let positions = lemma_present_origins(aligned(roles, works));
    assert forall|k: int| 0 <= k < positions.len() implies {
        let i = #[trigger] positions[k];
        &&& 0 <= i < roles.len()
        &&& roles[i] matches Some(role)
        &&& works[i] matches Some(work)
        &&& role.label == Some(provisional_pairs(roles, works)[k].role)
        &&& work == provisional_pairs(roles, works)[k].work
    } by {
        let i = positions[k];
        assert(aligned(roles, works)[i] == paired(roles[i], works[i]));
    }
    positions
}

/// The items in reverse order.
fn reversed<T>(items: Vec<T>) -> (out: Vec<T>)
    ensures
        out@ == items@.reverse(),
{
    let mut rest = items;
    let mut out: Vec<T> = Vec::new();
    while rest.len() > 0
        invariant
            rest@.len() <= items@.len(),
            rest@ == items@.take(rest@.len() as int),
            out@ == items@.skip(rest@.len() as int).reverse(),
        decreases rest@.len(),
    {
        let ghost length = rest@.len() as int;
        match rest.pop() {
            Some(item) => {
                out.push(item);
                assert(rest@ =~= items@.take(length - 1));
                assert(out@ =~= items@.skip(length - 1).reverse());
            },
            None => {},
        }
    }
    assert(items@.skip(0) =~= items@);
    out
}

/// Decides what a role and a work at the same position make together.
pub fn pair(role: Option<Role>, work: Option<Work>) -> (credit: Option<Credit>)
    ensures
        credit.deep_view() == paired(role.deep_view(), work.deep_view()),
{
    match (role, work) {
        (Some(role), Some(work)) => match role.label {
            Some(label) => {
                let dated = match work.start_date {
                    Some(date) => date.year.is_some() || date.month.is_some()
                        || date.day.is_some(),
                    None => false,
                };
                if !label.as_str().is_empty() && dated {
                    Some(Credit { role: label, work })
                } else {
                    None
                }
            },
            None => None,
        },
        _ => None,
    }
}

/// Pairs each role with the work at the same position and keeps the pairs
/// that pass the coarse filter, in input order. Roles and works that
/// differ in number are a data-format error.
pub fn merge(roles: Vec<Option<Role>>, works: Vec<Option<Work>>) -> (outcome: Result<
    Vec<Credit>,
    ServiceError,
>)
    ensures
        match outcome {
            Ok(credits) => merged(roles.deep_view(), works.deep_view()) == Ok::<
                Seq<CreditView>,
                ServiceErrorView,
            >(credits.deep_view()),
            Err(error) => merged(roles.deep_view(), works.deep_view()) == Err::<
                Seq<CreditView>,
                ServiceErrorView,
            >(error@),
        },
{
    if roles.len() != works.len() {
        return Err(anilist_data_format(LENGTH_MISMATCH));
    }
    let ghost all = aligned(roles.deep_view(), works.deep_view());
    let mut credits: Vec<Credit> = Vec::new();
    let mut pending = reversed(works);
    assert(credits.deep_view() =~= present(all.take(0)));
    assert(works@.skip(0) =~= works@);
    for role in it: roles.into_iter()
        invariant
            it.seq() == roles@,
            roles@.len() == works@.len(),
            pending@ == works@.skip(it.index() as int).reverse(),
            all == aligned(roles.deep_view(), works.deep_view()),
            credits.deep_view() == present(all.take(it.index() as int)),
    {
        let ghost index = it.index() as int;
        let work = match pending.pop() {
            Some(work) => work,
            None => None,
        };
        assert(work == works@[index]);
        let ghost before = credits.deep_view();
        let credit = pair(role, work);
        proof {
            assert(all.take(index + 1).drop_last() =~= all.take(index));
            assert(all.take(index + 1).last() == all[index]);
            assert(roles.deep_view()[index] == roles@[index].deep_view());
            assert(works.deep_view()[index] == works@[index].deep_view());
            assert(pending@ =~= works@.skip(index + 1).reverse());
        }
        match credit {
            Some(credit) => {
                credits.push(credit);
                assert(credits.deep_view() =~= before.push(credit@));
            },
            None => {},
        }
    }
    assert(all.take(roles@.len() as int) =~= all);
    Ok(credits)
}

} // verus!
