//! The batch fetch-and-join pipeline.
//!
//! A batch operation launches one leaf request per input position and waits
//! for every launched request to finish; the transport that runs the
//! requests lives outside the library. What is verified here is the policy:
//! how the completed leaf outcomes are gathered back into input order, when
//! the whole batch fails (fail-fast-on-complete: any single leaf failure
//! fails the batch, and no partial results are exposed), which items get an
//! author lookup planned (absent items and jobs are skipped without a
//! lookup), and how the two phases are joined positionally.

use vstd::prelude::*;

use crate::HnClientError;
use crate::types::{Item, User};

verus! {

/// Whether every leaf outcome in a batch succeeded.
pub open spec fn all_ok<T>(outs: Seq<Result<T, String>>) -> bool {
    forall|i: int| 0 <= i < outs.len() ==> outs[i] is Ok
}

/// The message of the first failed leaf outcome of a batch.
pub open spec fn first_err_msg<T>(outs: Seq<Result<T, String>>) -> Seq<char>
    decreases outs.len(),
{
    if outs.len() == 0 {
        Seq::empty()
    } else if outs[0] is Err {
        outs[0]->Err_0@
    } else {
        first_err_msg(outs.drop_first())
    }
}

/// What gathering a batch of completed leaf outcomes yields: the results in
/// input order when every leaf succeeded, else the first failure's message
/// and nothing of the successes.
pub open spec fn spec_gather<T>(outs: Seq<Result<T, String>>) -> Result<Seq<T>, Seq<char>> {
    if all_ok(outs) {
        Result::Ok(Seq::new(outs.len(), |i: int| outs[i]->Ok_0))
    } else {
        Result::Err(first_err_msg(outs))
    }
}

/// The author lookup a single batch position asks for: none when the item
/// is absent or its variant carries no author (a job), else the author's
/// username.
pub open spec fn spec_author_request(o: Option<Item>) -> Option<String> {
    match o {
        Option::None => Option::None,
        Option::Some(it) => it.spec_author(),
    }
}

/// The author lookup plan for a whole batch, one slot per item position.
pub open spec fn spec_author_plan(items: Seq<Option<Item>>) -> Seq<Option<String>> {
    Seq::new(items.len(), |i: int| spec_author_request(items[i]))
}

/// How many lookups the first `n` slots of a plan issue.
pub open spec fn count_some(plan: Seq<Option<String>>, n: int) -> int
    decreases n,
{
    if n <= 0 {
        0
    } else {
        count_some(plan, n - 1) + if plan[n - 1] is Some { 1int } else { 0int }
    }
}

/// What resolving a plan against the completed lookup outcomes yields: when
/// every issued lookup succeeded, one user slot per plan slot, absent where
/// the plan skipped and carrying the next lookup's result where it did not;
/// else the first failure's message.
pub open spec fn spec_resolve(plan: Seq<Option<String>>, fetched: Seq<Result<Option<User>, String>>) -> Result<Seq<Option<User>>, Seq<char>> {
    if all_ok(fetched) {
        Result::Ok(
            Seq::new(
                plan.len(),
                |i: int|
                    if plan[i] is Some {
                        fetched[count_some(plan, i)]->Ok_0
                    } else {
                        Option::None
                    },
            ),
        )
    } else {
        Result::Err(first_err_msg(fetched))
    }
}

proof fn lemma_first_err_msg_at<T>(outs: Seq<Result<T, String>>, k: int)
    requires
        0 <= k < outs.len(),
        forall|j: int| 0 <= j < k ==> outs[j] is Ok,
        outs[k] is Err,
    ensures
        first_err_msg(outs) == outs[k]->Err_0@,
        !all_ok(outs),
    decreases k,
{
    if k > 0 {
        lemma_first_err_msg_at(outs.drop_first(), k - 1);
    }
}

/// Gather the completed leaf outcomes of a batch item fetch back into input
/// order. Succeeds with one (possibly absent) item per input position, in
/// the input's order, exactly when every leaf succeeded; otherwise the
/// whole batch fails with the first leaf failure's message, and none of the
/// succeeded leaves is exposed.
pub fn gather_items(outs: Vec<Result<Option<Item>, String>>) -> (r: Result<Vec<Option<Item>>, HnClientError>)
    ensures
        match r {
            Result::Ok(v) => spec_gather(outs@) == Result::<Seq<Option<Item>>, Seq<char>>::Ok(v@),
            Result::Err(e) => e matches HnClientError::BackendError(m) && spec_gather(outs@) == Result::<Seq<Option<Item>>, Seq<char>>::Err(m@),
        },
{
    let ghost orig: Seq<Result<Option<Item>, String>> = outs@;
    let mut rest = outs;
    let mut acc: Vec<Option<Item>> = Vec::new();
    while rest.len() > 0
        invariant
            acc@.len() + rest@.len() == orig.len(),
            rest@ == orig.skip(acc@.len() as int),
            forall|j: int| 0 <= j < acc@.len() ==> orig[j] is Ok,
            forall|j: int| 0 <= j < acc@.len() ==> acc@[j] == orig[j]->Ok_0,
        decreases rest@.len(),
    {
        let ghost k = acc@.len() as int;
        let o = rest.remove(0);
        proof {
            assert(o == orig[k]);
            assert(rest@ =~= orig.skip(k + 1));
        }
        match o {
            Result::Ok(v) => {
                acc.push(v);
            },
            Result::Err(m) => {
                proof {
                    lemma_first_err_msg_at(orig, k);
                }
                return Result::Err(HnClientError::BackendError(m));
            },
        }
    }
    proof {
        assert(all_ok(orig));
        assert(acc@ =~= Seq::new(orig.len(), |i: int| orig[i]->Ok_0));
    }
    Result::Ok(acc)
}

/// Plan the author lookups for a batch of fetched items: one slot per item
/// position, absent where the item is absent or is a job (no lookup is
/// issued for those), else the author's username.
pub fn author_requests(items: &Vec<Option<Item>>) -> (r: Vec<Option<String>>)
    ensures
        r@ == spec_author_plan(items@),
{
    let mut plan: Vec<Option<String>> = Vec::new();
    let mut i: usize = 0;
    while i < items.len()
        invariant
            i <= items@.len(),
            plan@.len() == i,
            forall|j: int| 0 <= j < i ==> plan@[j] == spec_author_request(items@[j]),
        decreases items@.len() - i,
    {
        let req = match &items[i] {
            Option::None => Option::None,
            Option::Some(it) => it.author(),
        };
        proof {
            assert(req == spec_author_request(items@[i as int]));
        }
        plan.push(req);
        i = i + 1;
    }
    proof {
        assert(plan@ =~= spec_author_plan(items@));
    }
    plan
}

/// Gather the completed author lookup outcomes back into item order.
/// `fetched` holds one outcome per issued lookup, in plan order. Succeeds
/// with one (possibly absent) user per plan slot exactly when every issued
/// lookup succeeded: absent where the plan skipped, and carrying the
/// lookup's result where it did not; otherwise the whole resolution fails
/// with the first lookup failure's message, and none of the succeeded
/// lookups is exposed.
pub fn gather_authors(plan: &Vec<Option<String>>, fetched: Vec<Result<Option<User>, String>>) -> (r: Result<Vec<Option<User>>, HnClientError>)
    requires
        fetched@.len() == count_some(plan@, plan@.len() as int),
    ensures
        match r {
            Result::Ok(v) => spec_resolve(plan@, fetched@) == Result::<Seq<Option<User>>, Seq<char>>::Ok(v@),
            Result::Err(e) => e matches HnClientError::BackendError(m) && spec_resolve(plan@, fetched@) == Result::<Seq<Option<User>>, Seq<char>>::Err(m@),
        },
{
    let ghost origf: Seq<Result<Option<User>, String>> = fetched@;
    let nf: usize = fetched.len();
    proof {
        assert(origf.len() == nf);
    }
    let mut rest = fetched;
    let mut acc: Vec<Option<User>> = Vec::new();
    let mut i: usize = 0;
    let mut j: usize = 0;
    while i < plan.len()
        invariant
            i <= plan@.len(),
            acc@.len() == i,
            j == count_some(plan@, i as int),
            j <= origf.len(),
            origf.len() <= usize::MAX,
            rest@ == origf.skip(j as int),
            forall|k: int| 0 <= k < j ==> origf[k] is Ok,
            forall|k: int| 0 <= k < i ==> acc@[k] == (if plan@[k] is Some {
                origf[count_some(plan@, k)]->Ok_0
            } else {
                Option::<User>::None
            }),
        decreases plan@.len() - i,
    {
        proof {
            lemma_count_some_bound(plan@, i as int + 1, plan@.len() as int);
            assert(count_some(plan@, i as int + 1) == count_some(plan@, i as int) + if plan@[i as int] is Some {
                1int
            } else {
                0int
            });
        }
        match &plan[i] {
            Option::None => {
                acc.push(Option::None);
            },
            Option::Some(_) => {
                let o = rest.remove(0);
                proof {
                    assert(o == origf[j as int]);
                    assert(rest@ =~= origf.skip(j as int + 1));
                }
                match o {
                    Result::Ok(u) => {
                        acc.push(u);
                    },
                    Result::Err(m) => {
                        proof {
                            lemma_first_err_msg_at(origf, j as int);
                        }
                        return Result::Err(HnClientError::BackendError(m));
                    },
                }
                j = j + 1;
            },
        }
        i = i + 1;
    }
    proof {
        assert(all_ok(origf));
        assert(acc@ =~= spec_resolve(plan@, origf)->Ok_0);
    }
    Result::Ok(acc)
}

proof fn lemma_count_some_bound(plan: Seq<Option<String>>, i: int, n: int)
    requires
        0 <= i <= n,
    ensures
        count_some(plan, i) <= count_some(plan, n) <= count_some(plan, i) + (n - i),
    decreases n - i,
{
    if i < n {
        lemma_count_some_bound(plan, i, n - 1);
    }
}

/// Join the two phases' results positionally: the pair at each position
/// holds that position's item result and that position's author result.
pub fn make_pairs(items: Vec<Option<Item>>, users: Vec<Option<User>>) -> (r: Vec<(Option<Item>, Option<User>)>)
    requires
        items@.len() == users@.len(),
    ensures
        r@.len() == items@.len(),
        forall|i: int| 0 <= i < r@.len() ==> r@[i] == ((items@[i], users@[i])),
{
    let ghost origi: Seq<Option<Item>> = items@;
    let ghost origu: Seq<Option<User>> = users@;
    let mut items = items;
    let mut users = users;
    let mut acc: Vec<(Option<Item>, Option<User>)> = Vec::new();
    while items.len() > 0
        invariant
            acc@.len() + items@.len() == origi.len(),
            users@.len() == items@.len(),
            items@ == origi.skip(acc@.len() as int),
            users@ == origu.skip(acc@.len() as int),
            origu.len() == origi.len(),
            forall|k: int| 0 <= k < acc@.len() ==> acc@[k] == ((origi[k], origu[k])),
        decreases items@.len(),
    {
        let ghost k = acc@.len() as int;
        let it = items.remove(0);
        let u = users.remove(0);
        proof {
            assert(it == origi[k]);
            assert(u == origu[k]);
            assert(items@ =~= origi.skip(k + 1));
            assert(users@ =~= origu.skip(k + 1));
        }
        acc.push((it, u));
    }
    acc
}

/// Law: a successful batch gather returns a sequence of the same length as
/// the batch's input, carrying at each position exactly that position's
/// leaf result.
pub proof fn lemma_gather_preserves_order<T>(outs: Seq<Result<T, String>>)
    requires
        spec_gather(outs) is Ok,
    ensures
        spec_gather(outs)->Ok_0.len() == outs.len(),
        forall|i: int| 0 <= i < outs.len() ==> spec_gather(outs)->Ok_0[i] == outs[i]->Ok_0,
{
}

/// Law: a successful author resolution returns a sequence of the same
/// length as its item-sequence input, in the same order.
pub proof fn lemma_resolve_preserves_length(items: Seq<Option<Item>>, fetched: Seq<Result<Option<User>, String>>)
    requires
        spec_resolve(spec_author_plan(items), fetched) is Ok,
    ensures
        spec_resolve(spec_author_plan(items), fetched)->Ok_0.len() == items.len(),
{
}

/// Law: an absent item, or an item variant carrying no author field (a
/// job), plans no author lookup, and a successful resolution yields an
/// absent author at its position.
pub proof fn lemma_author_skip(items: Seq<Option<Item>>, fetched: Seq<Result<Option<User>, String>>, i: int)
    requires
        0 <= i < items.len(),
        items[i] is None || items[i] matches Option::Some(Item::Job(_)),
    ensures
        spec_author_plan(items)[i] is None,
        spec_resolve(spec_author_plan(items), fetched) matches Result::Ok(users) ==> users[i] is None,
{
}

/// Law: a batch whose items are all absent, or all of a variant carrying
/// no author field (jobs), plans no author lookup anywhere: every prefix
/// of its plan issues zero lookups.
pub proof fn lemma_no_lookups_without_authors(items: Seq<Option<Item>>, n: int)
    requires
        0 <= n <= items.len(),
        forall|i: int| 0 <= i < items.len() ==> items[i] is None || items[i] matches Option::Some(
            Item::Job(_),
        ),
    ensures
        count_some(spec_author_plan(items), n) == 0,
    decreases n,
{
    if n > 0 {
        lemma_no_lookups_without_authors(items, n - 1);
    }
}

/// Law: a batch in which any single leaf outcome failed fails as a whole,
/// whatever the other leaves returned.
pub proof fn lemma_gather_fail_fast<T>(outs: Seq<Result<T, String>>, i: int)
    requires
        0 <= i < outs.len(),
        outs[i] is Err,
    ensures
        spec_gather(outs) is Err,
{
}

} // verus!

