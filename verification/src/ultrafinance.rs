//! Work on many accounts or many queue entries at once: every item is
//! worked on by itself, and the results are gathered under the items' ids.

use crate::accounts::SourceTransaction;
use crate::functions::lunchmoney::Lunchmoney;
use crate::models::transaction::{new_transaction_of, NewTransaction, Transaction};
use crate::models::{days_before, Date};
use crate::utils::text_or_empty;
use std::collections::HashMap;
use vstd::prelude::*;
use vstd::string::*;

verus! {

/// Where a transaction can be sent on to. The destinations are few and
/// known, so they are told apart by variant.
#[derive(Debug)]
pub enum TransactionDestination {
    Lunchmoney(Lunchmoney),
}

/// The results of a batch, each under the id of its item. Where an id
/// occurs more than once, the last result under it stands.
pub open spec fn keyed<T>(results: Seq<(u32, T)>) -> Map<u32, T>
    decreases results.len(),
{
    if results.len() == 0 {
        Map::empty()
    } else {
        keyed(results.drop_last()).insert(results.last().0, results.last().1)
    }
}

/// An id has a result in the gathered batch exactly when an item of that id
/// was in the batch: nothing is dropped, whether its work failed or not, and
/// nothing is made up.
pub proof fn lemma_keyed_holds_every_id<T>(results: Seq<(u32, T)>, id: u32)
    ensures
        keyed(results).contains_key(id) <==> exists|i: int|
            0 <= i < results.len() && (#[trigger] results[i]).0 == id,
    decreases results.len(),
{
    if results.len() > 0 {
        let head = results.drop_last();
        lemma_keyed_holds_every_id(head, id);
        if keyed(results).contains_key(id) {
            if results.last().0 == id {
                assert(results[results.len() - 1].0 == id);
            } else {
                let i = choose|i: int| 0 <= i < head.len() && (#[trigger] head[i]).0 == id;
                assert(results[i].0 == id);
            }
        }
        if exists|i: int| 0 <= i < results.len() && (#[trigger] results[i]).0 == id {
            let i = choose|i: int| 0 <= i < results.len() && (#[trigger] results[i]).0 == id;
            if i < head.len() {
                assert(head[i].0 == id);
            }
        }
    }
}

/// Where every id occurs once, each item's result stands under its id.
pub proof fn lemma_keyed_keeps_each_result<T>(results: Seq<(u32, T)>, at: int)
    requires
        0 <= at < results.len(),
        forall|i: int, j: int|
            0 <= i < j < results.len() ==> (#[trigger] results[i]).0 != (#[trigger] results[j]).0,
    ensures
        keyed(results).contains_key(results[at].0),
        keyed(results)[results[at].0] == results[at].1,
    decreases results.len(),
{
    let head = results.drop_last();
    if at < results.len() - 1 {
        assert forall|i: int, j: int| 0 <= i < j < head.len() implies (#[trigger] head[i]).0 != (
        #[trigger] head[j]).0 by {
            assert(head[i] == results[i]);
            assert(head[j] == results[j]);
        }
        lemma_keyed_keeps_each_result(head, at);
        assert(head[at] == results[at]);
        assert(results[at].0 != results[results.len() - 1].0);
    }
}

/// Gathers the results of a batch under the ids of their items.
pub fn key_by_id<T>(results: Vec<(u32, T)>) -> (by_id: HashMap<u32, T>)
    ensures
        by_id@ == keyed(results@),
{
    broadcast use vstd::std_specs::hash::group_hash_axioms;

    let ghost all = results@;
    let mut by_id: HashMap<u32, T> = HashMap::new();
    assert(all.take(0) =~= Seq::<(u32, T)>::empty());
    for pair in it: results
        invariant
            it.seq() == all,
            by_id@ == keyed(all.take(it.index() as int)),
    {
        assert(all.take(it.index() + 1).drop_last() =~= all.take(it.index() as int));
        by_id.insert(pair.0, pair.1);
    }
    assert(all.take(all.len() as int) =~= all);
    by_id
}

/// How many days before the latest stored transaction an import starts
/// over, to catch transactions that were slow to be confirmed.
pub const IMPORT_OVERLAP_DAYS: u64 = 7;

/// The day from which an account's transactions are read anew: a week
/// before the booking date of the latest stored one, and `None`, which
/// stands for everything, where none is stored or that day cannot be
/// found.
pub fn import_from(latest: Option<Date>) -> (from: Option<Date>)
    ensures
        match latest {
            None => from is None,
            Some(date) => match from {
                Some(start) => days_before(date.year, date.month, date.day, IMPORT_OVERLAP_DAYS)
                    == Some((start.year, start.month, start.day)),
                None => days_before(date.year, date.month, date.day, IMPORT_OVERLAP_DAYS) is None,
            },
        },
{
    match latest {
        None => None,
        Some(date) => date.minus_days(IMPORT_OVERLAP_DAYS),
    }
}

/// The transaction to store for a source's transaction on an account of a
/// user: the source's transaction, on that account and the user's.
pub fn new_transaction_for(transaction: SourceTransaction, account_id: u32, user_id: u32) -> (new:
    NewTransaction)
    ensures
        new == (NewTransaction { account_id, user_id, ..new_transaction_of(transaction) }),
{
    let mut new = NewTransaction::from(transaction);
    new.account_id = account_id;
    new.user_id = user_id;
    new
}

/// The transactions of a list whose id is not among `ids`, in the order of
/// the list.
pub open spec fn others(transactions: Seq<Transaction>, ids: Seq<u32>) -> Seq<Transaction> {
    transactions.filter(|transaction: Transaction| !ids.contains(transaction.id))
}

/// Whether `id` is among `ids`.
fn is_among(ids: &Vec<u32>, id: u32) -> (found: bool)
    ensures
        found == ids@.contains(id),
{
    let mut i: usize = 0;
    while i < ids.len()
        invariant
            i <= ids.len(),
            forall|j: int| 0 <= j < i ==> ids@[j] != id,
        decreases ids.len() - i,
    {
        if ids[i] == id {
            assert(ids@[i as int] == id);
            return true;
        }
        i = i + 1;
    }
    false
}

/// The transactions that were not enriched: those whose id is not among
/// the ids of the enriched ones, in the order in which they were given.
pub fn not_enriched(transactions: Vec<Transaction>, enriched: &Vec<u32>) -> (rest: Vec<Transaction>)
    ensures
        rest@ == others(transactions@, enriched@),
{
    let ghost all = transactions@;
    let ghost ids = enriched@;
    let mut rest: Vec<Transaction> = Vec::new();
    assert(all.take(0) =~= Seq::<Transaction>::empty());
    assert(others(Seq::<Transaction>::empty(), ids) =~= Seq::<Transaction>::empty()) by {
        reveal(Seq::filter);
    }
    for transaction in it: transactions
        invariant
            it.seq() == all,
            ids == enriched@,
            rest@ == others(all.take(it.index() as int), ids),
    {
        proof {
            let seen = all.take(it.index() as int);
            assert(all.take(it.index() + 1) =~= seen.push(transaction));
            seen.lemma_filter_push(
                transaction,
                |transaction: Transaction| !ids.contains(transaction.id),
            );
        }
        if !is_among(enriched, transaction.id) {
            rest.push(transaction);
        }
    }
    assert(all.take(all.len() as int) =~= all);
    rest
}

/// What a transaction is described by when a merchant is looked for: who
/// it went to, who it came from and what it was for, each followed by a
/// space but the last, and nothing for what is not told.
pub fn description(transaction: &Transaction) -> (text: String)
    ensures
        text@ == text_or_empty(transaction.creditor_name) + " "@ + text_or_empty(
            transaction.debtor_name,
        ) + " "@ + text_or_empty(transaction.remittance_information),
{
    let mut text = String::new();
    match &transaction.creditor_name {
        Some(name) => text.append(name.as_str()),
        None => {},
    }
    text.append(" ");
    match &transaction.debtor_name {
        Some(name) => text.append(name.as_str()),
        None => {},
    }
    text.append(" ");
    match &transaction.remittance_information {
        Some(information) => text.append(information.as_str()),
        None => {},
    }
    assert(text@ =~= text_or_empty(transaction.creditor_name) + " "@ + text_or_empty(
        transaction.debtor_name,
    ) + " "@ + text_or_empty(transaction.remittance_information));
    text
}

} // verus!
