//! Triggers: rules that run a function when something happens to a
//! transaction.

use crate::entries::{
    distinct_keys, lemma_key_index_is_the_place, lemma_with_entry_keeps_keys_distinct, position,
    with_entry,
};
use crate::json::{
    json_of_string_map, json_string_map, pairs_view, read_string_map, write_string_map,
};
use crate::models::transaction::Transaction;
use crate::models::Timestamp;
use vstd::prelude::*;

verus! {

/// One condition on a transaction.
#[derive(Debug)]
pub enum TriggerFilterPredicate {
    /// The transaction is on one of these accounts.
    Account(Vec<u32>),
}

/// The conditions of a trigger: a transaction has to meet every one.
#[derive(Debug)]
pub struct TriggerFilter(pub Vec<TriggerFilterPredicate>);

impl TriggerFilterPredicate {
    /// Whether a transaction on the account `account_id` meets the
    /// condition.
    pub open spec fn spec_matches(&self, account_id: u32) -> bool {
        match self {
            TriggerFilterPredicate::Account(account_ids) => account_ids@.contains(account_id),
        }
    }

    /// Whether the transaction meets the condition.
    pub fn matches(&self, transaction: &Transaction) -> (met: bool)
        ensures
            met == self.spec_matches(transaction.account_id),
    {
        match self {
            TriggerFilterPredicate::Account(account_ids) => {
                let mut i: usize = 0;
                while i < account_ids.len()
                    invariant
                        i <= account_ids.len(),
                        self.spec_matches(transaction.account_id) == account_ids@.contains(
                            transaction.account_id,
                        ),
                        forall|j: int| 0 <= j < i ==> account_ids@[j] != transaction.account_id,
                    decreases account_ids.len() - i,
                {
                    if account_ids[i] == transaction.account_id {
                        assert(account_ids@[i as int] == transaction.account_id);
                        return true;
                    }
                    i = i + 1;
                }
                false
            },
        }
    }
}

impl TriggerFilter {
    /// Whether a transaction on the account `account_id` meets every
    /// condition. A filter without conditions is met by every transaction.
    pub open spec fn spec_matches(&self, account_id: u32) -> bool {
        forall|i: int| 0 <= i < self.0@.len() ==> (#[trigger] self.0@[i]).spec_matches(account_id)
    }

    /// Whether the transaction meets every condition of the filter.
    pub fn matches(&self, transaction: &Transaction) -> (met: bool)
        ensures
            met == self.spec_matches(transaction.account_id),
    {
        let mut i: usize = 0;
        while i < self.0.len()
            invariant
                i <= self.0.len(),
                forall|j: int|
                    0 <= j < i ==> (#[trigger] self.0@[j]).spec_matches(transaction.account_id),
            decreases self.0.len() - i,
        {
            if !self.0[i].matches(transaction) {
                return false;
            }
            i = i + 1;
        }
        true
    }
}

/// The parameters that a trigger hands to its function: texts by key, each
/// key once.
#[derive(Debug)]
pub struct TriggerParams {
    entries: Vec<(String, String)>,
}

impl View for TriggerParams {
    type V = Seq<(Seq<char>, Seq<char>)>;

    closed spec fn view(&self) -> Seq<(Seq<char>, Seq<char>)> {
        pairs_view(self.entries@)
    }
}

impl TriggerParams {
    /// No key occurs twice.
    #[verifier::type_invariant]
    spec fn keys_occur_once(&self) -> bool {
        distinct_keys(pairs_view(self.entries@))
    }

    /// No parameters.
    pub fn new() -> (params: TriggerParams)
        ensures
            params@ == Seq::<(Seq<char>, Seq<char>)>::empty(),
    {
        let entries: Vec<(String, String)> = Vec::new();
        assert(pairs_view(entries@) =~= Seq::<(Seq<char>, Seq<char>)>::empty());
        TriggerParams { entries }
    }

    /// Puts a text under a key: in the place of the text that stood under
    /// the key, or behind all parameters where the key is new.
    pub fn insert(&mut self, key: &str, value: &str)
        ensures
            final(self)@ == with_entry(old(self)@, key@, value@),
            distinct_keys(final(self)@),
    {
        proof {
            use_type_invariant(&*self);
            lemma_with_entry_keeps_keys_distinct(self@, key@, value@);
        }
        let ghost before = pairs_view(self.entries@);
        match position(&self.entries, key) {
            Some(at) => {
                proof {
                    assert(before[at as int].0 == key@);
                    lemma_key_index_is_the_place(before, at as int);
                }
                let mut entries: Vec<(String, String)> = Vec::new();
                std::mem::swap(&mut entries, &mut self.entries);
                entries.set(at, (key.to_owned(), value.to_owned()));
                assert(pairs_view(entries@) =~= with_entry(before, key@, value@));
                self.entries = entries;
            },
            None => {
                proof {
                    assert forall|j: int| 0 <= j < before.len() implies (#[trigger] before[j]).0
                        != key@ by {
                        assert(before[j].0 == self.entries@[j].0@);
                    }
                }
                let mut entries: Vec<(String, String)> = Vec::new();
                std::mem::swap(&mut entries, &mut self.entries);
                entries.push((key.to_owned(), value.to_owned()));
                assert(pairs_view(entries@) =~= with_entry(before, key@, value@));
                self.entries = entries;
            },
        }
    }

    /// The parameters that a JSON object of strings holds, in the order of
    /// their keys; `None` for any other text.
    pub fn parse(text: &str) -> (params: Option<TriggerParams>)
        ensures
            match params {
                Some(read) => json_string_map(text@) == Some(read@),
                None => json_string_map(text@) is None,
            },
    {
        match read_string_map(text) {
            Some(entries) => Some(TriggerParams { entries }),
            None => None,
        }
    }

    /// The parameters as a JSON object, as the function is handed them:
    /// every parameter once, in their order.
    pub fn to_json(&self) -> (text: Option<String>)
        ensures
            match text {
                Some(written) => json_of_string_map(self@) == Some(written@),
                None => json_of_string_map(self@) is None,
            },
    {
        write_string_map(&self.entries)
    }

    /// The parameters, each under its key, no key twice.
    pub fn entries(&self) -> (entries: &Vec<(String, String)>)
        ensures
            pairs_view(entries@) == self@,
            distinct_keys(self@),
    {
        proof {
            use_type_invariant(self);
        }
        &self.entries
    }
}

/// A stored trigger.
#[derive(Debug)]
pub struct Trigger {
    pub id: u32,
    /// What has to happen, such as `transaction_created`.
    pub event: String,
    pub name: String,
    pub filter: TriggerFilter,
    pub params: TriggerParams,
    pub user_id: u32,
    pub function_id: u32,
    pub created_at: Timestamp,
    pub updated_at: Timestamp,
}

/// A trigger about to be stored. The parameters are JSON text already.
#[derive(Debug)]
pub struct NewTrigger {
    pub event: String,
    pub name: String,
    pub filter: TriggerFilter,
    pub params: String,
    pub user_id: u32,
    pub function_id: u32,
}

/// An edit of a stored trigger.
#[derive(Debug)]
pub struct UpdateTrigger {
    pub id: Option<u32>,
    pub name: Option<String>,
    pub params: Option<String>,
    pub event: Option<String>,
    pub filter: Option<TriggerFilter>,
    pub function_id: Option<u32>,
}

/// The triggers of a list whose filter a transaction on the account
/// `account_id` meets, in the order of the list.
pub open spec fn matching(triggers: Seq<Trigger>, account_id: u32) -> Seq<Trigger> {
    triggers.filter(|trigger: Trigger| trigger.filter.spec_matches(account_id))
}

/// The triggers whose filter the transaction meets, in the order in which
/// they were given.
pub fn matching_triggers(triggers: Vec<Trigger>, transaction: &Transaction) -> (kept: Vec<Trigger>)
    ensures
        kept@ == matching(triggers@, transaction.account_id),
{
    let ghost all = triggers@;
    let ghost account_id = transaction.account_id;
    let mut kept: Vec<Trigger> = Vec::new();
    assert(all.take(0) =~= Seq::<Trigger>::empty());
    assert(matching(Seq::<Trigger>::empty(), account_id) =~= Seq::<Trigger>::empty()) by {
        reveal(Seq::filter);
    }
    for trigger in it: triggers
        invariant
            it.seq() == all,
            account_id == transaction.account_id,
            kept@ == matching(all.take(it.index() as int), account_id),
    {
        proof {
            let seen = all.take(it.index() as int);
            assert(all.take(it.index() + 1) =~= seen.push(trigger));
            seen.lemma_filter_push(
                trigger,
                |trigger: Trigger| trigger.filter.spec_matches(account_id),
            );
        }
        if trigger.filter.matches(transaction) {
            kept.push(trigger);
        }
    }
    assert(all.take(all.len() as int) =~= all);
    kept
}

} // verus!
