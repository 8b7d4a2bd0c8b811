//! Ordered lists of keys without repetition: the shape of both registries.
//!
//! A list is modelled by the byte strings of its keys, in order. Lookup,
//! insertion and removal are stated over that model.

use crate::error::NineLivesError;
use crate::ledger::key_bytes;
use crate::ledger::same_key;
use anchor_lang::prelude::Pubkey;
use vstd::prelude::*;

verus! {

/// The byte strings of a list of keys, in order.
pub open spec fn keys_view(keys: Seq<Pubkey>) -> Seq<Seq<u8>> {
    keys.map_values(|key: Pubkey| key_bytes(key))
}

/// `list` after an insertion of `key` under a capacity: unchanged where the
/// key is there already, refused where the list is full, else with the key
/// at the end.
pub open spec fn insert_unique(list: Seq<Seq<u8>>, key: Seq<u8>, capacity: nat) -> Result<
    Seq<Seq<u8>>,
    NineLivesError,
> {
    if list.contains(key) {
        Ok(list)
    } else if list.len() >= capacity {
        Err(NineLivesError::CapacityExceeded)
    } else {
        Ok(list.push(key))
    }
}

/// The test that removal of `key` keeps an entry by: being another key.
pub open spec fn other_than(key: Seq<u8>) -> spec_fn(Seq<u8>) -> bool {
    |entry: Seq<u8>| entry != key
}

/// `list` without any entry equal to `key`, the others in their order.
pub open spec fn without(list: Seq<Seq<u8>>, key: Seq<u8>) -> Seq<Seq<u8>> {
    list.filter(other_than(key))
}

/// What removal keeps: an entry is in the list afterwards exactly if it was
/// there before and is not the key removed. The list does not grow, and a
/// list without repetition stays so.
pub proof fn lemma_without_keeps_others(list: Seq<Seq<u8>>, key: Seq<u8>)
    ensures
        forall|entry: Seq<u8>| #[trigger]
            without(list, key).contains(entry) <==> list.contains(entry) && entry != key,
        without(list, key).len() <= list.len(),
        list.no_duplicates() ==> without(list, key).no_duplicates(),
        !list.contains(key) ==> without(list, key) == list,
    decreases list.len(),
{
    broadcast use vstd::seq_lib::lemma_seq_contains_after_push;

    if list.len() == 0 {
        reveal(Seq::filter);
    } else {
        let front = list.drop_last();
        let last = list.last();
        assert(list =~= front.push(last));
        lemma_without_keeps_others(front, key);
        front.lemma_filter_push(last, other_than(key));
        if list.no_duplicates() {
            assert(front.no_duplicates());
            assert(!front.contains(last)) by {
                if front.contains(last) {
                    let j = choose|j: int| 0 <= j < front.len() && front[j] == last;
                    assert(list[j] == list[list.len() - 1]);
                }
            }
            assert(!without(front, key).contains(last));
        }
    }
}

/// What insertion keeps: a list without repetition and within the capacity
/// stays so, the key is in the list afterwards, and so is every entry that
/// was there before.
pub proof fn lemma_insert_unique_keeps_shape(list: Seq<Seq<u8>>, key: Seq<u8>, capacity: nat)
    requires
        insert_unique(list, key, capacity) is Ok,
    ensures
        insert_unique(list, key, capacity)->Ok_0.contains(key),
        forall|entry: Seq<u8>|
            list.contains(entry) ==> #[trigger] insert_unique(list, key, capacity)->Ok_0.contains(
                entry,
            ),
        list.no_duplicates() ==> insert_unique(list, key, capacity)->Ok_0.no_duplicates(),
        list.len() <= capacity ==> insert_unique(list, key, capacity)->Ok_0.len() <= capacity,
{
    broadcast use vstd::seq_lib::lemma_seq_contains_after_push;
}

/// Whether `key` is in `list`.
pub fn contains_key(list: &Vec<Pubkey>, key: &Pubkey) -> (found: bool)
    ensures
        found == keys_view(list@).contains(key_bytes(*key)),
{
    let mut i: usize = 0;
    while i < list.len()
        invariant
            i <= list.len(),
            forall|j: int| 0 <= j < i ==> keys_view(list@)[j] != key_bytes(*key),
        decreases list.len() - i,
    {
        if same_key(&list[i], key) {
            assert(keys_view(list@)[i as int] == key_bytes(*key));
            return true;
        }
        i += 1;
    }
    false
}

/// A second list with the same keys in the same order.
pub fn copy_keys(list: &Vec<Pubkey>) -> (copy: Vec<Pubkey>)
    ensures
        copy@ == list@,
{
    let mut copy: Vec<Pubkey> = Vec::with_capacity(list.len());
    let mut i: usize = 0;
    while i < list.len()
        invariant
            i <= list.len(),
            copy@ == list@.take(i as int),
        decreases list.len() - i,
    {
        copy.push(list[i]);
        i += 1;
    }
    copy
}

/// Inserts `key` unless it is there already. A new key is refused once the
/// list holds `capacity` entries; the list is then left as it was.
pub fn insert_key(list: &mut Vec<Pubkey>, key: Pubkey, capacity: usize) -> (done: Result<
    (),
    NineLivesError,
>)
    ensures
        match done {
            Ok(()) => insert_unique(keys_view(old(list)@), key_bytes(key), capacity as nat) == Ok::<
                Seq<Seq<u8>>,
                NineLivesError,
            >(keys_view(final(list)@)),
            Err(e) => insert_unique(keys_view(old(list)@), key_bytes(key), capacity as nat) == Err::<
                Seq<Seq<u8>>,
                NineLivesError,
            >(e) && *final(list) == *old(list),
        },
{
    if contains_key(list, &key) {
        return Ok(());
    }
    if list.len() >= capacity {
        return Err(NineLivesError::CapacityExceeded);
    }
    list.push(key);
    assert(keys_view(list@) =~= keys_view(old(list)@).push(key_bytes(key)));
    Ok(())
}

/// Removes every entry equal to `key`; the others keep their order.
pub fn remove_key(list: &mut Vec<Pubkey>, key: &Pubkey)
    ensures
        keys_view(final(list)@) == without(keys_view(old(list)@), key_bytes(*key)),
{
    let ghost before = keys_view(list@);
    let mut kept: Vec<Pubkey> = Vec::new();
    let mut i: usize = 0;
    proof {
        reveal(Seq::filter);
    }
    while i < list.len()
        invariant
            i <= list.len(),
            before == keys_view(list@),
            keys_view(kept@) == without(before.take(i as int), key_bytes(*key)),
        decreases list.len() - i,
    {
        let entry = list[i];
        proof {
            assert(before.take(i + 1) =~= before.take(i as int).push(key_bytes(entry)));
            before.take(i as int).lemma_filter_push(key_bytes(entry), other_than(key_bytes(*key)));
        }
        if !same_key(&entry, key) {
            kept.push(entry);
        }
        i += 1;
    }
    assert(before.take(i as int) =~= before);
    *list = kept;
}

} // verus!
