use vstd::prelude::*;

use crate::engine::Author;
use std::collections::HashMap;

verus! {

/// Identifies the augmented data of one author in one epoch.
#[derive(Debug, Clone, Copy, PartialEq, Eq, Structural)]
pub struct AugDataId {
    pub epoch: u64,
    pub author: Author,
}

/// The data of the entries that belong to another epoch than `epoch`, in order.
pub open spec fn stale<T>(s: Seq<(AugDataId, T)>, epoch: u64) -> Seq<T>
    decreases s.len(),
{
    if s.len() == 0 {
        Seq::empty()
    } else {
        let rest = stale(s.drop_first(), epoch);
        if s[0].0.epoch != epoch {
            seq![s[0].1] + rest
        } else {
            rest
        }
    }
}

/// The entries that belong to `epoch`, in order.
pub open spec fn current<T>(s: Seq<(AugDataId, T)>, epoch: u64) -> Seq<(AugDataId, T)>
    decreases s.len(),
{
    if s.len() == 0 {
        Seq::empty()
    } else {
        let rest = current(s.drop_first(), epoch);
        if s[0].0.epoch == epoch {
            seq![s[0]] + rest
        } else {
            rest
        }
    }
}

/// Splits stored entries into the data of other epochs, to be removed, and
/// the entries of `epoch`, to be kept; both keep the order of `all_data`.
pub fn filter_by_epoch<T>(epoch: u64, all_data: Vec<(AugDataId, T)>) -> (r: (Vec<T>, Vec<(AugDataId, T)>))
    ensures
        r.0@ == stale(all_data@, epoch),
        r.1@ == current(all_data@, epoch),
{
    let ghost all = all_data@;
    let mut rest = all_data;
    let mut to_remove: Vec<T> = Vec::new();
    let mut to_keep: Vec<(AugDataId, T)> = Vec::new();
    while rest.len() > 0
        invariant
            stale(all, epoch) == to_remove@ + stale(rest@, epoch),
            current(all, epoch) == to_keep@ + current(rest@, epoch),
        decreases rest@.len(),
    {
        let ghost before = rest@;
        let ghost removed_before = to_remove@;
        let ghost kept_before = to_keep@;
        let (id, data) = rest.remove(0);
        assert(rest@ =~= before.drop_first());
        if id.epoch != epoch {
            assert(stale(before, epoch) == seq![data] + stale(rest@, epoch));
            assert(current(before, epoch) == current(rest@, epoch));
            to_remove.push(data);
            assert(removed_before + (seq![data] + stale(rest@, epoch)) =~= to_remove@ + stale(rest@, epoch));
        } else {
            assert(current(before, epoch) == seq![(id, data)] + current(rest@, epoch));
            assert(stale(before, epoch) == stale(rest@, epoch));
            to_keep.push((id, data));
            assert(kept_before + (seq![(id, data)] + current(rest@, epoch)) =~= to_keep@ + current(rest@, epoch));
        }
    }
    assert(to_remove@ + stale(rest@, epoch) =~= to_remove@);
    assert(to_keep@ + current(rest@, epoch) =~= to_keep@);
    (to_remove, to_keep)
}

/// The augmented data that one author contributes to an epoch, as bytes.
#[derive(Debug, Clone, PartialEq, Eq)]
pub struct AugData {
    pub author: Author,
    pub data: Vec<u8>,
}

/// Augmented data together with the signatures that certify it, as bytes.
#[derive(Debug, Clone, PartialEq, Eq)]
pub struct CertifiedAugData {
    pub author: Author,
    pub data: Vec<u8>,
}

/// Why augmented data was refused.
#[derive(Debug, Clone, Copy, PartialEq, Eq, Structural)]
pub enum AugDataError {
    /// The author already contributed other data to this epoch.
    Equivocation,
}

/// The signature of a store over augmented data, for its epoch.
#[derive(Debug, Clone, PartialEq, Eq)]
pub struct AugDataSignature {
    pub epoch: u64,
    pub signature: Vec<u8>,
}

/// The acknowledgment of certified augmented data, for an epoch.
#[derive(Debug, Clone, Copy, PartialEq, Eq, Structural)]
pub struct CertifiedAugDataAck {
    pub epoch: u64,
}

/// What a store holds: its epoch, and each author's data and certified data.
pub struct AugDataStoreModel {
    pub epoch: u64,
    pub data: Map<Author, Seq<u8>>,
    pub certified_data: Map<Author, Seq<u8>>,
}

/// The augmented data of one epoch, at most one entry per author. Saving an
/// entry and signing it are the caller's: `check_aug_data` says whether an
/// entry may go in and must be saved first, `add_aug_data` records it once
/// saved and signed.
pub struct AugDataStore {
    epoch: u64,
    data: HashMap<Author, Vec<u8>>,
    certified_data: HashMap<Author, Vec<u8>>,
}

impl View for AugDataStore {
    type V = AugDataStoreModel;

    closed spec fn view(&self) -> AugDataStoreModel {
        AugDataStoreModel {
            epoch: self.epoch,
            data: self.data@.map_values(|v: Vec<u8>| v@),
            certified_data: self.certified_data@.map_values(|v: Vec<u8>| v@),
        }
    }
}

/// Whether `data` may join `m`, and whether it is new: `Ok(true)` when its
/// author has no data yet, `Ok(false)` when the author already gave the same
/// data, and an equivocation when the author gave other data.
pub open spec fn aug_data_check(m: AugDataStoreModel, author: Author, data: Seq<u8>) -> Result<bool, AugDataError> {
    if !m.data.contains_key(author) {
        Ok(true)
    } else if m.data[author] == data {
        Ok(false)
    } else {
        Err(AugDataError::Equivocation)
    }
}

/// Entries keyed by the author of their id; a later entry of one author
/// replaces an earlier one.
pub open spec fn by_author(s: Seq<(AugDataId, Vec<u8>)>) -> Map<Author, Seq<u8>>
    decreases s.len(),
{
    if s.len() == 0 {
        Map::empty()
    } else {
        by_author(s.drop_last()).insert(s.last().0.author, s.last().1@)
    }
}

fn index_by_author(entries: Vec<(AugDataId, Vec<u8>)>) -> (r: HashMap<Author, Vec<u8>>)
    ensures
        r@.map_values(|v: Vec<u8>| v@) == by_author(entries@),
{
    broadcast use vstd::std_specs::hash::group_hash_axioms;

    let mut m: HashMap<Author, Vec<u8>> = HashMap::new();
    assert(m@.map_values(|v: Vec<u8>| v@) =~= by_author(entries@.take(0)));
    let mut i: usize = 0;
    while i < entries.len()
        invariant
            i <= entries@.len(),
            m@.map_values(|v: Vec<u8>| v@) == by_author(entries@.take(i as int)),
        decreases entries@.len() - i,
    {
        let author = entries[i].0.author;
        let bytes = entries[i].1.clone();
        let ghost before = m@.map_values(|v: Vec<u8>| v@);
        m.insert(author, bytes);
        assert(entries@.take(i + 1).drop_last() =~= entries@.take(i as int));
        assert(m@.map_values(|v: Vec<u8>| v@) =~= before.insert(author, entries@[i as int].1@));
        i = i + 1;
    }
    assert(entries@.take(entries@.len() as int) =~= entries@);
    m
}

fn same_bytes(a: &Vec<u8>, b: &Vec<u8>) -> (r: bool)
    ensures
        r == (a@ == b@),
{
    if a.len() != b.len() {
        return false;
    }
    let mut i: usize = 0;
    while i < a.len()
        invariant
            a@.len() == b@.len(),
            i <= a@.len(),
            forall|k: int| 0 <= k < i ==> a@[k] == b@[k],
        decreases a@.len() - i,
    {
        if a[i] != b[i] {
            return false;
        }
        i = i + 1;
    }
    assert(a@ =~= b@);
    true
}

impl AugDataStore {
    /// The store of `epoch`, built from every stored entry: the entries of
    /// `epoch` go in, keyed by author (a later entry of one author replaces an
    /// earlier one); the data of other epochs comes back, in order, to be
    /// removed from storage.
    pub fn new(
        epoch: u64,
        all_data: Vec<(AugDataId, Vec<u8>)>,
        all_certified_data: Vec<(AugDataId, Vec<u8>)>,
    ) -> (r: (Self, Vec<Vec<u8>>, Vec<Vec<u8>>))
        ensures
            r.0@ == (AugDataStoreModel {
                epoch,
                data: by_author(current(all_data@, epoch)),
                certified_data: by_author(current(all_certified_data@, epoch)),
            }),
            r.1@ == stale(all_data@, epoch),
            r.2@ == stale(all_certified_data@, epoch),
    {
        let (to_remove, aug_data) = filter_by_epoch(epoch, all_data);
        let (certified_to_remove, certified_data) = filter_by_epoch(epoch, all_certified_data);
        let store = AugDataStore {
            epoch,
            data: index_by_author(aug_data),
            certified_data: index_by_author(certified_data),
        };
        (store, to_remove, certified_to_remove)
    }

    pub fn epoch(&self) -> (r: u64)
        ensures
            r == self@.epoch,
    {
        self.epoch
    }

    /// Whether `data` may be added, and whether it must be saved first.
    pub fn check_aug_data(&self, data: &AugData) -> (r: Result<bool, AugDataError>)
        ensures
            r == aug_data_check(self@, data.author, data.data@),
    {
        broadcast use vstd::std_specs::hash::group_hash_axioms;

        match self.data.get(&data.author) {
            Some(existing) => {
                if same_bytes(existing, &data.data) {
                    Ok(false)
                } else {
                    Err(AugDataError::Equivocation)
                }
            },
            None => Ok(true),
        }
    }

    /// Records `data`, saved where `check_aug_data` asked for it and signed
    /// with `signature`, and returns that signature for this store's epoch.
    /// Data that equivocates is refused and the store is left as it was.
    pub fn add_aug_data(&mut self, data: AugData, signature: Vec<u8>) -> (r: Result<AugDataSignature, AugDataError>)
        ensures
            final(self)@.epoch == old(self)@.epoch,
            final(self)@.certified_data == old(self)@.certified_data,
            match r {
                Ok(sig) => {
                    &&& aug_data_check(old(self)@, data.author, data.data@) is Ok
                    &&& final(self)@.data == old(self)@.data.insert(data.author, data.data@)
                    &&& sig.epoch == old(self)@.epoch
                    &&& sig.signature@ == signature@
                },
                Err(e) => {
                    &&& aug_data_check(old(self)@, data.author, data.data@) == Err::<bool, AugDataError>(e)
                    &&& final(self)@.data == old(self)@.data
                },
            },
    {
        broadcast use vstd::std_specs::hash::group_hash_axioms;

        if let Err(e) = self.check_aug_data(&data) {
            return Err(e);
        }
        let ghost author = data.author;
        let ghost bytes = data.data@;
        self.data.insert(data.author, data.data);
        assert(self@.data =~= old(self)@.data.insert(author, bytes));
        Ok(AugDataSignature { epoch: self.epoch, signature })
    }

    /// Whether certified data of `author` is new, and so must be saved
    /// before `add_certified_aug_data` records it.
    pub fn needs_certified_save(&self, author: Author) -> (r: bool)
        ensures
            r == !self@.certified_data.contains_key(author),
    {
        broadcast use vstd::std_specs::hash::group_hash_axioms;

        !self.certified_data.contains_key(&author)
    }

    /// Records certified data unless its author already has some, which is
    /// kept; acknowledges it for this store's epoch either way.
    pub fn add_certified_aug_data(&mut self, data: CertifiedAugData) -> (r: CertifiedAugDataAck)
        ensures
            final(self)@.epoch == old(self)@.epoch,
            final(self)@.data == old(self)@.data,
            final(self)@.certified_data == if old(self)@.certified_data.contains_key(data.author) {
                old(self)@.certified_data
            } else {
                old(self)@.certified_data.insert(data.author, data.data@)
            },
            r.epoch == old(self)@.epoch,
    {
        broadcast use vstd::std_specs::hash::group_hash_axioms;

        if self.certified_data.contains_key(&data.author) {
            return CertifiedAugDataAck { epoch: self.epoch };
        }
        let ghost author = data.author;
        let ghost bytes = data.data@;
        self.certified_data.insert(data.author, data.data);
        assert(self@.certified_data =~= old(self)@.certified_data.insert(author, bytes));
        CertifiedAugDataAck { epoch: self.epoch }
    }
}

} // verus!
