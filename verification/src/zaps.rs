//! The payment subsystem: the tips that were issued, and the ledger of the
//! tips that failed.

use crate::assoc::{
    distinct_keys, has_key, lemma_to_map_at, lemma_to_map_dom, lemma_to_map_len,
    lemma_to_map_push, lemma_to_map_remove, lemma_to_map_update, to_map,
};
use crate::ids::{NoteId, Pubkey};
use vstd::prelude::*;

verus! {

/// A note as the target of a tip, with the key that receives the tip.
#[derive(Clone, Copy, Debug, PartialEq, Eq, Hash)]
pub struct NoteZapTargetOwned {
    pub note_id: NoteId,
    pub zap_recipient: Pubkey,
}

impl NoteZapTargetOwned {
    /// Whether `other` is the same target.
    pub fn same(&self, other: &NoteZapTargetOwned) -> (same: bool)
        ensures
            same == (*self == *other),
    {
        self.note_id.same(&other.note_id) && self.zap_recipient.same(&other.zap_recipient)
    }
}

/// What a tip is for.
#[derive(Clone, Copy, Debug, PartialEq, Eq, Hash)]
pub enum ZapTarget {
    Profile(Pubkey),
    Note(NoteZapTargetOwned),
}

impl ZapTarget {
    /// Whether `other` is the same target.
    pub fn same(&self, other: &ZapTarget) -> (same: bool)
        ensures
            same == (*self == *other),
    {
        match (self, other) {
            (ZapTarget::Profile(a), ZapTarget::Profile(b)) => a.same(b),
            (ZapTarget::Note(a), ZapTarget::Note(b)) => a.same(b),
            _ => false,
        }
    }
}

/// A note to tip and the amount, where the user named one.
#[derive(Clone, Copy, Debug, PartialEq, Eq, Hash)]
pub struct ZapTargetAmount {
    pub target: NoteZapTargetOwned,
    pub specified_msats: Option<u64>,
}

/// What the user asked of the payment subsystem.
#[derive(Clone, Copy, Debug, PartialEq, Eq, Hash)]
pub enum ZapAction {
    Send(ZapTargetAmount),
    ClearError(NoteZapTargetOwned),
    CustomizeAmount(NoteZapTargetOwned),
}

/// Why a tip failed.
#[derive(Clone, Copy, Debug, PartialEq, Eq, Structural, Hash)]
pub enum ZappingError {
    SenderNoWallet,
    InvalidAccount,
    UnsupportedOperation,
}

/// What a failure is recorded under: who sent the tip, and what for.
#[derive(Clone, Copy, Debug, PartialEq, Eq, Hash)]
pub struct ZapKey {
    pub sender: Pubkey,
    pub target: ZapTarget,
}

impl ZapKey {
    /// Whether `other` is the same key.
    pub fn same(&self, other: &ZapKey) -> (same: bool)
        ensures
            same == (*self == *other),
    {
        self.sender.same(&other.sender) && self.target.same(&other.target)
    }
}

/// A tip that was issued: the sender, the relays the sender is connected
/// to, the target and the amount in millisatoshis.
#[derive(Debug, PartialEq, Eq)]
pub struct ZapRequest {
    pub sender: Pubkey,
    pub relays: Vec<String>,
    pub target: ZapTarget,
    pub msats: u64,
}

/// The mathematical value of a `ZapRequest`.
pub struct ZapRequestView {
    pub sender: Pubkey,
    pub relays: Seq<Seq<char>>,
    pub target: ZapTarget,
    pub msats: u64,
}

impl View for ZapRequest {
    type V = ZapRequestView;

    open spec fn view(&self) -> ZapRequestView {
        ZapRequestView {
            sender: self.sender,
            relays: self.relays.deep_view(),
            target: self.target,
            msats: self.msats,
        }
    }
}

/// The payment subsystem. It holds at most one failure under each key, and
/// the issued tips in the order in which they were issued.
pub struct Zaps {
    failures: Vec<(ZapKey, ZappingError)>,
    requests: Vec<ZapRequest>,
}

/// The mathematical value of a `Zaps`.
pub struct ZapsView {
    /// The recorded failure of each sender and target that has one.
    pub failures: Map<ZapKey, ZappingError>,
    /// The tips that were issued and not handed on yet, oldest first.
    pub requests: Seq<ZapRequestView>,
}

/// The views of the requests of a list.
pub open spec fn request_views(requests: Seq<ZapRequest>) -> Seq<ZapRequestView> {
    requests.map_values(|r: ZapRequest| r@)
}

impl View for Zaps {
    type V = ZapsView;

    closed spec fn view(&self) -> ZapsView {
        ZapsView { failures: to_map(self.failures@), requests: request_views(self.requests@) }
    }
}

impl Zaps {
    #[verifier::type_invariant]
    spec fn one_failure_per_key(&self) -> bool {
        distinct_keys(self.failures@)
    }

    /// A payment subsystem with no failure and no tip.
    pub fn new() -> (zaps: Zaps)
        ensures
            zaps@ == (ZapsView { failures: Map::empty(), requests: Seq::empty() }),
    {
        let zaps = Zaps { failures: Vec::new(), requests: Vec::new() };
        assert(request_views(zaps.requests@) =~= Seq::empty());
        zaps
    }

    /// Where the failure under `key` stands in the ledger.
    fn position(&self, key: &ZapKey) -> (at: Option<usize>)
        ensures
            match at {
                Some(i) => i < self.failures.len() && self.failures@[i as int].0 == *key
                    && has_key(self.failures@, *key),
                None => !has_key(self.failures@, *key),
            },
    {
        let mut i: usize = 0;
        while i < self.failures.len()
            invariant
                i <= self.failures.len(),
                forall|j: int| 0 <= j < i ==> self.failures@[j].0 != *key,
            decreases self.failures.len() - i,
        {
            if self.failures[i].0.same(key) {
                return Some(i);
            }
            i = i + 1;
        }
        None
    }

    /// The failure recorded for a tip of `sender` for `target`, if there is
    /// one.
    pub fn error_for(&self, sender: &Pubkey, target: ZapTarget) -> (error: Option<ZappingError>)
        ensures
            error == (if self@.failures.contains_key(ZapKey { sender: *sender, target }) {
                Some(self@.failures[ZapKey { sender: *sender, target }])
            } else {
                None
            }),
    {
        let key = ZapKey { sender: *sender, target };
        proof {
            use_type_invariant(self);
            lemma_to_map_dom(self.failures@);
        }
        match self.position(&key) {
            Some(i) => {
                proof {
                    lemma_to_map_at(self.failures@, i as int);
                }
                Some(self.failures[i].1)
            },
            None => None,
        }
    }

    /// How many failures are recorded.
    pub fn num_errors(&self) -> (n: usize)
        ensures
            self@.failures.dom().finite(),
            n == self@.failures.dom().len(),
    {
        proof {
            use_type_invariant(self);
            lemma_to_map_len(self.failures@);
        }
        self.failures.len()
    }

    /// Records that a tip of `sender` for `target` failed with `error`, in
    /// place of what was recorded for the two before.
    pub fn send_error(&mut self, sender: &Pubkey, target: ZapTarget, error: ZappingError)
        ensures
            final(self)@ == (ZapsView {
                failures: old(self)@.failures.insert(ZapKey { sender: *sender, target }, error),
                requests: old(self)@.requests,
            }),
    {
        let key = ZapKey { sender: *sender, target };
        proof {
            use_type_invariant(&*self);
            lemma_to_map_dom(self.failures@);
        }
        let at = self.position(&key);
        let ghost before = self.failures@;
        let mut failures: Vec<(ZapKey, ZappingError)> = Vec::new();
        core::mem::swap(&mut self.failures, &mut failures);
        match at {
            Some(i) => {
                failures.set(i, (key, error));
                proof {
                    lemma_to_map_update(before, i as int, error);
                }
            },
            None => {
                failures.push((key, error));
                proof {
                    lemma_to_map_push(before, key, error);
                    assert forall|a: int, b: int| 0 <= a < b < failures@.len() implies failures@[a].0
                        != failures@[b].0 by {
                        if b < before.len() {
                            assert(before[a].0 != before[b].0);
                        } else {
                            assert(before[a].0 != key);
                        }
                    }
                }
            },
        }
        self.failures = failures;
    }

    /// Takes the failure of a tip of `sender` for `target` out of the
    /// ledger, if one is recorded.
    pub fn clear_error_for(&mut self, sender: &Pubkey, target: ZapTarget)
        ensures
            final(self)@ == (ZapsView {
                failures: old(self)@.failures.remove(ZapKey { sender: *sender, target }),
                requests: old(self)@.requests,
            }),
    {
        let key = ZapKey { sender: *sender, target };
        proof {
            use_type_invariant(&*self);
            lemma_to_map_dom(self.failures@);
        }
        match self.position(&key) {
            Some(i) => {
                let ghost before = self.failures@;
                let mut failures: Vec<(ZapKey, ZappingError)> = Vec::new();
                core::mem::swap(&mut self.failures, &mut failures);
                failures.remove(i);
                proof {
                    lemma_to_map_remove(before, i as int);
                }
                self.failures = failures;
            },
            None => {
                assert(self@.failures.remove(key) =~= self@.failures);
            },
        }
    }

    /// Issues a tip of `msats` millisatoshis from `sender` for `target`. The
    /// tip is queued behind those issued before; nothing is awaited.
    pub fn send_zap(
        &mut self,
        sender: &Pubkey,
        sender_relays: Vec<String>,
        target: ZapTarget,
        msats: u64,
    )
        ensures
            final(self)@ == (ZapsView {
                failures: old(self)@.failures,
                requests: old(self)@.requests.push(
                    ZapRequestView {
                        sender: *sender,
                        relays: sender_relays.deep_view(),
                        target,
                        msats,
                    },
                ),
            }),
    {
        proof {
            use_type_invariant(&*self);
        }
        let request = ZapRequest { sender: *sender, relays: sender_relays, target, msats };
        let ghost before = self.requests@;
        let mut requests: Vec<ZapRequest> = Vec::new();
        core::mem::swap(&mut self.requests, &mut requests);
        requests.push(request);
        assert(request_views(requests@) =~= request_views(before).push(request@));
        self.requests = requests;
    }

    /// Hands the issued tips over, oldest first, and leaves none queued.
    pub fn take_requests(&mut self) -> (requests: Vec<ZapRequest>)
        ensures
            request_views(requests@) == old(self)@.requests,
            final(self)@ == (ZapsView {
                failures: old(self)@.failures,
                requests: Seq::empty(),
            }),
    {
        proof {
            use_type_invariant(&*self);
        }
        let mut requests: Vec<ZapRequest> = Vec::new();
        core::mem::swap(&mut self.requests, &mut requests);
        assert(request_views(self.requests@) =~= Seq::empty());
        requests
    }
}

} // verus!
