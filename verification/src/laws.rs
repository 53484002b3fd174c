//! What holds of every action: the laws of the dispatcher and of the merge.
//!
//! Each law is stated over `executed`, `processed` and `handled`, the
//! functions that the contracts of the dispatcher, of the merge and of the
//! two together are stated with.

use crate::accounts::{wallet_for, AccountsView, GlobalWallet, UserAccount, ZapWallet};
use crate::actionbar::{
    executed, feed_of, feed_opened, handled, no_response, processed, tip_msats, AnomalyView,
    NewNotesView, NoteActionView, TimelineOpenResultView,
};
use crate::ids::{NoteId, NoteKey, Pubkey};
use crate::lookup::NoteLookupView;
use crate::route::{active_router, ColumnView, RouterActionView, RouterType};
use crate::timeline::{
    lemma_merged, lemma_unseen, lemma_unseen_all, merge_order, opened, stored_notes, unseen,
    TimelineKey,
};
use crate::unknown::UnknownId;
use crate::zaps::{
    NoteZapTargetOwned, ZapAction, ZapKey, ZapRequestView, ZapTarget, ZapTargetAmount,
    ZappingError, ZapsView,
};
use vstd::prelude::*;

verus! {

/// Whether the subsystem that `action` concerns can serve it: a tip action
/// needs a selected account, a thread its resolution, a context action its
/// note. Every other action can always be served.
pub open spec fn can_be_served(
    action: NoteActionView,
    lookup: NoteLookupView,
    accounts: AccountsView,
) -> bool {
    match action {
        NoteActionView::Zap(_) => accounts.selected is Some,
        NoteActionView::Note(_) => lookup.thread is Some,
        NoteActionView::Context(_) => lookup.context_note,
        _ => true,
    }
}

/// An action that cannot be served is a no-op: it asks nothing of the
/// navigation layer, opens no feed, delegates nothing, and leaves the feed
/// cache, the payment subsystem and the tracker as they were.
pub proof fn law_unserved_action_is_noop(
    action: NoteActionView,
    lookup: NoteLookupView,
    column: ColumnView,
    cache: Map<TimelineKey, Seq<NoteKey>>,
    pool: Seq<Seq<char>>,
    unknown_ids: Set<UnknownId>,
    accounts: AccountsView,
    global_wallet: GlobalWallet,
    zaps: ZapsView,
)
    requires
        !can_be_served(action, lookup, accounts),
    ensures
        ({
            let done = executed(
                action,
                lookup,
                cache,
                pool,
                accounts,
                global_wallet,
                zaps,
                active_router(column),
            );
            &&& done.cache == cache
            &&& done.zaps == zaps
            &&& done.response.router_action is None
            &&& done.response.timeline_res is None
            &&& done.response.delegate is None
        }),
        ({
            let after = handled(
                action,
                lookup,
                column,
                cache,
                pool,
                unknown_ids,
                accounts,
                global_wallet,
                zaps,
            );
            &&& after.cache == cache
            &&& after.zaps == zaps
            &&& after.unknown_ids == unknown_ids
            &&& after.outcome.router_action is None
            &&& after.outcome.delegate is None
        }),
{
}

/// An action opens the feed that `feed_of` names, with the notes that the
/// database holds for it, and no other; an action for which it names none
/// leaves the feed cache as it was.
pub proof fn law_feed_of_action(
    action: NoteActionView,
    lookup: NoteLookupView,
    cache: Map<TimelineKey, Seq<NoteKey>>,
    pool: Seq<Seq<char>>,
    accounts: AccountsView,
    global_wallet: GlobalWallet,
    zaps: ZapsView,
    router_type: RouterType,
)
    ensures
        ({
            let done = executed(
                action,
                lookup,
                cache,
                pool,
                accounts,
                global_wallet,
                zaps,
                router_type,
            );
            match feed_of(action, lookup.thread) {
                Some(kind) => done == feed_opened(kind, lookup.found, cache, zaps),
                None => done.cache == cache && done.response.timeline_res is None,
            }
        }),
{
}

/// A tip action while no account is selected does nothing at all, and
/// nothing is to be logged.
pub proof fn law_tip_without_account(
    zap: ZapAction,
    lookup: NoteLookupView,
    cache: Map<TimelineKey, Seq<NoteKey>>,
    pool: Seq<Seq<char>>,
    accounts: AccountsView,
    global_wallet: GlobalWallet,
    zaps: ZapsView,
    router_type: RouterType,
)
    requires
        accounts.selected is None,
    ensures
        ({
            let done = executed(
                NoteActionView::Zap(zap),
                lookup,
                cache,
                pool,
                accounts,
                global_wallet,
                zaps,
                router_type,
            );
            &&& done.cache == cache
            &&& done.zaps == zaps
            &&& done.response == no_response()
        }),
{
}

/// Opening a profile twice leaves one feed under its key: the first call
/// puts the key into the cache, the second adds none, and no other feed
/// is touched by either.
pub proof fn law_profile_opened_once(
    pk: Pubkey,
    first_lookup: NoteLookupView,
    second_lookup: NoteLookupView,
    column: ColumnView,
    cache: Map<TimelineKey, Seq<NoteKey>>,
    pool: Seq<Seq<char>>,
    unknown_ids: Set<UnknownId>,
    accounts: AccountsView,
    global_wallet: GlobalWallet,
    zaps: ZapsView,
)
    ensures
        ({
            let first = handled(
                NoteActionView::Profile(pk),
                first_lookup,
                column,
                cache,
                pool,
                unknown_ids,
                accounts,
                global_wallet,
                zaps,
            );
            let second = handled(
                NoteActionView::Profile(pk),
                second_lookup,
                column,
                first.cache,
                pool,
                first.unknown_ids,
                accounts,
                global_wallet,
                first.zaps,
            );
            &&& first.cache.dom() == cache.dom().insert(TimelineKey::Profile(pk))
            &&& second.cache.dom() == first.cache.dom()
            &&& second.cache.contains_key(TimelineKey::Profile(pk))
            &&& forall|kind: TimelineKey|
                kind != TimelineKey::Profile(pk) && cache.contains_key(kind)
                    ==> second.cache[kind] == cache[kind]
        }),
{
    let key = TimelineKey::Profile(pk);
    let first = handled(
        NoteActionView::Profile(pk),
        first_lookup,
        column,
        cache,
        pool,
        unknown_ids,
        accounts,
        global_wallet,
        zaps,
    );
    let second = handled(
        NoteActionView::Profile(pk),
        second_lookup,
        column,
        first.cache,
        pool,
        first.unknown_ids,
        accounts,
        global_wallet,
        first.zaps,
    );
    assert(opened(cache, key).dom() =~= cache.dom().insert(key));
    assert(first.cache.dom() =~= cache.dom().insert(key));
    assert(opened(first.cache, key) == first.cache);
    assert(second.cache.dom() =~= first.cache.dom());
}

/// What a feed-open reports can always be merged: the feed that it names is
/// in the cache, and the notes are some, name no note twice, and are none
/// of them in the feed.
pub proof fn law_open_result_can_be_merged(
    action: NoteActionView,
    lookup: NoteLookupView,
    cache: Map<TimelineKey, Seq<NoteKey>>,
    pool: Seq<Seq<char>>,
    accounts: AccountsView,
    global_wallet: GlobalWallet,
    zaps: ZapsView,
    router_type: RouterType,
)
    ensures
        ({
            let done = executed(
                action,
                lookup,
                cache,
                pool,
                accounts,
                global_wallet,
                zaps,
                router_type,
            );
            done.response.timeline_res matches Some(TimelineOpenResultView::NewNotes(new_notes))
                ==> {
                &&& feed_of(action, lookup.thread) == Some(new_notes.id)
                &&& done.cache.contains_key(new_notes.id)
                &&& done.cache[new_notes.id] == stored_notes(cache, new_notes.id)
                &&& new_notes.notes.len() > 0
                &&& new_notes.notes.no_duplicates()
                &&& forall|i: int|
                    0 <= i < new_notes.notes.len() ==> !done.cache[new_notes.id].contains(
                        #[trigger] new_notes.notes[i],
                    )
            }
        }),
{
    let done = executed(action, lookup, cache, pool, accounts, global_wallet, zaps, router_type);
    if let Some(TimelineOpenResultView::NewNotes(new_notes)) = done.response.timeline_res {
        let stored = stored_notes(cache, new_notes.id);
        lemma_unseen(stored, lookup.found);
        assert forall|i: int| 0 <= i < new_notes.notes.len() implies !stored.contains(
            #[trigger] new_notes.notes[i],
        ) by {
            assert(new_notes.notes.contains(new_notes.notes[i]));
        }
    }
}

/// Through the entry point the merge never fails: whatever is logged is a
/// thread that could not be resolved or a note that a context action did
/// not find. An action that opens a feed leaves behind what the feed held
/// the found notes that it lacked, each once: back to front in a thread,
/// in their own order in every other feed.
pub proof fn law_opened_feed_is_refreshed(
    action: NoteActionView,
    lookup: NoteLookupView,
    column: ColumnView,
    cache: Map<TimelineKey, Seq<NoteKey>>,
    pool: Seq<Seq<char>>,
    unknown_ids: Set<UnknownId>,
    accounts: AccountsView,
    global_wallet: GlobalWallet,
    zaps: ZapsView,
)
    ensures
        ({
            let after = handled(
                action,
                lookup,
                column,
                cache,
                pool,
                unknown_ids,
                accounts,
                global_wallet,
                zaps,
            );
            &&& !(after.outcome.anomaly matches Some(AnomalyView::MissingTimeline(_)))
            &&& !(after.outcome.anomaly matches Some(AnomalyView::RefusedNotes(_, _)))
            &&& feed_of(action, lookup.thread) matches Some(kind) ==> {
                let stored = stored_notes(cache, kind);
                let fresh = unseen(stored, lookup.found);
                &&& after.outcome.anomaly is None
                &&& after.cache.dom() == cache.dom().insert(kind)
                &&& after.cache[kind] == stored + (if kind is Thread {
                    fresh.reverse()
                } else {
                    fresh
                })
                &&& forall|other: TimelineKey|
                    other != kind && cache.contains_key(other) ==> after.cache[other]
                        == cache[other]
            }
        }),
{
    let router_type = active_router(column);
    let done = executed(action, lookup, cache, pool, accounts, global_wallet, zaps, router_type);
    law_open_result_can_be_merged(
        action,
        lookup,
        cache,
        pool,
        accounts,
        global_wallet,
        zaps,
        router_type,
    );
    let after = handled(
        action,
        lookup,
        column,
        cache,
        pool,
        unknown_ids,
        accounts,
        global_wallet,
        zaps,
    );
    if let Some(kind) = feed_of(action, lookup.thread) {
        let stored = stored_notes(cache, kind);
        let fresh = unseen(stored, lookup.found);
        assert(done.cache == opened(cache, kind));
        assert(opened(cache, kind).dom() =~= cache.dom().insert(kind));
        match done.response.timeline_res {
            Some(TimelineOpenResultView::NewNotes(new_notes)) => {
                assert(new_notes.notes == fresh);
                law_merge_order(new_notes, lookup.unknown_ids, done.cache, unknown_ids);
                assert(after.cache.dom() =~= cache.dom().insert(kind));
            },
            None => {
                assert(fresh =~= Seq::empty());
                assert(fresh.reverse() =~= Seq::empty());
                assert(stored + Seq::<NoteKey>::empty() =~= stored);
            },
        }
    }
}

/// New notes that name no note twice are merged into the feed that they
/// name, if the cache holds it: behind what the feed holds come those of
/// them that it lacks, back to front in a thread and in their own order in
/// every other feed. Where the feed holds none of them, all of them come.
pub proof fn law_merge_order(
    new_notes: NewNotesView,
    unknown: Seq<UnknownId>,
    cache: Map<TimelineKey, Seq<NoteKey>>,
    unknown_ids: Set<UnknownId>,
)
    requires
        cache.contains_key(new_notes.id),
        new_notes.notes.no_duplicates(),
    ensures
        ({
            let after = processed(new_notes, unknown, cache, unknown_ids);
            let stored = cache[new_notes.id];
            let none_stored = forall|i: int|
                0 <= i < new_notes.notes.len() ==> !stored.contains(new_notes.notes[i]);
            &&& after.anomaly is None
            &&& after.cache.dom() == cache.dom()
            &&& after.cache[new_notes.id].no_duplicates() <== stored.no_duplicates()
            &&& new_notes.id is Thread ==> after.cache[new_notes.id] == stored + unseen(
                stored,
                new_notes.notes.reverse(),
            )
            &&& !(new_notes.id is Thread) ==> after.cache[new_notes.id] == stored + unseen(
                stored,
                new_notes.notes,
            )
            &&& new_notes.id is Thread && none_stored ==> after.cache[new_notes.id] == stored
                + new_notes.notes.reverse()
            &&& !(new_notes.id is Thread) && none_stored ==> after.cache[new_notes.id] == stored
                + new_notes.notes
        }),
{
    let reversed = new_notes.id is Thread;
    let stored = cache[new_notes.id];
    let ordered = merge_order(new_notes.notes, reversed);
    let after = processed(new_notes, unknown, cache, unknown_ids);
    assert(after.cache.dom() =~= cache.dom());
    if stored.no_duplicates() {
        lemma_merged(stored, new_notes.notes, reversed);
    }
    if forall|i: int| 0 <= i < new_notes.notes.len() ==> !stored.contains(new_notes.notes[i]) {
        assert(ordered.no_duplicates());
        assert forall|i: int| 0 <= i < ordered.len() implies !stored.contains(ordered[i]) by {
            if reversed {
                assert(ordered[i] == new_notes.notes[new_notes.notes.len() - 1 - i]);
            }
        }
        lemma_unseen_all(stored, ordered);
    }
}

/// A tip that the selected account has no wallet for is recorded as failed
/// under the sender and the target, with the reason that the sender has no
/// wallet. No tip is issued, and nothing is asked of the navigation layer.
pub proof fn law_send_without_wallet(
    target_amount: ZapTargetAmount,
    account: UserAccount,
    lookup: NoteLookupView,
    cache: Map<TimelineKey, Seq<NoteKey>>,
    pool: Seq<Seq<char>>,
    accounts: AccountsView,
    global_wallet: GlobalWallet,
    zaps: ZapsView,
    router_type: RouterType,
)
    requires
        accounts.selected == Some(account),
        wallet_for(accounts.accounts, global_wallet, account.pubkey) is None,
    ensures
        ({
            let done = executed(
                NoteActionView::Zap(ZapAction::Send(target_amount)),
                lookup,
                cache,
                pool,
                accounts,
                global_wallet,
                zaps,
                router_type,
            );
            let key = ZapKey {
                sender: account.pubkey,
                target: ZapTarget::Note(target_amount.target),
            };
            &&& done.zaps.failures == zaps.failures.insert(key, ZappingError::SenderNoWallet)
            &&& done.zaps.failures.contains_key(key)
            &&& done.zaps.failures[key] == ZappingError::SenderNoWallet
            &&& done.zaps.requests == zaps.requests
            &&& done.cache == cache
            &&& done.response == no_response()
        }),
{
}

/// Clearing takes the failure of the selected account and the target out
/// of the ledger and touches nothing else. Where none is recorded for the
/// two, the payment subsystem stays as it was.
pub proof fn law_clear_error(
    target: NoteZapTargetOwned,
    account: UserAccount,
    lookup: NoteLookupView,
    cache: Map<TimelineKey, Seq<NoteKey>>,
    pool: Seq<Seq<char>>,
    accounts: AccountsView,
    global_wallet: GlobalWallet,
    zaps: ZapsView,
    router_type: RouterType,
)
    requires
        accounts.selected == Some(account),
    ensures
        ({
            let done = executed(
                NoteActionView::Zap(ZapAction::ClearError(target)),
                lookup,
                cache,
                pool,
                accounts,
                global_wallet,
                zaps,
                router_type,
            );
            let key = ZapKey { sender: account.pubkey, target: ZapTarget::Note(target) };
            &&& !done.zaps.failures.contains_key(key)
            &&& done.zaps.failures == zaps.failures.remove(key)
            &&& done.zaps.requests == zaps.requests
            &&& !zaps.failures.contains_key(key) ==> done.zaps == zaps
            &&& done.cache == cache
            &&& done.response == no_response()
        }),
{
    let key = ZapKey { sender: account.pubkey, target: ZapTarget::Note(target) };
    if !zaps.failures.contains_key(key) {
        assert(zaps.failures.remove(key) =~= zaps.failures);
    }
}

/// A failure that a tip without a wallet left is gone once it is cleared:
/// the ledger is then as if the tip had never been tried and the failure
/// recorded before it had been cleared.
pub proof fn law_clear_after_failed_send(
    target_amount: ZapTargetAmount,
    account: UserAccount,
    lookup: NoteLookupView,
    cache: Map<TimelineKey, Seq<NoteKey>>,
    pool: Seq<Seq<char>>,
    accounts: AccountsView,
    global_wallet: GlobalWallet,
    zaps: ZapsView,
    router_type: RouterType,
)
    requires
        accounts.selected == Some(account),
        wallet_for(accounts.accounts, global_wallet, account.pubkey) is None,
    ensures
        ({
            let failed = executed(
                NoteActionView::Zap(ZapAction::Send(target_amount)),
                lookup,
                cache,
                pool,
                accounts,
                global_wallet,
                zaps,
                router_type,
            );
            let cleared = executed(
                NoteActionView::Zap(ZapAction::ClearError(target_amount.target)),
                lookup,
                failed.cache,
                pool,
                accounts,
                global_wallet,
                failed.zaps,
                router_type,
            );
            let key = ZapKey {
                sender: account.pubkey,
                target: ZapTarget::Note(target_amount.target),
            };
            &&& !cleared.zaps.failures.contains_key(key)
            &&& cleared.zaps.failures == zaps.failures.remove(key)
            &&& cleared.zaps.requests == zaps.requests
        }),
{
    let key = ZapKey { sender: account.pubkey, target: ZapTarget::Note(target_amount.target) };
    assert(zaps.failures.insert(key, ZappingError::SenderNoWallet).remove(key)
        =~= zaps.failures.remove(key));
}

/// A tip that the selected account has a wallet for is issued once, behind
/// the tips issued before: of the amount that the user named, else of the
/// default of the wallet. The ledger of failures is not touched. The
/// navigation layer is asked to go back where the sheet is the active
/// context, and for nothing where the stack is.
pub proof fn law_send_with_wallet(
    target_amount: ZapTargetAmount,
    account: UserAccount,
    wallet: ZapWallet,
    lookup: NoteLookupView,
    cache: Map<TimelineKey, Seq<NoteKey>>,
    pool: Seq<Seq<char>>,
    accounts: AccountsView,
    global_wallet: GlobalWallet,
    zaps: ZapsView,
    router_type: RouterType,
)
    requires
        accounts.selected == Some(account),
        wallet_for(accounts.accounts, global_wallet, account.pubkey) == Some(wallet),
    ensures
        ({
            let done = executed(
                NoteActionView::Zap(ZapAction::Send(target_amount)),
                lookup,
                cache,
                pool,
                accounts,
                global_wallet,
                zaps,
                router_type,
            );
            let msats = match target_amount.specified_msats {
                Some(named) => named,
                None => wallet.default_zap_msats,
            };
            &&& done.zaps.failures == zaps.failures
            &&& done.zaps.requests == zaps.requests.push(
                ZapRequestView {
                    sender: account.pubkey,
                    relays: pool,
                    target: ZapTarget::Note(target_amount.target),
                    msats,
                },
            )
            &&& router_type == RouterType::Sheet ==> done.response.router_action == Some(
                RouterActionView::GoBack,
            )
            &&& router_type == RouterType::Stack ==> done.response.router_action is None
            &&& done.response.timeline_res is None
            &&& done.cache == cache
        }),
{
}

/// Opening the thread of a note that the database cannot place asks
/// nothing of the navigation layer and leaves the feed cache as it was;
/// the anomaly names the note.
pub proof fn law_unresolved_thread(
    id: NoteId,
    lookup: NoteLookupView,
    column: ColumnView,
    cache: Map<TimelineKey, Seq<NoteKey>>,
    pool: Seq<Seq<char>>,
    unknown_ids: Set<UnknownId>,
    accounts: AccountsView,
    global_wallet: GlobalWallet,
    zaps: ZapsView,
)
    requires
        lookup.thread is None,
    ensures
        ({
            let after = handled(
                NoteActionView::Note(id),
                lookup,
                column,
                cache,
                pool,
                unknown_ids,
                accounts,
                global_wallet,
                zaps,
            );
            &&& after.cache == cache
            &&& after.zaps == zaps
            &&& after.unknown_ids == unknown_ids
            &&& after.outcome.router_action is None
            &&& after.outcome.delegate is None
            &&& after.outcome.anomaly == Some(AnomalyView::NoThreadSelection(id))
        }),
{
}

/// Through the entry point, a tip that is issued while the column shows a
/// sheet asks the navigation layer to go back, and one issued while it
/// shows none asks for nothing. Either way the tip is issued.
pub proof fn law_send_pops_modal(
    target_amount: ZapTargetAmount,
    account: UserAccount,
    wallet: ZapWallet,
    lookup: NoteLookupView,
    column: ColumnView,
    cache: Map<TimelineKey, Seq<NoteKey>>,
    pool: Seq<Seq<char>>,
    unknown_ids: Set<UnknownId>,
    accounts: AccountsView,
    global_wallet: GlobalWallet,
    zaps: ZapsView,
)
    requires
        accounts.selected == Some(account),
        wallet_for(accounts.accounts, global_wallet, account.pubkey) == Some(wallet),
    ensures
        ({
            let after = handled(
                NoteActionView::Zap(ZapAction::Send(target_amount)),
                lookup,
                column,
                cache,
                pool,
                unknown_ids,
                accounts,
                global_wallet,
                zaps,
            );
            &&& column.sheet.len() > 0 ==> after.outcome.router_action == Some(
                RouterActionView::GoBack,
            )
            &&& column.sheet.len() == 0 ==> after.outcome.router_action is None
            &&& after.zaps.requests.len() == zaps.requests.len() + 1
            &&& after.zaps.requests.last().msats == tip_msats(
                target_amount,
                wallet.default_zap_msats,
            )
            &&& after.cache == cache
            &&& after.unknown_ids == unknown_ids
        }),
{
}

} // verus!
