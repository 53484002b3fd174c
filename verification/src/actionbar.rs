//! The dispatcher of note actions and the merge of what a feed-open found.
//!
//! `execute_note_action` routes one action to the subsystem that it
//! concerns. `NewNotes::process` merges the notes that a feed-open found into
//! the cache. `execute_and_process_note_action` does the one and then the
//! other. What each of them does is a function of the values it is given;
//! `executed`, `processed` and `handled` are those functions.

use crate::accounts::{get_wallet_for, wallet_for, Accounts, AccountsView, GlobalWallet};
use crate::ids::{hex_of, NoteId, NoteKey, Pubkey};
use crate::lookup::{NoteLookup, NoteLookupView};
use crate::relay::RelayPool;
use crate::route::{
    active_router, router_action_view, Column, ColumnView, Route, RouteView, RouterAction,
    RouterActionView, RouterType,
};
use crate::timeline::{
    kind_name, merged, open_result, open_result_view, opened, timeline_error_text,
    ThreadSelection, TimelineCache, TimelineError, TimelineKey, TimelineKind,
};
use crate::unknown::{UnknownId, UnknownIds};
use crate::zaps::{
    NoteZapTargetOwned, ZapAction, ZapKey, ZapRequestView, ZapTarget, ZapTargetAmount, Zaps,
    ZappingError, ZapsView,
};
use vstd::prelude::*;
use vstd::string::StringExecFns;

verus! {

/// The note that a context action is about. What the action does with the
/// note is the business of the caller, who holds the action.
#[derive(Clone, Copy, Debug, PartialEq, Eq, Structural, Hash)]
pub struct ContextSelection {
    pub note_key: NoteKey,
}

/// What the user asked for.
#[derive(Debug, PartialEq, Eq)]
pub enum NoteAction {
    /// Write a reply to the note.
    Reply(NoteId),
    /// Write a quote of the note.
    Quote(NoteId),
    /// Open the feed of the hashtag.
    Hashtag(String),
    /// Open the feed of the author.
    Profile(Pubkey),
    /// Open the thread of the note.
    Note(NoteId),
    /// Apply an action of the context menu to a note.
    Context(ContextSelection),
    /// Send a tip, or deal with one.
    Zap(ZapAction),
    /// Let the media subsystem act.
    Media,
}

/// The mathematical value of a `NoteAction`.
pub enum NoteActionView {
    Reply(NoteId),
    Quote(NoteId),
    Hashtag(Seq<char>),
    Profile(Pubkey),
    Note(NoteId),
    Context(ContextSelection),
    Zap(ZapAction),
    Media,
}

impl View for NoteAction {
    type V = NoteActionView;

    open spec fn view(&self) -> NoteActionView {
        match self {
            NoteAction::Reply(id) => NoteActionView::Reply(*id),
            NoteAction::Quote(id) => NoteActionView::Quote(*id),
            NoteAction::Hashtag(tag) => NoteActionView::Hashtag(tag@),
            NoteAction::Profile(pk) => NoteActionView::Profile(*pk),
            NoteAction::Note(id) => NoteActionView::Note(*id),
            NoteAction::Context(context) => NoteActionView::Context(*context),
            NoteAction::Zap(zap) => NoteActionView::Zap(*zap),
            NoteAction::Media => NoteActionView::Media,
        }
    }
}

/// The feed that `action` opens, if it opens one: the profile, the
/// hashtag, or the thread `thread` that the database gave for the note.
pub open spec fn feed_of(action: NoteActionView, thread: Option<ThreadSelection>)
    -> Option<TimelineKey> {
    match action {
        NoteActionView::Profile(pk) => Some(TimelineKey::Profile(pk)),
        NoteActionView::Hashtag(tag) => Some(TimelineKey::Hashtag(tag)),
        NoteActionView::Note(_) => match thread {
            Some(selection) => Some(TimelineKey::Thread(selection)),
            None => None,
        },
        _ => None,
    }
}

impl NoteAction {
    /// The feed that the action opens, if it opens one. It is the feed for
    /// which the dispatcher wants the notes that the database holds.
    pub fn timeline_kind(&self, thread: &Option<ThreadSelection>) -> (kind: Option<
        TimelineKind,
    >)
        ensures
            match kind {
                Some(k) => feed_of(self@, *thread) == Some(k@),
                None => feed_of(self@, *thread) is None,
            },
    {
        match self {
            NoteAction::Profile(pk) => Some(TimelineKind::Profile(*pk)),
            NoteAction::Hashtag(tag) => Some(TimelineKind::Hashtag(tag.clone())),
            NoteAction::Note(_) => match thread {
                Some(selection) => Some(TimelineKind::Thread(*selection)),
                None => None,
            },
            _ => None,
        }
    }
}

/// Work that the dispatcher leaves to the routine of the action's payload.
#[derive(Clone, Copy, Debug, PartialEq, Eq, Structural, Hash)]
pub enum Delegate {
    /// Apply the context action to the note under this key, which the
    /// database holds.
    Context(NoteKey),
    /// Let the media subsystem act.
    Media,
}

/// Something that went wrong and is to be logged. It stops the one action
/// and nothing else.
#[derive(Debug, PartialEq, Eq)]
pub enum Anomaly {
    /// The database could not tell the thread of the note.
    NoThreadSelection(NoteId),
    /// The database does not hold the note of a context action.
    NoteNotFound(NoteKey),
    /// New notes came for a feed that the cache does not hold.
    MissingTimeline(TimelineKind),
    /// The feed refused the new notes.
    RefusedNotes(TimelineKind, TimelineError),
}

/// The mathematical value of an `Anomaly`.
pub enum AnomalyView {
    NoThreadSelection(NoteId),
    NoteNotFound(NoteKey),
    MissingTimeline(TimelineKey),
    RefusedNotes(TimelineKey, TimelineError),
}

impl View for Anomaly {
    type V = AnomalyView;

    open spec fn view(&self) -> AnomalyView {
        match self {
            Anomaly::NoThreadSelection(id) => AnomalyView::NoThreadSelection(*id),
            Anomaly::NoteNotFound(key) => AnomalyView::NoteNotFound(*key),
            Anomaly::MissingTimeline(kind) => AnomalyView::MissingTimeline(kind@),
            Anomaly::RefusedNotes(kind, error) => AnomalyView::RefusedNotes(kind@, *error),
        }
    }
}

/// The line that is logged for an anomaly.
pub open spec fn anomaly_text(anomaly: AnomalyView) -> Seq<char> {
    match anomaly {
        AnomalyView::NoThreadSelection(id) => "No thread selection for "@ + hex_of(id.bytes@)
            + "?"@,
        AnomalyView::NoteNotFound(_) => "Not found"@,
        AnomalyView::MissingTimeline(kind) => "NewNotes: could not get timeline for key "@
            + kind_name(kind),
        AnomalyView::RefusedNotes(_, error) => "error inserting notes into profile timeline: "@
            + timeline_error_text(error),
    }
}

impl Anomaly {
    /// The line to log for the anomaly. A note id is written as 64
    /// hexadecimal digits.
    pub fn message(&self) -> (text: String)
        ensures
            text@ == anomaly_text(self@),
    {
        match self {
            Anomaly::NoThreadSelection(id) => {
                let mut text = "No thread selection for ".to_owned();
                let digits = id.hex();
                text.append(digits.as_str());
                text.append("?");
                text
            },
            Anomaly::NoteNotFound(_) => "Not found".to_owned(),
            Anomaly::MissingTimeline(kind) => {
                let mut text = "NewNotes: could not get timeline for key ".to_owned();
                text.append(kind.name());
                text
            },
            Anomaly::RefusedNotes(_, error) => {
                let mut text = "error inserting notes into profile timeline: ".to_owned();
                text.append(error.message());
                text
            },
        }
    }
}

/// The mathematical value of an anomaly that may be absent.
pub open spec fn anomaly_view(anomaly: Option<Anomaly>) -> Option<AnomalyView> {
    match anomaly {
        Some(a) => Some(a@),
        None => None,
    }
}

/// The notes that opening a feed found and that the feed does not hold yet.
#[derive(Debug, PartialEq, Eq)]
pub struct NewNotes {
    pub id: TimelineKind,
    pub notes: Vec<NoteKey>,
}

/// The mathematical value of a `NewNotes`.
pub struct NewNotesView {
    pub id: TimelineKey,
    pub notes: Seq<NoteKey>,
}

impl View for NewNotes {
    type V = NewNotesView;

    open spec fn view(&self) -> NewNotesView {
        NewNotesView { id: self.id@, notes: self.notes@ }
    }
}

/// What opening a feed brought.
#[derive(Debug, PartialEq, Eq)]
pub enum TimelineOpenResult {
    NewNotes(NewNotes),
}

/// The mathematical value of a `TimelineOpenResult`.
pub enum TimelineOpenResultView {
    NewNotes(NewNotesView),
}

impl View for TimelineOpenResult {
    type V = TimelineOpenResultView;

    open spec fn view(&self) -> TimelineOpenResultView {
        match self {
            TimelineOpenResult::NewNotes(new_notes) => TimelineOpenResultView::NewNotes(new_notes@),
        }
    }
}

/// What the dispatcher answers to one action.
#[derive(Debug, PartialEq, Eq)]
pub struct NoteActionResponse {
    /// What opening a feed brought, where the action opened one.
    pub timeline_res: Option<TimelineOpenResult>,
    /// What the navigation layer has to do next.
    pub router_action: Option<RouterAction>,
    /// What is left to the payload's own routine.
    pub delegate: Option<Delegate>,
    /// What is to be logged.
    pub anomaly: Option<Anomaly>,
}

/// The mathematical value of a `NoteActionResponse`.
pub struct NoteActionResponseView {
    pub timeline_res: Option<TimelineOpenResultView>,
    pub router_action: Option<RouterActionView>,
    pub delegate: Option<Delegate>,
    pub anomaly: Option<AnomalyView>,
}

impl View for NoteActionResponse {
    type V = NoteActionResponseView;

    open spec fn view(&self) -> NoteActionResponseView {
        NoteActionResponseView {
            timeline_res: open_result_view(self.timeline_res),
            router_action: router_action_view(self.router_action),
            delegate: self.delegate,
            anomaly: anomaly_view(self.anomaly),
        }
    }
}

/// What is left of the answer once the new notes are merged.
#[derive(Debug, PartialEq, Eq)]
pub struct ActionOutcome {
    /// What the navigation layer has to do next.
    pub router_action: Option<RouterAction>,
    /// What is left to the payload's own routine.
    pub delegate: Option<Delegate>,
    /// What is to be logged.
    pub anomaly: Option<Anomaly>,
}

/// The mathematical value of an `ActionOutcome`.
pub struct ActionOutcomeView {
    pub router_action: Option<RouterActionView>,
    pub delegate: Option<Delegate>,
    pub anomaly: Option<AnomalyView>,
}

impl View for ActionOutcome {
    type V = ActionOutcomeView;

    open spec fn view(&self) -> ActionOutcomeView {
        ActionOutcomeView {
            router_action: router_action_view(self.router_action),
            delegate: self.delegate,
            anomaly: anomaly_view(self.anomaly),
        }
    }
}

/// The answer that asks for nothing.
pub open spec fn no_response() -> NoteActionResponseView {
    NoteActionResponseView { timeline_res: None, router_action: None, delegate: None, anomaly: None }
}

/// The answer that asks the navigation layer for `action` and for nothing
/// else.
pub open spec fn only_route(action: RouterActionView) -> NoteActionResponseView {
    NoteActionResponseView {
        timeline_res: None,
        router_action: Some(action),
        delegate: None,
        anomaly: None,
    }
}

/// The amount of a tip: the one the user named, else `default_msats`.
pub open spec fn tip_msats(target_amount: ZapTargetAmount, default_msats: u64) -> u64 {
    match target_amount.specified_msats {
        Some(msats) => msats,
        None => default_msats,
    }
}

/// The payment subsystem after `sender` issued the tip `target_amount`
/// while connected to the relays `pool`.
pub open spec fn zap_sent(
    zaps: ZapsView,
    sender: Pubkey,
    pool: Seq<Seq<char>>,
    target_amount: ZapTargetAmount,
    default_msats: u64,
) -> ZapsView {
    ZapsView {
        failures: zaps.failures,
        requests: zaps.requests.push(
            ZapRequestView {
                sender,
                relays: pool,
                target: ZapTarget::Note(target_amount.target),
                msats: tip_msats(target_amount, default_msats),
            },
        ),
    }
}

/// The payment subsystem after the failure of `sender` and `target` was
/// cleared.
pub open spec fn zap_error_cleared(zaps: ZapsView, sender: Pubkey, target: NoteZapTargetOwned)
    -> ZapsView {
    ZapsView {
        failures: zaps.failures.remove(ZapKey { sender, target: ZapTarget::Note(target) }),
        requests: zaps.requests,
    }
}

/// The payment subsystem after it was recorded that `sender` has no wallet
/// for a tip for `target`.
pub open spec fn zap_refused(zaps: ZapsView, sender: Pubkey, target: NoteZapTargetOwned)
    -> ZapsView {
    ZapsView {
        failures: zaps.failures.insert(
            ZapKey { sender, target: ZapTarget::Note(target) },
            ZappingError::SenderNoWallet,
        ),
        requests: zaps.requests,
    }
}

/// What a tip action does: to the payment subsystem, and what it asks of
/// the navigation layer. Without a selected account it does nothing.
pub open spec fn zap_executed(
    zap: ZapAction,
    pool: Seq<Seq<char>>,
    accounts: AccountsView,
    global_wallet: GlobalWallet,
    zaps: ZapsView,
    router_type: RouterType,
) -> (ZapsView, Option<RouterActionView>) {
    match accounts.selected {
        None => (zaps, None),
        Some(account) => {
            let sender = account.pubkey;
            match zap {
                ZapAction::Send(target_amount) => match wallet_for(
                    accounts.accounts,
                    global_wallet,
                    sender,
                ) {
                    None => (zap_refused(zaps, sender, target_amount.target), None),
                    Some(wallet) => (
                        zap_sent(zaps, sender, pool, target_amount, wallet.default_zap_msats),
                        if router_type == RouterType::Sheet {
                            Some(RouterActionView::GoBack)
                        } else {
                            None
                        },
                    ),
                },
                ZapAction::ClearError(target) => (zap_error_cleared(zaps, sender, target), None),
                ZapAction::CustomizeAmount(target) => (
                    zaps,
                    Some(
                        RouterActionView::RouteTo(
                            RouteView::CustomizeZapAmount(target),
                            RouterType::Sheet,
                        ),
                    ),
                ),
            }
        },
    }
}

/// The feed cache, the payment subsystem and the answer after one action.
pub struct Executed {
    pub cache: Map<TimelineKey, Seq<NoteKey>>,
    pub zaps: ZapsView,
    pub response: NoteActionResponseView,
}

/// What opening the feed `kind` does: the feed is in the cache afterwards,
/// the navigation layer is asked to push its screen, and the found notes
/// that the feed does not hold are reported.
pub open spec fn feed_opened(
    kind: TimelineKey,
    found: Seq<NoteKey>,
    cache: Map<TimelineKey, Seq<NoteKey>>,
    zaps: ZapsView,
) -> Executed {
    Executed {
        cache: opened(cache, kind),
        zaps,
        response: NoteActionResponseView {
            timeline_res: open_result(cache, kind, found),
            router_action: Some(
                RouterActionView::RouteTo(RouteView::Timeline(kind), RouterType::Stack),
            ),
            delegate: None,
            anomaly: None,
        },
    }
}

/// What one action does, given the answers of the note database, the
/// subsystems, and the navigation context that is active.
pub open spec fn executed(
    action: NoteActionView,
    lookup: NoteLookupView,
    cache: Map<TimelineKey, Seq<NoteKey>>,
    pool: Seq<Seq<char>>,
    accounts: AccountsView,
    global_wallet: GlobalWallet,
    zaps: ZapsView,
    router_type: RouterType,
) -> Executed {
    match action {
        NoteActionView::Reply(id) => Executed {
            cache,
            zaps,
            response: only_route(RouterActionView::RouteTo(RouteView::Reply(id), RouterType::Stack)),
        },
        NoteActionView::Quote(id) => Executed {
            cache,
            zaps,
            response: only_route(RouterActionView::RouteTo(RouteView::Quote(id), RouterType::Stack)),
        },
        NoteActionView::Profile(pk) => feed_opened(
            TimelineKey::Profile(pk),
            lookup.found,
            cache,
            zaps,
        ),
        NoteActionView::Hashtag(tag) => feed_opened(
            TimelineKey::Hashtag(tag),
            lookup.found,
            cache,
            zaps,
        ),
        NoteActionView::Note(id) => match lookup.thread {
            Some(selection) => feed_opened(TimelineKey::Thread(selection), lookup.found, cache, zaps),
            None => Executed {
                cache,
                zaps,
                response: NoteActionResponseView {
                    timeline_res: None,
                    router_action: None,
                    delegate: None,
                    anomaly: Some(AnomalyView::NoThreadSelection(id)),
                },
            },
        },
        NoteActionView::Zap(zap) => {
            let (zaps_after, router_action) = zap_executed(
                zap,
                pool,
                accounts,
                global_wallet,
                zaps,
                router_type,
            );
            Executed {
                cache,
                zaps: zaps_after,
                response: NoteActionResponseView {
                    timeline_res: None,
                    router_action,
                    delegate: None,
                    anomaly: None,
                },
            }
        },
        NoteActionView::Context(context) => Executed {
            cache,
            zaps,
            response: if lookup.context_note {
                NoteActionResponseView {
                    timeline_res: None,
                    router_action: None,
                    delegate: Some(Delegate::Context(context.note_key)),
                    anomaly: None,
                }
            } else {
                NoteActionResponseView {
                    timeline_res: None,
                    router_action: None,
                    delegate: None,
                    anomaly: Some(AnomalyView::NoteNotFound(context.note_key)),
                }
            },
        },
        NoteActionView::Media => Executed {
            cache,
            zaps,
            response: NoteActionResponseView {
                timeline_res: None,
                router_action: None,
                delegate: Some(Delegate::Media),
                anomaly: None,
            },
        },
    }
}

/// Opens the feed `kind` and asks the navigation layer for its screen.
fn open_timeline(kind: TimelineKind, lookup: &NoteLookup, timeline_cache: &mut TimelineCache) -> (resp:
    NoteActionResponse)
    ensures
        final(timeline_cache)@ == opened(old(timeline_cache)@, kind@),
        resp@ == (NoteActionResponseView {
            timeline_res: open_result(old(timeline_cache)@, kind@, lookup@.found),
            router_action: Some(
                RouterActionView::RouteTo(RouteView::Timeline(kind@), RouterType::Stack),
            ),
            delegate: None,
            anomaly: None,
        }),
{
    let timeline_res = timeline_cache.open(&kind, &lookup.found);
    let router_action = Some(RouterAction::route_to(Route::Timeline(kind)));
    NoteActionResponse { timeline_res, router_action, delegate: None, anomaly: None }
}

/// Routes one action to the subsystem that it concerns, and answers what
/// the navigation layer has to do next and what opening a feed brought.
///
/// An action that cannot be carried out changes nothing: a thread that the
/// database cannot tell, a note of a context action that it does not hold,
/// a tip action while no account is selected.
pub fn execute_note_action(
    action: NoteAction,
    lookup: &NoteLookup,
    timeline_cache: &mut TimelineCache,
    pool: &RelayPool,
    accounts: &Accounts,
    global_wallet: &GlobalWallet,
    zaps: &mut Zaps,
    router_type: RouterType,
) -> (resp: NoteActionResponse)
    ensures
        final(timeline_cache)@ == executed(
            action@,
            lookup@,
            old(timeline_cache)@,
            pool@,
            accounts@,
            *global_wallet,
            old(zaps)@,
            router_type,
        ).cache,
        final(zaps)@ == executed(
            action@,
            lookup@,
            old(timeline_cache)@,
            pool@,
            accounts@,
            *global_wallet,
            old(zaps)@,
            router_type,
        ).zaps,
        resp@ == executed(
            action@,
            lookup@,
            old(timeline_cache)@,
            pool@,
            accounts@,
            *global_wallet,
            old(zaps)@,
            router_type,
        ).response,
{
    match action {
        NoteAction::Reply(note_id) => NoteActionResponse {
            timeline_res: None,
            router_action: Some(RouterAction::route_to(Route::reply(note_id))),
            delegate: None,
            anomaly: None,
        },
        NoteAction::Profile(pubkey) => open_timeline(
            TimelineKind::Profile(pubkey),
            lookup,
            timeline_cache,
        ),
        NoteAction::Note(note_id) => match lookup.thread {
            None => NoteActionResponse {
                timeline_res: None,
                router_action: None,
                delegate: None,
                anomaly: Some(Anomaly::NoThreadSelection(note_id)),
            },
            Some(thread_selection) => open_timeline(
                TimelineKind::Thread(thread_selection),
                lookup,
                timeline_cache,
            ),
        },
        NoteAction::Hashtag(htag) => open_timeline(TimelineKind::Hashtag(htag), lookup, timeline_cache),
        NoteAction::Quote(note_id) => NoteActionResponse {
            timeline_res: None,
            router_action: Some(RouterAction::route_to(Route::quote(note_id))),
            delegate: None,
            anomaly: None,
        },
        NoteAction::Zap(zap_action) => {
            let mut router_action: Option<RouterAction> = None;
            match accounts.get_selected_account() {
                None => {},
                Some(cur_acc) => {
                    let sender = cur_acc.pubkey;
                    match zap_action {
                        ZapAction::Send(target) => {
                            match get_wallet_for(accounts, global_wallet, &sender) {
                                None => {
                                    zaps.send_error(
                                        &sender,
                                        ZapTarget::Note(target.target),
                                        ZappingError::SenderNoWallet,
                                    );
                                },
                                Some(wallet) => {
                                    if router_type == RouterType::Sheet {
                                        router_action = Some(RouterAction::GoBack);
                                    }
                                    send_zap(&sender, zaps, pool, &target, wallet.default_zap_msats);
                                },
                            }
                        },
                        ZapAction::ClearError(target) => clear_zap_error(&sender, zaps, &target),
                        ZapAction::CustomizeAmount(target) => {
                            let route = Route::CustomizeZapAmount(target);
                            router_action = Some(RouterAction::route_to_sheet(route));
                        },
                    }
                },
            }
            NoteActionResponse { timeline_res: None, router_action, delegate: None, anomaly: None }
        },
        NoteAction::Context(context) => {
            if lookup.context_note {
                NoteActionResponse {
                    timeline_res: None,
                    router_action: None,
                    delegate: Some(Delegate::Context(context.note_key)),
                    anomaly: None,
                }
            } else {
                NoteActionResponse {
                    timeline_res: None,
                    router_action: None,
                    delegate: None,
                    anomaly: Some(Anomaly::NoteNotFound(context.note_key)),
                }
            }
        },
        NoteAction::Media => NoteActionResponse {
            timeline_res: None,
            router_action: None,
            delegate: Some(Delegate::Media),
            anomaly: None,
        },
    }
}

/// Issues the tip `target_amount` from `sender`, of the amount that the
/// user named or else of `default_msats`, with the URLs of the relays of
/// `pool`.
pub fn send_zap(
    sender: &Pubkey,
    zaps: &mut Zaps,
    pool: &RelayPool,
    target_amount: &ZapTargetAmount,
    default_msats: u64,
)
    ensures
        final(zaps)@ == zap_sent(old(zaps)@, *sender, pool@, *target_amount, default_msats),
{
    let zap_target = ZapTarget::Note(target_amount.target);
    let msats = match target_amount.specified_msats {
        Some(msats) => msats,
        None => default_msats,
    };
    let sender_relays = pool.urls();
    zaps.send_zap(sender, sender_relays, zap_target, msats);
}

/// Clears the failure recorded for a tip of `sender` for `target`.
pub fn clear_zap_error(sender: &Pubkey, zaps: &mut Zaps, target: &NoteZapTargetOwned)
    ensures
        final(zaps)@ == zap_error_cleared(old(zaps)@, *sender, *target),
{
    zaps.clear_error_for(sender, ZapTarget::Note(*target));
}

/// The feed cache, the tracker of unknown references and what is to be
/// logged after new notes were merged.
pub struct Processed {
    pub cache: Map<TimelineKey, Seq<NoteKey>>,
    pub unknown_ids: Set<UnknownId>,
    pub anomaly: Option<AnomalyView>,
}

/// What merging `new_notes` does. The notes go into the feed that they
/// name, back to front if it is a thread and in their order if not, and
/// `unknown` is tracked. Where the cache has no such feed, or the notes name
/// one note twice, nothing changes and the anomaly says so.
pub open spec fn processed(
    new_notes: NewNotesView,
    unknown: Seq<UnknownId>,
    cache: Map<TimelineKey, Seq<NoteKey>>,
    unknown_ids: Set<UnknownId>,
) -> Processed {
    if !cache.contains_key(new_notes.id) {
        Processed { cache, unknown_ids, anomaly: Some(AnomalyView::MissingTimeline(new_notes.id)) }
    } else if !new_notes.notes.no_duplicates() {
        Processed {
            cache,
            unknown_ids,
            anomaly: Some(AnomalyView::RefusedNotes(new_notes.id, TimelineError::RepeatedNote)),
        }
    } else {
        Processed {
            cache: cache.insert(
                new_notes.id,
                merged(cache[new_notes.id], new_notes.notes, new_notes.id is Thread),
            ),
            unknown_ids: unknown_ids.union(unknown.to_set()),
            anomaly: None,
        }
    }
}

impl TimelineOpenResult {
    /// The result that names `notes` as new in the feed `id`.
    pub fn new_notes(notes: Vec<NoteKey>, id: TimelineKind) -> (result: TimelineOpenResult)
        ensures
            result@ == TimelineOpenResultView::NewNotes(NewNotesView { id: id@, notes: notes@ }),
    {
        TimelineOpenResult::NewNotes(NewNotes::new(notes, id))
    }

    /// Merges what the feed-open brought into the cache, as
    /// `NewNotes::process` does.
    pub fn process(
        &self,
        lookup: &NoteLookup,
        storage: &mut TimelineCache,
        unknown_ids: &mut UnknownIds,
    ) -> (anomaly: Option<Anomaly>)
        ensures
            self@ matches TimelineOpenResultView::NewNotes(new_notes) && {
                let after = processed(
                    new_notes,
                    lookup@.unknown_ids,
                    old(storage)@,
                    old(unknown_ids)@,
                );
                &&& final(storage)@ == after.cache
                &&& final(unknown_ids)@ == after.unknown_ids
                &&& anomaly_view(anomaly) == after.anomaly
            },
    {
        match self {
            TimelineOpenResult::NewNotes(new_notes) => new_notes.process(
                storage,
                lookup,
                unknown_ids,
            ),
        }
    }
}

impl NewNotes {
    /// `notes` as new in the feed `id`.
    pub fn new(notes: Vec<NoteKey>, id: TimelineKind) -> (new_notes: NewNotes)
        ensures
            new_notes@ == (NewNotesView { id: id@, notes: notes@ }),
    {
        NewNotes { notes, id }
    }

    /// Merges the notes into the feed that they name: back to front if it is
    /// a thread, in their order if not. A note that the feed holds already
    /// is passed over. What the notes refer to and the database lacks is
    /// handed to the tracker. Where the cache has no such feed, or the feed
    /// refuses the notes, nothing changes and the anomaly says so.
    pub fn process(
        &self,
        timeline_cache: &mut TimelineCache,
        lookup: &NoteLookup,
        unknown_ids: &mut UnknownIds,
    ) -> (anomaly: Option<Anomaly>)
        ensures
            final(timeline_cache)@ == processed(
                self@,
                lookup@.unknown_ids,
                old(timeline_cache)@,
                old(unknown_ids)@,
            ).cache,
            final(unknown_ids)@ == processed(
                self@,
                lookup@.unknown_ids,
                old(timeline_cache)@,
                old(unknown_ids)@,
            ).unknown_ids,
            anomaly_view(anomaly) == processed(
                self@,
                lookup@.unknown_ids,
                old(timeline_cache)@,
                old(unknown_ids)@,
            ).anomaly,
    {
        let reversed = self.id.is_thread();
        match timeline_cache.insert_notes(
            &self.id,
            &self.notes,
            &lookup.unknown_ids,
            unknown_ids,
            reversed,
        ) {
            None => Some(Anomaly::MissingTimeline(self.id.clone())),
            Some(Err(error)) => Some(Anomaly::RefusedNotes(self.id.clone(), error)),
            Some(Ok(())) => None,
        }
    }
}

/// The subsystems and the outcome after one action was carried out and
/// what it brought was merged.
pub struct Handled {
    pub cache: Map<TimelineKey, Seq<NoteKey>>,
    pub zaps: ZapsView,
    pub unknown_ids: Set<UnknownId>,
    pub outcome: ActionOutcomeView,
}

/// What carrying out one action and merging what it brought does. The
/// navigation context is the sheet where the column shows one.
pub open spec fn handled(
    action: NoteActionView,
    lookup: NoteLookupView,
    column: ColumnView,
    cache: Map<TimelineKey, Seq<NoteKey>>,
    pool: Seq<Seq<char>>,
    unknown_ids: Set<UnknownId>,
    accounts: AccountsView,
    global_wallet: GlobalWallet,
    zaps: ZapsView,
) -> Handled {
    let done = executed(
        action,
        lookup,
        cache,
        pool,
        accounts,
        global_wallet,
        zaps,
        active_router(column),
    );
    match done.response.timeline_res {
        Some(TimelineOpenResultView::NewNotes(new_notes)) => {
            let after = processed(new_notes, lookup.unknown_ids, done.cache, unknown_ids);
            Handled {
                cache: after.cache,
                zaps: done.zaps,
                unknown_ids: after.unknown_ids,
                outcome: ActionOutcomeView {
                    router_action: done.response.router_action,
                    delegate: done.response.delegate,
                    anomaly: after.anomaly,
                },
            }
        },
        None => Handled {
            cache: done.cache,
            zaps: done.zaps,
            unknown_ids,
            outcome: ActionOutcomeView {
                router_action: done.response.router_action,
                delegate: done.response.delegate,
                anomaly: done.response.anomaly,
            },
        },
    }
}

/// Carries out one action and merges what it brought into the feed cache.
pub fn execute_and_process_note_action(
    action: NoteAction,
    lookup: &NoteLookup,
    column: &Column,
    timeline_cache: &mut TimelineCache,
    pool: &RelayPool,
    unknown_ids: &mut UnknownIds,
    accounts: &Accounts,
    global_wallet: &GlobalWallet,
    zaps: &mut Zaps,
) -> (outcome: ActionOutcome)
    ensures
        final(timeline_cache)@ == handled(
            action@,
            lookup@,
            column@,
            old(timeline_cache)@,
            pool@,
            old(unknown_ids)@,
            accounts@,
            *global_wallet,
            old(zaps)@,
        ).cache,
        final(zaps)@ == handled(
            action@,
            lookup@,
            column@,
            old(timeline_cache)@,
            pool@,
            old(unknown_ids)@,
            accounts@,
            *global_wallet,
            old(zaps)@,
        ).zaps,
        final(unknown_ids)@ == handled(
            action@,
            lookup@,
            column@,
            old(timeline_cache)@,
            pool@,
            old(unknown_ids)@,
            accounts@,
            *global_wallet,
            old(zaps)@,
        ).unknown_ids,
        outcome@ == handled(
            action@,
            lookup@,
            column@,
            old(timeline_cache)@,
            pool@,
            old(unknown_ids)@,
            accounts@,
            *global_wallet,
            old(zaps)@,
        ).outcome,
{
    let router_type = column.router_type();
    let resp = execute_note_action(
        action,
        lookup,
        timeline_cache,
        pool,
        accounts,
        global_wallet,
        zaps,
        router_type,
    );
    let NoteActionResponse { timeline_res, router_action, delegate, anomaly } = resp;
    match timeline_res {
        Some(br) => {
            let anomaly = br.process(lookup, timeline_cache, unknown_ids);
            ActionOutcome { router_action, delegate, anomaly }
        },
        None => ActionOutcome { router_action, delegate, anomaly },
    }
}

} // verus!
