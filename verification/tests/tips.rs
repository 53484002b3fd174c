use note_actions::accounts::{get_wallet_for, Accounts, GlobalWallet, UserAccount, ZapWallet};
use note_actions::actionbar::{
    clear_zap_error, execute_and_process_note_action, execute_note_action, send_zap,
    ActionOutcome, NoteAction, NoteActionResponse,
};
use note_actions::ids::{NoteId, Pubkey};
use note_actions::lookup::NoteLookup;
use note_actions::relay::RelayPool;
use note_actions::route::{Column, Route, RouterAction, RouterType};
use note_actions::timeline::TimelineCache;
use note_actions::unknown::UnknownIds;
use note_actions::zaps::{
    NoteZapTargetOwned, ZapAction, ZapKey, ZapRequest, ZapTarget, ZapTargetAmount, ZappingError,
    Zaps,
};

fn sender() -> Pubkey {
    Pubkey::new([1; 32])
}

fn note_target() -> NoteZapTargetOwned {
    NoteZapTargetOwned { note_id: NoteId::new([2; 32]), zap_recipient: Pubkey::new([3; 32]) }
}

fn other_target() -> NoteZapTargetOwned {
    NoteZapTargetOwned { note_id: NoteId::new([4; 32]), zap_recipient: Pubkey::new([3; 32]) }
}

fn accounts_with(wallet: Option<ZapWallet>) -> Accounts {
    let mut accounts = Accounts::new();
    accounts.add_account(UserAccount { pubkey: Pubkey::new([8; 32]), wallet: None });
    accounts.add_account(UserAccount { pubkey: sender(), wallet });
    assert!(accounts.select_account(&sender()));
    accounts
}

fn pool_of_two() -> RelayPool {
    let mut pool = RelayPool::new();
    pool.add_url("wss://relay.one".to_string());
    pool.add_url("wss://relay.two".to_string());
    pool
}

fn no_response() -> NoteActionResponse {
    NoteActionResponse { timeline_res: None, router_action: None, delegate: None, anomaly: None }
}

fn run_zap(
    zap: ZapAction,
    accounts: &Accounts,
    global_wallet: &GlobalWallet,
    zaps: &mut Zaps,
    router_type: RouterType,
) -> NoteActionResponse {
    let mut cache = TimelineCache::new();
    let response = execute_note_action(
        NoteAction::Zap(zap),
        &NoteLookup::nothing(),
        &mut cache,
        &pool_of_two(),
        accounts,
        global_wallet,
        zaps,
        router_type,
    );
    assert_eq!(cache.len(), 0);
    response
}

fn send(msats: Option<u64>) -> ZapAction {
    ZapAction::Send(ZapTargetAmount { target: note_target(), specified_msats: msats })
}

#[test]
fn tip_actions_without_an_account_do_nothing() {
    let mut accounts = Accounts::new();
    accounts.add_account(UserAccount {
        pubkey: sender(),
        wallet: Some(ZapWallet { default_zap_msats: 1000 }),
    });
    let global = GlobalWallet { wallet: Some(ZapWallet { default_zap_msats: 5 }) };
    let mut zaps = Zaps::new();
    zaps.send_error(&sender(), ZapTarget::Note(note_target()), ZappingError::InvalidAccount);
    for zap in [
        send(Some(7)),
        send(None),
        ZapAction::ClearError(note_target()),
        ZapAction::CustomizeAmount(note_target()),
    ] {
        for router_type in [RouterType::Sheet, RouterType::Stack] {
            assert_eq!(run_zap(zap, &accounts, &global, &mut zaps, router_type), no_response());
        }
    }
    assert_eq!(zaps.num_errors(), 1);
    assert_eq!(
        zaps.error_for(&sender(), ZapTarget::Note(note_target())),
        Some(ZappingError::InvalidAccount)
    );
    assert_eq!(zaps.take_requests(), Vec::<ZapRequest>::new());
}

#[test]
fn send_without_a_wallet_records_one_failure_and_sends_nothing() {
    let accounts = accounts_with(None);
    let global = GlobalWallet { wallet: None };
    let mut zaps = Zaps::new();
    let response = run_zap(send(Some(21_000)), &accounts, &global, &mut zaps, RouterType::Sheet);
    assert_eq!(response, no_response());
    assert_eq!(zaps.num_errors(), 1);
    assert_eq!(
        zaps.error_for(&sender(), ZapTarget::Note(note_target())),
        Some(ZappingError::SenderNoWallet)
    );
    assert_eq!(zaps.error_for(&sender(), ZapTarget::Note(other_target())), None);
    assert_eq!(zaps.error_for(&Pubkey::new([8; 32]), ZapTarget::Note(note_target())), None);
    assert_eq!(zaps.take_requests(), Vec::<ZapRequest>::new());

    let again = run_zap(send(None), &accounts, &global, &mut zaps, RouterType::Stack);
    assert_eq!(again, no_response());
    assert_eq!(zaps.num_errors(), 1);
}

#[test]
fn a_failure_replaces_the_one_recorded_before() {
    let accounts = accounts_with(None);
    let global = GlobalWallet { wallet: None };
    let mut zaps = Zaps::new();
    zaps.send_error(&sender(), ZapTarget::Note(note_target()), ZappingError::UnsupportedOperation);
    zaps.send_error(&sender(), ZapTarget::Profile(sender()), ZappingError::InvalidAccount);
    run_zap(send(None), &accounts, &global, &mut zaps, RouterType::Stack);
    assert_eq!(zaps.num_errors(), 2);
    assert_eq!(
        zaps.error_for(&sender(), ZapTarget::Note(note_target())),
        Some(ZappingError::SenderNoWallet)
    );
    assert_eq!(
        zaps.error_for(&sender(), ZapTarget::Profile(sender())),
        Some(ZappingError::InvalidAccount)
    );
}

#[test]
fn clear_error_removes_the_failure_of_sender_and_target() {
    let accounts = accounts_with(None);
    let global = GlobalWallet { wallet: None };
    let mut zaps = Zaps::new();
    run_zap(send(None), &accounts, &global, &mut zaps, RouterType::Stack);
    zaps.send_error(&sender(), ZapTarget::Note(other_target()), ZappingError::InvalidAccount);
    assert_eq!(zaps.num_errors(), 2);
    let response = run_zap(
        ZapAction::ClearError(note_target()),
        &accounts,
        &global,
        &mut zaps,
        RouterType::Sheet,
    );
    assert_eq!(response, no_response());
    assert_eq!(zaps.num_errors(), 1);
    assert_eq!(zaps.error_for(&sender(), ZapTarget::Note(note_target())), None);
    assert_eq!(
        zaps.error_for(&sender(), ZapTarget::Note(other_target())),
        Some(ZappingError::InvalidAccount)
    );
}

#[test]
fn clear_error_without_a_failure_is_a_no_op() {
    let accounts = accounts_with(None);
    let global = GlobalWallet { wallet: None };
    let mut zaps = Zaps::new();
    zaps.send_error(&sender(), ZapTarget::Note(other_target()), ZappingError::InvalidAccount);
    let response = run_zap(
        ZapAction::ClearError(note_target()),
        &accounts,
        &global,
        &mut zaps,
        RouterType::Stack,
    );
    assert_eq!(response, no_response());
    assert_eq!(zaps.num_errors(), 1);
    assert_eq!(
        zaps.error_for(&sender(), ZapTarget::Note(other_target())),
        Some(ZappingError::InvalidAccount)
    );
    assert_eq!(zaps.take_requests(), Vec::<ZapRequest>::new());

    let mut empty = Zaps::new();
    clear_zap_error(&sender(), &mut empty, &note_target());
    assert_eq!(empty.num_errors(), 0);
}

#[test]
fn send_without_an_amount_uses_the_default_of_the_wallet() {
    let accounts = accounts_with(Some(ZapWallet { default_zap_msats: 10_000 }));
    let global = GlobalWallet { wallet: Some(ZapWallet { default_zap_msats: 77 }) };
    let mut zaps = Zaps::new();
    let response = run_zap(send(None), &accounts, &global, &mut zaps, RouterType::Stack);
    assert_eq!(response, no_response());
    assert_eq!(zaps.num_errors(), 0);
    assert_eq!(
        zaps.take_requests(),
        vec![ZapRequest {
            sender: sender(),
            relays: vec!["wss://relay.one".to_string(), "wss://relay.two".to_string()],
            target: ZapTarget::Note(note_target()),
            msats: 10_000,
        }]
    );
    assert_eq!(zaps.take_requests(), Vec::<ZapRequest>::new());
}

#[test]
fn send_with_an_amount_uses_exactly_that_amount() {
    let accounts = accounts_with(Some(ZapWallet { default_zap_msats: 10_000 }));
    let global = GlobalWallet { wallet: None };
    let mut zaps = Zaps::new();
    run_zap(send(Some(123_456)), &accounts, &global, &mut zaps, RouterType::Stack);
    run_zap(send(Some(0)), &accounts, &global, &mut zaps, RouterType::Stack);
    run_zap(send(Some(u64::MAX)), &accounts, &global, &mut zaps, RouterType::Stack);
    let amounts: Vec<u64> = zaps.take_requests().iter().map(|r| r.msats).collect();
    assert_eq!(amounts, vec![123_456, 0, u64::MAX]);
}

#[test]
fn the_global_wallet_serves_an_account_without_one() {
    let accounts = accounts_with(None);
    let global = GlobalWallet { wallet: Some(ZapWallet { default_zap_msats: 77 }) };
    assert_eq!(
        get_wallet_for(&accounts, &global, &sender()),
        Some(ZapWallet { default_zap_msats: 77 })
    );
    assert_eq!(get_wallet_for(&accounts, &global, &Pubkey::new([99; 32])), None);
    assert_eq!(get_wallet_for(&accounts, &GlobalWallet { wallet: None }, &sender()), None);
    let own = accounts_with(Some(ZapWallet { default_zap_msats: 5 }));
    assert_eq!(get_wallet_for(&own, &global, &sender()), Some(ZapWallet { default_zap_msats: 5 }));

    let mut zaps = Zaps::new();
    run_zap(send(None), &accounts, &global, &mut zaps, RouterType::Stack);
    let requests = zaps.take_requests();
    assert_eq!(requests.len(), 1);
    assert_eq!(requests[0].msats, 77);
    assert_eq!(zaps.num_errors(), 0);
}

#[test]
fn send_in_a_sheet_asks_to_go_back() {
    let accounts = accounts_with(Some(ZapWallet { default_zap_msats: 10_000 }));
    let global = GlobalWallet { wallet: None };
    let mut zaps = Zaps::new();
    let response = run_zap(send(None), &accounts, &global, &mut zaps, RouterType::Sheet);
    assert_eq!(
        response,
        NoteActionResponse {
            timeline_res: None,
            router_action: Some(RouterAction::GoBack),
            delegate: None,
            anomaly: None,
        }
    );
    assert_eq!(zaps.take_requests().len(), 1);
}

#[test]
fn send_on_the_stack_asks_nothing_of_navigation() {
    let accounts = accounts_with(Some(ZapWallet { default_zap_msats: 10_000 }));
    let global = GlobalWallet { wallet: None };
    let mut zaps = Zaps::new();
    let response = run_zap(send(None), &accounts, &global, &mut zaps, RouterType::Stack);
    assert_eq!(response.router_action, None);
    assert_eq!(zaps.take_requests().len(), 1);
}

#[test]
fn send_through_the_entry_point_looks_at_the_sheet_of_the_column() {
    let accounts = accounts_with(Some(ZapWallet { default_zap_msats: 10_000 }));
    let global = GlobalWallet { wallet: None };
    let pool = pool_of_two();
    let lookup = NoteLookup::nothing();
    let mut cache = TimelineCache::new();
    let mut unknown_ids = UnknownIds::new();
    let mut zaps = Zaps::new();

    let mut column = Column::new();
    column.push(Route::reply(NoteId::new([1; 32])));
    assert_eq!(column.router_type(), RouterType::Stack);
    let on_stack = execute_and_process_note_action(
        NoteAction::Zap(send(None)),
        &lookup,
        &column,
        &mut cache,
        &pool,
        &mut unknown_ids,
        &accounts,
        &global,
        &mut zaps,
    );
    assert_eq!(on_stack, ActionOutcome { router_action: None, delegate: None, anomaly: None });

    column.push_modal(Route::CustomizeZapAmount(note_target()));
    assert_eq!(column.router_type(), RouterType::Sheet);
    assert_eq!(column.current_modal(), Some(&Route::CustomizeZapAmount(note_target())));
    let in_sheet = execute_and_process_note_action(
        NoteAction::Zap(send(Some(5))),
        &lookup,
        &column,
        &mut cache,
        &pool,
        &mut unknown_ids,
        &accounts,
        &global,
        &mut zaps,
    );
    assert_eq!(
        in_sheet,
        ActionOutcome { router_action: Some(RouterAction::GoBack), delegate: None, anomaly: None }
    );
    let amounts: Vec<u64> = zaps.take_requests().iter().map(|r| r.msats).collect();
    assert_eq!(amounts, vec![10_000, 5]);

    assert_eq!(column.pop_modal(), Some(Route::CustomizeZapAmount(note_target())));
    assert_eq!(column.pop_modal(), None);
    assert_eq!(column.current_modal(), None);
    assert_eq!(column.router_type(), RouterType::Stack);
}

#[test]
fn customize_amount_opens_the_entry_in_the_sheet() {
    let accounts = accounts_with(None);
    let global = GlobalWallet { wallet: None };
    let mut zaps = Zaps::new();
    let response = run_zap(
        ZapAction::CustomizeAmount(note_target()),
        &accounts,
        &global,
        &mut zaps,
        RouterType::Stack,
    );
    assert_eq!(
        response,
        NoteActionResponse {
            timeline_res: None,
            router_action: Some(RouterAction::RouteTo(
                Route::CustomizeZapAmount(note_target()),
                RouterType::Sheet
            )),
            delegate: None,
            anomaly: None,
        }
    );
    assert_eq!(
        response.router_action,
        Some(RouterAction::route_to_sheet(Route::CustomizeZapAmount(note_target())))
    );
    assert_eq!(zaps.num_errors(), 0);
    assert_eq!(zaps.take_requests(), Vec::<ZapRequest>::new());
}

#[test]
fn send_zap_queues_behind_earlier_tips() {
    let mut zaps = Zaps::new();
    let pool = RelayPool::new();
    send_zap(
        &sender(),
        &mut zaps,
        &pool,
        &ZapTargetAmount { target: note_target(), specified_msats: None },
        9,
    );
    send_zap(
        &sender(),
        &mut zaps,
        &pool_of_two(),
        &ZapTargetAmount { target: other_target(), specified_msats: Some(1) },
        9,
    );
    let requests = zaps.take_requests();
    assert_eq!(requests.len(), 2);
    assert_eq!(requests[0].msats, 9);
    assert_eq!(requests[0].relays, Vec::<String>::new());
    assert_eq!(requests[0].target, ZapTarget::Note(note_target()));
    assert_eq!(requests[1].msats, 1);
    assert_eq!(requests[1].relays.len(), 2);
    assert_eq!(requests[1].sender, sender());
}

#[test]
fn accounts_select_the_first_with_the_key() {
    let mut accounts = Accounts::new();
    assert_eq!(accounts.get_selected_account(), None);
    assert!(!accounts.select_account(&sender()));
    let first = UserAccount { pubkey: sender(), wallet: Some(ZapWallet { default_zap_msats: 1 }) };
    let second = UserAccount { pubkey: sender(), wallet: None };
    accounts.add_account(first);
    accounts.add_account(second);
    assert_eq!(accounts.get_selected_account(), None);
    assert!(accounts.select_account(&sender()));
    assert_eq!(accounts.get_selected_account(), Some(first));
    assert_eq!(accounts.find(&sender()), Some(first));
    assert!(!accounts.select_account(&Pubkey::new([0; 32])));
    assert_eq!(accounts.get_selected_account(), Some(first));
    accounts.clear_selected_account();
    assert_eq!(accounts.get_selected_account(), None);
}

#[test]
fn zap_keys_compare_sender_and_target() {
    let key = ZapKey { sender: sender(), target: ZapTarget::Note(note_target()) };
    assert!(key.same(&ZapKey { sender: sender(), target: ZapTarget::Note(note_target()) }));
    assert!(!key.same(&ZapKey { sender: sender(), target: ZapTarget::Note(other_target()) }));
    assert!(!key.same(&ZapKey { sender: Pubkey::new([0; 32]), target: ZapTarget::Note(note_target()) }));
    assert!(!key.same(&ZapKey { sender: sender(), target: ZapTarget::Profile(sender()) }));
    assert!(ZapTarget::Profile(sender()).same(&ZapTarget::Profile(sender())));
    assert!(note_target().same(&note_target()));
    assert!(!note_target().same(&other_target()));
}
