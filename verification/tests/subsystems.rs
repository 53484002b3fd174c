use note_actions::ids::{NoteId, Pubkey};
use note_actions::relay::RelayPool;
use note_actions::route::{Column, Route, RouterAction, RouterType};
use note_actions::timeline::TimelineKind;
use note_actions::unknown::{UnknownId, UnknownIds};
use note_actions::zaps::{NoteZapTargetOwned, ZapTarget, ZappingError, Zaps};

#[test]
fn relay_pool_lists_its_urls_in_order() {
    let mut pool = RelayPool::new();
    assert_eq!(pool.urls(), Vec::<String>::new());
    pool.add_url("wss://a.example".to_string());
    pool.add_url("wss://b.example".to_string());
    pool.add_url("wss://a.example".to_string());
    assert_eq!(
        pool.urls(),
        vec![
            "wss://a.example".to_string(),
            "wss://b.example".to_string(),
            "wss://a.example".to_string()
        ]
    );
    assert_eq!(pool.relays.len(), 3);
}

#[test]
fn unknown_ids_hold_each_reference_once() {
    let note = UnknownId::Id(NoteId::new([1; 32]));
    let key = UnknownId::Pubkey(Pubkey::new([1; 32]));
    assert!(!note.same(&key));
    assert!(note.same(&UnknownId::Id(NoteId::new([1; 32]))));
    let mut tracker = UnknownIds::new();
    assert_eq!(tracker.len(), 0);
    assert!(!tracker.contains(&note));
    tracker.add(note);
    tracker.add(note);
    assert_eq!(tracker.len(), 1);
    assert!(tracker.contains(&note));
    assert!(!tracker.contains(&key));
    tracker.add_all(&vec![key, note, key, UnknownId::Id(NoteId::new([2; 32]))]);
    assert_eq!(tracker.len(), 3);
    assert!(tracker.contains(&key));
    tracker.add_all(&Vec::new());
    assert_eq!(tracker.len(), 3);
}

#[test]
fn a_column_keeps_stack_and_sheet_apart() {
    let mut column = Column::new();
    assert_eq!(column.current_modal(), None);
    assert_eq!(column.pop_modal(), None);
    let feed = Route::timeline(TimelineKind::Universe);
    let reply = Route::reply(NoteId::new([1; 32]));
    let quote = Route::quote(NoteId::new([2; 32]));
    column.push(feed.clone());
    column.push(reply.clone());
    assert_eq!(column.router_type(), RouterType::Stack);
    column.push_modal(quote.clone());
    column.push_modal(reply.clone());
    assert_eq!(column.routes, vec![feed, reply.clone()]);
    assert_eq!(column.sheet, vec![quote.clone(), reply.clone()]);
    assert_eq!(column.current_modal(), Some(&reply));
    assert_eq!(column.pop_modal(), Some(reply));
    assert_eq!(column.current_modal(), Some(&quote));
    assert_eq!(column.router_type(), RouterType::Sheet);
    assert_eq!(column.pop_modal(), Some(quote));
    assert_eq!(column.router_type(), RouterType::Stack);
    assert_eq!(column.routes.len(), 2);
}

#[test]
fn navigation_instructions_name_their_context() {
    let reply = Route::reply(NoteId::new([1; 32]));
    assert_eq!(
        RouterAction::route_to(reply.clone()),
        RouterAction::RouteTo(Route::Reply(NoteId::new([1; 32])), RouterType::Stack)
    );
    assert_eq!(
        RouterAction::route_to_sheet(reply.clone()),
        RouterAction::RouteTo(reply, RouterType::Sheet)
    );
    assert_ne!(RouterAction::GoBack, RouterAction::route_to(Route::quote(NoteId::new([1; 32]))));
}

#[test]
fn the_ledger_holds_one_failure_for_sender_and_target() {
    let sender = Pubkey::new([1; 32]);
    let target = ZapTarget::Note(NoteZapTargetOwned {
        note_id: NoteId::new([2; 32]),
        zap_recipient: Pubkey::new([3; 32]),
    });
    let mut zaps = Zaps::new();
    assert_eq!(zaps.num_errors(), 0);
    assert_eq!(zaps.error_for(&sender, target), None);
    zaps.send_error(&sender, target, ZappingError::InvalidAccount);
    zaps.send_error(&sender, target, ZappingError::UnsupportedOperation);
    assert_eq!(zaps.num_errors(), 1);
    assert_eq!(zaps.error_for(&sender, target), Some(ZappingError::UnsupportedOperation));
    zaps.send_error(&sender, ZapTarget::Profile(sender), ZappingError::SenderNoWallet);
    assert_eq!(zaps.num_errors(), 2);
    zaps.clear_error_for(&sender, target);
    zaps.clear_error_for(&sender, target);
    assert_eq!(zaps.num_errors(), 1);
    assert_eq!(zaps.error_for(&sender, target), None);
    assert_eq!(
        zaps.error_for(&sender, ZapTarget::Profile(sender)),
        Some(ZappingError::SenderNoWallet)
    );
}
