use note_actions::actionbar::{Anomaly, NewNotes, TimelineOpenResult};
use note_actions::ids::{NoteId, NoteKey, Pubkey};
use note_actions::lookup::NoteLookup;
use note_actions::timeline::{
    ThreadSelection, Timeline, TimelineCache, TimelineError, TimelineKind,
};
use note_actions::unknown::{UnknownId, UnknownIds};

fn keys(numbers: &[u64]) -> Vec<NoteKey> {
    numbers.iter().map(|n| NoteKey::new(*n)).collect()
}

fn thread_kind() -> TimelineKind {
    TimelineKind::Thread(ThreadSelection::from_root_id(NoteId::new([9; 32])))
}

fn profile_kind() -> TimelineKind {
    TimelineKind::Profile(Pubkey::new([3; 32]))
}

fn stored(cache: &TimelineCache, kind: &TimelineKind) -> Vec<NoteKey> {
    cache.get(kind).expect("the feed is open").notes().clone()
}

fn merge_three(kind: TimelineKind) -> Vec<NoteKey> {
    let mut cache = TimelineCache::new();
    let mut unknown_ids = UnknownIds::new();
    let lookup = NoteLookup::nothing();
    assert!(cache.open(&kind, &Vec::new()).is_none());
    let result = TimelineOpenResult::new_notes(keys(&[1, 2, 3]), kind.clone());
    assert_eq!(result.process(&lookup, &mut cache, &mut unknown_ids), None);
    stored(&cache, &kind)
}

#[test]
fn thread_results_are_merged_back_to_front() {
    assert_eq!(merge_three(thread_kind()), keys(&[3, 2, 1]));
}

#[test]
fn profile_results_are_merged_in_their_order() {
    assert_eq!(merge_three(profile_kind()), keys(&[1, 2, 3]));
}

#[test]
fn hashtag_results_are_merged_in_their_order() {
    assert_eq!(
        merge_three(TimelineKind::Hashtag("nostr".to_string())),
        keys(&[1, 2, 3])
    );
}

#[test]
fn other_kinds_are_merged_in_their_order() {
    assert_eq!(merge_three(TimelineKind::Universe), keys(&[1, 2, 3]));
    assert_eq!(
        merge_three(TimelineKind::Notifications(Pubkey::new([5; 32]))),
        keys(&[1, 2, 3])
    );
}

#[test]
fn new_notes_go_behind_what_the_feed_holds() {
    let kind = thread_kind();
    let mut cache = TimelineCache::new();
    let mut unknown_ids = UnknownIds::new();
    let lookup = NoteLookup::nothing();
    cache.open(&kind, &Vec::new());
    NewNotes::new(keys(&[1, 2]), kind.clone()).process(&mut cache, &lookup, &mut unknown_ids);
    assert_eq!(stored(&cache, &kind), keys(&[2, 1]));
    NewNotes::new(keys(&[5, 4, 3]), kind.clone()).process(&mut cache, &lookup, &mut unknown_ids);
    assert_eq!(stored(&cache, &kind), keys(&[2, 1, 3, 4, 5]));
}

#[test]
fn notes_that_are_stored_are_passed_over() {
    let kind = profile_kind();
    let mut cache = TimelineCache::new();
    let mut unknown_ids = UnknownIds::new();
    let lookup = NoteLookup::nothing();
    cache.open(&kind, &Vec::new());
    NewNotes::new(keys(&[1, 2, 3]), kind.clone()).process(&mut cache, &lookup, &mut unknown_ids);
    let anomaly =
        NewNotes::new(keys(&[2, 7, 1, 8]), kind.clone()).process(&mut cache, &lookup, &mut unknown_ids);
    assert_eq!(anomaly, None);
    assert_eq!(stored(&cache, &kind), keys(&[1, 2, 3, 7, 8]));
}

#[test]
fn merge_into_a_missing_feed_changes_nothing() {
    let mut cache = TimelineCache::new();
    let mut unknown_ids = UnknownIds::new();
    let mut lookup = NoteLookup::nothing();
    lookup.unknown_ids.push(UnknownId::Id(NoteId::new([1; 32])));
    cache.open(&profile_kind(), &Vec::new());
    let anomaly =
        NewNotes::new(keys(&[1, 2, 3]), thread_kind()).process(&mut cache, &lookup, &mut unknown_ids);
    assert_eq!(anomaly, Some(Anomaly::MissingTimeline(thread_kind())));
    assert_eq!(cache.len(), 1);
    assert!(!cache.contains(&thread_kind()));
    assert_eq!(stored(&cache, &profile_kind()), keys(&[]));
    assert_eq!(unknown_ids.len(), 0);
}

#[test]
fn notes_that_name_one_note_twice_are_refused() {
    let kind = profile_kind();
    let mut cache = TimelineCache::new();
    let mut unknown_ids = UnknownIds::new();
    let mut lookup = NoteLookup::nothing();
    lookup.unknown_ids.push(UnknownId::Pubkey(Pubkey::new([1; 32])));
    cache.open(&kind, &Vec::new());
    NewNotes::new(keys(&[4]), kind.clone()).process(&mut cache, &NoteLookup::nothing(), &mut unknown_ids);
    let anomaly =
        NewNotes::new(keys(&[1, 2, 1]), kind.clone()).process(&mut cache, &lookup, &mut unknown_ids);
    assert_eq!(
        anomaly,
        Some(Anomaly::RefusedNotes(kind.clone(), TimelineError::RepeatedNote))
    );
    assert_eq!(stored(&cache, &kind), keys(&[4]));
    assert_eq!(unknown_ids.len(), 0);
}

#[test]
fn merge_tracks_what_the_database_lacks() {
    let kind = profile_kind();
    let mut cache = TimelineCache::new();
    let mut unknown_ids = UnknownIds::new();
    let a = UnknownId::Id(NoteId::new([1; 32]));
    let b = UnknownId::Pubkey(Pubkey::new([1; 32]));
    unknown_ids.add(a);
    let mut lookup = NoteLookup::nothing();
    lookup.unknown_ids = vec![a, b, b];
    cache.open(&kind, &Vec::new());
    NewNotes::new(keys(&[1]), kind).process(&mut cache, &lookup, &mut unknown_ids);
    assert_eq!(unknown_ids.len(), 2);
    assert!(unknown_ids.contains(&a));
    assert!(unknown_ids.contains(&b));
    assert!(!unknown_ids.contains(&UnknownId::Id(NoteId::new([2; 32]))));
}

#[test]
fn open_creates_the_feed_once() {
    let kind = profile_kind();
    let mut cache = TimelineCache::new();
    assert_eq!(cache.len(), 0);
    assert!(!cache.contains(&kind));
    assert!(cache.get(&kind).is_none());
    cache.open(&kind, &Vec::new());
    assert_eq!(cache.len(), 1);
    cache.open(&kind, &keys(&[1]));
    assert_eq!(cache.len(), 1);
    assert!(cache.contains(&kind));
    cache.open(&thread_kind(), &Vec::new());
    assert_eq!(cache.len(), 2);
    assert_eq!(cache.get(&kind).unwrap().kind(), &kind);
}

#[test]
fn open_reports_what_the_feed_lacks() {
    let kind = profile_kind();
    let mut cache = TimelineCache::new();
    assert_eq!(
        cache.open(&kind, &keys(&[3, 1, 3, 2])),
        Some(TimelineOpenResult::NewNotes(NewNotes {
            id: kind.clone(),
            notes: keys(&[3, 1, 2]),
        }))
    );
    assert_eq!(stored(&cache, &kind), keys(&[]));
    let mut unknown_ids = UnknownIds::new();
    NewNotes::new(keys(&[1, 2]), kind.clone()).process(&mut cache, &NoteLookup::nothing(), &mut unknown_ids);
    assert_eq!(
        cache.open(&kind, &keys(&[3, 1, 2, 4])),
        Some(TimelineOpenResult::new_notes(keys(&[3, 4]), kind.clone()))
    );
    assert_eq!(cache.open(&kind, &keys(&[2, 1])), None);
    assert_eq!(cache.open(&kind, &keys(&[])), None);
}

#[test]
fn kinds_with_equal_payload_name_one_feed() {
    let a = TimelineKind::Hashtag("bitcoin".to_string());
    let b = TimelineKind::hashtag("bitcoin".to_string());
    let c = TimelineKind::Hashtag("Bitcoin".to_string());
    assert!(a.same(&b));
    assert!(!a.same(&c));
    assert!(!a.same(&TimelineKind::Universe));
    let pk = Pubkey::new([1; 32]);
    assert!(TimelineKind::profile(pk).same(&TimelineKind::Profile(pk)));
    assert!(!TimelineKind::Profile(pk).same(&TimelineKind::Notifications(pk)));
    assert!(thread_kind().same(&thread_kind().clone()));
    assert!(thread_kind().is_thread());
    assert!(!a.is_thread());
    let root = NoteId::new([9; 32]);
    let selected = ThreadSelection::from_root_and_selected(root, NoteId::new([1; 32]));
    assert!(!TimelineKind::thread(selected).same(&thread_kind()));
}

#[test]
fn selection_of_the_root_selects_no_note() {
    let root = NoteId::new([9; 32]);
    let reply = NoteId::new([1; 32]);
    assert_eq!(
        ThreadSelection::from_note(root, root),
        ThreadSelection { root_id: root, selected_note: None }
    );
    assert_eq!(
        ThreadSelection::from_note(root, reply),
        ThreadSelection { root_id: root, selected_note: Some(reply) }
    );
    assert!(ThreadSelection::from_note(root, reply)
        .same(&ThreadSelection::from_root_and_selected(root, reply)));
    assert!(!ThreadSelection::from_note(root, reply).same(&ThreadSelection::from_root_id(root)));
}

#[test]
fn a_feed_refuses_a_batch_with_a_repeat_and_stays() {
    let mut timeline = Timeline::new(profile_kind());
    let mut unknown_ids = UnknownIds::new();
    assert_eq!(timeline.insert(&keys(&[1, 2]), &Vec::new(), &mut unknown_ids, false), Ok(()));
    assert_eq!(
        timeline.insert(&keys(&[3, 3]), &Vec::new(), &mut unknown_ids, true),
        Err(TimelineError::RepeatedNote)
    );
    assert_eq!(timeline.notes(), &keys(&[1, 2]));
    assert_eq!(timeline.insert(&keys(&[]), &Vec::new(), &mut unknown_ids, true), Ok(()));
    assert_eq!(timeline.notes(), &keys(&[1, 2]));
    assert_eq!(timeline.insert(&keys(&[2, 3, 4]), &Vec::new(), &mut unknown_ids, true), Ok(()));
    assert_eq!(timeline.notes(), &keys(&[1, 2, 4, 3]));
}
