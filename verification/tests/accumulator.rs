use rtr_unit::payload::{
    Action, DiffBuilder, Ipv4Prefix, Ipv6Prefix, Payload, PayloadSet, SetBuilder, Update, VrpError,
};
use rtr_unit::units::rtr::{Target, TargetUpdate};
use std::sync::Arc;

fn v4(prefix: u32, asn: u32) -> Payload {
    Payload::V4(Ipv4Prefix { prefix, prefix_len: 24, max_len: 24, asn })
}

fn v6(prefix: u128, asn: u32) -> Payload {
    Payload::V6(Ipv6Prefix { prefix, prefix_len: 48, max_len: 64, asn })
}

fn target_with(records: &[Payload]) -> Target {
    let mut target = Target::new(Arc::from("rtr"));
    let mut tcp = rtr_unit::units::rtr::Tcp::new(String::from("localhost:3323"), 60);
    let mut update = target.start(true);
    for record in records {
        update.push_vrp(Action::Announce, *record).unwrap();
    }
    assert!(tcp.finalize(&mut target, update).is_some());
    target
}

fn sorted(mut records: Vec<Payload>) -> Vec<String> {
    let mut out: Vec<String> = records.drain(..).map(|r| format!("{:?}", r)).collect();
    out.sort();
    out
}

fn finish(update: TargetUpdate, serial: u32) -> Update {
    update.into_update(serial)
}

#[test]
fn set_builder_inserts_and_removes() {
    let mut builder = SetBuilder::new();
    assert!(builder.is_empty());
    assert_eq!(builder.insert(v4(1, 10)), Ok(()));
    assert_eq!(builder.insert(v6(1, 10)), Ok(()));
    assert!(!builder.is_empty());
    assert!(builder.contains(&v4(1, 10)));
    assert!(builder.contains(&v6(1, 10)));
    assert!(!builder.contains(&v4(1, 11)));
    assert_eq!(builder.remove(&v4(1, 10)), Ok(()));
    assert!(!builder.contains(&v4(1, 10)));
    let set = builder.finalize();
    assert_eq!(set.len(), 1);
    assert_eq!(set.to_vec(), vec![v6(1, 10)]);
}

#[test]
fn set_builder_refuses_a_duplicate() {
    let mut builder = SetBuilder::new();
    builder.insert(v4(7, 1)).unwrap();
    assert_eq!(builder.insert(v4(7, 1)), Err(VrpError::DuplicateAnnounce));
    assert_eq!(builder.finalize().len(), 1);
}

#[test]
fn set_builder_refuses_an_unknown_record() {
    let mut builder = SetBuilder::new();
    builder.insert(v4(7, 1)).unwrap();
    assert_eq!(builder.remove(&v4(8, 1)), Err(VrpError::UnknownWithdraw));
    assert_eq!(builder.finalize().to_vec(), vec![v4(7, 1)]);
}

#[test]
fn records_differ_by_every_field() {
    let base = Ipv4Prefix { prefix: 1, prefix_len: 8, max_len: 16, asn: 5 };
    let mut builder = SetBuilder::new();
    builder.insert(Payload::V4(base)).unwrap();
    builder.insert(Payload::V4(Ipv4Prefix { prefix: 2, ..base })).unwrap();
    builder.insert(Payload::V4(Ipv4Prefix { prefix_len: 9, ..base })).unwrap();
    builder.insert(Payload::V4(Ipv4Prefix { max_len: 17, ..base })).unwrap();
    builder.insert(Payload::V4(Ipv4Prefix { asn: 6, ..base })).unwrap();
    builder
        .insert(Payload::V6(Ipv6Prefix { prefix: 1, prefix_len: 8, max_len: 16, asn: 5 }))
        .unwrap();
    assert_eq!(builder.finalize().len(), 6);
}

#[test]
fn payload_set_starts_empty() {
    let set = PayloadSet::new();
    assert!(set.is_empty());
    assert_eq!(set.len(), 0);
    assert!(!set.contains(&v4(1, 1)));
    assert!(set.to_vec().is_empty());
}

#[test]
fn payload_set_seeds_a_builder_with_a_copy() {
    let mut builder = SetBuilder::new();
    builder.insert(v4(1, 1)).unwrap();
    builder.insert(v4(2, 1)).unwrap();
    let set = builder.finalize();
    let mut copy = set.to_builder();
    assert!(copy.contains(&v4(1, 1)));
    assert!(copy.contains(&v4(2, 1)));
    copy.remove(&v4(1, 1)).unwrap();
    assert!(set.contains(&v4(1, 1)));
    assert_eq!(set.len(), 2);
    assert_eq!(copy.finalize().to_vec(), vec![v4(2, 1)]);
}

#[test]
fn diff_builder_keeps_the_order() {
    let mut builder = DiffBuilder::new();
    assert!(builder.is_empty());
    builder.push(v4(1, 1), Action::Withdraw);
    builder.push(v4(2, 1), Action::Announce);
    builder.push(v4(1, 1), Action::Announce);
    assert!(!builder.is_empty());
    let diff = builder.finalize();
    assert!(!diff.is_empty());
    assert_eq!(diff.len(), 3);
    assert_eq!(diff.get(0), Some((Action::Withdraw, v4(1, 1))));
    assert_eq!(diff.get(1), Some((Action::Announce, v4(2, 1))));
    assert_eq!(diff.get(2), Some((Action::Announce, v4(1, 1))));
    assert_eq!(diff.get(3), None);
}

#[test]
fn update_hands_out_its_parts() {
    let mut set = SetBuilder::new();
    set.insert(v4(1, 1)).unwrap();
    let mut diff = DiffBuilder::new();
    diff.push(v4(1, 1), Action::Announce);
    let update = Update::new(
        17,
        Arc::new(set.finalize()),
        Some(Arc::new(diff.finalize())),
    );
    assert_eq!(update.serial(), 17);
    assert_eq!(update.set().to_vec(), vec![v4(1, 1)]);
    assert_eq!(update.diff().unwrap().get(0), Some((Action::Announce, v4(1, 1))));
    let bare = Update::new(3, Arc::new(PayloadSet::new()), None);
    assert!(bare.diff().is_none());
    assert!(bare.set().is_empty());
}

#[test]
fn new_target_is_empty() {
    let target = Target::new(Arc::from("rtr-a"));
    assert_eq!(&**target.name(), "rtr-a");
    assert!(target.current().is_empty());
    assert!(target.state().is_none());
}

#[test]
fn reset_starts_from_nothing_without_a_diff() {
    let mut target = target_with(&[v4(1, 1), v4(2, 1)]);
    let update = target.start(true);
    assert!(!update.is_definitely_empty());
    let update = finish(update, 9);
    assert_eq!(update.serial(), 9);
    assert!(update.set().is_empty());
    assert!(update.diff().is_none());
    assert_eq!(target.current().len(), 2);
}

#[test]
fn incremental_starts_from_the_current_set_with_an_empty_diff() {
    let mut target = target_with(&[v4(1, 1), v4(2, 1)]);
    let update = target.start(false);
    assert!(update.is_definitely_empty());
    let update = finish(update, 4);
    assert_eq!(sorted(update.set().to_vec()), sorted(vec![v4(1, 1), v4(2, 1)]));
    assert_eq!(update.diff().unwrap().len(), 0);
}

#[test]
fn incremental_cycle_applies_the_diff_in_order() {
    let a = v4(1, 1);
    let b = v4(2, 1);
    let c = v6(3, 1);
    let mut target = target_with(&[a, b]);
    let mut update = target.start(false);
    let events = vec![
        (Action::Withdraw, a),
        (Action::Announce, c),
        (Action::Announce, a),
        (Action::Withdraw, b),
        (Action::Withdraw, a),
        (Action::Announce, b),
    ];
    for (action, payload) in events.iter() {
        assert_eq!(update.push_vrp(*action, *payload), Ok(()));
    }
    assert!(!update.is_definitely_empty());
    let update = finish(update, 2);
    assert_eq!(sorted(update.set().to_vec()), sorted(vec![b, c]));
    let diff = update.diff().unwrap();
    assert_eq!(diff.len(), events.len());
    for (i, event) in events.iter().enumerate() {
        assert_eq!(diff.get(i), Some(*event));
    }
}

#[test]
fn withdraw_in_a_reset_is_corrupt_and_changes_nothing() {
    let a = v4(1, 1);
    let mut target = Target::new(Arc::from("rtr"));
    let mut update = target.start(true);
    update.push_vrp(Action::Announce, a).unwrap();
    assert_eq!(update.push_vrp(Action::Withdraw, a), Err(VrpError::Corrupt));
    assert_eq!(update.push_vrp(Action::Withdraw, v4(2, 1)), Err(VrpError::Corrupt));
    let update = finish(update, 1);
    assert_eq!(update.set().to_vec(), vec![a]);
    assert!(update.diff().is_none());
}

#[test]
fn withdraw_of_an_absent_record_is_refused() {
    let a = v4(1, 1);
    let mut target = target_with(&[a]);
    let mut update = target.start(false);
    assert_eq!(update.push_vrp(Action::Withdraw, v4(2, 1)), Err(VrpError::UnknownWithdraw));
    assert!(update.is_definitely_empty());
    let update = finish(update, 1);
    assert_eq!(update.set().to_vec(), vec![a]);
    assert_eq!(update.diff().unwrap().len(), 0);
}

#[test]
fn duplicate_announce_is_refused_in_both_kinds_of_cycle() {
    let a = v4(1, 1);
    let mut target = target_with(&[a]);
    let mut incremental = target.start(false);
    assert_eq!(incremental.push_vrp(Action::Announce, a), Err(VrpError::DuplicateAnnounce));
    assert!(incremental.is_definitely_empty());
    let mut reset = target.start(true);
    assert_eq!(reset.push_vrp(Action::Announce, a), Ok(()));
    assert_eq!(reset.push_vrp(Action::Announce, a), Err(VrpError::DuplicateAnnounce));
    assert_eq!(finish(reset, 1).set().len(), 1);
}

#[test]
fn a_cycle_that_undoes_itself_is_not_empty() {
    let a = v4(1, 1);
    let mut target = Target::new(Arc::from("rtr"));
    let mut update = target.start(false);
    update.push_vrp(Action::Announce, a).unwrap();
    update.push_vrp(Action::Withdraw, a).unwrap();
    assert!(!update.is_definitely_empty());
    let update = finish(update, 1);
    assert!(update.set().is_empty());
    assert_eq!(update.diff().unwrap().len(), 2);
}
