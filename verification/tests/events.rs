use lyra::framework::event::Block;
use lyra::framework::event::BlockHeader;
use lyra::framework::model::CRDTCommand;
use lyra::framework::ChainEvent;
use lyra::framework::Point;
use lyra::framework::Record;

fn point(slot: u64) -> Point {
    Point::Specific(slot, vec![slot as u8; 3])
}

fn raw(bytes: &[u8]) -> Record {
    Record::RawBlockPayload(bytes.to_vec())
}

fn double(record: Record) -> Record {
    match record {
        Record::RawBlockPayload(b) => Record::RawBlockPayload([b.clone(), b].concat()),
        other => other,
    }
}

fn split(record: Record) -> Result<Vec<Record>, String> {
    match record {
        Record::RawBlockPayload(b) => Ok(b.iter().map(|x| Record::RawBlockPayload(vec![*x])).collect()),
        _ => Err("nothing to split".to_string()),
    }
}

fn checked(record: Record) -> Result<Record, String> {
    match record {
        Record::RawBlockPayload(b) if !b.is_empty() => Ok(Record::SQLCommand(vec![format!("{}", b.len())])),
        _ => Err("empty".to_string()),
    }
}

#[test]
fn constructors_keep_point_and_record() {
    let e = ChainEvent::apply(point(1), raw(&[1]));
    assert!(matches!(&e, ChainEvent::Apply(p, Record::RawBlockPayload(b)) if *p == point(1) && b == &[1]));
    let e = ChainEvent::undo(point(2), raw(&[2]));
    assert!(matches!(&e, ChainEvent::Undo(p, Record::RawBlockPayload(b)) if *p == point(2) && b == &[2]));
    let e = ChainEvent::reset(Point::Origin);
    assert!(matches!(&e, ChainEvent::Reset(Point::Origin)));
}

#[test]
fn point_and_record_of_each_direction() {
    let apply = ChainEvent::Apply(point(1), raw(&[1]));
    let undo = ChainEvent::Undo(point(2), raw(&[2]));
    let reset = ChainEvent::Reset(point(3));
    assert_eq!(apply.point(), &point(1));
    assert_eq!(undo.point(), &point(2));
    assert_eq!(reset.point(), &point(3));
    assert!(matches!(apply.record(), Some(Record::RawBlockPayload(b)) if b == &[1]));
    assert!(matches!(undo.record(), Some(Record::RawBlockPayload(b)) if b == &[2]));
    assert!(reset.record().is_none());
}

#[test]
fn map_record_keeps_the_direction() {
    let e = ChainEvent::Apply(point(1), raw(&[7])).map_record(double);
    assert!(matches!(&e, ChainEvent::Apply(p, Record::RawBlockPayload(b)) if *p == point(1) && b == &[7, 7]));
    let e = ChainEvent::Undo(point(1), raw(&[7])).map_record(double);
    assert!(matches!(&e, ChainEvent::Undo(p, Record::RawBlockPayload(b)) if *p == point(1) && b == &[7, 7]));
    let e = ChainEvent::Reset(point(9)).map_record(double);
    assert!(matches!(&e, ChainEvent::Reset(p) if *p == point(9)));
}

#[test]
fn try_map_record_passes_a_reset_and_the_failure() {
    let e = ChainEvent::Apply(point(1), raw(&[7, 8])).try_map_record(checked).unwrap();
    assert!(matches!(&e, ChainEvent::Apply(p, Record::SQLCommand(s)) if *p == point(1) && s == &["2".to_string()]));
    let e = ChainEvent::Undo(point(1), raw(&[7])).try_map_record(checked).unwrap();
    assert!(matches!(&e, ChainEvent::Undo(p, Record::SQLCommand(s)) if *p == point(1) && s == &["1".to_string()]));
    let e = ChainEvent::Apply(point(1), raw(&[])).try_map_record(checked);
    assert!(matches!(e, Err(m) if m == "empty"));
    let e = ChainEvent::Reset(point(4)).try_map_record(checked).unwrap();
    assert!(matches!(&e, ChainEvent::Reset(p) if *p == point(4)));
}

#[test]
fn try_map_record_to_many_spreads_the_point() {
    let events = ChainEvent::Apply(point(5), raw(&[1, 2, 3]))
        .try_map_record_to_many(split)
        .unwrap();
    assert_eq!(events.len(), 3);
    for (i, e) in events.iter().enumerate() {
        assert!(matches!(e, ChainEvent::Apply(p, Record::RawBlockPayload(b)) if *p == point(5) && b == &[i as u8 + 1]));
    }
    let events = ChainEvent::Undo(point(5), raw(&[9, 8]))
        .try_map_record_to_many(split)
        .unwrap();
    assert_eq!(events.len(), 2);
    assert!(matches!(&events[0], ChainEvent::Undo(p, Record::RawBlockPayload(b)) if *p == point(5) && b == &[9]));
    assert!(matches!(&events[1], ChainEvent::Undo(p, Record::RawBlockPayload(b)) if *p == point(5) && b == &[8]));
    let events = ChainEvent::Apply(point(5), raw(&[])).try_map_record_to_many(split).unwrap();
    assert!(events.is_empty());
}

#[test]
fn try_map_record_to_many_on_reset_and_failure() {
    let events = ChainEvent::Reset(point(6)).try_map_record_to_many(split).unwrap();
    assert_eq!(events.len(), 1);
    assert!(matches!(&events[0], ChainEvent::Reset(p) if *p == point(6)));
    let failed = ChainEvent::Undo(point(6), Record::SQLCommand(vec![])).try_map_record_to_many(split);
    assert!(matches!(failed, Err(m) if m == "nothing to split"));
}

#[test]
fn clones_are_deep() {
    let record = Record::CRDTCommand(vec![CRDTCommand::SetAdd("k".into(), "m".into())]);
    let e = ChainEvent::Apply(point(1), record).clone();
    assert!(matches!(&e, ChainEvent::Apply(p, Record::CRDTCommand(c)) if *p == point(1) && c == &[CRDTCommand::SetAdd("k".into(), "m".into())]));
    let block = Block {
        header: Some(BlockHeader { slot: 4, hash: vec![1, 2], height: 9 }),
        body: Some(vec![5, 6]),
    };
    let copy = block.clone();
    assert_eq!(copy.point(), Some(Point::Specific(4, vec![1, 2])));
    assert_eq!(copy.body, Some(vec![5, 6]));
    assert_eq!(copy.header.unwrap().height, 9);
    assert_eq!(Block { header: None, body: None }.point(), None);
}
