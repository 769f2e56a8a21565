//! What flows between the stages: chain events and the records they carry.

use super::context::BlockContext;
use super::context::Era;
use super::model::commands_model;
use super::model::CRDTCommand;
use super::model::CommandModel;
use super::point::Point;
use super::point::PointModel;
use vstd::prelude::*;

verus! {

/// The header of a decoded block.
#[derive(Debug)]
pub struct BlockHeader {
    pub slot: u64,
    pub hash: Vec<u8>,
    pub height: u64,
}

/// A decoded block: its header, and its body in encoded form. The library
/// reads the header and the presence of the body, and carries the rest.
#[derive(Debug)]
pub struct Block {
    pub header: Option<BlockHeader>,
    pub body: Option<Vec<u8>>,
}

/// What a [`Block`] stands for.
pub struct BlockModel {
    pub header: Option<(u64, Seq<u8>, u64)>,
    pub body: Option<Seq<u8>>,
}

impl View for Block {
    type V = BlockModel;

    open spec fn view(&self) -> BlockModel {
        BlockModel {
            header: match self.header {
                Some(h) => Some((h.slot, h.hash@, h.height)),
                None => None,
            },
            body: match self.body {
                Some(b) => Some(b@),
                None => None,
            },
        }
    }
}

impl BlockModel {
    /// The point of the block, where it has a header.
    pub open spec fn point(self) -> Option<PointModel> {
        match self.header {
            Some((slot, hash, _)) => Some(PointModel::Specific(slot, hash)),
            None => None,
        }
    }

    /// A block that a source can pass on or skip: with a body it has a
    /// header, from which its point is taken.
    pub open spec fn is_passable(self) -> bool {
        self.body is Some ==> self.header is Some
    }
}

impl Clone for Block {
    fn clone(&self) -> (b: Block)
        ensures
            b@ == self@,
    {
        Block {
            header: match &self.header {
                Some(h) => Some(
                    BlockHeader { slot: h.slot, hash: h.hash.clone(), height: h.height },
                ),
                None => None,
            },
            body: match &self.body {
                Some(b) => Some(b.clone()),
                None => None,
            },
        }
    }
}

impl Block {
    /// Whether a source can pass the block on or skip it: with a body it
    /// has a header.
    pub fn is_passable(&self) -> (ok: bool)
        ensures
            ok == self@.is_passable(),
    {
        self.body.is_none() || self.header.is_some()
    }

    /// The point of the block, where it has a header.
    pub fn point(&self) -> (r: Option<Point>)
        ensures
            match r {
                Some(p) => self@.point() == Some(p@),
                None => self@.point() is None,
            },
    {
        match &self.header {
            Some(h) => Some(Point::Specific(h.slot, h.hash.clone())),
            None => None,
        }
    }
}

/// What a [`Record`] stands for.
pub enum RecordModel {
    RawBlockPayload(Seq<u8>),
    EnrichedBlockPayload(Seq<u8>, Map<Seq<char>, (Era, Seq<u8>)>),
    UtxoRpcBlockPayload(BlockModel),
    CRDTCommand(Seq<CommandModel>),
    SQLCommand(Seq<Seq<char>>),
}

/// What a list of statements stands for.
pub open spec fn statements_model(statements: Seq<String>) -> Seq<Seq<char>> {
    statements.map_values(|s: String| s@)
}

/// The payload of an event.
#[derive(Debug)]
pub enum Record {
    /// The bytes of a block.
    RawBlockPayload(Vec<u8>),
    /// The bytes of a block, with the outputs that its inputs consume.
    EnrichedBlockPayload(Vec<u8>, BlockContext),
    /// A decoded block.
    UtxoRpcBlockPayload(Block),
    /// Mutations for key-value storage.
    CRDTCommand(Vec<CRDTCommand>),
    /// Statements for relational storage.
    SQLCommand(Vec<String>),
}

impl View for Record {
    type V = RecordModel;

    open spec fn view(&self) -> RecordModel {
        match self {
            Record::RawBlockPayload(bytes) => RecordModel::RawBlockPayload(bytes@),
            Record::EnrichedBlockPayload(bytes, ctx) => RecordModel::EnrichedBlockPayload(
                bytes@,
                ctx@,
            ),
            Record::UtxoRpcBlockPayload(block) => RecordModel::UtxoRpcBlockPayload(block@),
            Record::CRDTCommand(commands) => RecordModel::CRDTCommand(commands_model(commands@)),
            Record::SQLCommand(statements) => RecordModel::SQLCommand(
                statements_model(statements@),
            ),
        }
    }
}

/// A copy of a list of commands.
pub fn clone_commands(commands: &Vec<CRDTCommand>) -> (copy: Vec<CRDTCommand>)
    ensures
        commands_model(copy@) == commands_model(commands@),
{
    let mut copy: Vec<CRDTCommand> = Vec::new();
    let mut i: usize = 0;
    while i < commands.len()
        invariant
            i <= commands@.len(),
            copy@.len() == i,
            forall|k: int| 0 <= k < i ==> (#[trigger] copy@[k])@ == commands@[k]@,
        decreases commands@.len() - i,
    {
        copy.push(commands[i].clone());
        i += 1;
    }
    copy
}

/// A copy of a list of statements.
pub fn clone_statements(statements: &Vec<String>) -> (copy: Vec<String>)
    ensures
        statements_model(copy@) == statements_model(statements@),
{
    let mut copy: Vec<String> = Vec::new();
    let mut i: usize = 0;
    while i < statements.len()
        invariant
            i <= statements@.len(),
            copy@.len() == i,
            forall|k: int| 0 <= k < i ==> (#[trigger] copy@[k])@ == statements@[k]@,
        decreases statements@.len() - i,
    {
        copy.push(statements[i].clone());
        i += 1;
    }
    copy
}

impl Clone for Record {
    fn clone(&self) -> (r: Record)
        ensures
            r@ == self@,
    {
        match self {
            Record::RawBlockPayload(bytes) => Record::RawBlockPayload(bytes.clone()),
            Record::EnrichedBlockPayload(bytes, ctx) => Record::EnrichedBlockPayload(
                bytes.clone(),
                ctx.clone(),
            ),
            Record::UtxoRpcBlockPayload(block) => Record::UtxoRpcBlockPayload(block.clone()),
            Record::CRDTCommand(commands) => Record::CRDTCommand(clone_commands(commands)),
            Record::SQLCommand(statements) => Record::SQLCommand(clone_statements(statements)),
        }
    }
}

/// What a [`ChainEvent`] stands for.
pub enum EventModel {
    Apply(PointModel, RecordModel),
    Undo(PointModel, RecordModel),
    Reset(PointModel),
}

impl EventModel {
    /// The point that the event speaks of.
    pub open spec fn point(self) -> PointModel {
        match self {
            EventModel::Apply(p, _) => p,
            EventModel::Undo(p, _) => p,
            EventModel::Reset(p) => p,
        }
    }

    /// The record that the event carries: none on a reset.
    pub open spec fn record(self) -> Option<RecordModel> {
        match self {
            EventModel::Apply(_, r) => Some(r),
            EventModel::Undo(_, r) => Some(r),
            EventModel::Reset(_) => None,
        }
    }

    /// The same event with another record: a reset stays as it is.
    pub open spec fn with_record(self, record: RecordModel) -> EventModel {
        match self {
            EventModel::Apply(p, _) => EventModel::Apply(p, record),
            EventModel::Undo(p, _) => EventModel::Undo(p, record),
            EventModel::Reset(p) => EventModel::Reset(p),
        }
    }
}

/// One step of the chain: a block applied, a block undone, or the follower
/// synchronised to a point.
#[derive(Debug)]
pub enum ChainEvent {
    Apply(Point, Record),
    Undo(Point, Record),
    Reset(Point),
}

impl View for ChainEvent {
    type V = EventModel;

    open spec fn view(&self) -> EventModel {
        match self {
            ChainEvent::Apply(p, r) => EventModel::Apply(p@, r@),
            ChainEvent::Undo(p, r) => EventModel::Undo(p@, r@),
            ChainEvent::Reset(p) => EventModel::Reset(p@),
        }
    }
}

impl Clone for ChainEvent {
    fn clone(&self) -> (e: ChainEvent)
        ensures
            e@ == self@,
    {
        match self {
            ChainEvent::Apply(p, r) => ChainEvent::Apply(p.clone(), r.clone()),
            ChainEvent::Undo(p, r) => ChainEvent::Undo(p.clone(), r.clone()),
            ChainEvent::Reset(p) => ChainEvent::Reset(p.clone()),
        }
    }
}

/// What a list of events stands for.
pub open spec fn events_model(events: Seq<ChainEvent>) -> Seq<EventModel> {
    events.map_values(|e: ChainEvent| e@)
}

/// What a list of records stands for.
pub open spec fn records_model(records: Seq<Record>) -> Seq<RecordModel> {
    records.map_values(|r: Record| r@)
}

impl ChainEvent {
    /// The event that extends the chain by the block at `point`.
    pub fn apply(point: Point, record: Record) -> (e: ChainEvent)
        ensures
            e == ChainEvent::Apply(point, record),
    {
        ChainEvent::Apply(point, record)
    }

    /// The event that rolls back the block at `point`.
    pub fn undo(point: Point, record: Record) -> (e: ChainEvent)
        ensures
            e == ChainEvent::Undo(point, record),
    {
        ChainEvent::Undo(point, record)
    }

    /// The event that tells that the follower has synchronised to `point`.
    pub fn reset(point: Point) -> (e: ChainEvent)
        ensures
            e == ChainEvent::Reset(point),
    {
        ChainEvent::Reset(point)
    }

    /// The point that the event speaks of.
    pub fn point(&self) -> (p: &Point)
        ensures
            p@ == self@.point(),
    {
        match self {
            ChainEvent::Apply(x, _) => x,
            ChainEvent::Undo(x, _) => x,
            ChainEvent::Reset(x) => x,
        }
    }

    /// The record that the event carries: none on a reset.
    pub fn record(&self) -> (r: Option<&Record>)
        ensures
            match r {
                Some(record) => self@.record() == Some(record@),
                None => self@.record() is None,
            },
    {
        match self {
            ChainEvent::Apply(_, x) => Some(x),
            ChainEvent::Undo(_, x) => Some(x),
            _ => None,
        }
    }

    /// The event with its record transformed; a reset passes unchanged.
    pub fn map_record<F>(self, f: F) -> (e: ChainEvent) where F: FnOnce(Record) -> Record
        requires
            self matches ChainEvent::Apply(_, x) ==> call_requires(f, (x,)),
            self matches ChainEvent::Undo(_, x) ==> call_requires(f, (x,)),
        ensures
            match self {
                ChainEvent::Apply(p, x) => e matches ChainEvent::Apply(q, y) && q == p
                    && call_ensures(f, (x,), y),
                ChainEvent::Undo(p, x) => e matches ChainEvent::Undo(q, y) && q == p
                    && call_ensures(f, (x,), y),
                ChainEvent::Reset(p) => e == ChainEvent::Reset(p),
            },
    {
        match self {
            ChainEvent::Apply(p, x) => ChainEvent::Apply(p, f(x)),
            ChainEvent::Undo(p, x) => ChainEvent::Undo(p, f(x)),
            ChainEvent::Reset(x) => ChainEvent::Reset(x),
        }
    }

    /// The event with its record transformed, or the failure of the
    /// transform; a reset passes unchanged. Apply stays apply, undo stays
    /// undo.
    pub fn try_map_record<E, F>(self, f: F) -> (r: Result<ChainEvent, E>) where
        F: FnOnce(Record) -> Result<Record, E>,

        requires
            self matches ChainEvent::Apply(_, x) ==> call_requires(f, (x,)),
            self matches ChainEvent::Undo(_, x) ==> call_requires(f, (x,)),
        ensures
            match self {
                ChainEvent::Apply(p, x) => match r {
                    Ok(e) => e matches ChainEvent::Apply(q, y) && q == p && call_ensures(
                        f,
                        (x,),
                        Ok(y),
                    ),
                    Err(err) => call_ensures(f, (x,), Err(err)),
                },
                ChainEvent::Undo(p, x) => match r {
                    Ok(e) => e matches ChainEvent::Undo(q, y) && q == p && call_ensures(
                        f,
                        (x,),
                        Ok(y),
                    ),
                    Err(err) => call_ensures(f, (x,), Err(err)),
                },
                ChainEvent::Reset(p) => r matches Ok(e) && e == ChainEvent::Reset(p),
            },
    {
        match self {
            ChainEvent::Apply(p, x) => match f(x) {
                Ok(y) => Ok(ChainEvent::Apply(p, y)),
                Err(e) => Err(e),
            },
            ChainEvent::Undo(p, x) => match f(x) {
                Ok(y) => Ok(ChainEvent::Undo(p, y)),
                Err(e) => Err(e),
            },
            ChainEvent::Reset(x) => Ok(ChainEvent::Reset(x)),
        }
    }

    /// One event per record that the transform yields, in order, each of
    /// the direction and at the point of the event given; or the failure
    /// of the transform. A reset yields itself alone.
    pub fn try_map_record_to_many<E, F>(self, f: F) -> (r: Result<Vec<ChainEvent>, E>) where
        F: FnOnce(Record) -> Result<Vec<Record>, E>,

        requires
            self matches ChainEvent::Apply(_, x) ==> call_requires(f, (x,)),
            self matches ChainEvent::Undo(_, x) ==> call_requires(f, (x,)),
        ensures
            match self {
                ChainEvent::Apply(p, x) => match r {
                    Ok(events) => exists|records: Vec<Record>|
                        call_ensures(f, (x,), Ok(records)) && events_model(events@)
                            == spread(true, p@, records_model(records@)),
                    Err(err) => call_ensures(f, (x,), Err(err)),
                },
                ChainEvent::Undo(p, x) => match r {
                    Ok(events) => exists|records: Vec<Record>|
                        call_ensures(f, (x,), Ok(records)) && events_model(events@)
                            == spread(false, p@, records_model(records@)),
                    Err(err) => call_ensures(f, (x,), Err(err)),
                },
                ChainEvent::Reset(p) => r matches Ok(events) && events@ == seq![
                    ChainEvent::Reset(p),
                ],
            },
    {
        match self {
            ChainEvent::Apply(p, x) => match f(x) {
                Ok(records) => Ok(spread_records(true, p, records)),
                Err(e) => Err(e),
            },
            ChainEvent::Undo(p, x) => match f(x) {
                Ok(records) => Ok(spread_records(false, p, records)),
                Err(e) => Err(e),
            },
            ChainEvent::Reset(x) => {
                let mut events: Vec<ChainEvent> = Vec::new();
                events.push(ChainEvent::Reset(x));
                Ok(events)
            },
        }
    }
}

/// One event per record, each at `point`: applies if `forward`, undos
/// otherwise.
pub open spec fn spread(forward: bool, point: PointModel, records: Seq<RecordModel>) -> Seq<
    EventModel,
> {
    records.map_values(
        |r: RecordModel|
            if forward {
                EventModel::Apply(point, r)
            } else {
                EventModel::Undo(point, r)
            },
    )
}

/// One event per record, in order, each at `point`.
fn spread_records(forward: bool, point: Point, records: Vec<Record>) -> (events: Vec<ChainEvent>)
    ensures
        events_model(events@) == spread(forward, point@, records_model(records@)),
{
    let ghost all = records_model(records@);
    let ghost total = records@.len();
    let mut rest = records;
    let mut reversed: Vec<ChainEvent> = Vec::new();
    while rest.len() > 0
        invariant
            rest@.len() <= total,
            all.len() == total,
            records_model(rest@) == all.subrange(0, rest@.len() as int),
            reversed@.len() == total - rest@.len(),
            forall|k: int|
                0 <= k < reversed@.len() ==> (#[trigger] reversed@[k])@ == spread(
                    forward,
                    point@,
                    all,
                )[total - 1 - k],
        decreases rest@.len(),
    {
        let ghost n = rest@.len() as int;
        let ghost before = records_model(rest@);
        let record = rest.pop().unwrap();
        proof {
            assert(record@ == before[n - 1]);
        }
        let event = if forward {
            ChainEvent::Apply(point.clone(), record)
        } else {
            ChainEvent::Undo(point.clone(), record)
        };
        reversed.push(event);
    }
    let mut events: Vec<ChainEvent> = Vec::new();
    while reversed.len() > 0
        invariant
            reversed@.len() <= total,
            all.len() == total,
            events@.len() == total - reversed@.len(),
            forall|k: int|
                0 <= k < reversed@.len() ==> (#[trigger] reversed@[k])@ == spread(
                    forward,
                    point@,
                    all,
                )[total - 1 - k],
            forall|k: int|
                0 <= k < events@.len() ==> (#[trigger] events@[k])@ == spread(
                    forward,
                    point@,
                    all,
                )[k],
        decreases reversed@.len(),
    {
        let event = reversed.pop().unwrap();
        events.push(event);
    }
    events
}

} // verus!
