//! The engine for a key-value store: each event becomes one transaction
//! that applies its mutations and persists the cursor with them.

use super::cursor_json::cursor_json;
use super::cursor_json::json_error_text;
use super::cursor_json::lemma_persisted_is_plain;
use super::cursor_json::write_cursor_json;
use super::none::slot_gauge;
use crate::framework::breadcrumbs::after_track;
use crate::framework::breadcrumbs::persisted;
use crate::framework::breadcrumbs::Breadcrumbs;
use crate::framework::config::clone_finalize;
use crate::framework::config::finalize_model;
use crate::framework::config::finalizes;
use crate::framework::config::should_finalize;
use crate::framework::config::Context;
use crate::framework::config::FinalizeConfig;
use crate::framework::config::FinalizeModel;
use crate::framework::decimal::decimal_text;
use crate::framework::decimal::i128_text;
use crate::framework::errors::LyraError;
use crate::framework::event::ChainEvent;
use crate::framework::event::EventModel;
use crate::framework::event::Record;
use crate::framework::event::RecordModel;
use crate::framework::model::commands_model;
use crate::framework::model::CRDTCommand;
use crate::framework::model::CommandModel;
use crate::framework::model::Value;
use crate::framework::model::ValueModel;
use crate::framework::point::PointModel;
use super::Intake;
use super::intake;
use super::Recovery;
use crate::runtime::WorkerError;
use vstd::prelude::*;
use vstd::string::StrSliceExecFns;
use vstd::string::StringExecFns;
use vstd::utf8::encode_utf8;

verus! {

/// What a [`RedisOp`] stands for.
pub enum OpModel {
    Multi,
    Exec,
    Discard,
    SAdd(Seq<char>, Seq<char>),
    SRem(Seq<char>, Seq<char>),
    ZAdd(Seq<char>, Seq<u8>, u64),
    ZIncrBy(Seq<char>, Seq<char>, i64),
    ZRemRangeByScore(Seq<char>, i64, i64),
    SetKey(Seq<char>, Seq<u8>),
    IncrBy(Seq<char>, i64),
    HSet(Seq<char>, Seq<char>, Seq<u8>),
    HIncrBy(Seq<char>, Seq<char>, i64),
    HDel(Seq<char>, Seq<char>),
}

/// One command to issue to the store.
#[derive(Debug, PartialEq, Eq)]
pub enum RedisOp {
    /// `MULTI`: open the transaction.
    Multi,
    /// `EXEC`: commit the transaction.
    Exec,
    /// `DISCARD`: drop the transaction.
    Discard,
    /// `SADD key member`.
    SAdd(String, String),
    /// `SREM key member`.
    SRem(String, String),
    /// `ZADD key score member`, given as key, member, score.
    ZAdd(String, Vec<u8>, u64),
    /// `ZINCRBY key delta member`, given as key, member, delta.
    ZIncrBy(String, String, i64),
    /// `ZREMRANGEBYSCORE key min max`.
    ZRemRangeByScore(String, i64, i64),
    /// `SET key value`.
    SetKey(String, Vec<u8>),
    /// `INCRBY key delta`.
    IncrBy(String, i64),
    /// `HSET key field value`.
    HSet(String, String, Vec<u8>),
    /// `HINCRBY key field delta`.
    HIncrBy(String, String, i64),
    /// `HDEL key field`.
    HDel(String, String),
}

impl View for RedisOp {
    type V = OpModel;

    open spec fn view(&self) -> OpModel {
        match self {
            RedisOp::Multi => OpModel::Multi,
            RedisOp::Exec => OpModel::Exec,
            RedisOp::Discard => OpModel::Discard,
            RedisOp::SAdd(k, m) => OpModel::SAdd(k@, m@),
            RedisOp::SRem(k, m) => OpModel::SRem(k@, m@),
            RedisOp::ZAdd(k, m, s) => OpModel::ZAdd(k@, m@, *s),
            RedisOp::ZIncrBy(k, m, d) => OpModel::ZIncrBy(k@, m@, *d),
            RedisOp::ZRemRangeByScore(k, min, max) => OpModel::ZRemRangeByScore(k@, *min, *max),
            RedisOp::SetKey(k, v) => OpModel::SetKey(k@, v@),
            RedisOp::IncrBy(k, d) => OpModel::IncrBy(k@, *d),
            RedisOp::HSet(k, f, v) => OpModel::HSet(k@, f@, v@),
            RedisOp::HIncrBy(k, f, d) => OpModel::HIncrBy(k@, f@, *d),
            RedisOp::HDel(k, f) => OpModel::HDel(k@, f@),
        }
    }
}

impl Clone for RedisOp {
    fn clone(&self) -> (op: RedisOp)
        ensures
            op@ == self@,
    {
        match self {
            RedisOp::Multi => RedisOp::Multi,
            RedisOp::Exec => RedisOp::Exec,
            RedisOp::Discard => RedisOp::Discard,
            RedisOp::SAdd(k, m) => RedisOp::SAdd(k.clone(), m.clone()),
            RedisOp::SRem(k, m) => RedisOp::SRem(k.clone(), m.clone()),
            RedisOp::ZAdd(k, m, s) => RedisOp::ZAdd(k.clone(), m.clone(), *s),
            RedisOp::ZIncrBy(k, m, d) => RedisOp::ZIncrBy(k.clone(), m.clone(), *d),
            RedisOp::ZRemRangeByScore(k, min, max) => RedisOp::ZRemRangeByScore(
                k.clone(),
                *min,
                *max,
            ),
            RedisOp::SetKey(k, v) => RedisOp::SetKey(k.clone(), v.clone()),
            RedisOp::IncrBy(k, d) => RedisOp::IncrBy(k.clone(), *d),
            RedisOp::HSet(k, f, v) => RedisOp::HSet(k.clone(), f.clone(), v.clone()),
            RedisOp::HIncrBy(k, f, d) => RedisOp::HIncrBy(k.clone(), f.clone(), *d),
            RedisOp::HDel(k, f) => RedisOp::HDel(k.clone(), f.clone()),
        }
    }
}

/// What a list of commands to issue stands for.
pub open spec fn ops_model(ops: Seq<RedisOp>) -> Seq<OpModel> {
    ops.map_values(|op: RedisOp| op@)
}

/// The bytes that the store receives for a value: text as its UTF-8 bytes,
/// an integer as its decimal text, bytes as they are. A JSON value has no
/// such form.
pub open spec fn value_bytes(value: ValueModel) -> Option<Seq<u8>> {
    match value {
        ValueModel::String(text) => Some(encode_utf8(text)),
        ValueModel::BigInt(n) => Some(encode_utf8(decimal_text(n as int))),
        ValueModel::Cbor(bytes) => Some(bytes),
        ValueModel::Json(_) => None,
    }
}

/// The key of the set that holds what was removed from a two-phase set.
pub open spec fn tombstone_key(key: Seq<char>) -> Seq<char> {
    key + ".ts"@
}

/// The commands that one mutation issues, or none where it carries a JSON
/// value.
pub open spec fn command_ops(command: CommandModel) -> Option<Seq<OpModel>> {
    match command {
        CommandModel::SetAdd(k, m) => Some(seq![OpModel::SAdd(k, m)]),
        CommandModel::SetRemove(k, m) => Some(seq![OpModel::SRem(k, m)]),
        CommandModel::SortedSetAdd(k, m, d) => Some(seq![OpModel::ZIncrBy(k, m, d)]),
        CommandModel::SortedSetRemove(k, m, d) => Some(
            seq![OpModel::ZIncrBy(k, m, d), OpModel::ZRemRangeByScore(k, 0, 0)],
        ),
        CommandModel::TwoPhaseSetAdd(k, m) => Some(seq![OpModel::SAdd(k, m)]),
        CommandModel::TwoPhaseSetRemove(k, m) => Some(seq![OpModel::SAdd(tombstone_key(k), m)]),
        CommandModel::GrowOnlySetAdd(k, m) => Some(seq![OpModel::SAdd(k, m)]),
        CommandModel::LastWriteWins(k, v, ts) => match value_bytes(v) {
            Some(bytes) => Some(seq![OpModel::ZAdd(k, bytes, ts)]),
            None => None,
        },
        CommandModel::AnyWriteWins(k, v) => match value_bytes(v) {
            Some(bytes) => Some(seq![OpModel::SetKey(k, bytes)]),
            None => None,
        },
        CommandModel::PNCounter(k, d) => Some(seq![OpModel::IncrBy(k, d)]),
        CommandModel::HashCounter(k, m, d) => Some(seq![OpModel::HIncrBy(k, m, d)]),
        CommandModel::HashSetValue(k, m, v) => match value_bytes(v) {
            Some(bytes) => Some(seq![OpModel::HSet(k, m, bytes)]),
            None => None,
        },
        CommandModel::HashUnsetKey(k, m) => Some(seq![OpModel::HDel(k, m)]),
    }
}

/// The commands that a list of mutations issues, in order, or none where
/// one of them carries a JSON value.
pub open spec fn batch_ops(commands: Seq<CommandModel>) -> Option<Seq<OpModel>>
    decreases commands.len(),
{
    if commands.len() == 0 {
        Some(Seq::empty())
    } else {
        match (batch_ops(commands.drop_last()), command_ops(commands.last())) {
            (Some(front), Some(last)) => Some(front + last),
            _ => None,
        }
    }
}

/// The transaction of one event: `MULTI`, the commands of its mutations in
/// order, the cursor written under its name, `EXEC`.
pub open spec fn transaction(
    commands: Seq<CommandModel>,
    cursor_name: Seq<char>,
    cursor_text: Seq<char>,
) -> Option<Seq<OpModel>> {
    match batch_ops(commands) {
        Some(ops) => Some(
            seq![OpModel::Multi] + ops + seq![
                OpModel::SetKey(cursor_name, encode_utf8(cursor_text)),
                OpModel::Exec,
            ],
        ),
        None => None,
    }
}

/// The failure to write a JSON value to the store.
pub open spec fn json_refused(e: LyraError) -> bool {
    e matches LyraError::Storage(text) && text@ == "a JSON value has no form in the store"@
}

/// The failure to store a record that holds no mutations.
pub open spec fn record_refused(e: LyraError) -> bool {
    e matches LyraError::Storage(text) && text@ == "the store takes mutations only"@
}

/// The bytes that the store receives for a value.
pub fn to_redis_bytes(value: &Value) -> (r: Result<Vec<u8>, LyraError>)
    ensures
        match r {
            Ok(bytes) => value_bytes(value@) == Some(bytes@),
            Err(e) => value_bytes(value@) is None && json_refused(e),
        },
{
    match value {
        Value::String(text) => Ok(text.as_str().as_bytes_vec()),
        Value::BigInt(n) => {
            let text = i128_text(*n);
            Ok(text.as_str().as_bytes_vec())
        },
        Value::Cbor(bytes) => Ok(bytes.clone()),
        Value::Json(_) => Err(
            LyraError::storage(String::from_str("a JSON value has no form in the store")),
        ),
    }
}

/// Appends the commands that one mutation issues.
fn push_command_ops(ops: &mut Vec<RedisOp>, command: &CRDTCommand) -> (r: Result<(), LyraError>)
    ensures
        match r {
            Ok(()) => command_ops(command@) is Some && ops_model(final(ops)@) == ops_model(
                old(ops)@,
            ) + command_ops(command@).unwrap(),
            Err(e) => command_ops(command@) is None && json_refused(e) && final(ops)@ == old(ops)@,
        },
{
    let ghost before = ops_model(ops@);
    match command {
        CRDTCommand::GrowOnlySetAdd(key, member) => {
            ops.push(RedisOp::SAdd(key.clone(), member.clone()));
        },
        CRDTCommand::TwoPhaseSetAdd(key, member) => {
            ops.push(RedisOp::SAdd(key.clone(), member.clone()));
        },
        CRDTCommand::TwoPhaseSetRemove(key, member) => {
            let mut tombstones = key.clone();
            tombstones.append(".ts");
            ops.push(RedisOp::SAdd(tombstones, member.clone()));
        },
        CRDTCommand::SetAdd(key, member) => {
            ops.push(RedisOp::SAdd(key.clone(), member.clone()));
        },
        CRDTCommand::SetRemove(key, member) => {
            ops.push(RedisOp::SRem(key.clone(), member.clone()));
        },
        CRDTCommand::LastWriteWins(key, value, ts) => {
            let bytes = to_redis_bytes(value)?;
            ops.push(RedisOp::ZAdd(key.clone(), bytes, *ts));
        },
        CRDTCommand::SortedSetAdd(key, member, delta) => {
            ops.push(RedisOp::ZIncrBy(key.clone(), member.clone(), *delta));
        },
        CRDTCommand::SortedSetRemove(key, member, delta) => {
            ops.push(RedisOp::ZIncrBy(key.clone(), member.clone(), *delta));
            ops.push(RedisOp::ZRemRangeByScore(key.clone(), 0, 0));
        },
        CRDTCommand::AnyWriteWins(key, value) => {
            let bytes = to_redis_bytes(value)?;
            ops.push(RedisOp::SetKey(key.clone(), bytes));
        },
        CRDTCommand::PNCounter(key, delta) => {
            ops.push(RedisOp::IncrBy(key.clone(), *delta));
        },
        CRDTCommand::HashSetValue(key, member, value) => {
            let bytes = to_redis_bytes(value)?;
            ops.push(RedisOp::HSet(key.clone(), member.clone(), bytes));
        },
        CRDTCommand::HashCounter(key, member, delta) => {
            ops.push(RedisOp::HIncrBy(key.clone(), member.clone(), *delta));
        },
        CRDTCommand::HashUnsetKey(key, member) => {
            ops.push(RedisOp::HDel(key.clone(), member.clone()));
        },
    }
    Ok(())
}

/// The commands that a list of mutations issues, in order. It fails where
/// a mutation carries a JSON value.
pub fn plan_batch(commands: &Vec<CRDTCommand>) -> (r: Result<Vec<RedisOp>, LyraError>)
    ensures
        match r {
            Ok(ops) => batch_ops(commands_model(commands@)) == Some(ops_model(ops@)),
            Err(e) => batch_ops(commands_model(commands@)) is None && json_refused(e),
        },
{
    let ghost all = commands_model(commands@);
    let mut ops: Vec<RedisOp> = Vec::new();
    let mut i: usize = 0;
    proof {
        assert(ops_model(ops@) =~= Seq::<OpModel>::empty());
    }
    while i < commands.len()
        invariant
            i <= commands@.len(),
            all == commands_model(commands@),
            batch_ops(all.subrange(0, i as int)) == Some(ops_model(ops@)),
        decreases commands@.len() - i,
    {
        let ghost next = all.subrange(0, i + 1);
        proof {
            assert(next.drop_last() =~= all.subrange(0, i as int));
        }
        match push_command_ops(&mut ops, &commands[i]) {
            Ok(()) => {},
            Err(e) => {
                proof {
                    lemma_batch_fails(all, i + 1);
                }
                return Err(e);
            },
        }
        i += 1;
    }
    proof {
        assert(all.subrange(0, i as int) =~= all);
    }
    Ok(ops)
}

/// The commands of a batch inside their transaction: `MULTI` before them,
/// the cursor written under its name and `EXEC` after them.
pub fn enclose(batch: Vec<RedisOp>, cursor_name: &str, cursor_text: &str) -> (ops: Vec<RedisOp>)
    ensures
        ops_model(ops@) == seq![OpModel::Multi] + ops_model(batch@) + seq![
            OpModel::SetKey(cursor_name@, encode_utf8(cursor_text@)),
            OpModel::Exec,
        ],
{
    let ghost inner = ops_model(batch@);
    let mut ops = batch;
    ops.insert(0, RedisOp::Multi);
    ops.push(RedisOp::SetKey(String::from_str(cursor_name), cursor_text.as_bytes_vec()));
    ops.push(RedisOp::Exec);
    proof {
        assert(ops_model(ops@) =~= seq![OpModel::Multi] + inner + seq![
            OpModel::SetKey(cursor_name@, encode_utf8(cursor_text@)),
            OpModel::Exec,
        ]);
    }
    ops
}

/// The transaction of one event, given the text of the cursor to persist.
/// It fails, and issues nothing, where a mutation carries a JSON value.
pub fn plan_transaction(commands: &Vec<CRDTCommand>, cursor_name: &str, cursor_text: &str) -> (r:
    Result<Vec<RedisOp>, LyraError>)
    ensures
        match r {
            Ok(ops) => transaction(commands_model(commands@), cursor_name@, cursor_text@) == Some(
                ops_model(ops@),
            ),
            Err(e) => transaction(commands_model(commands@), cursor_name@, cursor_text@) is None
                && json_refused(e),
        },
{
    let batch = plan_batch(commands)?;
    Ok(enclose(batch, cursor_name, cursor_text))
}

/// A list whose first mutations issue nothing issues nothing as a whole.
proof fn lemma_batch_fails(commands: Seq<CommandModel>, upto: int)
    requires
        0 <= upto <= commands.len(),
        batch_ops(commands.subrange(0, upto)) is None,
    ensures
        batch_ops(commands) is None,
    decreases commands.len() - upto,
{
    if upto < commands.len() {
        let next = commands.subrange(0, upto + 1);
        assert(next.drop_last() =~= commands.subrange(0, upto));
        lemma_batch_fails(commands, upto + 1);
    } else {
        assert(commands.subrange(0, upto) =~= commands);
    }
}

/// The settings of the engine.
#[derive(Debug, Default, PartialEq, Eq)]
pub struct Config {
    pub url: String,
    pub cursor_name: String,
}

/// The state of the stage.
#[derive(Debug)]
pub struct Stage {
    pub config: Config,
    pub cursor: Breadcrumbs,
    pub finalize: Option<FinalizeConfig>,
    pub should_finalize: bool,
    pub ops_count: u64,
    pub latest_block: i64,
}

/// What a [`Stage`] stands for.
pub struct StageModel {
    pub url: Seq<char>,
    pub cursor_name: Seq<char>,
    pub cursor: Seq<PointModel>,
    pub finalize: Option<FinalizeModel>,
    pub should_finalize: bool,
    pub ops_count: u64,
    pub latest_block: i64,
}

impl View for Stage {
    type V = StageModel;

    open spec fn view(&self) -> StageModel {
        StageModel {
            url: self.config.url@,
            cursor_name: self.config.cursor_name@,
            cursor: self.cursor@,
            finalize: finalize_model(self.finalize),
            should_finalize: self.should_finalize,
            ops_count: self.ops_count,
            latest_block: self.latest_block,
        }
    }
}

impl StageModel {
    /// The stage with its cursor moved to `point`.
    pub open spec fn following(self, point: PointModel) -> StageModel {
        StageModel { cursor: after_track(self.cursor, point), ..self }
    }

    /// The stage with one more event counted, the slot of `point` recorded,
    /// and the flag raised where the stop condition is met at `point`.
    pub open spec fn noted(self, point: PointModel) -> StageModel {
        StageModel {
            should_finalize: self.should_finalize || finalizes(self.finalize, point),
            ops_count: if self.ops_count == u64::MAX {
                0
            } else {
                (self.ops_count + 1) as u64
            },
            latest_block: point.slot() as i64,
            ..self
        }
    }

    /// The stage after the transaction of an event was committed: for
    /// mutations the cursor has moved to the point of the event, and the
    /// event is counted. Any other event, a reset among them, has no
    /// transaction and leaves the stage as it is.
    pub open spec fn committed(self, event: EventModel) -> StageModel {
        match event.record() {
            Some(RecordModel::CRDTCommand(_)) => self.following(event.point()).noted(
                event.point(),
            ),
            _ => self,
        }
    }

    /// The JSON text under which the cursor is persisted once it has moved
    /// to `point`: `[[slot,"hash"],...]`, newest first.
    pub open spec fn cursor_text(self, point: PointModel) -> Seq<char> {
        cursor_json(persisted(after_track(self.cursor, point)))
    }
}

/// What follows where the store refuses the call at `failed_at` of a
/// transaction: the transaction is dropped, unless it was not even opened,
/// and the work is tried again under the retry policy.
pub open spec fn recovery(failed_at: usize) -> (Seq<OpModel>, WorkerError) {
    (
        if failed_at == 0 {
            Seq::empty()
        } else {
            seq![OpModel::Discard]
        },
        WorkerError::Retry,
    )
}

/// The stage in its first state: at the loaded cursor, nothing counted,
/// not finalized.
pub open spec fn first_stage(
    config: Config,
    cursor: Seq<PointModel>,
    finalize: Option<FinalizeModel>,
) -> StageModel {
    StageModel {
        url: config.url@,
        cursor_name: config.cursor_name@,
        cursor,
        finalize,
        should_finalize: false,
        ops_count: 0,
        latest_block: 0,
    }
}

impl Config {
    /// The stage in its first state.
    pub fn bootstrapper(self, ctx: &Context) -> (r: Result<Stage, LyraError>)
        ensures
            r matches Ok(stage) && stage@ == first_stage(
                self,
                ctx.cursor@,
                finalize_model(ctx.finalize),
            ),
    {
        Ok(
            Stage {
                config: self,
                cursor: ctx.cursor.clone(),
                finalize: clone_finalize(&ctx.finalize),
                should_finalize: false,
                ops_count: 0,
                latest_block: 0,
            },
        )
    }

    /// The cursor to resume from, given what the store holds under the
    /// cursor name; nothing held is an empty cursor.
    pub fn load_cursor(&self, stored: &Option<String>) -> (r: Result<Breadcrumbs, LyraError>)
        ensures
            super::restores(*stored, r),
    {
        super::restore_cursor(stored)
    }
}

impl Stage {
    /// What to do before the next event is taken: nothing more once the
    /// stop condition was met.
    pub fn schedule(&self) -> (r: Intake)
        ensures
            r == intake(self.should_finalize),
    {
        if self.should_finalize {
            Intake::Done
        } else {
            Intake::Receive
        }
    }

    /// The transaction to issue for an event: its mutations, and with them
    /// the cursor as it will stand once it has moved to the point of the
    /// event. An event without a record, a reset among them, asks for none.
    /// Any other record, and a mutation with a JSON value, is refused. The
    /// stage itself changes only once the transaction is committed.
    pub fn execute(&self, unit: &ChainEvent) -> (r: Result<Option<Vec<RedisOp>>, LyraError>)
        ensures
            match unit@.record() {
                None => r matches Ok(None),
                Some(RecordModel::CRDTCommand(commands)) => match batch_ops(commands) {
                    None => r matches Err(e) && json_refused(e),
                    Some(_) => r matches Ok(Some(ops)) && Some(ops_model(ops@)) == transaction(
                        commands,
                        self@.cursor_name,
                        self@.cursor_text(unit@.point()),
                    ),
                },
                Some(_) => r matches Err(e) && record_refused(e),
            },
    {
        let commands = match unit.record() {
            None => {
                return Ok(None);
            },
            Some(Record::CRDTCommand(commands)) => commands,
            Some(_) => {
                return Err(
                    LyraError::storage(String::from_str("the store takes mutations only")),
                );
            },
        };
        let batch = plan_batch(commands)?;
        let mut cursor = self.cursor.clone();
        cursor.track(unit.point().clone());
        proof {
            lemma_persisted_is_plain(cursor@);
        }
        let cursor_text = match write_cursor_json(&cursor.to_data()) {
            Ok(text) => text,
            Err(e) => {
                return Err(LyraError::parsing(json_error_text(&e)));
            },
        };
        Ok(Some(enclose(batch, self.config.cursor_name.as_str(), cursor_text.as_str())))
    }

    /// Takes note that the transaction of an event was committed: the
    /// cursor moves to its point, the event is counted, and the flag is
    /// raised where the stop condition is met.
    pub fn stored(&mut self, unit: &ChainEvent)
        ensures
            final(self)@ == old(self)@.committed(unit@),
    {
        match unit.record() {
            Some(Record::CRDTCommand(_)) => {
                let point = unit.point();
                self.cursor.track(point.clone());
                self.ops_count = self.ops_count.wrapping_add(1);
                self.latest_block = slot_gauge(point.slot_or_default());
                if should_finalize(&self.finalize, point) {
                    self.should_finalize = true;
                }
            },
            _ => {},
        }
    }

    /// What follows where the store refuses the call at `failed_at` of a
    /// transaction. The stage is as it was before the transaction: its
    /// cursor moves on a commit only.
    pub fn on_failure(failed_at: usize) -> (r: Recovery<RedisOp>)
        ensures
            (ops_model(r.rollback@), r.error) == recovery(failed_at),
    {
        let mut rollback: Vec<RedisOp> = Vec::new();
        if failed_at != 0 {
            rollback.push(RedisOp::Discard);
        }
        assert(ops_model(rollback@) =~= recovery(failed_at).0);
        Recovery { rollback, error: WorkerError::Retry }
    }
}

} // verus!
