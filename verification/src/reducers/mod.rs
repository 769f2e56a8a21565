//! The reducers: which callback an event asks for, and what is forwarded
//! for the JSON that the callback returns.

pub mod deno;
pub mod wasm;

use crate::framework::config::Context;
use crate::framework::context::BlockContext;
use crate::framework::context::Era;
use crate::framework::context::OutputRef;
use crate::framework::context::OutputRefModel;
use crate::framework::errors::LyraError;
use crate::framework::event::Block;
use crate::framework::event::BlockModel;
use crate::framework::event::ChainEvent;
use crate::framework::event::EventModel;
use crate::framework::event::Record;
use crate::framework::event::RecordModel;
use crate::framework::json::items_model;
use crate::framework::json::same_text;
use crate::framework::json::Json;
use crate::framework::json::JsonModel;
use crate::framework::model::commands_of;
use crate::framework::model::CRDTCommand;
use crate::framework::model::CommandModel;
use crate::framework::event::statements_model;
use vstd::prelude::*;
use vstd::string::StringExecFns;

verus! {

/// The callback of the reducer that an event asks for.
#[derive(Debug, Clone, Copy, PartialEq, Eq, Structural)]
pub enum Method {
    Apply,
    Undo,
}

impl Method {
    /// The name under which the reducer exposes the callback.
    pub fn name(self) -> (name: &'static str)
        ensures
            name@ == self.spec_name(),
    {
        match self {
            Method::Apply => "apply",
            Method::Undo => "undo",
        }
    }

    /// The name under which the reducer exposes the callback.
    pub open spec fn spec_name(self) -> Seq<char> {
        match self {
            Method::Apply => "apply"@,
            Method::Undo => "undo"@,
        }
    }
}

/// What an event asks of the reducer, by what it carries.
pub enum CallModel {
    /// The callback on a decoded block.
    Decoded(Method, BlockModel),
    /// The callback on the block that these bytes encode, with the outputs
    /// that its inputs consume.
    Enriched(Method, Seq<u8>, Map<Seq<char>, (Era, Seq<u8>)>),
}

/// What an event asks of the reducer.
#[derive(Debug)]
pub enum Call<'a> {
    /// The callback on a decoded block.
    Decoded(Method, &'a Block),
    /// The callback on the block that these bytes encode, once the outputs
    /// that its inputs consume are resolved against the context.
    Enriched(Method, &'a Vec<u8>, &'a BlockContext),
}

impl<'a> View for Call<'a> {
    type V = CallModel;

    open spec fn view(&self) -> CallModel {
        match self {
            Call::Decoded(method, block) => CallModel::Decoded(*method, block@),
            Call::Enriched(method, bytes, ctx) => CallModel::Enriched(*method, bytes@, ctx@),
        }
    }
}

/// The callback for the direction of an event; a reset has none.
pub open spec fn method_of(event: EventModel) -> Option<Method> {
    match event {
        EventModel::Apply(..) => Some(Method::Apply),
        EventModel::Undo(..) => Some(Method::Undo),
        EventModel::Reset(..) => None,
    }
}

/// The call that an event asks for: `apply` for an apply and `undo` for an
/// undo, on the block that it carries, decoded or enriched. A reset, and an
/// event with any other record, asks for no call.
pub open spec fn requested(event: EventModel) -> Option<CallModel> {
    match (method_of(event), event.record()) {
        (Some(method), Some(RecordModel::UtxoRpcBlockPayload(block))) => Some(
            CallModel::Decoded(method, block),
        ),
        (Some(method), Some(RecordModel::EnrichedBlockPayload(bytes, ctx))) => Some(
            CallModel::Enriched(method, bytes, ctx),
        ),
        _ => None,
    }
}

/// The call to make for an event.
pub fn reducer_call<'a>(unit: &'a ChainEvent) -> (r: Option<Call<'a>>)
    ensures
        match r {
            Some(call) => requested(unit@) == Some(call@),
            None => requested(unit@) is None,
        },
{
    match unit {
        ChainEvent::Apply(_, Record::UtxoRpcBlockPayload(block)) => Some(
            Call::Decoded(Method::Apply, block),
        ),
        ChainEvent::Undo(_, Record::UtxoRpcBlockPayload(block)) => Some(
            Call::Decoded(Method::Undo, block),
        ),
        ChainEvent::Apply(_, Record::EnrichedBlockPayload(bytes, ctx)) => Some(
            Call::Enriched(Method::Apply, bytes, ctx),
        ),
        ChainEvent::Undo(_, Record::EnrichedBlockPayload(bytes, ctx)) => Some(
            Call::Enriched(Method::Undo, bytes, ctx),
        ),
        _ => None,
    }
}

/// The texts of a JSON array of strings, or none for any other value.
pub open spec fn texts_of(items: Seq<JsonModel>) -> Option<Seq<Seq<char>>>
    decreases items.len(),
{
    if items.len() == 0 {
        Some(Seq::empty())
    } else {
        match (texts_of(items.drop_last()), items.last()) {
            (Some(front), JsonModel::String(text)) => Some(front.push(text)),
            _ => None,
        }
    }
}

/// The statements that a JSON value lists: it must be an array of strings.
pub open spec fn statements_of(json: JsonModel) -> Option<Seq<Seq<char>>> {
    match json {
        JsonModel::Array(items) => texts_of(items),
        _ => None,
    }
}

/// A list with an element that is no string lists no texts.
proof fn lemma_texts_fail(items: Seq<JsonModel>, upto: int)
    requires
        0 <= upto <= items.len(),
        texts_of(items.subrange(0, upto)) is None,
    ensures
        texts_of(items) is None,
    decreases items.len() - upto,
{
    if upto < items.len() {
        let next = items.subrange(0, upto + 1);
        assert(next.drop_last() =~= items.subrange(0, upto));
        lemma_texts_fail(items, upto + 1);
    } else {
        assert(items.subrange(0, upto) =~= items);
    }
}

/// Reads the statements of a JSON array of strings.
pub fn statements_from_json(value: &Json) -> (r: Result<Vec<String>, String>)
    ensures
        match r {
            Ok(statements) => statements_of(value@) == Some(statements_model(statements@)),
            Err(text) => statements_of(value@) is None && text@
                == "Expected a JSON array of strings"@,
        },
{
    let items = match value.as_array() {
        Some(items) => items,
        None => {
            return Err(String::from_str("Expected a JSON array of strings"));
        },
    };
    let ghost all = items_model(items@);
    let mut statements: Vec<String> = Vec::new();
    let mut i: usize = 0;
    proof {
        assert(statements_model(statements@) =~= Seq::<Seq<char>>::empty());
    }
    while i < items.len()
        invariant
            i <= items@.len(),
            all == items_model(items@),
            value@ == JsonModel::Array(all),
            texts_of(all.subrange(0, i as int)) == Some(statements_model(statements@)),
        decreases items@.len() - i,
    {
        let ghost next = all.subrange(0, i + 1);
        let ghost read = statements_model(statements@);
        proof {
            assert(next.drop_last() =~= all.subrange(0, i as int));
        }
        match &items[i] {
            Json::String(text) => {
                statements.push(text.clone());
                assert(statements_model(statements@) =~= read.push(text@));
            },
            _ => {
                proof {
                    lemma_texts_fail(all, i + 1);
                }
                return Err(String::from_str("Expected a JSON array of strings"));
            },
        }
        i += 1;
    }
    assert(all.subrange(0, i as int) =~= all);
    Ok(statements)
}

/// The failure of a reducer, with its description.
pub enum ReduceFailure {
    /// The JSON is not what the storage takes.
    Parsing(Seq<char>),
    /// The storage type is none of the known ones.
    Config(Seq<char>),
}

/// What a failure of the library stands for, where a reducer can fail so.
pub open spec fn failure_model(e: LyraError) -> Option<ReduceFailure> {
    match e {
        LyraError::Parsing(text) => Some(ReduceFailure::Parsing(text@)),
        LyraError::Config(text) => Some(ReduceFailure::Config(text@)),
        _ => None,
    }
}

/// The record that the JSON of a callback becomes for a storage type:
/// nothing to store for `None`, mutations for `Redis`, statements for
/// `Postgres`.
pub open spec fn wrapped(storage_type: Seq<char>, json: JsonModel) -> Result<
    RecordModel,
    ReduceFailure,
> {
    if storage_type == "None"@ {
        Ok(RecordModel::CRDTCommand(Seq::empty()))
    } else if storage_type == "Redis"@ {
        match commands_of(json) {
            Ok(commands) => Ok(RecordModel::CRDTCommand(commands)),
            Err(text) => Err(ReduceFailure::Parsing(text)),
        }
    } else if storage_type == "Postgres"@ {
        match statements_of(json) {
            Some(statements) => Ok(RecordModel::SQLCommand(statements)),
            None => Err(ReduceFailure::Parsing("Expected a JSON array of strings"@)),
        }
    } else {
        Err(ReduceFailure::Config("unknown storage type "@ + storage_type))
    }
}

/// What a reducer forwards for an event, given the JSON that its callback
/// returned: a reset as it is; nothing where the callback returned null;
/// else the event at the same point and of the same direction, with the
/// record that the JSON becomes.
pub open spec fn reduced(storage_type: Seq<char>, event: EventModel, output: JsonModel) -> Result<
    Option<EventModel>,
    ReduceFailure,
> {
    match event {
        EventModel::Reset(p) => Ok(Some(EventModel::Reset(p))),
        _ => if output is Null {
            Ok(None)
        } else {
            match wrapped(storage_type, output) {
                Ok(record) => Ok(Some(event.with_record(record))),
                Err(kind) => Err(kind),
            }
        },
    }
}

/// The record that the JSON of a callback becomes for a storage type.
pub fn wrap_output(storage_type: &str, json: &Json) -> (r: Result<Record, LyraError>)
    ensures
        match r {
            Ok(record) => wrapped(storage_type@, json@) == Ok::<RecordModel, ReduceFailure>(
                record@,
            ),
            Err(e) => failure_model(e) is Some && wrapped(storage_type@, json@) == Err::<
                RecordModel,
                ReduceFailure,
            >(failure_model(e).unwrap()),
        },
{
    if same_text(storage_type, "None") {
        let record = Record::CRDTCommand(Vec::new());
        assert(record@->CRDTCommand_0 =~= Seq::<CommandModel>::empty());
        Ok(record)
    } else if same_text(storage_type, "Redis") {
        match CRDTCommand::from_json_array(json) {
            Ok(commands) => Ok(Record::CRDTCommand(commands)),
            Err(text) => Err(LyraError::parsing(text)),
        }
    } else if same_text(storage_type, "Postgres") {
        match statements_from_json(json) {
            Ok(statements) => Ok(Record::SQLCommand(statements)),
            Err(text) => Err(LyraError::parsing(text)),
        }
    } else {
        let mut text = String::from_str("unknown storage type ");
        text.append(storage_type);
        Err(LyraError::config(text))
    }
}

/// What to forward for an event, given the JSON that the callback
/// returned.
pub fn reduce(storage_type: &str, unit: &ChainEvent, output: &Json) -> (r: Result<
    Option<ChainEvent>,
    LyraError,
>)
    ensures
        match r {
            Ok(Some(event)) => reduced(storage_type@, unit@, output@) == Ok::<
                Option<EventModel>,
                ReduceFailure,
            >(Some(event@)),
            Ok(None) => reduced(storage_type@, unit@, output@) == Ok::<
                Option<EventModel>,
                ReduceFailure,
            >(None),
            Err(e) => failure_model(e) is Some && reduced(storage_type@, unit@, output@) == Err::<
                Option<EventModel>,
                ReduceFailure,
            >(failure_model(e).unwrap()),
        },
{
    match unit {
        ChainEvent::Reset(p) => Ok(Some(ChainEvent::Reset(p.clone()))),
        ChainEvent::Apply(p, _) => {
            match output {
                Json::Null => Ok(None),
                _ => {
                    let record = wrap_output(storage_type, output)?;
                    Ok(Some(ChainEvent::Apply(p.clone(), record)))
                },
            }
        },
        ChainEvent::Undo(p, _) => {
            match output {
                Json::Null => Ok(None),
                _ => {
                    let record = wrap_output(storage_type, output)?;
                    Ok(Some(ChainEvent::Undo(p.clone(), record)))
                },
            }
        },
    }
}

impl EventModel {
    /// Whether the event extends the chain, rolls it back, or resets it:
    /// 0, 1 or 2.
    pub open spec fn direction(self) -> int {
        match self {
            EventModel::Apply(..) => 0,
            EventModel::Undo(..) => 1,
            EventModel::Reset(..) => 2,
        }
    }
}

/// What a reducer forwards for a run of events, given the JSON that its
/// callback returned for each: what it forwards for each, in the order of
/// the run. An event whose JSON is refused forwards nothing.
pub open spec fn forwarded(
    storage_type: Seq<char>,
    events: Seq<EventModel>,
    outputs: Seq<JsonModel>,
) -> Seq<EventModel>
    decreases events.len(),
{
    if events.len() == 0 || outputs.len() != events.len() {
        Seq::empty()
    } else {
        let front = forwarded(storage_type, events.drop_last(), outputs.drop_last());
        match reduced(storage_type, events.last(), outputs.last()) {
            Ok(Some(event)) => front.push(event),
            _ => front,
        }
    }
}

/// Positions in a run of `len` events, each after the one before.
pub open spec fn increasing_picks(picks: Seq<int>, len: nat) -> bool {
    &&& forall|k: int| 0 <= k < picks.len() ==> 0 <= #[trigger] picks[k] < len
    &&& forall|j: int, k: int| 0 <= j < k < picks.len() ==> picks[j] < picks[k]
}

/// What is forwarded for one event is at its point and of its direction.
pub proof fn lemma_reduce_keeps_point(
    storage_type: Seq<char>,
    event: EventModel,
    output: JsonModel,
)
    ensures
        reduced(storage_type, event, output) matches Ok(Some(out)) ==> out.point() == event.point()
            && out.direction() == event.direction(),
{
}

/// A reducer does not reorder: what it forwards for a run of events are
/// events at the points, and of the directions, of events of the run, taken
/// at positions that only move forward.
pub proof fn lemma_order_kept(
    storage_type: Seq<char>,
    events: Seq<EventModel>,
    outputs: Seq<JsonModel>,
) -> (picks: Seq<int>)
    requires
        events.len() == outputs.len(),
    ensures
        picks.len() == forwarded(storage_type, events, outputs).len(),
        increasing_picks(picks, events.len()),
        forall|k: int|
            0 <= k < picks.len() ==> (#[trigger] forwarded(
                storage_type,
                events,
                outputs,
            )[k]).point() == events[picks[k]].point() && forwarded(
                storage_type,
                events,
                outputs,
            )[k].direction() == events[picks[k]].direction(),
    decreases events.len(),
{
    if events.len() == 0 {
        Seq::empty()
    } else {
        let front = lemma_order_kept(storage_type, events.drop_last(), outputs.drop_last());
        lemma_reduce_keeps_point(storage_type, events.last(), outputs.last());
        match reduced(storage_type, events.last(), outputs.last()) {
            Ok(Some(event)) => front.push(events.len() - 1),
            _ => front,
        }
    }
}

/// One input of a transaction: the hash of the transaction that it spends
/// from, and the index of the output spent.
#[derive(Debug, PartialEq, Eq)]
pub struct InputRef {
    pub tx_hash: Vec<u8>,
    pub output_index: u32,
}

/// The output that an input resolves to: the one filed under its reference,
/// where the hash has 32 bytes and the context holds it.
pub open spec fn resolved(ctx: Map<Seq<char>, (Era, Seq<u8>)>, input: InputRef) -> Option<
    (Era, Seq<u8>),
> {
    let key = (OutputRefModel { tx_hash: input.tx_hash@, index: input.output_index as u64 }).key();
    if input.tx_hash@.len() == 32 && ctx.contains_key(key) {
        Some(ctx[key])
    } else {
        None
    }
}

/// What an optional output stands for.
pub open spec fn output_model(output: Option<(Era, Vec<u8>)>) -> Option<(Era, Seq<u8>)> {
    match output {
        Some((era, cbor)) => Some((era, cbor@)),
        None => None,
    }
}

/// The outputs that the inputs of an enriched block resolve to, one entry
/// per input, in order.
pub fn resolve_inputs(ctx: &BlockContext, inputs: &Vec<InputRef>) -> (outputs: Vec<
    Option<(Era, Vec<u8>)>,
>)
    ensures
        outputs@.len() == inputs@.len(),
        forall|i: int|
            0 <= i < inputs@.len() ==> output_model(#[trigger] outputs@[i]) == resolved(
                ctx@,
                inputs@[i],
            ),
{
    let mut outputs: Vec<Option<(Era, Vec<u8>)>> = Vec::new();
    let mut i: usize = 0;
    while i < inputs.len()
        invariant
            i <= inputs@.len(),
            outputs@.len() == i,
            forall|k: int|
                0 <= k < i ==> output_model(#[trigger] outputs@[k]) == resolved(
                    ctx@,
                    inputs@[k],
                ),
        decreases inputs@.len() - i,
    {
        let input = &inputs[i];
        let found = if input.tx_hash.len() == 32 {
            let output_ref = OutputRef::new(input.tx_hash.clone(), input.output_index as u64);
            match ctx.find_utxo(&output_ref) {
                Ok(output) => Some(output),
                Err(_) => None,
            }
        } else {
            None
        };
        outputs.push(found);
        i += 1;
    }
    outputs
}

/// A reducer stage, ready to run.
#[derive(Debug)]
pub enum Bootstrapper {
    Deno(deno::Stage),
    Wasm(wasm::Stage),
}

/// The settings of the chosen reducer.
#[derive(Debug)]
pub enum Config {
    Deno(deno::Config),
    Wasm(wasm::Config),
}

impl Config {
    /// The stage of the chosen reducer, in its first state.
    pub fn bootstrapper(self, ctx: &Context) -> (r: Result<Bootstrapper, LyraError>)
        ensures
            match self {
                Config::Deno(c) => r matches Ok(Bootstrapper::Deno(stage)) && stage
                    == deno::first_stage(c, ctx.storage_type),
                Config::Wasm(c) => r matches Ok(Bootstrapper::Wasm(stage)) && stage
                    == wasm::first_stage(c, ctx.storage_type),
            },
    {
        match self {
            Config::Deno(c) => match c.bootstrapper(ctx) {
                Ok(stage) => Ok(Bootstrapper::Deno(stage)),
                Err(e) => Err(e),
            },
            Config::Wasm(c) => match c.bootstrapper(ctx) {
                Ok(stage) => Ok(Bootstrapper::Wasm(stage)),
                Err(e) => Err(e),
            },
        }
    }
}

} // verus!
