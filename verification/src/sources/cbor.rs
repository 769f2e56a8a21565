//! The source that replays blocks from files: each file holds one block in
//! hexadecimal text, and its name tells whether the block is undone.

use crate::framework::config::Context;
use crate::framework::errors::LyraError;
use crate::framework::event::Block;
use crate::framework::event::BlockModel;
use crate::framework::event::ChainEvent;
use crate::framework::event::EventModel;
use crate::framework::event::Record;
use crate::framework::event::RecordModel;
use crate::framework::hexcode::hex_decode;
use crate::framework::hexcode::hex_decoded;
use crate::framework::hexcode::is_hex_text;
use crate::storage::none::slot_gauge;
use vstd::prelude::*;

verus! {

/// One block to replay, by its bytes.
#[derive(Debug, PartialEq, Eq)]
pub enum Action {
    Apply(Vec<u8>),
    Undo(Vec<u8>),
}

/// The text occurs somewhere in the other.
pub open spec fn occurs_in(needle: Seq<char>, hay: Seq<char>) -> bool {
    exists|i: int|
        0 <= i <= hay.len() - needle.len() && #[trigger] hay.subrange(i, i + needle.len())
            == needle
}

/// `str::contains` with a string pattern: whether the pattern occurs
/// somewhere in the text.
#[verifier::external_body]
fn contains_text(hay: &str, needle: &str) -> (r: bool)
    ensures
        r == occurs_in(needle@, hay@),
{
    hay.contains(needle)
}

/// The settings of the source.
#[derive(Debug, PartialEq, Eq)]
pub struct Config {
    pub dir: String,
}

/// The state of the stage.
#[derive(Debug, PartialEq, Eq)]
pub struct Stage {
    pub config: Config,
    pub ops_count: u64,
    pub chain_tip: i64,
}

impl Config {
    /// The stage in its first state.
    pub fn bootstrapper(self, _ctx: &Context) -> (r: Result<Stage, LyraError>)
        ensures
            r matches Ok(stage) && stage == (Stage { config: self, ops_count: 0, chain_tip: 0 }),
    {
        Ok(Stage { config: self, ops_count: 0, chain_tip: 0 })
    }
}

/// The state of the worker: the files to replay, in order, and how many of
/// them were taken.
#[derive(Debug, PartialEq, Eq)]
pub struct Worker {
    pub index: usize,
    pub files: Vec<String>,
}

impl Worker {
    /// The worker before the first of the files, which are replayed in the
    /// order given.
    pub fn bootstrap(files: Vec<String>) -> (w: Worker)
        ensures
            w.index == 0,
            w.files == files,
    {
        Worker { index: 0, files }
    }

    /// The next file to replay, if one is left.
    pub fn schedule(&mut self) -> (r: Option<String>)
        ensures
            final(self).files == old(self).files,
            match r {
                Some(path) => old(self).index < old(self).files@.len() && path@
                    == old(self).files@[old(self).index as int]@ && final(self).index == old(
                    self,
                ).index + 1,
                None => old(self).index >= old(self).files@.len() && final(self).index == old(
                    self,
                ).index,
            },
    {
        if self.index < self.files.len() {
            let path = self.files[self.index].clone();
            self.index += 1;
            Some(path)
        } else {
            None
        }
    }

    /// The block that a file holds: undone where the name of the file
    /// contains `undo`, applied otherwise.
    pub fn action(file_name: &str, content: &str) -> (a: Action)
        requires
            is_hex_text(content@),
        ensures
            occurs_in("undo"@, file_name@) ==> (a matches Action::Undo(bytes) && bytes@
                == hex_decoded(content@)),
            !occurs_in("undo"@, file_name@) ==> (a matches Action::Apply(bytes) && bytes@
                == hex_decoded(content@)),
    {
        let bytes = match hex_decode(content) {
            Ok(bytes) => bytes,
            Err(_) => {
                assert(false);
                Vec::new()
            },
        };
        if contains_text(file_name, "undo") {
            Action::Undo(bytes)
        } else {
            Action::Apply(bytes)
        }
    }
}

/// The event that a replayed block becomes, if it becomes one: a block
/// with a body is passed on at the point of its header.
pub open spec fn replayed(action: Action, block: BlockModel) -> Option<EventModel> {
    if block.body is Some && block.header is Some {
        match action {
            Action::Apply(_) => Some(
                EventModel::Apply(block.point().unwrap(), RecordModel::UtxoRpcBlockPayload(block)),
            ),
            Action::Undo(_) => Some(
                EventModel::Undo(block.point().unwrap(), RecordModel::UtxoRpcBlockPayload(block)),
            ),
        }
    } else {
        None
    }
}

impl Stage {
    /// The event to send for a replayed block, given its decoded form; the
    /// gauge follows the slot of what is sent.
    pub fn execute(&mut self, action: &Action, block: Block) -> (r: Option<ChainEvent>)
        requires
            block@.is_passable(),
        ensures
            match r {
                Some(event) => replayed(*action, block@) == Some(event@) && final(self).chain_tip
                    == event@.point().slot() as i64,
                None => replayed(*action, block@) is None && final(self).chain_tip == old(
                    self,
                ).chain_tip,
            },
            final(self).config == old(self).config,
            final(self).ops_count == old(self).ops_count,
    {
        if block.body.is_some() {
            let point = block.point().unwrap();
            self.chain_tip = slot_gauge(point.slot_or_default());
            match action {
                Action::Apply(_) => Some(
                    ChainEvent::Apply(point, Record::UtxoRpcBlockPayload(block)),
                ),
                Action::Undo(_) => Some(
                    ChainEvent::Undo(point, Record::UtxoRpcBlockPayload(block)),
                ),
            }
        } else {
            None
        }
    }
}

} // verus!
