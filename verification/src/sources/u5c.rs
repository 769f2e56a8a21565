//! The source that follows a remote node: first the history from the
//! intersection in pages, then the tip as it moves.

use crate::framework::breadcrumbs::points_model;
use crate::framework::breadcrumbs::Breadcrumbs;
use crate::framework::config::Context;
use crate::framework::config::IntersectConfig;
use crate::framework::errors::LyraError;
use crate::framework::event::Block;
use crate::framework::event::BlockModel;
use crate::framework::event::ChainEvent;
use crate::framework::event::EventModel;
use crate::framework::event::Record;
use crate::framework::event::RecordModel;
use crate::framework::point::Point;
use crate::framework::point::PointModel;
use crate::storage::none::slot_gauge;
use crate::runtime::WorkSchedule;
use crate::runtime::WorkerError;
use vstd::prelude::*;

verus! {

/// Below this slot the history is fetched in pages; from it on the tip is
/// followed.
pub const DUMP_HISTORY_BEFORE: u64 = 131000000;

/// The page size where the settings give none.
pub const DEFAULT_ITEMS_PER_PAGE: u32 = 20;

/// A reference to a block: its slot and its hash.
#[derive(Debug, PartialEq, Eq)]
pub struct BlockRef {
    pub index: u64,
    pub hash: Vec<u8>,
}

impl View for BlockRef {
    type V = (u64, Seq<u8>);

    open spec fn view(&self) -> (u64, Seq<u8>) {
        (self.index, self.hash@)
    }
}

impl Clone for BlockRef {
    fn clone(&self) -> (r: BlockRef)
        ensures
            r@ == self@,
    {
        BlockRef { index: self.index, hash: self.hash.clone() }
    }
}

/// What an optional reference stands for.
pub open spec fn ref_model(r: Option<BlockRef>) -> Option<(u64, Seq<u8>)> {
    match r {
        Some(b) => Some(b@),
        None => None,
    }
}

/// A copy of an optional reference.
pub fn clone_ref(r: &Option<BlockRef>) -> (c: Option<BlockRef>)
    ensures
        ref_model(c) == ref_model(*r),
{
    match r {
        Some(b) => Some(b.clone()),
        None => None,
    }
}

/// The reference of a specific point; the origin has none.
pub open spec fn point_ref(point: PointModel) -> Option<(u64, Seq<u8>)> {
    match point {
        PointModel::Origin => None,
        PointModel::Specific(slot, hash) => Some((slot, hash)),
    }
}

/// The reference of a specific point; the origin has none.
pub fn point_to_blockref(point: Point) -> (r: Option<BlockRef>)
    ensures
        ref_model(r) == point_ref(point@),
{
    match point {
        Point::Origin => None,
        Point::Specific(slot, hash) => Some(BlockRef { index: slot, hash }),
    }
}

/// The chain-specific content of a block on the wire.
#[derive(Debug)]
pub enum Chain {
    Raw(Vec<u8>),
    Cardano(Block),
}

/// A block on the wire, of whatever chain.
#[derive(Debug)]
pub struct AnyChainBlock {
    pub chain: Option<Chain>,
}

/// What an [`AnyChainBlock`] stands for: its decoded block, if it holds one.
pub open spec fn decoded(block: AnyChainBlock) -> Option<BlockModel> {
    match block.chain {
        Some(Chain::Cardano(b)) => Some(b@),
        _ => None,
    }
}

/// The reference of a block on the wire: slot and hash of its header, where
/// it holds a decoded block with a header.
pub open spec fn block_ref(block: AnyChainBlock) -> Option<(u64, Seq<u8>)> {
    match decoded(block) {
        Some(b) => match b.header {
            Some((slot, hash, _)) => Some((slot, hash)),
            None => None,
        },
        None => None,
    }
}

/// The reference of a block on the wire, where it holds a decoded block
/// with a header.
pub fn any_chain_block_to_blockref(block: &AnyChainBlock) -> (r: Option<BlockRef>)
    ensures
        ref_model(r) == block_ref(*block),
{
    match &block.chain {
        Some(Chain::Cardano(cardano_block)) => match &cardano_block.header {
            Some(header) => Some(BlockRef { index: header.slot, hash: header.hash.clone() }),
            None => None,
        },
        _ => None,
    }
}

/// One step that the node reports.
#[derive(Debug)]
pub enum Action {
    Apply(AnyChainBlock),
    Undo(AnyChainBlock),
    Reset(BlockRef),
}

/// The settings of the source.
#[derive(Debug, PartialEq, Eq)]
pub struct Config {
    pub url: String,
    pub max_items_per_page: Option<u32>,
}

/// The state of the stage.
#[derive(Debug)]
pub struct Stage {
    pub config: Config,
    pub intersect: IntersectConfig,
    pub cursor: Breadcrumbs,
    /// Whether the block at the front of the cursor, which the node sends
    /// once more after a restart, was met and left out already.
    pub skipped: bool,
    pub ops_count: u64,
    pub chain_tip: i64,
}

impl Config {
    /// The stage in its first state: at the loaded cursor, nothing left
    /// out yet.
    pub fn bootstrapper(self, ctx: &Context) -> (r: Result<Stage, LyraError>)
        ensures
            r matches Ok(stage) && stage.config == self && stage.intersect@ == ctx.intersect@
                && stage.cursor@ == ctx.cursor@ && !stage.skipped && stage.ops_count == 0
                && stage.chain_tip == 0,
    {
        Ok(
            Stage {
                config: self,
                intersect: ctx.intersect.clone(),
                cursor: ctx.cursor.clone(),
                skipped: false,
                ops_count: 0,
                chain_tip: 0,
            },
        )
    }
}

/// What a list of references stands for.
pub open spec fn refs_model(refs: Seq<BlockRef>) -> Seq<(u64, Seq<u8>)> {
    refs.map_values(|r: BlockRef| r@)
}

/// The references of the specific points of a list, in its order.
pub open spec fn refs_of(points: Seq<PointModel>) -> Seq<(u64, Seq<u8>)>
    decreases points.len(),
{
    if points.len() == 0 {
        Seq::empty()
    } else {
        let front = refs_of(points.drop_last());
        match point_ref(points.last()) {
            Some(r) => front.push(r),
            None => front,
        }
    }
}

/// The first of a list of references, if it holds any.
pub open spec fn first_of(refs: Seq<(u64, Seq<u8>)>) -> Option<(u64, Seq<u8>)> {
    if refs.len() > 0 {
        Some(refs[0])
    } else {
        None
    }
}

/// The candidate intersections of a start: the cursor where it holds any
/// point, else the points of the configured policy.
pub open spec fn candidates(cursor: Seq<PointModel>, policy: Option<Seq<PointModel>>) -> Seq<
    PointModel,
> {
    if cursor.len() > 0 {
        cursor
    } else {
        match policy {
            Some(points) => points,
            None => Seq::empty(),
        }
    }
}

/// The references of the specific points of a list, in its order.
fn collect_refs(points: &Vec<Point>) -> (refs: Vec<BlockRef>)
    ensures
        refs_model(refs@) == refs_of(points_model(points@)),
{
    let ghost all = points_model(points@);
    let mut refs: Vec<BlockRef> = Vec::new();
    let mut i: usize = 0;
    proof {
        assert(all.subrange(0, 0) =~= Seq::<PointModel>::empty());
        assert(refs_model(refs@) =~= Seq::<(u64, Seq<u8>)>::empty());
    }
    while i < points.len()
        invariant
            i <= points@.len(),
            all == points_model(points@),
            refs_model(refs@) == refs_of(all.subrange(0, i as int)),
        decreases points@.len() - i,
    {
        let ghost next = all.subrange(0, i + 1);
        let ghost before = refs_model(refs@);
        proof {
            assert(next.drop_last() =~= all.subrange(0, i as int));
            assert(next.last() == points@[i as int]@);
        }
        match point_to_blockref(points[i].clone()) {
            Some(found) => {
                refs.push(found);
                assert(refs_model(refs@) =~= before.push(found@));
            },
            None => {},
        }
        i += 1;
    }
    proof {
        assert(all.subrange(0, i as int) =~= all);
    }
    refs
}

/// A copy of a list of references.
fn clone_refs(refs: &Vec<BlockRef>) -> (copy: Vec<BlockRef>)
    ensures
        refs_model(copy@) == refs_model(refs@),
{
    let mut copy: Vec<BlockRef> = Vec::new();
    let mut i: usize = 0;
    while i < refs.len()
        invariant
            i <= refs@.len(),
            copy@.len() == i,
            forall|k: int| 0 <= k < i ==> (#[trigger] copy@[k])@ == refs@[k]@,
        decreases refs@.len() - i,
    {
        copy.push(refs[i].clone());
        i += 1;
    }
    assert(refs_model(copy@) =~= refs_model(refs@));
    copy
}

/// What the worker is to ask of the node.
#[derive(Debug)]
pub enum Fetch {
    /// One page of history from the token on.
    DumpHistory { start_token: Option<BlockRef>, max_items: u32 },
    /// The next step of the tip. Where no stream is open yet, one is opened
    /// at these intersections first.
    FollowTip { intersect: Vec<BlockRef> },
}

/// What came of asking the stream for its next step.
#[derive(Debug)]
pub enum StreamItem {
    /// The stream has ended.
    End,
    /// The stream failed.
    Failed,
    /// The node answered, with a step or without.
    Response(Option<Action>),
}

/// The state of the worker between two requests.
#[derive(Debug)]
pub struct Worker {
    /// Where the next page of history starts.
    pub intersect: Option<BlockRef>,
    /// The intersections to offer to the node when the tip is followed,
    /// the preferred one first.
    pub candidates: Vec<BlockRef>,
    pub max_items_per_page: u32,
}

impl Worker {
    /// The worker at its start. The candidate intersections are the
    /// specific points of the cursor, or of the configured policy where the
    /// cursor is empty, in their order; history is fetched from the first
    /// of them.
    pub fn bootstrap(stage: &Stage) -> (w: Worker)
        requires
            stage.cursor@.len() == 0 ==> stage.intersect@.has_valid_hashes(),
        ensures
            refs_model(w.candidates@) == refs_of(
                candidates(stage.cursor@, stage.intersect@.points()),
            ),
            ref_model(w.intersect) == first_of(refs_model(w.candidates@)),
            w.max_items_per_page == match stage.config.max_items_per_page {
                Some(n) => n,
                None => DEFAULT_ITEMS_PER_PAGE,
            },
    {
        let points: Vec<Point> = if stage.cursor.is_empty() {
            match stage.intersect.points() {
                Some(points) => points,
                None => Vec::new(),
            }
        } else {
            stage.cursor.to_points()
        };
        assert(points_model(points@) =~= candidates(stage.cursor@, stage.intersect@.points()));
        let candidates = collect_refs(&points);
        let intersect = if candidates.len() > 0 {
            Some(candidates[0].clone())
        } else {
            None
        };
        let max_items_per_page = match stage.config.max_items_per_page {
            Some(n) => n,
            None => DEFAULT_ITEMS_PER_PAGE,
        };
        Worker { intersect, candidates, max_items_per_page }
    }

    /// Whether the history is still to be fetched in pages.
    pub open spec fn dumps_history(&self) -> bool {
        self.intersect matches Some(p) && p.index < DUMP_HISTORY_BEFORE
    }

    /// What to ask of the node next: a page of history while the
    /// intersection lies before the threshold, else the next step of the
    /// tip, for which all candidate intersections are offered.
    pub fn schedule(&self) -> (fetch: Fetch)
        ensures
            self.dumps_history() ==> (fetch matches Fetch::DumpHistory { start_token, max_items }
                && ref_model(start_token) == ref_model(self.intersect) && max_items
                == self.max_items_per_page),
            !self.dumps_history() ==> (fetch matches Fetch::FollowTip { intersect }
                && refs_model(intersect@) == refs_model(self.candidates@)),
    {
        let dump = match &self.intersect {
            Some(p) => p.index < DUMP_HISTORY_BEFORE,
            None => false,
        };
        if dump {
            Fetch::DumpHistory {
                start_token: clone_ref(&self.intersect),
                max_items: self.max_items_per_page,
            }
        } else {
            Fetch::FollowTip { intersect: clone_refs(&self.candidates) }
        }
    }

    /// Takes a page of history: the next page starts at its token, the tip
    /// will be followed from its last block alone, and its blocks are
    /// applied in order. An empty page asks to wait.
    pub fn next_dump_history(
        &mut self,
        blocks: Vec<AnyChainBlock>,
        next_token: Option<BlockRef>,
    ) -> (r: WorkSchedule<Vec<Action>>)
        ensures
            final(self).intersect == next_token,
            final(self).max_items_per_page == old(self).max_items_per_page,
            refs_model(final(self).candidates@) == match (if blocks@.len() > 0 {
                block_ref(blocks@.last())
            } else {
                None
            }) {
                Some(r) => seq![r],
                None => Seq::empty(),
            },
            blocks@.len() == 0 ==> r is Idle,
            blocks@.len() > 0 ==> (r matches WorkSchedule::Unit(actions) && actions@
                == blocks@.map_values(|b: AnyChainBlock| Action::Apply(b))),
    {
        self.intersect = next_token;
        let last = if blocks.len() > 0 {
            any_chain_block_to_blockref(&blocks[blocks.len() - 1])
        } else {
            None
        };
        let mut candidates: Vec<BlockRef> = Vec::new();
        match last {
            Some(r) => {
                candidates.push(r);
                assert(refs_model(candidates@) =~= seq![r@]);
            },
            None => {
                assert(refs_model(candidates@) =~= Seq::<(u64, Seq<u8>)>::empty());
            },
        }
        self.candidates = candidates;
        if blocks.len() > 0 {
            let ghost all = blocks@;
            let mut rest = blocks;
            let mut reversed: Vec<Action> = Vec::new();
            while rest.len() > 0
                invariant
                    rest@.len() <= all.len(),
                    rest@ == all.subrange(0, rest@.len() as int),
                    reversed@.len() == all.len() - rest@.len(),
                    forall|k: int|
                        0 <= k < reversed@.len() ==> #[trigger] reversed@[k] == Action::Apply(
                            all[all.len() - 1 - k],
                        ),
                decreases rest@.len(),
            {
                let ghost n = rest@.len() as int;
                let block = rest.pop().unwrap();
                assert(rest@ =~= all.subrange(0, n - 1));
                reversed.push(Action::Apply(block));
            }
            let mut actions: Vec<Action> = Vec::new();
            while reversed.len() > 0
                invariant
                    reversed@.len() <= all.len(),
                    actions@.len() == all.len() - reversed@.len(),
                    forall|k: int|
                        0 <= k < reversed@.len() ==> #[trigger] reversed@[k] == Action::Apply(
                            all[all.len() - 1 - k],
                        ),
                    forall|k: int|
                        0 <= k < actions@.len() ==> #[trigger] actions@[k] == Action::Apply(all[k]),
                decreases reversed@.len(),
            {
                let action = reversed.pop().unwrap();
                actions.push(action);
            }
            WorkSchedule::Unit(actions)
        } else {
            WorkSchedule::Idle
        }
    }

    /// What to do with what the stream gave: wait where it ended or the
    /// node sent no step, try again where it failed, else process the step.
    pub fn next_stream(item: StreamItem) -> (r: Result<WorkSchedule<Vec<Action>>, WorkerError>)
        ensures
            match item {
                StreamItem::End => r matches Ok(WorkSchedule::Idle),
                StreamItem::Failed => r matches Err(WorkerError::Retry),
                StreamItem::Response(None) => r matches Ok(WorkSchedule::Idle),
                StreamItem::Response(Some(action)) => r matches Ok(WorkSchedule::Unit(actions))
                    && actions@ == seq![action],
            },
    {
        match item {
            StreamItem::End => Ok(WorkSchedule::Idle),
            StreamItem::Failed => Err(WorkerError::Retry),
            StreamItem::Response(None) => Ok(WorkSchedule::Idle),
            StreamItem::Response(Some(action)) => {
                let mut actions: Vec<Action> = Vec::new();
                actions.push(action);
                Ok(WorkSchedule::Unit(actions))
            },
        }
    }
}

/// A step that the source can process: the block of an apply or an undo,
/// where it is decoded and has a body, has a header.
pub open spec fn passable(action: Action) -> bool {
    match action {
        Action::Apply(block) => match decoded(block) {
            Some(b) => b.is_passable(),
            None => true,
        },
        Action::Undo(block) => match decoded(block) {
            Some(b) => b.is_passable(),
            None => true,
        },
        Action::Reset(_) => true,
    }
}

impl Action {
    /// Whether the source can process the step.
    pub fn is_passable(&self) -> (ok: bool)
        ensures
            ok == passable(*self),
    {
        match self {
            Action::Apply(block) => match &block.chain {
                Some(Chain::Cardano(b)) => b.is_passable(),
                _ => true,
            },
            Action::Undo(block) => match &block.chain {
                Some(Chain::Cardano(b)) => b.is_passable(),
                _ => true,
            },
            Action::Reset(_) => true,
        }
    }
}

/// Whether a step is the one to leave out after a restart: the first apply
/// of the block that stands at the front of the cursor.
pub open spec fn left_out(cursor: Seq<PointModel>, skipped: bool, action: Action) -> bool {
    match action {
        Action::Apply(block) => match decoded(block) {
            Some(b) => !skipped && cursor.len() > 0 && b.body is Some && b.point() == Some(
                cursor[0],
            ),
            None => false,
        },
        _ => false,
    }
}

/// The event that a step of the node becomes, if it becomes one. A block
/// is passed on where it is decoded and has a body, at the point of its
/// header; the step that is left out after a restart is not. A reset is
/// passed on at its reference.
pub open spec fn emitted(cursor: Seq<PointModel>, skipped: bool, action: Action) -> Option<
    EventModel,
> {
    match action {
        Action::Apply(block) => match decoded(block) {
            Some(b) => if b.body is Some && b.header is Some && !left_out(
                cursor,
                skipped,
                action,
            ) {
                Some(EventModel::Apply(b.point().unwrap(), RecordModel::UtxoRpcBlockPayload(b)))
            } else {
                None
            },
            None => None,
        },
        Action::Undo(block) => match decoded(block) {
            Some(b) => if b.body is Some && b.header is Some {
                Some(EventModel::Undo(b.point().unwrap(), RecordModel::UtxoRpcBlockPayload(b)))
            } else {
                None
            },
            None => None,
        },
        Action::Reset(r) => Some(EventModel::Reset(PointModel::Specific(r.index, r.hash@))),
    }
}

impl Stage {
    /// The event to send for a step of the node, if any; the gauge follows
    /// the slot of what is sent. The first apply of the block at the front
    /// of the cursor is left out, once.
    pub fn process_next(&mut self, action: &Action) -> (r: Option<ChainEvent>)
        requires
            passable(*action),
        ensures
            match r {
                Some(event) => emitted(old(self).cursor@, old(self).skipped, *action) == Some(
                    event@,
                ) && final(self).chain_tip == event@.point().slot() as i64,
                None => emitted(old(self).cursor@, old(self).skipped, *action) is None
                    && final(self).chain_tip == old(self).chain_tip,
            },
            final(self).skipped == (old(self).skipped || left_out(
                old(self).cursor@,
                old(self).skipped,
                *action,
            )),
            final(self).cursor@ == old(self).cursor@,
            final(self).intersect == old(self).intersect,
            final(self).config == old(self).config,
            final(self).ops_count == old(self).ops_count,
    {
        match action {
            Action::Apply(block) => {
                match &block.chain {
                    Some(Chain::Cardano(b)) => {
                        if b.body.is_some() {
                            let point = b.point().unwrap();
                            let known = if self.skipped {
                                false
                            } else {
                                match self.cursor.latest_known_point() {
                                    Some(p) => p == point,
                                    None => false,
                                }
                            };
                            if known {
                                self.skipped = true;
                                return None;
                            }
                            self.chain_tip = slot_gauge(point.slot_or_default());
                            let record = Record::UtxoRpcBlockPayload(b.clone());
                            return Some(ChainEvent::Apply(point, record));
                        }
                        None
                    },
                    _ => None,
                }
            },
            Action::Undo(block) => {
                match &block.chain {
                    Some(Chain::Cardano(b)) => {
                        if b.body.is_some() {
                            let point = b.point().unwrap();
                            self.chain_tip = slot_gauge(point.slot_or_default());
                            return Some(
                                ChainEvent::Undo(point, Record::UtxoRpcBlockPayload(b.clone())),
                            );
                        }
                        None
                    },
                    _ => None,
                }
            },
            Action::Reset(reset) => {
                self.chain_tip = slot_gauge(reset.index);
                Some(ChainEvent::Reset(Point::new(reset.index, reset.hash.clone())))
            },
        }
    }
}

/// After a restart the block at the front of the cursor is not applied
/// again: its first apply sends nothing.
pub proof fn lemma_no_duplicate_apply(cursor: Seq<PointModel>, block: AnyChainBlock)
    requires
        cursor.len() > 0,
        decoded(block) matches Some(b) && b.body is Some && b.point() == Some(cursor[0]),
    ensures
        left_out(cursor, false, Action::Apply(block)),
        emitted(cursor, false, Action::Apply(block)) is None,
{
}

/// Once that apply was left out, nothing is left out any more: a block
/// with a header and a body is applied at the point of its header, the
/// block at the front of the cursor too.
pub proof fn lemma_only_once(cursor: Seq<PointModel>, block: AnyChainBlock)
    requires
        decoded(block) matches Some(b) && b.header is Some && b.body is Some,
    ensures
        emitted(cursor, true, Action::Apply(block)) matches Some(EventModel::Apply(p, _))
            && Some(p) == decoded(block).unwrap().point(),
{
}

/// A block that the cursor does not hold at its front and that has a
/// header and a body is applied at the point of its header.
pub proof fn lemma_fresh_block_applies(
    cursor: Seq<PointModel>,
    skipped: bool,
    block: AnyChainBlock,
)
    requires
        decoded(block) matches Some(b) && b.header is Some && b.body is Some && (cursor.len()
            == 0 || cursor[0] != b.point().unwrap()),
    ensures
        emitted(cursor, skipped, Action::Apply(block)) matches Some(EventModel::Apply(p, _))
            && Some(p) == decoded(block).unwrap().point(),
{
}

} // verus!
