//! The cursor: a bounded history of the latest points, newest first, that
//! survives rollbacks and restarts.

use super::errors::LyraError;
use super::hexcode::hex_decode;
use super::hexcode::hex_decoded;
use super::hexcode::hex_encode;
use super::hexcode::hex_encoded;
use super::hexcode::hex_error_text;
use super::hexcode::is_hex_text;
use super::hexcode::lemma_hex_round_trip;
use super::point::Point;
use super::point::PointModel;
use std::collections::VecDeque;
use vstd::prelude::*;

verus! {

/// The most points that a cursor holds.
pub const MAX_BREADCRUMBS: usize = 20;

/// What a sequence of points stands for.
pub open spec fn points_model(points: Seq<Point>) -> Seq<PointModel> {
    points.map_values(|p: Point| p@)
}

/// What a persisted list stands for: slots with the text of their hashes.
pub open spec fn data_model(data: Seq<(u64, String)>) -> Seq<(u64, Seq<char>)> {
    data.map_values(|e: (u64, String)| (e.0, e.1@))
}

/// The points whose slot lies before `slot`.
pub open spec fn is_older(slot: u64) -> spec_fn(PointModel) -> bool {
    |q: PointModel| q.slot() < slot
}

/// The points that can be persisted.
pub open spec fn is_specific() -> spec_fn(PointModel) -> bool {
    |q: PointModel| q is Specific
}

/// Slots fall strictly from the front to the back.
pub open spec fn strictly_decreasing(points: Seq<PointModel>) -> bool {
    forall|i: int, j: int| 0 <= i < j < points.len() ==> points[i].slot() > points[j].slot()
}

/// A cursor as the pipeline keeps it: at most [`MAX_BREADCRUMBS`] points,
/// slots falling strictly from the front to the back.
pub open spec fn well_formed(points: Seq<PointModel>) -> bool {
    &&& points.len() <= MAX_BREADCRUMBS
    &&& strictly_decreasing(points)
}

/// The cursor once it has followed the chain to `point`: every point at or
/// after its slot is gone, `point` stands at the front, and the oldest point
/// has left if the cursor had grown beyond its bound.
pub open spec fn after_track(points: Seq<PointModel>, point: PointModel) -> Seq<PointModel> {
    let grown = seq![point] + points.filter(is_older(point.slot()));
    if grown.len() > MAX_BREADCRUMBS {
        grown.drop_last()
    } else {
        grown
    }
}

/// The persisted form of one specific point: its slot and the text of its
/// hash.
pub open spec fn entry_of(point: PointModel) -> (u64, Seq<char>) {
    match point {
        PointModel::Specific(slot, hash) => (slot, hex_encoded(hash)),
        PointModel::Origin => (0u64, Seq::<char>::empty()),
    }
}

/// The persisted form of a cursor: slot and hash text of each specific
/// point, in order. The origin is never persisted.
pub open spec fn persisted(points: Seq<PointModel>) -> Seq<(u64, Seq<char>)> {
    points.filter(is_specific()).map_values(|p: PointModel| entry_of(p))
}

/// A persisted list that can be read back: every hash is hexadecimal text.
pub open spec fn restorable(data: Seq<(u64, Seq<char>)>) -> bool {
    forall|i: int| 0 <= i < data.len() ==> is_hex_text(#[trigger] data[i].1)
}

/// The cursor that a persisted list stands for.
pub open spec fn restored(data: Seq<(u64, Seq<char>)>) -> Seq<PointModel> {
    data.map_values(|e: (u64, Seq<char>)| PointModel::Specific(e.0, hex_decoded(e.1)))
}

/// A bounded history of the latest points, newest at the front.
#[derive(Debug)]
pub struct Breadcrumbs {
    state: VecDeque<Point>,
}

impl View for Breadcrumbs {
    type V = Seq<PointModel>;

    closed spec fn view(&self) -> Seq<PointModel> {
        points_model(self.state@)
    }
}

impl Breadcrumbs {
    /// Whether the cursor is as the pipeline keeps it.
    pub open spec fn wf(&self) -> bool {
        well_formed(self@)
    }

    /// The empty cursor.
    pub fn new() -> (b: Breadcrumbs)
        ensures
            b@ == Seq::<PointModel>::empty(),
            b.wf(),
    {
        let b = Breadcrumbs { state: VecDeque::new() };
        b
    }

    /// Whether the cursor holds no point.
    pub fn is_empty(&self) -> (r: bool)
        ensures
            r == (self@.len() == 0),
    {
        self.state.len() == 0
    }

    /// The cursor that holds `points`, first to last, as they are.
    pub fn from_points(points: Vec<Point>) -> (b: Breadcrumbs)
        ensures
            b@ == points_model(points@),
    {
        let ghost all = points@;
        let mut rest = points;
        let mut reversed: VecDeque<Point> = VecDeque::new();
        while rest.len() > 0
            invariant
                rest@.len() <= all.len(),
                rest@ == all.subrange(0, rest@.len() as int),
                reversed@ == all.subrange(rest@.len() as int, all.len() as int),
            decreases rest@.len(),
        {
            let ghost n = rest@.len() as int;
            let last = rest.pop().unwrap();
            reversed.push_front(last);
            assert(rest@ =~= all.subrange(0, n - 1));
        }
        Breadcrumbs { state: reversed }
    }

    /// The points of the cursor, newest first.
    pub fn to_points(&self) -> (points: Vec<Point>)
        ensures
            points_model(points@) == self@,
    {
        let mut points: Vec<Point> = Vec::new();
        let mut i: usize = 0;
        while i < self.state.len()
            invariant
                i <= self.state@.len(),
                points@.len() == i,
                forall|k: int| 0 <= k < i ==> (#[trigger] points@[k])@ == self.state@[k]@,
            decreases self.state@.len() - i,
        {
            points.push(self.state[i].clone());
            i += 1;
        }
        points
    }

    /// Reads a persisted list back. Fails on the first hash that is not
    /// hexadecimal text.
    pub fn from_data(data: Vec<(u64, String)>) -> (r: Result<Breadcrumbs, LyraError>)
        ensures
            match r {
                Ok(b) => restorable(data_model(data@)) && b@ == restored(data_model(data@)),
                Err(e) => !restorable(data_model(data@)) && e is Config,
            },
    {
        let ghost model = data_model(data@);
        let mut state: VecDeque<Point> = VecDeque::new();
        let mut i: usize = 0;
        while i < data.len()
            invariant
                i <= data@.len(),
                model == data_model(data@),
                state@.len() == i,
                forall|k: int| 0 <= k < i ==> is_hex_text(#[trigger] model[k].1),
                forall|k: int|
                    0 <= k < i ==> (#[trigger] state@[k])@ == PointModel::Specific(
                        model[k].0,
                        hex_decoded(model[k].1),
                    ),
            decreases data@.len() - i,
        {
            let entry = &data[i];
            match hex_decode(entry.1.as_str()) {
                Ok(hash) => {
                    state.push_back(Point::Specific(entry.0, hash));
                },
                Err(e) => {
                    assert(!is_hex_text(model[i as int].1));
                    return Err(LyraError::config(hex_error_text(&e)));
                },
            }
            i += 1;
        }
        let b = Breadcrumbs { state };
        Ok(b)
    }

    /// The persisted form: slot and hash text of each specific point. It
    /// reads back as the specific points of the cursor.
    pub fn to_data(&self) -> (data: Vec<(u64, String)>)
        ensures
            data_model(data@) == persisted(self@),
            restorable(data_model(data@)),
            restored(data_model(data@)) == self@.filter(is_specific()),
    {
        proof {
            lemma_persisted_round_trip(self@);
        }
        let mut data: Vec<(u64, String)> = Vec::new();
        let mut i: usize = 0;
        while i < self.state.len()
            invariant
                i <= self.state@.len(),
                data_model(data@) == persisted(points_model(self.state@.subrange(0, i as int))),
            decreases self.state@.len() - i,
        {
            let ghost seen = points_model(self.state@.subrange(0, i as int));
            let ghost next = points_model(self.state@.subrange(0, i + 1));
            let ghost written = data@;
            proof {
                assert(next.drop_last() =~= seen);
                reveal(Seq::filter);
            }
            match &self.state[i] {
                Point::Origin => {
                    assert(next.filter(is_specific()) == seen.filter(is_specific()));
                },
                Point::Specific(slot, hash) => {
                    data.push((*slot, hex_encode(hash)));
                    assert(next.filter(is_specific()) == seen.filter(is_specific()).push(
                        next.last(),
                    ));
                    assert(data_model(data@) =~= data_model(written).push(
                        entry_of(next.last()),
                    ));
                },
            }
            i += 1;
        }
        assert(self.state@.subrange(0, i as int) =~= self.state@);
        data
    }

    /// Follows the chain to `point`: forgets what a rollback to its slot
    /// undoes, puts `point` at the front, and keeps the history bounded.
    pub fn track(&mut self, point: Point)
        ensures
            final(self)@ == after_track(old(self)@, point@),
            final(self)@.len() > 0 && final(self)@[0] == point@,
            forall|i: int|
                0 <= i < final(self)@.len() ==> (#[trigger] final(self)@[i]).slot()
                    <= point@.slot(),
            old(self).wf() ==> final(self).wf(),
    {
        let ghost before = self.state@;
        let slot = point.slot_or_default();
        let mut kept: VecDeque<Point> = VecDeque::new();
        let ghost mut taken: int = 0;
        proof {
            reveal(Seq::filter);
        }
        while self.state.len() > 0
            invariant
                0 <= taken <= before.len(),
                self.state@ == before.subrange(taken, before.len() as int),
                points_model(kept@) == points_model(before.subrange(0, taken)).filter(
                    is_older(slot),
                ),
            decreases self.state@.len(),
        {
            let ghost seen = points_model(before.subrange(0, taken));
            let ghost next = points_model(before.subrange(0, taken + 1));
            let ghost kept_before = kept@;
            let q = self.state.pop_front().unwrap();
            proof {
                assert(next.drop_last() =~= seen);
                reveal(Seq::filter);
            }
            if q.slot_or_default() < slot {
                kept.push_back(q);
                assert(points_model(kept@) =~= points_model(kept_before).push(q@));
            }
            proof {
                taken = taken + 1;
            }
        }
        proof {
            lemma_after_track(points_model(before), point@);
        }
        let ghost kept_model = points_model(kept@);
        kept.push_front(point);
        assert(points_model(kept@) =~= seq![point@] + kept_model);
        if kept.len() > MAX_BREADCRUMBS {
            kept.pop_back();
        }
        self.state = kept;
    }

    /// The newest point, if the cursor holds any.
    pub fn latest_known_point(&self) -> (r: Option<Point>)
        ensures
            match r {
                Some(p) => self@.len() > 0 && p@ == self@[0],
                None => self@.len() == 0,
            },
    {
        if self.state.len() > 0 {
            Some(self.state[0].clone())
        } else {
            None
        }
    }
}

impl Clone for Breadcrumbs {
    fn clone(&self) -> (b: Breadcrumbs)
        ensures
            b@ == self@,
    {
        Breadcrumbs::from_points(self.to_points())
    }
}

/// Among points whose slots fall strictly, those before a slot still fall
/// strictly, each lies before that slot, and each was there before.
pub proof fn lemma_older_points(points: Seq<PointModel>, slot: u64)
    requires
        strictly_decreasing(points),
    ensures
        strictly_decreasing(points.filter(is_older(slot))),
        points.filter(is_older(slot)).len() <= points.len(),
        forall|i: int|
            0 <= i < points.filter(is_older(slot)).len() ==> (#[trigger] points.filter(
                is_older(slot),
            )[i]).slot() < slot,
    decreases points.len(),
{
    reveal(Seq::filter);
    let kept = points.filter(is_older(slot));
    if points.len() > 0 {
        let front = points.drop_last();
        let kept_front = front.filter(is_older(slot));
        assert forall|i: int, j: int| 0 <= i < j < front.len() implies front[i].slot()
            > front[j].slot() by {
            assert(front[i] == points[i] && front[j] == points[j]);
        }
        assert forall|i: int| 0 <= i < front.len() implies (#[trigger] front[i]).slot()
            > points.last().slot() by {
            assert(front[i] == points[i]);
        }
        lemma_older_points(front, slot);
        lemma_filter_bound(front, slot, points.last().slot());
        assert forall|i: int, j: int| 0 <= i < j < kept.len() implies kept[i].slot()
            > kept[j].slot() by {
            if j < kept_front.len() {
                assert(kept[j] == kept_front[j]);
            } else {
                assert(kept[j] == points.last());
            }
        }
        assert forall|i: int| 0 <= i < kept.len() implies (#[trigger] kept[i]).slot()
            < slot by {
            if i < kept_front.len() {
                assert(kept[i] == kept_front[i]);
            }
        }
    }
}

/// Filtering a sequence whose slots all lie above a bound leaves slots above
/// that bound.
proof fn lemma_filter_bound(points: Seq<PointModel>, slot: u64, bound: u64)
    requires
        forall|i: int| 0 <= i < points.len() ==> (#[trigger] points[i]).slot() > bound,
    ensures
        forall|i: int|
            0 <= i < points.filter(is_older(slot)).len() ==> (#[trigger] points.filter(
                is_older(slot),
            )[i]).slot() > bound,
    decreases points.len(),
{
    reveal(Seq::filter);
    if points.len() > 0 {
        let front = points.drop_last();
        assert forall|i: int| 0 <= i < front.len() implies (#[trigger] front[i]).slot()
            > bound by {
            assert(front[i] == points[i]);
        }
        lemma_filter_bound(front, slot, bound);
        let kept = points.filter(is_older(slot));
        assert forall|i: int| 0 <= i < kept.len() implies (#[trigger] kept[i]).slot()
            > bound by {
            if i < front.filter(is_older(slot)).len() {
                assert(kept[i] == front.filter(is_older(slot))[i]);
            } else {
                assert(kept[i] == points.last());
            }
        }
    }
}

/// Tracking puts the point at the front, leaves no later slot behind it, and
/// keeps a well-formed cursor well formed.
pub proof fn lemma_after_track(points: Seq<PointModel>, point: PointModel)
    ensures
        after_track(points, point).len() > 0,
        after_track(points, point)[0] == point,
        forall|i: int|
            0 <= i < after_track(points, point).len() ==> (#[trigger] after_track(
                points,
                point,
            )[i]).slot() <= point.slot(),
        forall|i: int|
            0 < i < after_track(points, point).len() ==> (#[trigger] after_track(
                points,
                point,
            )[i]).slot() < point.slot(),
        well_formed(points) ==> well_formed(after_track(points, point)),
{
    let kept = points.filter(is_older(point.slot()));
    let grown = seq![point] + kept;
    points.lemma_filter_len(is_older(point.slot()));
    assert forall|i: int| 0 <= i < kept.len() implies (#[trigger] kept[i]).slot()
        < point.slot() by {
        points.lemma_filter_pred(is_older(point.slot()), i);
    }
    assert forall|i: int| 0 < i < grown.len() implies (#[trigger] grown[i]).slot()
        < point.slot() by {
        assert(grown[i] == kept[i - 1]);
    }
    if well_formed(points) {
        lemma_older_points(points, point.slot());
        assert forall|i: int, j: int| 0 <= i < j < grown.len() implies grown[i].slot()
            > grown[j].slot() by {
            if i > 0 {
                assert(grown[i] == kept[i - 1]);
            }
        }
    }
}

/// Reading back what was persisted gives the specific points of the cursor,
/// in order: the whole cursor where it holds no origin.
pub proof fn lemma_persisted_round_trip(points: Seq<PointModel>)
    ensures
        restorable(persisted(points)),
        restored(persisted(points)) == points.filter(is_specific()),
        (forall|i: int| 0 <= i < points.len() ==> points[i] is Specific) ==> restored(
            persisted(points),
        ) == points,
{
    let specific = points.filter(is_specific());
    let data = persisted(points);
    assert forall|i: int| 0 <= i < data.len() implies is_hex_text(#[trigger] data[i].1)
        && restored(data)[i] == specific[i] by {
        points.lemma_filter_pred(is_specific(), i);
        match specific[i] {
            PointModel::Specific(slot, hash) => {
                lemma_hex_round_trip(hash);
            },
            PointModel::Origin => {},
        }
    }
    if forall|i: int| 0 <= i < points.len() ==> points[i] is Specific {
        lemma_all_specific(points);
    }
}

/// A cursor without the origin is its own list of specific points.
proof fn lemma_all_specific(points: Seq<PointModel>)
    requires
        forall|i: int| 0 <= i < points.len() ==> points[i] is Specific,
    ensures
        points.filter(is_specific()) == points,
    decreases points.len(),
{
    reveal(Seq::filter);
    if points.len() > 0 {
        lemma_all_specific(points.drop_last());
    }
}

/// A point that stands at the front and can be persisted stands at the
/// front of what can be persisted.
proof fn lemma_specific_front(points: Seq<PointModel>)
    requires
        points.len() > 0,
        points[0] is Specific,
    ensures
        points.filter(is_specific()).len() > 0,
        points.filter(is_specific())[0] == points[0],
    decreases points.len(),
{
    reveal(Seq::filter);
    if points.len() > 1 {
        let front = points.drop_last();
        lemma_specific_front(front);
    } else {
        assert(points.last() == points[0]);
    }
}

/// Once the cursor has followed the chain to a specific point, what is
/// persisted starts with that point, and reads back with that point at the
/// front.
pub proof fn lemma_persisted_front(points: Seq<PointModel>, point: PointModel)
    requires
        point is Specific,
    ensures
        persisted(after_track(points, point)).len() > 0,
        persisted(after_track(points, point))[0] == entry_of(point),
        restorable(persisted(after_track(points, point))),
        restored(persisted(after_track(points, point)))[0] == point,
{
    let cursor = after_track(points, point);
    lemma_after_track(points, point);
    lemma_specific_front(cursor);
    lemma_persisted_round_trip(cursor);
}

/// The cursor once it has followed the chain through a run of points, one
/// after the other.
pub open spec fn after_run(points: Seq<PointModel>, run: Seq<PointModel>) -> Seq<PointModel>
    decreases run.len(),
{
    if run.len() == 0 {
        points
    } else {
        after_track(after_run(points, run.drop_last()), run.last())
    }
}

/// Whatever points the chain is followed through, a cursor that starts well
/// formed is well formed in every state that it reaches, and after the
/// first step the point followed last stands at its front.
pub proof fn lemma_run_keeps_cursor(points: Seq<PointModel>, run: Seq<PointModel>)
    requires
        well_formed(points),
    ensures
        well_formed(after_run(points, run)),
        run.len() > 0 ==> after_run(points, run).len() > 0 && after_run(points, run)[0]
            == run.last(),
    decreases run.len(),
{
    if run.len() > 0 {
        lemma_run_keeps_cursor(points, run.drop_last());
        lemma_after_track(after_run(points, run.drop_last()), run.last());
    }
}

/// Where the first point is not older than a slot and all behind it are,
/// the older points are all but the first.
proof fn lemma_older_is_tail(points: Seq<PointModel>, slot: u64)
    requires
        points.len() > 0,
        points[0].slot() >= slot,
        forall|i: int| 0 < i < points.len() ==> (#[trigger] points[i]).slot() < slot,
    ensures
        points.filter(is_older(slot)) == points.drop_first(),
    decreases points.len(),
{
    reveal(Seq::filter);
    if points.len() > 1 {
        let front = points.drop_last();
        assert forall|i: int| 0 < i < front.len() implies (#[trigger] front[i]).slot() < slot by {
            assert(front[i] == points[i]);
        }
        lemma_older_is_tail(front, slot);
    } else {
        assert(points.drop_last().filter(is_older(slot)) =~= Seq::<PointModel>::empty());
    }
}

/// Following the chain once more to the point at the front changes
/// nothing: a commit that is tried again leaves a well-formed cursor as it
/// is.
pub proof fn lemma_track_again(points: Seq<PointModel>)
    requires
        well_formed(points),
        points.len() > 0,
    ensures
        after_track(points, points[0]) == points,
{
    lemma_older_is_tail(points, points[0].slot());
}

} // verus!
