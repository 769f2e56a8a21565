//! Where to start, when to stop, and what the components are built from.

use super::breadcrumbs::data_model;
use super::breadcrumbs::restorable;
use super::breadcrumbs::restored;
use super::breadcrumbs::Breadcrumbs;
use super::hexcode::hex_decode;
use super::hexcode::hex_decoded;
use super::hexcode::hex_encode;
use super::hexcode::hex_encoded;
use super::hexcode::is_hex_text;
use super::point::Point;
use super::point::PointModel;
use super::breadcrumbs::points_model;
use vstd::prelude::*;

verus! {

/// The genesis values of a network.
#[derive(Debug, PartialEq, Eq)]
pub struct GenesisValues {
    pub magic: u64,
    pub network_id: u64,
    pub byron_epoch_length: u32,
    pub byron_slot_length: u32,
    pub byron_known_slot: u64,
    pub byron_known_hash: String,
    pub byron_known_time: u64,
    pub shelley_epoch_length: u32,
    pub shelley_slot_length: u32,
    pub shelley_known_slot: u64,
    pub shelley_known_hash: String,
    pub shelley_known_time: u64,
}

/// The chain to follow: a well-known network, or one given by its genesis
/// values.
#[derive(Debug, PartialEq, Eq)]
pub enum ChainConfig {
    Mainnet,
    Testnet,
    PreProd,
    Preview,
    Custom(GenesisValues),
}

impl Clone for GenesisValues {
    fn clone(&self) -> (g: GenesisValues)
        ensures
            g == *self,
    {
        GenesisValues {
            magic: self.magic,
            network_id: self.network_id,
            byron_epoch_length: self.byron_epoch_length,
            byron_slot_length: self.byron_slot_length,
            byron_known_slot: self.byron_known_slot,
            byron_known_hash: self.byron_known_hash.clone(),
            byron_known_time: self.byron_known_time,
            shelley_epoch_length: self.shelley_epoch_length,
            shelley_slot_length: self.shelley_slot_length,
            shelley_known_slot: self.shelley_known_slot,
            shelley_known_hash: self.shelley_known_hash.clone(),
            shelley_known_time: self.shelley_known_time,
        }
    }
}

impl Clone for ChainConfig {
    fn clone(&self) -> (c: ChainConfig)
        ensures
            c == *self,
    {
        match self {
            ChainConfig::Mainnet => ChainConfig::Mainnet,
            ChainConfig::Testnet => ChainConfig::Testnet,
            ChainConfig::PreProd => ChainConfig::PreProd,
            ChainConfig::Preview => ChainConfig::Preview,
            ChainConfig::Custom(g) => ChainConfig::Custom(g.clone()),
        }
    }
}

impl Default for ChainConfig {
    fn default() -> (c: ChainConfig)
        ensures
            c == ChainConfig::Mainnet,
    {
        ChainConfig::Mainnet
    }
}

/// Where the source starts.
#[derive(Debug, PartialEq, Eq)]
pub enum IntersectConfig {
    /// At the current tip of the chain.
    Tip,
    /// At the genesis.
    Origin,
    /// At one point, given by its slot and the hexadecimal text of its hash.
    Point(u64, String),
    /// At the first of these points that the other side knows.
    Breadcrumbs(Vec<(u64, String)>),
}

/// What an [`IntersectConfig`] stands for.
pub enum IntersectModel {
    Tip,
    Origin,
    Point(u64, Seq<char>),
    Breadcrumbs(Seq<(u64, Seq<char>)>),
}

impl View for IntersectConfig {
    type V = IntersectModel;

    open spec fn view(&self) -> IntersectModel {
        match self {
            IntersectConfig::Tip => IntersectModel::Tip,
            IntersectConfig::Origin => IntersectModel::Origin,
            IntersectConfig::Point(slot, hash) => IntersectModel::Point(*slot, hash@),
            IntersectConfig::Breadcrumbs(all) => IntersectModel::Breadcrumbs(data_model(all@)),
        }
    }
}

impl IntersectModel {
    /// Every hash that the policy names is hexadecimal text.
    pub open spec fn has_valid_hashes(self) -> bool {
        match self {
            IntersectModel::Point(_, hash) => is_hex_text(hash),
            IntersectModel::Breadcrumbs(all) => restorable(all),
            _ => true,
        }
    }

    /// The candidate points of the policy: none for the tip and the origin.
    pub open spec fn points(self) -> Option<Seq<PointModel>> {
        match self {
            IntersectModel::Point(slot, hash) => Some(
                seq![PointModel::Specific(slot, hex_decoded(hash))],
            ),
            IntersectModel::Breadcrumbs(all) => Some(restored(all)),
            _ => None,
        }
    }
}

/// Whether every hash of a persisted list is hexadecimal text.
fn all_hex(data: &Vec<(u64, String)>) -> (ok: bool)
    ensures
        ok == restorable(data_model(data@)),
{
    let mut i: usize = 0;
    while i < data.len()
        invariant
            i <= data@.len(),
            forall|k: int| 0 <= k < i ==> is_hex_text(#[trigger] data_model(data@)[k].1),
        decreases data@.len() - i,
    {
        assert(data_model(data@)[i as int].1 == data@[i as int].1@);
        if hex_decode(data[i].1.as_str()).is_err() {
            return false;
        }
        i += 1;
    }
    true
}

impl Clone for IntersectConfig {
    fn clone(&self) -> (c: IntersectConfig)
        ensures
            c@ == self@,
    {
        match self {
            IntersectConfig::Tip => IntersectConfig::Tip,
            IntersectConfig::Origin => IntersectConfig::Origin,
            IntersectConfig::Point(slot, hash) => IntersectConfig::Point(*slot, hash.clone()),
            IntersectConfig::Breadcrumbs(all) => {
                let mut copy: Vec<(u64, String)> = Vec::new();
                let mut i: usize = 0;
                while i < all.len()
                    invariant
                        i <= all@.len(),
                        copy@.len() == i,
                        forall|k: int|
                            0 <= k < i ==> (#[trigger] copy@[k]).0 == all@[k].0 && copy@[k].1@
                                == all@[k].1@,
                    decreases all@.len() - i,
                {
                    copy.push((all[i].0, all[i].1.clone()));
                    i += 1;
                }
                assert(data_model(copy@) =~= data_model(all@));
                IntersectConfig::Breadcrumbs(copy)
            },
        }
    }
}

impl IntersectConfig {
    /// Whether every hash that the policy names is hexadecimal text.
    pub fn has_valid_hashes(&self) -> (ok: bool)
        ensures
            ok == self@.has_valid_hashes(),
    {
        match self {
            IntersectConfig::Point(_, hash) => hex_decode(hash.as_str()).is_ok(),
            IntersectConfig::Breadcrumbs(all) => all_hex(all),
            _ => true,
        }
    }

    /// The candidate points of the policy, first preferred: none for the
    /// tip and the origin.
    pub fn points(&self) -> (r: Option<Vec<Point>>)
        requires
            self@.has_valid_hashes(),
        ensures
            match r {
                Some(points) => self@.points() == Some(points_model(points@)),
                None => self@.points() is None,
            },
    {
        match self {
            IntersectConfig::Breadcrumbs(all) => {
                let ghost model = data_model(all@);
                let mut mapped: Vec<Point> = Vec::new();
                let mut i: usize = 0;
                while i < all.len()
                    invariant
                        i <= all@.len(),
                        model == data_model(all@),
                        restorable(model),
                        mapped@.len() == i,
                        forall|k: int|
                            0 <= k < i ==> (#[trigger] mapped@[k])@ == PointModel::Specific(
                                model[k].0,
                                hex_decoded(model[k].1),
                            ),
                    decreases all@.len() - i,
                {
                    assert(is_hex_text(model[i as int].1));
                    match hex_decode(all[i].1.as_str()) {
                        Ok(hash) => {
                            mapped.push(Point::Specific(all[i].0, hash));
                        },
                        Err(_) => {
                            assert(false);
                        },
                    }
                    i += 1;
                }
                Some(mapped)
            },
            IntersectConfig::Point(slot, hash) => {
                match hex_decode(hash.as_str()) {
                    Ok(bytes) => {
                        let mut points: Vec<Point> = Vec::new();
                        points.push(Point::Specific(*slot, bytes));
                        assert(points_model(points@) =~= seq![
                            PointModel::Specific(*slot, hex_decoded(hash@)),
                        ]);
                        Some(points)
                    },
                    Err(_) => {
                        assert(false);
                        None
                    },
                }
            },
            _ => None,
        }
    }
}

/// When to stop: after the block with a given hash, or after the first
/// block at or beyond a given slot.
#[derive(Debug, PartialEq, Eq)]
pub struct FinalizeConfig {
    pub until_hash: Option<String>,
    pub max_block_slot: Option<u64>,
}

/// What a [`FinalizeConfig`] stands for.
pub struct FinalizeModel {
    pub until_hash: Option<Seq<char>>,
    pub max_block_slot: Option<u64>,
}

impl View for FinalizeConfig {
    type V = FinalizeModel;

    open spec fn view(&self) -> FinalizeModel {
        FinalizeModel {
            until_hash: match self.until_hash {
                Some(h) => Some(h@),
                None => None,
            },
            max_block_slot: self.max_block_slot,
        }
    }
}

impl Clone for FinalizeConfig {
    fn clone(&self) -> (c: FinalizeConfig)
        ensures
            c@ == self@,
    {
        FinalizeConfig {
            until_hash: match &self.until_hash {
                Some(h) => Some(h.clone()),
                None => None,
            },
            max_block_slot: self.max_block_slot,
        }
    }
}

/// A copy of an optional stop condition.
pub fn clone_finalize(config: &Option<FinalizeConfig>) -> (c: Option<FinalizeConfig>)
    ensures
        finalize_model(c) == finalize_model(*config),
{
    match config {
        Some(f) => Some(f.clone()),
        None => None,
    }
}

impl FinalizeModel {
    /// The point is the block with the awaited hash: the awaited text is
    /// the lower-case hexadecimal form of the hash.
    pub open spec fn hash_reached(self, point: PointModel) -> bool {
        match (self.until_hash, point) {
            (Some(expected), PointModel::Specific(_, hash)) => expected == hex_encoded(hash),
            _ => false,
        }
    }

    /// The point lies at or beyond the last slot to process.
    pub open spec fn slot_reached(self, point: PointModel) -> bool {
        match self.max_block_slot {
            Some(max) => point.slot() >= max,
            None => false,
        }
    }
}

/// What an optional [`FinalizeConfig`] stands for.
pub open spec fn finalize_model(config: Option<FinalizeConfig>) -> Option<FinalizeModel> {
    match config {
        Some(c) => Some(c@),
        None => None,
    }
}

/// Whether the pipeline stops after `point`: a stop condition is set, and
/// the awaited hash or the last slot is reached.
pub open spec fn finalizes(config: Option<FinalizeModel>, point: PointModel) -> bool {
    match config {
        Some(c) => c.hash_reached(point) || c.slot_reached(point),
        None => false,
    }
}

/// Whether the pipeline stops after the point that was committed last.
pub fn should_finalize(config: &Option<FinalizeConfig>, last_point: &Point) -> (stop: bool)
    ensures
        stop == finalizes(finalize_model(*config), last_point@),
{
    let config = match config {
        Some(x) => x,
        None => {
            return false;
        },
    };
    if let Some(expected) = &config.until_hash {
        if let Point::Specific(_, current) = last_point {
            let text = hex_encode(current);
            if *expected == text {
                return true;
            }
        }
    }
    if let Some(max) = config.max_block_slot {
        if last_point.slot_or_default() >= max {
            return true;
        }
    }
    false
}

/// What the components are built from.
#[derive(Debug)]
pub struct Context {
    pub current_dir: String,
    pub chain: ChainConfig,
    pub intersect: IntersectConfig,
    pub cursor: Breadcrumbs,
    pub finalize: Option<FinalizeConfig>,
    pub storage_type: String,
}

} // verus!
