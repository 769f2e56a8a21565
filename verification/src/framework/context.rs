//! The resolved inputs that travel with an enriched block.

use crate::crosscut::policies::RuntimePolicy;
use super::decimal::decimal_text;
use super::decimal::i128_text;
use super::errors::LyraError;
use super::hexcode::hex_encode;
use super::hexcode::hex_encoded;
use vstd::prelude::*;
use vstd::string::StringExecFns;

verus! {

/// The ledger era in which an output was written.
#[derive(Debug, Clone, Copy, PartialEq, Eq, Structural)]
pub enum Era {
    Byron,
    Shelley,
    Allegra,
    Mary,
    Alonzo,
    Babbage,
    Conway,
}

/// What an [`OutputRef`] stands for: the hash of a transaction and the index
/// of one of its outputs.
pub struct OutputRefModel {
    pub tx_hash: Seq<u8>,
    pub index: u64,
}

impl OutputRefModel {
    /// The text by which the output is filed: the hash in hexadecimal, `#`,
    /// the index in decimal.
    pub open spec fn key(self) -> Seq<char> {
        hex_encoded(self.tx_hash) + seq!['#'] + decimal_text(self.index as int)
    }
}

/// A reference to one output of a transaction.
#[derive(Debug, PartialEq, Eq)]
pub struct OutputRef {
    pub tx_hash: Vec<u8>,
    pub index: u64,
}

impl View for OutputRef {
    type V = OutputRefModel;

    open spec fn view(&self) -> OutputRefModel {
        OutputRefModel { tx_hash: self.tx_hash@, index: self.index }
    }
}

impl Clone for OutputRef {
    fn clone(&self) -> (r: OutputRef)
        ensures
            r@ == self@,
    {
        OutputRef { tx_hash: self.tx_hash.clone(), index: self.index }
    }
}

impl OutputRef {
    /// The reference to the output `index` of the transaction `tx_hash`.
    pub fn new(tx_hash: Vec<u8>, index: u64) -> (r: OutputRef)
        ensures
            r@ == (OutputRefModel { tx_hash: tx_hash@, index }),
    {
        OutputRef { tx_hash, index }
    }

    /// The text by which the output is filed.
    pub fn key(&self) -> (text: String)
        ensures
            text@ == self@.key(),
    {
        let mut text = hex_encode(&self.tx_hash);
        text.append("#");
        let index = i128_text(self.index as i128);
        text.append(index.as_str());
        proof {
            reveal_strlit("#");
        }
        text
    }
}

/// One filed output: its key, its era and its bytes.
#[derive(Debug)]
pub struct Utxo {
    pub key: String,
    pub era: Era,
    pub cbor: Vec<u8>,
}

/// The outputs that a list of entries files, a later entry replacing an
/// earlier one of the same key.
pub open spec fn filed(entries: Seq<Utxo>) -> Map<Seq<char>, (Era, Seq<u8>)>
    decreases entries.len(),
{
    if entries.len() == 0 {
        Map::empty()
    } else {
        filed(entries.drop_last()).insert(
            entries.last().key@,
            (entries.last().era, entries.last().cbor@),
        )
    }
}

/// No two entries share a key.
pub open spec fn distinct_keys(entries: Seq<Utxo>) -> bool {
    forall|i: int, j: int| 0 <= i < j < entries.len() ==> entries[i].key@ != entries[j].key@
}

/// One consumed output that was found: its reference, its era, its bytes.
pub type Consumed = (OutputRef, (Era, Vec<u8>));

/// What a list of consumed outputs stands for.
pub open spec fn consumed_model(found: Seq<Consumed>) -> Seq<(OutputRefModel, (Era, Seq<u8>))> {
    found.map_values(|c: Consumed| (c.0@, (c.1.0, c.1.1@)))
}

/// What a list of references stands for.
pub open spec fn refs_model(refs: Seq<OutputRef>) -> Seq<OutputRefModel> {
    refs.map_values(|r: OutputRef| r@)
}

/// The outputs among those referred to that the context holds, in the
/// order of the references.
pub open spec fn found_among(
    ctx: Map<Seq<char>, (Era, Seq<u8>)>,
    refs: Seq<OutputRefModel>,
) -> Seq<(OutputRefModel, (Era, Seq<u8>))>
    decreases refs.len(),
{
    if refs.len() == 0 {
        Seq::empty()
    } else {
        let front = found_among(ctx, refs.drop_last());
        if ctx.contains_key(refs.last().key()) {
            front.push((refs.last(), ctx[refs.last().key()]))
        } else {
            front
        }
    }
}

/// The first reference that the context does not hold, if there is one.
pub open spec fn first_missing(
    ctx: Map<Seq<char>, (Era, Seq<u8>)>,
    refs: Seq<OutputRefModel>,
) -> Option<OutputRefModel>
    decreases refs.len(),
{
    if refs.len() == 0 {
        None
    } else {
        match first_missing(ctx, refs.drop_last()) {
            Some(r) => Some(r),
            None => if ctx.contains_key(refs.last().key()) {
                None
            } else {
                Some(refs.last())
            },
        }
    }
}

/// A reference missing among the first is the first missing of all.
proof fn lemma_missing_stays(
    ctx: Map<Seq<char>, (Era, Seq<u8>)>,
    refs: Seq<OutputRefModel>,
    upto: int,
)
    requires
        0 <= upto <= refs.len(),
        first_missing(ctx, refs.subrange(0, upto)) is Some,
    ensures
        first_missing(ctx, refs) == first_missing(ctx, refs.subrange(0, upto)),
    decreases refs.len() - upto,
{
    if upto < refs.len() {
        let next = refs.subrange(0, upto + 1);
        assert(next.drop_last() =~= refs.subrange(0, upto));
        lemma_missing_stays(ctx, refs, upto + 1);
    } else {
        assert(refs.subrange(0, upto) =~= refs);
    }
}

/// The prior outputs that the inputs of a block consume, each filed under
/// the text of its reference with its era and its bytes.
#[derive(Debug)]
pub struct BlockContext {
    utxos: Vec<Utxo>,
}

impl View for BlockContext {
    type V = Map<Seq<char>, (Era, Seq<u8>)>;

    closed spec fn view(&self) -> Map<Seq<char>, (Era, Seq<u8>)> {
        filed(self.utxos@)
    }
}

/// Every entry is filed under its key with its own era and bytes.
proof fn lemma_filed(entries: Seq<Utxo>)
    requires
        distinct_keys(entries),
    ensures
        forall|i: int|
            0 <= i < entries.len() ==> filed(entries).contains_key(#[trigger] entries[i].key@)
                && filed(entries)[entries[i].key@] == (entries[i].era, entries[i].cbor@),
        forall|k: Seq<char>|
            filed(entries).contains_key(k) ==> exists|i: int|
                0 <= i < entries.len() && #[trigger] entries[i].key@ == k,
    decreases entries.len(),
{
    if entries.len() > 0 {
        let front = entries.drop_last();
        assert forall|i: int, j: int| 0 <= i < j < front.len() implies front[i].key@
            != front[j].key@ by {
            assert(front[i] == entries[i] && front[j] == entries[j]);
        }
        lemma_filed(front);
        assert forall|i: int| 0 <= i < entries.len() implies filed(entries).contains_key(
            #[trigger] entries[i].key@,
        ) && filed(entries)[entries[i].key@] == (entries[i].era, entries[i].cbor@) by {
            if i < front.len() {
                assert(front[i] == entries[i]);
            }
        }
        assert forall|k: Seq<char>| filed(entries).contains_key(k) implies exists|i: int|
            0 <= i < entries.len() && #[trigger] entries[i].key@ == k by {
            if k == entries.last().key@ {
                assert(entries[entries.len() - 1].key@ == k);
            } else {
                assert(filed(front).contains_key(k));
                let i = choose|i: int| 0 <= i < front.len() && #[trigger] front[i].key@ == k;
                assert(entries[i].key@ == k);
            }
        }
    }
}

impl BlockContext {
    #[verifier::type_invariant]
    spec fn inv(self) -> bool {
        distinct_keys(self.utxos@)
    }

    /// The context that holds no output.
    pub fn new() -> (ctx: BlockContext)
        ensures
            ctx@ == Map::<Seq<char>, (Era, Seq<u8>)>::empty(),
    {
        BlockContext { utxos: Vec::new() }
    }

    /// Where the key is filed, if it is.
    fn position(&self, key: &str) -> (r: Option<usize>)
        ensures
            match r {
                Some(i) => i < self.utxos@.len() && self.utxos@[i as int].key@ == key@,
                None => forall|i: int| 0 <= i < self.utxos@.len() ==> self.utxos@[i].key@ != key@,
            },
    {
        let mut i: usize = 0;
        while i < self.utxos.len()
            invariant
                i <= self.utxos@.len(),
                forall|k: int| 0 <= k < i ==> self.utxos@[k].key@ != key@,
            decreases self.utxos@.len() - i,
        {
            if super::json::same_text(self.utxos[i].key.as_str(), key) {
                return Some(i);
            }
            i += 1;
        }
        None
    }

    /// Files an output under the text of its reference, in place of what
    /// was filed there.
    pub fn import_ref_output(&mut self, key: &OutputRef, era: Era, cbor: Vec<u8>)
        ensures
            final(self)@ == old(self)@.insert(key@.key(), (era, cbor@)),
    {
        proof {
            use_type_invariant(&*self);
        }
        let text = key.key();
        let mut taken = BlockContext::new();
        core::mem::swap(self, &mut taken);
        let at = taken.position(text.as_str());
        proof {
            use_type_invariant(&taken);
        }
        let mut utxos = taken.utxos;
        let ghost before = utxos@;
        let ghost filed_after = filed(before).insert(text@, (era, cbor@));
        match at {
            Some(at) => {
                utxos.set(at, Utxo { key: text, era, cbor });
                proof {
                    let after = utxos@;
                    assert forall|i: int, j: int| 0 <= i < j < after.len() implies after[i].key@
                        != after[j].key@ by {
                        assert(after[j].key@ == before[j].key@);
                    }
                    lemma_filed(before);
                    lemma_filed(after);
                    assert forall|k: Seq<char>| filed(after).contains_key(k)
                        == filed_after.contains_key(k) by {
                        if filed(after).contains_key(k) {
                            let i = choose|i: int|
                                0 <= i < after.len() && #[trigger] after[i].key@ == k;
                            assert(before[i].key@ == k);
                        }
                        if filed_after.contains_key(k) && k != text@ {
                            let i = choose|i: int|
                                0 <= i < before.len() && #[trigger] before[i].key@ == k;
                            assert(after[i].key@ == k);
                        }
                        if k == text@ {
                            assert(after[at as int].key@ == k);
                        }
                    }
                    assert forall|k: Seq<char>| filed(after).contains_key(k) implies filed(
                        after,
                    )[k] == filed_after[k] by {
                        let i = choose|i: int|
                            0 <= i < after.len() && #[trigger] after[i].key@ == k;
                        if i != at {
                            assert(before[i].key@ == k);
                        }
                    }
                }
            },
            None => {
                utxos.push(Utxo { key: text, era, cbor });
                proof {
                    let after = utxos@;
                    assert(after.drop_last() =~= before);
                    assert forall|i: int, j: int| 0 <= i < j < after.len() implies after[i].key@
                        != after[j].key@ by {
                        if j < before.len() {
                            assert(after[i] == before[i] && after[j] == before[j]);
                        } else {
                            assert(after[i] == before[i]);
                        }
                    }
                }
            },
        }
        *self = BlockContext { utxos };
    }

    /// The era and bytes filed for an output, or the failure that names the
    /// missing reference.
    pub fn find_utxo(&self, key: &OutputRef) -> (r: Result<(Era, Vec<u8>), LyraError>)
        ensures
            match r {
                Ok((era, cbor)) => self@.contains_key(key@.key()) && self@[key@.key()] == (
                    era,
                    cbor@,
                ),
                Err(e) => !self@.contains_key(key@.key()) && e is MissingUtxo && e->MissingUtxo_0@
                    == key@.key(),
            },
    {
        proof {
            use_type_invariant(self);
            lemma_filed(self.utxos@);
        }
        let text = key.key();
        match self.position(text.as_str()) {
            Some(at) => Ok((self.utxos[at].era, self.utxos[at].cbor.clone())),
            None => Err(LyraError::missing_utxo(text)),
        }
    }

    /// The outputs that a transaction consumes, given the references of
    /// its inputs, in their order. A reference that the context does not
    /// hold is left out where the policy skips missing data, and fails the
    /// whole where it does not.
    pub fn find_consumed_txos(&self, consumes: &Vec<OutputRef>, policy: &RuntimePolicy) -> (r:
        Result<Vec<Consumed>, LyraError>)
        ensures
            match r {
                Ok(found) => consumed_model(found@) == found_among(self@, refs_model(consumes@))
                    && (policy.skips_missing() || first_missing(self@, refs_model(consumes@))
                    is None),
                Err(e) => !policy.skips_missing() && e is MissingUtxo && first_missing(
                    self@,
                    refs_model(consumes@),
                ) is Some && e->MissingUtxo_0@ == first_missing(
                    self@,
                    refs_model(consumes@),
                ).unwrap().key(),
            },
    {
        let ghost all = refs_model(consumes@);
        let skip = policy.skips_missing();
        let mut found: Vec<Consumed> = Vec::new();
        let mut i: usize = 0;
        proof {
            assert(consumed_model(found@) =~= Seq::<(OutputRefModel, (Era, Seq<u8>))>::empty());
        }
        while i < consumes.len()
            invariant
                i <= consumes@.len(),
                all == refs_model(consumes@),
                skip == policy.skips_missing(),
                consumed_model(found@) == found_among(self@, all.subrange(0, i as int)),
                skip || first_missing(self@, all.subrange(0, i as int)) is None,
            decreases consumes@.len() - i,
        {
            let ghost next = all.subrange(0, i + 1);
            let ghost before = consumed_model(found@);
            proof {
                assert(next.drop_last() =~= all.subrange(0, i as int));
            }
            match self.find_utxo(&consumes[i]) {
                Ok(utxo) => {
                    let entry = (consumes[i].clone(), utxo);
                    found.push(entry);
                    assert(consumed_model(found@) =~= before.push(
                        (consumes@[i as int]@, (utxo.0, utxo.1@)),
                    ));
                },
                Err(e) => {
                    if !skip {
                        proof {
                            lemma_missing_stays(self@, all, i + 1);
                        }
                        return Err(e);
                    }
                },
            }
            i += 1;
        }
        proof {
            assert(all.subrange(0, i as int) =~= all);
        }
        Ok(found)
    }

    /// The keys under which outputs are filed, each once.
    pub fn get_all_keys(&self) -> (keys: Vec<String>)
        ensures
            keys@.len() == self@.dom().len(),
            forall|i: int| 0 <= i < keys@.len() ==> self@.contains_key(#[trigger] keys@[i]@),
            forall|k: Seq<char>|
                self@.contains_key(k) ==> exists|i: int|
                    0 <= i < keys@.len() && #[trigger] keys@[i]@ == k,
            forall|i: int, j: int| 0 <= i < j < keys@.len() ==> keys@[i]@ != keys@[j]@,
    {
        proof {
            use_type_invariant(self);
            lemma_filed(self.utxos@);
            lemma_filed_len(self.utxos@);
        }
        let mut keys: Vec<String> = Vec::new();
        let mut i: usize = 0;
        while i < self.utxos.len()
            invariant
                i <= self.utxos@.len(),
                keys@.len() == i,
                forall|k: int| 0 <= k < i ==> (#[trigger] keys@[k])@ == self.utxos@[k].key@,
            decreases self.utxos@.len() - i,
        {
            keys.push(self.utxos[i].key.clone());
            i += 1;
        }
        proof {
            assert forall|k: Seq<char>| self@.contains_key(k) implies exists|i: int|
                0 <= i < keys@.len() && #[trigger] keys@[i]@ == k by {
                let i = choose|i: int|
                    0 <= i < self.utxos@.len() && #[trigger] self.utxos@[i].key@ == k;
                assert(keys@[i]@ == k);
            }
            assert forall|i: int| 0 <= i < keys@.len() implies self@.contains_key(
                #[trigger] keys@[i]@,
            ) by {
                assert(self@.contains_key(self.utxos@[i].key@));
            }
        }
        keys
    }
}

impl Clone for BlockContext {
    fn clone(&self) -> (ctx: BlockContext)
        ensures
            ctx@ == self@,
    {
        proof {
            use_type_invariant(self);
        }
        let mut utxos: Vec<Utxo> = Vec::new();
        let mut i: usize = 0;
        while i < self.utxos.len()
            invariant
                i <= self.utxos@.len(),
                utxos@.len() == i,
                distinct_keys(self.utxos@),
                forall|k: int|
                    0 <= k < i ==> (#[trigger] utxos@[k]).key@ == self.utxos@[k].key@
                        && utxos@[k].era == self.utxos@[k].era && utxos@[k].cbor@
                        == self.utxos@[k].cbor@,
            decreases self.utxos@.len() - i,
        {
            let entry = &self.utxos[i];
            utxos.push(Utxo { key: entry.key.clone(), era: entry.era, cbor: entry.cbor.clone() });
            i += 1;
        }
        proof {
            lemma_same_entries(self.utxos@, utxos@);
        }
        BlockContext { utxos }
    }
}

impl Default for BlockContext {
    fn default() -> (ctx: BlockContext)
        ensures
            ctx@ == Map::<Seq<char>, (Era, Seq<u8>)>::empty(),
    {
        BlockContext::new()
    }
}

/// Lists that agree entry by entry file the same outputs.
proof fn lemma_same_entries(a: Seq<Utxo>, b: Seq<Utxo>)
    requires
        a.len() == b.len(),
        forall|k: int|
            0 <= k < a.len() ==> (#[trigger] b[k]).key@ == a[k].key@ && b[k].era == a[k].era
                && b[k].cbor@ == a[k].cbor@,
    ensures
        filed(a) == filed(b),
        distinct_keys(a) ==> distinct_keys(b),
    decreases a.len(),
{
    if a.len() > 0 {
        assert forall|k: int| 0 <= k < a.drop_last().len() implies (#[trigger] b.drop_last()[k]).key@
            == a.drop_last()[k].key@ && b.drop_last()[k].era == a.drop_last()[k].era
            && b.drop_last()[k].cbor@ == a.drop_last()[k].cbor@ by {
            assert(b.drop_last()[k] == b[k]);
        }
        lemma_same_entries(a.drop_last(), b.drop_last());
    }
    if distinct_keys(a) {
        assert forall|i: int, j: int| 0 <= i < j < b.len() implies b[i].key@ != b[j].key@ by {
            assert(b[i].key@ == a[i].key@ && b[j].key@ == a[j].key@);
        }
    }
}

/// Entries with distinct keys file as many outputs as there are entries.
proof fn lemma_filed_len(entries: Seq<Utxo>)
    requires
        distinct_keys(entries),
    ensures
        filed(entries).dom().finite(),
        filed(entries).dom().len() == entries.len(),
    decreases entries.len(),
{
    if entries.len() > 0 {
        let front = entries.drop_last();
        assert forall|i: int, j: int| 0 <= i < j < front.len() implies front[i].key@
            != front[j].key@ by {
            assert(front[i] == entries[i] && front[j] == entries[j]);
        }
        lemma_filed_len(front);
        lemma_filed(front);
        if filed(front).contains_key(entries.last().key@) {
            let i = choose|i: int|
                0 <= i < front.len() && #[trigger] front[i].key@ == entries.last().key@;
            assert(front[i] == entries[i]);
            assert(entries[i].key@ != entries[entries.len() - 1].key@);
        }
    } else {
        assert(filed(entries).dom() =~= Set::<Seq<char>>::empty());
    }
}

} // verus!
