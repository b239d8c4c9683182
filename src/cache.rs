//! The entity cache: decodes a transaction's witnesses at most once and answers
//! lookups by script identifier and by cell.
use crate::error::Error;
use crate::witness::{decode_witness, decode_witness_spec, CellRole, Record, TypeScript, WitnessRecord};
use vstd::prelude::*;

verus! {

/// Lifecycle of the cache.
#[derive(Debug, Clone, Copy, PartialEq, Eq, Structural)]
pub enum Phase {
    Uninit,
    Ready,
    Failed,
}

/// The records of all witnesses, or `None` where one of them is malformed.
pub open spec fn decode_all(ws: Seq<Seq<u8>>) -> Option<Seq<Record>>
    decreases ws.len(),
{
    if ws.len() == 0 {
        Some(Seq::empty())
    } else {
        match (decode_all(ws.drop_last()), decode_witness_spec(ws.last())) {
            (Some(rs), Some(r)) => Some(rs.push(r)),
            _ => None,
        }
    }
}

/// The type hash of the first type-id record for `script` at or after `i`.
pub open spec fn type_id_from(recs: Seq<Record>, script: u8, i: int) -> Option<Seq<u8>>
    decreases recs.len() - i,
{
    if i < 0 || i >= recs.len() {
        None
    } else {
        match recs[i] {
            Record::TypeId { script: s, type_hash } => if s == script {
                Some(type_hash)
            } else {
                type_id_from(recs, script, i + 1)
            },
            _ => type_id_from(recs, script, i + 1),
        }
    }
}

/// The first entity record of the cell at `index` in `role`, at or after `i`,
/// as its data type and bytes.
pub open spec fn entity_from(recs: Seq<Record>, role: CellRole, index: u32, i: int) -> Option<
    (u32, Seq<u8>),
>
    decreases recs.len() - i,
{
    if i < 0 || i >= recs.len() {
        None
    } else {
        match recs[i] {
            Record::Entity { role: r, index: x, data_type, entity } => if r == role && x == index {
                Some((data_type, entity))
            } else {
                entity_from(recs, role, index, i + 1)
            },
            _ => entity_from(recs, role, index, i + 1),
        }
    }
}

/// A malformed witness spoils every longer prefix of the list.
proof fn lemma_decode_prefix_fails(ws: Seq<Seq<u8>>, i: int, j: int)
    requires
        0 <= i <= j <= ws.len(),
        decode_all(ws.take(i)) is None,
    ensures
        decode_all(ws.take(j)) is None,
    decreases j - i,
{
    if j > i {
        lemma_decode_prefix_fails(ws, i, j - 1);
        assert(ws.take(j).drop_last() =~= ws.take(j - 1));
    }
}

/// A byte-vector result as a value over sequences.
pub open spec fn bytes_result(r: Result<Vec<u8>, Error>) -> Result<Seq<u8>, Error> {
    match r {
        Ok(v) => Ok(v@),
        Err(e) => Err(e),
    }
}

/// Every type-id record that decoding yields holds a 32-byte type hash.
pub proof fn lemma_decoded_type_hash_len(ws: Seq<Seq<u8>>)
    requires
        decode_all(ws) is Some,
    ensures
        forall|i: int|
            0 <= i < decode_all(ws)->0.len() ==> (#[trigger] decode_all(ws)->0[i] matches Record::TypeId {
                type_hash,
                ..
            } ==> type_hash.len() == 32),
    decreases ws.len(),
{
    if ws.len() > 0 {
        lemma_decoded_type_hash_len(ws.drop_last());
    }
}

/// What a type-id lookup answers on decoded records.
pub open spec fn lookup_type_id(recs: Seq<Record>, ts: TypeScript) -> Result<Seq<u8>, Error> {
    match type_id_from(recs, ts.spec_code(), 0) {
        Some(h) => Ok(h),
        None => Err(Error::TypeIdNotFound(ts)),
    }
}

/// What a cell lookup answers on decoded records.
pub open spec fn lookup_entity(recs: Seq<Record>, role: CellRole, index: u32, data_type: u32) -> Result<
    Seq<u8>,
    Error,
> {
    match entity_from(recs, role, index, 0) {
        None => Err(Error::EntityAbsent),
        Some((t, e)) => if t == data_type {
            Ok(e)
        } else {
            Err(Error::EntityMistyped)
        },
    }
}

/// The cache as a mathematical value.
pub struct CacheModel {
    pub witnesses: Seq<Seq<u8>>,
    pub phase: Phase,
    pub records: Seq<Record>,
    pub parses: nat,
}

impl CacheModel {
    /// The invariant of the cache: a ready cache holds the records of its
    /// witnesses, a failed one has witnesses that do not decode, and the
    /// witnesses have been parsed once exactly when the cache left `Uninit`.
    pub open spec fn wf(self) -> bool {
        &&& (self.phase == Phase::Uninit ==> self.parses == 0)
        &&& (self.phase != Phase::Uninit ==> self.parses == 1)
        &&& (self.phase == Phase::Ready ==> decode_all(self.witnesses) == Some(self.records))
        &&& (self.phase == Phase::Failed ==> decode_all(self.witnesses) is None)
    }

    /// The state after `init`.
    pub open spec fn after_init(self) -> CacheModel {
        if self.phase != Phase::Uninit {
            self
        } else {
            match decode_all(self.witnesses) {
                Some(recs) => CacheModel {
                    witnesses: self.witnesses,
                    phase: Phase::Ready,
                    records: recs,
                    parses: self.parses + 1,
                },
                None => CacheModel {
                    witnesses: self.witnesses,
                    phase: Phase::Failed,
                    records: self.records,
                    parses: self.parses + 1,
                },
            }
        }
    }
}

/// What `init` returns on witnesses `ws`.
pub open spec fn init_result(ws: Seq<Seq<u8>>) -> Result<(), Error> {
    if decode_all(ws) is Some {
        Ok(())
    } else {
        Err(Error::WitnessDecode)
    }
}

/// Initialising a cache a second time changes nothing and answers as the first
/// time did: the decoded records are those of the first call, and the
/// witnesses have been parsed exactly once.
pub proof fn lemma_init_idempotent(m: CacheModel)
    requires
        m.wf(),
        m.phase == Phase::Uninit,
    ensures
        m.after_init().wf(),
        m.after_init().after_init() == m.after_init(),
        m.after_init().parses == 1,
        init_result(m.after_init().witnesses) == init_result(m.witnesses),
{
}

/// The lazily initialised cache of one validation run.
pub struct WitnessesParser {
    witnesses: Vec<Vec<u8>>,
    phase: Phase,
    records: Vec<WitnessRecord>,
    parses: u32,
}

impl View for WitnessesParser {
    type V = CacheModel;

    closed spec fn view(&self) -> CacheModel {
        CacheModel {
            witnesses: self.witnesses@.map_values(|w: Vec<u8>| w@),
            phase: self.phase,
            records: self.records@.map_values(|r: WitnessRecord| r@),
            parses: self.parses as nat,
        }
    }
}

impl WitnessesParser {
    /// A cache over the witnesses of a transaction, not yet parsed.
    pub fn new(witnesses: Vec<Vec<u8>>) -> (r: WitnessesParser)
        ensures
            r@.wf(),
            r@.witnesses == witnesses@.map_values(|w: Vec<u8>| w@),
            r@.phase == Phase::Uninit,
            r@.parses == 0,
    {
        WitnessesParser { witnesses, phase: Phase::Uninit, records: Vec::new(), parses: 0 }
    }

    /// Whether the witnesses have been decoded.
    pub fn is_inited(&self) -> (r: bool)
        ensures
            r == (self@.phase == Phase::Ready),
    {
        self.phase == Phase::Ready
    }

    /// How many times the witnesses have been parsed.
    pub fn parse_count(&self) -> (r: u32)
        ensures
            r as nat == self@.parses,
    {
        self.parses
    }

    /// Decodes the witnesses on the first call; later calls change nothing and
    /// give the first call's answer.
    pub fn init(&mut self) -> (r: Result<(), Error>)
        requires
            old(self)@.wf(),
        ensures
            final(self)@ == old(self)@.after_init(),
            final(self)@.wf(),
            r == init_result(old(self)@.witnesses),
    {
        if self.phase == Phase::Ready {
            return Ok(());
        }
        if self.phase == Phase::Failed {
            return Err(Error::WitnessDecode);
        }
        let ghost ws = self@.witnesses;
        let mut recs: Vec<WitnessRecord> = Vec::new();
        let n = self.witnesses.len();
        let mut i: usize = 0;
        while i < n
            invariant
                n == self.witnesses@.len(),
                self@ == old(self)@,
                self.phase == Phase::Uninit,
                self.parses == 0,
                ws == self.witnesses@.map_values(|w: Vec<u8>| w@),
                i <= n,
                decode_all(ws.take(i as int)) == Some(recs@.map_values(|r: WitnessRecord| r@)),
            decreases n - i,
        {
            assert(ws.take(i as int + 1).drop_last() =~= ws.take(i as int));
            assert(ws.take(i as int + 1).last() == self.witnesses@[i as int]@);
            let ghost prev = recs@.map_values(|r: WitnessRecord| r@);
            match decode_witness(self.witnesses[i].as_slice()) {
                Ok(rec) => {
                    recs.push(rec);
                    assert(recs@.map_values(|r: WitnessRecord| r@) =~= prev.push(rec@));
                },
                Err(_) => {
                    proof {
                        lemma_decode_prefix_fails(ws, i as int + 1, n as int);
                        assert(ws.take(n as int) =~= ws);
                    }
                    self.phase = Phase::Failed;
                    self.parses = 1;
                    return Err(Error::WitnessDecode);
                },
            }
            i = i + 1;
        }
        assert(ws.take(n as int) =~= ws);
        self.phase = Phase::Ready;
        self.records = recs;
        self.parses = 1;
        Ok(())
    }

    /// The type hash of `ts` that the decoded witnesses give.
    pub fn get_type_id(&self, ts: TypeScript) -> (r: Result<Vec<u8>, Error>)
        requires
            self@.wf(),
        ensures
            self@.phase != Phase::Ready ==> r == Err::<Vec<u8>, Error>(Error::ParserNotReady),
            self@.phase == Phase::Ready ==> bytes_result(r) == lookup_type_id(self@.records, ts),
            r matches Ok(h) ==> h@.len() == 32,
    {
        if self.phase != Phase::Ready {
            return Err(Error::ParserNotReady);
        }
        let code = ts.code();
        let ghost recs = self@.records;
        proof {
            lemma_decoded_type_hash_len(self@.witnesses);
        }
        let mut i: usize = 0;
        while i < self.records.len()
            invariant
                recs == self.records@.map_values(|r: WitnessRecord| r@),
                self.phase == Phase::Ready,
                i <= self.records@.len(),
                code == ts.spec_code(),
                forall|j: int|
                    0 <= j < recs.len() ==> (#[trigger] recs[j] matches Record::TypeId {
                        type_hash,
                        ..
                    } ==> type_hash.len() == 32),
                type_id_from(recs, code, 0) == type_id_from(recs, code, i as int),
            decreases self.records@.len() - i,
        {
            assert(recs[i as int] == self.records@[i as int]@);
            match &self.records[i] {
                WitnessRecord::TypeId { script, type_hash } => {
                    if *script == code {
                        return Ok(type_hash.clone());
                    }
                },
                _ => {},
            }
            i = i + 1;
        }
        Err(Error::TypeIdNotFound(ts))
    }

    /// The entity of the cell at `index` in `role`, which must have `data_type`.
    pub fn get_entity_by_cell_meta(&self, role: CellRole, index: u32, data_type: u32) -> (r: Result<
        Vec<u8>,
        Error,
    >)
        requires
            self@.wf(),
        ensures
            self@.phase != Phase::Ready ==> r == Err::<Vec<u8>, Error>(Error::ParserNotReady),
            self@.phase == Phase::Ready ==> bytes_result(r) == lookup_entity(
                self@.records,
                role,
                index,
                data_type,
            ),
    {
        if self.phase != Phase::Ready {
            return Err(Error::ParserNotReady);
        }
        let ghost recs = self@.records;
        let mut i: usize = 0;
        while i < self.records.len()
            invariant
                recs == self.records@.map_values(|r: WitnessRecord| r@),
                self.phase == Phase::Ready,
                i <= self.records@.len(),
                entity_from(recs, role, index, 0) == entity_from(recs, role, index, i as int),
            decreases self.records@.len() - i,
        {
            assert(recs[i as int] == self.records@[i as int]@);
            match &self.records[i] {
                WitnessRecord::Entity { role: r, index: x, data_type: t, entity } => {
                    if *r == role && *x == index {
                        if *t == data_type {
                            return Ok(entity.clone());
                        } else {
                            return Err(Error::EntityMistyped);
                        }
                    }
                },
                _ => {},
            }
            i = i + 1;
        }
        Err(Error::EntityAbsent)
    }
}

} // verus!
