//! The mutations that project headers, entries and operations into persisted
//! rows, and that keep the books of each operation.
//!
//! Every mutation works on the transaction that it is handed and on nothing
//! else; whether the transaction is committed or rolled back is the caller's
//! decision. A mutation that fails leaves the transaction as it was.
//!
//! Rows are keyed by content: writing a row under a key that holds a row
//! already changes nothing.

use vstd::prelude::*;
use crate::dht_op::DhtOpHashed;
use crate::dht_op::DhtOpHashedView;
use crate::dht_op::DhtOpLight;
use crate::dht_op::OpOrder;
use crate::element::Element;
use crate::element::ElementView;
use crate::element::EntryHashed;
use crate::element::EntryHashedView;
use crate::element::HeaderHashed;
use crate::element::HeaderHashedView;
use crate::element::SignedHeaderHashed;
use crate::element::SignedHeaderHashedView;
use crate::error::DhtOpError;
use crate::error::DhtOpErrorView;
use crate::error::ErrorKind;
use crate::hash::blake2b_256;
use crate::hash::content_hash;
use crate::hash::AnyDhtHash;
use crate::hash::DhtOpHash;
use crate::hash::DnaHash;
use crate::hash::HeaderHash;
use crate::hash::HoloHash;
use crate::hash::WasmHash;
use crate::header::Timestamp;
use crate::ord_map::OrdMap;
use crate::order::Ordered;
use crate::rows::entry_row;
use crate::rows::entry_row_of;
use crate::rows::header_row;
use crate::rows::header_row_of;
use crate::rows::op_row;
use crate::rows::op_row_of;
use crate::rows::DhtOpRow;
use crate::rows::DhtOpRowView;
use crate::rows::EntryRow;
use crate::rows::EntryRowView;
use crate::rows::HeaderRow;
use crate::rows::HeaderRowView;
use crate::rows::ReceiptRow;
use crate::rows::ReceiptRowView;
use crate::scratch::Scratch;
use crate::scratch::ScratchView;
use crate::validation::ValidationLimboStatus;
use crate::validation::ValidationLimboStatusView;
use crate::validation::ValidationStatus;

verus! {

/// Why the storage refused a mutation.
#[derive(Debug, PartialEq, Eq)]
pub enum DatabaseError {
    /// A counter of the operation stands at the greatest number it can hold.
    CounterOverflow(DhtOpHash),
}

/// Why a mutation failed.
#[derive(Debug, PartialEq, Eq)]
pub enum StateMutationError {
    /// The operation does not fit together.
    DhtOp(DhtOpError),
    /// The storage failed.
    Database(DatabaseError),
}

pub ghost enum StateMutationErrorView {
    DhtOp(DhtOpErrorView),
    CounterOverflow(Seq<u8>),
}

impl View for StateMutationError {
    type V = StateMutationErrorView;

    open spec fn view(&self) -> StateMutationErrorView {
        match *self {
            StateMutationError::DhtOp(e) => StateMutationErrorView::DhtOp(e@),
            StateMutationError::Database(DatabaseError::CounterOverflow(hash)) => {
                StateMutationErrorView::CounterOverflow(hash@)
            },
        }
    }
}

impl StateMutationError {
    /// The class of the failure.
    pub fn kind(&self) -> (kind: ErrorKind)
        ensures
            kind == match self@ {
                StateMutationErrorView::DhtOp(e) => e.kind(),
                StateMutationErrorView::CounterOverflow(_) => ErrorKind::Database,
            },
    {
        match self {
            StateMutationError::DhtOp(e) => e.kind(),
            StateMutationError::Database(_) => ErrorKind::Database,
        }
    }
}

pub type StateMutationResult<T> = Result<T, StateMutationError>;

/// The tables of a store, as a transaction sees them.
pub ghost struct TablesView {
    pub headers: Map<Seq<u8>, HeaderRowView>,
    pub entries: Map<Seq<u8>, EntryRowView>,
    pub ops: Map<Seq<u8>, DhtOpRowView>,
    pub receipts: Map<Seq<u8>, ReceiptRowView>,
    pub wasms: Map<Seq<u8>, Seq<u8>>,
    pub dna_defs: Map<Seq<u8>, Seq<u8>>,
    pub entry_defs: Map<Seq<u8>, Seq<u8>>,
    pub conductor_state: Option<Seq<u8>>,
}

/// The views of the rows of a table, by key.
pub open spec fn rows_view<KV, R: View>(rows: Map<KV, R>) -> Map<KV, R::V> {
    Map::new(|k: KV| rows.contains_key(k), |k: KV| rows[k]@)
}

/// The table after a row was written under a key: a key that holds a row
/// keeps it.
pub open spec fn put_new<KV, RV>(table: Map<KV, RV>, key: KV, row: RV) -> Map<KV, RV> {
    if table.contains_key(key) {
        table
    } else {
        table.insert(key, row)
    }
}

/// Writes a row under a key, unless the key holds a row already.
pub fn put_row<K: Ordered, R: View>(table: &mut OrdMap<K, R>, key: K, row: R)
    requires
        old(table).well_formed(),
    ensures
        final(table).well_formed(),
        rows_view(final(table)@) == put_new(rows_view(old(table)@), key@, row@),
{
    if !table.contains_key(&key) {
        table.insert(key, row);
        assert(rows_view(table@) =~= put_new(rows_view(old(table)@), key@, row@));
    }
}

/// The tables of a store within one transaction.
#[derive(Debug, PartialEq, Eq)]
pub struct Transaction {
    headers: OrdMap<HoloHash, HeaderRow>,
    entries: OrdMap<HoloHash, EntryRow>,
    ops: OrdMap<HoloHash, DhtOpRow>,
    receipts: OrdMap<Vec<u8>, ReceiptRow>,
    wasms: OrdMap<HoloHash, Vec<u8>>,
    dna_defs: OrdMap<HoloHash, Vec<u8>>,
    entry_defs: OrdMap<Vec<u8>, Vec<u8>>,
    conductor_state: Option<Vec<u8>>,
}

impl View for Transaction {
    type V = TablesView;

    closed spec fn view(&self) -> TablesView {
        TablesView {
            headers: rows_view(self.headers@),
            entries: rows_view(self.entries@),
            ops: rows_view(self.ops@),
            receipts: rows_view(self.receipts@),
            wasms: rows_view(self.wasms@),
            dna_defs: rows_view(self.dna_defs@),
            entry_defs: rows_view(self.entry_defs@),
            conductor_state: match self.conductor_state {
                Some(bytes) => Some(bytes@),
                None => None,
            },
        }
    }
}

/// The tables without rows.
pub open spec fn empty_tables() -> TablesView {
    TablesView {
        headers: Map::empty(),
        entries: Map::empty(),
        ops: Map::empty(),
        receipts: Map::empty(),
        wasms: Map::empty(),
        dna_defs: Map::empty(),
        entry_defs: Map::empty(),
        conductor_state: None,
    }
}

impl Transaction {
    /// Every table holds its rows in ascending order of their keys.
    pub closed spec fn well_formed(&self) -> bool {
        &&& self.headers.well_formed()
        &&& self.entries.well_formed()
        &&& self.ops.well_formed()
        &&& self.receipts.well_formed()
        &&& self.wasms.well_formed()
        &&& self.dna_defs.well_formed()
        &&& self.entry_defs.well_formed()
    }

    /// A transaction on a store without rows.
    pub fn new() -> (txn: Self)
        ensures
            txn.well_formed(),
            txn@ == empty_tables(),
    {
        let txn = Transaction {
            headers: OrdMap::new(),
            entries: OrdMap::new(),
            ops: OrdMap::new(),
            receipts: OrdMap::new(),
            wasms: OrdMap::new(),
            dna_defs: OrdMap::new(),
            entry_defs: OrdMap::new(),
            conductor_state: None,
        };
        assert(txn@.headers =~= Map::<Seq<u8>, HeaderRowView>::empty());
        assert(txn@.entries =~= Map::<Seq<u8>, EntryRowView>::empty());
        assert(txn@.ops =~= Map::<Seq<u8>, DhtOpRowView>::empty());
        assert(txn@.receipts =~= Map::<Seq<u8>, ReceiptRowView>::empty());
        assert(txn@.wasms =~= Map::<Seq<u8>, Seq<u8>>::empty());
        assert(txn@.dna_defs =~= Map::<Seq<u8>, Seq<u8>>::empty());
        assert(txn@.entry_defs =~= Map::<Seq<u8>, Seq<u8>>::empty());
        txn
    }

    /// The row of the header with the given address, if there is one.
    pub fn header(&self, hash: &HeaderHash) -> (row: Option<&HeaderRow>)
        requires
            self.well_formed(),
        ensures
            match row {
                Some(r) => self@.headers.contains_key(hash@) && r@ == self@.headers[hash@],
                None => !self@.headers.contains_key(hash@),
            },
    {
        self.headers.get(hash)
    }

    /// The row of the entry with the given address, if there is one.
    pub fn entry(&self, hash: &HoloHash) -> (row: Option<&EntryRow>)
        requires
            self.well_formed(),
        ensures
            match row {
                Some(r) => self@.entries.contains_key(hash@) && r@ == self@.entries[hash@],
                None => !self@.entries.contains_key(hash@),
            },
    {
        self.entries.get(hash)
    }

    /// The row of the operation with the given address, if there is one.
    pub fn op(&self, hash: &DhtOpHash) -> (row: Option<&DhtOpRow>)
        requires
            self.well_formed(),
        ensures
            match row {
                Some(r) => self@.ops.contains_key(hash@) && r@ == self@.ops[hash@],
                None => !self@.ops.contains_key(hash@),
            },
    {
        self.ops.get(hash)
    }

    /// The row of the validation receipt with the given hash, if there is one.
    pub fn receipt(&self, hash: &Vec<u8>) -> (row: Option<&ReceiptRow>)
        requires
            self.well_formed(),
        ensures
            match row {
                Some(r) => self@.receipts.contains_key(hash@) && r@ == self@.receipts[hash@],
                None => !self@.receipts.contains_key(hash@),
            },
    {
        self.receipts.get(hash)
    }

    /// The zome code stored under the given address, if there is any.
    pub fn wasm(&self, hash: &WasmHash) -> (blob: Option<&Vec<u8>>)
        requires
            self.well_formed(),
        ensures
            match blob {
                Some(b) => self@.wasms.contains_key(hash@) && b@ == self@.wasms[hash@],
                None => !self@.wasms.contains_key(hash@),
            },
    {
        self.wasms.get(hash)
    }

    /// The DNA definition stored under the given address, if there is one.
    pub fn dna_def(&self, hash: &DnaHash) -> (blob: Option<&Vec<u8>>)
        requires
            self.well_formed(),
        ensures
            match blob {
                Some(b) => self@.dna_defs.contains_key(hash@) && b@ == self@.dna_defs[hash@],
                None => !self@.dna_defs.contains_key(hash@),
            },
    {
        self.dna_defs.get(hash)
    }

    /// The entry definition stored under the given key, if there is one.
    pub fn entry_def(&self, key: &Vec<u8>) -> (blob: Option<&Vec<u8>>)
        requires
            self.well_formed(),
        ensures
            match blob {
                Some(b) => self@.entry_defs.contains_key(key@) && b@ == self@.entry_defs[key@],
                None => !self@.entry_defs.contains_key(key@),
            },
    {
        self.entry_defs.get(key)
    }

    /// The state of the conductor, if one was stored.
    pub fn conductor_state(&self) -> (blob: Option<&Vec<u8>>)
        ensures
            match blob {
                Some(b) => self@.conductor_state == Some(b@),
                None => self@.conductor_state is None,
            },
    {
        self.conductor_state.as_ref()
    }
}

/// Whether an operation carries an entry although its header declares none.
pub open spec fn has_stray_entry(op: DhtOpHashedView) -> bool {
    op.content.entry() is Some && op.content.header().entry_hash() is None
}

/// The header of an operation, signed and hashed, given the address of the header.
pub open spec fn signed_header_of(op: DhtOpHashedView, header_hash: Seq<u8>) -> SignedHeaderHashedView {
    SignedHeaderHashedView {
        header: HeaderHashedView { content: op.content.header(), hash: header_hash },
        signature: op.content.signature(),
    }
}

/// The entry of an operation under the address that the header declares.
pub open spec fn entry_of(op: DhtOpHashedView) -> EntryHashedView {
    EntryHashedView {
        content: op.content.entry()->Some_0,
        hash: op.content.header().entry_hash()->Some_0,
    }
}

/// The scratch after the header and the entry of an operation were staged.
pub open spec fn scratch_with_op(
    scratch: ScratchView,
    op: DhtOpHashedView,
    header_hash: Seq<u8>,
) -> ScratchView {
    ScratchView {
        headers: scratch.headers.push(signed_header_of(op, header_hash)),
        entries: if op.content.entry() is Some {
            scratch.entries.insert(entry_of(op).hash, entry_of(op).content)
        } else {
            scratch.entries
        },
    }
}

/// Stages the header of an operation, and its entry if it carries one.
/// `header_hash` is the address of the header. Fails, and stages nothing, for
/// an operation that carries an entry although its header declares none.
pub fn insert_op_scratch(scratch: &mut Scratch, op: DhtOpHashed, header_hash: HeaderHash) -> (result:
    StateMutationResult<()>)
    requires
        old(scratch).well_formed(),
    ensures
        final(scratch).well_formed(),
        match result {
            Ok(()) => !has_stray_entry(op@) && final(scratch)@ == scratch_with_op(
                old(scratch)@,
                op@,
                header_hash@,
            ),
            Err(e) => has_stray_entry(op@) && final(scratch)@ == old(scratch)@ && e@ == (
            StateMutationErrorView::DhtOp(
                DhtOpErrorView::HeaderWithoutEntry(op@.content.header()),
            )),
        },
{
    let (op, _) = op.into_inner();
    let header = op.header();
    let signature = op.signature().clone();
    match op.entry() {
        Some(entry) => {
            let entry_hash = match header.entry_hash() {
                Some(hash) => hash.clone(),
                None => {
                    return Err(StateMutationError::DhtOp(DhtOpError::HeaderWithoutEntry(header)));
                },
            };
            scratch.add_entry(EntryHashed::with_pre_hashed(entry.clone(), entry_hash));
        },
        None => {},
    }
    let header_hashed = HeaderHashed::with_pre_hashed(header, header_hash);
    scratch.add_header(SignedHeaderHashed::with_presigned(header_hashed, signature));
    Ok(())
}

/// The scratch after the header and the entry of an element were staged. The
/// entry is staged under the address that the header declares; where the
/// header declares none, there is no entry to stage.
pub open spec fn scratch_with_element(scratch: ScratchView, element: ElementView) -> ScratchView {
    ScratchView {
        headers: scratch.headers.push(element.signed_header),
        entries: match (element.entry, element.signed_header.header.content.entry_hash()) {
            (Some(entry), Some(hash)) => scratch.entries.insert(hash, entry),
            _ => scratch.entries,
        },
    }
}

/// Stages the header of an element, and its entry if it has one.
pub fn insert_element_scratch(scratch: &mut Scratch, element: Element)
    requires
        old(scratch).well_formed(),
    ensures
        final(scratch).well_formed(),
        final(scratch)@ == scratch_with_element(old(scratch)@, element@),
{
    let (header, entry) = element.into_inner();
    let entry_hash = match header.header().entry_hash() {
        Some(hash) => Some(hash.clone()),
        None => None,
    };
    scratch.add_header(header);
    match (entry, entry_hash) {
        (Some(entry), Some(hash)) => {
            scratch.add_entry(EntryHashed::with_pre_hashed(entry, hash));
        },
        _ => {},
    }
}

/// The tables after an operation was written: the row of its entry, if it
/// carries one, the row of its header, and its own row.
pub open spec fn tables_with_op(
    tables: TablesView,
    op: DhtOpHashedView,
    header_hash: Seq<u8>,
    basis: Seq<u8>,
    is_authored: bool,
) -> TablesView {
    let header = op.content.header();
    TablesView {
        entries: if op.content.entry() is Some {
            put_new(tables.entries, entry_of(op).hash, entry_row_of(entry_of(op)))
        } else {
            tables.entries
        },
        headers: put_new(
            tables.headers,
            header_hash,
            header_row_of(signed_header_of(op, header_hash)),
        ),
        ops: put_new(
            tables.ops,
            op.hash,
            op_row_of(
                op.content.to_light(header_hash, basis),
                op.hash,
                is_authored,
                OpOrder { order: op.content.get_type().spec_rank(), timestamp: header.timestamp() },
                header.timestamp(),
            ),
        ),
        ..tables
    }
}

/// Writes an operation: the row of its entry, if it carries one, the row of
/// its header, and its own row with the basis and its place in the order of
/// processing. `header_hash` is the address of the header and `basis` the
/// resolved basis of the operation. Fails, and writes nothing, for an
/// operation that carries an entry although its header declares none.
pub fn insert_op(
    txn: &mut Transaction,
    op: DhtOpHashed,
    header_hash: HeaderHash,
    basis: AnyDhtHash,
    is_authored: bool,
) -> (result: StateMutationResult<()>)
    requires
        old(txn).well_formed(),
    ensures
        final(txn).well_formed(),
        match result {
            Ok(()) => !has_stray_entry(op@) && final(txn)@ == tables_with_op(
                old(txn)@,
                op@,
                header_hash@,
                basis@,
                is_authored,
            ),
            Err(e) => has_stray_entry(op@) && final(txn)@ == old(txn)@ && e@ == (
            StateMutationErrorView::DhtOp(
                DhtOpErrorView::HeaderWithoutEntry(op@.content.header()),
            )),
        },
{
    let (op, hash) = op.into_inner();
    let header = op.header();
    let timestamp = header.timestamp();
    let signature = op.signature().clone();
    let op_light = op.to_light(header_hash.clone(), basis);
    match op.entry() {
        Some(entry) => {
            let entry_hash = match header.entry_hash() {
                Some(hash) => hash.clone(),
                None => {
                    return Err(StateMutationError::DhtOp(DhtOpError::HeaderWithoutEntry(header)));
                },
            };
            let _ = insert_entry(txn, EntryHashed::with_pre_hashed(entry.clone(), entry_hash));
        },
        None => {},
    }
    let header_hashed = HeaderHashed::with_pre_hashed(header, header_hash);
    let header_hashed = SignedHeaderHashed::with_presigned(header_hashed, signature);
    let op_order = OpOrder::new(op_light.get_type(), timestamp);
    let _ = insert_header(txn, header_hashed);
    let _ = insert_op_lite(txn, op_light, hash, is_authored, op_order, timestamp);
    Ok(())
}

/// Writes the row of an operation in its light form.
pub fn insert_op_lite(
    txn: &mut Transaction,
    op_lite: DhtOpLight,
    hash: DhtOpHash,
    is_authored: bool,
    order: OpOrder,
    timestamp: Timestamp,
) -> (result: StateMutationResult<()>)
    requires
        old(txn).well_formed(),
    ensures
        final(txn).well_formed(),
        result is Ok,
        final(txn)@ == (TablesView {
            ops: put_new(
                old(txn)@.ops,
                hash@,
                op_row_of(op_lite@, hash@, is_authored, order, timestamp),
            ),
            ..old(txn)@
        }),
{
    let key = hash.clone();
    put_row(&mut txn.ops, key, op_row(op_lite, hash, is_authored, order, timestamp));
    Ok(())
}

/// The row of a validation receipt that is a receipt for the operation
/// `op_hash` and is encoded as `receipt`.
pub open spec fn receipt_row_of(op_hash: Seq<u8>, receipt: Seq<u8>) -> ReceiptRowView {
    ReceiptRowView { hash: content_hash(receipt), op_hash, blob: receipt }
}

/// Writes a validation receipt, given in its encoded form, under the hash of
/// that form.
pub fn insert_validation_receipt(txn: &mut Transaction, op_hash: DhtOpHash, receipt: Vec<u8>) -> (result:
    StateMutationResult<()>)
    requires
        old(txn).well_formed(),
    ensures
        final(txn).well_formed(),
        result is Ok,
        final(txn)@ == (TablesView {
            receipts: put_new(
                old(txn)@.receipts,
                content_hash(receipt@),
                receipt_row_of(op_hash@, receipt@),
            ),
            ..old(txn)@
        }),
{
    let hash = blake2b_256(&receipt);
    let key = hash.clone();
    put_row(&mut txn.receipts, key, ReceiptRow { hash, op_hash, blob: receipt });
    Ok(())
}

/// Writes compiled zome code under its address.
pub fn insert_wasm(txn: &mut Transaction, hash: WasmHash, code: Vec<u8>) -> (result:
    StateMutationResult<()>)
    requires
        old(txn).well_formed(),
    ensures
        final(txn).well_formed(),
        result is Ok,
        final(txn)@ == (TablesView {
            wasms: put_new(old(txn)@.wasms, hash@, code@),
            ..old(txn)@
        }),
{
    put_row(&mut txn.wasms, hash, code);
    Ok(())
}

/// Writes an encoded DNA definition under its address.
pub fn insert_dna_def(txn: &mut Transaction, hash: DnaHash, dna_def: Vec<u8>) -> (result:
    StateMutationResult<()>)
    requires
        old(txn).well_formed(),
    ensures
        final(txn).well_formed(),
        result is Ok,
        final(txn)@ == (TablesView {
            dna_defs: put_new(old(txn)@.dna_defs, hash@, dna_def@),
            ..old(txn)@
        }),
{
    put_row(&mut txn.dna_defs, hash, dna_def);
    Ok(())
}

/// Writes an encoded entry definition under its key.
pub fn insert_entry_def(txn: &mut Transaction, key: Vec<u8>, entry_def: Vec<u8>) -> (result:
    StateMutationResult<()>)
    requires
        old(txn).well_formed(),
    ensures
        final(txn).well_formed(),
        result is Ok,
        final(txn)@ == (TablesView {
            entry_defs: put_new(old(txn)@.entry_defs, key@, entry_def@),
            ..old(txn)@
        }),
{
    put_row(&mut txn.entry_defs, key, entry_def);
    Ok(())
}

/// Writes the encoded state of the conductor. There is one such row, and the
/// state written last stands in it.
pub fn insert_conductor_state(txn: &mut Transaction, bytes: Vec<u8>) -> (result: StateMutationResult<
    (),
>)
    ensures
        old(txn).well_formed() ==> final(txn).well_formed(),
        result is Ok,
        final(txn)@ == (TablesView { conductor_state: Some(bytes@), ..old(txn)@ }),
{
    txn.conductor_state = Some(bytes);
    Ok(())
}

/// The table of operations after the row under `hash`, if there is one, was
/// replaced by `row`.
pub open spec fn with_row(
    ops: Map<Seq<u8>, DhtOpRowView>,
    hash: Seq<u8>,
    row: DhtOpRowView,
) -> Map<Seq<u8>, DhtOpRowView> {
    if ops.contains_key(hash) {
        ops.insert(hash, row)
    } else {
        ops
    }
}

/// The operations after the verdict of validation on one of them was recorded.
pub open spec fn status_set(
    ops: Map<Seq<u8>, DhtOpRowView>,
    hash: Seq<u8>,
    status: ValidationStatus,
) -> Map<Seq<u8>, DhtOpRowView> {
    with_row(ops, hash, DhtOpRowView { validation_status: Some(status), ..ops[hash] })
}

/// The operations after it was recorded whether a receipt is required of one of them.
pub open spec fn receipt_required(
    ops: Map<Seq<u8>, DhtOpRowView>,
    hash: Seq<u8>,
    require_receipt: bool,
) -> Map<Seq<u8>, DhtOpRowView> {
    with_row(ops, hash, DhtOpRowView { require_receipt, ..ops[hash] })
}

/// The operations after the time of the integration of one of them was recorded.
pub open spec fn integrated_at(
    ops: Map<Seq<u8>, DhtOpRowView>,
    hash: Seq<u8>,
    time: Timestamp,
) -> Map<Seq<u8>, DhtOpRowView> {
    with_row(ops, hash, DhtOpRowView { when_integrated: Some(time), ..ops[hash] })
}

/// The operations after the time at which one of them was last published was recorded.
pub open spec fn published_at(
    ops: Map<Seq<u8>, DhtOpRowView>,
    hash: Seq<u8>,
    unix_epoch_secs: u64,
) -> Map<Seq<u8>, DhtOpRowView> {
    with_row(ops, hash, DhtOpRowView { last_publish_time: Some(unix_epoch_secs), ..ops[hash] })
}

/// The operations after the number of receipts of one of them was set.
pub open spec fn receipts_set(
    ops: Map<Seq<u8>, DhtOpRowView>,
    hash: Seq<u8>,
    count: u32,
) -> Map<Seq<u8>, DhtOpRowView> {
    with_row(ops, hash, DhtOpRowView { receipt_count: Some(count), ..ops[hash] })
}

/// The operations after one more receipt of one of them was counted.
pub open spec fn receipt_added(ops: Map<Seq<u8>, DhtOpRowView>, hash: Seq<u8>) -> Map<
    Seq<u8>,
    DhtOpRowView,
> {
    with_row(
        ops,
        hash,
        DhtOpRowView {
            receipt_count: Some(next_count(ops[hash].receipt_count) as u32),
            ..ops[hash]
        },
    )
}

/// The operations after an attempt at validation, made at `now`, left one of
/// them at the given stage.
pub open spec fn stage_set(
    ops: Map<Seq<u8>, DhtOpRowView>,
    hash: Seq<u8>,
    status: ValidationLimboStatusView,
    now: Timestamp,
) -> Map<Seq<u8>, DhtOpRowView> {
    with_row(ops, hash, row_at_stage(ops[hash], status, now))
}

/// Records the verdict of validation on an operation. Nothing changes if
/// there is no such operation.
pub fn set_validation_status(txn: &mut Transaction, hash: DhtOpHash, status: ValidationStatus) -> (result:
    StateMutationResult<()>)
    requires
        old(txn).well_formed(),
    ensures
        final(txn).well_formed(),
        result is Ok,
        final(txn)@ == (TablesView {
            ops: status_set(old(txn)@.ops, hash@, status),
            ..old(txn)@
        }),
{
    match txn.ops.remove(&hash) {
        None => {
            assert(txn@.ops =~= old(txn)@.ops);
        },
        Some(row) => {
            let mut row = row;
            row.validation_status = Some(status);
            txn.ops.insert(hash, row);
            assert(txn@.ops =~= old(txn)@.ops.insert(hash@, row@));
        },
    }
    Ok(())
}

/// Records whether a receipt is required of an operation. Nothing changes if
/// there is no such operation.
pub fn set_require_receipt(txn: &mut Transaction, hash: DhtOpHash, require_receipt: bool) -> (result:
    StateMutationResult<()>)
    requires
        old(txn).well_formed(),
    ensures
        final(txn).well_formed(),
        result is Ok,
        final(txn)@ == (TablesView {
            ops: receipt_required(old(txn)@.ops, hash@, require_receipt),
            ..old(txn)@
        }),
{
    match txn.ops.remove(&hash) {
        None => {
            assert(txn@.ops =~= old(txn)@.ops);
        },
        Some(row) => {
            let mut row = row;
            row.require_receipt = require_receipt;
            txn.ops.insert(hash, row);
            assert(txn@.ops =~= old(txn)@.ops.insert(hash@, row@));
        },
    }
    Ok(())
}

/// The number that follows a counter; an empty counter counts as 0.
pub open spec fn next_count(count: Option<u32>) -> int {
    match count {
        Some(n) => n + 1,
        None => 1,
    }
}

/// The row of an operation after one more attempt at validation, made at
/// `now`, left it at the given stage.
pub open spec fn row_at_stage(
    row: DhtOpRowView,
    status: ValidationLimboStatusView,
    now: Timestamp,
) -> DhtOpRowView {
    DhtOpRowView {
        num_validation_attempts: Some(next_count(row.num_validation_attempts) as u32),
        last_validation_attempt: Some(now),
        validation_stage: status.stage(),
        ..row
    }
}

/// Whether the operation exists and one of its counters cannot count further.
pub open spec fn attempts_exhausted(ops: Map<Seq<u8>, DhtOpRowView>, hash: Seq<u8>) -> bool {
    ops.contains_key(hash) && next_count(ops[hash].num_validation_attempts) > u32::MAX
}

/// Records the stage at which an attempt at validation, made at `now`, left
/// an operation: the stage is stored, the attempts are counted, and the time
/// of the attempt is kept. Nothing changes if there is no such operation.
/// Fails, and changes nothing, if the attempts cannot be counted further.
pub fn set_validation_stage(
    txn: &mut Transaction,
    hash: DhtOpHash,
    status: ValidationLimboStatus,
    now: Timestamp,
) -> (result: StateMutationResult<()>)
    requires
        old(txn).well_formed(),
    ensures
        final(txn).well_formed(),
        match result {
            Ok(()) => !attempts_exhausted(old(txn)@.ops, hash@) && final(txn)@ == (TablesView {
                ops: stage_set(old(txn)@.ops, hash@, status@, now),
                ..old(txn)@
            }),
            Err(e) => attempts_exhausted(old(txn)@.ops, hash@) && final(txn)@ == old(txn)@ && e@
                == StateMutationErrorView::CounterOverflow(hash@),
        },
{
    let stage = status.stage();
    match txn.ops.remove(&hash) {
        None => {
            assert(txn@.ops =~= old(txn)@.ops);
            Ok(())
        },
        Some(row) => {
            let mut row = row;
            let ghost before = row@;
            let attempts = match row.num_validation_attempts {
                Some(n) => n,
                None => 0,
            };
            if attempts == u32::MAX {
                let key = hash.clone();
                txn.ops.insert(key, row);
                assert(txn@.ops =~= old(txn)@.ops);
                return Err(StateMutationError::Database(DatabaseError::CounterOverflow(hash)));
            }
            row.num_validation_attempts = Some(attempts + 1);
            row.last_validation_attempt = Some(now);
            row.validation_stage = stage;
            txn.ops.insert(hash, row);
            assert(txn@.ops =~= old(txn)@.ops.insert(hash@, row_at_stage(before, status@, now)));
            Ok(())
        },
    }
}

/// Records when an operation was integrated. From then on the operation
/// counts as integrated, whatever its stage. Nothing changes if there is no
/// such operation.
pub fn set_when_integrated(txn: &mut Transaction, hash: DhtOpHash, time: Timestamp) -> (result:
    StateMutationResult<()>)
    requires
        old(txn).well_formed(),
    ensures
        final(txn).well_formed(),
        result is Ok,
        final(txn)@ == (TablesView {
            ops: integrated_at(old(txn)@.ops, hash@, time),
            ..old(txn)@
        }),
{
    match txn.ops.remove(&hash) {
        None => {
            assert(txn@.ops =~= old(txn)@.ops);
        },
        Some(row) => {
            let mut row = row;
            row.when_integrated = Some(time);
            txn.ops.insert(hash, row);
            assert(txn@.ops =~= old(txn)@.ops.insert(hash@, row@));
        },
    }
    Ok(())
}

/// Records when an operation was last published, in seconds since the epoch.
/// Nothing changes if there is no such operation.
pub fn set_last_publish_time(txn: &mut Transaction, hash: DhtOpHash, unix_epoch_secs: u64) -> (result:
    StateMutationResult<()>)
    requires
        old(txn).well_formed(),
    ensures
        final(txn).well_formed(),
        result is Ok,
        final(txn)@ == (TablesView {
            ops: published_at(old(txn)@.ops, hash@, unix_epoch_secs),
            ..old(txn)@
        }),
{
    match txn.ops.remove(&hash) {
        None => {
            assert(txn@.ops =~= old(txn)@.ops);
        },
        Some(row) => {
            let mut row = row;
            row.last_publish_time = Some(unix_epoch_secs);
            txn.ops.insert(hash, row);
            assert(txn@.ops =~= old(txn)@.ops.insert(hash@, row@));
        },
    }
    Ok(())
}

/// Sets the number of receipts of an operation. Nothing changes if there is
/// no such operation.
pub fn set_receipt_count(txn: &mut Transaction, hash: DhtOpHash, count: u32) -> (result:
    StateMutationResult<()>)
    requires
        old(txn).well_formed(),
    ensures
        final(txn).well_formed(),
        result is Ok,
        final(txn)@ == (TablesView {
            ops: receipts_set(old(txn)@.ops, hash@, count),
            ..old(txn)@
        }),
{
    match txn.ops.remove(&hash) {
        None => {
            assert(txn@.ops =~= old(txn)@.ops);
        },
        Some(row) => {
            let mut row = row;
            row.receipt_count = Some(count);
            txn.ops.insert(hash, row);
            assert(txn@.ops =~= old(txn)@.ops.insert(hash@, row@));
        },
    }
    Ok(())
}

/// Whether the operation exists and its receipts cannot be counted further.
pub open spec fn receipts_exhausted(ops: Map<Seq<u8>, DhtOpRowView>, hash: Seq<u8>) -> bool {
    ops.contains_key(hash) && next_count(ops[hash].receipt_count) > u32::MAX
}

/// Counts one more receipt of an operation, in one step: the count that is
/// written is the count that was read by the same mutation. Nothing changes
/// if there is no such operation. Fails, and changes nothing, if the receipts
/// cannot be counted further.
pub fn add_one_receipt_count(txn: &mut Transaction, hash: &DhtOpHash) -> (result: StateMutationResult<
    (),
>)
    requires
        old(txn).well_formed(),
    ensures
        final(txn).well_formed(),
        match result {
            Ok(()) => !receipts_exhausted(old(txn)@.ops, hash@) && final(txn)@ == (TablesView {
                ops: receipt_added(old(txn)@.ops, hash@),
                ..old(txn)@
            }),
            Err(e) => receipts_exhausted(old(txn)@.ops, hash@) && final(txn)@ == old(txn)@ && e@
                == StateMutationErrorView::CounterOverflow(hash@),
        },
{
    match txn.ops.remove(hash) {
        None => {
            assert(txn@.ops =~= old(txn)@.ops);
            Ok(())
        },
        Some(row) => {
            let mut row = row;
            let count = match row.receipt_count {
                Some(n) => n,
                None => 0,
            };
            if count == u32::MAX {
                txn.ops.insert(hash.clone(), row);
                assert(txn@.ops =~= old(txn)@.ops);
                return Err(
                    StateMutationError::Database(DatabaseError::CounterOverflow(hash.clone())),
                );
            }
            row.receipt_count = Some(count + 1);
            txn.ops.insert(hash.clone(), row);
            assert(txn@.ops =~= old(txn)@.ops.insert(hash@, row@));
            Ok(())
        },
    }
}

/// Writes the row of a signed header.
pub fn insert_header(txn: &mut Transaction, header: SignedHeaderHashed) -> (result:
    StateMutationResult<()>)
    requires
        old(txn).well_formed(),
    ensures
        final(txn).well_formed(),
        result is Ok,
        final(txn)@ == (TablesView {
            headers: put_new(old(txn)@.headers, header@.header.hash, header_row_of(header@)),
            ..old(txn)@
        }),
{
    let key = header.header_address().clone();
    put_row(&mut txn.headers, key, header_row(header));
    Ok(())
}

/// Writes the row of an entry. Writing an entry that is stored already
/// changes nothing.
pub fn insert_entry(txn: &mut Transaction, entry: EntryHashed) -> (result: StateMutationResult<()>)
    requires
        old(txn).well_formed(),
    ensures
        final(txn).well_formed(),
        result is Ok,
        final(txn)@ == (TablesView {
            entries: put_new(old(txn)@.entries, entry@.hash, entry_row_of(entry@)),
            ..old(txn)@
        }),
{
    let key = entry.hash.clone();
    put_row(&mut txn.entries, key, entry_row(entry));
    Ok(())
}

/// Writing a row under a key a second time changes nothing, whatever the
/// second row holds.
pub proof fn lemma_put_new_idempotent<KV, RV>(table: Map<KV, RV>, key: KV, row: RV, again: RV)
    ensures
        put_new(put_new(table, key, row), key, again) == put_new(table, key, row),
        put_new(table, key, row).contains_key(key),
        table.contains_key(key) ==> put_new(table, key, row) == table,
        forall|k: KV| k != key ==> (put_new(table, key, row).contains_key(k) <==> table.contains_key(k)),
        forall|k: KV| table.contains_key(k) ==> put_new(table, key, row)[k] == table[k],
{
}

/// Writing an operation a second time changes nothing, also where the basis
/// or the author's mark differ the second time: the rows are keyed by the
/// addresses of the entry, the header and the operation.
pub proof fn lemma_insert_op_idempotent(
    tables: TablesView,
    op: DhtOpHashedView,
    header_hash: Seq<u8>,
    basis: Seq<u8>,
    is_authored: bool,
    other_basis: Seq<u8>,
    other_is_authored: bool,
)
    ensures
        tables_with_op(
            tables_with_op(tables, op, header_hash, basis, is_authored),
            op,
            header_hash,
            other_basis,
            other_is_authored,
        ) == tables_with_op(tables, op, header_hash, basis, is_authored),
{
}

/// A targeted update writes one column of one row: it adds no row and takes
/// none away, leaves every other row as it is, and done twice it does what it
/// does once.
pub proof fn lemma_setters_single_row(
    ops: Map<Seq<u8>, DhtOpRowView>,
    hash: Seq<u8>,
    other: Seq<u8>,
    status: ValidationStatus,
    require_receipt: bool,
    time: Timestamp,
    secs: u64,
    count: u32,
)
    ensures
        status_set(status_set(ops, hash, status), hash, status) == status_set(ops, hash, status),
        receipt_required(receipt_required(ops, hash, require_receipt), hash, require_receipt)
            == receipt_required(ops, hash, require_receipt),
        integrated_at(integrated_at(ops, hash, time), hash, time) == integrated_at(ops, hash, time),
        published_at(published_at(ops, hash, secs), hash, secs) == published_at(ops, hash, secs),
        receipts_set(receipts_set(ops, hash, count), hash, count) == receipts_set(ops, hash, count),
        status_set(ops, hash, status).dom() == ops.dom(),
        receipt_required(ops, hash, require_receipt).dom() == ops.dom(),
        integrated_at(ops, hash, time).dom() == ops.dom(),
        published_at(ops, hash, secs).dom() == ops.dom(),
        receipts_set(ops, hash, count).dom() == ops.dom(),
        receipt_added(ops, hash).dom() == ops.dom(),
        other != hash ==> {
            &&& status_set(ops, hash, status)[other] == ops[other]
            &&& receipt_required(ops, hash, require_receipt)[other] == ops[other]
            &&& integrated_at(ops, hash, time)[other] == ops[other]
            &&& published_at(ops, hash, secs)[other] == ops[other]
            &&& receipts_set(ops, hash, count)[other] == ops[other]
            &&& receipt_added(ops, hash)[other] == ops[other]
        },
{
    assert(status_set(status_set(ops, hash, status), hash, status) =~= status_set(
        ops,
        hash,
        status,
    ));
    assert(receipt_required(receipt_required(ops, hash, require_receipt), hash, require_receipt)
        =~= receipt_required(ops, hash, require_receipt));
    assert(integrated_at(integrated_at(ops, hash, time), hash, time) =~= integrated_at(
        ops,
        hash,
        time,
    ));
    assert(published_at(published_at(ops, hash, secs), hash, secs) =~= published_at(
        ops,
        hash,
        secs,
    ));
    assert(receipts_set(receipts_set(ops, hash, count), hash, count) =~= receipts_set(
        ops,
        hash,
        count,
    ));
    assert(status_set(ops, hash, status).dom() =~= ops.dom());
    assert(receipt_required(ops, hash, require_receipt).dom() =~= ops.dom());
    assert(integrated_at(ops, hash, time).dom() =~= ops.dom());
    assert(published_at(ops, hash, secs).dom() =~= ops.dom());
    assert(receipts_set(ops, hash, count).dom() =~= ops.dom());
    assert(receipt_added(ops, hash).dom() =~= ops.dom());
}

/// Every attempt at validation is counted and timed, whatever stage it leaves
/// the operation at, and touches nothing else of the row: not the verdict,
/// not the receipts, not the time of integration.
pub proof fn lemma_stage_transition(
    ops: Map<Seq<u8>, DhtOpRowView>,
    hash: Seq<u8>,
    other: Seq<u8>,
    status: ValidationLimboStatusView,
    now: Timestamp,
)
    requires
        ops.contains_key(hash),
        !attempts_exhausted(ops, hash),
    ensures
        stage_set(ops, hash, status, now).dom() == ops.dom(),
        stage_set(ops, hash, status, now)[hash].validation_stage == status.stage(),
        stage_set(ops, hash, status, now)[hash].num_validation_attempts == Some(
            next_count(ops[hash].num_validation_attempts) as u32,
        ),
        next_count(ops[hash].num_validation_attempts) >= 1,
        stage_set(ops, hash, status, now)[hash].last_validation_attempt == Some(now),
        stage_set(ops, hash, status, now)[hash].when_integrated == ops[hash].when_integrated,
        stage_set(ops, hash, status, now)[hash].validation_status == ops[hash].validation_status,
        stage_set(ops, hash, status, now)[hash].receipt_count == ops[hash].receipt_count,
        stage_set(ops, hash, status, now)[hash].op_order == ops[hash].op_order,
        stage_set(ops, hash, status, now)[hash].basis_hash == ops[hash].basis_hash,
        other != hash ==> stage_set(ops, hash, status, now)[other] == ops[other],
{
    assert(stage_set(ops, hash, status, now).dom() =~= ops.dom());
}

/// Writing an operation deletes nothing: every row that was there is there
/// afterwards, as it was.
pub proof fn lemma_insert_op_keeps_rows(
    tables: TablesView,
    op: DhtOpHashedView,
    header_hash: Seq<u8>,
    basis: Seq<u8>,
    is_authored: bool,
)
    ensures
        ({
            let after = tables_with_op(tables, op, header_hash, basis, is_authored);
            &&& forall|k: Seq<u8>| #[trigger]
                tables.headers.contains_key(k) ==> after.headers.contains_key(k)
                    && after.headers[k] == tables.headers[k]
            &&& forall|k: Seq<u8>| #[trigger]
                tables.entries.contains_key(k) ==> after.entries.contains_key(k)
                    && after.entries[k] == tables.entries[k]
            &&& forall|k: Seq<u8>| #[trigger]
                tables.ops.contains_key(k) ==> after.ops.contains_key(k) && after.ops[k]
                    == tables.ops[k]
            &&& after.headers.contains_key(header_hash)
            &&& after.ops.contains_key(op.hash)
            &&& op.content.entry() is Some ==> after.entries.contains_key(entry_of(op).hash)
        }),
{
}

} // verus!
