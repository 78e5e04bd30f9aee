//! Shared value types: contract identities, transfers, call descriptors,
//! response payloads and the error taxonomy.

use vstd::prelude::*;
use vstd::bytes::{
    lemma_auto_spec_u128_to_from_le_bytes, spec_u128_from_le_bytes, spec_u128_to_le_bytes,
    u128_from_le_bytes, u128_to_le_bytes,
};
use vstd::slice::slice_subrange;

verus! {

/// Identity of a contract: a block/tx pair of 128-bit values.
/// The pair (0, 0) is the sentinel for "template, not yet minted".
#[derive(Clone, Copy, Debug, PartialEq, Eq, Structural)]
pub struct AlkaneId {
    pub block: u128,
    pub tx: u128,
}

/// Every failure aborts the whole invocation; no error is recoverable.
#[derive(Clone, Copy, Debug, PartialEq, Eq, Structural)]
pub enum InstanceError {
    /// A slot that must be set before it is read is still empty.
    Uninitialized,
    /// The single initializing operation was attempted a second time.
    AlreadyInitialized,
    /// A stored slot holds bytes of an unexpected width.
    CorruptState,
    /// The delegated remote call failed (budget exhaustion or target error).
    RemoteCallFailed,
}

/// One token transfer: a quantity of the token identified by `id`.
#[derive(Clone, Copy, Debug, PartialEq, Eq, Structural)]
pub struct AlkaneTransfer {
    pub id: AlkaneId,
    pub value: u128,
}

/// What the host hands an invocation: who is being run, who called it,
/// and the transfers the caller attached to the request.
#[derive(Debug)]
pub struct Context {
    pub myself: AlkaneId,
    pub caller: AlkaneId,
    pub incoming_alkanes: Vec<AlkaneTransfer>,
}

/// Handler-specific response data. Text is handed to the host as-is;
/// encoding it for the wire is the host's concern, not the contract's.
#[derive(Debug, PartialEq, Eq)]
pub enum Payload {
    Bytes(Vec<u8>),
    Text(String),
}

/// What an invocation returns: the forwarded (plus newly minted) transfers
/// and the handler's data.
#[derive(Debug)]
pub struct CallResponse {
    pub alkanes: Vec<AlkaneTransfer>,
    pub data: Payload,
}

/// Descriptor of a read-only remote call to another contract:
/// the target identity and the ordered argument list.
#[derive(Debug, PartialEq, Eq)]
pub struct Cellpack {
    pub target: AlkaneId,
    pub inputs: Vec<u128>,
}

/// The 32-byte storage form of an identity: 16 little-endian bytes of
/// `block` followed by 16 little-endian bytes of `tx`.
pub open spec fn spec_id_bytes(id: AlkaneId) -> Seq<u8> {
    spec_u128_to_le_bytes(id.block) + spec_u128_to_le_bytes(id.tx)
}

/// The identity read back from a 32-byte slot.
pub open spec fn spec_id_from_bytes(b: Seq<u8>) -> AlkaneId
    recommends
        b.len() == 32,
{
    AlkaneId {
        block: spec_u128_from_le_bytes(b.subrange(0, 16)),
        tx: spec_u128_from_le_bytes(b.subrange(16, 32)),
    }
}

/// Encodes an identity into its 32-byte storage form.
pub fn id_to_le_bytes(id: &AlkaneId) -> (r: Vec<u8>)
    ensures
        r@ == spec_id_bytes(*id),
        r@.len() == 32,
{
    proof {
        lemma_auto_spec_u128_to_from_le_bytes();
    }
    let mut bytes = u128_to_le_bytes(id.block);
    let mut tx_bytes = u128_to_le_bytes(id.tx);
    bytes.append(&mut tx_bytes);
    bytes
}

/// Decodes an identity from its 32-byte storage form.
pub fn id_from_le_bytes(bytes: &[u8]) -> (r: AlkaneId)
    requires
        bytes@.len() == 32,
    ensures
        r == spec_id_from_bytes(bytes@),
{
    let block = u128_from_le_bytes(slice_subrange(bytes, 0, 16));
    let tx = u128_from_le_bytes(slice_subrange(bytes, 16, 32));
    AlkaneId { block, tx }
}

/// Round trip: the 32-byte storage form of an identity, reinterpreted as
/// two little-endian 128-bit values, is the identity that was stored.
pub proof fn lemma_id_round_trip(id: AlkaneId)
    ensures
        spec_id_bytes(id).len() == 32,
        spec_id_from_bytes(spec_id_bytes(id)) == id,
{
    lemma_auto_spec_u128_to_from_le_bytes();
    let b = spec_id_bytes(id);
    assert(b.subrange(0, 16) =~= spec_u128_to_le_bytes(id.block));
    assert(b.subrange(16, 32) =~= spec_u128_to_le_bytes(id.tx));
}

/// Copies the caller's transfer list, so that every response forwards the
/// incoming transfers unmodified.
pub fn copy_transfers(transfers: &Vec<AlkaneTransfer>) -> (r: Vec<AlkaneTransfer>)
    ensures
        r@ == transfers@,
{
    let mut out: Vec<AlkaneTransfer> = Vec::new();
    let mut i: usize = 0;
    while i < transfers.len()
        invariant
            i <= transfers.len(),
            out@ == transfers@.take(i as int),
        decreases transfers.len() - i,
    {
        proof {
            assert(transfers@.take(i + 1) =~= transfers@.take(i as int).push(transfers@[i as int]));
        }
        out.push(transfers[i]);
        i = i + 1;
    }
    proof {
        assert(out@ =~= transfers@);
    }
    out
}

} // verus!
