//! The orbital instance contract: two write-once storage slots, the
//! identity formatter, the opcode dispatcher with its initialization
//! guard, and the descriptors for the read-only calls delegated to the
//! parent collection.
//!
//! Every failure aborts the invocation as a whole; the handlers return
//! an explicit error instead of mutating anything, so the write-once
//! invariants survive every failed attempt.

use crate::engine::{derive_symbol, spec_derive_symbol};
use crate::text::{spec_dec, u128_to_decimal};
use crate::types::{
    copy_transfers, id_from_le_bytes, id_to_le_bytes, lemma_id_round_trip, spec_id_bytes,
    spec_id_from_bytes, AlkaneId, AlkaneTransfer, CallResponse, Cellpack, Context, InstanceError,
    Payload,
};
use vstd::bytes::{spec_u128_from_le_bytes, spec_u128_to_le_bytes, u128_from_le_bytes, u128_to_le_bytes};
use vstd::prelude::*;
use vstd::string::StringExecFns;

verus! {

/// This contract mints a single-edition token: the total supply is 1.
pub const TOTAL_SUPPLY: u128 = 1;

/// Argument list head for the parent's shared-binary-data query.
pub const DATA_OPCODE: u128 = 1000;

/// Argument list head for the parent's attribute-metadata query.
pub const ATTRIBUTES_OPCODE: u128 = 999;

/// The fixed MIME-type label of the shared data.
pub open spec fn content_type_text() -> Seq<char> {
    "text/javascript"@
}

/// Display name of an uninitialized template deployment.
pub open spec fn template_name_text() -> Seq<char> {
    "Magic Arbuz Orbital Template"@
}

/// Slug of an uninitialized template deployment.
pub open spec fn template_symbol_text() -> Seq<char> {
    "magic-arbuz-orbital-template"@
}

/// Display name of a minted instance: collection name, index, symbol.
pub open spec fn spec_name_text(index: u128, symbol: Seq<char>) -> Seq<char> {
    "Magic Arbuz Card #"@ + spec_dec(index as nat) + " "@ + symbol
}

/// Slug of a minted instance: fixed prefix, index, symbol.
pub open spec fn spec_slug_text(index: u128, symbol: Seq<char>) -> Seq<char> {
    "magic-arbuz-card"@ + "-"@ + spec_dec(index as nat) + "-"@ + symbol
}

/// One inbound request, as routed by opcode.
#[derive(Clone, Copy, Debug, PartialEq, Eq, Structural)]
pub enum Request {
    Initialize { index: u128 },
    GetName,
    GetSymbol,
    GetTotalSupply,
    GetCollectionIdentifier,
    GetCollectionAlkaneId,
    GetData,
    GetContentType,
    GetAttributes,
}

/// The request a raw argument list denotes: the leading value is the
/// opcode, Initialize carries one argument, every other operation none.
/// An unknown opcode or a wrong argument count routes nowhere.
pub open spec fn spec_parse_request(inputs: Seq<u128>) -> Option<Request> {
    if inputs.len() == 2 && inputs[0] == 0 {
        Some(Request::Initialize { index: inputs[1] })
    } else if inputs.len() == 1 {
        if inputs[0] == 99 {
            Some(Request::GetName)
        } else if inputs[0] == 100 {
            Some(Request::GetSymbol)
        } else if inputs[0] == 101 {
            Some(Request::GetTotalSupply)
        } else if inputs[0] == 998 {
            Some(Request::GetCollectionIdentifier)
        } else if inputs[0] == 999 {
            Some(Request::GetCollectionAlkaneId)
        } else if inputs[0] == 1000 {
            Some(Request::GetData)
        } else if inputs[0] == 1001 {
            Some(Request::GetContentType)
        } else if inputs[0] == 1002 {
            Some(Request::GetAttributes)
        } else {
            None
        }
    } else {
        None
    }
}

/// Routes a raw argument list to the request it denotes.
pub fn parse_request(inputs: &Vec<u128>) -> (r: Option<Request>)
    ensures
        r == spec_parse_request(inputs@),
{
    if inputs.len() == 2 && inputs[0] == 0 {
        Some(Request::Initialize { index: inputs[1] })
    } else if inputs.len() == 1 {
        match inputs[0] {
            99 => Some(Request::GetName),
            100 => Some(Request::GetSymbol),
            101 => Some(Request::GetTotalSupply),
            998 => Some(Request::GetCollectionIdentifier),
            999 => Some(Request::GetCollectionAlkaneId),
            1000 => Some(Request::GetData),
            1001 => Some(Request::GetContentType),
            1002 => Some(Request::GetAttributes),
            _ => None,
        }
    } else {
        None
    }
}

/// What one dispatch step asks of the host: either the finished
/// response, or a read-only remote call whose raw reply bytes become
/// the response data.
#[derive(Debug)]
pub enum Step {
    Done(CallResponse),
    Delegate(Cellpack),
}

/// A response forwards the caller's transfers and carries text data.
pub open spec fn text_response_ok(
    expected: Result<Seq<char>, InstanceError>,
    context: Context,
    r: Result<CallResponse, InstanceError>,
) -> bool {
    &&& (r is Ok <==> expected is Ok)
    &&& (r matches Ok(resp) ==> resp.alkanes@ == context.incoming_alkanes@ && (resp.data matches
        Payload::Text(s) && s@ == expected->Ok_0))
    &&& (r matches Err(e) ==> e == expected->Err_0)
}

/// A response forwards the caller's transfers and carries byte data.
pub open spec fn bytes_response_ok(
    expected: Result<Seq<u8>, InstanceError>,
    context: Context,
    r: Result<CallResponse, InstanceError>,
) -> bool {
    &&& (r is Ok <==> expected is Ok)
    &&& (r matches Ok(resp) ==> resp.alkanes@ == context.incoming_alkanes@ && (resp.data matches
        Payload::Bytes(b) && b@ == expected->Ok_0))
    &&& (r matches Err(e) ==> e == expected->Err_0)
}

/// The persistent state of one orbital instance: the initialization
/// flag and the two fixed storage slots, held as the raw bytes the
/// backing store would hold. An empty slot means "not yet set".
pub struct ArbuzOrbitalInstance {
    initialized: bool,
    collection_slot: Vec<u8>,
    index_slot: Vec<u8>,
}

impl ArbuzOrbitalInstance {
    /// Whether the single initializing operation has been observed.
    pub closed spec fn is_initialized(&self) -> bool {
        self.initialized
    }

    /// The raw bytes of the collection-reference slot.
    pub closed spec fn collection_bytes(&self) -> Seq<u8> {
        self.collection_slot@
    }

    /// The raw bytes of the index slot.
    pub closed spec fn index_bytes(&self) -> Seq<u8> {
        self.index_slot@
    }

    /// What reading the collection reference yields: fatal when the
    /// slot was never written, fatal when its width is wrong, the
    /// stored identity otherwise. Never a silent zero/zero.
    pub open spec fn spec_collection_ref(&self) -> Result<AlkaneId, InstanceError> {
        if self.collection_bytes().len() == 0 {
            Err(InstanceError::Uninitialized)
        } else if self.collection_bytes().len() == 32 {
            Ok(spec_id_from_bytes(self.collection_bytes()))
        } else {
            Err(InstanceError::CorruptState)
        }
    }

    /// What reading the index yields: the backing store's default 0
    /// when the slot was never written, fatal when its width is wrong,
    /// the stored value otherwise.
    pub open spec fn spec_index(&self) -> Result<u128, InstanceError> {
        if self.index_bytes().len() == 0 {
            Ok(0)
        } else if self.index_bytes().len() == 16 {
            Ok(spec_u128_from_le_bytes(self.index_bytes()))
        } else {
            Err(InstanceError::CorruptState)
        }
    }

    /// A fresh template deployment: nothing observed, nothing stored.
    pub fn new() -> (r: Self)
        ensures
            !r.is_initialized(),
            r.collection_bytes() == Seq::<u8>::empty(),
            r.index_bytes() == Seq::<u8>::empty(),
    {
        ArbuzOrbitalInstance { initialized: false, collection_slot: Vec::new(), index_slot: Vec::new() }
    }

    /// Reconstructs an instance from persisted slot bytes, exactly as
    /// given; a backing store that hands back malformed bytes yields a
    /// state whose reads fail as corrupt.
    pub fn from_slots(initialized: bool, collection_slot: Vec<u8>, index_slot: Vec<u8>) -> (r: Self)
        ensures
            r.is_initialized() == initialized,
            r.collection_bytes() == collection_slot@,
            r.index_bytes() == index_slot@,
    {
        ArbuzOrbitalInstance { initialized, collection_slot, index_slot }
    }

    /// The initialization flag, for persistence.
    pub fn initialized_flag(&self) -> (r: bool)
        ensures
            r == self.is_initialized(),
    {
        self.initialized
    }

    /// The collection-reference slot bytes, for persistence.
    pub fn collection_slot_bytes(&self) -> (r: &Vec<u8>)
        ensures
            r@ == self.collection_bytes(),
    {
        &self.collection_slot
    }

    /// The index slot bytes, for persistence.
    pub fn index_slot_bytes(&self) -> (r: &Vec<u8>)
        ensures
            r@ == self.index_bytes(),
    {
        &self.index_slot
    }

    /// The observe-once guard: the first call transitions the instance
    /// to initialized and succeeds; every later call fails fatally and
    /// changes nothing.
    pub fn observe_initialization(&mut self) -> (r: Result<(), InstanceError>)
        ensures
            old(self).is_initialized() ==> (*final(self) == *old(self) && r == Err::<
                (),
                InstanceError,
            >(InstanceError::AlreadyInitialized)),
            !old(self).is_initialized() ==> (r == Ok::<(), InstanceError>(())
                && final(self).is_initialized() && final(self).collection_bytes() == old(
                self,
            ).collection_bytes() && final(self).index_bytes() == old(self).index_bytes()),
    {
        if self.initialized {
            Err(InstanceError::AlreadyInitialized)
        } else {
            self.initialized = true;
            Ok(())
        }
    }

    /// Stores an identity in the collection-reference slot as 32 raw
    /// bytes: 16-byte block then 16-byte tx, little-endian.
    pub fn set_collection_alkane_id(&mut self, id: &AlkaneId)
        ensures
            final(self).collection_bytes() == spec_id_bytes(*id),
            final(self).index_bytes() == old(self).index_bytes(),
            final(self).is_initialized() == old(self).is_initialized(),
    {
        self.collection_slot = id_to_le_bytes(id);
    }

    /// Stores the instance index as its 16 little-endian bytes.
    pub fn set_index(&mut self, index: u128)
        ensures
            final(self).index_bytes() == spec_u128_to_le_bytes(index),
            final(self).collection_bytes() == old(self).collection_bytes(),
            final(self).is_initialized() == old(self).is_initialized(),
    {
        self.index_slot = u128_to_le_bytes(index);
    }

    /// Reads the instance index from its slot.
    pub fn index(&self) -> (r: Result<u128, InstanceError>)
        ensures
            r == self.spec_index(),
    {
        if self.index_slot.len() == 0 {
            Ok(0)
        } else if self.index_slot.len() == 16 {
            Ok(u128_from_le_bytes(self.index_slot.as_slice()))
        } else {
            Err(InstanceError::CorruptState)
        }
    }

    /// Reads the collection reference from its slot.
    pub fn collection_ref(&self) -> (r: Result<AlkaneId, InstanceError>)
        ensures
            r == self.spec_collection_ref(),
    {
        if self.collection_slot.len() == 0 {
            Err(InstanceError::Uninitialized)
        } else if self.collection_slot.len() == 32 {
            Ok(id_from_le_bytes(self.collection_slot.as_slice()))
        } else {
            Err(InstanceError::CorruptState)
        }
    }

    /// What the single initializing operation does. On an already
    /// initialized instance it fails fatally and changes nothing; on a
    /// fresh one it persists the caller's identity and the supplied
    /// index, mints exactly one unit of this contract's own token on
    /// top of the forwarded transfers, and returns an empty payload.
    pub open spec fn initialize_transition(
        pre: Self,
        post: Self,
        context: Context,
        index: u128,
        r: Result<CallResponse, InstanceError>,
    ) -> bool {
        &&& (pre.is_initialized() ==> post == pre && r == Err::<CallResponse, InstanceError>(
            InstanceError::AlreadyInitialized,
        ))
        &&& (!pre.is_initialized() ==> {
            &&& r is Ok
            &&& post.is_initialized()
            &&& post.collection_bytes() == spec_id_bytes(context.caller)
            &&& post.index_bytes() == spec_u128_to_le_bytes(index)
            &&& (r matches Ok(resp) ==> resp.alkanes@ == context.incoming_alkanes@.push(
                (AlkaneTransfer { id: context.myself, value: 1 }),
            ) && (resp.data matches Payload::Bytes(b) && b@ == Seq::<u8>::empty()))
        })
    }

    /// The single initializing operation (opcode 0).
    pub fn initialize(&mut self, context: &Context, index: u128) -> (r: Result<
        CallResponse,
        InstanceError,
    >)
        ensures
            Self::initialize_transition(*old(self), *final(self), *context, index, r),
    {
        let mut alkanes = copy_transfers(&context.incoming_alkanes);
        match self.observe_initialization() {
            Ok(_) => {},
            Err(e) => {
                return Err(e);
            },
        }
        self.set_collection_alkane_id(&context.caller);
        self.set_index(index);
        alkanes.push(AlkaneTransfer { id: context.myself, value: 1 });
        Ok(CallResponse { alkanes, data: Payload::Bytes(Vec::new()) })
    }

    /// What `name` returns: fatal before any reference was stored, the
    /// fixed template name for the zero/zero sentinel, and otherwise
    /// the formatted collection name, index and derived symbol.
    pub open spec fn spec_name(&self) -> Result<Seq<char>, InstanceError> {
        match self.spec_collection_ref() {
            Err(e) => Err(e),
            Ok(id) => if id.block == 0 && id.tx == 0 {
                Ok(template_name_text())
            } else {
                match self.spec_index() {
                    Err(e) => Err(e),
                    Ok(i) => Ok(spec_name_text(i, spec_derive_symbol(i))),
                }
            },
        }
    }

    /// What `symbol` returns, mirroring `spec_name` with the slug form.
    pub open spec fn spec_symbol_string(&self) -> Result<Seq<char>, InstanceError> {
        match self.spec_collection_ref() {
            Err(e) => Err(e),
            Ok(id) => if id.block == 0 && id.tx == 0 {
                Ok(template_symbol_text())
            } else {
                match self.spec_index() {
                    Err(e) => Err(e),
                    Ok(i) => Ok(spec_slug_text(i, spec_derive_symbol(i))),
                }
            },
        }
    }

    /// The display name: a pure read with no mutation.
    pub fn name(&self) -> (r: Result<String, InstanceError>)
        ensures
            r is Ok <==> self.spec_name() is Ok,
            r matches Ok(s) ==> s@ == self.spec_name()->Ok_0,
            r matches Err(e) ==> e == self.spec_name()->Err_0,
    {
        let collection_id = match self.collection_ref() {
            Ok(id) => id,
            Err(e) => {
                return Err(e);
            },
        };
        if collection_id.block == 0 && collection_id.tx == 0 {
            Ok(String::from_str("Magic Arbuz Orbital Template"))
        } else {
            let index = match self.index() {
                Ok(i) => i,
                Err(e) => {
                    return Err(e);
                },
            };
            let outcome = derive_symbol(index);
            let mut s = String::from_str("Magic Arbuz Card #");
            let dec = u128_to_decimal(index);
            s.append(dec.as_str());
            s.append(" ");
            s.append(outcome.symbol);
            Ok(s)
        }
    }

    /// The slug: a pure read with no mutation.
    pub fn symbol(&self) -> (r: Result<String, InstanceError>)
        ensures
            r is Ok <==> self.spec_symbol_string() is Ok,
            r matches Ok(s) ==> s@ == self.spec_symbol_string()->Ok_0,
            r matches Err(e) ==> e == self.spec_symbol_string()->Err_0,
    {
        let collection_id = match self.collection_ref() {
            Ok(id) => id,
            Err(e) => {
                return Err(e);
            },
        };
        if collection_id.block == 0 && collection_id.tx == 0 {
            Ok(String::from_str("magic-arbuz-orbital-template"))
        } else {
            let index = match self.index() {
                Ok(i) => i,
                Err(e) => {
                    return Err(e);
                },
            };
            let outcome = derive_symbol(index);
            let mut s = String::from_str("magic-arbuz-card");
            let dec = u128_to_decimal(index);
            s.append("-");
            s.append(dec.as_str());
            s.append("-");
            s.append(outcome.symbol);
            Ok(s)
        }
    }

    /// Handler for GetName (opcode 99).
    pub fn get_name(&self, context: &Context) -> (r: Result<CallResponse, InstanceError>)
        ensures
            text_response_ok(self.spec_name(), *context, r),
    {
        match self.name() {
            Ok(s) => Ok(
                CallResponse {
                    alkanes: copy_transfers(&context.incoming_alkanes),
                    data: Payload::Text(s),
                },
            ),
            Err(e) => Err(e),
        }
    }

    /// Handler for GetSymbol (opcode 100).
    pub fn get_symbol(&self, context: &Context) -> (r: Result<CallResponse, InstanceError>)
        ensures
            text_response_ok(self.spec_symbol_string(), *context, r),
    {
        match self.symbol() {
            Ok(s) => Ok(
                CallResponse {
                    alkanes: copy_transfers(&context.incoming_alkanes),
                    data: Payload::Text(s),
                },
            ),
            Err(e) => Err(e),
        }
    }

    /// Handler for GetTotalSupply (opcode 101): the constant 1, as
    /// little-endian bytes.
    pub fn get_total_supply(&self, context: &Context) -> (r: Result<CallResponse, InstanceError>)
        ensures
            bytes_response_ok(Ok(spec_u128_to_le_bytes(TOTAL_SUPPLY)), *context, r),
    {
        Ok(
            CallResponse {
                alkanes: copy_transfers(&context.incoming_alkanes),
                data: Payload::Bytes(u128_to_le_bytes(TOTAL_SUPPLY)),
            },
        )
    }

    /// Handler for GetContentType (opcode 1001): the fixed MIME label.
    pub fn get_content_type(&self, context: &Context) -> (r: Result<CallResponse, InstanceError>)
        ensures
            text_response_ok(Ok(content_type_text()), *context, r),
    {
        Ok(
            CallResponse {
                alkanes: copy_transfers(&context.incoming_alkanes),
                data: Payload::Text(String::from_str("text/javascript")),
            },
        )
    }

    /// What GetCollectionIdentifier returns on success: the decimal
    /// `"block:tx"` text form of the collection reference.
    pub open spec fn spec_identifier(&self) -> Result<Seq<char>, InstanceError> {
        match self.spec_collection_ref() {
            Err(e) => Err(e),
            Ok(id) => Ok(spec_dec(id.block as nat) + ":"@ + spec_dec(id.tx as nat)),
        }
    }

    /// Handler for GetCollectionIdentifier (opcode 998).
    pub fn get_collection_identifier(&self, context: &Context) -> (r: Result<
        CallResponse,
        InstanceError,
    >)
        ensures
            text_response_ok(self.spec_identifier(), *context, r),
    {
        let collection = match self.collection_ref() {
            Ok(id) => id,
            Err(e) => {
                return Err(e);
            },
        };
        let mut s = u128_to_decimal(collection.block);
        let tx_dec = u128_to_decimal(collection.tx);
        s.append(":");
        s.append(tx_dec.as_str());
        Ok(
            CallResponse {
                alkanes: copy_transfers(&context.incoming_alkanes),
                data: Payload::Text(s),
            },
        )
    }

    /// What GetCollectionAlkaneId returns on success: the reference
    /// re-encoded as its 32-byte raw form.
    pub open spec fn spec_identifier_bytes(&self) -> Result<Seq<u8>, InstanceError> {
        match self.spec_collection_ref() {
            Err(e) => Err(e),
            Ok(id) => Ok(spec_id_bytes(id)),
        }
    }

    /// Handler for GetCollectionAlkaneId (opcode 999).
    pub fn get_collection_alkane_id(&self, context: &Context) -> (r: Result<
        CallResponse,
        InstanceError,
    >)
        ensures
            bytes_response_ok(self.spec_identifier_bytes(), *context, r),
    {
        let collection = match self.collection_ref() {
            Ok(id) => id,
            Err(e) => {
                return Err(e);
            },
        };
        Ok(
            CallResponse {
                alkanes: copy_transfers(&context.incoming_alkanes),
                data: Payload::Bytes(id_to_le_bytes(&collection)),
            },
        )
    }

    /// A well-formed delegated query: addressed to the stored
    /// collection reference, with the two ordered arguments
    /// `[opcode, index]`; fatal exactly when reading either slot is.
    pub open spec fn delegate_request_ok(
        &self,
        opcode: u128,
        r: Result<Cellpack, InstanceError>,
    ) -> bool {
        &&& (r is Ok <==> (self.spec_collection_ref() is Ok && self.spec_index() is Ok))
        &&& (r matches Ok(cp) ==> cp.target == self.spec_collection_ref()->Ok_0 && cp.inputs@
            == seq![opcode, self.spec_index()->Ok_0])
        &&& (r matches Err(e) ==> e == (if self.spec_collection_ref() is Err {
            self.spec_collection_ref()->Err_0
        } else {
            self.spec_index()->Err_0
        }))
    }

    /// Builds the descriptor of one delegated query.
    fn delegate_request(&self, opcode: u128) -> (r: Result<Cellpack, InstanceError>)
        ensures
            self.delegate_request_ok(opcode, r),
    {
        let target = match self.collection_ref() {
            Ok(id) => id,
            Err(e) => {
                return Err(e);
            },
        };
        let index = match self.index() {
            Ok(i) => i,
            Err(e) => {
                return Err(e);
            },
        };
        let mut inputs: Vec<u128> = Vec::new();
        inputs.push(opcode);
        inputs.push(index);
        proof {
            assert(inputs@ =~= seq![opcode, self.spec_index()->Ok_0]);
        }
        Ok(Cellpack { target, inputs })
    }

    /// The descriptor of the GetData (opcode 1000) delegated query.
    pub fn get_data_request(&self) -> (r: Result<Cellpack, InstanceError>)
        ensures
            self.delegate_request_ok(DATA_OPCODE, r),
    {
        self.delegate_request(DATA_OPCODE)
    }

    /// The descriptor of the GetAttributes (opcode 1002) delegated query.
    pub fn get_attributes_request(&self) -> (r: Result<Cellpack, InstanceError>)
        ensures
            self.delegate_request_ok(ATTRIBUTES_OPCODE, r),
    {
        self.delegate_request(ATTRIBUTES_OPCODE)
    }

    /// Completes a delegated query from whatever the host's read-only
    /// call produced: a failed call propagates as fatal, a reply is
    /// returned verbatim as the response data.
    pub fn finish_delegated(context: &Context, reply: Option<Vec<u8>>) -> (r: Result<
        CallResponse,
        InstanceError,
    >)
        ensures
            reply is None ==> r == Err::<CallResponse, InstanceError>(
                InstanceError::RemoteCallFailed,
            ),
            reply matches Some(b) ==> (r matches Ok(resp) && resp.alkanes@
                == context.incoming_alkanes@ && (resp.data matches Payload::Bytes(d) && d@ == b@)),
    {
        match reply {
            None => Err(InstanceError::RemoteCallFailed),
            Some(bytes) => Ok(
                CallResponse {
                    alkanes: copy_transfers(&context.incoming_alkanes),
                    data: Payload::Bytes(bytes),
                },
            ),
        }
    }

    /// The derived display symbol of an index, as the identity
    /// formatter uses it.
    pub fn get_main_symbol_emoji(&self, index: u128) -> (r: &'static str)
        ensures
            r@ == spec_derive_symbol(index),
    {
        derive_symbol(index).symbol
    }

    /// Routes one dispatch step: runs the handler for every request the
    /// contract answers itself, and hands back the call descriptor for
    /// the two delegated queries. Only Initialize may change the state.
    pub fn dispatch(&mut self, context: &Context, request: &Request) -> (r: Result<
        Step,
        InstanceError,
    >)
        ensures
            !(request matches Request::Initialize { .. }) ==> *final(self) == *old(self),
            match *request {
                Request::Initialize { index } => match r {
                    Ok(step) => (step matches Step::Done(resp)
                        && Self::initialize_transition(*old(self), *final(self), *context, index, Ok(resp))),
                    Err(e) => Self::initialize_transition(*old(self), *final(self), *context, index, Err(e)),
                },
                Request::GetName => match r {
                    Ok(step) => (step matches Step::Done(resp)
                        && text_response_ok(old(self).spec_name(), *context, Ok(resp))),
                    Err(e) => text_response_ok(old(self).spec_name(), *context, Err(e)),
                },
                Request::GetSymbol => match r {
                    Ok(step) => (step matches Step::Done(resp)
                        && text_response_ok(old(self).spec_symbol_string(), *context, Ok(resp))),
                    Err(e) => text_response_ok(old(self).spec_symbol_string(), *context, Err(e)),
                },
                Request::GetTotalSupply => match r {
                    Ok(step) => (step matches Step::Done(resp)
                        && bytes_response_ok(Ok(spec_u128_to_le_bytes(TOTAL_SUPPLY)), *context, Ok(resp))),
                    Err(_) => false,
                },
                Request::GetCollectionIdentifier => match r {
                    Ok(step) => (step matches Step::Done(resp)
                        && text_response_ok(old(self).spec_identifier(), *context, Ok(resp))),
                    Err(e) => text_response_ok(old(self).spec_identifier(), *context, Err(e)),
                },
                Request::GetCollectionAlkaneId => match r {
                    Ok(step) => (step matches Step::Done(resp)
                        && bytes_response_ok(old(self).spec_identifier_bytes(), *context, Ok(resp))),
                    Err(e) => bytes_response_ok(old(self).spec_identifier_bytes(), *context, Err(e)),
                },
                Request::GetData => match r {
                    Ok(step) => (step matches Step::Delegate(cp)
                        && old(self).delegate_request_ok(DATA_OPCODE, Ok(cp))),
                    Err(e) => old(self).delegate_request_ok(DATA_OPCODE, Err(e)),
                },
                Request::GetContentType => match r {
                    Ok(step) => (step matches Step::Done(resp)
                        && text_response_ok(Ok(content_type_text()), *context, Ok(resp))),
                    Err(_) => false,
                },
                Request::GetAttributes => match r {
                    Ok(step) => (step matches Step::Delegate(cp)
                        && old(self).delegate_request_ok(ATTRIBUTES_OPCODE, Ok(cp))),
                    Err(e) => old(self).delegate_request_ok(ATTRIBUTES_OPCODE, Err(e)),
                },
            },
    {
        match request {
            Request::Initialize { index } => match self.initialize(context, *index) {
                Ok(resp) => Ok(Step::Done(resp)),
                Err(e) => Err(e),
            },
            Request::GetName => match self.get_name(context) {
                Ok(resp) => Ok(Step::Done(resp)),
                Err(e) => Err(e),
            },
            Request::GetSymbol => match self.get_symbol(context) {
                Ok(resp) => Ok(Step::Done(resp)),
                Err(e) => Err(e),
            },
            Request::GetTotalSupply => match self.get_total_supply(context) {
                Ok(resp) => Ok(Step::Done(resp)),
                Err(e) => Err(e),
            },
            Request::GetCollectionIdentifier => match self.get_collection_identifier(context) {
                Ok(resp) => Ok(Step::Done(resp)),
                Err(e) => Err(e),
            },
            Request::GetCollectionAlkaneId => match self.get_collection_alkane_id(context) {
                Ok(resp) => Ok(Step::Done(resp)),
                Err(e) => Err(e),
            },
            Request::GetData => match self.get_data_request() {
                Ok(cp) => Ok(Step::Delegate(cp)),
                Err(e) => Err(e),
            },
            Request::GetContentType => match self.get_content_type(context) {
                Ok(resp) => Ok(Step::Done(resp)),
                Err(e) => Err(e),
            },
            Request::GetAttributes => match self.get_attributes_request() {
                Ok(cp) => Ok(Step::Delegate(cp)),
                Err(e) => Err(e),
            },
        }
    }

    /// Initialization is write-once: whatever a second initializing
    /// attempt supplies, it fails as already initialized and leaves the
    /// slots exactly as the first attempt wrote them.
    pub proof fn lemma_initialize_write_once(
        s0: Self,
        s1: Self,
        s2: Self,
        c1: Context,
        c2: Context,
        i1: u128,
        i2: u128,
        r1: Result<CallResponse, InstanceError>,
        r2: Result<CallResponse, InstanceError>,
    )
        requires
            !s0.is_initialized(),
            Self::initialize_transition(s0, s1, c1, i1, r1),
            Self::initialize_transition(s1, s2, c2, i2, r2),
        ensures
            r2 == Err::<CallResponse, InstanceError>(InstanceError::AlreadyInitialized),
            s2 == s1,
            s2.collection_bytes() == spec_id_bytes(c1.caller),
            s2.index_bytes() == spec_u128_to_le_bytes(i1),
    {
    }

    /// Round trip through storage: after initialization, the stored
    /// collection reference reads back as exactly the identity of the
    /// initializing caller, and the raw bytes that GetCollectionAlkaneId
    /// returns reinterpret (as two little-endian 128-bit values) to that
    /// same identity.
    pub proof fn lemma_reference_round_trip(
        pre: Self,
        post: Self,
        context: Context,
        index: u128,
        r: Result<CallResponse, InstanceError>,
    )
        requires
            !pre.is_initialized(),
            Self::initialize_transition(pre, post, context, index, r),
        ensures
            post.spec_collection_ref() == Ok::<AlkaneId, InstanceError>(context.caller),
            post.spec_identifier_bytes() == Ok::<Seq<u8>, InstanceError>(
                spec_id_bytes(context.caller),
            ),
            spec_id_from_bytes(spec_id_bytes(context.caller)) == context.caller,
            post.spec_index() == Ok::<u128, InstanceError>(index),
    {
        lemma_id_round_trip(context.caller);
        vstd::bytes::lemma_auto_spec_u128_to_from_le_bytes();
    }
}

} // verus!
