use arbuz_orbital::instance::{parse_request, ArbuzOrbitalInstance, Request, Step};
use arbuz_orbital::types::{AlkaneId, AlkaneTransfer, Context, InstanceError, Payload};

fn ctx(caller: AlkaneId) -> Context {
    Context {
        myself: AlkaneId { block: 2, tx: 1 },
        caller,
        incoming_alkanes: Vec::new(),
    }
}

fn parent() -> AlkaneId {
    AlkaneId { block: 3, tx: 7 }
}

fn minted(index: u128) -> ArbuzOrbitalInstance {
    let mut inst = ArbuzOrbitalInstance::new();
    inst.initialize(&ctx(parent()), index).unwrap();
    inst
}

#[test]
fn initialize_persists_and_mints_one_unit() {
    let mut inst = ArbuzOrbitalInstance::new();
    let resp = inst.initialize(&ctx(parent()), 42).unwrap();
    assert_eq!(resp.alkanes.len(), 1);
    assert_eq!(resp.alkanes[0], AlkaneTransfer { id: AlkaneId { block: 2, tx: 1 }, value: 1 });
    assert_eq!(resp.data, Payload::Bytes(Vec::new()));
    assert_eq!(inst.index(), Ok(42));
    assert_eq!(inst.collection_ref(), Ok(parent()));
}

#[test]
fn initialize_is_write_once() {
    let mut inst = ArbuzOrbitalInstance::new();
    inst.initialize(&ctx(parent()), 42).unwrap();
    let again = inst.initialize(&ctx(AlkaneId { block: 9, tx: 9 }), 77);
    assert!(matches!(again, Err(InstanceError::AlreadyInitialized)));
    // The slots keep what the first call wrote.
    assert_eq!(inst.index(), Ok(42));
    assert_eq!(inst.collection_ref(), Ok(parent()));
}

#[test]
fn initialize_forwards_incoming_transfers() {
    let mut inst = ArbuzOrbitalInstance::new();
    let attached = AlkaneTransfer { id: AlkaneId { block: 5, tx: 6 }, value: 10 };
    let context = Context {
        myself: AlkaneId { block: 2, tx: 1 },
        caller: parent(),
        incoming_alkanes: vec![attached],
    };
    let resp = inst.initialize(&context, 1).unwrap();
    assert_eq!(resp.alkanes.len(), 2);
    assert_eq!(resp.alkanes[0], attached);
    assert_eq!(resp.alkanes[1], AlkaneTransfer { id: AlkaneId { block: 2, tx: 1 }, value: 1 });
}

#[test]
fn unset_reference_read_is_fatal() {
    let inst = ArbuzOrbitalInstance::new();
    assert_eq!(inst.collection_ref(), Err(InstanceError::Uninitialized));
}

#[test]
fn fresh_index_defaults_to_zero() {
    let inst = ArbuzOrbitalInstance::new();
    assert_eq!(inst.index(), Ok(0));
}

#[test]
fn name_and_symbol_before_initialization_fail_like_other_reads() {
    let inst = ArbuzOrbitalInstance::new();
    assert_eq!(inst.name(), Err(InstanceError::Uninitialized));
    assert_eq!(inst.symbol(), Err(InstanceError::Uninitialized));
}

#[test]
fn zero_zero_reference_reports_template_identity() {
    // A stored zero/zero reference is the template sentinel.
    let inst = ArbuzOrbitalInstance::from_slots(false, vec![0u8; 32], Vec::new());
    assert_eq!(inst.name(), Ok(String::from("Magic Arbuz Orbital Template")));
    assert_eq!(inst.symbol(), Ok(String::from("magic-arbuz-orbital-template")));
}

#[test]
fn minted_identity_strings() {
    let inst = minted(42);
    assert_eq!(inst.name(), Ok(String::from("Magic Arbuz Card #42 🎯")));
    assert_eq!(inst.symbol(), Ok(String::from("magic-arbuz-card-42-🎯")));
}

#[test]
fn seed_instance_identity_strings() {
    let inst = minted(0);
    assert_eq!(inst.name(), Ok(String::from("Magic Arbuz Card #0 🌱")));
    assert_eq!(inst.symbol(), Ok(String::from("magic-arbuz-card-0-🌱")));
}

#[test]
fn main_symbol_emoji_matches_engine() {
    let inst = ArbuzOrbitalInstance::new();
    assert_eq!(inst.get_main_symbol_emoji(0), "🌱");
    assert_eq!(inst.get_main_symbol_emoji(42), "🎯");
}

#[test]
fn total_supply_is_constant_one() {
    let inst = minted(42);
    let resp = inst.get_total_supply(&ctx(parent())).unwrap();
    assert_eq!(resp.data, Payload::Bytes(1u128.to_le_bytes().to_vec()));
}

#[test]
fn content_type_is_fixed() {
    let inst = ArbuzOrbitalInstance::new();
    let resp = inst.get_content_type(&ctx(parent())).unwrap();
    assert_eq!(resp.data, Payload::Text(String::from("text/javascript")));
}

#[test]
fn collection_identifier_is_decimal_block_colon_tx() {
    let inst = minted(42);
    let resp = inst.get_collection_identifier(&ctx(parent())).unwrap();
    assert_eq!(resp.data, Payload::Text(String::from("3:7")));
}

#[test]
fn collection_alkane_id_round_trips() {
    let caller = AlkaneId { block: 314159, tx: 271828 };
    let mut inst = ArbuzOrbitalInstance::new();
    inst.initialize(&ctx(caller), 5).unwrap();
    let resp = inst.get_collection_alkane_id(&ctx(caller)).unwrap();
    let bytes = match resp.data {
        Payload::Bytes(b) => b,
        Payload::Text(_) => panic!("expected raw bytes"),
    };
    assert_eq!(bytes.len(), 32);
    let block = u128::from_le_bytes(bytes[0..16].try_into().unwrap());
    let tx = u128::from_le_bytes(bytes[16..32].try_into().unwrap());
    assert_eq!(block, caller.block);
    assert_eq!(tx, caller.tx);
}

#[test]
fn largest_values_format_in_decimal() {
    let caller = AlkaneId { block: u128::MAX, tx: 0 };
    let mut inst = ArbuzOrbitalInstance::new();
    inst.initialize(&ctx(caller), u128::MAX).unwrap();
    let resp = inst.get_collection_identifier(&ctx(caller)).unwrap();
    assert_eq!(
        resp.data,
        Payload::Text(String::from("340282366920938463463374607431768211455:0"))
    );
    assert_eq!(
        inst.name(),
        Ok(String::from("Magic Arbuz Card #340282366920938463463374607431768211455 🕯️"))
    );
}

#[test]
fn malformed_slots_read_as_corrupt() {
    let inst = ArbuzOrbitalInstance::from_slots(true, vec![1, 2, 3], vec![9]);
    assert_eq!(inst.collection_ref(), Err(InstanceError::CorruptState));
    assert_eq!(inst.index(), Err(InstanceError::CorruptState));
    assert_eq!(inst.name(), Err(InstanceError::CorruptState));
}

#[test]
fn delegated_queries_carry_opcode_and_index() {
    let inst = minted(42);
    let data = inst.get_data_request().unwrap();
    assert_eq!(data.target, parent());
    assert_eq!(data.inputs, vec![1000, 42]);
    let attrs = inst.get_attributes_request().unwrap();
    assert_eq!(attrs.target, parent());
    assert_eq!(attrs.inputs, vec![999, 42]);
}

#[test]
fn delegated_query_before_initialization_is_fatal() {
    let inst = ArbuzOrbitalInstance::new();
    assert_eq!(inst.get_data_request().unwrap_err(), InstanceError::Uninitialized);
}

#[test]
fn delegated_reply_is_returned_verbatim() {
    let context = ctx(parent());
    let resp = ArbuzOrbitalInstance::finish_delegated(&context, Some(vec![7, 8, 9])).unwrap();
    assert_eq!(resp.data, Payload::Bytes(vec![7, 8, 9]));
    assert!(resp.alkanes.is_empty());
}

#[test]
fn delegated_failure_propagates_as_fatal() {
    let context = ctx(parent());
    let r = ArbuzOrbitalInstance::finish_delegated(&context, None);
    assert_eq!(r.unwrap_err(), InstanceError::RemoteCallFailed);
}

#[test]
fn opcodes_route_to_their_operations() {
    assert_eq!(parse_request(&vec![0, 42]), Some(Request::Initialize { index: 42 }));
    assert_eq!(parse_request(&vec![99]), Some(Request::GetName));
    assert_eq!(parse_request(&vec![100]), Some(Request::GetSymbol));
    assert_eq!(parse_request(&vec![101]), Some(Request::GetTotalSupply));
    assert_eq!(parse_request(&vec![998]), Some(Request::GetCollectionIdentifier));
    assert_eq!(parse_request(&vec![999]), Some(Request::GetCollectionAlkaneId));
    assert_eq!(parse_request(&vec![1000]), Some(Request::GetData));
    assert_eq!(parse_request(&vec![1001]), Some(Request::GetContentType));
    assert_eq!(parse_request(&vec![1002]), Some(Request::GetAttributes));
    assert_eq!(parse_request(&vec![7]), None);
    assert_eq!(parse_request(&vec![0]), None);
    assert_eq!(parse_request(&vec![99, 1]), None);
    assert_eq!(parse_request(&Vec::new()), None);
}

#[test]
fn dispatch_runs_handlers_and_delegates() {
    let mut inst = ArbuzOrbitalInstance::new();
    let context = ctx(parent());
    let step = inst.dispatch(&context, &Request::Initialize { index: 42 }).unwrap();
    match step {
        Step::Done(resp) => assert_eq!(resp.alkanes.len(), 1),
        Step::Delegate(_) => panic!("initialization is not delegated"),
    }
    let step = inst.dispatch(&context, &Request::GetName).unwrap();
    match step {
        Step::Done(resp) => {
            assert_eq!(resp.data, Payload::Text(String::from("Magic Arbuz Card #42 🎯")))
        }
        Step::Delegate(_) => panic!("GetName is answered locally"),
    }
    let step = inst.dispatch(&context, &Request::GetData).unwrap();
    match step {
        Step::Done(_) => panic!("GetData is delegated"),
        Step::Delegate(cp) => {
            assert_eq!(cp.target, parent());
            assert_eq!(cp.inputs, vec![1000, 42]);
        }
    }
    let err = inst.dispatch(&context, &Request::Initialize { index: 9 }).unwrap_err();
    assert_eq!(err, InstanceError::AlreadyInitialized);
    assert_eq!(inst.index(), Ok(42));
}
