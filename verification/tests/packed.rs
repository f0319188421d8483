use vm::value::{packed_item_count, packed_payload_bytes, Value};

fn list(items: Vec<Value>) -> Value {
    Value::List(items)
}

#[test]
fn packed_payload_bytes_scalars_and_patches_list() {
    assert_eq!(packed_payload_bytes(&Value::Nil), 0);
    assert_eq!(packed_payload_bytes(&Value::Bool(true)), 1);
    assert_eq!(packed_payload_bytes(&Value::U8(1)), 1);
    assert_eq!(packed_payload_bytes(&Value::U16(1)), 2);
    assert_eq!(packed_payload_bytes(&Value::U32(1)), 4);
    assert_eq!(packed_payload_bytes(&Value::U64(1)), 8);
    assert_eq!(packed_payload_bytes(&Value::U128(1)), 16);
    assert_eq!(packed_payload_bytes(&Value::bytes(vec![1, 2, 3])), 3);
    assert_eq!(packed_payload_bytes(&Value::Address(vec![0u8; 21])), 21);
    let argv = list(vec![Value::U8(0), Value::U8(1), Value::U8(1)]);
    assert_eq!(packed_payload_bytes(&argv), 3);
    assert_eq!(packed_item_count(&argv), 3);
    assert_eq!(packed_item_count(&Value::U8(1)), 1);
    let tup = Value::Tuple(vec![Value::U8(1), Value::U16(2)]);
    assert_eq!(packed_payload_bytes(&tup), 3);
    assert_eq!(packed_item_count(&tup), 2);
    let nils = list(vec![Value::Nil, Value::Nil, Value::Nil]);
    assert_eq!(packed_payload_bytes(&nils), 0);
    assert_eq!(packed_item_count(&nils), 3);
}

#[test]
fn packed_payload_sums_nested_and_map_values() {
    let inner = list(vec![Value::U32(1), Value::bytes(vec![9; 5])]);
    let outer = Value::Tuple(vec![inner, Value::U64(3), Value::Handle(7)]);
    assert_eq!(packed_payload_bytes(&outer), 4 + 5 + 8);
    let map = Value::Dict(vec![(b"k".to_vec(), Value::U16(1)), (b"kk".to_vec(), Value::U128(1))]);
    assert_eq!(packed_payload_bytes(&map), 2 + 16);
    assert_eq!(packed_item_count(&map), 1);
    assert_eq!(packed_payload_bytes(&Value::Handle(1)), 0);
}
