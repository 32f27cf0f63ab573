use rpc_mux::MessageWithId;

#[test]
fn pair_tuple_implementation_for_u8() {
    let message = (10u8, ());

    assert_eq!(message.id(), 10u8);
}

#[test]
fn pair_tuple_implementation_for_isize() {
    let message = (1_000isize, "dummy string");

    assert_eq!(message.id(), 1_000isize);
}

#[test]
fn pair_tuple_implementation_for_u64_with_string() {
    let message = (79u64, "payload".to_string());

    assert_eq!(message.id(), 79u64);
}
