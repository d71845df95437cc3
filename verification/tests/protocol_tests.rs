use pizza_tipper::account::AccountId;
use pizza_tipper::account::CodeHash;
use pizza_tipper::errors::HighlightedPizzasError;
use pizza_tipper::errors::TipperError;
use pizza_tipper::protocol::dispatch_registry_call;
use pizza_tipper::protocol::DispatchResult;
use pizza_tipper::registry::HighlightedPizzas;
use pizza_tipper::system::tip_invocation;
use pizza_tipper::system::InvocationOutcome;
use pizza_tipper::tipper::Tipper;

fn alice() -> AccountId {
    AccountId::new([1; 32])
}

fn bob() -> AccountId {
    AccountId::new([2; 32])
}

fn tipper_address() -> AccountId {
    AccountId::new([0xAA; 32])
}

fn registry_address() -> AccountId {
    AccountId::new([0xBB; 32])
}

fn configured_tipper(price: u128) -> Tipper {
    let mut t = Tipper::new(alice(), 1, CodeHash::new([0; 32]), 0, price, false);
    t.set_highlighted_pizzas(registry_address());
    t
}

#[test]
fn highlight_request_bytes_are_the_scale_encoding() {
    let from = AccountId::new([7; 32]);
    let to = AccountId::new([9; 32]);
    let tipper = configured_tipper(7);
    let request = tipper.highlight_tip(from, to, 3, 260, 42).unwrap();
    assert_eq!(request.callee, registry_address());
    assert_eq!(request.transferred_value, 42);

    // the same bytes, assembled independently with the codec itself
    let mut expected: Vec<u8> = vec![0, 0, 0, 7];
    expected.extend(parity_scale_codec::Encode::encode(&[7u8; 32]));
    expected.extend(parity_scale_codec::Encode::encode(&3u32));
    expected.extend(parity_scale_codec::Encode::encode(&260u32));
    // splice the second account in after the first
    let mut by_hand: Vec<u8> = vec![0, 0, 0, 7];
    by_hand.extend([7u8; 32]);
    by_hand.extend([9u8; 32]);
    by_hand.extend(3u32.to_le_bytes());
    by_hand.extend(260u32.to_le_bytes());
    assert_eq!(request.input, by_hand);
    assert_eq!(&request.input[..36], &expected[..36]);
    assert_eq!(&request.input[68..], &expected[36..]);
}

#[test]
fn delete_request_bytes() {
    let tipper = configured_tipper(7);
    let request = tipper.delete_tip_highlight(alice()).unwrap();
    assert_eq!(request.transferred_value, 0);
    let mut by_hand: Vec<u8> = vec![0, 0, 0, 4];
    by_hand.extend([1u8; 32]);
    assert_eq!(request.input, by_hand);
}

#[test]
fn no_registry_configured_no_request() {
    let tipper = Tipper::free();
    assert!(tipper.highlight_tip(alice(), bob(), 0, 1, 0).is_none());
    assert!(tipper.delete_tip_highlight(alice()).is_none());
}

#[test]
fn dispatch_add_and_read_back() {
    let mut reg = HighlightedPizzas::new(tipper_address());
    let tipper = configured_tipper(7);
    let request = tipper.highlight_tip(alice(), bob(), 5, 2, 0).unwrap();
    let res = dispatch_registry_call(&mut reg, tipper_address(), 0, &request.input);
    match res {
        DispatchResult::Reply(bytes) => assert_eq!(bytes, vec![0]),
        DispatchResult::BadCall => panic!("expected a reply"),
    }
    assert_eq!(reg.get_highlighted_pizzas(alice()), Some(5));

    // read the highlight back over the wire as well
    let mut read_input: Vec<u8> = vec![0, 0, 0, 6];
    read_input.extend([1u8; 32]);
    let res = dispatch_registry_call(&mut reg, bob(), 0, &read_input);
    match res {
        DispatchResult::Reply(bytes) => {
            let mut expected: Vec<u8> = vec![1];
            expected.extend(5u32.to_le_bytes());
            assert_eq!(bytes, expected);
        }
        DispatchResult::BadCall => panic!("expected a reply"),
    }
}

#[test]
fn dispatch_rejects_non_owner_with_encoded_error() {
    let mut reg = HighlightedPizzas::new(tipper_address());
    let tipper = configured_tipper(7);
    let request = tipper.highlight_tip(alice(), bob(), 5, 2, 0).unwrap();
    let res = dispatch_registry_call(&mut reg, bob(), 0, &request.input);
    match res {
        // variant indexes: Err, then AccessDenied
        DispatchResult::Reply(bytes) => assert_eq!(bytes, vec![1, 2]),
        DispatchResult::BadCall => panic!("expected a reply"),
    }
    assert_eq!(reg.get_highlighted_pizzas(alice()), None);
}

#[test]
fn dispatch_refuses_undecodable_input() {
    let mut reg = HighlightedPizzas::new(tipper_address());
    let garbage: Vec<u8> = vec![0, 0];
    assert!(matches!(
        dispatch_registry_call(&mut reg, tipper_address(), 0, &garbage),
        DispatchResult::BadCall
    ));
    let unknown_selector: Vec<u8> = vec![0, 0, 0, 77, 1, 2, 3];
    assert!(matches!(
        dispatch_registry_call(&mut reg, tipper_address(), 0, &unknown_selector),
        DispatchResult::BadCall
    ));
    let wrong_length: Vec<u8> = vec![0, 0, 0, 7, 9, 9];
    assert!(matches!(
        dispatch_registry_call(&mut reg, tipper_address(), 0, &wrong_length),
        DispatchResult::BadCall
    ));
}

#[test]
fn dispatch_delete_and_content_calls() {
    let owner = tipper_address();
    let mut reg = HighlightedPizzas::new(owner);
    assert!(reg.add(owner, alice(), bob(), 0, 1).is_ok());

    let mut delete_input: Vec<u8> = vec![0, 0, 0, 4];
    delete_input.extend([1u8; 32]);
    match dispatch_registry_call(&mut reg, owner, 0, &delete_input) {
        DispatchResult::Reply(bytes) => assert_eq!(bytes, vec![0]),
        DispatchResult::BadCall => panic!("expected a reply"),
    }
    assert_eq!(reg.get_highlighted_pizzas(alice()), None);

    let mut content_input: Vec<u8> = vec![0, 0, 0, 9];
    content_input.extend([2u8; 32]);
    content_input.extend(11u32.to_le_bytes());
    match dispatch_registry_call(&mut reg, owner, 0, &content_input) {
        DispatchResult::Reply(bytes) => assert_eq!(bytes, vec![0]),
        DispatchResult::BadCall => panic!("expected a reply"),
    }
    assert_eq!(reg.get_content_by_author(bob()), Some(11));

    let mut read_content: Vec<u8> = vec![0, 0, 0, 8];
    read_content.extend([2u8; 32]);
    match dispatch_registry_call(&mut reg, alice(), 0, &read_content) {
        DispatchResult::Reply(bytes) => {
            let mut expected: Vec<u8> = vec![1];
            expected.extend(11u32.to_le_bytes());
            assert_eq!(bytes, expected);
        }
        DispatchResult::BadCall => panic!("expected a reply"),
    }

    let mut delete_content: Vec<u8> = vec![0, 0, 0, 3];
    delete_content.extend([2u8; 32]);
    match dispatch_registry_call(&mut reg, owner, 0, &delete_content) {
        DispatchResult::Reply(bytes) => assert_eq!(bytes, vec![0]),
        DispatchResult::BadCall => panic!("expected a reply"),
    }
    assert_eq!(reg.get_content_by_author(bob()), None);
}

#[test]
fn invocation_commits_tip_and_highlight() {
    let mut tipper = configured_tipper(7);
    let mut reg = HighlightedPizzas::new(tipper_address());
    let outcome = tip_invocation(
        &mut tipper,
        tipper_address(),
        &mut reg,
        registry_address(),
        alice(),
        7,
        "msg".to_string(),
        bob(),
        1,
        true,
    );
    assert_eq!(outcome, InvocationOutcome::Committed(Ok(())));
    assert_eq!(tipper.get_by_id(0).unwrap().from, alice());
    assert_eq!(reg.get_highlighted_pizzas(alice()), Some(0));
}

#[test]
fn invocation_keeps_tip_when_registry_rejects() {
    let mut tipper = configured_tipper(7);
    // the registry is owned by someone else, so the cross-module call is
    // rejected with AccessDenied
    let mut reg = HighlightedPizzas::new(bob());
    let outcome = tip_invocation(
        &mut tipper,
        tipper_address(),
        &mut reg,
        registry_address(),
        alice(),
        7,
        "msg".to_string(),
        bob(),
        1,
        true,
    );
    assert_eq!(
        outcome,
        InvocationOutcome::Committed(Err(TipperError::HighlightError(
            HighlightedPizzasError::AccessDenied
        )))
    );
    // the already-settled tip record is not rolled back
    assert!(tipper.get_by_id(0).is_some());
    assert_eq!(reg.get_highlighted_pizzas(alice()), None);
}

#[test]
fn invocation_aborts_on_unreachable_registry() {
    let mut tipper = configured_tipper(7);
    let mut reg = HighlightedPizzas::new(tipper_address());
    // the deployed registry lives at a different address than configured
    let outcome = tip_invocation(
        &mut tipper,
        tipper_address(),
        &mut reg,
        AccountId::new([0xCC; 32]),
        alice(),
        7,
        "msg".to_string(),
        bob(),
        1,
        true,
    );
    assert_eq!(outcome, InvocationOutcome::Aborted);
    assert!(tipper.get_by_id(0).is_none());
    assert!(reg.list_highlighted().is_empty());
}

#[test]
fn invocation_rejects_before_touching_registry() {
    let mut tipper = configured_tipper(7);
    let mut reg = HighlightedPizzas::new(tipper_address());
    let outcome = tip_invocation(
        &mut tipper,
        tipper_address(),
        &mut reg,
        registry_address(),
        alice(),
        6,
        "msg".to_string(),
        bob(),
        1,
        true,
    );
    assert_eq!(
        outcome,
        InvocationOutcome::Committed(Err(TipperError::InsufficientAmount(7)))
    );
    assert!(tipper.get_by_id(0).is_none());
    assert!(reg.list_highlighted().is_empty());
}

#[test]
fn invocation_without_registry_skips_highlighting() {
    let mut tipper = Tipper::new(alice(), 1, CodeHash::new([0; 32]), 0, 7, false);
    let mut reg = HighlightedPizzas::new(tipper_address());
    let outcome = tip_invocation(
        &mut tipper,
        tipper_address(),
        &mut reg,
        registry_address(),
        alice(),
        7,
        "msg".to_string(),
        bob(),
        1,
        true,
    );
    assert_eq!(outcome, InvocationOutcome::Committed(Ok(())));
    assert!(tipper.get_by_id(0).is_some());
    assert!(reg.list_highlighted().is_empty());
}
