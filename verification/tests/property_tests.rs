use pizza_tipper::account::AccountId;
use pizza_tipper::account::CodeHash;
use pizza_tipper::errors::HighlightedPizzasError;
use pizza_tipper::errors::TipperError;
use pizza_tipper::events::PizzaSent;
use pizza_tipper::events::TipperEvent;
use pizza_tipper::registry::HighlightedPizzas;
use pizza_tipper::tipper::required_payment;
use pizza_tipper::tipper::Tipper;

fn alice() -> AccountId {
    AccountId::new([1; 32])
}

fn bob() -> AccountId {
    AccountId::new([2; 32])
}

fn carol() -> AccountId {
    AccountId::new([3; 32])
}

fn priced_tipper(price: u128) -> Tipper {
    Tipper::new(alice(), 1, CodeHash::new([0; 32]), 0, price, false)
}

#[test]
fn required_payment_is_price_times_quantity() {
    assert_eq!(required_payment(7, 3), 21);
    assert_eq!(required_payment(0, 1000), 0);
    assert_eq!(required_payment(1000, 0), 0);
    assert_eq!(required_payment(1, u32::MAX), u32::MAX as u128);
}

#[test]
fn required_payment_saturates_on_overflow() {
    assert_eq!(required_payment(u128::MAX, 2), u128::MAX);
    assert_eq!(required_payment(u128::MAX / 2 + 1, 2), u128::MAX);
    assert_eq!(required_payment(u128::MAX, 1), u128::MAX);
    assert_eq!(required_payment(u128::MAX / 2, 2), u128::MAX - 1);
}

#[test]
fn insufficient_amount_reports_saturated_cost() {
    let mut tipper = priced_tipper(u128::MAX);
    let r = tipper.tip(alice(), u128::MAX - 1, "m".to_string(), bob(), 2, true);
    assert_eq!(r, Err(TipperError::InsufficientAmount(u128::MAX)));
}

#[test]
fn second_tip_always_rejected() {
    let mut tipper = priced_tipper(7);
    assert!(tipper.tip(alice(), 7, "one".to_string(), bob(), 1, true).is_ok());
    // a generous payment does not help: the guard rejects the submitter
    let r = tipper.tip(alice(), 7000, "two".to_string(), carol(), 5, true);
    assert_eq!(r, Err(TipperError::AlreadyTipped));
}

#[test]
fn insufficient_tip_leaves_no_trace() {
    let mut tipper = priced_tipper(7);
    let r = tipper.tip(alice(), 6, "m".to_string(), bob(), 1, true);
    assert_eq!(r, Err(TipperError::InsufficientAmount(7)));
    assert!(tipper.get_by_id(0).is_none());
    assert_eq!(tipper.balance_of(alice()), 0);
    assert!(tipper.get_pizza_tippers().is_empty());
    assert!(tipper.events.is_empty());
}

#[test]
fn failed_payout_writes_no_record() {
    let mut tipper = priced_tipper(7);
    let r = tipper.tip(alice(), 7, "m".to_string(), bob(), 1, false);
    assert_eq!(r, Err(TipperError::TipError));
    assert!(tipper.get_by_id(0).is_none());
}

#[test]
fn tip_records_exact_fields_and_sequential_ids() {
    let mut tipper = priced_tipper(7);
    assert!(tipper.tip(alice(), 14, "first".to_string(), bob(), 2, true).is_ok());
    assert!(tipper.tip(bob(), 21, "second".to_string(), carol(), 3, true).is_ok());
    let first = tipper.get_by_id(0).unwrap();
    assert_eq!(first.from, alice());
    assert_eq!(first.to, bob());
    assert_eq!(first.pizzas, 2);
    assert_eq!(first.message, "first".to_string());
    let second = tipper.get_by_id(1).unwrap();
    assert_eq!(second.from, bob());
    assert_eq!(second.to, carol());
    assert_eq!(second.pizzas, 3);
    assert_eq!(second.message, "second".to_string());
    assert!(tipper.get_by_id(2).is_none());
}

#[test]
fn registry_rejects_duplicates_and_missing() {
    let owner = alice();
    let mut reg = HighlightedPizzas::new(owner);
    assert!(reg.add(owner, bob(), carol(), 0, 1).is_ok());
    assert_eq!(
        reg.add(owner, bob(), carol(), 9, 9),
        Err(HighlightedPizzasError::AlreadyHighlighted)
    );
    assert_eq!(
        reg.delete_tip_by_author(owner, carol()),
        Err(HighlightedPizzasError::HighlightNotFound)
    );
}

#[test]
fn rehighlight_after_delete_succeeds() {
    let owner = alice();
    let mut reg = HighlightedPizzas::new(owner);
    assert!(reg.add(owner, bob(), carol(), 0, 1).is_ok());
    assert!(reg.delete_tip_by_author(owner, bob()).is_ok());
    assert!(reg.add(owner, bob(), carol(), 1, 2).is_ok());
    assert_eq!(reg.get_highlighted_pizzas(bob()), Some(1));
}

#[test]
fn content_highlights_are_their_own_namespace() {
    let owner = alice();
    let mut reg = HighlightedPizzas::new(owner);
    assert!(reg.add(owner, bob(), carol(), 0, 1).is_ok());
    // the same identity can still be highlighted as a content author
    assert!(reg.add_content(owner, bob(), 7).is_ok());
    assert_eq!(reg.get_highlighted_pizzas(bob()), Some(0));
    assert_eq!(reg.get_content_by_author(bob()), Some(7));
    assert!(reg.delete_content_by_author(owner, bob()).is_ok());
    assert_eq!(reg.get_content_by_author(bob()), None);
    assert_eq!(reg.get_highlighted_pizzas(bob()), Some(0));
}

#[test]
fn non_owner_mutations_all_rejected() {
    let owner = alice();
    let outsider = bob();
    let mut reg = HighlightedPizzas::new(owner);
    assert!(reg.add(owner, carol(), bob(), 0, 1).is_ok());
    assert_eq!(
        reg.add(outsider, bob(), carol(), 0, 1),
        Err(HighlightedPizzasError::AccessDenied)
    );
    assert_eq!(
        reg.add_content(outsider, bob(), 1),
        Err(HighlightedPizzasError::AccessDenied)
    );
    assert_eq!(
        reg.delete_tip_by_author(outsider, carol()),
        Err(HighlightedPizzasError::AccessDenied)
    );
    assert_eq!(
        reg.delete_content_by_author(outsider, carol()),
        Err(HighlightedPizzasError::AccessDenied)
    );
    // nothing moved
    assert_eq!(reg.get_highlighted_pizzas(carol()), Some(0));
    assert_eq!(reg.list_highlighted(), vec![carol()]);
}

#[test]
fn scenario_exact_payment_succeeds() {
    let mut tipper = priced_tipper(7);
    let msg = "extra cheese".to_string();
    let r = tipper.tip(alice(), 7, msg.clone(), bob(), 1, true);
    assert!(r.is_ok());
    assert_eq!(
        tipper.events[0],
        TipperEvent::PizzaSent(PizzaSent {
            from: alice(),
            to: bob(),
            id: 0,
            pizzas: 1,
        })
    );
    assert_eq!(tipper.get_by_id(0).unwrap().message, msg);
}

#[test]
fn scenario_short_payment_rejected() {
    let mut tipper = priced_tipper(7);
    let r = tipper.tip(alice(), 6, "extra cheese".to_string(), bob(), 1, true);
    assert_eq!(r, Err(TipperError::InsufficientAmount(7)));
    assert!(tipper.get_by_id(0).is_none());
    assert!(tipper.events.is_empty());
}

#[test]
fn disabled_guard_allows_repeat_tips() {
    let mut tipper = Tipper::new(alice(), 1, CodeHash::new([0; 32]), 0, 7, true);
    assert!(tipper.tip(alice(), 7, "one".to_string(), bob(), 1, true).is_ok());
    assert!(tipper.tip(alice(), 7, "two".to_string(), bob(), 1, true).is_ok());
    // both records exist, and the audit list shows the submitter twice
    assert_eq!(tipper.get_by_id(0).unwrap().message, "one".to_string());
    assert_eq!(tipper.get_by_id(1).unwrap().message, "two".to_string());
    assert_eq!(tipper.get_pizza_tippers(), vec![alice(), alice()]);
}

#[test]
fn audit_list_keeps_order_and_removes_first_match() {
    let owner = alice();
    let mut reg = HighlightedPizzas::new(owner);
    assert!(reg.add(owner, bob(), carol(), 0, 1).is_ok());
    assert!(reg.add_content(owner, bob(), 5).is_ok());
    assert!(reg.add(owner, carol(), bob(), 1, 1).is_ok());
    assert_eq!(reg.list_highlighted(), vec![bob(), bob(), carol()]);
    assert!(reg.delete_tip_by_author(owner, bob()).is_ok());
    // only the first of bob's two audit entries is gone
    assert_eq!(reg.list_highlighted(), vec![bob(), carol()]);
}
