use pizza_tipper::account::AccountId;
use pizza_tipper::account::CodeHash;
use pizza_tipper::events::PizzaSent;
use pizza_tipper::events::TipperEvent;
use pizza_tipper::tipper::Tipper;

const PRICE_PER_PIZZA: u128 = 7;

fn alice() -> AccountId {
    AccountId::new([1; 32])
}

fn bob() -> AccountId {
    AccountId::new([2; 32])
}

fn eve() -> AccountId {
    AccountId::new([5; 32])
}

fn dummy_hash() -> CodeHash {
    CodeHash::new([0x00; 32])
}

fn priced_tipper() -> Tipper {
    Tipper::new(alice(), 1, dummy_hash(), 0, PRICE_PER_PIZZA, false)
}

fn tip_from_alice(instance: &mut Tipper, attached: u128) {
    let msg: String = "dummy".into();
    assert!(
        instance.tip(alice(), attached, msg, bob(), 1, true).is_ok(),
        "tipping expected"
    );
}

#[test]
fn constructor_works() {
    let tipper = Tipper::free();
    assert_eq!(tipper.price_per_pizza, 0);
}

#[test]
fn lib_constructor_works() {
    let tipper = Tipper::free();
    assert_eq!(tipper.price_per_pizza, 0);
}

#[test]
fn pizza_msg_test() {
    let mut tipper = Tipper::free();
    let msg: String = "dummy".into();
    let _executed_tip = tipper.tip(alice(), 0, msg.clone(), bob(), 1, true);
    assert_eq!(tipper.get_by_id(0).unwrap().message, "dummy".to_string());
}

#[test]
fn lib_pizza_msg_test() {
    let mut tipper = Tipper::free();
    let msg: String = "dummy".into();
    let _executed_tip = tipper.tip(alice(), 0, msg.clone(), bob(), 1, true);
    assert_eq!(tipper.get_by_id(0).unwrap().message, "dummy".to_string());
}

#[test]
fn event_on_tip() {
    let mut instance = Tipper::free();
    tip_from_alice(&mut instance, 0);
    assert_eq!(
        instance.events[0],
        TipperEvent::PizzaSent(PizzaSent {
            from: alice(),
            to: bob(),
            id: 0,
            pizzas: 1,
        })
    );
}

#[test]
fn lib_event_on_tip() {
    let mut instance = Tipper::free();
    tip_from_alice(&mut instance, 0);
    assert_eq!(instance.events.len(), 1);
    assert_eq!(
        instance.events[0],
        TipperEvent::PizzaSent(PizzaSent {
            from: alice(),
            to: bob(),
            id: 0,
            pizzas: 1,
        })
    );
}

#[test]
fn tipper_works() {
    let tipper = Tipper::free();
    assert_eq!(tipper.price_per_pizza, 0)
}

#[test]
fn lib_tipper_works() {
    let tipper = Tipper::free();
    assert_eq!(tipper.price_per_pizza, 0)
}

#[test]
fn tip_event_test() {
    let tipper = Tipper::free();
    assert!(tipper.events.is_empty());
}

#[test]
fn get_tippers_works() {
    let mut tipper = Tipper::free();
    let tip_res = tipper.tip(bob(), 0, "dummy".to_string(), eve(), 1, true);
    assert!(tip_res.is_ok(), "tip failed");
    assert!(tipper.get_pizza_tippers().contains(&bob()));
}

#[test]
fn pizza_cost_works() {
    let mut instance = priced_tipper();
    tip_from_alice(&mut instance, PRICE_PER_PIZZA);
    assert_eq!(instance.get_by_id(0).unwrap().pizzas, 1);
}

#[test]
#[should_panic(expected = "")]
fn pizza_cost_fails() {
    let mut instance = priced_tipper();
    tip_from_alice(&mut instance, 6);
}

#[test]
fn transfer_moves_ledger_balance() {
    let mut tipper = Tipper::new(alice(), 1, dummy_hash(), 100, PRICE_PER_PIZZA, false);
    assert_eq!(tipper.total_supply(), 100);
    assert_eq!(tipper.balance_of(alice()), 100);
    assert!(tipper.transfer(alice(), bob(), 30).is_ok());
    assert_eq!(tipper.balance_of(alice()), 70);
    assert_eq!(tipper.balance_of(bob()), 30);
}

#[test]
fn transfer_rejects_overdraft() {
    let mut tipper = Tipper::new(alice(), 1, dummy_hash(), 10, PRICE_PER_PIZZA, false);
    let r = tipper.transfer(alice(), bob(), 11);
    assert_eq!(r, Err(pizza_tipper::errors::Error::InsufficientBalance));
    assert_eq!(tipper.balance_of(alice()), 10);
    assert_eq!(tipper.balance_of(bob()), 0);
}

#[test]
fn transfer_to_self_changes_nothing() {
    let mut tipper = Tipper::new(alice(), 1, dummy_hash(), 10, PRICE_PER_PIZZA, false);
    assert!(tipper.transfer(alice(), alice(), 4).is_ok());
    assert_eq!(tipper.balance_of(alice()), 10);
}

#[test]
fn terminate_only_without_records() {
    let mut tipper = Tipper::free();
    assert_eq!(tipper.terminate_contract(alice()), Some(alice()));
    tip_from_alice(&mut tipper, 0);
    assert_eq!(tipper.terminate_contract(alice()), None);
}

#[test]
fn lookup_pizzas_is_ok() {
    let tipper = Tipper::free();
    assert!(tipper.lookup_pizzas().is_ok());
}

#[test]
fn get_by_account_finds_latest_tip() {
    let mut tipper = Tipper::free();
    tip_from_alice(&mut tipper, 0);
    let tip = tipper.get_by_account(&alice()).unwrap();
    assert_eq!(tip.from, alice());
    assert_eq!(tip.to, bob());
    assert_eq!(tip.message, "dummy".to_string());
    assert!(tipper.get_by_account(&eve()).is_none());
}

#[test]
fn get_pizza_cost_is_the_fixed_price() {
    let tipper = priced_tipper();
    assert_eq!(tipper.get_pizza_cost(), PRICE_PER_PIZZA);
}

#[test]
fn pizza_oracle_works() {
    let oracle = pizza_tipper::oracle::PizzaOracle::new();
    assert!(oracle.is_init);
    assert_eq!(oracle.get_price(0), None);
}
