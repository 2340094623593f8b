//! Checks of the listing projections and their chain-id joins.

use donations::executor::execute_operation;
use donations::protocol::{ExecContext, Operation};
use donations::queries::{product_to_full_view, product_to_public_view, purchase_to_full_view};
use donations::store::Store;
use donations::types::{Account, Product, Purchase};

const CHAIN: u64 = 4;
const MAIN: u64 = 9;
const ALICE: u64 = 100;
const BOB: u64 = 200;

fn ctx(time_micros: u64, caller: u64) -> ExecContext {
    ExecContext { chain_id: CHAIN, time_micros, caller }
}

fn sample_product(created_at: u64) -> Product {
    Product {
        id: donations::ids::ProductId { created_at, chain_id: CHAIN },
        author: ALICE,
        author_chain_id: CHAIN,
        public_data: vec![("name".to_string(), "print".to_string())],
        price: 55,
        private_data: vec![("link".to_string(), "u://p".to_string())],
        success_message: Some("ok".to_string()),
        order_form: Vec::new(),
        created_at,
    }
}

#[test]
fn product_views_split_public_and_private() {
    let p = sample_product(42);
    let public = product_to_public_view(&p);
    assert_eq!(public.public_data.len(), 1);
    assert_eq!(public.public_data[0].key, "name");
    assert_eq!(public.price, 55);
    let full = product_to_full_view(&p);
    assert_eq!(full.private_data.len(), 1);
    assert_eq!(full.private_data[0].value, "u://p");
    assert_eq!(full.success_message.as_deref(), Some("ok"));
}

#[test]
fn purchase_full_view_keeps_the_snapshot() {
    let p = sample_product(43);
    let purchase = Purchase {
        id: donations::ids::PurchaseId { created_at: 50, chain_id: CHAIN },
        product_id: p.id,
        buyer: BOB,
        buyer_chain_id: CHAIN,
        seller: ALICE,
        seller_chain_id: CHAIN,
        amount: 55,
        timestamp: 50,
        order_data: vec![("note".to_string(), "gift".to_string())],
        product: p,
    };
    let v = purchase_to_full_view(&purchase);
    assert_eq!(v.amount, 55);
    assert_eq!(v.order_data[0].key, "note");
    assert_eq!(v.product.price, 55);
}

#[test]
fn home_chain_joins_follow_the_registry() {
    let mut s = Store::new();
    let _ = execute_operation(
        &mut s,
        ctx(1, ALICE),
        Operation::Register {
            main_chain_id: MAIN,
            name: Some("alice".to_string()),
            bio: None,
            socials: Vec::new(),
            avatar_hash: None,
            header_hash: None,
        },
    )
    .unwrap();
    // Alice's view names her registered main chain; Bob's falls back to the
    // listing chain.
    let view = s.profile_view(ALICE, CHAIN).unwrap();
    assert_eq!(view.chain_id, MAIN);
    assert_eq!(view.name, "alice");
    assert!(s.profile_view(BOB, CHAIN).is_none());

    let _ = execute_operation(
        &mut s,
        ctx(2, BOB),
        Operation::Transfer {
            owner: BOB,
            amount: 5,
            target_account: Account { chain_id: CHAIN, owner: ALICE },
            text_message: None,
        },
    )
    .unwrap();
    let views = s.donations_view_by_recipient(ALICE, CHAIN);
    assert_eq!(views.len(), 1);
    assert_eq!(views[0].from_owner, BOB);
    assert_eq!(views[0].from_chain_id, CHAIN);
    assert_eq!(views[0].to_chain_id, MAIN);

    let total = s.total_received_view(ALICE, CHAIN);
    assert_eq!(total.amount, 5);
    assert_eq!(total.chain_id, MAIN);
    let sent = s.total_sent_view(BOB, CHAIN);
    assert_eq!(sent.amount, 5);
    assert_eq!(sent.chain_id, CHAIN);
}

#[test]
fn whole_table_listings_walk_storage_order() {
    let mut s = Store::new();
    s.set_name(ALICE, "alice".to_string());
    s.set_name(BOB, "bob".to_string());
    let profiles = s.all_profiles();
    assert_eq!(profiles.len(), 2);
    assert_eq!(profiles[0].name, "alice");
    assert_eq!(profiles[1].name, "bob");

    let _ = execute_operation(
        &mut s,
        ctx(7, ALICE),
        Operation::SetSubscriptionPrice { price: 3, description: None },
    )
    .unwrap();
    assert_eq!(s.all_subscription_prices().len(), 1);

    let _ = execute_operation(
        &mut s,
        ctx(8, ALICE),
        Operation::CreateProduct {
            public_data: Vec::new(),
            price: 10,
            private_data: Vec::new(),
            success_message: None,
            order_form: Vec::new(),
        },
    )
    .unwrap();
    assert_eq!(s.all_products().len(), 1);
    assert_eq!(s.all_products()[0].price, 10);

    let _ = execute_operation(
        &mut s,
        ctx(9, BOB),
        Operation::TransferToBuy {
            owner: BOB,
            product_id: donations::ids::ProductId { created_at: 8, chain_id: CHAIN },
            amount: 10,
            target_account: Account { chain_id: CHAIN, owner: ALICE },
            order_data: Vec::new(),
        },
    )
    .unwrap();
    assert_eq!(s.all_purchases().len(), 1);
    assert_eq!(s.my_purchases(BOB).len(), 1);
    assert_eq!(s.my_orders(ALICE).len(), 1);

    // A purchase is no donation; only a transfer writes a donation record.
    assert_eq!(s.all_donations().len(), 0);
    let _ = execute_operation(
        &mut s,
        ctx(10, BOB),
        Operation::Transfer {
            owner: BOB,
            amount: 2,
            target_account: Account { chain_id: CHAIN, owner: ALICE },
            text_message: None,
        },
    )
    .unwrap();
    assert_eq!(s.all_donations().len(), 1);
}
