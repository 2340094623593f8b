//! End-to-end protocol scenarios: several stores stand for several chains,
//! and the tests carry each execution's outgoing messages to their
//! destination stores by hand, the way the host runtime would.

use donations::executor::{execute_message, execute_operation, process_streams};
use donations::protocol::{DonationsEvent, ExecContext, Operation, Outcome, StreamBatch};
use donations::store::Store;
use donations::types::{Account, DonationsError, THIRTY_DAYS_MICROS};

const MAIN: u64 = 1;
const CHAIN_A: u64 = 2;
const CHAIN_B: u64 = 3;
const AUTHOR: u64 = 10;
const BUYER: u64 = 20;
const SUBSCRIBER: u64 = 30;

fn ctx(chain_id: u64, time_micros: u64, caller: u64) -> ExecContext {
    ExecContext { chain_id, time_micros, caller }
}

/// Delivers every outgoing message of an outcome to the matching store.
fn deliver(outcome: &Outcome, chains: &mut [(u64, &mut Store)], time: u64) -> Vec<Outcome> {
    let mut produced = Vec::new();
    for m in &outcome.messages {
        for (chain_id, store) in chains.iter_mut() {
            if *chain_id == m.destination {
                let c = ExecContext { chain_id: *chain_id, time_micros: time, caller: 0 };
                produced.push(execute_message(store, c, m.message.clone()));
            }
        }
    }
    produced
}

#[test]
fn cross_chain_purchase_records_identical_snapshots() {
    // The author registers with the main chain, creates a product, and a
    // buyer on another chain buys it; the purchase lands on the main chain
    // and, through the product-data message, on the buyer's chain, both with
    // the same product snapshot; the seller's chain records the order with
    // the buyer's answers.
    let mut main = Store::new();
    let mut a = Store::new();
    let mut b = Store::new();
    let t0: u64 = 1_000_000;

    // Author registers on chain A, naming the main chain.
    let reg = execute_operation(
        &mut a,
        ctx(CHAIN_A, t0, AUTHOR),
        Operation::Register {
            main_chain_id: MAIN,
            name: Some("ada".to_string()),
            bio: None,
            socials: Vec::new(),
            avatar_hash: None,
            header_hash: None,
        },
    )
    .unwrap();
    deliver(&reg, &mut [(MAIN, &mut main)], t0);

    // Author creates a product priced 100 on chain A; it replicates to main.
    let create = execute_operation(
        &mut a,
        ctx(CHAIN_A, t0 + 1, AUTHOR),
        Operation::CreateProduct {
            public_data: vec![("name".to_string(), "zine".to_string())],
            price: 100,
            private_data: vec![("link".to_string(), "u://z".to_string())],
            success_message: Some("thanks".to_string()),
            order_form: Vec::new(),
        },
    )
    .unwrap();
    deliver(&create, &mut [(MAIN, &mut main)], t0 + 1);
    let product_id = donations::ids::ProductId { created_at: t0 + 1, chain_id: CHAIN_A };
    assert!(a.get_product(product_id).is_some());
    assert!(main.get_product(product_id).is_some());

    // The buyer registers on chain B too, so purchases notify the main chain.
    let reg_b = execute_operation(
        &mut b,
        ctx(CHAIN_B, t0 + 2, BUYER),
        Operation::Register {
            main_chain_id: MAIN,
            name: None,
            bio: None,
            socials: Vec::new(),
            avatar_hash: None,
            header_hash: None,
        },
    )
    .unwrap();
    deliver(&reg_b, &mut [(MAIN, &mut main)], t0 + 2);

    // The buyer pays 100 for the product from chain B.
    let t_buy = t0 + 10;
    let buy = execute_operation(
        &mut b,
        ctx(CHAIN_B, t_buy, BUYER),
        Operation::TransferToBuy {
            owner: BUYER,
            product_id,
            amount: 100,
            target_account: Account { chain_id: CHAIN_A, owner: AUTHOR },
            order_data: vec![("email".to_string(), "a@b.com".to_string())],
        },
    )
    .unwrap();
    assert_eq!(buy.messages.len(), 2);

    // Deliver the purchase notification to main and the order to chain A;
    // main answers with the product data for the buyer's chain.
    let followups = deliver(&buy, &mut [(MAIN, &mut main), (CHAIN_A, &mut a)], t_buy);
    for f in &followups {
        deliver(f, &mut [(CHAIN_B, &mut b)], t_buy);
    }

    // Both the main chain and the buyer's chain hold the purchase with the
    // same product snapshot and the buyer's submitted answers.
    let on_main = main.list_purchases_by_buyer(BUYER);
    let on_b = b.list_purchases_by_buyer(BUYER);
    assert_eq!(on_main.len(), 1);
    assert_eq!(on_b.len(), 1);
    assert_eq!(on_main[0].product.price, 100);
    assert_eq!(on_b[0].product.price, 100);
    assert_eq!(on_main[0].product.id, product_id);
    assert_eq!(on_b[0].product.id, product_id);
    assert_eq!(on_main[0].product.public_data, on_b[0].product.public_data);
    assert_eq!(on_main[0].order_data, on_b[0].order_data);
    assert_eq!(on_main[0].order_data.len(), 1);
    assert_eq!(on_main[0].order_data[0].0, "email");
    assert_eq!(on_main[0].order_data[0].1, "a@b.com");

    // The seller's chain holds the same order with the same answers.
    let orders = a.list_purchases_by_seller(AUTHOR);
    assert_eq!(orders.len(), 1);
    assert_eq!(orders[0].order_data, on_b[0].order_data);
    assert_eq!(orders[0].product.id, product_id);
}

#[test]
fn stale_subscription_expires_lazily_and_post_stays_home() {
    // A subscriber pays at t0 for a 30-day window; the author posts 31 days
    // later, the scan removes the stale subscription with an unsubscription
    // event, and no post goes out.
    let mut a = Store::new();
    let mut b = Store::new();
    let t0: u64 = 5_000_000;

    let sub_op = execute_operation(
        &mut b,
        ctx(CHAIN_B, t0, SUBSCRIBER),
        Operation::SubscribeToAuthor {
            owner: SUBSCRIBER,
            amount: 7,
            target_account: Account { chain_id: CHAIN_A, owner: AUTHOR },
        },
    )
    .unwrap();
    deliver(&sub_op, &mut [(CHAIN_A, &mut a)], t0);
    assert_eq!(a.get_active_subscriptions(AUTHOR, t0).len(), 1);

    let one_day: u64 = 24 * 60 * 60 * 1_000_000;
    let t_post = t0 + THIRTY_DAYS_MICROS + one_day;
    let post = execute_operation(
        &mut a,
        ctx(CHAIN_A, t_post, AUTHOR),
        Operation::CreatePost {
            title: "late".to_string(),
            content: "news".to_string(),
            image_hash: None,
            poll_options: Vec::new(),
            poll_end_timestamp: None,
            giveaway_prize: None,
            giveaway_end_timestamp: None,
        },
    )
    .unwrap();

    // No forwarding: the only subscriber had expired.
    assert!(post.messages.is_empty());
    // The scan emitted the creation event and then the unsubscription.
    assert_eq!(post.events.len(), 2);
    assert!(matches!(post.events[0], DonationsEvent::PostCreated { .. }));
    match &post.events[1] {
        DonationsEvent::UserUnsubscribed { subscriber, author, .. } => {
            assert_eq!(*subscriber, SUBSCRIBER);
            assert_eq!(*author, AUTHOR);
        },
        other => panic!("unexpected event {:?}", other),
    }
    assert!(a.get_active_subscriptions(AUTHOR, t_post).is_empty());
    assert!(a.get_active_subscriptions(AUTHOR, t0).is_empty());
}

#[test]
fn active_subscriber_receives_post() {
    // Within the paid window, a post fans out to the subscriber's chain and
    // lands in its store.
    let mut a = Store::new();
    let mut b = Store::new();
    let t0: u64 = 9_000_000;

    let sub_op = execute_operation(
        &mut b,
        ctx(CHAIN_B, t0, SUBSCRIBER),
        Operation::SubscribeToAuthor {
            owner: SUBSCRIBER,
            amount: 7,
            target_account: Account { chain_id: CHAIN_A, owner: AUTHOR },
        },
    )
    .unwrap();
    deliver(&sub_op, &mut [(CHAIN_A, &mut a)], t0);

    let t_post = t0 + 100;
    let post = execute_operation(
        &mut a,
        ctx(CHAIN_A, t_post, AUTHOR),
        Operation::CreatePost {
            title: "hello".to_string(),
            content: "world".to_string(),
            image_hash: None,
            poll_options: Vec::new(),
            poll_end_timestamp: None,
            giveaway_prize: None,
            giveaway_end_timestamp: None,
        },
    )
    .unwrap();
    assert_eq!(post.messages.len(), 1);
    assert_eq!(post.messages[0].destination, CHAIN_B);
    deliver(&post, &mut [(CHAIN_B, &mut b)], t_post);

    let feed = b.my_feed(SUBSCRIBER, t_post);
    assert_eq!(feed.len(), 1);
    assert_eq!(feed[0].title, "hello");
    assert_eq!(feed[0].author, AUTHOR);
}

#[test]
fn conflicting_votes_tally_exactly_two_everywhere() {
    // Two voters with valid subscriptions cast conflicting votes; the tally
    // counts exactly two votes, and the broadcast snapshot stored on another
    // chain is identical to the authoritative poll.
    let mut a = Store::new();
    let mut b = Store::new();
    let t0: u64 = 50_000;
    let voter2: u64 = 31;

    // Two subscribers, one remote on chain B, one local to chain A.
    let sub1 = execute_operation(
        &mut b,
        ctx(CHAIN_B, t0, SUBSCRIBER),
        Operation::SubscribeToAuthor {
            owner: SUBSCRIBER,
            amount: 1,
            target_account: Account { chain_id: CHAIN_A, owner: AUTHOR },
        },
    )
    .unwrap();
    deliver(&sub1, &mut [(CHAIN_A, &mut a)], t0);
    let _ = execute_operation(
        &mut a,
        ctx(CHAIN_A, t0 + 1, voter2),
        Operation::SubscribeToAuthor {
            owner: voter2,
            amount: 1,
            target_account: Account { chain_id: CHAIN_A, owner: AUTHOR },
        },
    )
    .unwrap();

    // The author posts a two-option poll.
    let t_post = t0 + 10;
    let post = execute_operation(
        &mut a,
        ctx(CHAIN_A, t_post, AUTHOR),
        Operation::CreatePost {
            title: "poll".to_string(),
            content: "pick".to_string(),
            image_hash: None,
            poll_options: vec!["yes".to_string(), "no".to_string()],
            poll_end_timestamp: Some(t_post + 1_000_000),
            giveaway_prize: None,
            giveaway_end_timestamp: None,
        },
    )
    .unwrap();
    deliver(&post, &mut [(CHAIN_B, &mut b)], t_post);
    let post_id = t_post % donations::types::POST_ID_MOD;

    // A remote vote arrives as a message; a local vote runs directly.
    let remote_vote = execute_operation(
        &mut b,
        ctx(CHAIN_B, t_post + 1, SUBSCRIBER),
        Operation::CastVote {
            author_chain_id: CHAIN_A,
            author: AUTHOR,
            post_id,
            option_index: 0,
        },
    )
    .unwrap();
    let broadcasts = deliver(&remote_vote, &mut [(CHAIN_A, &mut a)], t_post + 1);
    for o in &broadcasts {
        deliver(o, &mut [(CHAIN_B, &mut b)], t_post + 1);
    }
    let local_vote = execute_operation(
        &mut a,
        ctx(CHAIN_A, t_post + 2, voter2),
        Operation::CastVote {
            author_chain_id: CHAIN_A,
            author: AUTHOR,
            post_id,
            option_index: 1,
        },
    )
    .unwrap();
    deliver(&local_vote, &mut [(CHAIN_B, &mut b)], t_post + 2);

    let on_a = a.get_post(post_id).unwrap();
    let on_b = b.get_post(post_id).unwrap();
    let poll_a = on_a.poll.unwrap();
    let poll_b = on_b.poll.unwrap();
    let total_a: u64 = poll_a.options.iter().map(|o| o.votes_count).sum();
    let total_b: u64 = poll_b.options.iter().map(|o| o.votes_count).sum();
    assert_eq!(total_a, 2);
    assert_eq!(total_b, 2);
    assert_eq!(poll_a.options[0].votes_count, 1);
    assert_eq!(poll_a.options[1].votes_count, 1);
    for (x, y) in poll_a.options.iter().zip(poll_b.options.iter()) {
        assert_eq!(x.text, y.text);
        assert_eq!(x.votes_count, y.votes_count);
    }
}

#[test]
fn replaying_the_same_events_twice_changes_no_tally() {
    // A mirroring chain replays the same index range twice; because a tally
    // is recomputed from the carried snapshot, the second replay changes
    // nothing.
    let mut a = Store::new();
    let mut mirror = Store::new();
    let t0: u64 = 70_000;

    let post = execute_operation(
        &mut a,
        ctx(CHAIN_A, t0, AUTHOR),
        Operation::CreatePost {
            title: "p".to_string(),
            content: "c".to_string(),
            image_hash: None,
            poll_options: vec!["x".to_string(), "y".to_string()],
            poll_end_timestamp: None,
            giveaway_prize: None,
            giveaway_end_timestamp: None,
        },
    )
    .unwrap();
    let post_id = t0 % donations::types::POST_ID_MOD;
    let vote = execute_operation(
        &mut a,
        ctx(CHAIN_A, t0 + 1, AUTHOR),
        Operation::CastVote {
            author_chain_id: CHAIN_A,
            author: AUTHOR,
            post_id,
            option_index: 1,
        },
    )
    .unwrap();

    // The mirror replays the author chain's whole stream so far, twice.
    let mut events = Vec::new();
    for e in post.events.iter().chain(vote.events.iter()) {
        events.push(e.duplicate());
    }
    let mut events_again = Vec::new();
    for e in post.events.iter().chain(vote.events.iter()) {
        events_again.push(e.duplicate());
    }
    let c = ctx(MAIN, t0 + 5, 0);
    process_streams(
        &mut mirror,
        c,
        vec![StreamBatch { source_chain_id: CHAIN_A, events }],
    );
    let first = mirror.get_post(post_id).unwrap();
    process_streams(
        &mut mirror,
        c,
        vec![StreamBatch { source_chain_id: CHAIN_A, events: events_again }],
    );
    let second = mirror.get_post(post_id).unwrap();

    let poll1 = first.poll.unwrap();
    let poll2 = second.poll.unwrap();
    assert_eq!(poll1.options[1].votes_count, 1);
    assert_eq!(poll2.options[1].votes_count, 1);
    assert_eq!(poll1.options[0].votes_count, poll2.options[0].votes_count);
    assert_eq!(poll1.voters.len(), poll2.voters.len());
}

#[test]
fn replay_skips_own_chain() {
    // A batch whose source is the replaying chain itself is skipped.
    let mut a = Store::new();
    let t0: u64 = 80_000;
    let events = vec![DonationsEvent::ProfileNameUpdated {
        owner: AUTHOR,
        name: "ghostwritten".to_string(),
        timestamp: t0,
    }];
    process_streams(
        &mut a,
        ctx(CHAIN_A, t0, 0),
        vec![StreamBatch { source_chain_id: CHAIN_A, events }],
    );
    assert!(a.get_profile(AUTHOR).is_none());
}

#[test]
fn giveaway_resolves_once_and_rejects_again() {
    // Resolution picks the formula's winner, pays the prize, and a second
    // resolution is rejected with the winner unchanged.
    let mut a = Store::new();
    let t0: u64 = 90_000;
    let _ = execute_operation(
        &mut a,
        ctx(CHAIN_A, t0, AUTHOR),
        Operation::CreatePost {
            title: "give".to_string(),
            content: "away".to_string(),
            image_hash: None,
            poll_options: Vec::new(),
            poll_end_timestamp: None,
            giveaway_prize: Some(500),
            giveaway_end_timestamp: None,
        },
    )
    .unwrap();
    let post_id = t0 % donations::types::POST_ID_MOD;
    // The author joins their own giveaway.
    let _ = execute_operation(
        &mut a,
        ctx(CHAIN_A, t0 + 1, AUTHOR),
        Operation::ParticipateInGiveaway {
            author_chain_id: CHAIN_A,
            author: AUTHOR,
            post_id,
        },
    )
    .unwrap();
    let resolved = execute_operation(
        &mut a,
        ctx(CHAIN_A, t0 + 2, AUTHOR),
        Operation::ResolveGiveaway { post_id },
    )
    .unwrap();
    assert_eq!(resolved.actions.len(), 1);
    let g1 = a.get_post(post_id).unwrap().giveaway.unwrap();
    assert!(g1.is_resolved);
    let winner1 = g1.winner.unwrap();
    assert_eq!(winner1.owner, AUTHOR);

    let again = execute_operation(
        &mut a,
        ctx(CHAIN_A, t0 + 3, AUTHOR),
        Operation::ResolveGiveaway { post_id },
    );
    assert!(matches!(again, Err(DonationsError::ValidationError)));
    let g2 = a.get_post(post_id).unwrap().giveaway.unwrap();
    assert_eq!(g2.winner.unwrap().owner, winner1.owner);
    assert_eq!(g2.winner.unwrap().joined_at, winner1.joined_at);
}


#[test]
fn main_chain_mirrors_a_satellite_through_replay() {
    // The hub discovers a satellite through the register flow and then
    // converges by replaying the satellite's whole event log.
    let mut a = Store::new();
    let mut hub = Store::new();
    let t0: u64 = 2_000_000;

    let mut log: Vec<DonationsEvent> = Vec::new();
    let mut record = |out: &Outcome, log: &mut Vec<DonationsEvent>| {
        for e in &out.events {
            log.push(e.duplicate());
        }
    };

    let reg = execute_operation(
        &mut a,
        ctx(CHAIN_A, t0, AUTHOR),
        Operation::Register {
            main_chain_id: MAIN,
            name: Some("ada".to_string()),
            bio: Some("writes".to_string()),
            socials: Vec::new(),
            avatar_hash: None,
            header_hash: None,
        },
    )
    .unwrap();
    record(&reg, &mut log);
    let create = execute_operation(
        &mut a,
        ctx(CHAIN_A, t0 + 1, AUTHOR),
        Operation::CreateProduct {
            public_data: vec![("name".to_string(), "print".to_string())],
            price: 11,
            private_data: Vec::new(),
            success_message: None,
            order_form: Vec::new(),
        },
    )
    .unwrap();
    record(&create, &mut log);
    let tip = execute_operation(
        &mut a,
        ctx(CHAIN_A, t0 + 2, BUYER),
        Operation::Transfer {
            owner: BUYER,
            amount: 3,
            target_account: Account { chain_id: CHAIN_A, owner: AUTHOR },
            text_message: Some("hi".to_string()),
        },
    )
    .unwrap();
    record(&tip, &mut log);

    process_streams(
        &mut hub,
        ctx(MAIN, t0 + 9, 0),
        vec![StreamBatch { source_chain_id: CHAIN_A, events: log }],
    );

    let p = hub.get_profile(AUTHOR).unwrap();
    assert_eq!(p.name, "ada");
    assert_eq!(p.bio, "writes");
    let product_id = donations::ids::ProductId { created_at: t0 + 1, chain_id: CHAIN_A };
    assert_eq!(hub.get_product(product_id).unwrap().price, 11);
    let mirrored = hub.list_donations_by_recipient(AUTHOR);
    assert_eq!(mirrored.len(), 1);
    assert_eq!(mirrored[0].amount, 3);
    assert_eq!(mirrored[0].message.as_deref(), Some("hi"));
}


#[test]
fn malformed_order_message_is_absorbed() {
    // A stray order message with a repeated answer key is no map at all:
    // the seller's chain absorbs it and records nothing.
    let mut a = Store::new();
    let t0: u64 = 3_000_000;
    let _ = execute_operation(
        &mut a,
        ctx(CHAIN_A, t0, AUTHOR),
        Operation::CreateProduct {
            public_data: Vec::new(),
            price: 9,
            private_data: Vec::new(),
            success_message: None,
            order_form: Vec::new(),
        },
    )
    .unwrap();
    let product_id = donations::ids::ProductId { created_at: t0, chain_id: CHAIN_A };
    let out = execute_message(
        &mut a,
        ctx(CHAIN_A, t0 + 1, 0),
        donations::protocol::Message::OrderReceived {
            purchase_id: donations::ids::PurchaseId { created_at: t0 + 1, chain_id: CHAIN_B },
            product_id,
            buyer: BUYER,
            buyer_chain_id: CHAIN_B,
            amount: 9,
            order_data: vec![
                ("email".to_string(), "a@b".to_string()),
                ("email".to_string(), "c@d".to_string()),
            ],
            timestamp: t0 + 1,
        },
    );
    assert!(out.events.is_empty());
    assert!(a.list_purchases_by_seller(AUTHOR).is_empty());
}
