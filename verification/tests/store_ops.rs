//! Unit-level checks of the lifecycle rules and queries on a single chain.

use donations::executor::{execute_operation, op_cast_vote};
use donations::ids::ProductId;
use donations::market::{validate_custom_fields, validate_order_form};
use donations::protocol::{ExecContext, Operation, ResponseData};
use donations::queries::{btree_to_pairs, order_form_to_views};
use donations::store::Store;
use donations::types::{Account, DonationsError, OrderFormField};

const CHAIN: u64 = 7;
const ALICE: u64 = 100;
const BOB: u64 = 200;

fn ctx(time_micros: u64, caller: u64) -> ExecContext {
    ExecContext { chain_id: CHAIN, time_micros, caller }
}

fn pairs(n: usize) -> Vec<(String, String)> {
    let mut v = Vec::new();
    for i in 0..n {
        v.push((format!("k{}", i), format!("v{}", i)));
    }
    v
}

#[test]
fn empty_name_defaults_to_anon() {
    let mut s = Store::new();
    let _ = execute_operation(
        &mut s,
        ctx(1, ALICE),
        Operation::UpdateProfile {
            name: Some(String::new()),
            bio: Some("hi".to_string()),
            socials: Vec::new(),
            avatar_hash: None,
            header_hash: None,
        },
    )
    .unwrap();
    let p = s.get_profile(ALICE).unwrap();
    assert_eq!(p.name, "anon");
    assert_eq!(p.bio, "hi");
}

#[test]
fn social_links_unique_by_name_last_write_wins() {
    let mut s = Store::new();
    s.set_social(ALICE, "web".to_string(), "u1".to_string());
    s.set_social(ALICE, "git".to_string(), "u2".to_string());
    s.set_social(ALICE, "web".to_string(), "u3".to_string());
    let p = s.get_profile(ALICE).unwrap();
    assert_eq!(p.socials.len(), 2);
    assert_eq!(p.socials[0].name, "web");
    assert_eq!(p.socials[0].url, "u3");
    assert_eq!(p.socials[1].name, "git");
}

#[test]
fn donation_indices_follow_transfers() {
    let mut s = Store::new();
    let out = execute_operation(
        &mut s,
        ctx(5, ALICE),
        Operation::Transfer {
            owner: ALICE,
            amount: 40,
            target_account: Account { chain_id: CHAIN, owner: BOB },
            text_message: Some("tip".to_string()),
        },
    )
    .unwrap();
    // Same chain: no message leaves, one donation event is appended.
    assert!(out.messages.is_empty());
    assert_eq!(out.events.len(), 1);
    let received = s.list_donations_by_recipient(BOB);
    assert_eq!(received.len(), 1);
    assert_eq!(received[0].amount, 40);
    assert_eq!(received[0].from, ALICE);
    assert_eq!(received[0].message.as_deref(), Some("tip"));
    assert_eq!(received[0].source_chain_id, None);
    assert_eq!(s.total_received_amount(BOB), 40);
    assert_eq!(s.total_sent_amount(ALICE), 40);
    assert_eq!(s.total_received_amount(ALICE), 0);
}

#[test]
fn cross_chain_transfer_sends_value_message() {
    let mut s = Store::new();
    let out = execute_operation(
        &mut s,
        ctx(5, ALICE),
        Operation::Transfer {
            owner: ALICE,
            amount: 9,
            target_account: Account { chain_id: CHAIN + 1, owner: BOB },
            text_message: None,
        },
    )
    .unwrap();
    assert_eq!(out.messages.len(), 1);
    assert_eq!(out.messages[0].destination, CHAIN + 1);
    let rec = s.list_donations_by_donor(ALICE);
    assert_eq!(rec.len(), 1);
    assert_eq!(rec[0].source_chain_id, Some(CHAIN));
}

#[test]
fn transfer_for_someone_else_is_unauthorized() {
    let mut s = Store::new();
    let r = execute_operation(
        &mut s,
        ctx(5, BOB),
        Operation::Transfer {
            owner: ALICE,
            amount: 1,
            target_account: Account { chain_id: CHAIN, owner: BOB },
            text_message: None,
        },
    );
    assert!(matches!(r, Err(DonationsError::Unauthorized)));
    assert!(s.list_donations_by_donor(ALICE).is_empty());
}

#[test]
fn field_map_bounds_are_enforced() {
    assert!(validate_custom_fields(&pairs(20)).is_ok());
    assert!(matches!(
        validate_custom_fields(&pairs(21)),
        Err(DonationsError::ValidationError)
    ));
    // A field map is a map: a repeated key is invalid.
    let duplicated = vec![
        ("k".to_string(), "v1".to_string()),
        ("k".to_string(), "v2".to_string()),
    ];
    assert!(matches!(
        validate_custom_fields(&duplicated),
        Err(DonationsError::ValidationError)
    ));
    let mut form = Vec::new();
    for i in 0..21 {
        form.push(OrderFormField {
            key: format!("k{}", i),
            label: "l".to_string(),
            field_type: "text".to_string(),
            required: false,
        });
    }
    assert!(matches!(
        validate_order_form(&form),
        Err(DonationsError::ValidationError)
    ));
    form.truncate(20);
    assert!(validate_order_form(&form).is_ok());
}

#[test]
fn duplicate_order_keys_are_rejected_before_any_write() {
    let mut s = Store::new();
    let _ = execute_operation(
        &mut s,
        ctx(11, ALICE),
        Operation::CreateProduct {
            public_data: Vec::new(),
            price: 4,
            private_data: Vec::new(),
            success_message: None,
            order_form: Vec::new(),
        },
    )
    .unwrap();
    let r = execute_operation(
        &mut s,
        ctx(12, BOB),
        Operation::TransferToBuy {
            owner: BOB,
            product_id: ProductId { created_at: 11, chain_id: CHAIN },
            amount: 4,
            target_account: Account { chain_id: CHAIN, owner: ALICE },
            order_data: vec![
                ("email".to_string(), "a@b".to_string()),
                ("email".to_string(), "c@d".to_string()),
            ],
        },
    );
    assert!(matches!(r, Err(DonationsError::ValidationError)));
    assert!(s.list_purchases_by_buyer(BOB).is_empty());
}

#[test]
fn oversized_product_is_rejected_before_any_write() {
    let mut s = Store::new();
    let r = execute_operation(
        &mut s,
        ctx(3, ALICE),
        Operation::CreateProduct {
            public_data: pairs(21),
            price: 5,
            private_data: Vec::new(),
            success_message: None,
            order_form: Vec::new(),
        },
    );
    assert!(matches!(r, Err(DonationsError::ValidationError)));
    assert!(s.list_products_by_author(ALICE).is_empty());
}

#[test]
fn product_create_delete_round_trip_clears_every_index() {
    let mut s = Store::new();
    let _ = execute_operation(
        &mut s,
        ctx(11, ALICE),
        Operation::CreateProduct {
            public_data: pairs(1),
            price: 30,
            private_data: pairs(1),
            success_message: None,
            order_form: Vec::new(),
        },
    )
    .unwrap();
    let id = ProductId { created_at: 11, chain_id: CHAIN };
    assert!(s.get_product(id).is_some());
    assert_eq!(s.list_products_by_author(ALICE).len(), 1);
    assert_eq!(s.products_by_chain_list(CHAIN).len(), 1);

    let _ = execute_operation(&mut s, ctx(12, ALICE), Operation::DeleteProduct { product_id: id })
        .unwrap();
    assert!(s.get_product(id).is_none());
    assert!(s.list_products_by_author(ALICE).is_empty());
    assert!(s.products_by_chain_list(CHAIN).is_empty());
}

#[test]
fn product_update_is_author_gated() {
    let mut s = Store::new();
    let _ = execute_operation(
        &mut s,
        ctx(11, ALICE),
        Operation::CreateProduct {
            public_data: Vec::new(),
            price: 30,
            private_data: Vec::new(),
            success_message: None,
            order_form: Vec::new(),
        },
    )
    .unwrap();
    let id = ProductId { created_at: 11, chain_id: CHAIN };
    let denied = execute_operation(
        &mut s,
        ctx(12, BOB),
        Operation::UpdateProduct {
            product_id: id,
            public_data: None,
            price: Some(99),
            private_data: None,
            success_message: None,
            order_form: None,
        },
    );
    assert!(matches!(denied, Err(DonationsError::Unauthorized)));
    assert_eq!(s.get_product(id).unwrap().price, 30);

    let missing = execute_operation(
        &mut s,
        ctx(13, ALICE),
        Operation::UpdateProduct {
            product_id: ProductId { created_at: 999, chain_id: CHAIN },
            public_data: None,
            price: Some(1),
            private_data: None,
            success_message: None,
            order_form: None,
        },
    );
    assert!(matches!(missing, Err(DonationsError::NotFound)));

    let ok = execute_operation(
        &mut s,
        ctx(14, ALICE),
        Operation::UpdateProduct {
            product_id: id,
            public_data: None,
            price: Some(99),
            private_data: None,
            success_message: Some("yay".to_string()),
            order_form: None,
        },
    );
    assert!(ok.is_ok());
    let p = s.get_product(id).unwrap();
    assert_eq!(p.price, 99);
    assert_eq!(p.success_message.as_deref(), Some("yay"));
}

#[test]
fn profile_reads_answer_through_responses() {
    let mut s = Store::new();
    s.set_name(ALICE, "lin".to_string());
    let out = execute_operation(&mut s, ctx(1, BOB), Operation::GetProfile { owner: ALICE })
        .unwrap();
    match out.response {
        ResponseData::Profile(Some(p)) => assert_eq!(p.name, "lin"),
        other => panic!("unexpected response {:?}", other),
    }
    let none = execute_operation(&mut s, ctx(1, BOB), Operation::GetProfile { owner: BOB })
        .unwrap();
    assert!(matches!(none.response, ResponseData::Profile(None)));
}

#[test]
fn author_is_always_valid_subscriber_others_expire() {
    let mut s = Store::new();
    // No subscription at all: the author passes, a stranger does not.
    assert!(s.check_subscription_valid(ALICE, ALICE, 999));
    assert!(!s.check_subscription_valid(BOB, ALICE, 999));

    let _ = execute_operation(
        &mut s,
        ctx(1_000, BOB),
        Operation::SubscribeToAuthor {
            owner: BOB,
            amount: 3,
            target_account: Account { chain_id: CHAIN, owner: ALICE },
        },
    )
    .unwrap();
    let end = 1_000 + donations::types::THIRTY_DAYS_MICROS;
    assert!(s.check_subscription_valid(BOB, ALICE, end));
    assert!(!s.check_subscription_valid(BOB, ALICE, end + 1));
    // The author stays valid past everyone's expiry.
    assert!(s.check_subscription_valid(ALICE, ALICE, end + 1));
}

#[test]
fn vote_needs_poll_and_respects_deadline() {
    let mut s = Store::new();
    let t0: u64 = 400;
    let _ = execute_operation(
        &mut s,
        ctx(t0, ALICE),
        Operation::CreatePost {
            title: "a".to_string(),
            content: "b".to_string(),
            image_hash: None,
            poll_options: vec!["l".to_string(), "r".to_string()],
            poll_end_timestamp: Some(t0 + 50),
            giveaway_prize: None,
            giveaway_end_timestamp: None,
        },
    )
    .unwrap();
    let post_id = t0 % donations::types::POST_ID_MOD;

    // Without a subscription a stranger is turned away.
    let denied = op_cast_vote(&mut s, ctx(t0 + 1, BOB), CHAIN, ALICE, post_id, 0);
    assert!(matches!(denied, Err(DonationsError::ExpiredOrMissingAccess)));

    // The author votes; the tally is recomputed, not incremented.
    let ok = op_cast_vote(&mut s, ctx(t0 + 2, ALICE), CHAIN, ALICE, post_id, 0);
    assert!(ok.is_ok());
    let again = op_cast_vote(&mut s, ctx(t0 + 3, ALICE), CHAIN, ALICE, post_id, 0);
    assert!(again.is_ok());
    let poll = s.get_post(post_id).unwrap().poll.unwrap();
    assert_eq!(poll.options[0].votes_count, 1);
    assert_eq!(poll.options[1].votes_count, 0);
    assert_eq!(poll.voters.len(), 1);

    // Out-of-range option and missing post are rejected exactly.
    let bad_ix = op_cast_vote(&mut s, ctx(t0 + 4, ALICE), CHAIN, ALICE, post_id, 2);
    assert!(matches!(bad_ix, Err(DonationsError::ValidationError)));
    let no_post = op_cast_vote(&mut s, ctx(t0 + 4, ALICE), CHAIN, ALICE, post_id + 1, 0);
    assert!(matches!(no_post, Err(DonationsError::NotFound)));

    // After the deadline the poll is closed.
    let late = op_cast_vote(&mut s, ctx(t0 + 51, ALICE), CHAIN, ALICE, post_id, 1);
    assert!(matches!(late, Err(DonationsError::PollEnded)));
}

#[test]
fn vote_switch_moves_the_tally() {
    let mut s = Store::new();
    let t0: u64 = 600;
    let _ = execute_operation(
        &mut s,
        ctx(t0, ALICE),
        Operation::CreatePost {
            title: "a".to_string(),
            content: "b".to_string(),
            image_hash: None,
            poll_options: vec!["l".to_string(), "r".to_string()],
            poll_end_timestamp: None,
            giveaway_prize: None,
            giveaway_end_timestamp: None,
        },
    )
    .unwrap();
    let post_id = t0 % donations::types::POST_ID_MOD;
    let _ = op_cast_vote(&mut s, ctx(t0 + 1, ALICE), CHAIN, ALICE, post_id, 0).unwrap();
    let _ = op_cast_vote(&mut s, ctx(t0 + 2, ALICE), CHAIN, ALICE, post_id, 1).unwrap();
    let poll = s.get_post(post_id).unwrap().poll.unwrap();
    assert_eq!(poll.options[0].votes_count, 0);
    assert_eq!(poll.options[1].votes_count, 1);
    assert_eq!(poll.voters.len(), 1);
}

#[test]
fn post_update_keeps_poll_and_delete_clears_indices() {
    let mut s = Store::new();
    let t0: u64 = 800;
    let _ = execute_operation(
        &mut s,
        ctx(t0, ALICE),
        Operation::CreatePost {
            title: "t".to_string(),
            content: "c".to_string(),
            image_hash: None,
            poll_options: vec!["one".to_string()],
            poll_end_timestamp: None,
            giveaway_prize: None,
            giveaway_end_timestamp: None,
        },
    )
    .unwrap();
    let post_id = t0 % donations::types::POST_ID_MOD;
    let denied = execute_operation(
        &mut s,
        ctx(t0 + 1, BOB),
        Operation::UpdatePost {
            post_id,
            title: Some("stolen".to_string()),
            content: None,
            image_hash: None,
        },
    );
    assert!(matches!(denied, Err(DonationsError::Unauthorized)));

    let _ = execute_operation(
        &mut s,
        ctx(t0 + 2, ALICE),
        Operation::UpdatePost {
            post_id,
            title: Some("t2".to_string()),
            content: None,
            image_hash: Some("img".to_string()),
        },
    )
    .unwrap();
    let p = s.get_post(post_id).unwrap();
    assert_eq!(p.title, "t2");
    assert_eq!(p.content, "c");
    assert_eq!(p.image_hash.as_deref(), Some("img"));
    assert!(p.poll.is_some());

    let _ = execute_operation(&mut s, ctx(t0 + 3, ALICE), Operation::DeletePost { post_id })
        .unwrap();
    assert!(s.get_post(post_id).is_none());
    assert!(s.list_posts_by_author(ALICE).is_empty());
}

#[test]
fn giveaway_participation_rules() {
    let mut s = Store::new();
    let t0: u64 = 900;
    let _ = execute_operation(
        &mut s,
        ctx(t0, ALICE),
        Operation::CreatePost {
            title: "g".to_string(),
            content: "p".to_string(),
            image_hash: None,
            poll_options: Vec::new(),
            poll_end_timestamp: None,
            giveaway_prize: Some(10),
            giveaway_end_timestamp: Some(t0 + 100),
        },
    )
    .unwrap();
    let post_id = t0 % donations::types::POST_ID_MOD;
    // Resolution with no entrants is rejected.
    let empty = execute_operation(&mut s, ctx(t0 + 1, ALICE), Operation::ResolveGiveaway {
        post_id,
    });
    assert!(matches!(empty, Err(DonationsError::ValidationError)));
    // The author joins; joining after the deadline is rejected.
    let _ = execute_operation(
        &mut s,
        ctx(t0 + 2, ALICE),
        Operation::ParticipateInGiveaway { author_chain_id: CHAIN, author: ALICE, post_id },
    )
    .unwrap();
    let late = execute_operation(
        &mut s,
        ctx(t0 + 101, ALICE),
        Operation::ParticipateInGiveaway { author_chain_id: CHAIN, author: ALICE, post_id },
    );
    assert!(matches!(late, Err(DonationsError::ValidationError)));
    let g = s.get_post(post_id).unwrap().giveaway.unwrap();
    assert_eq!(g.participants.len(), 1);
    // Only the author may resolve.
    let denied = execute_operation(&mut s, ctx(t0 + 5, BOB), Operation::ResolveGiveaway {
        post_id,
    });
    assert!(matches!(denied, Err(DonationsError::Unauthorized)));
}

#[test]
fn winner_follows_the_deterministic_formula() {
    let mut s = Store::new();
    let t0: u64 = 1_000;
    let _ = execute_operation(
        &mut s,
        ctx(t0, ALICE),
        Operation::CreatePost {
            title: "g".to_string(),
            content: "p".to_string(),
            image_hash: None,
            poll_options: Vec::new(),
            poll_end_timestamp: None,
            giveaway_prize: Some(10),
            giveaway_end_timestamp: None,
        },
    )
    .unwrap();
    let post_id = t0 % donations::types::POST_ID_MOD;
    // Three local entrants: the author and two subscribed voters.
    for who in [BOB, BOB + 1] {
        let _ = execute_operation(
            &mut s,
            ctx(t0 + 1, who),
            Operation::SubscribeToAuthor {
                owner: who,
                amount: 1,
                target_account: Account { chain_id: CHAIN, owner: ALICE },
            },
        )
        .unwrap();
    }
    for (i, who) in [ALICE, BOB, BOB + 1].iter().enumerate() {
        let _ = execute_operation(
            &mut s,
            ctx(t0 + 2 + i as u64, *who),
            Operation::ParticipateInGiveaway { author_chain_id: CHAIN, author: ALICE, post_id },
        )
        .unwrap();
    }
    let now = t0 + 10;
    let out = execute_operation(&mut s, ctx(now, ALICE), Operation::ResolveGiveaway { post_id })
        .unwrap();
    let g = s.get_post(post_id).unwrap().giveaway.unwrap();
    let count = 3u64;
    let expect = ((now as u128 + donations::types::POST_ID_HEX_LEN as u128 + count as u128)
        % count as u128) as usize;
    let entrants = [ALICE, BOB, BOB + 1];
    assert_eq!(g.winner.unwrap().owner, entrants[expect]);
    assert_eq!(out.events.len(), 1);
}

#[test]
fn query_projections_round_trip() {
    let fields = vec![("a".to_string(), "1".to_string()), ("b".to_string(), "2".to_string())];
    let listed = btree_to_pairs(&fields);
    assert_eq!(listed.len(), 2);
    assert_eq!(listed[0].key, "a");
    assert_eq!(listed[1].value, "2");
    let form = vec![OrderFormField {
        key: "email".to_string(),
        label: "Email".to_string(),
        field_type: "email".to_string(),
        required: true,
    }];
    let views = order_form_to_views(&form);
    assert_eq!(views.len(), 1);
    assert_eq!(views[0].key, "email");
    assert!(views[0].required);
}

#[test]
fn feed_sorts_newest_first() {
    let mut s = Store::new();
    let _ = execute_operation(
        &mut s,
        ctx(100, BOB),
        Operation::SubscribeToAuthor {
            owner: BOB,
            amount: 1,
            target_account: Account { chain_id: CHAIN, owner: ALICE },
        },
    )
    .unwrap();
    for t in [300u64, 100u64, 200u64] {
        // Distinct ids: the id derives from the creation timestamp.
        let _ = execute_operation(
            &mut s,
            ctx(t + 1_000, ALICE),
            Operation::CreatePost {
                title: format!("p{}", t),
                content: "c".to_string(),
                image_hash: None,
                poll_options: Vec::new(),
                poll_end_timestamp: None,
                giveaway_prize: None,
                giveaway_end_timestamp: None,
            },
        )
        .unwrap();
    }
    let feed = s.my_feed(BOB, 2_000);
    assert_eq!(feed.len(), 3);
    assert_eq!(feed[0].created_at, 1_300);
    assert_eq!(feed[1].created_at, 1_200);
    assert_eq!(feed[2].created_at, 1_100);
}

#[test]
fn subscription_price_offer_lifecycle() {
    let mut s = Store::new();
    let _ = execute_operation(
        &mut s,
        ctx(1, ALICE),
        Operation::SetSubscriptionPrice { price: 12, description: Some("monthly".to_string()) },
    )
    .unwrap();
    let info = s.get_subscription_price(ALICE).unwrap();
    assert_eq!(info.price, 12);
    assert_eq!(info.description.as_deref(), Some("monthly"));
    let _ = execute_operation(&mut s, ctx(2, ALICE), Operation::DeleteSubscriptionPrice).unwrap();
    assert!(s.get_subscription_price(ALICE).is_none());
}
