//! The protocol's cross-cutting guarantees, each proved from what the store
//! and executor contracts state.

use crate::ids::{ProductId, SubscriptionId};
use crate::posts::{
    cast_vote_model, count_votes, lemma_voter_index, retally, upsert_voter, voter_index,
};
use crate::seqs::{lemma_seq_without, lemma_sum_push, seq_without, sum_amounts};
use crate::store::{donation_ids_from, donation_ids_to, Store};
use crate::types::{Amount, ChainId, DonationRecordModel, Owner, PollModel, PostId};
use vstd::prelude::*;

verus! {

/// The exact total donated to an owner: over every id handed out so far,
/// the amounts of the records naming that owner as recipient.
pub open spec fn total_donated_to(
    m: Map<u64, DonationRecordModel>,
    counter: u64,
    x: Owner,
) -> int
    decreases counter,
{
    if counter == 0 {
        0
    } else {
        total_donated_to(m, (counter - 1) as u64, x) + if m[counter].to == x {
            m[counter].amount as int
        } else {
            0
        }
    }
}

/// The exact total donated by an owner.
pub open spec fn total_donated_from(
    m: Map<u64, DonationRecordModel>,
    counter: u64,
    x: Owner,
) -> int
    decreases counter,
{
    if counter == 0 {
        0
    } else {
        total_donated_from(m, (counter - 1) as u64, x) + if m[counter].from == x {
            m[counter].amount as int
        } else {
            0
        }
    }
}

proof fn lemma_indexed_sum_to(m: Map<u64, DonationRecordModel>, counter: u64, x: Owner)
    ensures
        sum_amounts(crate::queries::donation_amounts(m, donation_ids_to(m, counter, x)))
            == total_donated_to(m, counter, x),
        sum_amounts(crate::queries::donation_amounts(m, donation_ids_from(m, counter, x)))
            == total_donated_from(m, counter, x),
    decreases counter,
{
    if counter > 0 {
        lemma_indexed_sum_to(m, (counter - 1) as u64, x);
        let rest = donation_ids_to(m, (counter - 1) as u64, x);
        if m[counter].to == x {
            assert(crate::queries::donation_amounts(m, rest.push(counter))
                =~= crate::queries::donation_amounts(m, rest).push(m[counter].amount));
            lemma_sum_push(crate::queries::donation_amounts(m, rest), m[counter].amount);
        }
        let restf = donation_ids_from(m, (counter - 1) as u64, x);
        if m[counter].from == x {
            assert(crate::queries::donation_amounts(m, restf.push(counter))
                =~= crate::queries::donation_amounts(m, restf).push(m[counter].amount));
            lemma_sum_push(crate::queries::donation_amounts(m, restf), m[counter].amount);
        }
    } else {
        assert(crate::queries::donation_amounts(m, donation_ids_to(m, 0, x))
            =~= Seq::<Amount>::empty());
        assert(crate::queries::donation_amounts(m, donation_ids_from(m, 0, x))
            =~= Seq::<Amount>::empty());
    }
}

/// The recipient index is complete and exact: for every owner, the sum of
/// the amounts of the donations its recipient index lists equals the sum of
/// the amounts of all stored donation records naming it as recipient; the
/// same holds for the donor index.
pub proof fn law_donation_sums(s: Store, x: Owner)
    requires
        s.inv(),
    ensures
        sum_amounts(crate::queries::donation_amounts(s.donations_model(), s.rec_ids(x)))
            == total_donated_to(s.donations_model(), s.donation_counter, x),
        sum_amounts(crate::queries::donation_amounts(s.donations_model(), s.donor_ids(x)))
            == total_donated_from(s.donations_model(), s.donation_counter, x),
{
    lemma_indexed_sum_to(s.donations_model(), s.donation_counter, x);
}

/// Casting the same vote a second time changes nothing: the voter map and
/// every recomputed tally come out identical, so replaying a vote cannot
/// double count.
pub proof fn law_vote_idempotent(p: PollModel, voter: Owner, ix: usize)
    ensures
        cast_vote_model(cast_vote_model(p, voter, ix), voter, ix) == cast_vote_model(p, voter, ix),
{
    let vs1 = upsert_voter(p.voters, voter, ix);
    let p1 = cast_vote_model(p, voter, ix);
    lemma_voter_index(p.voters, voter);
    let j0 = voter_index(p.voters, voter);
    let j = if j0 == -1 {
        p.voters.len() as int
    } else {
        j0
    };
    assert(vs1[j] == (voter, ix));
    assert(forall|m: int| 0 <= m < j ==> vs1[m] == p.voters[m]);
    assert(forall|m: int| 0 <= m < j ==> vs1[m].0 != voter);
    lemma_voter_index(vs1, voter);
    let j1 = voter_index(vs1, voter);
    assert(j1 != -1) by {
        if j1 == -1 {
            assert(vs1[j].0 != voter);
        }
    }
    assert(j1 == j) by {
        if j1 < j {
            assert(vs1[j1].0 != voter);
        }
        if j1 > j {
            assert(vs1[j].0 != voter);
        }
    }
    let vs2 = upsert_voter(vs1, voter, ix);
    assert(vs2 =~= vs1);
    assert(p1.voters == vs1);
    assert(cast_vote_model(p1, voter, ix).voters == vs1);
    assert(cast_vote_model(p1, voter, ix).options =~= p1.options) by {
        assert(forall|k: int|
            0 <= k < p1.options.len() ==> retally(p1.options, vs2)[k] == (crate::types::PollOptionModel {
                text: p1.options[k].text,
                votes_count: count_votes(vs2, k) as u64,
            }));
        assert(forall|k: int|
            0 <= k < p.options.len() ==> p1.options[k].text == p.options[k].text);
    }
    assert(cast_vote_model(p1, voter, ix) == p1);
}

/// Replaying any one event a second time, right after the first, changes no
/// post and so no poll tally: a replayed poll snapshot overwrites with the
/// same snapshot, a replayed post lands as the same post, a replayed vote
/// event is a no-op, and every other event leaves the posts alone.
pub proof fn law_event_replay_posts_idempotent(
    s0: Store,
    s1: Store,
    s2: Store,
    ctx: crate::protocol::ExecContext,
    ev: crate::protocol::EventModel,
)
    requires
        crate::executor::event_replay_effects(s0, ctx, ev, s1),
        crate::executor::event_replay_effects(s1, ctx, ev, s2),
    ensures
        s2.posts_model() == s1.posts_model(),
{
    match ev {
        crate::protocol::EventModel::PostCreated { post, timestamp } => {
            assert(s2.posts_model() =~= s1.posts_model());
        },
        crate::protocol::EventModel::PostUpdated { post, timestamp } => {
            if s0.posts_model().contains_key(post.id) {
                let once = crate::posts::post_with_updates(
                    s0.posts_model()[post.id],
                    Some(post.title),
                    Some(post.content),
                    post.image_hash,
                );
                assert(s1.posts_model()[post.id] == once);
                assert(crate::posts::post_with_updates(
                    once,
                    Some(post.title),
                    Some(post.content),
                    post.image_hash,
                ) == once);
                assert(s2.posts_model() =~= s1.posts_model());
            } else {
                assert(s1 == s0);
            }
        },
        crate::protocol::EventModel::PostDeleted { post_id, author, timestamp } => {
            if s0.posts_model().contains_key(post_id) && s0.posts_model()[post_id].author
                == author {
                assert(!s1.posts_model().contains_key(post_id));
                assert(s2 == s1);
            } else {
                assert(s1 == s0);
            }
        },
        crate::protocol::EventModel::PollResultsUpdated { post_id, poll, timestamp } => {
            if s0.posts_model().contains_key(post_id) {
                assert(s1.posts_model().contains_key(post_id));
                assert(s2.posts_model() =~= s1.posts_model());
            } else {
                assert(s1 == s0);
            }
        },
        _ => {
            assert(s1.posts_same(s0) || s1 == s0);
            assert(s2.posts_same(s1) || s2 == s1);
        },
    }
}

/// Access control over time: an author always reaches their own gated
/// content, and a subscriber whose every subscription to the author has
/// ended reaches none of it.
pub proof fn law_subscription_validity(s: Store, subscriber: Owner, author: Owner, now: u64)
    requires
        s.inv(),
    ensures
        s.subscription_valid(author, author, now),
        subscriber != author && (forall|j: int|
            0 <= j < s.author_subs(author).len() ==> (#[trigger] s.subs_model()[s.author_subs(
                author,
            )[j]]).subscriber != subscriber || s.subs_model()[s.author_subs(author)[j]].end_timestamp
                < now) ==> !s.subscription_valid(subscriber, author, now),
{
}

/// A create-and-delete round trip leaves no trace: after the deletion the
/// product is absent from the map and from every author and chain index.
pub proof fn law_product_delete_round_trip(s1: Store, s2: Store, id: ProductId)
    requires
        s1.inv(),
        s2.products_model() == s1.products_model().remove(id),
        forall|x: Owner| #[trigger] s2.author_products(x) == seq_without(s1.author_products(x), id),
        forall|c: ChainId| #[trigger] s2.chain_products(c) == seq_without(s1.chain_products(c), id),
    ensures
        !s2.products_model().contains_key(id),
        forall|x: Owner| !(#[trigger] s2.author_products(x)).contains(id),
        forall|c: ChainId| !(#[trigger] s2.chain_products(c)).contains(id),
{
    assert forall|x: Owner| !(#[trigger] s2.author_products(x)).contains(id) by {
        lemma_seq_without(s1.author_products(x), id);
    }
    assert forall|c: ChainId| !(#[trigger] s2.chain_products(c)).contains(id) by {
        lemma_seq_without(s1.chain_products(c), id);
    }
}

/// A create-and-delete round trip for posts leaves no trace either.
pub proof fn law_post_delete_round_trip(s1: Store, s2: Store, id: PostId)
    requires
        s1.inv(),
        s2.posts_model() == s1.posts_model().remove(id),
        forall|x: Owner| #[trigger] s2.author_posts(x) == seq_without(s1.author_posts(x), id),
        forall|c: ChainId| #[trigger] s2.chain_posts(c) == seq_without(s1.chain_posts(c), id),
    ensures
        !s2.posts_model().contains_key(id),
        forall|x: Owner| !(#[trigger] s2.author_posts(x)).contains(id),
        forall|c: ChainId| !(#[trigger] s2.chain_posts(c)).contains(id),
{
    assert forall|x: Owner| !(#[trigger] s2.author_posts(x)).contains(id) by {
        lemma_seq_without(s1.author_posts(x), id);
    }
    assert forall|c: ChainId| !(#[trigger] s2.chain_posts(c)).contains(id) by {
        lemma_seq_without(s1.chain_posts(c), id);
    }
}

/// Resolving a giveaway a second time is rejected and leaves the recorded
/// winner exactly as the first resolution set it.
pub proof fn law_resolve_idempotent_rejecting(
    s0: Store,
    s1: Store,
    s2: Store,
    ctx: crate::protocol::ExecContext,
    ctx2: crate::protocol::ExecContext,
    post_id: PostId,
    o: crate::protocol::OutcomeModel,
    r2: Result<crate::protocol::OutcomeModel, crate::types::DonationsError>,
)
    requires
        ctx2.caller == ctx.caller,
        crate::executor::resolve_giveaway_effects(s0, ctx, post_id, s1, Ok(o)),
        crate::executor::resolve_giveaway_effects(s1, ctx2, post_id, s2, r2),
    ensures
        r2 == Err::<crate::protocol::OutcomeModel, crate::types::DonationsError>(
            crate::types::DonationsError::ValidationError,
        ),
        s2 == s1,
        s2.posts_model()[post_id].giveaway matches Some(g) && g.winner == s1.posts_model()[
            post_id].giveaway->Some_0.winner,
{
    assert(s0.posts_model().contains_key(post_id));
    assert(s1.posts_model().contains_key(post_id));
    assert(s1.posts_model()[post_id].giveaway matches Some(g) && g.is_resolved);
}

/// The total of all recomputed tallies over the first `n` options.
pub open spec fn total_votes(vs: Seq<(Owner, usize)>, n: int) -> nat
    decreases n,
{
    if n <= 0 {
        0
    } else {
        total_votes(vs, n - 1) + count_votes(vs, n - 1)
    }
}

proof fn lemma_total_votes_push(vs: Seq<(Owner, usize)>, e: (Owner, usize), n: int)
    requires
        0 <= e.1 < n,
    ensures
        total_votes(vs.push(e), n) == total_votes(vs, n) + 1,
    decreases n,
{
    assert(vs.push(e).drop_last() =~= vs);
    if e.1 < n - 1 {
        lemma_total_votes_push(vs, e, n - 1);
        assert(count_votes(vs.push(e), n - 1) == count_votes(vs, n - 1));
    } else {
        assert(count_votes(vs.push(e), n - 1) == count_votes(vs, n - 1) + 1);
        assert(total_votes(vs.push(e), n - 1) == total_votes(vs, n - 1)) by {
            lemma_total_votes_frame(vs, e, n - 1);
        }
    }
}

proof fn lemma_total_votes_frame(vs: Seq<(Owner, usize)>, e: (Owner, usize), n: int)
    requires
        e.1 >= n,
    ensures
        total_votes(vs.push(e), n) == total_votes(vs, n),
    decreases n,
{
    assert(vs.push(e).drop_last() =~= vs);
    if n > 0 {
        lemma_total_votes_frame(vs, e, n - 1);
        assert(count_votes(vs.push(e), n - 1) == count_votes(vs, n - 1));
    }
}

/// Two different voters casting votes on a fresh poll leave exactly two
/// votes in the tallies, whatever options they chose; every chain that
/// stores the broadcast snapshot sees these same tallies.
pub proof fn law_two_voters_two_votes(p: PollModel, v1: Owner, v2: Owner, i1: usize, i2: usize)
    requires
        p.voters.len() == 0,
        v1 != v2,
        i1 < p.options.len(),
        i2 < p.options.len(),
    ensures
        ({
            let p2 = cast_vote_model(cast_vote_model(p, v1, i1), v2, i2);
            &&& p2.voters.len() == 2
            &&& total_votes(p2.voters, p2.options.len() as int) == 2
        }),
{
    let p1 = cast_vote_model(p, v1, i1);
    let vs1 = upsert_voter(p.voters, v1, i1);
    lemma_voter_index(p.voters, v1);
    assert(vs1 =~= p.voters.push((v1, i1)));
    let p2 = cast_vote_model(p1, v2, i2);
    lemma_voter_index(vs1, v2);
    let j = voter_index(vs1, v2);
    assert(j == -1) by {
        if j != -1 {
            assert(vs1[j].0 == v2);
            assert(vs1[0] == (v1, i1));
        }
    }
    let vs2 = upsert_voter(vs1, v2, i2);
    assert(vs2 =~= vs1.push((v2, i2)));
    assert(p2.voters == vs2);
    assert(p2.voters.len() == 2);
    let n = p.options.len() as int;
    assert(p2.options.len() == n) by {
        assert(p1.options.len() == n);
    }
    assert(total_votes(Seq::<(Owner, usize)>::empty(), n) == 0) by {
        lemma_total_votes_empty(n);
    }
    assert(p.voters =~= Seq::<(Owner, usize)>::empty());
    lemma_total_votes_push(p.voters, (v1, i1), n);
    lemma_total_votes_push(vs1, (v2, i2), n);
    assert(total_votes(vs2, n) == 2);
}

proof fn lemma_total_votes_empty(n: int)
    ensures
        total_votes(Seq::<(Owner, usize)>::empty(), n) == 0,
    decreases n,
{
    if n > 0 {
        lemma_total_votes_empty(n - 1);
    }
}

/// At most one poll entry per voter: a voter map without duplicate voters
/// stays that way through any vote, because a repeat vote overwrites the
/// voter's entry instead of adding one.
pub open spec fn voters_unique(vs: Seq<(Owner, usize)>) -> bool {
    forall|i: int, j: int| 0 <= i < j < vs.len() ==> vs[i].0 != vs[j].0
}

pub proof fn law_one_vote_per_voter(p: PollModel, voter: Owner, ix: usize)
    requires
        voters_unique(p.voters),
    ensures
        voters_unique(cast_vote_model(p, voter, ix).voters),
{
    lemma_voter_index(p.voters, voter);
    let vs1 = upsert_voter(p.voters, voter, ix);
    let j0 = voter_index(p.voters, voter);
    if j0 == -1 {
        assert(vs1 == p.voters.push((voter, ix)));
        assert forall|i: int, j: int| 0 <= i < j < vs1.len() implies vs1[i].0 != vs1[j].0 by {
            if j == vs1.len() - 1 {
                assert(vs1[i] == p.voters[i]);
                assert(p.voters[i].0 != voter);
            }
        }
    } else {
        assert(vs1 == p.voters.update(j0, (voter, ix)));
        assert forall|i: int, j: int| 0 <= i < j < vs1.len() implies vs1[i].0 != vs1[j].0 by {
            assert(vs1[i].0 == p.voters[i].0);
            assert(vs1[j].0 == p.voters[j].0);
        }
    }
}

/// Lazy expiry: when a post goes out and a subscription of the author has
/// already ended, the scan removes it and announces the unsubscription; and
/// no chain that only that stale subscription named receives the post.
pub proof fn law_lazy_expiry(
    s0: Store,
    ctx: crate::protocol::ExecContext,
    title: Seq<char>,
    content: Seq<char>,
    image_hash: Option<Seq<char>>,
    poll_options: Seq<Seq<char>>,
    poll_end_timestamp: Option<u64>,
    giveaway_prize: Option<Amount>,
    giveaway_end_timestamp: Option<u64>,
    s1: Store,
    o: crate::protocol::OutcomeModel,
    id: SubscriptionId,
    c: ChainId,
)
    requires
        s0.inv(),
        crate::executor::create_post_effects(
            s0,
            ctx,
            title,
            content,
            image_hash,
            poll_options,
            poll_end_timestamp,
            giveaway_prize,
            giveaway_end_timestamp,
            s1,
            Ok(o),
        ),
        s0.author_subs(ctx.caller).contains(id),
        s0.subs_model()[id].end_timestamp < ctx.time_micros,
        // No other still-valid subscription of the author names chain `c`
        // (in the stated scenario the stale one is the only subscriber).
        forall|j: int|
            0 <= j < s0.author_subs(ctx.caller).len() && (#[trigger] s0.author_subs(ctx.caller)[j])
                != id && s0.subs_model()[s0.author_subs(ctx.caller)[j]].end_timestamp
                >= ctx.time_micros ==> s0.subs_model()[s0.author_subs(
                ctx.caller,
            )[j]].subscriber_chain_id != c,
    ensures
        !s1.subs_model().contains_key(id),
        exists|k: int|
            0 <= k < o.events.len() && o.events[k] == (crate::protocol::EventModel::UserUnsubscribed {
                subscription_id: id,
                subscriber: id.subscriber,
                author: id.author,
                timestamp: ctx.time_micros,
            }),
        forall|k: int| 0 <= k < o.messages.len() ==> (#[trigger] o.messages[k]).destination != c,
{
    broadcast use vstd::seq_lib::group_filter_ensures;

    let ts = ctx.time_micros;
    let author = ctx.caller;
    let list = s0.author_subs(author);
    let m = s0.subs_model();
    let expired = crate::executor::expired_ids(m, list, ts);
    let w = choose|w: int| 0 <= w < list.len() && list[w] == id;
    assert(expired.contains(id)) by {
        list.lemma_filter_contains(
            |id2: SubscriptionId| m[id2].end_timestamp < ts,
            w,
        );
    }
    assert(crate::executor::expired_key_set(m, list, ts).contains(id));
    assert(!s1.subs_model().contains_key(id));
    assert(s0.inv() ==> id.subscriber == m[id].subscriber && id.author == m[id].author) by {
        assert(m.contains_key(id));
    }
    let we = choose|we: int| 0 <= we < expired.len() && expired[we] == id;
    assert(o.events[1 + we] == (crate::protocol::EventModel::UserUnsubscribed {
        subscription_id: id,
        subscriber: id.subscriber,
        author: id.author,
        timestamp: ts,
    })) by {
        assert(crate::executor::unsubscribed_events(expired, ts)[we]
            == (crate::protocol::EventModel::UserUnsubscribed {
            subscription_id: id,
            subscriber: id.subscriber,
            author: id.author,
            timestamp: ts,
        }));
    }
    let chains = crate::executor::active_remote_chains(m, list, ts, ctx.chain_id);
    let active = list.filter(
        |id2: SubscriptionId| m[id2].end_timestamp >= ts && m[id2].subscriber_chain_id
            != ctx.chain_id,
    );
    crate::seqs::lemma_filter_elems(
        list,
        |id2: SubscriptionId| m[id2].end_timestamp >= ts && m[id2].subscriber_chain_id
            != ctx.chain_id,
    );
    assert forall|k: int| 0 <= k < o.messages.len() implies (#[trigger] o.messages[
        k]).destination != c by {
        assert(o.messages[k].destination == chains[k]);
        assert(chains[k] == m[active[k]].subscriber_chain_id);
        assert(m[active[k]].end_timestamp >= ts);
        assert(list.contains(active[k]));
        let j = choose|j: int| 0 <= j < list.len() && list[j] == active[k];
        assert(active[k] != id);
        assert(m[list[j]].subscriber_chain_id != c);
    }
}

} // verus!
