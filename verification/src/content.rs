//! Paid-content lifecycle rules: an author's subscription offer, the
//! time-boxed content subscriptions themselves, and the validity check that
//! gates votes, giveaway entries and feed delivery.  A subscription is valid
//! on a chain exactly when its end timestamp has not passed on that chain's
//! own clock; an author always has access to their own content.

use crate::ids::SubscriptionId;
use crate::seqs::{lemma_map_values_insert, lemma_map_values_remove, lemma_seq_without, no_dups, seq_without};
use crate::store::{lemma_same_invs, list_of, push_to_list, remove_from_list, Store};
use crate::types::{
    Amount, ChainId, ContentSubscription, DonationsError, Owner, SubscriptionInfo,
    SubscriptionInfoModel,
};
use vstd::prelude::*;

verus! {

broadcast use vstd::laws_eq::group_laws_eq;

/// The subscriptions among the listed ids that are still valid at a time, in
/// listing order.
pub open spec fn active_subs(
    m: Map<SubscriptionId, ContentSubscription>,
    ids: Seq<SubscriptionId>,
    now: u64,
) -> Seq<ContentSubscription>
    decreases ids.len(),
{
    if ids.len() == 0 {
        Seq::empty()
    } else {
        let rest = active_subs(m, ids.drop_last(), now);
        if m[ids.last()].end_timestamp >= now {
            rest.push(m[ids.last()])
        } else {
            rest
        }
    }
}

impl Store {
    /// Whether a subscriber may reach an author's gated content at a time:
    /// the author always may; anyone else needs a stored subscription to the
    /// author that has not ended.
    pub open spec fn subscription_valid(self, subscriber: Owner, author: Owner, now: u64) -> bool {
        subscriber == author || exists|j: int|
            0 <= j < self.author_subs(author).len()
                && (#[trigger] self.subs_model()[self.author_subs(author)[j]]).subscriber
                == subscriber && self.subs_model()[self.author_subs(author)[j]].end_timestamp
                >= now
    }

    /// Sets or replaces an author's subscription offer.
    pub fn set_subscription_price(
        &mut self,
        author: Owner,
        price: Amount,
        description: Option<String>,
    )
        requires
            old(self).inv(),
        ensures
            final(self).inv(),
            final(self).prices_model() == old(self).prices_model().insert(
                author,
                SubscriptionInfoModel { author, price, description: description.deep_view() },
            ),
            final(self).donations_same(*old(self)),
            final(self).profiles_same(*old(self)),
            final(self).registry_same(*old(self)),
            final(self).products_same(*old(self)),
            final(self).purchases_same(*old(self)),
            final(self).subs_same(*old(self)),
            final(self).posts_same(*old(self)),
            final(self).donation_counter == old(self).donation_counter,
    {
        let info = SubscriptionInfo { author, price, description };
        self.subscription_prices.insert(author, info);
        proof {
            lemma_map_values_insert(
                old(self).subscription_prices@,
                author,
                info,
                |i: SubscriptionInfo| i.deep_view(),
            );
            lemma_same_invs(*old(self), *self);
        }
    }

    /// The subscription offer of an author, copied out.
    pub fn get_subscription_price(&self, author: Owner) -> (r: Option<SubscriptionInfo>)
        requires
            self.inv(),
        ensures
            match r {
                Some(i) => self.prices_model().contains_key(author) && i.deep_view()
                    == self.prices_model()[author],
                None => !self.prices_model().contains_key(author),
            },
    {
        proof {
            assert(self.subscription_prices@.dom() =~= self.prices_model().dom());
        }
        match self.subscription_prices.get(&author) {
            Some(i) => Some(i.duplicate()),
            None => None,
        }
    }

    /// Withdraws an author's subscription offer.
    pub fn delete_subscription_info(&mut self, author: Owner)
        requires
            old(self).inv(),
        ensures
            final(self).inv(),
            final(self).prices_model() == old(self).prices_model().remove(author),
            final(self).donations_same(*old(self)),
            final(self).profiles_same(*old(self)),
            final(self).registry_same(*old(self)),
            final(self).products_same(*old(self)),
            final(self).purchases_same(*old(self)),
            final(self).subs_same(*old(self)),
            final(self).posts_same(*old(self)),
            final(self).donation_counter == old(self).donation_counter,
    {
        let _ = self.subscription_prices.remove(&author);
        proof {
            lemma_map_values_remove(
                old(self).subscription_prices@,
                author,
                |i: SubscriptionInfo| i.deep_view(),
            );
            lemma_same_invs(*old(self), *self);
        }
    }

    /// Removes a subscription from the map and from all three index lists,
    /// handing back the stored value.
    pub(crate) fn detach_subscription(&mut self, id: SubscriptionId) -> (r: Option<
        ContentSubscription,
    >)
        requires
            old(self).inv(),
        ensures
            final(self).inv(),
            final(self).subs_model() == old(self).subs_model().remove(id),
            r matches Some(s) ==> old(self).subs_model().contains_key(id) && s == old(
                self,
            ).subs_model()[id],
            r is None ==> !old(self).subs_model().contains_key(id),
            forall|x: Owner| #[trigger]
                final(self).author_subs(x) == seq_without(old(self).author_subs(x), id),
            forall|c: ChainId| #[trigger]
                final(self).chain_subs(c) == seq_without(old(self).chain_subs(c), id),
            forall|x: Owner| #[trigger]
                final(self).subscriber_subs(x) == seq_without(old(self).subscriber_subs(x), id),
            final(self).donations_same(*old(self)),
            final(self).profiles_same(*old(self)),
            final(self).registry_same(*old(self)),
            final(self).prices_same(*old(self)),
            final(self).products_same(*old(self)),
            final(self).purchases_same(*old(self)),
            final(self).posts_same(*old(self)),
            final(self).donation_counter == old(self).donation_counter,
    {
        proof {
            broadcast use crate::ids::lemma_subscription_id_concrete_eq;
        }
        let ghost m0 = old(self).subs_model();
        let r = self.content_subscriptions.remove(&id);
        match r {
            Some(s) => {
                let author = s.author;
                let chain = s.author_chain_id;
                let subscriber = s.subscriber;
                remove_from_list(&mut self.subscriptions_by_author, author, id);
                remove_from_list(&mut self.subscriptions_by_chain, chain, id);
                remove_from_list(&mut self.subscriptions_by_subscriber, subscriber, id);
                proof {
                    lemma_same_invs(*old(self), *self);
                    let m1 = self.subs_model();
                    assert(m1 == m0.remove(id));
                    assert forall|x: Owner| #[trigger]
                        self.author_subs(x) == seq_without(old(self).author_subs(x), id) by {
                        lemma_seq_without(old(self).author_subs(x), id);
                        if x != author {
                            assert(self.author_subs(x) == old(self).author_subs(x));
                            if old(self).author_subs(x).contains(id) {
                                assert(m0[id].author == x);
                                assert(false);
                            }
                        }
                    }
                    assert forall|c: ChainId| #[trigger]
                        self.chain_subs(c) == seq_without(old(self).chain_subs(c), id) by {
                        lemma_seq_without(old(self).chain_subs(c), id);
                        if c != chain {
                            assert(self.chain_subs(c) == old(self).chain_subs(c));
                            if old(self).chain_subs(c).contains(id) {
                                assert(m0[id].author_chain_id == c);
                                assert(false);
                            }
                        }
                    }
                    assert forall|x: Owner| #[trigger]
                        self.subscriber_subs(x) == seq_without(
                            old(self).subscriber_subs(x),
                            id,
                        ) by {
                        lemma_seq_without(old(self).subscriber_subs(x), id);
                        if x != subscriber {
                            assert(self.subscriber_subs(x) == old(self).subscriber_subs(x));
                            if old(self).subscriber_subs(x).contains(id) {
                                assert(m0[id].subscriber == x);
                                assert(false);
                            }
                        }
                    }
                    assert forall|sid: SubscriptionId| m1.contains_key(sid) implies {
                        let q = #[trigger] m1[sid];
                        &&& q.id == sid
                        &&& q.subscriber == sid.subscriber
                        &&& q.author == sid.author
                        &&& self.author_subs(q.author).contains(sid)
                        &&& self.chain_subs(q.author_chain_id).contains(sid)
                        &&& self.subscriber_subs(q.subscriber).contains(sid)
                    } by {
                        assert(m0.contains_key(sid) && sid != id);
                        let q = m0[sid];
                        lemma_seq_without(old(self).author_subs(q.author), id);
                        lemma_seq_without(old(self).chain_subs(q.author_chain_id), id);
                        lemma_seq_without(old(self).subscriber_subs(q.subscriber), id);
                        assert(old(self).author_subs(q.author).contains(sid));
                        assert(old(self).chain_subs(q.author_chain_id).contains(sid));
                        assert(old(self).subscriber_subs(q.subscriber).contains(sid));
                    }
                    assert forall|x: Owner| #![trigger self.author_subs(x)]
                        {
                            &&& no_dups(self.author_subs(x))
                            &&& forall|j: int|
                                0 <= j < self.author_subs(x).len() ==> m1.contains_key(
                                    #[trigger] self.author_subs(x)[j],
                                ) && m1[self.author_subs(x)[j]].author == x
                        } by {
                        lemma_seq_without(old(self).author_subs(x), id);
                        assert forall|j: int| 0 <= j < self.author_subs(x).len() implies
                            m1.contains_key(#[trigger] self.author_subs(x)[j]) && m1[
                            self.author_subs(x)[j]].author == x by {
                            let sid = self.author_subs(x)[j];
                            assert(old(self).author_subs(x).contains(sid));
                            assert(sid != id);
                        }
                    }
                    assert forall|c: ChainId| #![trigger self.chain_subs(c)]
                        {
                            &&& no_dups(self.chain_subs(c))
                            &&& forall|j: int|
                                0 <= j < self.chain_subs(c).len() ==> m1.contains_key(
                                    #[trigger] self.chain_subs(c)[j],
                                ) && m1[self.chain_subs(c)[j]].author_chain_id == c
                        } by {
                        lemma_seq_without(old(self).chain_subs(c), id);
                        assert forall|j: int| 0 <= j < self.chain_subs(c).len() implies
                            m1.contains_key(#[trigger] self.chain_subs(c)[j]) && m1[
                            self.chain_subs(c)[j]].author_chain_id == c by {
                            let sid = self.chain_subs(c)[j];
                            assert(old(self).chain_subs(c).contains(sid));
                            assert(sid != id);
                        }
                    }
                    assert forall|x: Owner| #![trigger self.subscriber_subs(x)]
                        {
                            &&& no_dups(self.subscriber_subs(x))
                            &&& forall|j: int|
                                0 <= j < self.subscriber_subs(x).len() ==> m1.contains_key(
                                    #[trigger] self.subscriber_subs(x)[j],
                                ) && m1[self.subscriber_subs(x)[j]].subscriber == x
                        } by {
                        lemma_seq_without(old(self).subscriber_subs(x), id);
                        assert forall|j: int| 0 <= j < self.subscriber_subs(x).len() implies
                            m1.contains_key(#[trigger] self.subscriber_subs(x)[j]) && m1[
                            self.subscriber_subs(x)[j]].subscriber == x by {
                            let sid = self.subscriber_subs(x)[j];
                            assert(old(self).subscriber_subs(x).contains(sid));
                            assert(sid != id);
                        }
                    }
                    assert(self.subs_inv());
                }
                Some(s)
            },
            None => {
                proof {
                    assert(self.subs_model() =~= m0.remove(id));
                    lemma_same_invs(*old(self), *self);
                    assert forall|x: Owner| #[trigger]
                        self.author_subs(x) == seq_without(old(self).author_subs(x), id) by {
                        lemma_seq_without(old(self).author_subs(x), id);
                        if old(self).author_subs(x).contains(id) {
                            assert(m0.contains_key(id));
                            assert(false);
                        }
                    }
                    assert forall|c: ChainId| #[trigger]
                        self.chain_subs(c) == seq_without(old(self).chain_subs(c), id) by {
                        lemma_seq_without(old(self).chain_subs(c), id);
                        if old(self).chain_subs(c).contains(id) {
                            assert(m0.contains_key(id));
                            assert(false);
                        }
                    }
                    assert forall|x: Owner| #[trigger]
                        self.subscriber_subs(x) == seq_without(
                            old(self).subscriber_subs(x),
                            id,
                        ) by {
                        lemma_seq_without(old(self).subscriber_subs(x), id);
                        if old(self).subscriber_subs(x).contains(id) {
                            assert(m0.contains_key(id));
                            assert(false);
                        }
                    }
                    assert(self.subs_inv());
                }
                None
            },
        }
    }

    /// Stores a subscription under its id, replacing any previous one with
    /// that id, and indexes it by author, by the author's chain, and by
    /// subscriber.
    pub fn create_subscription(&mut self, sub: ContentSubscription)
        requires
            old(self).inv(),
            sub.id.subscriber == sub.subscriber,
            sub.id.author == sub.author,
        ensures
            final(self).inv(),
            final(self).subs_model() == old(self).subs_model().insert(sub.id, sub),
            final(self).author_subs(sub.author) == seq_without(
                old(self).author_subs(sub.author),
                sub.id,
            ).push(sub.id),
            final(self).chain_subs(sub.author_chain_id) == seq_without(
                old(self).chain_subs(sub.author_chain_id),
                sub.id,
            ).push(sub.id),
            final(self).subscriber_subs(sub.subscriber) == seq_without(
                old(self).subscriber_subs(sub.subscriber),
                sub.id,
            ).push(sub.id),
            forall|x: Owner|
                x != sub.author ==> #[trigger] final(self).author_subs(x) == seq_without(
                    old(self).author_subs(x),
                    sub.id,
                ),
            forall|c: ChainId|
                c != sub.author_chain_id ==> #[trigger] final(self).chain_subs(c) == seq_without(
                    old(self).chain_subs(c),
                    sub.id,
                ),
            forall|x: Owner|
                x != sub.subscriber ==> #[trigger] final(self).subscriber_subs(x) == seq_without(
                    old(self).subscriber_subs(x),
                    sub.id,
                ),
            final(self).donations_same(*old(self)),
            final(self).profiles_same(*old(self)),
            final(self).registry_same(*old(self)),
            final(self).prices_same(*old(self)),
            final(self).products_same(*old(self)),
            final(self).purchases_same(*old(self)),
            final(self).posts_same(*old(self)),
            final(self).donation_counter == old(self).donation_counter,
    {
        proof {
            broadcast use crate::ids::lemma_subscription_id_concrete_eq;
        }
        let id = sub.id;
        let author = sub.author;
        let chain = sub.author_chain_id;
        let subscriber = sub.subscriber;
        let _ = self.detach_subscription(id);
        let ghost mid = *self;
        self.content_subscriptions.insert(id, sub);
        push_to_list(&mut self.subscriptions_by_author, author, id);
        push_to_list(&mut self.subscriptions_by_chain, chain, id);
        push_to_list(&mut self.subscriptions_by_subscriber, subscriber, id);
        proof {
            lemma_same_invs(mid, *self);
            let m1 = self.subs_model();
            assert(m1 == mid.subs_model().insert(id, sub));
            assert(m1 =~= old(self).subs_model().insert(id, sub));
            assert(self.author_subs(author) == mid.author_subs(author).push(id));
            assert(self.chain_subs(chain) == mid.chain_subs(chain).push(id));
            assert(self.subscriber_subs(subscriber) == mid.subscriber_subs(subscriber).push(id));
            assert forall|sid: SubscriptionId| m1.contains_key(sid) implies {
                let q = #[trigger] m1[sid];
                &&& q.id == sid
                &&& q.subscriber == sid.subscriber
                &&& q.author == sid.author
                &&& self.author_subs(q.author).contains(sid)
                &&& self.chain_subs(q.author_chain_id).contains(sid)
                &&& self.subscriber_subs(q.subscriber).contains(sid)
            } by {
                if sid == id {
                    assert(self.author_subs(author).last() == id);
                    assert(self.chain_subs(chain).last() == id);
                    assert(self.subscriber_subs(subscriber).last() == id);
                } else {
                    let q = mid.subs_model()[sid];
                    assert(mid.author_subs(q.author).contains(sid));
                    let j = choose|j: int|
                        0 <= j < mid.author_subs(q.author).len() && mid.author_subs(q.author)[j]
                            == sid;
                    if q.author == author {
                        assert(self.author_subs(author)[j] == sid);
                    } else {
                        assert(self.author_subs(q.author) == mid.author_subs(q.author));
                    }
                    assert(self.author_subs(q.author).contains(sid));
                    assert(mid.chain_subs(q.author_chain_id).contains(sid));
                    let j2 = choose|j2: int|
                        0 <= j2 < mid.chain_subs(q.author_chain_id).len() && mid.chain_subs(
                            q.author_chain_id,
                        )[j2] == sid;
                    if q.author_chain_id == chain {
                        assert(self.chain_subs(chain)[j2] == sid);
                    } else {
                        assert(self.chain_subs(q.author_chain_id) == mid.chain_subs(
                            q.author_chain_id,
                        ));
                    }
                    assert(self.chain_subs(q.author_chain_id).contains(sid));
                    assert(mid.subscriber_subs(q.subscriber).contains(sid));
                    let j3 = choose|j3: int|
                        0 <= j3 < mid.subscriber_subs(q.subscriber).len() && mid.subscriber_subs(
                            q.subscriber,
                        )[j3] == sid;
                    if q.subscriber == subscriber {
                        assert(self.subscriber_subs(subscriber)[j3] == sid);
                    } else {
                        assert(self.subscriber_subs(q.subscriber) == mid.subscriber_subs(
                            q.subscriber,
                        ));
                    }
                    assert(self.subscriber_subs(q.subscriber).contains(sid));
                }
            }
            assert forall|x: Owner| #![trigger self.author_subs(x)]
                {
                    &&& no_dups(self.author_subs(x))
                    &&& forall|j: int|
                        0 <= j < self.author_subs(x).len() ==> m1.contains_key(
                            #[trigger] self.author_subs(x)[j],
                        ) && m1[self.author_subs(x)[j]].author == x
                } by {
                lemma_seq_without(old(self).author_subs(x), id);
                if x == author {
                    let base = mid.author_subs(x);
                    assert(!base.contains(id));
                    assert forall|j: int, j2: int|
                        0 <= j < j2 < self.author_subs(x).len() implies self.author_subs(x)[j]
                            != self.author_subs(x)[j2] by {
                        if j2 == self.author_subs(x).len() - 1 {
                            assert(self.author_subs(x)[j] == base[j]);
                            assert(base.contains(base[j]));
                        }
                    }
                    assert forall|j: int| 0 <= j < self.author_subs(x).len() implies
                        m1.contains_key(#[trigger] self.author_subs(x)[j]) && m1[
                        self.author_subs(x)[j]].author == x by {
                        if j < self.author_subs(x).len() - 1 {
                            let sid = base[j];
                            assert(mid.subs_model().contains_key(sid));
                            assert(sid != id);
                        }
                    }
                } else {
                    assert(self.author_subs(x) == mid.author_subs(x));
                    assert forall|j: int| 0 <= j < self.author_subs(x).len() implies
                        m1.contains_key(#[trigger] self.author_subs(x)[j]) && m1[
                        self.author_subs(x)[j]].author == x by {
                        let sid = mid.author_subs(x)[j];
                        assert(mid.subs_model().contains_key(sid));
                        assert(mid.subs_model()[sid].author == x);
                        assert(sid != id);
                    }
                }
            }
            assert forall|c: ChainId| #![trigger self.chain_subs(c)]
                {
                    &&& no_dups(self.chain_subs(c))
                    &&& forall|j: int|
                        0 <= j < self.chain_subs(c).len() ==> m1.contains_key(
                            #[trigger] self.chain_subs(c)[j],
                        ) && m1[self.chain_subs(c)[j]].author_chain_id == c
                } by {
                lemma_seq_without(old(self).chain_subs(c), id);
                if c == chain {
                    let base = mid.chain_subs(c);
                    assert(!base.contains(id));
                    assert forall|j: int, j2: int|
                        0 <= j < j2 < self.chain_subs(c).len() implies self.chain_subs(c)[j]
                            != self.chain_subs(c)[j2] by {
                        if j2 == self.chain_subs(c).len() - 1 {
                            assert(self.chain_subs(c)[j] == base[j]);
                            assert(base.contains(base[j]));
                        }
                    }
                    assert forall|j: int| 0 <= j < self.chain_subs(c).len() implies
                        m1.contains_key(#[trigger] self.chain_subs(c)[j]) && m1[
                        self.chain_subs(c)[j]].author_chain_id == c by {
                        if j < self.chain_subs(c).len() - 1 {
                            let sid = base[j];
                            assert(mid.subs_model().contains_key(sid));
                            assert(sid != id);
                        }
                    }
                } else {
                    assert(self.chain_subs(c) == mid.chain_subs(c));
                    assert forall|j: int| 0 <= j < self.chain_subs(c).len() implies
                        m1.contains_key(#[trigger] self.chain_subs(c)[j]) && m1[
                        self.chain_subs(c)[j]].author_chain_id == c by {
                        let sid = mid.chain_subs(c)[j];
                        assert(mid.subs_model().contains_key(sid));
                        assert(mid.subs_model()[sid].author_chain_id == c);
                        assert(sid != id);
                    }
                }
            }
            assert forall|x: Owner| #![trigger self.subscriber_subs(x)]
                {
                    &&& no_dups(self.subscriber_subs(x))
                    &&& forall|j: int|
                        0 <= j < self.subscriber_subs(x).len() ==> m1.contains_key(
                            #[trigger] self.subscriber_subs(x)[j],
                        ) && m1[self.subscriber_subs(x)[j]].subscriber == x
                } by {
                lemma_seq_without(old(self).subscriber_subs(x), id);
                if x == subscriber {
                    let base = mid.subscriber_subs(x);
                    assert(!base.contains(id));
                    assert forall|j: int, j2: int|
                        0 <= j < j2 < self.subscriber_subs(x).len() implies self.subscriber_subs(
                            x,
                        )[j] != self.subscriber_subs(x)[j2] by {
                        if j2 == self.subscriber_subs(x).len() - 1 {
                            assert(self.subscriber_subs(x)[j] == base[j]);
                            assert(base.contains(base[j]));
                        }
                    }
                    assert forall|j: int| 0 <= j < self.subscriber_subs(x).len() implies
                        m1.contains_key(#[trigger] self.subscriber_subs(x)[j]) && m1[
                        self.subscriber_subs(x)[j]].subscriber == x by {
                        if j < self.subscriber_subs(x).len() - 1 {
                            let sid = base[j];
                            assert(mid.subs_model().contains_key(sid));
                            assert(sid != id);
                        }
                    }
                } else {
                    assert(self.subscriber_subs(x) == mid.subscriber_subs(x));
                    assert forall|j: int| 0 <= j < self.subscriber_subs(x).len() implies
                        m1.contains_key(#[trigger] self.subscriber_subs(x)[j]) && m1[
                        self.subscriber_subs(x)[j]].subscriber == x by {
                        let sid = mid.subscriber_subs(x)[j];
                        assert(mid.subs_model().contains_key(sid));
                        assert(mid.subs_model()[sid].subscriber == x);
                        assert(sid != id);
                    }
                }
            }
            assert(self.subs_inv());
            assert forall|x: Owner| x != author implies #[trigger] self.author_subs(x)
                == seq_without(old(self).author_subs(x), id) by {
                assert(self.author_subs(x) == mid.author_subs(x));
            }
            assert forall|c: ChainId| c != chain implies #[trigger] self.chain_subs(c)
                == seq_without(old(self).chain_subs(c), id) by {
                assert(self.chain_subs(c) == mid.chain_subs(c));
            }
            assert forall|x: Owner| x != subscriber implies #[trigger] self.subscriber_subs(x)
                == seq_without(old(self).subscriber_subs(x), id) by {
                assert(self.subscriber_subs(x) == mid.subscriber_subs(x));
            }
        }
    }

    /// Removes a subscription named by its full (id, author, subscriber)
    /// triple; a triple whose parts disagree names nothing and is rejected.
    /// Removing an id that is already gone succeeds and changes nothing.
    pub fn remove_subscription(
        &mut self,
        sub_id: SubscriptionId,
        author: Owner,
        subscriber: Owner,
    ) -> (r: Result<(), DonationsError>)
        requires
            old(self).inv(),
        ensures
            final(self).inv(),
            r == if sub_id.author == author && sub_id.subscriber == subscriber {
                Ok::<(), DonationsError>(())
            } else {
                Err::<(), DonationsError>(DonationsError::NotFound)
            },
            r is Err ==> *final(self) == *old(self),
            r is Ok ==> {
                &&& final(self).subs_model() == old(self).subs_model().remove(sub_id)
                &&& forall|x: Owner| #[trigger]
                    final(self).author_subs(x) == seq_without(old(self).author_subs(x), sub_id)
                &&& forall|c: ChainId| #[trigger]
                    final(self).chain_subs(c) == seq_without(old(self).chain_subs(c), sub_id)
                &&& forall|x: Owner| #[trigger]
                    final(self).subscriber_subs(x) == seq_without(
                        old(self).subscriber_subs(x),
                        sub_id,
                    )
            },
            final(self).donations_same(*old(self)),
            final(self).profiles_same(*old(self)),
            final(self).registry_same(*old(self)),
            final(self).prices_same(*old(self)),
            final(self).products_same(*old(self)),
            final(self).purchases_same(*old(self)),
            final(self).posts_same(*old(self)),
            final(self).donation_counter == old(self).donation_counter,
    {
        if !(sub_id.author == author && sub_id.subscriber == subscriber) {
            return Err(DonationsError::NotFound);
        }
        let _ = self.detach_subscription(sub_id);
        Ok(())
    }

    /// The author's subscriptions still valid at a time, in listing order.
    pub fn get_active_subscriptions(&self, author: Owner, current_time: u64) -> (r: Vec<
        ContentSubscription,
    >)
        requires
            self.inv(),
        ensures
            r@ == active_subs(self.subs_model(), self.author_subs(author), current_time),
            forall|j: int|
                0 <= j < r@.len() ==> (#[trigger] r@[j]).end_timestamp >= current_time
                    && r@[j].author == author && self.subs_model().contains_key(r@[j].id),
    {
        proof {
            broadcast use crate::ids::lemma_subscription_id_concrete_eq;
        }
        let ghost m = self.subs_model();
        let ghost ids_g = self.author_subs(author);
        let mut r: Vec<ContentSubscription> = Vec::new();
        let ids: &Vec<SubscriptionId> = match self.subscriptions_by_author.get(&author) {
            Some(v) => v,
            None => {
                proof {
                    assert(ids_g =~= Seq::<SubscriptionId>::empty());
                    assert(r@ =~= active_subs(m, ids_g, current_time));
                }
                return r;
            },
        };
        let n = ids.len();
        let mut j: usize = 0;
        while j < n
            invariant
                self.inv(),
                m == self.subs_model(),
                ids_g == self.author_subs(author),
                ids@ == ids_g,
                n == ids@.len(),
                j <= n,
                r@ == active_subs(m, ids_g.subrange(0, j as int), current_time),
                forall|t: int|
                    0 <= t < r@.len() ==> (#[trigger] r@[t]).end_timestamp >= current_time
                        && r@[t].author == author && m.contains_key(r@[t].id),
            decreases n - j,
        {
            let id = ids[j];
            proof {
                broadcast use crate::ids::lemma_subscription_id_concrete_eq;

                assert(m.contains_key(ids_g[j as int]));
            }
            match self.content_subscriptions.get(&id) {
                Some(sub) => {
                    if sub.end_timestamp >= current_time {
                        let s = *sub;
                        r.push(s);
                    }
                },
                None => {
                    proof {
                        assert(false);
                    }
                },
            }
            proof {
                assert(ids_g.subrange(0, j as int + 1).drop_last() =~= ids_g.subrange(
                    0,
                    j as int,
                ));
                assert(ids_g.subrange(0, j as int + 1).last() == ids_g[j as int]);
            }
            j = j + 1;
        }
        proof {
            assert(ids_g.subrange(0, n as int) =~= ids_g);
        }
        r
    }

    /// Whether a subscriber may reach an author's gated content now.
    pub fn check_subscription_valid(
        &self,
        subscriber: Owner,
        author: Owner,
        current_time: u64,
    ) -> (r: bool)
        requires
            self.inv(),
        ensures
            r == self.subscription_valid(subscriber, author, current_time),
    {
        if subscriber == author {
            return true;
        }
        proof {
            broadcast use crate::ids::lemma_subscription_id_concrete_eq;
        }
        let ghost m = self.subs_model();
        let ghost ids_g = self.author_subs(author);
        let ids: &Vec<SubscriptionId> = match self.subscriptions_by_author.get(&author) {
            Some(v) => v,
            None => {
                proof {
                    assert(ids_g =~= Seq::<SubscriptionId>::empty());
                }
                return false;
            },
        };
        let n = ids.len();
        let mut j: usize = 0;
        while j < n
            invariant
                self.inv(),
                subscriber != author,
                m == self.subs_model(),
                ids_g == self.author_subs(author),
                ids@ == ids_g,
                n == ids@.len(),
                j <= n,
                forall|t: int|
                    0 <= t < j ==> !((#[trigger] m[ids_g[t]]).subscriber == subscriber && m[
                    ids_g[t]].end_timestamp >= current_time),
            decreases n - j,
        {
            let id = ids[j];
            proof {
                broadcast use crate::ids::lemma_subscription_id_concrete_eq;

                assert(m.contains_key(ids_g[j as int]));
            }
            match self.content_subscriptions.get(&id) {
                Some(sub) => {
                    if sub.subscriber == subscriber && sub.end_timestamp >= current_time {
                        return true;
                    }
                },
                None => {
                    proof {
                        assert(false);
                    }
                },
            }
            j = j + 1;
        }
        false
    }
}

} // verus!
