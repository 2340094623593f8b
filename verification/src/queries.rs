//! Read-only projections over the store: the shapes the query-serving layer
//! hands out, saturating donation totals, per-chain product listings, a
//! subscriber's subscriptions, and the feed of posts from actively
//! subscribed authors, newest first.

use crate::ids::SubscriptionId;
use crate::store::{lookup_donations, Store};
use crate::types::{
    Amount, ChainId, ContentSubscription, CustomFields, OrderFormField, OrderFormFieldModel,
    Owner, Post, PostModel, Product, ProductId, ProductModel,
};
use vstd::multiset::Multiset;
use vstd::prelude::*;

verus! {

/// One key-value entry of a field map, in listing shape.
#[derive(Clone, Debug)]
pub struct KeyValuePair {
    pub key: String,
    pub value: String,
}

pub ghost struct KeyValuePairModel {
    pub key: Seq<char>,
    pub value: Seq<char>,
}

impl DeepView for KeyValuePair {
    type V = KeyValuePairModel;

    open spec fn deep_view(&self) -> KeyValuePairModel {
        KeyValuePairModel { key: self.key@, value: self.value@ }
    }
}

/// One order-form field, in listing shape.
#[derive(Clone, Debug)]
pub struct OrderFormFieldView {
    pub key: String,
    pub label: String,
    pub field_type: String,
    pub required: bool,
}

impl DeepView for OrderFormFieldView {
    type V = OrderFormFieldModel;

    open spec fn deep_view(&self) -> OrderFormFieldModel {
        OrderFormFieldModel {
            key: self.key@,
            label: self.label@,
            field_type: self.field_type@,
            required: self.required,
        }
    }
}

/// The pairs a field map lists as, in map order.
pub open spec fn pairs_of(fields: Seq<(Seq<char>, Seq<char>)>) -> Seq<KeyValuePairModel> {
    fields.map_values(|p: (Seq<char>, Seq<char>)| KeyValuePairModel { key: p.0, value: p.1 })
}

/// Turns a field map into listed key-value pairs, in map order.
pub fn btree_to_pairs(map: &CustomFields) -> (r: Vec<KeyValuePair>)
    ensures
        r.deep_view() == pairs_of(map.deep_view()),
{
    let ghost mv = map.deep_view();
    let mut r: Vec<KeyValuePair> = Vec::new();
    let n = map.len();
    let mut j: usize = 0;
    while j < n
        invariant
            n == map@.len(),
            map.deep_view() == mv,
            j <= n,
            r@.len() == j,
            forall|t: int|
                0 <= t < j ==> (#[trigger] r@[t]).deep_view() == (KeyValuePairModel {
                    key: mv[t].0,
                    value: mv[t].1,
                }),
        decreases n - j,
    {
        let entry = &map[j];
        proof {
            assert(map@[j as int].deep_view() == mv[j as int]);
        }
        r.push(KeyValuePair { key: entry.0.clone(), value: entry.1.clone() });
        j = j + 1;
    }
    proof {
        assert forall|t: int| 0 <= t < r.deep_view().len() implies r.deep_view()[t] == pairs_of(
            mv,
        )[t] by {
            assert(r@[t].deep_view() == (KeyValuePairModel { key: mv[t].0, value: mv[t].1 }));
        }
        assert(r.deep_view() =~= pairs_of(mv));
    }
    r
}

/// Turns a stored order form into its listed shape, in form order.
pub fn order_form_to_views(form: &Vec<OrderFormField>) -> (r: Vec<OrderFormFieldView>)
    ensures
        r.deep_view() == form.deep_view(),
{
    let ghost fv = form.deep_view();
    let mut r: Vec<OrderFormFieldView> = Vec::new();
    let n = form.len();
    let mut j: usize = 0;
    while j < n
        invariant
            n == form@.len(),
            form.deep_view() == fv,
            j <= n,
            r@.len() == j,
            forall|t: int| 0 <= t < j ==> (#[trigger] r@[t]).deep_view() == fv[t],
        decreases n - j,
    {
        let f = &form[j];
        proof {
            assert(form@[j as int].deep_view() == fv[j as int]);
        }
        r.push(
            OrderFormFieldView {
                key: f.key.clone(),
                label: f.label.clone(),
                field_type: f.field_type.clone(),
                required: f.required,
            },
        );
        j = j + 1;
    }
    proof {
        assert forall|t: int| 0 <= t < r.deep_view().len() implies r.deep_view()[t] == fv[t] by {
            assert(r@[t].deep_view() == fv[t]);
        }
        assert(r.deep_view() =~= fv);
    }
    r
}

/// A product as everyone may see it: the private data and the success
/// message stay hidden until purchase.
#[derive(Clone, Debug)]
pub struct ProductPublicView {
    pub id: ProductId,
    pub author: Owner,
    pub author_chain_id: ChainId,
    pub public_data: Vec<KeyValuePair>,
    pub price: Amount,
    pub order_form: Vec<OrderFormFieldView>,
    pub created_at: u64,
}

pub ghost struct ProductPublicViewModel {
    pub id: ProductId,
    pub author: Owner,
    pub author_chain_id: ChainId,
    pub public_data: Seq<KeyValuePairModel>,
    pub price: Amount,
    pub order_form: Seq<OrderFormFieldModel>,
    pub created_at: u64,
}

impl DeepView for ProductPublicView {
    type V = ProductPublicViewModel;

    open spec fn deep_view(&self) -> ProductPublicViewModel {
        ProductPublicViewModel {
            id: self.id,
            author: self.author,
            author_chain_id: self.author_chain_id,
            public_data: self.public_data.deep_view(),
            price: self.price,
            order_form: self.order_form.deep_view(),
            created_at: self.created_at,
        }
    }
}

/// The public shape a stored product projects to.
pub open spec fn public_view_of(p: ProductModel) -> ProductPublicViewModel {
    ProductPublicViewModel {
        id: p.id,
        author: p.author,
        author_chain_id: p.author_chain_id,
        public_data: pairs_of(p.public_data),
        price: p.price,
        order_form: p.order_form,
        created_at: p.created_at,
    }
}

/// Projects a product to its public view.
pub fn product_to_public_view(p: &Product) -> (r: ProductPublicView)
    ensures
        r.deep_view() == public_view_of(p.deep_view()),
{
    let form = order_form_to_views(&p.order_form);
    ProductPublicView {
        id: p.id,
        author: p.author,
        author_chain_id: p.author_chain_id,
        public_data: btree_to_pairs(&p.public_data),
        price: p.price,
        order_form: form,
        created_at: p.created_at,
    }
}

/// A product with everything revealed, for its author or a buyer.
#[derive(Clone, Debug)]
pub struct ProductFullView {
    pub id: ProductId,
    pub author: Owner,
    pub author_chain_id: ChainId,
    pub public_data: Vec<KeyValuePair>,
    pub price: Amount,
    pub private_data: Vec<KeyValuePair>,
    pub success_message: Option<String>,
    pub order_form: Vec<OrderFormFieldView>,
    pub created_at: u64,
}

pub ghost struct ProductFullViewModel {
    pub id: ProductId,
    pub author: Owner,
    pub author_chain_id: ChainId,
    pub public_data: Seq<KeyValuePairModel>,
    pub price: Amount,
    pub private_data: Seq<KeyValuePairModel>,
    pub success_message: Option<Seq<char>>,
    pub order_form: Seq<OrderFormFieldModel>,
    pub created_at: u64,
}

impl DeepView for ProductFullView {
    type V = ProductFullViewModel;

    open spec fn deep_view(&self) -> ProductFullViewModel {
        ProductFullViewModel {
            id: self.id,
            author: self.author,
            author_chain_id: self.author_chain_id,
            public_data: self.public_data.deep_view(),
            price: self.price,
            private_data: self.private_data.deep_view(),
            success_message: self.success_message.deep_view(),
            order_form: self.order_form.deep_view(),
            created_at: self.created_at,
        }
    }
}

/// The full shape a stored product projects to.
pub open spec fn full_view_of(p: ProductModel) -> ProductFullViewModel {
    ProductFullViewModel {
        id: p.id,
        author: p.author,
        author_chain_id: p.author_chain_id,
        public_data: pairs_of(p.public_data),
        price: p.price,
        private_data: pairs_of(p.private_data),
        success_message: p.success_message,
        order_form: p.order_form,
        created_at: p.created_at,
    }
}

/// Projects a product to its full view.
pub fn product_to_full_view(p: &Product) -> (r: ProductFullView)
    ensures
        r.deep_view() == full_view_of(p.deep_view()),
{
    let form = order_form_to_views(&p.order_form);
    ProductFullView {
        id: p.id,
        author: p.author,
        author_chain_id: p.author_chain_id,
        public_data: btree_to_pairs(&p.public_data),
        price: p.price,
        private_data: btree_to_pairs(&p.private_data),
        success_message: crate::types::dup_opt_string(&p.success_message),
        order_form: form,
        created_at: p.created_at,
    }
}

/// The saturating sum of a run of amounts: once the sum would pass the
/// largest amount it sticks there.
pub open spec fn sum_saturating(s: Seq<Amount>) -> Amount
    decreases s.len(),
{
    if s.len() == 0 {
        0
    } else {
        let rest = sum_saturating(s.drop_last());
        if rest + s.last() > u128::MAX {
            u128::MAX as Amount
        } else {
            (rest + s.last()) as Amount
        }
    }
}

/// The amounts of the donations an id list names.
pub open spec fn donation_amounts(
    m: Map<u64, crate::types::DonationRecordModel>,
    ids: Seq<u64>,
) -> Seq<Amount> {
    ids.map_values(|i: u64| m[i].amount)
}

impl Store {
    /// The saturating total an owner has received in donations.
    pub fn total_received_amount(&self, owner: Owner) -> (r: Amount)
        requires
            self.inv(),
        ensures
            r == sum_saturating(donation_amounts(self.donations_model(), self.rec_ids(owner))),
    {
        let records = self.list_donations_by_recipient(owner);
        let ghost amounts = donation_amounts(self.donations_model(), self.rec_ids(owner));
        proof {
            assert(records.deep_view().len() == self.rec_ids(owner).len());
            assert(amounts.len() == self.rec_ids(owner).len());
        }
        let mut sum: Amount = 0;
        let n = records.len();
        let mut j: usize = 0;
        while j < n
            invariant
                n == records@.len(),
                records.deep_view() == lookup_donations(
                    self.donations_model(),
                    self.rec_ids(owner),
                ),
                amounts == donation_amounts(self.donations_model(), self.rec_ids(owner)),
                amounts.len() == n,
                j <= n,
                sum == sum_saturating(amounts.subrange(0, j as int)),
            decreases n - j,
        {
            proof {
                assert(records@[j as int].deep_view() == lookup_donations(
                    self.donations_model(),
                    self.rec_ids(owner),
                )[j as int]);
                assert(amounts[j as int] == records@[j as int].deep_view().amount);
                assert(amounts.subrange(0, j as int + 1).drop_last() =~= amounts.subrange(
                    0,
                    j as int,
                ));
                assert(amounts.subrange(0, j as int + 1).last() == amounts[j as int]);
            }
            let a = records[j].amount;
            if sum > u128::MAX - a {
                sum = u128::MAX;
            } else {
                sum = sum + a;
            }
            j = j + 1;
        }
        proof {
            assert(amounts.subrange(0, n as int) =~= amounts);
        }
        sum
    }

    /// The saturating total an owner has sent in donations.
    pub fn total_sent_amount(&self, owner: Owner) -> (r: Amount)
        requires
            self.inv(),
        ensures
            r == sum_saturating(donation_amounts(self.donations_model(), self.donor_ids(owner))),
    {
        let records = self.list_donations_by_donor(owner);
        let ghost amounts = donation_amounts(self.donations_model(), self.donor_ids(owner));
        proof {
            assert(records.deep_view().len() == self.donor_ids(owner).len());
            assert(amounts.len() == self.donor_ids(owner).len());
        }
        let mut sum: Amount = 0;
        let n = records.len();
        let mut j: usize = 0;
        while j < n
            invariant
                n == records@.len(),
                records.deep_view() == lookup_donations(
                    self.donations_model(),
                    self.donor_ids(owner),
                ),
                amounts == donation_amounts(self.donations_model(), self.donor_ids(owner)),
                amounts.len() == n,
                j <= n,
                sum == sum_saturating(amounts.subrange(0, j as int)),
            decreases n - j,
        {
            proof {
                assert(records@[j as int].deep_view() == lookup_donations(
                    self.donations_model(),
                    self.donor_ids(owner),
                )[j as int]);
                assert(amounts[j as int] == records@[j as int].deep_view().amount);
                assert(amounts.subrange(0, j as int + 1).drop_last() =~= amounts.subrange(
                    0,
                    j as int,
                ));
                assert(amounts.subrange(0, j as int + 1).last() == amounts[j as int]);
            }
            let a = records[j].amount;
            if sum > u128::MAX - a {
                sum = u128::MAX;
            } else {
                sum = sum + a;
            }
            j = j + 1;
        }
        proof {
            assert(amounts.subrange(0, n as int) =~= amounts);
        }
        sum
    }

    /// The products stored for a chain, in listing order.
    pub fn products_by_chain_list(&self, chain_id: ChainId) -> (r: Vec<Product>)
        requires
            self.inv(),
        ensures
            r.deep_view() == crate::market::lookup_products(
                self.products_model(),
                self.chain_products(chain_id),
            ),
    {
        let ghost m = self.products_model();
        let ghost ids_g = self.chain_products(chain_id);
        let mut r: Vec<Product> = Vec::new();
        let ids: &Vec<ProductId> = match self.products_by_chain.get(&chain_id) {
            Some(v) => v,
            None => {
                proof {
                    assert(ids_g =~= Seq::<ProductId>::empty());
                    assert(r.deep_view() =~= crate::market::lookup_products(m, ids_g));
                }
                return r;
            },
        };
        let n = ids.len();
        let mut j: usize = 0;
        while j < n
            invariant
                self.inv(),
                m == self.products_model(),
                ids_g == self.chain_products(chain_id),
                ids@ == ids_g,
                n == ids@.len(),
                j <= n,
                r@.len() == j,
                forall|t: int| 0 <= t < j ==> (#[trigger] r@[t]).deep_view() == m[ids_g[t]],
            decreases n - j,
        {
            let id = ids[j];
            proof {
                broadcast use crate::ids::lemma_product_id_concrete_eq;

                assert(m.contains_key(ids_g[j as int]));
                assert(self.products@.contains_key(id) == m.contains_key(id)) by {
                    assert(self.products@.dom() =~= m.dom());
                }
            }
            match self.products.get(&id) {
                Some(p) => {
                    r.push(p.duplicate());
                },
                None => {
                    proof {
                        assert(false);
                    }
                },
            }
            j = j + 1;
        }
        proof {
            assert forall|t: int| 0 <= t < ids_g.len() implies r.deep_view()[t]
                == crate::market::lookup_products(m, ids_g)[t] by {
                assert(r@[t].deep_view() == m[ids_g[t]]);
            }
            assert(r.deep_view() =~= crate::market::lookup_products(m, ids_g));
        }
        r
    }

    /// All subscriptions a subscriber holds, in listing order.
    pub fn my_subscriptions(&self, subscriber: Owner) -> (r: Vec<ContentSubscription>)
        requires
            self.inv(),
        ensures
            r@ == self.subscriber_subs(subscriber).map_values(
                |i: SubscriptionId| self.subs_model()[i],
            ),
    {
        let ghost m = self.subs_model();
        let ghost ids_g = self.subscriber_subs(subscriber);
        let mut r: Vec<ContentSubscription> = Vec::new();
        let ids: &Vec<SubscriptionId> = match self.subscriptions_by_subscriber.get(&subscriber) {
            Some(v) => v,
            None => {
                proof {
                    assert(ids_g =~= Seq::<SubscriptionId>::empty());
                    assert(r@ =~= ids_g.map_values(|i: SubscriptionId| m[i]));
                }
                return r;
            },
        };
        let n = ids.len();
        let mut j: usize = 0;
        while j < n
            invariant
                self.inv(),
                m == self.subs_model(),
                ids_g == self.subscriber_subs(subscriber),
                ids@ == ids_g,
                n == ids@.len(),
                j <= n,
                r@.len() == j,
                forall|t: int| 0 <= t < j ==> (#[trigger] r@[t]) == m[ids_g[t]],
            decreases n - j,
        {
            let id = ids[j];
            proof {
                broadcast use crate::ids::lemma_subscription_id_concrete_eq;

                assert(m.contains_key(ids_g[j as int]));
            }
            match self.content_subscriptions.get(&id) {
                Some(sub) => {
                    let s = *sub;
                    r.push(s);
                },
                None => {
                    proof {
                        assert(false);
                    }
                },
            }
            j = j + 1;
        }
        proof {
            assert(r@ =~= ids_g.map_values(|i: SubscriptionId| m[i]));
        }
        r
    }
}

/// Newest first by creation time.
pub open spec fn sorted_by_created_desc(s: Seq<PostModel>) -> bool {
    forall|i: int, j: int| 0 <= i < j < s.len() ==> s[i].created_at >= s[j].created_at
}

impl Store {
    /// The feed: every post of every author the subscriber still validly
    /// subscribes to, sorted newest first.  The result holds exactly the
    /// posts gathered over the subscriber's valid subscriptions, in some
    /// order that never puts an older post before a newer one.
    pub fn my_feed(&self, subscriber: Owner, current_time: u64) -> (r: Vec<Post>)
        requires
            self.inv(),
        ensures
            sorted_by_created_desc(r.deep_view()),
            r.deep_view().to_multiset() == feed_posts(
                *self,
                self.subscriber_subs(subscriber),
                current_time,
            ).to_multiset(),
    {
        let ghost ids_g = self.subscriber_subs(subscriber);
        let mut gathered: Vec<Post> = Vec::new();
        let subs = self.my_subscriptions(subscriber);
        let n = subs.len();
        let mut j: usize = 0;
        while j < n
            invariant
                self.inv(),
                n == subs@.len(),
                subs@ == ids_g.map_values(|i: SubscriptionId| self.subs_model()[i]),
                ids_g == self.subscriber_subs(subscriber),
                j <= n,
                gathered.deep_view() == feed_posts(*self, ids_g.subrange(0, j as int), current_time),
            decreases n - j,
        {
            let ghost prefix = ids_g.subrange(0, j as int);
            let ghost prefix1 = ids_g.subrange(0, j as int + 1);
            proof {
                assert(prefix1.drop_last() =~= prefix);
                assert(prefix1.last() == ids_g[j as int]);
                assert(subs@[j as int] == self.subs_model()[ids_g[j as int]]);
            }
            let sub = &subs[j];
            if sub.end_timestamp >= current_time {
                let posts = self.list_posts_by_author(sub.author);
                let ghost before = gathered.deep_view();
                let m = posts.len();
                let mut t: usize = 0;
                while t < m
                    invariant
                        m == posts@.len(),
                        t <= m,
                        posts.deep_view() == crate::posts::lookup_posts(
                            self.posts_model(),
                            self.author_posts(subs@[j as int].author),
                        ),
                        gathered.deep_view() == before + posts.deep_view().subrange(0, t as int),
                    decreases m - t,
                {
                    proof {
                        assert(posts@[t as int].deep_view() == posts.deep_view()[t as int]);
                        assert(posts.deep_view().subrange(0, t as int + 1)
                            =~= posts.deep_view().subrange(0, t as int).push(
                            posts.deep_view()[t as int],
                        ));
                    }
                    let ghost pre = gathered.deep_view();
                    gathered.push(posts[t].duplicate());
                    proof {
                        assert(gathered.deep_view() =~= pre.push(posts@[t as int].deep_view()));
                    }
                    t = t + 1;
                }
                proof {
                    assert(posts.deep_view().subrange(0, m as int) =~= posts.deep_view());
                    assert(gathered.deep_view() =~= feed_posts(*self, prefix1, current_time));
                }
            } else {
                proof {
                    assert(gathered.deep_view() =~= feed_posts(*self, prefix1, current_time));
                }
            }
            j = j + 1;
        }
        proof {
            assert(ids_g.subrange(0, n as int) =~= ids_g);
        }
        sort_posts_by_created_desc(gathered)
    }
}

/// The posts gathered over a run of subscriptions: for each subscription
/// still valid at the time, all of its author's posts, in listing order.
pub open spec fn feed_posts(s: Store, ids: Seq<SubscriptionId>, now: u64) -> Seq<PostModel>
    decreases ids.len(),
{
    if ids.len() == 0 {
        Seq::empty()
    } else {
        let rest = feed_posts(s, ids.drop_last(), now);
        let sub = s.subs_model()[ids.last()];
        if sub.end_timestamp >= now {
            rest + crate::posts::lookup_posts(s.posts_model(), s.author_posts(sub.author))
        } else {
            rest
        }
    }
}

/// Sorts posts newest first by creation time, keeping exactly the same
/// posts.
pub fn sort_posts_by_created_desc(posts: Vec<Post>) -> (r: Vec<Post>)
    ensures
        sorted_by_created_desc(r.deep_view()),
        r.deep_view().to_multiset() == posts.deep_view().to_multiset(),
{
    broadcast use vstd::seq_lib::group_to_multiset_ensures;
    broadcast use vstd::multiset::group_multiset_axioms;

    let mut r: Vec<Post> = Vec::new();
    let mut rest = posts;
    let ghost whole = rest.deep_view().to_multiset();
    while rest.len() > 0
        invariant
            sorted_by_created_desc(r.deep_view()),
            r.deep_view().to_multiset().add(rest.deep_view().to_multiset()) == whole,
            forall|i: int, t: int|
                0 <= i < r.deep_view().len() && 0 <= t < rest.deep_view().len() ==> r.deep_view()[
                    i].created_at >= rest.deep_view()[t].created_at,
        decreases rest.len(),
    {
        let n = rest.len();
        let mut best: usize = 0;
        let mut t: usize = 1;
        while t < n
            invariant
                n == rest@.len(),
                n > 0,
                best < n,
                t <= n,
                forall|u: int| 0 <= u < t ==> rest@[best as int].created_at >= rest@[u].created_at,
            decreases n - t,
        {
            if rest[t].created_at > rest[best].created_at {
                best = t;
            }
            t = t + 1;
        }
        let ghost rest_pre = rest.deep_view();
        let ghost picked = rest_pre[best as int];
        let chosen = rest.remove(best);
        proof {
            broadcast use vstd::seq_lib::group_to_multiset_ensures;
            broadcast use vstd::multiset::group_multiset_axioms;

            assert(chosen.deep_view() == picked);
            let after = rest.deep_view();
            assert(after =~= rest_pre.remove(best as int));
            assert(rest_pre.remove(best as int).to_multiset() == rest_pre.to_multiset().remove(
                picked,
            ));
            assert(rest_pre.to_multiset().contains(picked));
        }
        let ghost r_pre = r.deep_view();
        r.push(chosen);
        proof {
            broadcast use vstd::seq_lib::group_to_multiset_ensures;
            broadcast use vstd::multiset::group_multiset_axioms;

            assert(r.deep_view() =~= r_pre.push(picked));
            assert(r.deep_view().to_multiset() =~= r_pre.to_multiset().insert(picked));
            assert(r.deep_view().to_multiset().add(rest.deep_view().to_multiset()) =~= whole);
        }
    }
    proof {
        broadcast use vstd::seq_lib::group_to_multiset_ensures;
        broadcast use vstd::multiset::group_multiset_axioms;

        assert(rest.deep_view() =~= Seq::<PostModel>::empty());
        assert(rest.deep_view().to_multiset() =~= Multiset::<PostModel>::empty());
        assert(r.deep_view().to_multiset().add(Multiset::<PostModel>::empty())
            =~= r.deep_view().to_multiset());
    }
    r
}


/// A profile joined with its owner's registered chain.
#[derive(Clone, Debug)]
pub struct ProfileView {
    pub owner: Owner,
    pub chain_id: ChainId,
    pub name: String,
    pub bio: String,
    pub socials: Vec<crate::types::SocialLink>,
    pub avatar_hash: Option<String>,
    pub header_hash: Option<String>,
}

pub ghost struct ProfileViewModel {
    pub owner: Owner,
    pub chain_id: ChainId,
    pub name: Seq<char>,
    pub bio: Seq<char>,
    pub socials: Seq<crate::types::SocialLinkModel>,
    pub avatar_hash: Option<Seq<char>>,
    pub header_hash: Option<Seq<char>>,
}

impl DeepView for ProfileView {
    type V = ProfileViewModel;

    open spec fn deep_view(&self) -> ProfileViewModel {
        ProfileViewModel {
            owner: self.owner,
            chain_id: self.chain_id,
            name: self.name@,
            bio: self.bio@,
            socials: self.socials.deep_view(),
            avatar_hash: self.avatar_hash.deep_view(),
            header_hash: self.header_hash.deep_view(),
        }
    }
}

/// A donation record joined with both parties' home chains.
#[derive(Clone, Debug)]
pub struct DonationView {
    pub id: u64,
    pub timestamp: u64,
    pub from_owner: Owner,
    pub from_chain_id: ChainId,
    pub to_owner: Owner,
    pub to_chain_id: ChainId,
    pub amount: Amount,
    pub message: Option<String>,
}

pub ghost struct DonationViewModel {
    pub id: u64,
    pub timestamp: u64,
    pub from_owner: Owner,
    pub from_chain_id: ChainId,
    pub to_owner: Owner,
    pub to_chain_id: ChainId,
    pub amount: Amount,
    pub message: Option<Seq<char>>,
}

impl DeepView for DonationView {
    type V = DonationViewModel;

    open spec fn deep_view(&self) -> DonationViewModel {
        DonationViewModel {
            id: self.id,
            timestamp: self.timestamp,
            from_owner: self.from_owner,
            from_chain_id: self.from_chain_id,
            to_owner: self.to_owner,
            to_chain_id: self.to_chain_id,
            amount: self.amount,
            message: self.message.deep_view(),
        }
    }
}

/// A donation total joined with the owner's home chain.
#[derive(Clone, Copy, Debug)]
pub struct TotalAmountView {
    pub owner: Owner,
    pub chain_id: ChainId,
    pub amount: Amount,
}

/// A purchase with its product fully revealed, for the buyer's listings.
#[derive(Clone, Debug)]
pub struct PurchaseFullView {
    pub id: crate::ids::PurchaseId,
    pub product_id: ProductId,
    pub buyer: Owner,
    pub buyer_chain_id: ChainId,
    pub seller: Owner,
    pub seller_chain_id: ChainId,
    pub amount: Amount,
    pub timestamp: u64,
    pub order_data: Vec<KeyValuePair>,
    pub product: ProductFullView,
}

pub ghost struct PurchaseFullViewModel {
    pub id: crate::ids::PurchaseId,
    pub product_id: ProductId,
    pub buyer: Owner,
    pub buyer_chain_id: ChainId,
    pub seller: Owner,
    pub seller_chain_id: ChainId,
    pub amount: Amount,
    pub timestamp: u64,
    pub order_data: Seq<KeyValuePairModel>,
    pub product: ProductFullViewModel,
}

impl DeepView for PurchaseFullView {
    type V = PurchaseFullViewModel;

    open spec fn deep_view(&self) -> PurchaseFullViewModel {
        PurchaseFullViewModel {
            id: self.id,
            product_id: self.product_id,
            buyer: self.buyer,
            buyer_chain_id: self.buyer_chain_id,
            seller: self.seller,
            seller_chain_id: self.seller_chain_id,
            amount: self.amount,
            timestamp: self.timestamp,
            order_data: self.order_data.deep_view(),
            product: self.product.deep_view(),
        }
    }
}

/// The full shape a stored purchase projects to.
pub open spec fn purchase_full_view_of(p: crate::types::PurchaseModel) -> PurchaseFullViewModel {
    PurchaseFullViewModel {
        id: p.id,
        product_id: p.product_id,
        buyer: p.buyer,
        buyer_chain_id: p.buyer_chain_id,
        seller: p.seller,
        seller_chain_id: p.seller_chain_id,
        amount: p.amount,
        timestamp: p.timestamp,
        order_data: pairs_of(p.order_data),
        product: full_view_of(p.product),
    }
}

/// Projects a purchase to its full view.
pub fn purchase_to_full_view(p: &crate::types::Purchase) -> (r: PurchaseFullView)
    ensures
        r.deep_view() == purchase_full_view_of(p.deep_view()),
{
    PurchaseFullView {
        id: p.id,
        product_id: p.product_id,
        buyer: p.buyer,
        buyer_chain_id: p.buyer_chain_id,
        seller: p.seller,
        seller_chain_id: p.seller_chain_id,
        amount: p.amount,
        timestamp: p.timestamp,
        order_data: btree_to_pairs(&p.order_data),
        product: product_to_full_view(&p.product),
    }
}

/// The home chain a listing shows for an owner: the registered main chain,
/// or the listing chain itself when none is registered.
pub open spec fn home_chain_of(s: Store, owner: Owner, current: ChainId) -> ChainId {
    if s.registry_model().contains_key(owner) {
        s.registry_model()[owner]
    } else {
        current
    }
}

impl Store {
    /// Looks up an owner's home chain for a listing.
    pub fn home_chain(&self, owner: Owner, current: ChainId) -> (r: ChainId)
        requires
            self.inv(),
        ensures
            r == home_chain_of(*self, owner, current),
    {
        proof {
            broadcast use vstd::laws_eq::group_laws_eq;

        }
        match self.subscriptions.get(&owner) {
            Some(c) => *c,
            None => current,
        }
    }

    /// A profile joined with its owner's home chain.
    pub fn profile_view(&self, owner: Owner, current: ChainId) -> (r: Option<ProfileView>)
        requires
            self.inv(),
        ensures
            match r {
                Some(v) => self.profiles_model().contains_key(owner) && v.deep_view()
                    == (ProfileViewModel {
                    owner: self.profiles_model()[owner].owner,
                    chain_id: home_chain_of(*self, owner, current),
                    name: self.profiles_model()[owner].name,
                    bio: self.profiles_model()[owner].bio,
                    socials: self.profiles_model()[owner].socials,
                    avatar_hash: self.profiles_model()[owner].avatar_hash,
                    header_hash: self.profiles_model()[owner].header_hash,
                }),
                None => !self.profiles_model().contains_key(owner),
            },
    {
        let chain_id = self.home_chain(owner, current);
        match self.get_profile(owner) {
            Some(p) => Some(
                ProfileView {
                    owner: p.owner,
                    chain_id,
                    name: p.name,
                    bio: p.bio,
                    socials: p.socials,
                    avatar_hash: p.avatar_hash,
                    header_hash: p.header_hash,
                },
            ),
            None => None,
        }
    }

    /// The donations an owner received, joined with both parties' home
    /// chains; a record that names its source chain keeps it.
    pub fn donations_view_by_recipient(&self, owner: Owner, current: ChainId) -> (r: Vec<
        DonationView,
    >)
        requires
            self.inv(),
        ensures
            r.deep_view() == donation_views_of(
                *self,
                lookup_donations(self.donations_model(), self.rec_ids(owner)),
                home_chain_of(*self, owner, current),
                current,
            ),
    {
        let records = self.list_donations_by_recipient(owner);
        let to_chain_id = self.home_chain(owner, current);
        let ghost recs = lookup_donations(self.donations_model(), self.rec_ids(owner));
        let mut r: Vec<DonationView> = Vec::new();
        let n = records.len();
        let mut j: usize = 0;
        while j < n
            invariant
                self.inv(),
                n == records@.len(),
                records.deep_view() == recs,
                to_chain_id == home_chain_of(*self, owner, current),
                j <= n,
                r@.len() == j,
                forall|t: int|
                    0 <= t < j ==> (#[trigger] r@[t]).deep_view() == (DonationViewModel {
                        id: recs[t].id,
                        timestamp: recs[t].timestamp,
                        from_owner: recs[t].from,
                        from_chain_id: home_chain_of(*self, recs[t].from, current),
                        to_owner: recs[t].to,
                        to_chain_id,
                        amount: recs[t].amount,
                        message: recs[t].message,
                    }),
            decreases n - j,
        {
            let rec = &records[j];
            proof {
                assert(records@[j as int].deep_view() == recs[j as int]);
            }
            let from_chain_id = self.home_chain(rec.from, current);
            r.push(
                DonationView {
                    id: rec.id,
                    timestamp: rec.timestamp,
                    from_owner: rec.from,
                    from_chain_id,
                    to_owner: rec.to,
                    to_chain_id,
                    amount: rec.amount,
                    message: crate::types::dup_opt_string(&rec.message),
                },
            );
            j = j + 1;
        }
        proof {
            assert forall|t: int| 0 <= t < r.deep_view().len() implies r.deep_view()[t]
                == donation_views_of(*self, recs, to_chain_id, current)[t] by {
                assert(r@[t].deep_view() == (DonationViewModel {
                    id: recs[t].id,
                    timestamp: recs[t].timestamp,
                    from_owner: recs[t].from,
                    from_chain_id: home_chain_of(*self, recs[t].from, current),
                    to_owner: recs[t].to,
                    to_chain_id,
                    amount: recs[t].amount,
                    message: recs[t].message,
                }));
            }
            assert(r.deep_view() =~= donation_views_of(*self, recs, to_chain_id, current));
        }
        r
    }

    /// An owner's received total joined with their home chain.
    pub fn total_received_view(&self, owner: Owner, current: ChainId) -> (r: TotalAmountView)
        requires
            self.inv(),
        ensures
            r.owner == owner,
            r.chain_id == home_chain_of(*self, owner, current),
            r.amount == sum_saturating(
                donation_amounts(self.donations_model(), self.rec_ids(owner)),
            ),
    {
        TotalAmountView {
            owner,
            chain_id: self.home_chain(owner, current),
            amount: self.total_received_amount(owner),
        }
    }

    /// An owner's sent total joined with their home chain.
    pub fn total_sent_view(&self, owner: Owner, current: ChainId) -> (r: TotalAmountView)
        requires
            self.inv(),
        ensures
            r.owner == owner,
            r.chain_id == home_chain_of(*self, owner, current),
            r.amount == sum_saturating(
                donation_amounts(self.donations_model(), self.donor_ids(owner)),
            ),
    {
        TotalAmountView {
            owner,
            chain_id: self.home_chain(owner, current),
            amount: self.total_sent_amount(owner),
        }
    }

    /// Every stored profile, in storage order.
    pub fn all_profiles(&self) -> (r: Vec<crate::types::Profile>)
        requires
            self.inv(),
        ensures
            r.deep_view() == crate::table::entry_values_deep(self.profiles.entries_seq()),
    {
        let ghost es = self.profiles.entries_seq();
        let mut r: Vec<crate::types::Profile> = Vec::new();
        let n = self.profiles.len();
        let mut j: usize = 0;
        while j < n
            invariant
                es == self.profiles.entries_seq(),
                n == es.len(),
                j <= n,
                r@.len() == j,
                forall|t: int| 0 <= t < j ==> (#[trigger] r@[t]).deep_view() == es[t].1.deep_view(),
            decreases n - j,
        {
            let entry = self.profiles.nth(j);
            r.push(entry.1.duplicate());
            j = j + 1;
        }
        proof {
            assert forall|t: int| 0 <= t < r.deep_view().len() implies r.deep_view()[t]
                == crate::table::entry_values_deep(es)[t] by {
                assert(r@[t].deep_view() == es[t].1.deep_view());
            }
            assert(r.deep_view() =~= crate::table::entry_values_deep(es));
        }
        r
    }

    /// Every stored donation record, in storage order.
    pub fn all_donations(&self) -> (r: Vec<crate::types::DonationRecord>)
        requires
            self.inv(),
        ensures
            r.deep_view() == crate::table::entry_values_deep(self.donations.entries_seq()),
    {
        let ghost es = self.donations.entries_seq();
        let mut r: Vec<crate::types::DonationRecord> = Vec::new();
        let n = self.donations.len();
        let mut j: usize = 0;
        while j < n
            invariant
                es == self.donations.entries_seq(),
                n == es.len(),
                j <= n,
                r@.len() == j,
                forall|t: int| 0 <= t < j ==> (#[trigger] r@[t]).deep_view() == es[t].1.deep_view(),
            decreases n - j,
        {
            let entry = self.donations.nth(j);
            r.push(entry.1.duplicate());
            j = j + 1;
        }
        proof {
            assert forall|t: int| 0 <= t < r.deep_view().len() implies r.deep_view()[t]
                == crate::table::entry_values_deep(es)[t] by {
                assert(r@[t].deep_view() == es[t].1.deep_view());
            }
            assert(r.deep_view() =~= crate::table::entry_values_deep(es));
        }
        r
    }

    /// Every author's subscription offer, in storage order.
    pub fn all_subscription_prices(&self) -> (r: Vec<crate::types::SubscriptionInfo>)
        requires
            self.inv(),
        ensures
            r.deep_view() == crate::table::entry_values_deep(
                self.subscription_prices.entries_seq(),
            ),
    {
        let ghost es = self.subscription_prices.entries_seq();
        let mut r: Vec<crate::types::SubscriptionInfo> = Vec::new();
        let n = self.subscription_prices.len();
        let mut j: usize = 0;
        while j < n
            invariant
                es == self.subscription_prices.entries_seq(),
                n == es.len(),
                j <= n,
                r@.len() == j,
                forall|t: int| 0 <= t < j ==> (#[trigger] r@[t]).deep_view() == es[t].1.deep_view(),
            decreases n - j,
        {
            let entry = self.subscription_prices.nth(j);
            r.push(entry.1.duplicate());
            j = j + 1;
        }
        proof {
            assert forall|t: int| 0 <= t < r.deep_view().len() implies r.deep_view()[t]
                == crate::table::entry_values_deep(es)[t] by {
                assert(r@[t].deep_view() == es[t].1.deep_view());
            }
            assert(r.deep_view() =~= crate::table::entry_values_deep(es));
        }
        r
    }

    /// Every stored product in its public shape, in storage order.
    pub fn all_products(&self) -> (r: Vec<ProductPublicView>)
        requires
            self.inv(),
        ensures
            r.deep_view().len() == self.products.entries_seq().len(),
            forall|t: int|
                0 <= t < r.deep_view().len() ==> r.deep_view()[t] == public_view_of(
                    #[trigger] self.products.entries_seq()[t].1.deep_view(),
                ),
    {
        let ghost es = self.products.entries_seq();
        let mut r: Vec<ProductPublicView> = Vec::new();
        let n = self.products.len();
        let mut j: usize = 0;
        while j < n
            invariant
                es == self.products.entries_seq(),
                n == es.len(),
                j <= n,
                r@.len() == j,
                forall|t: int|
                    0 <= t < j ==> (#[trigger] r@[t]).deep_view() == public_view_of(
                        es[t].1.deep_view(),
                    ),
            decreases n - j,
        {
            let entry = self.products.nth(j);
            r.push(product_to_public_view(&entry.1));
            j = j + 1;
        }
        proof {
            assert forall|t: int| 0 <= t < r.deep_view().len() implies r.deep_view()[t]
                == public_view_of(#[trigger] self.products.entries_seq()[t].1.deep_view()) by {
                assert(r@[t].deep_view() == public_view_of(es[t].1.deep_view()));
            }
        }
        r
    }

    /// Every stored purchase in its full shape, in storage order.
    pub fn all_purchases(&self) -> (r: Vec<PurchaseFullView>)
        requires
            self.inv(),
        ensures
            r.deep_view().len() == self.purchases.entries_seq().len(),
            forall|t: int|
                0 <= t < r.deep_view().len() ==> r.deep_view()[t] == purchase_full_view_of(
                    #[trigger] self.purchases.entries_seq()[t].1.deep_view(),
                ),
    {
        let ghost es = self.purchases.entries_seq();
        let mut r: Vec<PurchaseFullView> = Vec::new();
        let n = self.purchases.len();
        let mut j: usize = 0;
        while j < n
            invariant
                es == self.purchases.entries_seq(),
                n == es.len(),
                j <= n,
                r@.len() == j,
                forall|t: int|
                    0 <= t < j ==> (#[trigger] r@[t]).deep_view() == purchase_full_view_of(
                        es[t].1.deep_view(),
                    ),
            decreases n - j,
        {
            let entry = self.purchases.nth(j);
            r.push(purchase_to_full_view(&entry.1));
            j = j + 1;
        }
        proof {
            assert forall|t: int| 0 <= t < r.deep_view().len() implies r.deep_view()[t]
                == purchase_full_view_of(
                #[trigger] self.purchases.entries_seq()[t].1.deep_view(),
            ) by {
                assert(r@[t].deep_view() == purchase_full_view_of(es[t].1.deep_view()));
            }
        }
        r
    }

    /// A buyer's purchases in their full shape, in listing order.
    pub fn my_purchases(&self, buyer: Owner) -> (r: Vec<PurchaseFullView>)
        requires
            self.inv(),
        ensures
            ({
                let base = crate::market::lookup_purchases(
                    self.purchases_model(),
                    self.buyer_purchases(buyer),
                );
                &&& r.deep_view().len() == base.len()
                &&& forall|t: int|
                    0 <= t < base.len() ==> r.deep_view()[t] == purchase_full_view_of(
                        #[trigger] base[t],
                    )
            }),
    {
        let list = self.list_purchases_by_buyer(buyer);
        purchases_to_full_views(list)
    }

    /// A seller's received orders in their full shape, in listing order.
    pub fn my_orders(&self, seller: Owner) -> (r: Vec<PurchaseFullView>)
        requires
            self.inv(),
        ensures
            ({
                let base = crate::market::lookup_purchases(
                    self.purchases_model(),
                    self.seller_purchases(seller),
                );
                &&& r.deep_view().len() == base.len()
                &&& forall|t: int|
                    0 <= t < base.len() ==> r.deep_view()[t] == purchase_full_view_of(
                        #[trigger] base[t],
                    )
            }),
    {
        let list = self.list_purchases_by_seller(seller);
        purchases_to_full_views(list)
    }
}

/// The donation views a record run projects to, with each donor's home
/// chain looked up and one fixed recipient chain.
pub open spec fn donation_views_of(
    s: Store,
    recs: Seq<crate::types::DonationRecordModel>,
    to_chain_id: ChainId,
    current: ChainId,
) -> Seq<DonationViewModel> {
    recs.map_values(
        |rec: crate::types::DonationRecordModel| DonationViewModel {
            id: rec.id,
            timestamp: rec.timestamp,
            from_owner: rec.from,
            from_chain_id: home_chain_of(s, rec.from, current),
            to_owner: rec.to,
            to_chain_id,
            amount: rec.amount,
            message: rec.message,
        },
    )
}

/// Projects a run of purchases to their full shapes, in order.
pub fn purchases_to_full_views(list: Vec<crate::types::Purchase>) -> (r: Vec<PurchaseFullView>)
    ensures
        r.deep_view().len() == list.deep_view().len(),
        forall|t: int|
            0 <= t < list.deep_view().len() ==> r.deep_view()[t] == purchase_full_view_of(
                #[trigger] list.deep_view()[t],
            ),
{
    let ghost lv = list.deep_view();
    let mut r: Vec<PurchaseFullView> = Vec::new();
    let n = list.len();
    let mut j: usize = 0;
    while j < n
        invariant
            n == list@.len(),
            list.deep_view() == lv,
            j <= n,
            r@.len() == j,
            forall|t: int|
                0 <= t < j ==> (#[trigger] r@[t]).deep_view() == purchase_full_view_of(lv[t]),
        decreases n - j,
    {
        proof {
            assert(list@[j as int].deep_view() == lv[j as int]);
        }
        r.push(purchase_to_full_view(&list[j]));
        j = j + 1;
    }
    proof {
        assert forall|t: int| 0 <= t < lv.len() implies r.deep_view()[t] == purchase_full_view_of(
            #[trigger] lv[t],
        ) by {
            assert(r@[t].deep_view() == purchase_full_view_of(lv[t]));
        }
    }
    r
}

} // verus!
