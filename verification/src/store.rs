//! The per-chain indexed store: key-value tables for each entity with
//! secondary index tables for every list-by query, and the lifecycle rules
//! for profiles and donations.  Every entity insertion is paired with
//! insertion into each index its list queries depend on, and every deletion
//! removes the entity from all of them; the store invariant states this and
//! every mutating method preserves it.

use crate::seqs::{lemma_map_values_insert, lemma_map_values_remove, no_dups, seq_without};
use crate::table::Table;
use crate::types::{
    Amount, ChainId, ContentSubscription, DonationRecord, DonationRecordModel, Owner, Post, PostId,
    PostModel, Product, ProductId, ProductModel, Profile, ProfileModel, Purchase, PurchaseId,
    PurchaseModel, SocialLink, SocialLinkModel, SubscriptionId, SubscriptionInfo,
    SubscriptionInfoModel,
};
use vstd::prelude::*;

verus! {


/// The id sequence an index table holds for a key, empty when the key is
/// absent.
pub open spec fn list_of<K: PartialEq, I>(t: Table<K, Vec<I>>, k: K) -> Seq<I> {
    if t@.contains_key(k) {
        t@[k]@
    } else {
        Seq::empty()
    }
}

/// Appends an id to a key's index list, creating the list if absent.
pub(crate) fn push_to_list<K: PartialEq + Copy, I>(t: &mut Table<K, Vec<I>>, k: K, item: I)
    requires
        vstd::laws_eq::obeys_concrete_eq::<K>(),
        old(t).wf(),
    ensures
        final(t).wf(),
        list_of(*final(t), k) == list_of(*old(t), k).push(item),
        forall|x: K| x != k ==> list_of(*final(t), x) == list_of(*old(t), x),
        final(t)@.dom() == old(t)@.dom().insert(k),
{
    let mut list: Vec<I> = match t.remove(&k) {
        Some(v) => v,
        None => Vec::new(),
    };
    list.push(item);
    let ghost ls = list@;
    t.insert(k, list);
    proof {
        assert(list_of(*t, k) =~= list_of(*old(t), k).push(item));
        assert(t@.dom() =~= old(t)@.dom().insert(k));
    }
}

/// Removes every occurrence of an id from a key's index list; a missing key
/// stays missing.
pub(crate) fn remove_from_list<K: PartialEq + Copy, I: PartialEq + Copy>(t: &mut Table<K, Vec<I>>, k: K, item: I)
    requires
        vstd::laws_eq::obeys_concrete_eq::<K>(),
        vstd::laws_eq::obeys_concrete_eq::<I>(),
        old(t).wf(),
    ensures
        final(t).wf(),
        list_of(*final(t), k) == crate::seqs::seq_without(list_of(*old(t), k), item),
        forall|x: K| x != k ==> list_of(*final(t), x) == list_of(*old(t), x),
        final(t)@.dom() == if old(t)@.contains_key(k) {
            old(t)@.dom()
        } else {
            old(t)@.dom()
        },
        final(t)@.contains_key(k) == old(t)@.contains_key(k),
{
    proof {
        reveal(vstd::laws_eq::obeys_concrete_eq);
    }
    match t.remove(&k) {
        Some(list) => {
            let mut kept: Vec<I> = Vec::new();
            let n = list.len();
            let mut i: usize = 0;
            while i < n
                invariant
                    vstd::laws_eq::obeys_concrete_eq::<I>(),
                    i <= n,
                    n == list@.len(),
                    kept@ == crate::seqs::seq_without(list@.subrange(0, i as int), item),
                decreases n - i,
            {
                proof {
                    reveal(vstd::laws_eq::obeys_concrete_eq);
                }
                let ghost prefix = list@.subrange(0, i as int);
                let x = list[i];
                if !(x == item) {
                    kept.push(x);
                }
                proof {
                    assert(list@.subrange(0, i as int + 1) =~= prefix.push(x));
                    assert(prefix.push(x).drop_last() =~= prefix);
                }
                i = i + 1;
            }
            proof {
                assert(list@.subrange(0, n as int) =~= list@);
            }
            t.insert(k, kept);
            proof {
                assert(list_of(*t, k) =~= crate::seqs::seq_without(list_of(*old(t), k), item));
                assert(t@.dom() =~= old(t)@.dom());
            }
        },
        None => {
            proof {
                assert(list_of(*t, k) =~= Seq::<I>::empty());
                assert(t@.dom() =~= old(t)@.dom());
            }
        },
    }
}

/// The donation ids in `1..=c` whose record names `x` as recipient, in
/// ascending order.
pub open spec fn donation_ids_to(m: Map<u64, DonationRecordModel>, c: u64, x: Owner) -> Seq<u64>
    decreases c,
{
    if c == 0 {
        Seq::empty()
    } else {
        let rest = donation_ids_to(m, (c - 1) as u64, x);
        if m[c].to == x {
            rest.push(c)
        } else {
            rest
        }
    }
}

/// The donation ids in `1..=c` whose record names `x` as donor, in ascending
/// order.
pub open spec fn donation_ids_from(m: Map<u64, DonationRecordModel>, c: u64, x: Owner) -> Seq<u64>
    decreases c,
{
    if c == 0 {
        Seq::empty()
    } else {
        let rest = donation_ids_from(m, (c - 1) as u64, x);
        if m[c].from == x {
            rest.push(c)
        } else {
            rest
        }
    }
}

/// Two maps that agree on the ids up to the counter index donations alike.
pub proof fn lemma_donation_ids_agree(
    m1: Map<u64, DonationRecordModel>,
    m2: Map<u64, DonationRecordModel>,
    c: u64,
    x: Owner,
)
    requires
        forall|i: u64| 1 <= i <= c ==> m1[i] == m2[i],
    ensures
        donation_ids_to(m1, c, x) == donation_ids_to(m2, c, x),
        donation_ids_from(m1, c, x) == donation_ids_from(m2, c, x),
    decreases c,
{
    if c > 0 {
        lemma_donation_ids_agree(m1, m2, (c - 1) as u64, x);
        assert(m1[c] == m2[c]);
    }
}

/// The indexed donation ids lie in `1..=c`, match the owner, rise strictly,
/// and name every matching id.
pub proof fn lemma_donation_ids_elems(m: Map<u64, DonationRecordModel>, c: u64, x: Owner)
    ensures
        forall|j: int|
            0 <= j < donation_ids_to(m, c, x).len() ==> {
                let i = #[trigger] donation_ids_to(m, c, x)[j];
                &&& 1 <= i <= c
                &&& m[i].to == x
            },
        forall|j: int, j2: int|
            0 <= j < j2 < donation_ids_to(m, c, x).len() ==> donation_ids_to(m, c, x)[j]
                < donation_ids_to(m, c, x)[j2],
        forall|i: u64| 1 <= i <= c && m[i].to == x ==> donation_ids_to(m, c, x).contains(i),
        forall|j: int|
            0 <= j < donation_ids_from(m, c, x).len() ==> {
                let i = #[trigger] donation_ids_from(m, c, x)[j];
                &&& 1 <= i <= c
                &&& m[i].from == x
            },
        forall|j: int, j2: int|
            0 <= j < j2 < donation_ids_from(m, c, x).len() ==> donation_ids_from(m, c, x)[j]
                < donation_ids_from(m, c, x)[j2],
        forall|i: u64| 1 <= i <= c && m[i].from == x ==> donation_ids_from(m, c, x).contains(i),
    decreases c,
{
    if c > 0 {
        lemma_donation_ids_elems(m, (c - 1) as u64, x);
        let rest = donation_ids_to(m, (c - 1) as u64, x);
        let cur = donation_ids_to(m, c, x);
        assert forall|i: u64| 1 <= i <= c && m[i].to == x implies cur.contains(i) by {
            if i < c {
                assert(rest.contains(i));
                let j = choose|j: int| 0 <= j < rest.len() && rest[j] == i;
                assert(cur[j] == i);
            } else {
                assert(cur.last() == c);
            }
        }
        let restf = donation_ids_from(m, (c - 1) as u64, x);
        let curf = donation_ids_from(m, c, x);
        assert forall|i: u64| 1 <= i <= c && m[i].from == x implies curf.contains(i) by {
            if i < c {
                assert(restf.contains(i));
                let j = choose|j: int| 0 <= j < restf.len() && restf[j] == i;
                assert(curf[j] == i);
            } else {
                assert(curf.last() == c);
            }
        }
    }
}

/// The looked-up records for a sequence of donation ids.
pub open spec fn lookup_donations(
    m: Map<u64, DonationRecordModel>,
    ids: Seq<u64>,
) -> Seq<DonationRecordModel> {
    ids.map_values(|i: u64| m[i])
}

/// The whole state one chain keeps.
pub struct Store {
    /// The last donation id handed out; ids count up from one.
    pub donation_counter: u64,
    pub donations: Table<u64, DonationRecord>,
    pub donations_by_recipient: Table<Owner, Vec<u64>>,
    pub donations_by_donor: Table<Owner, Vec<u64>>,
    pub profiles: Table<Owner, Profile>,
    /// For each registered owner, the main chain that mirrors this chain's
    /// events; written by the register flow.
    pub subscriptions: Table<Owner, ChainId>,
    pub products: Table<ProductId, Product>,
    pub products_by_author: Table<Owner, Vec<ProductId>>,
    pub products_by_chain: Table<ChainId, Vec<ProductId>>,
    pub purchases: Table<PurchaseId, Purchase>,
    pub purchases_by_buyer: Table<Owner, Vec<PurchaseId>>,
    pub purchases_by_seller: Table<Owner, Vec<PurchaseId>>,
    pub subscription_prices: Table<Owner, SubscriptionInfo>,
    pub content_subscriptions: Table<SubscriptionId, ContentSubscription>,
    pub subscriptions_by_author: Table<Owner, Vec<SubscriptionId>>,
    pub subscriptions_by_chain: Table<ChainId, Vec<SubscriptionId>>,
    pub subscriptions_by_subscriber: Table<Owner, Vec<SubscriptionId>>,
    pub posts: Table<PostId, Post>,
    pub posts_by_author: Table<Owner, Vec<PostId>>,
    pub posts_by_chain: Table<ChainId, Vec<PostId>>,
}

/// The display name a profile gets before any update names one.
pub open spec fn default_name() -> Seq<char> {
    "anon"@
}

/// The profile a fresh owner starts from.
pub open spec fn default_profile(owner: Owner) -> ProfileModel {
    ProfileModel {
        owner,
        name: default_name(),
        bio: Seq::empty(),
        socials: Seq::empty(),
        avatar_hash: None,
        header_hash: None,
    }
}

/// The position of the social link with a name, or -1 when none has it.
pub open spec fn social_index(s: Seq<SocialLinkModel>, name: Seq<char>) -> int
    decreases s.len(),
{
    if s.len() == 0 {
        -1
    } else if s[0].name == name {
        0
    } else {
        let r = social_index(s.subrange(1, s.len() as int), name);
        if r == -1 {
            -1
        } else {
            r + 1
        }
    }
}

/// Last-write-wins per link name: replace the first link carrying the name,
/// or append a new one.
pub open spec fn upsert_social(
    s: Seq<SocialLinkModel>,
    name: Seq<char>,
    url: Seq<char>,
) -> Seq<SocialLinkModel> {
    let i = social_index(s, name);
    if i == -1 {
        s.push(SocialLinkModel { name, url })
    } else {
        s.update(i, SocialLinkModel { name, url })
    }
}

pub proof fn lemma_social_index(s: Seq<SocialLinkModel>, name: Seq<char>)
    ensures
        social_index(s, name) == -1 ==> forall|i: int| 0 <= i < s.len() ==> s[i].name != name,
        social_index(s, name) != -1 ==> {
            let j = social_index(s, name);
            &&& 0 <= j < s.len()
            &&& s[j].name == name
            &&& forall|i: int| 0 <= i < j ==> s[i].name != name
        },
    decreases s.len(),
{
    if s.len() > 0 {
        if s[0].name != name {
            let rest = s.subrange(1, s.len() as int);
            lemma_social_index(rest, name);
            assert(forall|i: int| 0 <= i < rest.len() ==> rest[i] == s[i + 1]);
            let r = social_index(rest, name);
            if r == -1 {
                assert forall|i: int| 0 <= i < s.len() implies s[i].name != name by {
                    if i > 0 {
                        assert(rest[i - 1].name != name);
                    }
                }
            } else {
                assert(s[r + 1] == rest[r]);
                assert forall|i: int| 0 <= i < r + 1 implies s[i].name != name by {
                    if i > 0 {
                        assert(rest[i - 1].name != name);
                    }
                }
            }
        }
    }
}

impl Store {
    pub open spec fn donations_model(self) -> Map<u64, DonationRecordModel> {
        self.donations@.map_values(|r: DonationRecord| r.deep_view())
    }

    pub open spec fn rec_ids(self, x: Owner) -> Seq<u64> {
        list_of(self.donations_by_recipient, x)
    }

    pub open spec fn donor_ids(self, x: Owner) -> Seq<u64> {
        list_of(self.donations_by_donor, x)
    }

    pub open spec fn profiles_model(self) -> Map<Owner, ProfileModel> {
        self.profiles@.map_values(|p: Profile| p.deep_view())
    }

    pub open spec fn products_model(self) -> Map<ProductId, ProductModel> {
        self.products@.map_values(|p: Product| p.deep_view())
    }

    pub open spec fn author_products(self, x: Owner) -> Seq<ProductId> {
        list_of(self.products_by_author, x)
    }

    pub open spec fn chain_products(self, c: ChainId) -> Seq<ProductId> {
        list_of(self.products_by_chain, c)
    }

    pub open spec fn purchases_model(self) -> Map<PurchaseId, PurchaseModel> {
        self.purchases@.map_values(|p: Purchase| p.deep_view())
    }

    pub open spec fn buyer_purchases(self, x: Owner) -> Seq<PurchaseId> {
        list_of(self.purchases_by_buyer, x)
    }

    pub open spec fn seller_purchases(self, x: Owner) -> Seq<PurchaseId> {
        list_of(self.purchases_by_seller, x)
    }

    pub open spec fn prices_model(self) -> Map<Owner, SubscriptionInfoModel> {
        self.subscription_prices@.map_values(|i: SubscriptionInfo| i.deep_view())
    }

    pub open spec fn subs_model(self) -> Map<SubscriptionId, ContentSubscription> {
        self.content_subscriptions@
    }

    pub open spec fn author_subs(self, x: Owner) -> Seq<SubscriptionId> {
        list_of(self.subscriptions_by_author, x)
    }

    pub open spec fn chain_subs(self, c: ChainId) -> Seq<SubscriptionId> {
        list_of(self.subscriptions_by_chain, c)
    }

    pub open spec fn subscriber_subs(self, x: Owner) -> Seq<SubscriptionId> {
        list_of(self.subscriptions_by_subscriber, x)
    }

    pub open spec fn posts_model(self) -> Map<PostId, PostModel> {
        self.posts@.map_values(|p: Post| p.deep_view())
    }

    pub open spec fn author_posts(self, x: Owner) -> Seq<PostId> {
        list_of(self.posts_by_author, x)
    }

    pub open spec fn chain_posts(self, c: ChainId) -> Seq<PostId> {
        list_of(self.posts_by_chain, c)
    }

    /// The registered main chain of an owner, if any.
    pub open spec fn registry_model(self) -> Map<Owner, ChainId> {
        self.subscriptions@
    }

    // ---- frame predicates: what a mutation left untouched ----

    pub open spec fn donations_same(self, o: Store) -> bool {
        &&& self.donation_counter == o.donation_counter
        &&& self.donations == o.donations
        &&& self.donations_by_recipient == o.donations_by_recipient
        &&& self.donations_by_donor == o.donations_by_donor
    }

    pub open spec fn profiles_same(self, o: Store) -> bool {
        self.profiles == o.profiles
    }

    pub open spec fn registry_same(self, o: Store) -> bool {
        self.subscriptions == o.subscriptions
    }

    pub open spec fn products_same(self, o: Store) -> bool {
        &&& self.products == o.products
        &&& self.products_by_author == o.products_by_author
        &&& self.products_by_chain == o.products_by_chain
    }

    pub open spec fn purchases_same(self, o: Store) -> bool {
        &&& self.purchases == o.purchases
        &&& self.purchases_by_buyer == o.purchases_by_buyer
        &&& self.purchases_by_seller == o.purchases_by_seller
    }

    pub open spec fn prices_same(self, o: Store) -> bool {
        self.subscription_prices == o.subscription_prices
    }

    pub open spec fn subs_same(self, o: Store) -> bool {
        &&& self.content_subscriptions == o.content_subscriptions
        &&& self.subscriptions_by_author == o.subscriptions_by_author
        &&& self.subscriptions_by_chain == o.subscriptions_by_chain
        &&& self.subscriptions_by_subscriber == o.subscriptions_by_subscriber
    }

    pub open spec fn posts_same(self, o: Store) -> bool {
        &&& self.posts == o.posts
        &&& self.posts_by_author == o.posts_by_author
        &&& self.posts_by_chain == o.posts_by_chain
    }

    // ---- invariants ----

    /// Donation ids run from one to the counter, each record carries its own
    /// id, and each owner's recipient and donor index lists hold exactly the
    /// matching donation ids in ascending order.
    pub open spec fn donations_inv(self) -> bool {
        &&& self.donations.wf()
        &&& self.donations_by_recipient.wf()
        &&& self.donations_by_donor.wf()
        &&& forall|i: u64| #[trigger] self.donations_model().contains_key(i) <==> 1 <= i <= self.donation_counter
        &&& forall|i: u64|
            self.donations_model().contains_key(i) ==> (#[trigger] self.donations_model()[i]).id
                == i
        &&& forall|x: Owner| #![trigger self.rec_ids(x)]
            self.rec_ids(x) == donation_ids_to(self.donations_model(), self.donation_counter, x)
        &&& forall|x: Owner| #![trigger self.donor_ids(x)]
            self.donor_ids(x) == donation_ids_from(
                self.donations_model(),
                self.donation_counter,
                x,
            )
    }

    /// Each stored profile belongs to the owner it is keyed by.
    pub open spec fn profiles_inv(self) -> bool {
        &&& self.profiles.wf()
        &&& forall|x: Owner|
            self.profiles_model().contains_key(x) ==> (#[trigger] self.profiles_model()[x]).owner
                == x
    }

    pub open spec fn registry_inv(self) -> bool {
        self.subscriptions.wf()
    }

    pub open spec fn prices_inv(self) -> bool {
        self.subscription_prices.wf()
    }

    /// A stored product carries its own id and stands in exactly the author
    /// and chain index lists it belongs to; the lists hold no duplicates and
    /// name only stored products.
    pub open spec fn products_inv(self) -> bool {
        &&& self.products.wf()
        &&& self.products_by_author.wf()
        &&& self.products_by_chain.wf()
        &&& forall|id: ProductId|
            self.products_model().contains_key(id) ==> {
                let p = #[trigger] self.products_model()[id];
                &&& p.id == id
                &&& crate::types::field_keys_unique(p.public_data)
                &&& crate::types::field_keys_unique(p.private_data)
                &&& self.author_products(p.author).contains(id)
                &&& self.chain_products(p.author_chain_id).contains(id)
            }
        &&& forall|x: Owner| #![trigger self.author_products(x)]
            {
                &&& no_dups(self.author_products(x))
                &&& forall|j: int|
                    0 <= j < self.author_products(x).len()
                        ==> self.products_model().contains_key(#[trigger] self.author_products(x)[j])
                        && self.products_model()[self.author_products(x)[j]].author == x
            }
        &&& forall|c: ChainId| #![trigger self.chain_products(c)]
            {
                &&& no_dups(self.chain_products(c))
                &&& forall|j: int|
                    0 <= j < self.chain_products(c).len()
                        ==> self.products_model().contains_key(#[trigger] self.chain_products(c)[j])
                        && self.products_model()[self.chain_products(c)[j]].author_chain_id == c
            }
    }

    /// A stored purchase carries its own id and stands in exactly the buyer
    /// and seller index lists it belongs to.
    pub open spec fn purchases_inv(self) -> bool {
        &&& self.purchases.wf()
        &&& self.purchases_by_buyer.wf()
        &&& self.purchases_by_seller.wf()
        &&& forall|id: PurchaseId|
            self.purchases_model().contains_key(id) ==> {
                let p = #[trigger] self.purchases_model()[id];
                &&& p.id == id
                &&& crate::types::field_keys_unique(p.order_data)
                &&& crate::types::field_keys_unique(p.product.public_data)
                &&& crate::types::field_keys_unique(p.product.private_data)
                &&& self.buyer_purchases(p.buyer).contains(id)
                &&& self.seller_purchases(p.seller).contains(id)
            }
        &&& forall|x: Owner| #![trigger self.buyer_purchases(x)]
            {
                &&& no_dups(self.buyer_purchases(x))
                &&& forall|j: int|
                    0 <= j < self.buyer_purchases(x).len()
                        ==> self.purchases_model().contains_key(#[trigger] self.buyer_purchases(x)[j])
                        && self.purchases_model()[self.buyer_purchases(x)[j]].buyer == x
            }
        &&& forall|x: Owner| #![trigger self.seller_purchases(x)]
            {
                &&& no_dups(self.seller_purchases(x))
                &&& forall|j: int|
                    0 <= j < self.seller_purchases(x).len()
                        ==> self.purchases_model().contains_key(#[trigger] self.seller_purchases(x)[j])
                        && self.purchases_model()[self.seller_purchases(x)[j]].seller == x
            }
    }

    /// A stored content subscription carries its own id, its id names its
    /// subscriber and author, and it stands in exactly the author, chain and
    /// subscriber index lists it belongs to.
    pub open spec fn subs_inv(self) -> bool {
        &&& self.content_subscriptions.wf()
        &&& self.subscriptions_by_author.wf()
        &&& self.subscriptions_by_chain.wf()
        &&& self.subscriptions_by_subscriber.wf()
        &&& forall|id: SubscriptionId|
            self.subs_model().contains_key(id) ==> {
                let s = #[trigger] self.subs_model()[id];
                &&& s.id == id
                &&& s.subscriber == id.subscriber
                &&& s.author == id.author
                &&& self.author_subs(s.author).contains(id)
                &&& self.chain_subs(s.author_chain_id).contains(id)
                &&& self.subscriber_subs(s.subscriber).contains(id)
            }
        &&& forall|x: Owner| #![trigger self.author_subs(x)]
            {
                &&& no_dups(self.author_subs(x))
                &&& forall|j: int|
                    0 <= j < self.author_subs(x).len()
                        ==> self.subs_model().contains_key(#[trigger] self.author_subs(x)[j])
                        && self.subs_model()[self.author_subs(x)[j]].author == x
            }
        &&& forall|c: ChainId| #![trigger self.chain_subs(c)]
            {
                &&& no_dups(self.chain_subs(c))
                &&& forall|j: int|
                    0 <= j < self.chain_subs(c).len()
                        ==> self.subs_model().contains_key(#[trigger] self.chain_subs(c)[j])
                        && self.subs_model()[self.chain_subs(c)[j]].author_chain_id == c
            }
        &&& forall|x: Owner| #![trigger self.subscriber_subs(x)]
            {
                &&& no_dups(self.subscriber_subs(x))
                &&& forall|j: int|
                    0 <= j < self.subscriber_subs(x).len()
                        ==> self.subs_model().contains_key(#[trigger] self.subscriber_subs(x)[j])
                        && self.subs_model()[self.subscriber_subs(x)[j]].subscriber == x
            }
    }

    /// A stored post carries its own id and stands in exactly the author and
    /// chain index lists it belongs to.
    pub open spec fn posts_inv(self) -> bool {
        &&& self.posts.wf()
        &&& self.posts_by_author.wf()
        &&& self.posts_by_chain.wf()
        &&& forall|id: PostId|
            self.posts_model().contains_key(id) ==> {
                let p = #[trigger] self.posts_model()[id];
                &&& p.id == id
                &&& self.author_posts(p.author).contains(id)
                &&& self.chain_posts(p.author_chain_id).contains(id)
            }
        &&& forall|x: Owner| #![trigger self.author_posts(x)]
            {
                &&& no_dups(self.author_posts(x))
                &&& forall|j: int|
                    0 <= j < self.author_posts(x).len()
                        ==> self.posts_model().contains_key(#[trigger] self.author_posts(x)[j])
                        && self.posts_model()[self.author_posts(x)[j]].author == x
            }
        &&& forall|c: ChainId| #![trigger self.chain_posts(c)]
            {
                &&& no_dups(self.chain_posts(c))
                &&& forall|j: int|
                    0 <= j < self.chain_posts(c).len()
                        ==> self.posts_model().contains_key(#[trigger] self.chain_posts(c)[j])
                        && self.posts_model()[self.chain_posts(c)[j]].author_chain_id == c
            }
    }

    /// The store's whole well-formedness invariant.
    pub open spec fn inv(self) -> bool {
        &&& self.donations_inv()
        &&& self.profiles_inv()
        &&& self.registry_inv()
        &&& self.prices_inv()
        &&& self.products_inv()
        &&& self.purchases_inv()
        &&& self.subs_inv()
        &&& self.posts_inv()
    }

    /// An empty store.
    pub fn new() -> (s: Store)
        ensures
            s.inv(),
            s.donation_counter == 0,
            s.donations_model() == Map::<u64, DonationRecordModel>::empty(),
            s.profiles_model() == Map::<Owner, ProfileModel>::empty(),
            s.registry_model() == Map::<Owner, ChainId>::empty(),
            s.products_model() == Map::<ProductId, ProductModel>::empty(),
            s.purchases_model() == Map::<PurchaseId, PurchaseModel>::empty(),
            s.prices_model() == Map::<Owner, SubscriptionInfoModel>::empty(),
            s.subs_model() == Map::<SubscriptionId, ContentSubscription>::empty(),
            s.posts_model() == Map::<PostId, PostModel>::empty(),
            forall|x: Owner| #[trigger] s.rec_ids(x) == Seq::<u64>::empty(),
            forall|x: Owner| #[trigger] s.donor_ids(x) == Seq::<u64>::empty(),
            forall|x: Owner| #[trigger] s.author_products(x) == Seq::<ProductId>::empty(),
            forall|c: ChainId| #[trigger] s.chain_products(c) == Seq::<ProductId>::empty(),
            forall|x: Owner| #[trigger] s.buyer_purchases(x) == Seq::<PurchaseId>::empty(),
            forall|x: Owner| #[trigger] s.seller_purchases(x) == Seq::<PurchaseId>::empty(),
            forall|x: Owner| #[trigger] s.author_subs(x) == Seq::<SubscriptionId>::empty(),
            forall|c: ChainId| #[trigger] s.chain_subs(c) == Seq::<SubscriptionId>::empty(),
            forall|x: Owner| #[trigger] s.subscriber_subs(x) == Seq::<SubscriptionId>::empty(),
            forall|x: Owner| #[trigger] s.author_posts(x) == Seq::<PostId>::empty(),
            forall|c: ChainId| #[trigger] s.chain_posts(c) == Seq::<PostId>::empty(),
    {
        let s = Store {
            donation_counter: 0,
            donations: Table::new(),
            donations_by_recipient: Table::new(),
            donations_by_donor: Table::new(),
            profiles: Table::new(),
            subscriptions: Table::new(),
            products: Table::new(),
            products_by_author: Table::new(),
            products_by_chain: Table::new(),
            purchases: Table::new(),
            purchases_by_buyer: Table::new(),
            purchases_by_seller: Table::new(),
            subscription_prices: Table::new(),
            content_subscriptions: Table::new(),
            subscriptions_by_author: Table::new(),
            subscriptions_by_chain: Table::new(),
            subscriptions_by_subscriber: Table::new(),
            posts: Table::new(),
            posts_by_author: Table::new(),
            posts_by_chain: Table::new(),
        };
        proof {
            assert forall|x: Owner| #[trigger] s.rec_ids(x) == Seq::<u64>::empty() by {
                assert(!s.donations_by_recipient@.contains_key(x));
            }
            assert forall|x: Owner| #[trigger] s.donor_ids(x) == Seq::<u64>::empty() by {
                assert(!s.donations_by_donor@.contains_key(x));
            }
        }
        s
    }
}


/// A store that agrees with another on a component's tables satisfies that
/// component's invariant whenever the other does.
pub proof fn lemma_same_invs(a: Store, b: Store)
    ensures
        b.donations_same(a) && a.donations_inv() ==> b.donations_inv(),
        b.profiles_same(a) && a.profiles_inv() ==> b.profiles_inv(),
        b.registry_same(a) && a.registry_inv() ==> b.registry_inv(),
        b.prices_same(a) && a.prices_inv() ==> b.prices_inv(),
        b.products_same(a) && a.products_inv() ==> b.products_inv(),
        b.purchases_same(a) && a.purchases_inv() ==> b.purchases_inv(),
        b.subs_same(a) && a.subs_inv() ==> b.subs_inv(),
        b.posts_same(a) && a.posts_inv() ==> b.posts_inv(),
{
    if b.donations_same(a) && a.donations_inv() {
        assert(b.donations_model() == a.donations_model());
        assert forall|x: Owner| #[trigger] b.rec_ids(x) == a.rec_ids(x) by {}
        assert forall|x: Owner| #[trigger] b.donor_ids(x) == a.donor_ids(x) by {}
        assert(b.donations_inv());
    }
    if b.profiles_same(a) && a.profiles_inv() {
        assert(b.profiles_model() == a.profiles_model());
        assert(b.profiles_inv());
    }
    if b.products_same(a) && a.products_inv() {
        assert(b.products_model() == a.products_model());
        assert forall|x: Owner| #[trigger] b.author_products(x) == a.author_products(x) by {}
        assert forall|c: ChainId| #[trigger] b.chain_products(c) == a.chain_products(c) by {}
        assert(b.products_inv());
    }
    if b.purchases_same(a) && a.purchases_inv() {
        assert(b.purchases_model() == a.purchases_model());
        assert forall|x: Owner| #[trigger] b.buyer_purchases(x) == a.buyer_purchases(x) by {}
        assert forall|x: Owner| #[trigger] b.seller_purchases(x) == a.seller_purchases(x) by {}
        assert(b.purchases_inv());
    }
    if b.subs_same(a) && a.subs_inv() {
        assert(b.subs_model() == a.subs_model());
        assert forall|x: Owner| #[trigger] b.author_subs(x) == a.author_subs(x) by {}
        assert forall|c: ChainId| #[trigger] b.chain_subs(c) == a.chain_subs(c) by {}
        assert forall|x: Owner| #[trigger] b.subscriber_subs(x) == a.subscriber_subs(x) by {}
        assert(b.subs_inv());
    }
    if b.posts_same(a) && a.posts_inv() {
        assert(b.posts_model() == a.posts_model());
        assert forall|x: Owner| #[trigger] b.author_posts(x) == a.author_posts(x) by {}
        assert forall|c: ChainId| #[trigger] b.chain_posts(c) == a.chain_posts(c) by {}
        assert(b.posts_inv());
    }
}

impl Store {
    /// The stored profile of an owner, or the default one.
    pub open spec fn profile_base(self, owner: Owner) -> ProfileModel {
        if self.profiles_model().contains_key(owner) {
            self.profiles_model()[owner]
        } else {
            default_profile(owner)
        }
    }

    /// Takes the owner's profile out of the table, handing back the stored
    /// one or a fresh default.
    fn take_profile(&mut self, owner: Owner) -> (p: Profile)
        requires
            old(self).inv(),
        ensures
            p.deep_view() == old(self).profile_base(owner),
            p.deep_view().owner == owner,
            final(self).profiles@ == old(self).profiles@.remove(owner),
            final(self).profiles_model() == old(self).profiles_model().remove(owner),
            final(self).profiles_inv(),
            final(self).donations_inv(),
            final(self).registry_inv(),
            final(self).prices_inv(),
            final(self).products_inv(),
            final(self).purchases_inv(),
            final(self).subs_inv(),
            final(self).posts_inv(),
            final(self).donations_same(*old(self)),
            final(self).registry_same(*old(self)),
            final(self).prices_same(*old(self)),
            final(self).products_same(*old(self)),
            final(self).purchases_same(*old(self)),
            final(self).subs_same(*old(self)),
            final(self).posts_same(*old(self)),
            final(self).donation_counter == old(self).donation_counter,
    {
        let r = self.profiles.remove(&owner);
        proof {
            lemma_map_values_remove(old(self).profiles@, owner, |q: Profile| q.deep_view());
            lemma_same_invs(*old(self), *self);
            assert(self.profiles_model() == old(self).profiles_model().remove(owner));
            assert(self.profiles_inv());
        }
        match r {
            Some(p) => {
                proof {
                    assert(p.deep_view() == old(self).profiles_model()[owner]) by {
                        assert(old(self).profiles_model()[owner] == old(self).profiles@[
                            owner].deep_view());
                    }
                }
                p
            },
            None => {
                proof {
                    assert(!old(self).profiles_model().contains_key(owner)) by {
                        assert(old(self).profiles_model().dom() =~= old(self).profiles@.dom());
                    }
                }
                let p = Profile {
                    owner,
                    name: "anon".to_owned(),
                    bio: String::new(),
                    socials: Vec::new(),
                    avatar_hash: None,
                    header_hash: None,
                };
                proof {
                    assert(p.socials.deep_view() =~= Seq::<SocialLinkModel>::empty());
                    assert(p.deep_view() == default_profile(owner));
                }
                p
            },
        }
    }

    /// Puts a profile back under its owner's key and restores the invariant.
    fn put_profile(&mut self, owner: Owner, p: Profile)
        requires
            old(self).profiles_inv(),
            old(self).donations_inv(),
            old(self).registry_inv(),
            old(self).prices_inv(),
            old(self).products_inv(),
            old(self).purchases_inv(),
            old(self).subs_inv(),
            old(self).posts_inv(),
            p.deep_view().owner == owner,
        ensures
            final(self).inv(),
            final(self).profiles_model() == old(self).profiles_model().insert(
                owner,
                p.deep_view(),
            ),
            final(self).donations_same(*old(self)),
            final(self).registry_same(*old(self)),
            final(self).prices_same(*old(self)),
            final(self).products_same(*old(self)),
            final(self).purchases_same(*old(self)),
            final(self).subs_same(*old(self)),
            final(self).posts_same(*old(self)),
            final(self).donation_counter == old(self).donation_counter,
    {
        let ghost pm = p.deep_view();
        self.profiles.insert(owner, p);
        proof {
            lemma_map_values_insert(old(self).profiles@, owner, p, |q: Profile| q.deep_view());
            lemma_same_invs(*old(self), *self);
            let m1 = self.profiles_model();
            assert forall|x: Owner| m1.contains_key(x) implies (#[trigger] m1[x]).owner == x by {
                if x != owner {
                    assert(m1[x] == old(self).profiles_model()[x]);
                }
            }
            assert(self.profiles_inv());
        }
    }

    /// Materialises the owner's profile: stores the default when none
    /// exists, and leaves a stored one as it is.
    pub fn ensure_profile(&mut self, owner: Owner)
        requires
            old(self).inv(),
        ensures
            final(self).inv(),
            final(self).profiles_model() == old(self).profiles_model().insert(
                owner,
                old(self).profile_base(owner),
            ),
            final(self).profile_base(owner) == old(self).profile_base(owner),
            final(self).donations_same(*old(self)),
            final(self).registry_same(*old(self)),
            final(self).prices_same(*old(self)),
            final(self).products_same(*old(self)),
            final(self).purchases_same(*old(self)),
            final(self).subs_same(*old(self)),
            final(self).posts_same(*old(self)),
            final(self).donation_counter == old(self).donation_counter,
    {
        let p = self.take_profile(owner);
        self.put_profile(owner, p);
    }

    /// Sets the display name, coercing an empty name to the default.
    pub fn set_name(&mut self, owner: Owner, name: String)
        requires
            old(self).inv(),
        ensures
            final(self).inv(),
            final(self).profiles_model() == old(self).profiles_model().insert(
                owner,
                ProfileModel {
                    name: if name@.len() == 0 {
                        default_name()
                    } else {
                        name@
                    },
                    ..old(self).profile_base(owner)
                },
            ),
            final(self).donations_same(*old(self)),
            final(self).registry_same(*old(self)),
            final(self).prices_same(*old(self)),
            final(self).products_same(*old(self)),
            final(self).purchases_same(*old(self)),
            final(self).subs_same(*old(self)),
            final(self).posts_same(*old(self)),
            final(self).donation_counter == old(self).donation_counter,
    {
        let ghost base = old(self).profile_base(owner);
        let mut p = self.take_profile(owner);
        if name.as_str().is_empty() {
            p.name = "anon".to_owned();
        } else {
            p.name = name;
        }
        self.put_profile(owner, p);
    }

    /// Sets the bio.
    pub fn set_bio(&mut self, owner: Owner, bio: String)
        requires
            old(self).inv(),
        ensures
            final(self).inv(),
            final(self).profiles_model() == old(self).profiles_model().insert(
                owner,
                ProfileModel { bio: bio@, ..old(self).profile_base(owner) },
            ),
            final(self).donations_same(*old(self)),
            final(self).registry_same(*old(self)),
            final(self).prices_same(*old(self)),
            final(self).products_same(*old(self)),
            final(self).purchases_same(*old(self)),
            final(self).subs_same(*old(self)),
            final(self).posts_same(*old(self)),
            final(self).donation_counter == old(self).donation_counter,
    {
        let mut p = self.take_profile(owner);
        p.bio = bio;
        self.put_profile(owner, p);
    }

    /// Updates one social link by name, last write per name winning, keeping
    /// the order of the other links.
    pub fn set_social(&mut self, owner: Owner, name: String, url: String)
        requires
            old(self).inv(),
        ensures
            final(self).inv(),
            final(self).profiles_model() == old(self).profiles_model().insert(
                owner,
                ProfileModel {
                    socials: upsert_social(old(self).profile_base(owner).socials, name@, url@),
                    ..old(self).profile_base(owner)
                },
            ),
            final(self).donations_same(*old(self)),
            final(self).registry_same(*old(self)),
            final(self).prices_same(*old(self)),
            final(self).products_same(*old(self)),
            final(self).purchases_same(*old(self)),
            final(self).subs_same(*old(self)),
            final(self).posts_same(*old(self)),
            final(self).donation_counter == old(self).donation_counter,
    {
        let ghost base = old(self).profile_base(owner).socials;
        let mut p = self.take_profile(owner);
        let n = p.socials.len();
        let mut j: usize = 0;
        let mut found = false;
        while j < n && !found
            invariant
                n == p.socials@.len(),
                j <= n,
                p.socials.deep_view() == base,
                !found ==> forall|m: int| 0 <= m < j ==> base[m].name != name@,
                found ==> j < n && base[j as int].name == name@ && (forall|m: int|
                    0 <= m < j ==> base[m].name != name@),
            decreases n - j + if found { 0int } else { 1int },
        {
            if p.socials[j].name == name {
                found = true;
            } else {
                proof {
                    assert(base[j as int] == p.socials@[j as int].deep_view());
                }
                j = j + 1;
            }
        }
        proof {
            lemma_social_index(base, name@);
        }
        if found {
            proof {
                assert(social_index(base, name@) == j as int);
            }
            p.socials.set(j, SocialLink { name, url });
            proof {
                assert(p.socials.deep_view() =~= base.update(
                    j as int,
                    SocialLinkModel { name: name@, url: url@ },
                ));
            }
        } else {
            proof {
                assert(social_index(base, name@) == -1);
            }
            p.socials.push(SocialLink { name, url });
            proof {
                assert(p.socials.deep_view() =~= base.push(
                    SocialLinkModel { name: name@, url: url@ },
                ));
            }
        }
        self.put_profile(owner, p);
    }

    /// Sets the avatar content hash.
    pub fn set_avatar(&mut self, owner: Owner, hash: String)
        requires
            old(self).inv(),
        ensures
            final(self).inv(),
            final(self).profiles_model() == old(self).profiles_model().insert(
                owner,
                ProfileModel { avatar_hash: Some(hash@), ..old(self).profile_base(owner) },
            ),
            final(self).donations_same(*old(self)),
            final(self).registry_same(*old(self)),
            final(self).prices_same(*old(self)),
            final(self).products_same(*old(self)),
            final(self).purchases_same(*old(self)),
            final(self).subs_same(*old(self)),
            final(self).posts_same(*old(self)),
            final(self).donation_counter == old(self).donation_counter,
    {
        let mut p = self.take_profile(owner);
        p.avatar_hash = Some(hash);
        self.put_profile(owner, p);
    }

    /// Sets the header content hash.
    pub fn set_header(&mut self, owner: Owner, hash: String)
        requires
            old(self).inv(),
        ensures
            final(self).inv(),
            final(self).profiles_model() == old(self).profiles_model().insert(
                owner,
                ProfileModel { header_hash: Some(hash@), ..old(self).profile_base(owner) },
            ),
            final(self).donations_same(*old(self)),
            final(self).registry_same(*old(self)),
            final(self).prices_same(*old(self)),
            final(self).products_same(*old(self)),
            final(self).purchases_same(*old(self)),
            final(self).subs_same(*old(self)),
            final(self).posts_same(*old(self)),
            final(self).donation_counter == old(self).donation_counter,
    {
        let mut p = self.take_profile(owner);
        p.header_hash = Some(hash);
        self.put_profile(owner, p);
    }

    /// The stored profile of an owner, copied out.
    pub fn get_profile(&self, owner: Owner) -> (r: Option<Profile>)
        requires
            self.inv(),
        ensures
            match r {
                Some(p) => self.profiles_model().contains_key(owner) && p.deep_view()
                    == self.profiles_model()[owner],
                None => !self.profiles_model().contains_key(owner),
            },
    {
        match self.profiles.get(&owner) {
            Some(p) => Some(p.duplicate()),
            None => None,
        }
    }

    /// Appends an immutable donation record under the next id and indexes it
    /// by recipient and by donor.
    pub fn record_donation(
        &mut self,
        from: Owner,
        to: Owner,
        amount: Amount,
        message: Option<String>,
        source_chain_id: Option<ChainId>,
        to_chain_id: Option<ChainId>,
        timestamp: u64,
    ) -> (id: u64)
        requires
            old(self).inv(),
            old(self).donation_counter < u64::MAX,
        ensures
            final(self).inv(),
            id == old(self).donation_counter + 1,
            final(self).donation_counter == id,
            final(self).donations_model() == old(self).donations_model().insert(
                id,
                DonationRecordModel {
                    id,
                    timestamp,
                    from,
                    to,
                    amount,
                    message: message.deep_view(),
                    source_chain_id,
                    to_chain_id,
                },
            ),
            final(self).rec_ids(to) == old(self).rec_ids(to).push(id),
            final(self).donor_ids(from) == old(self).donor_ids(from).push(id),
            forall|x: Owner| x != to ==> final(self).rec_ids(x) == old(self).rec_ids(x),
            forall|x: Owner| x != from ==> final(self).donor_ids(x) == old(self).donor_ids(x),
            final(self).profiles_same(*old(self)),
            final(self).registry_same(*old(self)),
            final(self).prices_same(*old(self)),
            final(self).products_same(*old(self)),
            final(self).purchases_same(*old(self)),
            final(self).subs_same(*old(self)),
            final(self).posts_same(*old(self)),
    {
        let id = self.donation_counter + 1;
        self.donation_counter = id;
        let rec = DonationRecord {
            id,
            timestamp,
            from,
            to,
            amount,
            message,
            source_chain_id,
            to_chain_id,
        };
        let ghost recm = rec.deep_view();
        let ghost m0 = old(self).donations_model();
        self.donations.insert(id, rec);
        push_to_list(&mut self.donations_by_recipient, to, id);
        push_to_list(&mut self.donations_by_donor, from, id);
        proof {
            lemma_map_values_insert(
                old(self).donations@,
                id,
                rec,
                |r: DonationRecord| r.deep_view(),
            );
            let m1 = self.donations_model();
            assert(m1 == m0.insert(id, recm));
            lemma_same_invs(*old(self), *self);
            assert forall|i: u64| #[trigger] m1.contains_key(i) <==> 1 <= i <= id by {
                assert(m1.contains_key(i) == (i == id || m0.contains_key(i)));
            }
            assert forall|x: Owner| #[trigger]
                self.rec_ids(x) == donation_ids_to(m1, id, x) by {
                lemma_donation_ids_agree(m1, m0, (id - 1) as u64, x);
                assert(donation_ids_to(m1, id, x) == if recm.to == x {
                    donation_ids_to(m0, (id - 1) as u64, x).push(id)
                } else {
                    donation_ids_to(m0, (id - 1) as u64, x)
                });
                assert(old(self).rec_ids(x) == donation_ids_to(m0, (id - 1) as u64, x));
            }
            assert forall|x: Owner| #[trigger]
                self.donor_ids(x) == donation_ids_from(m1, id, x) by {
                lemma_donation_ids_agree(m1, m0, (id - 1) as u64, x);
                assert(donation_ids_from(m1, id, x) == if recm.from == x {
                    donation_ids_from(m0, (id - 1) as u64, x).push(id)
                } else {
                    donation_ids_from(m0, (id - 1) as u64, x)
                });
                assert(old(self).donor_ids(x) == donation_ids_from(m0, (id - 1) as u64, x));
            }
            assert(self.donations_inv());
        }
        id
    }

    /// The donations received by an owner, in the order they were recorded.
    pub fn list_donations_by_recipient(&self, owner: Owner) -> (r: Vec<DonationRecord>)
        requires
            self.inv(),
        ensures
            r.deep_view() == lookup_donations(self.donations_model(), self.rec_ids(owner)),
    {
        let ghost m = self.donations_model();
        let ghost ids_g = self.rec_ids(owner);
        let mut r: Vec<DonationRecord> = Vec::new();
        let ids: &Vec<u64> = match self.donations_by_recipient.get(&owner) {
            Some(v) => v,
            None => {
                proof {
                    assert(ids_g =~= Seq::<u64>::empty());
                    assert(r.deep_view() =~= lookup_donations(m, ids_g));
                }
                return r;
            },
        };
        proof {
            lemma_donation_ids_elems(m, self.donation_counter, owner);
        }
        let n = ids.len();
        let mut j: usize = 0;
        while j < n
            invariant
                self.inv(),
                m == self.donations_model(),
                ids_g == self.rec_ids(owner),
                ids@ == ids_g,
                n == ids@.len(),
                j <= n,
                r@.len() == j,
                forall|t: int| 0 <= t < j ==> (#[trigger] r@[t]).deep_view() == m[ids_g[t]],
            decreases n - j,
        {
            let id = ids[j];
            proof {
                lemma_donation_ids_elems(m, self.donation_counter, owner);
                assert(1 <= id <= self.donation_counter);
                assert(m.contains_key(id));
                assert(self.donations@.contains_key(id) == m.contains_key(id)) by {
                    assert(self.donations@.dom() =~= m.dom());
                }
            }
            match self.donations.get(&id) {
                Some(rec) => {
                    r.push(rec.duplicate());
                },
                None => {
                    proof {
                        assert(false);
                    }
                },
            }
            j = j + 1;
        }
        proof {
            assert forall|t: int| 0 <= t < ids_g.len() implies r.deep_view()[t] == lookup_donations(
                m,
                ids_g,
            )[t] by {
                assert(r@[t].deep_view() == m[ids_g[t]]);
            }
            assert(r.deep_view() =~= lookup_donations(m, ids_g));
        }
        r
    }

    /// The donations sent by an owner, in the order they were recorded.
    pub fn list_donations_by_donor(&self, owner: Owner) -> (r: Vec<DonationRecord>)
        requires
            self.inv(),
        ensures
            r.deep_view() == lookup_donations(self.donations_model(), self.donor_ids(owner)),
    {
        let ghost m = self.donations_model();
        let ghost ids_g = self.donor_ids(owner);
        let mut r: Vec<DonationRecord> = Vec::new();
        let ids: &Vec<u64> = match self.donations_by_donor.get(&owner) {
            Some(v) => v,
            None => {
                proof {
                    assert(ids_g =~= Seq::<u64>::empty());
                    assert(r.deep_view() =~= lookup_donations(m, ids_g));
                }
                return r;
            },
        };
        proof {
            lemma_donation_ids_elems(m, self.donation_counter, owner);
        }
        let n = ids.len();
        let mut j: usize = 0;
        while j < n
            invariant
                self.inv(),
                m == self.donations_model(),
                ids_g == self.donor_ids(owner),
                ids@ == ids_g,
                n == ids@.len(),
                j <= n,
                r@.len() == j,
                forall|t: int| 0 <= t < j ==> (#[trigger] r@[t]).deep_view() == m[ids_g[t]],
            decreases n - j,
        {
            let id = ids[j];
            proof {
                lemma_donation_ids_elems(m, self.donation_counter, owner);
                assert(1 <= id <= self.donation_counter);
                assert(m.contains_key(id));
                assert(self.donations@.contains_key(id) == m.contains_key(id)) by {
                    assert(self.donations@.dom() =~= m.dom());
                }
            }
            match self.donations.get(&id) {
                Some(rec) => {
                    r.push(rec.duplicate());
                },
                None => {
                    proof {
                        assert(false);
                    }
                },
            }
            j = j + 1;
        }
        proof {
            assert forall|t: int| 0 <= t < ids_g.len() implies r.deep_view()[t] == lookup_donations(
                m,
                ids_g,
            )[t] by {
                assert(r@[t].deep_view() == m[ids_g[t]]);
            }
            assert(r.deep_view() =~= lookup_donations(m, ids_g));
        }
        r
    }
}

} // verus!
