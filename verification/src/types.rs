//! The data model: entities, identifiers, operations, messages, events, and
//! the error taxonomy, together with the spec-level models (deep views) that
//! the contracts speak about.
//!
//! Identities and amounts come from an external ledger and are carried here
//! as plain numbers: an account owner and a chain identifier are opaque
//! numeric identities, an amount is an opaque fixed-point quantity, and a
//! timestamp is microseconds since an external epoch.

use vstd::prelude::*;

pub use crate::ids::{ProductId, PurchaseId, SubscriptionId};

verus! {

/// An account owner: an opaque identity supplied by the host.
pub type Owner = u64;

/// A chain identifier: an opaque identity supplied by the host.
pub type ChainId = u64;

/// A token amount: an opaque fixed-point quantity from the external ledger.
pub type Amount = u128;

/// A post id: the numeric value of the 12-hex-digit id derived from the
/// creation timestamp.
pub type PostId = u64;

/// Key-value maps of caller-supplied text, bounded by `MAX_CUSTOM_FIELDS`.
pub type CustomFields = Vec<(String, String)>;

/// A buyer's answers to a product's order form.
pub type OrderResponses = Vec<(String, String)>;

/// The bound on the entry count of a product's public or private field map.
pub const MAX_CUSTOM_FIELDS: usize = 20;

/// The bound on the field count of a product's order form.
pub const MAX_ORDER_FORM_FIELDS: usize = 20;

/// The fixed length of a content subscription's paid window, in microseconds.
pub const THIRTY_DAYS_MICROS: u64 = 30 * 24 * 60 * 60 * 1000000;

/// One more than the largest post id: a post id is the creation timestamp
/// reduced to 12 hexadecimal digits.
pub const POST_ID_MOD: u64 = 0x1000000000000;

/// The number of hexadecimal digits a post id renders as; the giveaway
/// winner formula uses this length.
pub const POST_ID_HEX_LEN: u64 = 12;

/// The distinguished owner value that stands for the chain's own account,
/// the source of minted funds and the sink of withdrawals.
pub const CHAIN_OWNER: Owner = 0;

/// The error taxonomy.  Locally-invoked operations surface these to the
/// caller; message and replayed-event handlers absorb them.
#[derive(Clone, Copy, Debug, PartialEq, Eq, Structural)]
pub enum DonationsError {
    /// The caller is not the required owner or author.
    Unauthorized,
    /// The entity id is absent.
    NotFound,
    /// A field-count or form-size limit was exceeded.
    ValidationError,
    /// A gated action was attempted without a valid content subscription.
    ExpiredOrMissingAccess,
    /// A vote was cast after the poll's end timestamp.
    PollEnded,
    /// The underlying store failed; treated as unrecoverable by the host.
    StateCorruption,
}

/// An account on a chain: the destination of a transfer.
#[derive(Clone, Copy, Debug, PartialEq, Eq, Structural)]
pub struct Account {
    pub chain_id: ChainId,
    pub owner: Owner,
}

/// A named social link on a profile.
#[derive(Clone, Debug)]
pub struct SocialLink {
    pub name: String,
    pub url: String,
}

pub ghost struct SocialLinkModel {
    pub name: Seq<char>,
    pub url: Seq<char>,
}

impl DeepView for SocialLink {
    type V = SocialLinkModel;

    open spec fn deep_view(&self) -> SocialLinkModel {
        SocialLinkModel { name: self.name@, url: self.url@ }
    }
}

impl SocialLink {
    pub fn duplicate(&self) -> (r: SocialLink)
        ensures
            r.deep_view() == self.deep_view(),
    {
        SocialLink { name: self.name.clone(), url: self.url.clone() }
    }
}

/// A social link handed in by the caller.
#[derive(Clone, Debug)]
pub struct SocialLinkInput {
    pub name: String,
    pub url: String,
}

impl DeepView for SocialLinkInput {
    type V = SocialLinkModel;

    open spec fn deep_view(&self) -> SocialLinkModel {
        SocialLinkModel { name: self.name@, url: self.url@ }
    }
}

/// A user profile.  A missing display name defaults to `anon`; social links
/// are unique by name with last-write-wins per name.
#[derive(Clone, Debug)]
pub struct Profile {
    pub owner: Owner,
    pub name: String,
    pub bio: String,
    pub socials: Vec<SocialLink>,
    pub avatar_hash: Option<String>,
    pub header_hash: Option<String>,
}

pub ghost struct ProfileModel {
    pub owner: Owner,
    pub name: Seq<char>,
    pub bio: Seq<char>,
    pub socials: Seq<SocialLinkModel>,
    pub avatar_hash: Option<Seq<char>>,
    pub header_hash: Option<Seq<char>>,
}

impl DeepView for Profile {
    type V = ProfileModel;

    open spec fn deep_view(&self) -> ProfileModel {
        ProfileModel {
            owner: self.owner,
            name: self.name@,
            bio: self.bio@,
            socials: self.socials.deep_view(),
            avatar_hash: self.avatar_hash.deep_view(),
            header_hash: self.header_hash.deep_view(),
        }
    }
}

/// An immutable record of one donation, indexed by recipient and by donor.
/// The chain id fields are absent when the donation stayed on one chain.
#[derive(Clone, Debug)]
pub struct DonationRecord {
    pub id: u64,
    pub timestamp: u64,
    pub from: Owner,
    pub to: Owner,
    pub amount: Amount,
    pub message: Option<String>,
    pub source_chain_id: Option<ChainId>,
    pub to_chain_id: Option<ChainId>,
}

pub ghost struct DonationRecordModel {
    pub id: u64,
    pub timestamp: u64,
    pub from: Owner,
    pub to: Owner,
    pub amount: Amount,
    pub message: Option<Seq<char>>,
    pub source_chain_id: Option<ChainId>,
    pub to_chain_id: Option<ChainId>,
}

impl DeepView for DonationRecord {
    type V = DonationRecordModel;

    open spec fn deep_view(&self) -> DonationRecordModel {
        DonationRecordModel {
            id: self.id,
            timestamp: self.timestamp,
            from: self.from,
            to: self.to,
            amount: self.amount,
            message: self.message.deep_view(),
            source_chain_id: self.source_chain_id,
            to_chain_id: self.to_chain_id,
        }
    }
}

/// An author's subscription offer: at most one per author; absence means the
/// author does not sell time-boxed access.
#[derive(Clone, Debug)]
pub struct SubscriptionInfo {
    pub author: Owner,
    pub price: Amount,
    pub description: Option<String>,
}

pub ghost struct SubscriptionInfoModel {
    pub author: Owner,
    pub price: Amount,
    pub description: Option<Seq<char>>,
}

impl DeepView for SubscriptionInfo {
    type V = SubscriptionInfoModel;

    open spec fn deep_view(&self) -> SubscriptionInfoModel {
        SubscriptionInfoModel {
            author: self.author,
            price: self.price,
            description: self.description.deep_view(),
        }
    }
}

/// A paid, time-boxed access grant from a subscriber to an author.  Validity
/// on a chain means `end_timestamp >= now` on that chain's own clock.
#[derive(Clone, Copy, Debug)]
pub struct ContentSubscription {
    pub id: SubscriptionId,
    pub subscriber: Owner,
    pub subscriber_chain_id: ChainId,
    pub author: Owner,
    pub author_chain_id: ChainId,
    pub start_timestamp: u64,
    pub end_timestamp: u64,
    pub price: Amount,
}

impl DeepView for ContentSubscription {
    type V = ContentSubscription;

    open spec fn deep_view(&self) -> ContentSubscription {
        *self
    }
}

/// One field of a product's order form.
#[derive(Clone, Debug)]
pub struct OrderFormField {
    pub key: String,
    pub label: String,
    pub field_type: String,
    pub required: bool,
}

pub ghost struct OrderFormFieldModel {
    pub key: Seq<char>,
    pub label: Seq<char>,
    pub field_type: Seq<char>,
    pub required: bool,
}

impl DeepView for OrderFormField {
    type V = OrderFormFieldModel;

    open spec fn deep_view(&self) -> OrderFormFieldModel {
        OrderFormFieldModel {
            key: self.key@,
            label: self.label@,
            field_type: self.field_type@,
            required: self.required,
        }
    }
}

impl OrderFormField {
    pub fn duplicate(&self) -> (r: OrderFormField)
        ensures
            r.deep_view() == self.deep_view(),
    {
        OrderFormField {
            key: self.key.clone(),
            label: self.label.clone(),
            field_type: self.field_type.clone(),
            required: self.required,
        }
    }
}

/// An order-form field handed in by the caller.
#[derive(Clone, Debug)]
pub struct OrderFormFieldInput {
    pub key: String,
    pub label: String,
    pub field_type: String,
    pub required: bool,
}

impl DeepView for OrderFormFieldInput {
    type V = OrderFormFieldModel;

    open spec fn deep_view(&self) -> OrderFormFieldModel {
        OrderFormFieldModel {
            key: self.key@,
            label: self.label@,
            field_type: self.field_type@,
            required: self.required,
        }
    }
}

/// A product for sale: a public field map everyone sees, a private field map
/// revealed on purchase, and an order form the buyer answers.
#[derive(Clone, Debug)]
pub struct Product {
    pub id: ProductId,
    pub author: Owner,
    pub author_chain_id: ChainId,
    pub public_data: CustomFields,
    pub price: Amount,
    pub private_data: CustomFields,
    pub success_message: Option<String>,
    pub order_form: Vec<OrderFormField>,
    pub created_at: u64,
}

pub ghost struct ProductModel {
    pub id: ProductId,
    pub author: Owner,
    pub author_chain_id: ChainId,
    pub public_data: Seq<(Seq<char>, Seq<char>)>,
    pub price: Amount,
    pub private_data: Seq<(Seq<char>, Seq<char>)>,
    pub success_message: Option<Seq<char>>,
    pub order_form: Seq<OrderFormFieldModel>,
    pub created_at: u64,
}

impl DeepView for Product {
    type V = ProductModel;

    open spec fn deep_view(&self) -> ProductModel {
        ProductModel {
            id: self.id,
            author: self.author,
            author_chain_id: self.author_chain_id,
            public_data: self.public_data.deep_view(),
            price: self.price,
            private_data: self.private_data.deep_view(),
            success_message: self.success_message.deep_view(),
            order_form: self.order_form.deep_view(),
            created_at: self.created_at,
        }
    }
}

/// A record of one purchase, carrying the buyer's order answers and a full
/// snapshot of the product at purchase time, so later product edits do not
/// change a past order.
#[derive(Clone, Debug)]
pub struct Purchase {
    pub id: PurchaseId,
    pub product_id: ProductId,
    pub buyer: Owner,
    pub buyer_chain_id: ChainId,
    pub seller: Owner,
    pub seller_chain_id: ChainId,
    pub amount: Amount,
    pub timestamp: u64,
    pub order_data: OrderResponses,
    pub product: Product,
}

pub ghost struct PurchaseModel {
    pub id: PurchaseId,
    pub product_id: ProductId,
    pub buyer: Owner,
    pub buyer_chain_id: ChainId,
    pub seller: Owner,
    pub seller_chain_id: ChainId,
    pub amount: Amount,
    pub timestamp: u64,
    pub order_data: Seq<(Seq<char>, Seq<char>)>,
    pub product: ProductModel,
}

impl DeepView for Purchase {
    type V = PurchaseModel;

    open spec fn deep_view(&self) -> PurchaseModel {
        PurchaseModel {
            id: self.id,
            product_id: self.product_id,
            buyer: self.buyer,
            buyer_chain_id: self.buyer_chain_id,
            seller: self.seller,
            seller_chain_id: self.seller_chain_id,
            amount: self.amount,
            timestamp: self.timestamp,
            order_data: self.order_data.deep_view(),
            product: self.product.deep_view(),
        }
    }
}

/// One option of a poll.  The tally is always recomputed from the voter map,
/// never incremented, so replaying a vote cannot double count.
#[derive(Clone, Debug)]
pub struct PollOption {
    pub text: String,
    pub votes_count: u64,
}

pub ghost struct PollOptionModel {
    pub text: Seq<char>,
    pub votes_count: u64,
}

impl DeepView for PollOption {
    type V = PollOptionModel;

    open spec fn deep_view(&self) -> PollOptionModel {
        PollOptionModel { text: self.text@, votes_count: self.votes_count }
    }
}

/// A poll embedded in a post: ordered options, an optional end timestamp
/// (zero means no end), and one vote per voter with last-vote-overwrites.
#[derive(Clone, Debug)]
pub struct Poll {
    pub options: Vec<PollOption>,
    pub end_timestamp: u64,
    pub voters: Vec<(Owner, usize)>,
}

pub ghost struct PollModel {
    pub options: Seq<PollOptionModel>,
    pub end_timestamp: u64,
    pub voters: Seq<(Owner, usize)>,
}

impl DeepView for Poll {
    type V = PollModel;

    open spec fn deep_view(&self) -> PollModel {
        PollModel {
            options: self.options.deep_view(),
            end_timestamp: self.end_timestamp,
            voters: self.voters.deep_view(),
        }
    }
}

/// One entrant of a giveaway.
#[derive(Clone, Copy, Debug, PartialEq, Eq, Structural)]
pub struct GiveawayParticipant {
    pub owner: Owner,
    pub chain_id: ChainId,
    pub joined_at: u64,
}

impl DeepView for GiveawayParticipant {
    type V = GiveawayParticipant;

    open spec fn deep_view(&self) -> GiveawayParticipant {
        *self
    }
}

/// A giveaway embedded in a post.  Once resolved it accepts no further
/// participants and holds exactly one winner.
#[derive(Clone, Debug)]
pub struct Giveaway {
    pub prize_amount: Amount,
    pub end_timestamp: u64,
    pub participants: Vec<GiveawayParticipant>,
    pub winner: Option<GiveawayParticipant>,
    pub is_resolved: bool,
}

pub ghost struct GiveawayModel {
    pub prize_amount: Amount,
    pub end_timestamp: u64,
    pub participants: Seq<GiveawayParticipant>,
    pub winner: Option<GiveawayParticipant>,
    pub is_resolved: bool,
}

impl DeepView for Giveaway {
    type V = GiveawayModel;

    open spec fn deep_view(&self) -> GiveawayModel {
        GiveawayModel {
            prize_amount: self.prize_amount,
            end_timestamp: self.end_timestamp,
            participants: self.participants.deep_view(),
            winner: self.winner,
            is_resolved: self.is_resolved,
        }
    }
}

/// A post, updatable and deletable by its author only, with an optional
/// embedded poll and an optional embedded giveaway.
#[derive(Clone, Debug)]
pub struct Post {
    pub id: PostId,
    pub author: Owner,
    pub author_chain_id: ChainId,
    pub title: String,
    pub content: String,
    pub image_hash: Option<String>,
    pub created_at: u64,
    pub poll: Option<Poll>,
    pub giveaway: Option<Giveaway>,
}

pub ghost struct PostModel {
    pub id: PostId,
    pub author: Owner,
    pub author_chain_id: ChainId,
    pub title: Seq<char>,
    pub content: Seq<char>,
    pub image_hash: Option<Seq<char>>,
    pub created_at: u64,
    pub poll: Option<PollModel>,
    pub giveaway: Option<GiveawayModel>,
}

impl DeepView for Post {
    type V = PostModel;

    open spec fn deep_view(&self) -> PostModel {
        PostModel {
            id: self.id,
            author: self.author,
            author_chain_id: self.author_chain_id,
            title: self.title@,
            content: self.content@,
            image_hash: self.image_hash.deep_view(),
            created_at: self.created_at,
            poll: self.poll.deep_view(),
            giveaway: self.giveaway.deep_view(),
        }
    }
}

/// No two entries of a field map share a key: the maps are maps, not
/// multimaps, as every wire and storage representation of them guarantees.
pub open spec fn field_keys_unique(fields: Seq<(Seq<char>, Seq<char>)>) -> bool {
    forall|i: int, j: int| 0 <= i < j < fields.len() ==> fields[i].0 != fields[j].0
}

/// A valid custom field map: within the allowed size, with distinct keys.
pub open spec fn custom_fields_ok(fields: Seq<(Seq<char>, Seq<char>)>) -> bool {
    fields.len() <= MAX_CUSTOM_FIELDS && field_keys_unique(fields)
}

/// Whether a field map's keys are pairwise distinct.
pub fn unique_field_keys(fields: &Vec<(String, String)>) -> (r: bool)
    ensures
        r == field_keys_unique(fields.deep_view()),
{
    let ghost fv = fields.deep_view();
    let n = fields.len();
    let mut i: usize = 0;
    while i < n
        invariant
            n == fields@.len(),
            fields.deep_view() == fv,
            i <= n,
            forall|a: int, b: int| 0 <= a < b < fields@.len() && a < i ==> fv[a].0 != fv[b].0,
        decreases n - i,
    {
        let mut j: usize = i + 1;
        while j < n
            invariant
                n == fields@.len(),
                fields.deep_view() == fv,
                i < n,
                i < j,
                j <= n,
                forall|b: int| i < b < j ==> fv[i as int].0 != fv[b].0,
            decreases n - j,
        {
            proof {
                assert(fields@[i as int].deep_view() == fv[i as int]);
                assert(fields@[j as int].deep_view() == fv[j as int]);
            }
            if fields[i].0 == fields[j].0 {
                return false;
            }
            j = j + 1;
        }
        i = i + 1;
    }
    true
}

/// An order form within the allowed size.
pub open spec fn order_form_ok(form: Seq<OrderFormFieldModel>) -> bool {
    form.len() <= MAX_ORDER_FORM_FIELDS
}

/// The model of a product after an author's field-by-field update.
pub open spec fn product_with_updates(
    p: ProductModel,
    public_data: Option<Seq<(Seq<char>, Seq<char>)>>,
    price: Option<Amount>,
    private_data: Option<Seq<(Seq<char>, Seq<char>)>>,
    success_message: Option<Seq<char>>,
    order_form: Option<Seq<crate::types::OrderFormFieldModel>>,
) -> ProductModel {
    ProductModel {
        id: p.id,
        author: p.author,
        author_chain_id: p.author_chain_id,
        created_at: p.created_at,
        public_data: match public_data {
            Some(v) => v,
            None => p.public_data,
        },
        price: match price {
            Some(v) => v,
            None => p.price,
        },
        private_data: match private_data {
            Some(v) => v,
            None => p.private_data,
        },
        success_message: match success_message {
            Some(v) => Some(v),
            None => p.success_message,
        },
        order_form: match order_form {
            Some(v) => v,
            None => p.order_form,
        },
    }
}

/// A copy of an optional text with the same contents.
pub fn dup_opt_string(o: &Option<String>) -> (r: Option<String>)
    ensures
        r.deep_view() == o.deep_view(),
{
    match o {
        Some(s) => Some(s.clone()),
        None => None,
    }
}

/// A copy of a key-value text map with the same contents.
pub fn dup_pairs(v: &Vec<(String, String)>) -> (r: Vec<(String, String)>)
    ensures
        r.deep_view() == v.deep_view(),
{
    let mut r: Vec<(String, String)> = Vec::new();
    let n = v.len();
    let mut i: usize = 0;
    while i < n
        invariant
            i <= n,
            n == v.len(),
            r@.len() == i,
            forall|j: int| 0 <= j < i ==> (#[trigger] r@[j]).deep_view() == v@[j].deep_view(),
        decreases n - i,
    {
        let pair = &v[i];
        r.push((pair.0.clone(), pair.1.clone()));
        i = i + 1;
    }
    proof {
        assert forall|j: int| 0 <= j < v@.len() implies r.deep_view()[j] == v.deep_view()[j] by {
            assert(r@[j].deep_view() == v@[j].deep_view());
        }
        assert(r.deep_view() =~= v.deep_view());
    }
    r
}

/// A copy of a social-link list with the same contents.
pub fn dup_socials(v: &Vec<SocialLink>) -> (r: Vec<SocialLink>)
    ensures
        r.deep_view() == v.deep_view(),
{
    let mut r: Vec<SocialLink> = Vec::new();
    let n = v.len();
    let mut i: usize = 0;
    while i < n
        invariant
            i <= n,
            n == v.len(),
            r@.len() == i,
            forall|j: int| 0 <= j < i ==> (#[trigger] r@[j]).deep_view() == v@[j].deep_view(),
        decreases n - i,
    {
        r.push(v[i].duplicate());
        i = i + 1;
    }
    proof {
        assert forall|j: int| 0 <= j < v@.len() implies r.deep_view()[j] == v.deep_view()[j] by {
            assert(r@[j].deep_view() == v@[j].deep_view());
        }
        assert(r.deep_view() =~= v.deep_view());
    }
    r
}

/// A copy of an order form with the same contents.
pub fn dup_order_form(v: &Vec<OrderFormField>) -> (r: Vec<OrderFormField>)
    ensures
        r.deep_view() == v.deep_view(),
{
    let mut r: Vec<OrderFormField> = Vec::new();
    let n = v.len();
    let mut i: usize = 0;
    while i < n
        invariant
            i <= n,
            n == v.len(),
            r@.len() == i,
            forall|j: int| 0 <= j < i ==> (#[trigger] r@[j]).deep_view() == v@[j].deep_view(),
        decreases n - i,
    {
        r.push(v[i].duplicate());
        i = i + 1;
    }
    proof {
        assert forall|j: int| 0 <= j < v@.len() implies r.deep_view()[j] == v.deep_view()[j] by {
            assert(r@[j].deep_view() == v@[j].deep_view());
        }
        assert(r.deep_view() =~= v.deep_view());
    }
    r
}

impl Profile {
    pub fn duplicate(&self) -> (r: Profile)
        ensures
            r.deep_view() == self.deep_view(),
    {
        Profile {
            owner: self.owner,
            name: self.name.clone(),
            bio: self.bio.clone(),
            socials: dup_socials(&self.socials),
            avatar_hash: dup_opt_string(&self.avatar_hash),
            header_hash: dup_opt_string(&self.header_hash),
        }
    }
}

impl DonationRecord {
    pub fn duplicate(&self) -> (r: DonationRecord)
        ensures
            r.deep_view() == self.deep_view(),
    {
        DonationRecord {
            id: self.id,
            timestamp: self.timestamp,
            from: self.from,
            to: self.to,
            amount: self.amount,
            message: dup_opt_string(&self.message),
            source_chain_id: self.source_chain_id,
            to_chain_id: self.to_chain_id,
        }
    }
}

impl SubscriptionInfo {
    pub fn duplicate(&self) -> (r: SubscriptionInfo)
        ensures
            r.deep_view() == self.deep_view(),
    {
        SubscriptionInfo {
            author: self.author,
            price: self.price,
            description: dup_opt_string(&self.description),
        }
    }
}

impl Product {
    pub fn duplicate(&self) -> (r: Product)
        ensures
            r.deep_view() == self.deep_view(),
    {
        Product {
            id: self.id,
            author: self.author,
            author_chain_id: self.author_chain_id,
            public_data: dup_pairs(&self.public_data),
            price: self.price,
            private_data: dup_pairs(&self.private_data),
            success_message: dup_opt_string(&self.success_message),
            order_form: dup_order_form(&self.order_form),
            created_at: self.created_at,
        }
    }
}

impl Purchase {
    pub fn duplicate(&self) -> (r: Purchase)
        ensures
            r.deep_view() == self.deep_view(),
    {
        Purchase {
            id: self.id,
            product_id: self.product_id,
            buyer: self.buyer,
            buyer_chain_id: self.buyer_chain_id,
            seller: self.seller,
            seller_chain_id: self.seller_chain_id,
            amount: self.amount,
            timestamp: self.timestamp,
            order_data: dup_pairs(&self.order_data),
            product: self.product.duplicate(),
        }
    }
}

impl PollOption {
    pub fn duplicate(&self) -> (r: PollOption)
        ensures
            r.deep_view() == self.deep_view(),
    {
        PollOption { text: self.text.clone(), votes_count: self.votes_count }
    }
}

/// A copy of a poll-option list with the same contents.
pub fn dup_poll_options(v: &Vec<PollOption>) -> (r: Vec<PollOption>)
    ensures
        r.deep_view() == v.deep_view(),
{
    let mut r: Vec<PollOption> = Vec::new();
    let n = v.len();
    let mut i: usize = 0;
    while i < n
        invariant
            i <= n,
            n == v.len(),
            r@.len() == i,
            forall|j: int| 0 <= j < i ==> (#[trigger] r@[j]).deep_view() == v@[j].deep_view(),
        decreases n - i,
    {
        r.push(v[i].duplicate());
        i = i + 1;
    }
    proof {
        assert forall|j: int| 0 <= j < v@.len() implies r.deep_view()[j] == v.deep_view()[j] by {
            assert(r@[j].deep_view() == v@[j].deep_view());
        }
        assert(r.deep_view() =~= v.deep_view());
    }
    r
}

/// A copy of a voter map with the same contents.
pub fn dup_voters(v: &Vec<(Owner, usize)>) -> (r: Vec<(Owner, usize)>)
    ensures
        r.deep_view() == v.deep_view(),
        r@ == v@,
{
    let mut r: Vec<(Owner, usize)> = Vec::new();
    let n = v.len();
    let mut i: usize = 0;
    while i < n
        invariant
            i <= n,
            n == v.len(),
            r@ =~= v@.subrange(0, i as int),
        decreases n - i,
    {
        let pair = v[i];
        r.push(pair);
        i = i + 1;
    }
    proof {
        assert(r@ =~= v@);
        assert(r.deep_view() =~= v.deep_view());
    }
    r
}

/// A copy of a participant list with the same contents.
pub fn dup_participants(v: &Vec<GiveawayParticipant>) -> (r: Vec<GiveawayParticipant>)
    ensures
        r.deep_view() == v.deep_view(),
        r@ == v@,
{
    let mut r: Vec<GiveawayParticipant> = Vec::new();
    let n = v.len();
    let mut i: usize = 0;
    while i < n
        invariant
            i <= n,
            n == v.len(),
            r@ =~= v@.subrange(0, i as int),
        decreases n - i,
    {
        let p = v[i];
        r.push(p);
        i = i + 1;
    }
    proof {
        assert(r@ =~= v@);
        assert(r.deep_view() =~= v.deep_view());
    }
    r
}

impl Poll {
    pub fn duplicate(&self) -> (r: Poll)
        ensures
            r.deep_view() == self.deep_view(),
    {
        Poll {
            options: dup_poll_options(&self.options),
            end_timestamp: self.end_timestamp,
            voters: dup_voters(&self.voters),
        }
    }
}

impl Giveaway {
    pub fn duplicate(&self) -> (r: Giveaway)
        ensures
            r.deep_view() == self.deep_view(),
    {
        Giveaway {
            prize_amount: self.prize_amount,
            end_timestamp: self.end_timestamp,
            participants: dup_participants(&self.participants),
            winner: self.winner,
            is_resolved: self.is_resolved,
        }
    }
}

impl Post {
    pub fn duplicate(&self) -> (r: Post)
        ensures
            r.deep_view() == self.deep_view(),
    {
        let poll = match &self.poll {
            Some(p) => Some(p.duplicate()),
            None => None,
        };
        let giveaway = match &self.giveaway {
            Some(g) => Some(g.duplicate()),
            None => None,
        };
        Post {
            id: self.id,
            author: self.author,
            author_chain_id: self.author_chain_id,
            title: self.title.clone(),
            content: self.content.clone(),
            image_hash: dup_opt_string(&self.image_hash),
            created_at: self.created_at,
            poll,
            giveaway,
        }
    }
}

/// An entry of a balance listing.
#[derive(Clone, Copy, Debug)]
pub struct AccountEntry {
    pub key: Owner,
    pub value: Amount,
}

/// A destination account handed in by the caller.
#[derive(Clone, Copy, Debug)]
pub struct AccountInput {
    pub chain_id: ChainId,
    pub owner: Owner,
}

/// The marker type that names this application's interface.
#[derive(Clone, Copy, Debug)]
pub struct DonationsAbi;


} // verus!
