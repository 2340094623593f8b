//! The cross-chain protocol surface: the operations a caller submits, the
//! one-way messages chains send one another, the domain events appended to a
//! chain's own stream, the host actions an execution asks of the runtime,
//! and the responses handed back to the caller.

use crate::types::{
    Account, Amount, ChainId, ContentSubscription, CustomFields, DonationRecord,
    DonationRecordModel, Giveaway, GiveawayModel, OrderFormFieldInput, OrderResponses, Owner, Poll,
    PollModel, Post, PostId, PostModel, Product, ProductId, ProductModel, Profile, ProfileModel,
    PurchaseId, SocialLink, SocialLinkInput, SocialLinkModel, SubscriptionId,
};
use vstd::prelude::*;

verus! {

/// A caller-submitted operation, executed on the caller's own chain.
#[derive(Clone, Debug)]
pub enum Operation {
    Transfer {
        owner: Owner,
        amount: Amount,
        target_account: Account,
        text_message: Option<String>,
    },
    Withdraw,
    Mint { owner: Owner, amount: Amount },
    UpdateProfile {
        name: Option<String>,
        bio: Option<String>,
        socials: Vec<SocialLinkInput>,
        avatar_hash: Option<String>,
        header_hash: Option<String>,
    },
    Register {
        main_chain_id: ChainId,
        name: Option<String>,
        bio: Option<String>,
        socials: Vec<SocialLinkInput>,
        avatar_hash: Option<String>,
        header_hash: Option<String>,
    },
    SetAvatar { hash: String },
    SetHeader { hash: String },
    GetProfile { owner: Owner },
    GetDonationsByRecipient { owner: Owner },
    GetDonationsByDonor { owner: Owner },
    CreateProduct {
        public_data: CustomFields,
        price: Amount,
        private_data: CustomFields,
        success_message: Option<String>,
        order_form: Vec<OrderFormFieldInput>,
    },
    UpdateProduct {
        product_id: ProductId,
        public_data: Option<CustomFields>,
        price: Option<Amount>,
        private_data: Option<CustomFields>,
        success_message: Option<String>,
        order_form: Option<Vec<OrderFormFieldInput>>,
    },
    DeleteProduct { product_id: ProductId },
    TransferToBuy {
        owner: Owner,
        product_id: ProductId,
        amount: Amount,
        target_account: Account,
        order_data: OrderResponses,
    },
    ReadDataBlob { hash: String },
    SetSubscriptionPrice { price: Amount, description: Option<String> },
    DeleteSubscriptionPrice,
    SubscribeToAuthor { owner: Owner, amount: Amount, target_account: Account },
    CreatePost {
        title: String,
        content: String,
        image_hash: Option<String>,
        poll_options: Vec<String>,
        poll_end_timestamp: Option<u64>,
        giveaway_prize: Option<Amount>,
        giveaway_end_timestamp: Option<u64>,
    },
    UpdatePost {
        post_id: PostId,
        title: Option<String>,
        content: Option<String>,
        image_hash: Option<String>,
    },
    DeletePost { post_id: PostId },
    CastVote { author_chain_id: ChainId, author: Owner, post_id: PostId, option_index: usize },
    ParticipateInGiveaway { author_chain_id: ChainId, author: Owner, post_id: PostId },
    ResolveGiveaway { post_id: PostId },
}

/// A one-way message addressed to another chain, authenticated by the
/// sending chain.
#[derive(Clone, Debug)]
pub enum Message {
    Notify,
    TransferWithMessage {
        owner: Owner,
        amount: Amount,
        text_message: Option<String>,
        source_chain_id: ChainId,
        source_owner: Owner,
    },
    Register {
        source_chain_id: ChainId,
        owner: Owner,
        name: Option<String>,
        bio: Option<String>,
        socials: Vec<SocialLink>,
    },
    ProductCreated { product: Product },
    ProductUpdated { product: Product },
    ProductDeleted { product_id: ProductId, author: Owner },
    ProductPurchased {
        purchase_id: PurchaseId,
        product_id: ProductId,
        buyer: Owner,
        buyer_chain_id: ChainId,
        seller: Owner,
        amount: Amount,
        order_data: OrderResponses,
    },
    SendProductData {
        buyer: Owner,
        purchase_id: PurchaseId,
        product: Product,
        order_data: OrderResponses,
    },
    OrderReceived {
        purchase_id: PurchaseId,
        product_id: ProductId,
        buyer: Owner,
        buyer_chain_id: ChainId,
        amount: Amount,
        order_data: OrderResponses,
        timestamp: u64,
    },
    SubscriptionPayment {
        subscriber: Owner,
        subscriber_chain_id: ChainId,
        author: Owner,
        amount: Amount,
        duration_micros: u64,
        timestamp: u64,
    },
    PostPublished { post: Post },
    PostUpdated { post: Post },
    PostDeleted { post_id: PostId, author: Owner },
    VoteCasted { post_id: PostId, voter: Owner, voter_chain_id: ChainId, option_index: usize },
    PollResultsUpdated { post_id: PostId, poll: Poll },
    GiveawayParticipation { post_id: PostId, participant: Owner, participant_chain_id: ChainId },
    GiveawayUpdated { post_id: PostId, giveaway: Giveaway },
}

pub ghost enum MessageModel {
    Notify,
    TransferWithMessage {
        owner: Owner,
        amount: Amount,
        text_message: Option<Seq<char>>,
        source_chain_id: ChainId,
        source_owner: Owner,
    },
    Register {
        source_chain_id: ChainId,
        owner: Owner,
        name: Option<Seq<char>>,
        bio: Option<Seq<char>>,
        socials: Seq<SocialLinkModel>,
    },
    ProductCreated { product: ProductModel },
    ProductUpdated { product: ProductModel },
    ProductDeleted { product_id: ProductId, author: Owner },
    ProductPurchased {
        purchase_id: PurchaseId,
        product_id: ProductId,
        buyer: Owner,
        buyer_chain_id: ChainId,
        seller: Owner,
        amount: Amount,
        order_data: Seq<(Seq<char>, Seq<char>)>,
    },
    SendProductData {
        buyer: Owner,
        purchase_id: PurchaseId,
        product: ProductModel,
        order_data: Seq<(Seq<char>, Seq<char>)>,
    },
    OrderReceived {
        purchase_id: PurchaseId,
        product_id: ProductId,
        buyer: Owner,
        buyer_chain_id: ChainId,
        amount: Amount,
        order_data: Seq<(Seq<char>, Seq<char>)>,
        timestamp: u64,
    },
    SubscriptionPayment {
        subscriber: Owner,
        subscriber_chain_id: ChainId,
        author: Owner,
        amount: Amount,
        duration_micros: u64,
        timestamp: u64,
    },
    PostPublished { post: PostModel },
    PostUpdated { post: PostModel },
    PostDeleted { post_id: PostId, author: Owner },
    VoteCasted { post_id: PostId, voter: Owner, voter_chain_id: ChainId, option_index: usize },
    PollResultsUpdated { post_id: PostId, poll: PollModel },
    GiveawayParticipation { post_id: PostId, participant: Owner, participant_chain_id: ChainId },
    GiveawayUpdated { post_id: PostId, giveaway: GiveawayModel },
}

impl DeepView for Message {
    type V = MessageModel;

    open spec fn deep_view(&self) -> MessageModel {
        match self {
            Message::Notify => MessageModel::Notify,
            Message::TransferWithMessage { owner, amount, text_message, source_chain_id, source_owner } => MessageModel::TransferWithMessage {
                owner: *owner,
                amount: *amount,
                text_message: text_message.deep_view(),
                source_chain_id: *source_chain_id,
                source_owner: *source_owner,
            },
            Message::Register { source_chain_id, owner, name, bio, socials } => MessageModel::Register {
                source_chain_id: *source_chain_id,
                owner: *owner,
                name: name.deep_view(),
                bio: bio.deep_view(),
                socials: socials.deep_view(),
            },
            Message::ProductCreated { product } => MessageModel::ProductCreated {
                product: product.deep_view(),
            },
            Message::ProductUpdated { product } => MessageModel::ProductUpdated {
                product: product.deep_view(),
            },
            Message::ProductDeleted { product_id, author } => MessageModel::ProductDeleted {
                product_id: *product_id,
                author: *author,
            },
            Message::ProductPurchased { purchase_id, product_id, buyer, buyer_chain_id, seller, amount, order_data } => MessageModel::ProductPurchased {
                purchase_id: *purchase_id,
                product_id: *product_id,
                buyer: *buyer,
                buyer_chain_id: *buyer_chain_id,
                seller: *seller,
                amount: *amount,
                order_data: order_data.deep_view(),
            },
            Message::SendProductData { buyer, purchase_id, product, order_data } => MessageModel::SendProductData {
                buyer: *buyer,
                purchase_id: *purchase_id,
                product: product.deep_view(),
                order_data: order_data.deep_view(),
            },
            Message::OrderReceived { purchase_id, product_id, buyer, buyer_chain_id, amount, order_data, timestamp } => MessageModel::OrderReceived {
                purchase_id: *purchase_id,
                product_id: *product_id,
                buyer: *buyer,
                buyer_chain_id: *buyer_chain_id,
                amount: *amount,
                order_data: order_data.deep_view(),
                timestamp: *timestamp,
            },
            Message::SubscriptionPayment { subscriber, subscriber_chain_id, author, amount, duration_micros, timestamp } => MessageModel::SubscriptionPayment {
                subscriber: *subscriber,
                subscriber_chain_id: *subscriber_chain_id,
                author: *author,
                amount: *amount,
                duration_micros: *duration_micros,
                timestamp: *timestamp,
            },
            Message::PostPublished { post } => MessageModel::PostPublished {
                post: post.deep_view(),
            },
            Message::PostUpdated { post } => MessageModel::PostUpdated { post: post.deep_view() },
            Message::PostDeleted { post_id, author } => MessageModel::PostDeleted {
                post_id: *post_id,
                author: *author,
            },
            Message::VoteCasted { post_id, voter, voter_chain_id, option_index } => MessageModel::VoteCasted {
                post_id: *post_id,
                voter: *voter,
                voter_chain_id: *voter_chain_id,
                option_index: *option_index,
            },
            Message::PollResultsUpdated { post_id, poll } => MessageModel::PollResultsUpdated {
                post_id: *post_id,
                poll: poll.deep_view(),
            },
            Message::GiveawayParticipation { post_id, participant, participant_chain_id } => MessageModel::GiveawayParticipation {
                post_id: *post_id,
                participant: *participant,
                participant_chain_id: *participant_chain_id,
            },
            Message::GiveawayUpdated { post_id, giveaway } => MessageModel::GiveawayUpdated {
                post_id: *post_id,
                giveaway: giveaway.deep_view(),
            },
        }
    }
}

/// A domain event appended to the chain's own stream, one variant per
/// mutating fact; subscribed chains replay these.
#[derive(Clone, Debug)]
pub enum DonationsEvent {
    ProfileNameUpdated { owner: Owner, name: String, timestamp: u64 },
    ProfileBioUpdated { owner: Owner, bio: String, timestamp: u64 },
    ProfileSocialUpdated { owner: Owner, name: String, url: String, timestamp: u64 },
    ProfileAvatarUpdated { owner: Owner, hash: String, timestamp: u64 },
    ProfileHeaderUpdated { owner: Owner, hash: String, timestamp: u64 },
    DonationSent {
        id: u64,
        from: Owner,
        to: Owner,
        amount: Amount,
        message: Option<String>,
        source_chain_id: Option<ChainId>,
        to_chain_id: Option<ChainId>,
        timestamp: u64,
    },
    ProductCreated { product: Product, timestamp: u64 },
    ProductUpdated { product: Product, timestamp: u64 },
    ProductDeleted { product_id: ProductId, author: Owner, timestamp: u64 },
    ProductPurchased {
        purchase_id: PurchaseId,
        product_id: ProductId,
        buyer: Owner,
        seller: Owner,
        amount: Amount,
        timestamp: u64,
    },
    OrderPlaced {
        purchase_id: PurchaseId,
        product_id: ProductId,
        buyer: Owner,
        seller: Owner,
        amount: Amount,
        timestamp: u64,
    },
    SubscriptionPriceSet {
        author: Owner,
        price: Amount,
        description: Option<String>,
        timestamp: u64,
    },
    SubscriptionPriceDeleted { author: Owner, timestamp: u64 },
    UserSubscribed {
        subscription_id: SubscriptionId,
        subscriber: Owner,
        author: Owner,
        price: Amount,
        end_timestamp: u64,
        timestamp: u64,
    },
    UserUnsubscribed {
        subscription_id: SubscriptionId,
        subscriber: Owner,
        author: Owner,
        timestamp: u64,
    },
    PostCreated { post: Post, timestamp: u64 },
    PostUpdated { post: Post, timestamp: u64 },
    PostDeleted { post_id: PostId, author: Owner, timestamp: u64 },
    VoteCasted { post_id: PostId, voter: Owner, option_index: usize, timestamp: u64 },
    PollResultsUpdated { post_id: PostId, poll: Poll, timestamp: u64 },
    GiveawayParticipated { post_id: PostId, participant: Owner, timestamp: u64 },
    GiveawayResolved {
        post_id: PostId,
        winner: Owner,
        winner_chain_id: ChainId,
        prize_amount: Amount,
        timestamp: u64,
    },
}

pub ghost enum EventModel {
    ProfileNameUpdated { owner: Owner, name: Seq<char>, timestamp: u64 },
    ProfileBioUpdated { owner: Owner, bio: Seq<char>, timestamp: u64 },
    ProfileSocialUpdated { owner: Owner, name: Seq<char>, url: Seq<char>, timestamp: u64 },
    ProfileAvatarUpdated { owner: Owner, hash: Seq<char>, timestamp: u64 },
    ProfileHeaderUpdated { owner: Owner, hash: Seq<char>, timestamp: u64 },
    DonationSent {
        id: u64,
        from: Owner,
        to: Owner,
        amount: Amount,
        message: Option<Seq<char>>,
        source_chain_id: Option<ChainId>,
        to_chain_id: Option<ChainId>,
        timestamp: u64,
    },
    ProductCreated { product: ProductModel, timestamp: u64 },
    ProductUpdated { product: ProductModel, timestamp: u64 },
    ProductDeleted { product_id: ProductId, author: Owner, timestamp: u64 },
    ProductPurchased {
        purchase_id: PurchaseId,
        product_id: ProductId,
        buyer: Owner,
        seller: Owner,
        amount: Amount,
        timestamp: u64,
    },
    OrderPlaced {
        purchase_id: PurchaseId,
        product_id: ProductId,
        buyer: Owner,
        seller: Owner,
        amount: Amount,
        timestamp: u64,
    },
    SubscriptionPriceSet {
        author: Owner,
        price: Amount,
        description: Option<Seq<char>>,
        timestamp: u64,
    },
    SubscriptionPriceDeleted { author: Owner, timestamp: u64 },
    UserSubscribed {
        subscription_id: SubscriptionId,
        subscriber: Owner,
        author: Owner,
        price: Amount,
        end_timestamp: u64,
        timestamp: u64,
    },
    UserUnsubscribed {
        subscription_id: SubscriptionId,
        subscriber: Owner,
        author: Owner,
        timestamp: u64,
    },
    PostCreated { post: PostModel, timestamp: u64 },
    PostUpdated { post: PostModel, timestamp: u64 },
    PostDeleted { post_id: PostId, author: Owner, timestamp: u64 },
    VoteCasted { post_id: PostId, voter: Owner, option_index: usize, timestamp: u64 },
    PollResultsUpdated { post_id: PostId, poll: PollModel, timestamp: u64 },
    GiveawayParticipated { post_id: PostId, participant: Owner, timestamp: u64 },
    GiveawayResolved {
        post_id: PostId,
        winner: Owner,
        winner_chain_id: ChainId,
        prize_amount: Amount,
        timestamp: u64,
    },
}

impl DeepView for DonationsEvent {
    type V = EventModel;

    open spec fn deep_view(&self) -> EventModel {
        match self {
            DonationsEvent::ProfileNameUpdated { owner, name, timestamp } => EventModel::ProfileNameUpdated {
                owner: *owner,
                name: name@,
                timestamp: *timestamp,
            },
            DonationsEvent::ProfileBioUpdated { owner, bio, timestamp } => EventModel::ProfileBioUpdated {
                owner: *owner,
                bio: bio@,
                timestamp: *timestamp,
            },
            DonationsEvent::ProfileSocialUpdated { owner, name, url, timestamp } => EventModel::ProfileSocialUpdated {
                owner: *owner,
                name: name@,
                url: url@,
                timestamp: *timestamp,
            },
            DonationsEvent::ProfileAvatarUpdated { owner, hash, timestamp } => EventModel::ProfileAvatarUpdated {
                owner: *owner,
                hash: hash@,
                timestamp: *timestamp,
            },
            DonationsEvent::ProfileHeaderUpdated { owner, hash, timestamp } => EventModel::ProfileHeaderUpdated {
                owner: *owner,
                hash: hash@,
                timestamp: *timestamp,
            },
            DonationsEvent::DonationSent { id, from, to, amount, message, source_chain_id, to_chain_id, timestamp } => EventModel::DonationSent {
                id: *id,
                from: *from,
                to: *to,
                amount: *amount,
                message: message.deep_view(),
                source_chain_id: *source_chain_id,
                to_chain_id: *to_chain_id,
                timestamp: *timestamp,
            },
            DonationsEvent::ProductCreated { product, timestamp } => EventModel::ProductCreated {
                product: product.deep_view(),
                timestamp: *timestamp,
            },
            DonationsEvent::ProductUpdated { product, timestamp } => EventModel::ProductUpdated {
                product: product.deep_view(),
                timestamp: *timestamp,
            },
            DonationsEvent::ProductDeleted { product_id, author, timestamp } => EventModel::ProductDeleted {
                product_id: *product_id,
                author: *author,
                timestamp: *timestamp,
            },
            DonationsEvent::ProductPurchased { purchase_id, product_id, buyer, seller, amount, timestamp } => EventModel::ProductPurchased {
                purchase_id: *purchase_id,
                product_id: *product_id,
                buyer: *buyer,
                seller: *seller,
                amount: *amount,
                timestamp: *timestamp,
            },
            DonationsEvent::OrderPlaced { purchase_id, product_id, buyer, seller, amount, timestamp } => EventModel::OrderPlaced {
                purchase_id: *purchase_id,
                product_id: *product_id,
                buyer: *buyer,
                seller: *seller,
                amount: *amount,
                timestamp: *timestamp,
            },
            DonationsEvent::SubscriptionPriceSet { author, price, description, timestamp } => EventModel::SubscriptionPriceSet {
                author: *author,
                price: *price,
                description: description.deep_view(),
                timestamp: *timestamp,
            },
            DonationsEvent::SubscriptionPriceDeleted { author, timestamp } => EventModel::SubscriptionPriceDeleted {
                author: *author,
                timestamp: *timestamp,
            },
            DonationsEvent::UserSubscribed { subscription_id, subscriber, author, price, end_timestamp, timestamp } => EventModel::UserSubscribed {
                subscription_id: *subscription_id,
                subscriber: *subscriber,
                author: *author,
                price: *price,
                end_timestamp: *end_timestamp,
                timestamp: *timestamp,
            },
            DonationsEvent::UserUnsubscribed { subscription_id, subscriber, author, timestamp } => EventModel::UserUnsubscribed {
                subscription_id: *subscription_id,
                subscriber: *subscriber,
                author: *author,
                timestamp: *timestamp,
            },
            DonationsEvent::PostCreated { post, timestamp } => EventModel::PostCreated {
                post: post.deep_view(),
                timestamp: *timestamp,
            },
            DonationsEvent::PostUpdated { post, timestamp } => EventModel::PostUpdated {
                post: post.deep_view(),
                timestamp: *timestamp,
            },
            DonationsEvent::PostDeleted { post_id, author, timestamp } => EventModel::PostDeleted {
                post_id: *post_id,
                author: *author,
                timestamp: *timestamp,
            },
            DonationsEvent::VoteCasted { post_id, voter, option_index, timestamp } => EventModel::VoteCasted {
                post_id: *post_id,
                voter: *voter,
                option_index: *option_index,
                timestamp: *timestamp,
            },
            DonationsEvent::PollResultsUpdated { post_id, poll, timestamp } => EventModel::PollResultsUpdated {
                post_id: *post_id,
                poll: poll.deep_view(),
                timestamp: *timestamp,
            },
            DonationsEvent::GiveawayParticipated { post_id, participant, timestamp } => EventModel::GiveawayParticipated {
                post_id: *post_id,
                participant: *participant,
                timestamp: *timestamp,
            },
            DonationsEvent::GiveawayResolved { post_id, winner, winner_chain_id, prize_amount, timestamp } => EventModel::GiveawayResolved {
                post_id: *post_id,
                winner: *winner,
                winner_chain_id: *winner_chain_id,
                prize_amount: *prize_amount,
                timestamp: *timestamp,
            },
        }
    }
}

/// What an operation hands back to the caller.
#[derive(Clone, Debug)]
pub enum ResponseData {
    Done,
    Profile(Option<Profile>),
    Donations(Vec<DonationRecord>),
}

pub ghost enum ResponseDataModel {
    Done,
    Profile(Option<ProfileModel>),
    Donations(Seq<DonationRecordModel>),
}

impl DeepView for ResponseData {
    type V = ResponseDataModel;

    open spec fn deep_view(&self) -> ResponseDataModel {
        match self {
            ResponseData::Done => ResponseDataModel::Done,
            ResponseData::Profile(p) => ResponseDataModel::Profile(p.deep_view()),
            ResponseData::Donations(v) => ResponseDataModel::Donations(v.deep_view()),
        }
    }
}

/// A call the execution asks of the host runtime: the external ledger's
/// transfer primitive, a withdrawal of an owner's whole balance to the chain
/// account, an event-stream subscription, or a blob read.
#[derive(Clone, Debug)]
pub enum HostAction {
    Transfer { source: Owner, dest: Account, amount: Amount },
    WithdrawAll { owner: Owner },
    SubscribeToEvents { chain_id: ChainId },
    ReadBlob { hash: String },
}

pub ghost enum HostActionModel {
    Transfer { source: Owner, dest: Account, amount: Amount },
    WithdrawAll { owner: Owner },
    SubscribeToEvents { chain_id: ChainId },
    ReadBlob { hash: Seq<char> },
}

impl DeepView for HostAction {
    type V = HostActionModel;

    open spec fn deep_view(&self) -> HostActionModel {
        match self {
            HostAction::Transfer { source, dest, amount } => HostActionModel::Transfer {
                source: *source,
                dest: *dest,
                amount: *amount,
            },
            HostAction::WithdrawAll { owner } => HostActionModel::WithdrawAll { owner: *owner },
            HostAction::SubscribeToEvents { chain_id } => HostActionModel::SubscribeToEvents {
                chain_id: *chain_id,
            },
            HostAction::ReadBlob { hash } => HostActionModel::ReadBlob { hash: hash@ },
        }
    }
}

/// A message together with its destination chain.
#[derive(Clone, Debug)]
pub struct OutgoingMessage {
    pub destination: ChainId,
    pub message: Message,
}

pub ghost struct OutgoingMessageModel {
    pub destination: ChainId,
    pub message: MessageModel,
}

impl DeepView for OutgoingMessage {
    type V = OutgoingMessageModel;

    open spec fn deep_view(&self) -> OutgoingMessageModel {
        OutgoingMessageModel { destination: self.destination, message: self.message.deep_view() }
    }
}

/// Everything one execution produces besides the store mutation: the
/// response, the messages to send, the events to append to the chain's own
/// stream, and the host actions to perform.  All fan-out is fire-and-forget.
#[derive(Debug)]
pub struct Outcome {
    pub response: ResponseData,
    pub messages: Vec<OutgoingMessage>,
    pub events: Vec<DonationsEvent>,
    pub actions: Vec<HostAction>,
}

pub ghost struct OutcomeModel {
    pub response: ResponseDataModel,
    pub messages: Seq<OutgoingMessageModel>,
    pub events: Seq<EventModel>,
    pub actions: Seq<HostActionModel>,
}

impl DeepView for Outcome {
    type V = OutcomeModel;

    open spec fn deep_view(&self) -> OutcomeModel {
        OutcomeModel {
            response: self.response.deep_view(),
            messages: self.messages.deep_view(),
            events: self.events.deep_view(),
            actions: self.actions.deep_view(),
        }
    }
}

/// The execution context the host supplies for one operation, message, or
/// replay batch: this chain's identity, its local clock, and the
/// authenticated caller (for operations) or no caller (for replays).
#[derive(Clone, Copy, Debug)]
pub struct ExecContext {
    pub chain_id: ChainId,
    pub time_micros: u64,
    pub caller: Owner,
}

/// One subscribed stream's unread slice, already read from the source chain:
/// the events at the indices from the previous position to the next.
#[derive(Clone, Debug)]
pub struct StreamBatch {
    pub source_chain_id: ChainId,
    pub events: Vec<DonationsEvent>,
}

pub ghost struct StreamBatchModel {
    pub source_chain_id: ChainId,
    pub events: Seq<EventModel>,
}

impl DeepView for StreamBatch {
    type V = StreamBatchModel;

    open spec fn deep_view(&self) -> StreamBatchModel {
        StreamBatchModel { source_chain_id: self.source_chain_id, events: self.events.deep_view() }
    }
}

impl DonationsEvent {
    /// A copy with the same model, for replaying an event out of a borrowed
    /// batch.
    pub fn duplicate(&self) -> (r: DonationsEvent)
        ensures
            r.deep_view() == self.deep_view(),
    {
        match self {
            DonationsEvent::ProfileNameUpdated { owner, name, timestamp } => DonationsEvent::ProfileNameUpdated {
                owner: *owner,
                name: name.clone(),
                timestamp: *timestamp,
            },
            DonationsEvent::ProfileBioUpdated { owner, bio, timestamp } => DonationsEvent::ProfileBioUpdated {
                owner: *owner,
                bio: bio.clone(),
                timestamp: *timestamp,
            },
            DonationsEvent::ProfileSocialUpdated { owner, name, url, timestamp } => DonationsEvent::ProfileSocialUpdated {
                owner: *owner,
                name: name.clone(),
                url: url.clone(),
                timestamp: *timestamp,
            },
            DonationsEvent::ProfileAvatarUpdated { owner, hash, timestamp } => DonationsEvent::ProfileAvatarUpdated {
                owner: *owner,
                hash: hash.clone(),
                timestamp: *timestamp,
            },
            DonationsEvent::ProfileHeaderUpdated { owner, hash, timestamp } => DonationsEvent::ProfileHeaderUpdated {
                owner: *owner,
                hash: hash.clone(),
                timestamp: *timestamp,
            },
            DonationsEvent::DonationSent { id, from, to, amount, message, source_chain_id, to_chain_id, timestamp } => DonationsEvent::DonationSent {
                id: *id,
                from: *from,
                to: *to,
                amount: *amount,
                message: crate::types::dup_opt_string(message),
                source_chain_id: *source_chain_id,
                to_chain_id: *to_chain_id,
                timestamp: *timestamp,
            },
            DonationsEvent::ProductCreated { product, timestamp } => DonationsEvent::ProductCreated {
                product: product.duplicate(),
                timestamp: *timestamp,
            },
            DonationsEvent::ProductUpdated { product, timestamp } => DonationsEvent::ProductUpdated {
                product: product.duplicate(),
                timestamp: *timestamp,
            },
            DonationsEvent::ProductDeleted { product_id, author, timestamp } => DonationsEvent::ProductDeleted {
                product_id: *product_id,
                author: *author,
                timestamp: *timestamp,
            },
            DonationsEvent::ProductPurchased { purchase_id, product_id, buyer, seller, amount, timestamp } => DonationsEvent::ProductPurchased {
                purchase_id: *purchase_id,
                product_id: *product_id,
                buyer: *buyer,
                seller: *seller,
                amount: *amount,
                timestamp: *timestamp,
            },
            DonationsEvent::OrderPlaced { purchase_id, product_id, buyer, seller, amount, timestamp } => DonationsEvent::OrderPlaced {
                purchase_id: *purchase_id,
                product_id: *product_id,
                buyer: *buyer,
                seller: *seller,
                amount: *amount,
                timestamp: *timestamp,
            },
            DonationsEvent::SubscriptionPriceSet { author, price, description, timestamp } => DonationsEvent::SubscriptionPriceSet {
                author: *author,
                price: *price,
                description: crate::types::dup_opt_string(description),
                timestamp: *timestamp,
            },
            DonationsEvent::SubscriptionPriceDeleted { author, timestamp } => DonationsEvent::SubscriptionPriceDeleted {
                author: *author,
                timestamp: *timestamp,
            },
            DonationsEvent::UserSubscribed { subscription_id, subscriber, author, price, end_timestamp, timestamp } => DonationsEvent::UserSubscribed {
                subscription_id: *subscription_id,
                subscriber: *subscriber,
                author: *author,
                price: *price,
                end_timestamp: *end_timestamp,
                timestamp: *timestamp,
            },
            DonationsEvent::UserUnsubscribed { subscription_id, subscriber, author, timestamp } => DonationsEvent::UserUnsubscribed {
                subscription_id: *subscription_id,
                subscriber: *subscriber,
                author: *author,
                timestamp: *timestamp,
            },
            DonationsEvent::PostCreated { post, timestamp } => DonationsEvent::PostCreated {
                post: post.duplicate(),
                timestamp: *timestamp,
            },
            DonationsEvent::PostUpdated { post, timestamp } => DonationsEvent::PostUpdated {
                post: post.duplicate(),
                timestamp: *timestamp,
            },
            DonationsEvent::PostDeleted { post_id, author, timestamp } => DonationsEvent::PostDeleted {
                post_id: *post_id,
                author: *author,
                timestamp: *timestamp,
            },
            DonationsEvent::VoteCasted { post_id, voter, option_index, timestamp } => DonationsEvent::VoteCasted {
                post_id: *post_id,
                voter: *voter,
                option_index: *option_index,
                timestamp: *timestamp,
            },
            DonationsEvent::PollResultsUpdated { post_id, poll, timestamp } => DonationsEvent::PollResultsUpdated {
                post_id: *post_id,
                poll: poll.duplicate(),
                timestamp: *timestamp,
            },
            DonationsEvent::GiveawayParticipated { post_id, participant, timestamp } => DonationsEvent::GiveawayParticipated {
                post_id: *post_id,
                participant: *participant,
                timestamp: *timestamp,
            },
            DonationsEvent::GiveawayResolved { post_id, winner, winner_chain_id, prize_amount, timestamp } => DonationsEvent::GiveawayResolved {
                post_id: *post_id,
                winner: *winner,
                winner_chain_id: *winner_chain_id,
                prize_amount: *prize_amount,
                timestamp: *timestamp,
            },
        }
    }
}

} // verus!
