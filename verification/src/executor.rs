//! The operation executor: validates a caller-submitted operation, mutates
//! the store, appends events to the chain's own stream, and decides which
//! remote chains to notify.  Any validation failure aborts before mutation,
//! so one operation never leaves a partial write.  All fan-out is
//! fire-and-forget: messages and host actions are handed back to the runtime
//! for delivery.

use crate::ids::{ProductId, PurchaseId, SubscriptionId};
use crate::protocol::{
    DonationsEvent, EventModel, ExecContext, HostAction, HostActionModel, Message, MessageModel,
    Operation, Outcome, OutcomeModel, OutgoingMessage, OutgoingMessageModel, ResponseData,
    ResponseDataModel,
};
use crate::store::{default_name, upsert_social, Store};
use crate::types::{
    custom_fields_ok, field_keys_unique, order_form_ok, unique_field_keys, dup_opt_string,
    dup_order_form, dup_pairs, Account, Amount,
    ChainId, CustomFields, Giveaway, GiveawayModel, Poll, PollModel, PollOption, PollOptionModel,
    Post, PostId, PostModel,
    DonationRecordModel, DonationsError, OrderFormField, OrderFormFieldInput, OrderFormFieldModel,
    Owner, Product, ProductModel, Profile, ProfileModel, Purchase, SocialLink, SocialLinkInput,
    SocialLinkModel, SubscriptionInfoModel, CHAIN_OWNER, THIRTY_DAYS_MICROS,
};
use vstd::prelude::*;

verus! {

/// Appends one event, extending the event list's model by its model.
pub fn push_event(events: &mut Vec<DonationsEvent>, e: DonationsEvent)
    ensures
        final(events).deep_view() == old(events).deep_view().push(e.deep_view()),
{
    let ghost pre = events.deep_view();
    let ghost em = e.deep_view();
    events.push(e);
    proof {
        assert forall|t: int| 0 <= t < events.deep_view().len() implies events.deep_view()[t]
            == pre.push(em)[t] by {
            if t < pre.len() {
                assert(events@[t] == old(events)@[t]);
            } else {
                assert(events@[t] == old(events)@.push(e)[t]);
            }
        }
        assert(events.deep_view() =~= pre.push(em));
    }
}

/// Appends one outgoing message, extending the list's model by its model.
pub fn push_message(messages: &mut Vec<OutgoingMessage>, destination: ChainId, message: Message)
    ensures
        final(messages).deep_view() == old(messages).deep_view().push(
            OutgoingMessageModel { destination, message: message.deep_view() },
        ),
{
    let ghost pre = messages.deep_view();
    let ghost mm = OutgoingMessageModel { destination, message: message.deep_view() };
    messages.push(OutgoingMessage { destination, message });
    proof {
        assert forall|t: int| 0 <= t < messages.deep_view().len() implies messages.deep_view()[t]
            == pre.push(mm)[t] by {
            if t < pre.len() {
                assert(messages@[t] == old(messages)@[t]);
            }
        }
        assert(messages.deep_view() =~= pre.push(mm));
    }
}

/// Appends one host action, extending the list's model by its model.
pub fn push_action(actions: &mut Vec<HostAction>, a: HostAction)
    ensures
        final(actions).deep_view() == old(actions).deep_view().push(a.deep_view()),
{
    let ghost pre = actions.deep_view();
    let ghost am = a.deep_view();
    actions.push(a);
    proof {
        assert forall|t: int| 0 <= t < actions.deep_view().len() implies actions.deep_view()[t]
            == pre.push(am)[t] by {
            if t < pre.len() {
                assert(actions@[t] == old(actions)@[t]);
            }
        }
        assert(actions.deep_view() =~= pre.push(am));
    }
}

/// An empty name falls back to the default display name; any other sticks.
pub open spec fn coerced_name(n: Seq<char>) -> Seq<char> {
    if n.len() == 0 {
        default_name()
    } else {
        n
    }
}

/// The social links after a batch of updates, applied left to right with
/// last-write-wins per link name.
pub open spec fn apply_socials(
    base: Seq<SocialLinkModel>,
    updates: Seq<SocialLinkModel>,
) -> Seq<SocialLinkModel>
    decreases updates.len(),
{
    if updates.len() == 0 {
        base
    } else {
        upsert_social(
            apply_socials(base, updates.drop_last()),
            updates.last().name,
            updates.last().url,
        )
    }
}

/// The profile after one profile-update operation.
pub open spec fn profile_after_update(
    base: ProfileModel,
    name: Option<Seq<char>>,
    bio: Option<Seq<char>>,
    socials: Seq<SocialLinkModel>,
    avatar_hash: Option<Seq<char>>,
    header_hash: Option<Seq<char>>,
) -> ProfileModel {
    ProfileModel {
        owner: base.owner,
        name: match name {
            Some(n) => coerced_name(n),
            None => base.name,
        },
        bio: match bio {
            Some(b) => b,
            None => base.bio,
        },
        socials: apply_socials(base.socials, socials),
        avatar_hash: match avatar_hash {
            Some(h) => Some(h),
            None => base.avatar_hash,
        },
        header_hash: match header_hash {
            Some(h) => Some(h),
            None => base.header_hash,
        },
    }
}

/// One event per updated social link, in update order.
pub open spec fn social_events_of(owner: Owner, socials: Seq<SocialLinkModel>, ts: u64) -> Seq<
    EventModel,
> {
    socials.map_values(
        |s: SocialLinkModel| EventModel::ProfileSocialUpdated {
            owner,
            name: s.name,
            url: s.url,
            timestamp: ts,
        },
    )
}

/// The events one profile-update operation appends, in emission order: the
/// raw name (before coercion), the bio, one event per social link, the
/// avatar, the header.
pub open spec fn profile_update_events(
    owner: Owner,
    name: Option<Seq<char>>,
    bio: Option<Seq<char>>,
    socials: Seq<SocialLinkModel>,
    avatar_hash: Option<Seq<char>>,
    header_hash: Option<Seq<char>>,
    ts: u64,
) -> Seq<EventModel> {
    (match name {
        Some(n) => seq![EventModel::ProfileNameUpdated { owner, name: n, timestamp: ts }],
        None => Seq::empty(),
    }) + (match bio {
        Some(b) => seq![EventModel::ProfileBioUpdated { owner, bio: b, timestamp: ts }],
        None => Seq::empty(),
    }) + social_events_of(owner, socials, ts) + (match avatar_hash {
        Some(h) => seq![EventModel::ProfileAvatarUpdated { owner, hash: h, timestamp: ts }],
        None => Seq::empty(),
    }) + (match header_hash {
        Some(h) => seq![EventModel::ProfileHeaderUpdated { owner, hash: h, timestamp: ts }],
        None => Seq::empty(),
    })
}

/// Applies a batch of social-link updates to an owner's stored profile,
/// one event per link, in order.  The profile must already be stored.
pub fn apply_social_updates(
    store: &mut Store,
    owner: Owner,
    socials: &Vec<SocialLinkInput>,
    ts: u64,
    events: &mut Vec<DonationsEvent>,
)
    requires
        old(store).inv(),
        old(store).profiles_model().contains_key(owner),
    ensures
        final(store).inv(),
        final(store).profiles_model() == old(store).profiles_model().insert(
            owner,
            ProfileModel {
                socials: apply_socials(
                    old(store).profile_base(owner).socials,
                    socials.deep_view(),
                ),
                ..old(store).profile_base(owner)
            },
        ),
        final(events).deep_view() == old(events).deep_view() + social_events_of(
            owner,
            socials.deep_view(),
            ts,
        ),
        final(store).donations_same(*old(store)),
        final(store).registry_same(*old(store)),
        final(store).prices_same(*old(store)),
        final(store).products_same(*old(store)),
        final(store).purchases_same(*old(store)),
        final(store).subs_same(*old(store)),
        final(store).posts_same(*old(store)),
        final(store).donation_counter == old(store).donation_counter,
{
    let ghost base2 = old(store).profile_base(owner);
    let ghost socialsv = socials.deep_view();
    let ghost social_events = social_events_of(owner, socialsv, ts);
    let ghost ev2 = old(events).deep_view();
    let n = socials.len();
    let mut j: usize = 0;
    while j < n
        invariant
            store.inv(),
            n == socials@.len(),
            socials.deep_view() == socialsv,
            social_events == social_events_of(owner, socialsv, ts),
            j <= n,
            store.profiles_model() == old(store).profiles_model().insert(
                owner,
                ProfileModel {
                    socials: apply_socials(base2.socials, socialsv.subrange(0, j as int)),
                    ..base2
                },
            ),
            store.profile_base(owner) == (ProfileModel {
                socials: apply_socials(base2.socials, socialsv.subrange(0, j as int)),
                ..base2
            }),
            events.deep_view() == ev2 + social_events.subrange(0, j as int),
            store.donations_same(*old(store)),
            store.registry_same(*old(store)),
            store.prices_same(*old(store)),
            store.products_same(*old(store)),
            store.purchases_same(*old(store)),
            store.subs_same(*old(store)),
            store.posts_same(*old(store)),
            store.donation_counter == old(store).donation_counter,
        decreases n - j,
    {
        let s = &socials[j];
        proof {
            assert(socials@[j as int].deep_view() == socialsv[j as int]);
        }
        push_event(
            events,
            DonationsEvent::ProfileSocialUpdated {
                owner,
                name: s.name.clone(),
                url: s.url.clone(),
                timestamp: ts,
            },
        );
        store.set_social(owner, s.name.clone(), s.url.clone());
        proof {
            assert(socialsv.subrange(0, j as int + 1).drop_last() =~= socialsv.subrange(
                0,
                j as int,
            ));
            assert(socialsv.subrange(0, j as int + 1).last() == socialsv[j as int]);
            assert(social_events[j as int] == EventModel::ProfileSocialUpdated {
                owner,
                name: socialsv[j as int].name,
                url: socialsv[j as int].url,
                timestamp: ts,
            });
            assert(store.profiles_model() =~= old(store).profiles_model().insert(
                owner,
                ProfileModel {
                    socials: apply_socials(base2.socials, socialsv.subrange(0, j as int + 1)),
                    ..base2
                },
            ));
            assert(events.deep_view() =~= ev2 + social_events.subrange(0, j as int + 1));
        }
        j = j + 1;
    }
    proof {
        assert(socialsv.subrange(0, n as int) =~= socialsv);
        assert(social_events.subrange(0, n as int) =~= social_events);
    }
}

/// Whether a profile-update operation changes anything at all.
pub open spec fn any_profile_update(
    name: Option<Seq<char>>,
    bio: Option<Seq<char>>,
    socials: Seq<SocialLinkModel>,
    avatar_hash: Option<Seq<char>>,
    header_hash: Option<Seq<char>>,
) -> bool {
    ||| name is Some
    ||| bio is Some
    ||| socials.len() > 0
    ||| avatar_hash is Some
    ||| header_hash is Some
}

/// Applies one profile-update operation: each supplied field is merged into
/// the stored profile (created with defaults when the first field lands) and
/// one event per supplied field is appended, in emission order.  An update
/// that supplies nothing changes nothing.
#[verifier::rlimit(60)]
pub fn apply_profile_update(
    store: &mut Store,
    ctx: ExecContext,
    owner: Owner,
    name: Option<String>,
    bio: Option<String>,
    socials: Vec<SocialLinkInput>,
    avatar_hash: Option<String>,
    header_hash: Option<String>,
    events: &mut Vec<DonationsEvent>,
)
    requires
        old(store).inv(),
    ensures
        final(store).inv(),
        any_profile_update(
            name.deep_view(),
            bio.deep_view(),
            socials.deep_view(),
            avatar_hash.deep_view(),
            header_hash.deep_view(),
        ) ==> final(store).profiles_model() == old(store).profiles_model().insert(
            owner,
            profile_after_update(
                old(store).profile_base(owner),
                name.deep_view(),
                bio.deep_view(),
                socials.deep_view(),
                avatar_hash.deep_view(),
                header_hash.deep_view(),
            ),
        ),
        !any_profile_update(
            name.deep_view(),
            bio.deep_view(),
            socials.deep_view(),
            avatar_hash.deep_view(),
            header_hash.deep_view(),
        ) ==> final(store).profiles_model() == old(store).profiles_model(),
        final(events).deep_view() == old(events).deep_view() + profile_update_events(
            owner,
            name.deep_view(),
            bio.deep_view(),
            socials.deep_view(),
            avatar_hash.deep_view(),
            header_hash.deep_view(),
            ctx.time_micros,
        ),
        final(store).donations_same(*old(store)),
        final(store).registry_same(*old(store)),
        final(store).prices_same(*old(store)),
        final(store).products_same(*old(store)),
        final(store).purchases_same(*old(store)),
        final(store).subs_same(*old(store)),
        final(store).posts_same(*old(store)),
        final(store).donation_counter == old(store).donation_counter,
{
    let ts = ctx.time_micros;
    let ghost base0 = old(store).profile_base(owner);
    let ghost ev0 = old(events).deep_view();
    let ghost namev = name.deep_view();
    let ghost biov = bio.deep_view();
    let ghost socialsv = socials.deep_view();
    let ghost avatarv = avatar_hash.deep_view();
    let ghost headerv = header_hash.deep_view();
    let any = name.is_some() || bio.is_some() || socials.len() > 0 || avatar_hash.is_some()
        || header_hash.is_some();
    if !any {
        proof {
            assert(profile_update_events(owner, namev, biov, socialsv, avatarv, headerv, ts)
                =~= Seq::<EventModel>::empty());
            assert(events.deep_view() =~= ev0 + Seq::<EventModel>::empty());
        }
        return ;
    }
    store.ensure_profile(owner);
    match name {
        Some(n) => {
            push_event(
                events,
                DonationsEvent::ProfileNameUpdated { owner, name: n.clone(), timestamp: ts },
            );
            store.set_name(owner, n);
        },
        None => {},
    }
    let ghost ev_name = events.deep_view();
    proof {
        assert(ev_name =~= ev0 + (match namev {
            Some(n) => seq![EventModel::ProfileNameUpdated { owner, name: n, timestamp: ts }],
            None => Seq::<EventModel>::empty(),
        }));
    }
    let ghost base1 = ProfileModel {
        name: match namev {
            Some(n) => coerced_name(n),
            None => base0.name,
        },
        ..base0
    };
    proof {
        assert(store.profiles_model() =~= old(store).profiles_model().insert(owner, base1));
        assert(store.profile_base(owner) == base1);
    }
    match bio {
        Some(b) => {
            push_event(
                events,
                DonationsEvent::ProfileBioUpdated { owner, bio: b.clone(), timestamp: ts },
            );
            store.set_bio(owner, b);
        },
        None => {},
    }
    let ghost ev_bio = events.deep_view();
    proof {
        assert(ev_bio =~= ev_name + (match biov {
            Some(b) => seq![EventModel::ProfileBioUpdated { owner, bio: b, timestamp: ts }],
            None => Seq::<EventModel>::empty(),
        }));
    }
    let ghost base2 = ProfileModel {
        bio: match biov {
            Some(b) => b,
            None => base1.bio,
        },
        ..base1
    };
    proof {
        assert(store.profiles_model() =~= old(store).profiles_model().insert(owner, base2));
        assert(store.profile_base(owner) == base2);
    }
    let ghost ev2 = events.deep_view();
    let ghost social_events = social_events_of(owner, socialsv, ts);
    apply_social_updates(store, owner, &socials, ts, events);
    proof {
        assert(store.profiles_model() =~= old(store).profiles_model().insert(
            owner,
            ProfileModel { socials: apply_socials(base2.socials, socialsv), ..base2 },
        ));
    }
    let ghost base3 = ProfileModel { socials: apply_socials(base2.socials, socialsv), ..base2 };
    proof {
        assert(store.profiles_model() =~= old(store).profiles_model().insert(owner, base3));
        assert(store.profile_base(owner) == base3);
    }
    match avatar_hash {
        Some(h) => {
            push_event(
                events,
                DonationsEvent::ProfileAvatarUpdated { owner, hash: h.clone(), timestamp: ts },
            );
            store.set_avatar(owner, h);
        },
        None => {},
    }
    let ghost ev_avatar = events.deep_view();
    proof {
        assert(ev_avatar =~= (ev2 + social_events) + (match avatarv {
            Some(h) => seq![EventModel::ProfileAvatarUpdated { owner, hash: h, timestamp: ts }],
            None => Seq::<EventModel>::empty(),
        }));
    }
    let ghost base4 = ProfileModel {
        avatar_hash: match avatarv {
            Some(h) => Some(h),
            None => base3.avatar_hash,
        },
        ..base3
    };
    proof {
        assert(store.profiles_model() =~= old(store).profiles_model().insert(owner, base4));
        assert(store.profile_base(owner) == base4);
    }
    match header_hash {
        Some(h) => {
            push_event(
                events,
                DonationsEvent::ProfileHeaderUpdated { owner, hash: h.clone(), timestamp: ts },
            );
            store.set_header(owner, h);
        },
        None => {},
    }
    proof {
        assert(events.deep_view() =~= ev_avatar + (match headerv {
            Some(h) => seq![EventModel::ProfileHeaderUpdated { owner, hash: h, timestamp: ts }],
            None => Seq::<EventModel>::empty(),
        }));
        let base5 = ProfileModel {
            header_hash: match headerv {
                Some(h) => Some(h),
                None => base4.header_hash,
            },
            ..base4
        };
        assert(base5 == profile_after_update(base0, namev, biov, socialsv, avatarv, headerv));
        assert(store.profiles_model() =~= old(store).profiles_model().insert(owner, base5));
        assert(events.deep_view() =~= ev0 + profile_update_events(
            owner,
            namev,
            biov,
            socialsv,
            avatarv,
            headerv,
            ts,
        ));
    }
}


/// The model of an execution result.
pub open spec fn result_model(r: Result<Outcome, DonationsError>) -> Result<
    OutcomeModel,
    DonationsError,
> {
    match r {
        Ok(o) => Ok(o.deep_view()),
        Err(e) => Err(e),
    }
}

/// An outcome with no messages, no events and no actions.
pub open spec fn quiet_outcome(response: ResponseDataModel) -> OutcomeModel {
    OutcomeModel {
        response,
        messages: Seq::empty(),
        events: Seq::empty(),
        actions: Seq::empty(),
    }
}

/// The donation record a transfer writes.
pub open spec fn transfer_record(
    id: u64,
    ctx: ExecContext,
    owner: Owner,
    target: Account,
    amount: Amount,
    text: Option<Seq<char>>,
) -> DonationRecordModel {
    DonationRecordModel {
        id,
        timestamp: ctx.time_micros,
        from: owner,
        to: target.owner,
        amount,
        message: text,
        source_chain_id: if target.chain_id != ctx.chain_id {
            Some(ctx.chain_id)
        } else {
            None
        },
        to_chain_id: Some(target.chain_id),
    }
}

/// What a transfer operation does: only the named owner may spend; the
/// ledger transfer is requested, a donation record is written and indexed, a
/// donation event is appended, and a value-carrying message goes to the
/// destination chain exactly when it is a different chain.
pub open spec fn transfer_effects(
    s0: Store,
    ctx: ExecContext,
    owner: Owner,
    amount: Amount,
    target: Account,
    text: Option<Seq<char>>,
    s1: Store,
    r: Result<OutcomeModel, DonationsError>,
) -> bool {
    if owner != ctx.caller {
        r == Err::<OutcomeModel, DonationsError>(DonationsError::Unauthorized) && s1 == s0
    } else {
        let id = (s0.donation_counter + 1) as u64;
        let rec = transfer_record(id, ctx, owner, target, amount, text);
        &&& r == Ok::<OutcomeModel, DonationsError>(
            OutcomeModel {
                response: ResponseDataModel::Done,
                messages: if target.chain_id != ctx.chain_id {
                    seq![
                        OutgoingMessageModel {
                            destination: target.chain_id,
                            message: MessageModel::TransferWithMessage {
                                owner: target.owner,
                                amount,
                                text_message: text,
                                source_chain_id: ctx.chain_id,
                                source_owner: owner,
                            },
                        },
                    ]
                } else {
                    Seq::empty()
                },
                events: seq![
                    EventModel::DonationSent {
                        id,
                        from: owner,
                        to: target.owner,
                        amount,
                        message: text,
                        source_chain_id: rec.source_chain_id,
                        to_chain_id: rec.to_chain_id,
                        timestamp: ctx.time_micros,
                    },
                ],
                actions: seq![
                    HostActionModel::Transfer { source: owner, dest: target, amount },
                ],
            },
        )
        &&& s1.donation_counter == id
        &&& s1.donations_model() == s0.donations_model().insert(id, rec)
        &&& s1.rec_ids(target.owner) == s0.rec_ids(target.owner).push(id)
        &&& s1.donor_ids(owner) == s0.donor_ids(owner).push(id)
        &&& s1.profiles_same(s0)
        &&& s1.registry_same(s0)
        &&& s1.prices_same(s0)
        &&& s1.products_same(s0)
        &&& s1.purchases_same(s0)
        &&& s1.subs_same(s0)
        &&& s1.posts_same(s0)
    }
}

/// Executes a transfer with an optional donation message.
pub fn op_transfer(
    store: &mut Store,
    ctx: ExecContext,
    owner: Owner,
    amount: Amount,
    target_account: Account,
    text_message: Option<String>,
) -> (r: Result<Outcome, DonationsError>)
    requires
        old(store).inv(),
        old(store).donation_counter < u64::MAX,
    ensures
        final(store).inv(),
        transfer_effects(
            *old(store),
            ctx,
            owner,
            amount,
            target_account,
            text_message.deep_view(),
            *final(store),
            result_model(r),
        ),
{
    if !(owner == ctx.caller) {
        return Err(DonationsError::Unauthorized);
    }
    let ghost text = text_message.deep_view();
    let ts = ctx.time_micros;
    let mut messages: Vec<OutgoingMessage> = Vec::new();
    let mut events: Vec<DonationsEvent> = Vec::new();
    let mut actions: Vec<HostAction> = Vec::new();
    push_action(
        &mut actions,
        HostAction::Transfer { source: owner, dest: target_account, amount },
    );
    let message_for_record = dup_opt_string(&text_message);
    let source_chain_id: Option<ChainId> = if target_account.chain_id != ctx.chain_id {
        push_message(
            &mut messages,
            target_account.chain_id,
            Message::TransferWithMessage {
                owner: target_account.owner,
                amount,
                text_message,
                source_chain_id: ctx.chain_id,
                source_owner: owner,
            },
        );
        Some(ctx.chain_id)
    } else {
        None
    };
    let event_message = dup_opt_string(&message_for_record);
    let id = store.record_donation(
        owner,
        target_account.owner,
        amount,
        message_for_record,
        source_chain_id,
        Some(target_account.chain_id),
        ts,
    );
    push_event(
        &mut events,
        DonationsEvent::DonationSent {
            id,
            from: owner,
            to: target_account.owner,
            amount,
            message: event_message,
            source_chain_id,
            to_chain_id: Some(target_account.chain_id),
            timestamp: ts,
        },
    );
    let out = Outcome { response: ResponseData::Done, messages, events, actions };
    proof {
        assert(out.deep_view().messages =~= (if target_account.chain_id != ctx.chain_id {
            seq![
                OutgoingMessageModel {
                    destination: target_account.chain_id,
                    message: MessageModel::TransferWithMessage {
                        owner: target_account.owner,
                        amount,
                        text_message: text,
                        source_chain_id: ctx.chain_id,
                        source_owner: owner,
                    },
                },
            ]
        } else {
            Seq::<OutgoingMessageModel>::empty()
        }));
        assert(out.deep_view().events =~= seq![
            EventModel::DonationSent {
                id,
                from: owner,
                to: target_account.owner,
                amount,
                message: text,
                source_chain_id: if target_account.chain_id != ctx.chain_id {
                    Some(ctx.chain_id)
                } else {
                    None
                },
                to_chain_id: Some(target_account.chain_id),
                timestamp: ts,
            },
        ]);
        assert(out.deep_view().actions =~= seq![
            HostActionModel::Transfer { source: owner, dest: target_account, amount },
        ]);
    }
    Ok(out)
}

/// What a withdrawal does: asks the host to move the caller's whole balance
/// to the chain account; nothing else changes.
pub open spec fn withdraw_effects(
    s0: Store,
    ctx: ExecContext,
    s1: Store,
    r: Result<OutcomeModel, DonationsError>,
) -> bool {
    &&& r == Ok::<OutcomeModel, DonationsError>(
        OutcomeModel {
            response: ResponseDataModel::Done,
            messages: Seq::empty(),
            events: Seq::empty(),
            actions: seq![HostActionModel::WithdrawAll { owner: ctx.caller }],
        },
    )
    &&& s1 == s0
}

/// Executes a withdrawal of the caller's whole balance.
pub fn op_withdraw(store: &mut Store, ctx: ExecContext) -> (r: Result<Outcome, DonationsError>)
    requires
        old(store).inv(),
    ensures
        final(store).inv(),
        withdraw_effects(*old(store), ctx, *final(store), result_model(r)),
{
    let mut actions: Vec<HostAction> = Vec::new();
    push_action(&mut actions, HostAction::WithdrawAll { owner: ctx.caller });
    let out = Outcome {
        response: ResponseData::Done,
        messages: Vec::new(),
        events: Vec::new(),
        actions,
    };
    proof {
        assert(out.deep_view().actions =~= seq![
            HostActionModel::WithdrawAll { owner: ctx.caller },
        ]);
        assert(out.deep_view().messages =~= Seq::<OutgoingMessageModel>::empty());
        assert(out.deep_view().events =~= Seq::<EventModel>::empty());
    }
    Ok(out)
}

/// What minting does: asks the host to move funds from the chain account to
/// the named owner; nothing else changes.
pub open spec fn mint_effects(
    s0: Store,
    ctx: ExecContext,
    owner: Owner,
    amount: Amount,
    s1: Store,
    r: Result<OutcomeModel, DonationsError>,
) -> bool {
    &&& r == Ok::<OutcomeModel, DonationsError>(
        OutcomeModel {
            response: ResponseDataModel::Done,
            messages: Seq::empty(),
            events: Seq::empty(),
            actions: seq![
                HostActionModel::Transfer {
                    source: CHAIN_OWNER,
                    dest: Account { chain_id: ctx.chain_id, owner },
                    amount,
                },
            ],
        },
    )
    &&& s1 == s0
}

/// Executes a mint from the chain account.
pub fn op_mint(store: &mut Store, ctx: ExecContext, owner: Owner, amount: Amount) -> (r: Result<
    Outcome,
    DonationsError,
>)
    requires
        old(store).inv(),
    ensures
        final(store).inv(),
        mint_effects(*old(store), ctx, owner, amount, *final(store), result_model(r)),
{
    let mut actions: Vec<HostAction> = Vec::new();
    push_action(
        &mut actions,
        HostAction::Transfer {
            source: CHAIN_OWNER,
            dest: Account { chain_id: ctx.chain_id, owner },
            amount,
        },
    );
    let out = Outcome {
        response: ResponseData::Done,
        messages: Vec::new(),
        events: Vec::new(),
        actions,
    };
    proof {
        assert(out.deep_view().actions =~= seq![
            HostActionModel::Transfer {
                source: CHAIN_OWNER,
                dest: Account { chain_id: ctx.chain_id, owner },
                amount,
            },
        ]);
        assert(out.deep_view().messages =~= Seq::<OutgoingMessageModel>::empty());
        assert(out.deep_view().events =~= Seq::<EventModel>::empty());
    }
    Ok(out)
}


/// What a profile-update operation does: the supplied fields merge into the
/// stored profile and one event per field is appended; nothing is sent.
pub open spec fn update_profile_effects(
    s0: Store,
    ctx: ExecContext,
    name: Option<Seq<char>>,
    bio: Option<Seq<char>>,
    socials: Seq<SocialLinkModel>,
    avatar_hash: Option<Seq<char>>,
    header_hash: Option<Seq<char>>,
    s1: Store,
    r: Result<OutcomeModel, DonationsError>,
) -> bool {
    &&& r == Ok::<OutcomeModel, DonationsError>(
        OutcomeModel {
            response: ResponseDataModel::Done,
            messages: Seq::empty(),
            events: profile_update_events(
                ctx.caller,
                name,
                bio,
                socials,
                avatar_hash,
                header_hash,
                ctx.time_micros,
            ),
            actions: Seq::empty(),
        },
    )
    &&& (any_profile_update(name, bio, socials, avatar_hash, header_hash) ==> s1.profiles_model()
        == s0.profiles_model().insert(
        ctx.caller,
        profile_after_update(
            s0.profile_base(ctx.caller),
            name,
            bio,
            socials,
            avatar_hash,
            header_hash,
        ),
    ))
    &&& (!any_profile_update(name, bio, socials, avatar_hash, header_hash) ==> s1.profiles_model()
        == s0.profiles_model())
    &&& s1.donations_same(s0)
    &&& s1.registry_same(s0)
    &&& s1.prices_same(s0)
    &&& s1.products_same(s0)
    &&& s1.purchases_same(s0)
    &&& s1.subs_same(s0)
    &&& s1.posts_same(s0)
}

/// Executes a profile update for the caller.
pub fn op_update_profile(
    store: &mut Store,
    ctx: ExecContext,
    name: Option<String>,
    bio: Option<String>,
    socials: Vec<SocialLinkInput>,
    avatar_hash: Option<String>,
    header_hash: Option<String>,
) -> (r: Result<Outcome, DonationsError>)
    requires
        old(store).inv(),
    ensures
        final(store).inv(),
        update_profile_effects(
            *old(store),
            ctx,
            name.deep_view(),
            bio.deep_view(),
            socials.deep_view(),
            avatar_hash.deep_view(),
            header_hash.deep_view(),
            *final(store),
            result_model(r),
        ),
{
    let mut events: Vec<DonationsEvent> = Vec::new();
    apply_profile_update(
        store,
        ctx,
        ctx.caller,
        name,
        bio,
        socials,
        avatar_hash,
        header_hash,
        &mut events,
    );
    let out = Outcome {
        response: ResponseData::Done,
        messages: Vec::new(),
        events,
        actions: Vec::new(),
    };
    proof {
        assert(out.deep_view().messages =~= Seq::<OutgoingMessageModel>::empty());
        assert(out.deep_view().actions =~= Seq::<HostActionModel>::empty());
        assert(out.deep_view().events =~= Seq::<EventModel>::empty() + out.deep_view().events);
    }
    Ok(out)
}

/// The social links a register operation forwards in its message.
pub open spec fn register_effects(
    s0: Store,
    ctx: ExecContext,
    main_chain_id: ChainId,
    name: Option<Seq<char>>,
    bio: Option<Seq<char>>,
    socials: Seq<SocialLinkModel>,
    avatar_hash: Option<Seq<char>>,
    header_hash: Option<Seq<char>>,
    s1: Store,
    r: Result<OutcomeModel, DonationsError>,
) -> bool {
    &&& r == Ok::<OutcomeModel, DonationsError>(
        OutcomeModel {
            response: ResponseDataModel::Done,
            messages: seq![
                OutgoingMessageModel {
                    destination: main_chain_id,
                    message: MessageModel::Register {
                        source_chain_id: ctx.chain_id,
                        owner: ctx.caller,
                        name,
                        bio,
                        socials,
                    },
                },
            ],
            events: profile_update_events(
                ctx.caller,
                name,
                bio,
                socials,
                avatar_hash,
                header_hash,
                ctx.time_micros,
            ),
            actions: Seq::empty(),
        },
    )
    &&& s1.registry_model() == s0.registry_model().insert(ctx.caller, main_chain_id)
    &&& (any_profile_update(name, bio, socials, avatar_hash, header_hash) ==> s1.profiles_model()
        == s0.profiles_model().insert(
        ctx.caller,
        profile_after_update(
            s0.profile_base(ctx.caller),
            name,
            bio,
            socials,
            avatar_hash,
            header_hash,
        ),
    ))
    &&& (!any_profile_update(name, bio, socials, avatar_hash, header_hash) ==> s1.profiles_model()
        == s0.profiles_model())
    &&& s1.donations_same(s0)
    &&& s1.prices_same(s0)
    &&& s1.products_same(s0)
    &&& s1.purchases_same(s0)
    &&& s1.subs_same(s0)
    &&& s1.posts_same(s0)
}

/// Executes a registration: sends the one-time register message to the main
/// chain (which subscribes that chain to this chain's events), remembers the
/// main chain for future replication, and applies the profile fields.  A
/// lost register message permanently breaks mirroring until re-sent, so the
/// caller may repeat this operation; re-registering is harmless.
pub fn op_register(
    store: &mut Store,
    ctx: ExecContext,
    main_chain_id: ChainId,
    name: Option<String>,
    bio: Option<String>,
    socials: Vec<SocialLinkInput>,
    avatar_hash: Option<String>,
    header_hash: Option<String>,
) -> (r: Result<Outcome, DonationsError>)
    requires
        old(store).inv(),
    ensures
        final(store).inv(),
        register_effects(
            *old(store),
            ctx,
            main_chain_id,
            name.deep_view(),
            bio.deep_view(),
            socials.deep_view(),
            avatar_hash.deep_view(),
            header_hash.deep_view(),
            *final(store),
            result_model(r),
        ),
{
    let owner = ctx.caller;
    let mut messages: Vec<OutgoingMessage> = Vec::new();
    let mut events: Vec<DonationsEvent> = Vec::new();
    let ghost socialsv = socials.deep_view();
    let mut forwarded: Vec<SocialLink> = Vec::new();
    let n = socials.len();
    let mut j: usize = 0;
    while j < n
        invariant
            n == socials@.len(),
            socials.deep_view() == socialsv,
            j <= n,
            forwarded@.len() == j,
            forall|t: int|
                0 <= t < j ==> (#[trigger] forwarded@[t]).deep_view() == socialsv[t],
        decreases n - j,
    {
        let s = &socials[j];
        proof {
            assert(socials@[j as int].deep_view() == socialsv[j as int]);
        }
        forwarded.push(SocialLink { name: s.name.clone(), url: s.url.clone() });
        j = j + 1;
    }
    proof {
        assert forall|t: int| 0 <= t < forwarded.deep_view().len() implies forwarded.deep_view()[t]
            == socialsv[t] by {
            assert(forwarded@[t].deep_view() == socialsv[t]);
        }
        assert(forwarded.deep_view() =~= socialsv);
    }
    push_message(
        &mut messages,
        main_chain_id,
        Message::Register {
            source_chain_id: ctx.chain_id,
            owner,
            name: dup_opt_string(&name),
            bio: dup_opt_string(&bio),
            socials: forwarded,
        },
    );
    proof {
        broadcast use vstd::laws_eq::group_laws_eq;

    }
    store.subscriptions.insert(owner, main_chain_id);
    proof {
        broadcast use vstd::laws_eq::group_laws_eq;

        crate::store::lemma_same_invs(*old(store), *store);
        assert(store.inv());
    }
    apply_profile_update(
        store,
        ctx,
        owner,
        name,
        bio,
        socials,
        avatar_hash,
        header_hash,
        &mut events,
    );
    let out = Outcome { response: ResponseData::Done, messages, events, actions: Vec::new() };
    proof {
        assert(out.deep_view().messages =~= seq![
            OutgoingMessageModel {
                destination: main_chain_id,
                message: MessageModel::Register {
                    source_chain_id: ctx.chain_id,
                    owner,
                    name: name.deep_view(),
                    bio: bio.deep_view(),
                    socials: socialsv,
                },
            },
        ]);
        assert(out.deep_view().events =~= Seq::<EventModel>::empty() + out.deep_view().events);
        assert(out.deep_view().actions =~= Seq::<HostActionModel>::empty());
    }
    Ok(out)
}

/// What setting the avatar does: the hash lands in the profile and one event
/// is appended.
pub open spec fn set_avatar_effects(
    s0: Store,
    ctx: ExecContext,
    hash: Seq<char>,
    s1: Store,
    r: Result<OutcomeModel, DonationsError>,
) -> bool {
    &&& r == Ok::<OutcomeModel, DonationsError>(
        OutcomeModel {
            response: ResponseDataModel::Done,
            messages: Seq::empty(),
            events: seq![
                EventModel::ProfileAvatarUpdated {
                    owner: ctx.caller,
                    hash,
                    timestamp: ctx.time_micros,
                },
            ],
            actions: Seq::empty(),
        },
    )
    &&& s1.profiles_model() == s0.profiles_model().insert(
        ctx.caller,
        ProfileModel { avatar_hash: Some(hash), ..s0.profile_base(ctx.caller) },
    )
    &&& s1.donations_same(s0)
    &&& s1.registry_same(s0)
    &&& s1.prices_same(s0)
    &&& s1.products_same(s0)
    &&& s1.purchases_same(s0)
    &&& s1.subs_same(s0)
    &&& s1.posts_same(s0)
}

/// Executes an avatar update for the caller.
pub fn op_set_avatar(store: &mut Store, ctx: ExecContext, hash: String) -> (r: Result<
    Outcome,
    DonationsError,
>)
    requires
        old(store).inv(),
    ensures
        final(store).inv(),
        set_avatar_effects(*old(store), ctx, hash@, *final(store), result_model(r)),
{
    let mut events: Vec<DonationsEvent> = Vec::new();
    push_event(
        &mut events,
        DonationsEvent::ProfileAvatarUpdated {
            owner: ctx.caller,
            hash: hash.clone(),
            timestamp: ctx.time_micros,
        },
    );
    store.set_avatar(ctx.caller, hash);
    let out = Outcome {
        response: ResponseData::Done,
        messages: Vec::new(),
        events,
        actions: Vec::new(),
    };
    proof {
        assert(out.deep_view().messages =~= Seq::<OutgoingMessageModel>::empty());
        assert(out.deep_view().actions =~= Seq::<HostActionModel>::empty());
        assert(out.deep_view().events =~= Seq::<EventModel>::empty().push(
            EventModel::ProfileAvatarUpdated {
                owner: ctx.caller,
                hash: hash@,
                timestamp: ctx.time_micros,
            },
        ));
    }
    Ok(out)
}

/// What setting the header does: the hash lands in the profile and one event
/// is appended.
pub open spec fn set_header_effects(
    s0: Store,
    ctx: ExecContext,
    hash: Seq<char>,
    s1: Store,
    r: Result<OutcomeModel, DonationsError>,
) -> bool {
    &&& r == Ok::<OutcomeModel, DonationsError>(
        OutcomeModel {
            response: ResponseDataModel::Done,
            messages: Seq::empty(),
            events: seq![
                EventModel::ProfileHeaderUpdated {
                    owner: ctx.caller,
                    hash,
                    timestamp: ctx.time_micros,
                },
            ],
            actions: Seq::empty(),
        },
    )
    &&& s1.profiles_model() == s0.profiles_model().insert(
        ctx.caller,
        ProfileModel { header_hash: Some(hash), ..s0.profile_base(ctx.caller) },
    )
    &&& s1.donations_same(s0)
    &&& s1.registry_same(s0)
    &&& s1.prices_same(s0)
    &&& s1.products_same(s0)
    &&& s1.purchases_same(s0)
    &&& s1.subs_same(s0)
    &&& s1.posts_same(s0)
}

/// Executes a header update for the caller.
pub fn op_set_header(store: &mut Store, ctx: ExecContext, hash: String) -> (r: Result<
    Outcome,
    DonationsError,
>)
    requires
        old(store).inv(),
    ensures
        final(store).inv(),
        set_header_effects(*old(store), ctx, hash@, *final(store), result_model(r)),
{
    let mut events: Vec<DonationsEvent> = Vec::new();
    push_event(
        &mut events,
        DonationsEvent::ProfileHeaderUpdated {
            owner: ctx.caller,
            hash: hash.clone(),
            timestamp: ctx.time_micros,
        },
    );
    store.set_header(ctx.caller, hash);
    let out = Outcome {
        response: ResponseData::Done,
        messages: Vec::new(),
        events,
        actions: Vec::new(),
    };
    proof {
        assert(out.deep_view().messages =~= Seq::<OutgoingMessageModel>::empty());
        assert(out.deep_view().actions =~= Seq::<HostActionModel>::empty());
        assert(out.deep_view().events =~= Seq::<EventModel>::empty().push(
            EventModel::ProfileHeaderUpdated {
                owner: ctx.caller,
                hash: hash@,
                timestamp: ctx.time_micros,
            },
        ));
    }
    Ok(out)
}

/// What a profile read returns: the stored profile, or nothing.
pub open spec fn get_profile_effects(
    s0: Store,
    owner: Owner,
    s1: Store,
    r: Result<OutcomeModel, DonationsError>,
) -> bool {
    &&& s1 == s0
    &&& r == Ok::<OutcomeModel, DonationsError>(
        quiet_outcome(
            ResponseDataModel::Profile(
                if s0.profiles_model().contains_key(owner) {
                    Some(s0.profiles_model()[owner])
                } else {
                    None
                },
            ),
        ),
    )
}

/// Executes a profile read.
pub fn op_get_profile(store: &mut Store, owner: Owner) -> (r: Result<Outcome, DonationsError>)
    requires
        old(store).inv(),
    ensures
        final(store).inv(),
        get_profile_effects(*old(store), owner, *final(store), result_model(r)),
{
    let p = store.get_profile(owner);
    let out = Outcome {
        response: ResponseData::Profile(p),
        messages: Vec::new(),
        events: Vec::new(),
        actions: Vec::new(),
    };
    proof {
        assert(out.deep_view().messages =~= Seq::<OutgoingMessageModel>::empty());
        assert(out.deep_view().events =~= Seq::<EventModel>::empty());
        assert(out.deep_view().actions =~= Seq::<HostActionModel>::empty());
    }
    Ok(out)
}

/// What a donations-by-recipient read returns: the indexed records, in
/// recorded order.
pub open spec fn get_donations_by_recipient_effects(
    s0: Store,
    owner: Owner,
    s1: Store,
    r: Result<OutcomeModel, DonationsError>,
) -> bool {
    &&& s1 == s0
    &&& r == Ok::<OutcomeModel, DonationsError>(
        quiet_outcome(
            ResponseDataModel::Donations(
                crate::store::lookup_donations(s0.donations_model(), s0.rec_ids(owner)),
            ),
        ),
    )
}

/// Executes a donations-by-recipient read.
pub fn op_get_donations_by_recipient(store: &mut Store, owner: Owner) -> (r: Result<
    Outcome,
    DonationsError,
>)
    requires
        old(store).inv(),
    ensures
        final(store).inv(),
        get_donations_by_recipient_effects(*old(store), owner, *final(store), result_model(r)),
{
    let list = store.list_donations_by_recipient(owner);
    let out = Outcome {
        response: ResponseData::Donations(list),
        messages: Vec::new(),
        events: Vec::new(),
        actions: Vec::new(),
    };
    proof {
        assert(out.deep_view().messages =~= Seq::<OutgoingMessageModel>::empty());
        assert(out.deep_view().events =~= Seq::<EventModel>::empty());
        assert(out.deep_view().actions =~= Seq::<HostActionModel>::empty());
    }
    Ok(out)
}

/// What a donations-by-donor read returns: the indexed records, in recorded
/// order.
pub open spec fn get_donations_by_donor_effects(
    s0: Store,
    owner: Owner,
    s1: Store,
    r: Result<OutcomeModel, DonationsError>,
) -> bool {
    &&& s1 == s0
    &&& r == Ok::<OutcomeModel, DonationsError>(
        quiet_outcome(
            ResponseDataModel::Donations(
                crate::store::lookup_donations(s0.donations_model(), s0.donor_ids(owner)),
            ),
        ),
    )
}

/// Executes a donations-by-donor read.
pub fn op_get_donations_by_donor(store: &mut Store, owner: Owner) -> (r: Result<
    Outcome,
    DonationsError,
>)
    requires
        old(store).inv(),
    ensures
        final(store).inv(),
        get_donations_by_donor_effects(*old(store), owner, *final(store), result_model(r)),
{
    let list = store.list_donations_by_donor(owner);
    let out = Outcome {
        response: ResponseData::Donations(list),
        messages: Vec::new(),
        events: Vec::new(),
        actions: Vec::new(),
    };
    proof {
        assert(out.deep_view().messages =~= Seq::<OutgoingMessageModel>::empty());
        assert(out.deep_view().events =~= Seq::<EventModel>::empty());
        assert(out.deep_view().actions =~= Seq::<HostActionModel>::empty());
    }
    Ok(out)
}

/// What a blob read does: asks the host to read the named blob.
pub open spec fn read_data_blob_effects(
    s0: Store,
    hash: Seq<char>,
    s1: Store,
    r: Result<OutcomeModel, DonationsError>,
) -> bool {
    &&& s1 == s0
    &&& r == Ok::<OutcomeModel, DonationsError>(
        OutcomeModel {
            response: ResponseDataModel::Done,
            messages: Seq::empty(),
            events: Seq::empty(),
            actions: seq![HostActionModel::ReadBlob { hash }],
        },
    )
}

/// Executes a blob read request.
pub fn op_read_data_blob(store: &mut Store, hash: String) -> (r: Result<Outcome, DonationsError>)
    requires
        old(store).inv(),
    ensures
        final(store).inv(),
        read_data_blob_effects(*old(store), hash@, *final(store), result_model(r)),
{
    let mut actions: Vec<HostAction> = Vec::new();
    let ghost hv = hash@;
    push_action(&mut actions, HostAction::ReadBlob { hash });
    let out = Outcome {
        response: ResponseData::Done,
        messages: Vec::new(),
        events: Vec::new(),
        actions,
    };
    proof {
        assert(out.deep_view().messages =~= Seq::<OutgoingMessageModel>::empty());
        assert(out.deep_view().events =~= Seq::<EventModel>::empty());
        assert(out.deep_view().actions =~= seq![HostActionModel::ReadBlob { hash: hv }]);
    }
    Ok(out)
}


/// What setting a subscription price does: the offer is stored and one
/// event is appended.
pub open spec fn set_subscription_price_effects(
    s0: Store,
    ctx: ExecContext,
    price: Amount,
    description: Option<Seq<char>>,
    s1: Store,
    r: Result<OutcomeModel, DonationsError>,
) -> bool {
    &&& r == Ok::<OutcomeModel, DonationsError>(
        OutcomeModel {
            response: ResponseDataModel::Done,
            messages: Seq::empty(),
            events: seq![
                EventModel::SubscriptionPriceSet {
                    author: ctx.caller,
                    price,
                    description,
                    timestamp: ctx.time_micros,
                },
            ],
            actions: Seq::empty(),
        },
    )
    &&& s1.prices_model() == s0.prices_model().insert(
        ctx.caller,
        SubscriptionInfoModel { author: ctx.caller, price, description },
    )
    &&& s1.donations_same(s0)
    &&& s1.profiles_same(s0)
    &&& s1.registry_same(s0)
    &&& s1.products_same(s0)
    &&& s1.purchases_same(s0)
    &&& s1.subs_same(s0)
    &&& s1.posts_same(s0)
}

/// Executes a subscription-price update for the caller.
pub fn op_set_subscription_price(
    store: &mut Store,
    ctx: ExecContext,
    price: Amount,
    description: Option<String>,
) -> (r: Result<Outcome, DonationsError>)
    requires
        old(store).inv(),
    ensures
        final(store).inv(),
        set_subscription_price_effects(
            *old(store),
            ctx,
            price,
            description.deep_view(),
            *final(store),
            result_model(r),
        ),
{
    let mut events: Vec<DonationsEvent> = Vec::new();
    push_event(
        &mut events,
        DonationsEvent::SubscriptionPriceSet {
            author: ctx.caller,
            price,
            description: dup_opt_string(&description),
            timestamp: ctx.time_micros,
        },
    );
    store.set_subscription_price(ctx.caller, price, description);
    let out = Outcome {
        response: ResponseData::Done,
        messages: Vec::new(),
        events,
        actions: Vec::new(),
    };
    proof {
        assert(out.deep_view().messages =~= Seq::<OutgoingMessageModel>::empty());
        assert(out.deep_view().actions =~= Seq::<HostActionModel>::empty());
        assert(out.deep_view().events =~= Seq::<EventModel>::empty().push(
            EventModel::SubscriptionPriceSet {
                author: ctx.caller,
                price,
                description: description.deep_view(),
                timestamp: ctx.time_micros,
            },
        ));
    }
    Ok(out)
}

/// What withdrawing a subscription offer does: the offer is removed and one
/// event is appended.
pub open spec fn delete_subscription_price_effects(
    s0: Store,
    ctx: ExecContext,
    s1: Store,
    r: Result<OutcomeModel, DonationsError>,
) -> bool {
    &&& r == Ok::<OutcomeModel, DonationsError>(
        OutcomeModel {
            response: ResponseDataModel::Done,
            messages: Seq::empty(),
            events: seq![
                EventModel::SubscriptionPriceDeleted {
                    author: ctx.caller,
                    timestamp: ctx.time_micros,
                },
            ],
            actions: Seq::empty(),
        },
    )
    &&& s1.prices_model() == s0.prices_model().remove(ctx.caller)
    &&& s1.donations_same(s0)
    &&& s1.profiles_same(s0)
    &&& s1.registry_same(s0)
    &&& s1.products_same(s0)
    &&& s1.purchases_same(s0)
    &&& s1.subs_same(s0)
    &&& s1.posts_same(s0)
}

/// Executes a subscription-offer withdrawal for the caller.
pub fn op_delete_subscription_price(store: &mut Store, ctx: ExecContext) -> (r: Result<
    Outcome,
    DonationsError,
>)
    requires
        old(store).inv(),
    ensures
        final(store).inv(),
        delete_subscription_price_effects(*old(store), ctx, *final(store), result_model(r)),
{
    let mut events: Vec<DonationsEvent> = Vec::new();
    push_event(
        &mut events,
        DonationsEvent::SubscriptionPriceDeleted {
            author: ctx.caller,
            timestamp: ctx.time_micros,
        },
    );
    store.delete_subscription_info(ctx.caller);
    let out = Outcome {
        response: ResponseData::Done,
        messages: Vec::new(),
        events,
        actions: Vec::new(),
    };
    proof {
        assert(out.deep_view().messages =~= Seq::<OutgoingMessageModel>::empty());
        assert(out.deep_view().actions =~= Seq::<HostActionModel>::empty());
        assert(out.deep_view().events =~= Seq::<EventModel>::empty().push(
            EventModel::SubscriptionPriceDeleted {
                author: ctx.caller,
                timestamp: ctx.time_micros,
            },
        ));
    }
    Ok(out)
}

/// The subscription one subscribe operation creates: a fixed 30-day window
/// from the payment time.
pub open spec fn new_subscription(
    ctx: ExecContext,
    author: Owner,
    author_chain_id: ChainId,
    amount: Amount,
) -> crate::types::ContentSubscription {
    crate::types::ContentSubscription {
        id: SubscriptionId {
            subscriber: ctx.caller,
            author,
            created_at: ctx.time_micros,
        },
        subscriber: ctx.caller,
        subscriber_chain_id: ctx.chain_id,
        author,
        author_chain_id,
        start_timestamp: ctx.time_micros,
        end_timestamp: (ctx.time_micros + THIRTY_DAYS_MICROS) as u64,
        price: amount,
    }
}

/// What subscribing to an author does: the payment transfer is requested, a
/// 30-day subscription is stored and indexed locally, and the author's
/// chain is notified exactly when it is a different chain.  No event is
/// appended here; the author's chain appends the subscription event when the
/// payment message lands.
pub open spec fn subscribe_to_author_effects(
    s0: Store,
    ctx: ExecContext,
    owner: Owner,
    amount: Amount,
    target: Account,
    s1: Store,
    r: Result<OutcomeModel, DonationsError>,
) -> bool {
    let sub = new_subscription(ctx, target.owner, target.chain_id, amount);
    &&& r == Ok::<OutcomeModel, DonationsError>(
        OutcomeModel {
            response: ResponseDataModel::Done,
            messages: if target.chain_id != ctx.chain_id {
                seq![
                    OutgoingMessageModel {
                        destination: target.chain_id,
                        message: MessageModel::SubscriptionPayment {
                            subscriber: ctx.caller,
                            subscriber_chain_id: ctx.chain_id,
                            author: target.owner,
                            amount,
                            duration_micros: THIRTY_DAYS_MICROS,
                            timestamp: ctx.time_micros,
                        },
                    },
                ]
            } else {
                Seq::empty()
            },
            events: Seq::empty(),
            actions: seq![
                HostActionModel::Transfer { source: owner, dest: target, amount },
            ],
        },
    )
    &&& s1.subs_model() == s0.subs_model().insert(sub.id, sub)
    &&& s1.donations_same(s0)
    &&& s1.profiles_same(s0)
    &&& s1.registry_same(s0)
    &&& s1.prices_same(s0)
    &&& s1.products_same(s0)
    &&& s1.purchases_same(s0)
    &&& s1.posts_same(s0)
}

/// Executes a subscription to an author's content.
pub fn op_subscribe_to_author(
    store: &mut Store,
    ctx: ExecContext,
    owner: Owner,
    amount: Amount,
    target_account: Account,
) -> (r: Result<Outcome, DonationsError>)
    requires
        old(store).inv(),
        ctx.time_micros + THIRTY_DAYS_MICROS <= u64::MAX,
    ensures
        final(store).inv(),
        subscribe_to_author_effects(
            *old(store),
            ctx,
            owner,
            amount,
            target_account,
            *final(store),
            result_model(r),
        ),
{
    let subscriber = ctx.caller;
    let ts = ctx.time_micros;
    let author = target_account.owner;
    let author_chain_id = target_account.chain_id;
    let mut messages: Vec<OutgoingMessage> = Vec::new();
    let mut actions: Vec<HostAction> = Vec::new();
    push_action(
        &mut actions,
        HostAction::Transfer { source: owner, dest: target_account, amount },
    );
    let end_timestamp = ts + THIRTY_DAYS_MICROS;
    let sub = crate::types::ContentSubscription {
        id: SubscriptionId { subscriber, author, created_at: ts },
        subscriber,
        subscriber_chain_id: ctx.chain_id,
        author,
        author_chain_id,
        start_timestamp: ts,
        end_timestamp,
        price: amount,
    };
    store.create_subscription(sub);
    if author_chain_id != ctx.chain_id {
        push_message(
            &mut messages,
            author_chain_id,
            Message::SubscriptionPayment {
                subscriber,
                subscriber_chain_id: ctx.chain_id,
                author,
                amount,
                duration_micros: THIRTY_DAYS_MICROS,
                timestamp: ts,
            },
        );
    }
    let out = Outcome { response: ResponseData::Done, messages, events: Vec::new(), actions };
    proof {
        assert(out.deep_view().events =~= Seq::<EventModel>::empty());
        assert(out.deep_view().actions =~= seq![
            HostActionModel::Transfer { source: owner, dest: target_account, amount },
        ]);
        assert(out.deep_view().messages =~= (if target_account.chain_id != ctx.chain_id {
            seq![
                OutgoingMessageModel {
                    destination: author_chain_id,
                    message: MessageModel::SubscriptionPayment {
                        subscriber,
                        subscriber_chain_id: ctx.chain_id,
                        author,
                        amount,
                        duration_micros: THIRTY_DAYS_MICROS,
                        timestamp: ts,
                    },
                },
            ]
        } else {
            Seq::<OutgoingMessageModel>::empty()
        }));
    }
    Ok(out)
}


/// The product one create operation stores.
pub open spec fn new_product_model(
    ctx: ExecContext,
    public_data: Seq<(Seq<char>, Seq<char>)>,
    price: Amount,
    private_data: Seq<(Seq<char>, Seq<char>)>,
    success_message: Option<Seq<char>>,
    order_form: Seq<OrderFormFieldModel>,
) -> ProductModel {
    ProductModel {
        id: ProductId { created_at: ctx.time_micros, chain_id: ctx.chain_id },
        author: ctx.caller,
        author_chain_id: ctx.chain_id,
        public_data,
        price,
        private_data,
        success_message,
        order_form,
        created_at: ctx.time_micros,
    }
}

/// The message fan-out of a product lifecycle change: it goes to the
/// caller's registered main chain exactly when one is registered and it is
/// a different chain.
pub open spec fn main_chain_fanout(
    s0: Store,
    ctx: ExecContext,
    m: MessageModel,
) -> Seq<OutgoingMessageModel> {
    if s0.registry_model().contains_key(ctx.caller) && s0.registry_model()[ctx.caller]
        != ctx.chain_id {
        seq![
            OutgoingMessageModel {
                destination: s0.registry_model()[ctx.caller],
                message: m,
            },
        ]
    } else {
        Seq::empty()
    }
}

/// What creating a product does: the product is stored under a chain-and-
/// time unique id and indexed, one event is appended, and the change is
/// replicated to the caller's registered main chain when that is a
/// different chain.  An oversized field map or order form is rejected
/// before anything changes.
pub open spec fn create_product_effects(
    s0: Store,
    ctx: ExecContext,
    public_data: Seq<(Seq<char>, Seq<char>)>,
    price: Amount,
    private_data: Seq<(Seq<char>, Seq<char>)>,
    success_message: Option<Seq<char>>,
    order_form: Seq<OrderFormFieldModel>,
    s1: Store,
    r: Result<OutcomeModel, DonationsError>,
) -> bool {
    let pm = new_product_model(ctx, public_data, price, private_data, success_message, order_form);
    if !(custom_fields_ok(public_data) && custom_fields_ok(private_data) && order_form_ok(
        order_form,
    )) {
        r == Err::<OutcomeModel, DonationsError>(DonationsError::ValidationError) && s1 == s0
    } else {
        &&& r == Ok::<OutcomeModel, DonationsError>(
            OutcomeModel {
                response: ResponseDataModel::Done,
                messages: main_chain_fanout(s0, ctx, MessageModel::ProductCreated { product: pm }),
                events: seq![
                    EventModel::ProductCreated { product: pm, timestamp: ctx.time_micros },
                ],
                actions: Seq::empty(),
            },
        )
        &&& s1.products_model() == s0.products_model().insert(pm.id, pm)
        &&& s1.donations_same(s0)
        &&& s1.profiles_same(s0)
        &&& s1.registry_same(s0)
        &&& s1.prices_same(s0)
        &&& s1.purchases_same(s0)
        &&& s1.subs_same(s0)
        &&& s1.posts_same(s0)
    }
}

/// Converts caller-supplied order-form fields into stored ones.
pub fn convert_order_form(form: Vec<OrderFormFieldInput>) -> (r: Vec<OrderFormField>)
    ensures
        r.deep_view() == form.deep_view(),
{
    let ghost fv = form.deep_view();
    let mut r: Vec<OrderFormField> = Vec::new();
    let n = form.len();
    let mut j: usize = 0;
    while j < n
        invariant
            n == form@.len(),
            form.deep_view() == fv,
            j <= n,
            r@.len() == j,
            forall|t: int| 0 <= t < j ==> (#[trigger] r@[t]).deep_view() == fv[t],
        decreases n - j,
    {
        let f = &form[j];
        proof {
            assert(form@[j as int].deep_view() == fv[j as int]);
        }
        r.push(
            OrderFormField {
                key: f.key.clone(),
                label: f.label.clone(),
                field_type: f.field_type.clone(),
                required: f.required,
            },
        );
        j = j + 1;
    }
    proof {
        assert forall|t: int| 0 <= t < r.deep_view().len() implies r.deep_view()[t] == fv[t] by {
            assert(r@[t].deep_view() == fv[t]);
        }
        assert(r.deep_view() =~= fv);
    }
    r
}

/// Executes a product creation for the caller.
pub fn op_create_product(
    store: &mut Store,
    ctx: ExecContext,
    public_data: CustomFields,
    price: Amount,
    private_data: CustomFields,
    success_message: Option<String>,
    order_form: Vec<OrderFormFieldInput>,
) -> (r: Result<Outcome, DonationsError>)
    requires
        old(store).inv(),
    ensures
        final(store).inv(),
        create_product_effects(
            *old(store),
            ctx,
            public_data.deep_view(),
            price,
            private_data.deep_view(),
            success_message.deep_view(),
            order_form.deep_view(),
            *final(store),
            result_model(r),
        ),
{
    let ts = ctx.time_micros;
    let id = ProductId { created_at: ts, chain_id: ctx.chain_id };
    let form = convert_order_form(order_form);
    let product = Product {
        id,
        author: ctx.caller,
        author_chain_id: ctx.chain_id,
        public_data,
        price,
        private_data,
        success_message,
        order_form: form,
        created_at: ts,
    };
    let ghost pm = product.deep_view();
    let event_copy = product.duplicate();
    let fanout_copy = product.duplicate();
    match store.create_product(product) {
        Err(e) => {
            return Err(DonationsError::ValidationError);
        },
        Ok(()) => {},
    }
    let mut events: Vec<DonationsEvent> = Vec::new();
    push_event(&mut events, DonationsEvent::ProductCreated { product: event_copy, timestamp: ts });
    let mut messages: Vec<OutgoingMessage> = Vec::new();
    proof {
        broadcast use vstd::laws_eq::group_laws_eq;

    }
    match store.subscriptions.get(&ctx.caller) {
        Some(main_chain) => {
            if !(*main_chain == ctx.chain_id) {
                push_message(
                    &mut messages,
                    *main_chain,
                    Message::ProductCreated { product: fanout_copy },
                );
            }
        },
        None => {},
    }
    let out = Outcome { response: ResponseData::Done, messages, events, actions: Vec::new() };
    proof {
        assert(out.deep_view().actions =~= Seq::<HostActionModel>::empty());
        assert(out.deep_view().events =~= Seq::<EventModel>::empty().push(
            EventModel::ProductCreated { product: pm, timestamp: ts },
        ));
        assert(out.deep_view().messages =~= main_chain_fanout(
            *old(store),
            ctx,
            MessageModel::ProductCreated { product: pm },
        ));
    }
    Ok(out)
}


/// The subscriber chains, among the listed subscriptions, that still hold a
/// valid subscription at a time and sit on another chain, in listing order.
pub open spec fn active_remote_chains(
    m: Map<SubscriptionId, crate::types::ContentSubscription>,
    ids: Seq<SubscriptionId>,
    ts: u64,
    current: ChainId,
) -> Seq<ChainId> {
    ids.filter(
        |id: SubscriptionId| m[id].end_timestamp >= ts && m[id].subscriber_chain_id != current,
    ).map_values(|id: SubscriptionId| m[id].subscriber_chain_id)
}

/// The listed subscriptions that have expired by a time, in listing order.
pub open spec fn expired_ids(
    m: Map<SubscriptionId, crate::types::ContentSubscription>,
    ids: Seq<SubscriptionId>,
    ts: u64,
) -> Seq<SubscriptionId> {
    ids.filter(|id: SubscriptionId| m[id].end_timestamp < ts)
}

/// One unsubscription event per expired subscription, in listing order.
pub open spec fn unsubscribed_events(ids: Seq<SubscriptionId>, ts: u64) -> Seq<EventModel> {
    ids.map_values(
        |id: SubscriptionId| EventModel::UserUnsubscribed {
            subscription_id: id,
            subscriber: id.subscriber,
            author: id.author,
            timestamp: ts,
        },
    )
}

/// The key set of the expired subscriptions.
pub open spec fn expired_key_set(
    m: Map<SubscriptionId, crate::types::ContentSubscription>,
    ids: Seq<SubscriptionId>,
    ts: u64,
) -> Set<SubscriptionId> {
    expired_ids(m, ids, ts).to_set()
}

/// Collects the chains of the author's still-valid remote subscriptions, in
/// listing order, without touching the store.
pub fn collect_active_remote_chains(
    store: &Store,
    author: Owner,
    ts: u64,
    current: ChainId,
) -> (r: Vec<ChainId>)
    requires
        store.inv(),
    ensures
        r@ == active_remote_chains(store.subs_model(), store.author_subs(author), ts, current),
{
    proof {
        reveal(Seq::filter);
    }
    let ghost m = store.subs_model();
    let ghost ids_g = store.author_subs(author);
    let mut r: Vec<ChainId> = Vec::new();
    let ids: &Vec<SubscriptionId> = match store.subscriptions_by_author.get(&author) {
        Some(v) => v,
        None => {
            proof {
                assert(ids_g =~= Seq::<SubscriptionId>::empty());
                assert(r@ =~= active_remote_chains(m, ids_g, ts, current));
            }
            return r;
        },
    };
    let n = ids.len();
    let mut j: usize = 0;
    while j < n
        invariant
            store.inv(),
            m == store.subs_model(),
            ids_g == store.author_subs(author),
            ids@ == ids_g,
            n == ids@.len(),
            j <= n,
            r@ == active_remote_chains(m, ids_g.subrange(0, j as int), ts, current),
        decreases n - j,
    {
        let id = ids[j];
        proof {
            broadcast use crate::ids::lemma_subscription_id_concrete_eq;

            assert(m.contains_key(ids_g[j as int]));
        }
        match store.content_subscriptions.get(&id) {
            Some(sub) => {
                if sub.end_timestamp >= ts && !(sub.subscriber_chain_id == current) {
                    r.push(sub.subscriber_chain_id);
                }
            },
            None => {
                proof {
                    assert(false);
                }
            },
        }
        proof {
            let prefix = ids_g.subrange(0, j as int);
            let prefix1 = ids_g.subrange(0, j as int + 1);
            crate::seqs::lemma_filter_push(
                prefix,
                |id2: SubscriptionId| m[id2].end_timestamp >= ts && m[id2].subscriber_chain_id
                    != current,
                ids_g[j as int],
            );
            assert(prefix1 =~= prefix.push(ids_g[j as int]));
            assert(r@ =~= active_remote_chains(m, prefix1, ts, current));
        }
        j = j + 1;
    }
    proof {
        assert(ids_g.subrange(0, n as int) =~= ids_g);
    }
    r
}

/// Walks the author's subscription list once: every subscription that has
/// expired by now is removed (lazy expiry) with one unsubscription event,
/// and the chains of the remaining valid remote subscriptions are collected
/// for fan-out, all in listing order.
pub fn expire_and_collect_chains(
    store: &mut Store,
    author: Owner,
    ts: u64,
    current: ChainId,
    events: &mut Vec<DonationsEvent>,
) -> (r: Vec<ChainId>)
    requires
        old(store).inv(),
    ensures
        final(store).inv(),
        r@ == active_remote_chains(
            old(store).subs_model(),
            old(store).author_subs(author),
            ts,
            current,
        ),
        final(store).subs_model() == old(store).subs_model().remove_keys(
            expired_key_set(old(store).subs_model(), old(store).author_subs(author), ts),
        ),
        final(events).deep_view() == old(events).deep_view() + unsubscribed_events(
            expired_ids(old(store).subs_model(), old(store).author_subs(author), ts),
            ts,
        ),
        final(store).donations_same(*old(store)),
        final(store).profiles_same(*old(store)),
        final(store).registry_same(*old(store)),
        final(store).prices_same(*old(store)),
        final(store).products_same(*old(store)),
        final(store).purchases_same(*old(store)),
        final(store).posts_same(*old(store)),
        final(store).donation_counter == old(store).donation_counter,
{
    proof {
        reveal(Seq::filter);
    }
    let ghost m0 = old(store).subs_model();
    let ghost ids_g = old(store).author_subs(author);
    let ghost ev0 = old(events).deep_view();
    let mut r: Vec<ChainId> = Vec::new();
    let ids: Vec<SubscriptionId> = {
        proof {
            broadcast use vstd::laws_eq::group_laws_eq;

        }
        match store.subscriptions_by_author.get(&author) {
            Some(v) => {
                let mut copy: Vec<SubscriptionId> = Vec::new();
                let n0 = v.len();
                let mut t: usize = 0;
                while t < n0
                    invariant
                        n0 == v@.len(),
                        t <= n0,
                        copy@ =~= v@.subrange(0, t as int),
                    decreases n0 - t,
                {
                    copy.push(v[t]);
                    t = t + 1;
                }
                proof {
                    assert(copy@ =~= v@);
                }
                copy
            },
            None => Vec::new(),
        }
    };
    proof {
        if old(store).subscriptions_by_author@.contains_key(author) {
            assert(ids@ == ids_g);
        } else {
            assert(ids_g =~= Seq::<SubscriptionId>::empty());
            assert(ids@ =~= ids_g);
        }
    }
    let n = ids.len();
    let mut j: usize = 0;
    while j < n
        invariant
            store.inv(),
            n == ids@.len(),
            ids@ == ids_g,
            j <= n,
            crate::seqs::no_dups(ids_g),
            forall|t: int|
                0 <= t < ids_g.len() ==> m0.contains_key(#[trigger] ids_g[t]) && m0[ids_g[t]].author
                    == author && ids_g[t].author == author,
            store.subs_model() == m0.remove_keys(
                expired_key_set(m0, ids_g.subrange(0, j as int), ts),
            ),
            r@ == active_remote_chains(m0, ids_g.subrange(0, j as int), ts, current),
            events.deep_view() == ev0 + unsubscribed_events(
                expired_ids(m0, ids_g.subrange(0, j as int), ts),
                ts,
            ),
            store.donations_same(*old(store)),
            store.profiles_same(*old(store)),
            store.registry_same(*old(store)),
            store.prices_same(*old(store)),
            store.products_same(*old(store)),
            store.purchases_same(*old(store)),
            store.posts_same(*old(store)),
            store.donation_counter == old(store).donation_counter,
        decreases n - j,
    {
        let id = ids[j];
        let ghost prefix = ids_g.subrange(0, j as int);
        let ghost prefix1 = ids_g.subrange(0, j as int + 1);
        proof {
            broadcast use crate::ids::lemma_subscription_id_concrete_eq;

            assert(prefix1 =~= prefix.push(id));
            assert(m0.contains_key(id));
            assert(!expired_key_set(m0, prefix, ts).contains(id)) by {
                crate::seqs::lemma_filter_elems(
                    prefix,
                    |id2: SubscriptionId| m0[id2].end_timestamp < ts,
                );
                if expired_ids(m0, prefix, ts).to_set().contains(id) {
                    let w = choose|w: int|
                        0 <= w < expired_ids(m0, prefix, ts).len() && expired_ids(
                            m0,
                            prefix,
                            ts,
                        )[w] == id;
                    assert(prefix.contains(id));
                    let t = choose|t: int| 0 <= t < prefix.len() && prefix[t] == id;
                    assert(ids_g[t] == id && ids_g[j as int] == id && t < j as int);
                }
            }
            assert(store.subs_model().contains_key(id));
            assert(store.subs_model()[id] == m0[id]);
        }
        let sub: crate::types::ContentSubscription = match store.content_subscriptions.get(&id) {
            Some(s) => *s,
            None => {
                proof {
                    assert(false);
                }
                return r;
            },
        };
        if sub.end_timestamp < ts {
            push_event(
                events,
                DonationsEvent::UserUnsubscribed {
                    subscription_id: id,
                    subscriber: sub.subscriber,
                    author,
                    timestamp: ts,
                },
            );
            let ghost pre_subs = store.subs_model();
            let res = store.remove_subscription(id, author, sub.subscriber);
            proof {
                assert(id.author == author && id.subscriber == sub.subscriber);
                assert(res is Ok);
                crate::seqs::lemma_filter_push(
                    prefix,
                    |id2: SubscriptionId| m0[id2].end_timestamp < ts,
                    id,
                );
                crate::seqs::lemma_filter_push(
                    prefix,
                    |id2: SubscriptionId| m0[id2].end_timestamp >= ts && m0[
                        id2].subscriber_chain_id != current,
                    id,
                );
                assert(store.subs_model() =~= m0.remove_keys(expired_key_set(m0, prefix1, ts)))
                    by {
                    let sa = expired_ids(m0, prefix1, ts);
                    let sb = expired_ids(m0, prefix, ts);
                    assert(sa == sb.push(id));
                    assert forall|x: SubscriptionId| sa.contains(x) == (sb.contains(x) || x
                        == id) by {
                        if sa.contains(x) {
                            let w = choose|w: int| 0 <= w < sa.len() && sa[w] == x;
                            if w < sb.len() {
                                assert(sb[w] == x);
                            } else {
                                assert(sa[w] == id);
                            }
                        }
                        if sb.contains(x) {
                            let w = choose|w: int| 0 <= w < sb.len() && sb[w] == x;
                            assert(sa[w] == x);
                        }
                        if x == id {
                            assert(sa[sa.len() - 1] == id);
                        }
                    }
                    assert(sa.to_set() =~= sb.to_set().insert(id));
                    assert(store.subs_model() == pre_subs.remove(id));
                }
                assert(r@ =~= active_remote_chains(m0, prefix1, ts, current));
                assert(events.deep_view() =~= ev0 + unsubscribed_events(
                    expired_ids(m0, prefix1, ts),
                    ts,
                ));
            }
        } else {
            if !(sub.subscriber_chain_id == current) {
                r.push(sub.subscriber_chain_id);
            }
            proof {
                crate::seqs::lemma_filter_push(
                    prefix,
                    |id2: SubscriptionId| m0[id2].end_timestamp < ts,
                    id,
                );
                crate::seqs::lemma_filter_push(
                    prefix,
                    |id2: SubscriptionId| m0[id2].end_timestamp >= ts && m0[
                        id2].subscriber_chain_id != current,
                    id,
                );
                assert(expired_ids(m0, prefix1, ts) =~= expired_ids(m0, prefix, ts));
                assert(expired_key_set(m0, prefix1, ts) =~= expired_key_set(m0, prefix, ts));
                assert(r@ =~= active_remote_chains(m0, prefix1, ts, current));
                assert(events.deep_view() =~= ev0 + unsubscribed_events(
                    expired_ids(m0, prefix1, ts),
                    ts,
                ));
            }
        }
        j = j + 1;
    }
    proof {
        assert(ids_g.subrange(0, n as int) =~= ids_g);
    }
    r
}


/// What updating a product does: the stored product's supplied fields are
/// replaced, one event carrying the updated product is appended, and the
/// change is replicated to the caller's registered main chain when that is
/// a different chain.  Lookup, authorship and validation failures abort
/// with the matching error and change nothing.
pub open spec fn update_product_effects(
    s0: Store,
    ctx: ExecContext,
    product_id: ProductId,
    public_data: Option<Seq<(Seq<char>, Seq<char>)>>,
    price: Option<Amount>,
    private_data: Option<Seq<(Seq<char>, Seq<char>)>>,
    success_message: Option<Seq<char>>,
    order_form: Option<Seq<OrderFormFieldModel>>,
    s1: Store,
    r: Result<OutcomeModel, DonationsError>,
) -> bool {
    if !s0.products_model().contains_key(product_id) {
        r == Err::<OutcomeModel, DonationsError>(DonationsError::NotFound) && s1 == s0
    } else if s0.products_model()[product_id].author != ctx.caller {
        r == Err::<OutcomeModel, DonationsError>(DonationsError::Unauthorized) && s1 == s0
    } else if !({
        &&& match public_data {
            Some(v) => custom_fields_ok(v),
            None => true,
        }
        &&& match private_data {
            Some(v) => custom_fields_ok(v),
            None => true,
        }
        &&& match order_form {
            Some(v) => order_form_ok(v),
            None => true,
        }
    }) {
        r == Err::<OutcomeModel, DonationsError>(DonationsError::ValidationError) && s1 == s0
    } else {
        let pm = crate::types::product_with_updates(
            s0.products_model()[product_id],
            public_data,
            price,
            private_data,
            success_message,
            order_form,
        );
        &&& r == Ok::<OutcomeModel, DonationsError>(
            OutcomeModel {
                response: ResponseDataModel::Done,
                messages: main_chain_fanout(s0, ctx, MessageModel::ProductUpdated { product: pm }),
                events: seq![
                    EventModel::ProductUpdated { product: pm, timestamp: ctx.time_micros },
                ],
                actions: Seq::empty(),
            },
        )
        &&& s1.products_model() == s0.products_model().insert(product_id, pm)
        &&& s1.donations_same(s0)
        &&& s1.profiles_same(s0)
        &&& s1.registry_same(s0)
        &&& s1.prices_same(s0)
        &&& s1.purchases_same(s0)
        &&& s1.subs_same(s0)
        &&& s1.posts_same(s0)
    }
}

/// Executes a product update for the caller.
pub fn op_update_product(
    store: &mut Store,
    ctx: ExecContext,
    product_id: ProductId,
    public_data: Option<CustomFields>,
    price: Option<Amount>,
    private_data: Option<CustomFields>,
    success_message: Option<String>,
    order_form: Option<Vec<OrderFormFieldInput>>,
) -> (r: Result<Outcome, DonationsError>)
    requires
        old(store).inv(),
    ensures
        final(store).inv(),
        update_product_effects(
            *old(store),
            ctx,
            product_id,
            public_data.deep_view(),
            price,
            private_data.deep_view(),
            success_message.deep_view(),
            order_form.deep_view(),
            *final(store),
            result_model(r),
        ),
{
    let form: Option<Vec<OrderFormField>> = match order_form {
        Some(f) => Some(convert_order_form(f)),
        None => None,
    };
    let res = store.update_product(
        product_id,
        ctx.caller,
        public_data,
        price,
        private_data,
        success_message,
        form,
    );
    match res {
        Err(e) => {
            return Err(e);
        },
        Ok(()) => {},
    }
    let updated = match store.get_product(product_id) {
        Some(p) => p,
        None => {
            proof {
                assert(false);
            }
            return Err(DonationsError::NotFound);
        },
    };
    let ghost pm = updated.deep_view();
    let fanout_copy = updated.duplicate();
    let mut events: Vec<DonationsEvent> = Vec::new();
    push_event(
        &mut events,
        DonationsEvent::ProductUpdated { product: updated, timestamp: ctx.time_micros },
    );
    let mut messages: Vec<OutgoingMessage> = Vec::new();
    proof {
        broadcast use vstd::laws_eq::group_laws_eq;

    }
    match store.subscriptions.get(&ctx.caller) {
        Some(main_chain) => {
            if !(*main_chain == ctx.chain_id) {
                push_message(
                    &mut messages,
                    *main_chain,
                    Message::ProductUpdated { product: fanout_copy },
                );
            }
        },
        None => {},
    }
    let out = Outcome { response: ResponseData::Done, messages, events, actions: Vec::new() };
    proof {
        assert(out.deep_view().actions =~= Seq::<HostActionModel>::empty());
        assert(out.deep_view().events =~= Seq::<EventModel>::empty().push(
            EventModel::ProductUpdated { product: pm, timestamp: ctx.time_micros },
        ));
        assert(out.deep_view().messages =~= main_chain_fanout(
            *old(store),
            ctx,
            MessageModel::ProductUpdated { product: pm },
        ));
    }
    Ok(out)
}

/// What deleting a product does: the product leaves the map and every index
/// list, one event is appended, and the deletion is replicated to the
/// caller's registered main chain when that is a different chain.  Lookup
/// and authorship failures abort with the matching error and change
/// nothing.
pub open spec fn delete_product_effects(
    s0: Store,
    ctx: ExecContext,
    product_id: ProductId,
    s1: Store,
    r: Result<OutcomeModel, DonationsError>,
) -> bool {
    if !s0.products_model().contains_key(product_id) {
        r == Err::<OutcomeModel, DonationsError>(DonationsError::NotFound) && s1 == s0
    } else if s0.products_model()[product_id].author != ctx.caller {
        r == Err::<OutcomeModel, DonationsError>(DonationsError::Unauthorized) && s1 == s0
    } else {
        &&& r == Ok::<OutcomeModel, DonationsError>(
            OutcomeModel {
                response: ResponseDataModel::Done,
                messages: main_chain_fanout(
                    s0,
                    ctx,
                    MessageModel::ProductDeleted { product_id, author: ctx.caller },
                ),
                events: seq![
                    EventModel::ProductDeleted {
                        product_id,
                        author: ctx.caller,
                        timestamp: ctx.time_micros,
                    },
                ],
                actions: Seq::empty(),
            },
        )
        &&& s1.products_model() == s0.products_model().remove(product_id)
        &&& forall|x: Owner| #[trigger]
            s1.author_products(x) == crate::seqs::seq_without(s0.author_products(x), product_id)
        &&& forall|c: ChainId| #[trigger]
            s1.chain_products(c) == crate::seqs::seq_without(s0.chain_products(c), product_id)
        &&& s1.donations_same(s0)
        &&& s1.profiles_same(s0)
        &&& s1.registry_same(s0)
        &&& s1.prices_same(s0)
        &&& s1.purchases_same(s0)
        &&& s1.subs_same(s0)
        &&& s1.posts_same(s0)
    }
}

/// Executes a product deletion for the caller.
pub fn op_delete_product(store: &mut Store, ctx: ExecContext, product_id: ProductId) -> (r: Result<
    Outcome,
    DonationsError,
>)
    requires
        old(store).inv(),
    ensures
        final(store).inv(),
        delete_product_effects(*old(store), ctx, product_id, *final(store), result_model(r)),
{
    let res = store.delete_product(product_id, ctx.caller);
    match res {
        Err(e) => {
            return Err(e);
        },
        Ok(()) => {},
    }
    let mut events: Vec<DonationsEvent> = Vec::new();
    push_event(
        &mut events,
        DonationsEvent::ProductDeleted {
            product_id,
            author: ctx.caller,
            timestamp: ctx.time_micros,
        },
    );
    let mut messages: Vec<OutgoingMessage> = Vec::new();
    proof {
        broadcast use vstd::laws_eq::group_laws_eq;

    }
    match store.subscriptions.get(&ctx.caller) {
        Some(main_chain) => {
            if !(*main_chain == ctx.chain_id) {
                push_message(
                    &mut messages,
                    *main_chain,
                    Message::ProductDeleted { product_id, author: ctx.caller },
                );
            }
        },
        None => {},
    }
    let out = Outcome { response: ResponseData::Done, messages, events, actions: Vec::new() };
    proof {
        assert(out.deep_view().actions =~= Seq::<HostActionModel>::empty());
        assert(out.deep_view().events =~= Seq::<EventModel>::empty().push(
            EventModel::ProductDeleted {
                product_id,
                author: ctx.caller,
                timestamp: ctx.time_micros,
            },
        ));
        assert(out.deep_view().messages =~= main_chain_fanout(
            *old(store),
            ctx,
            MessageModel::ProductDeleted { product_id, author: ctx.caller },
        ));
    }
    Ok(out)
}

/// What buying a product does: only the named owner may pay; the payment
/// transfer is requested, a purchase event is appended, the registered main
/// chain is notified of the purchase, and either the seller's chain gets
/// the order with the buyer's answers (different chain) or, when the seller
/// shares this chain, a purchase snapshot is recorded immediately from the
/// locally stored product.
pub open spec fn transfer_to_buy_effects(
    s0: Store,
    ctx: ExecContext,
    owner: Owner,
    product_id: ProductId,
    amount: Amount,
    target: Account,
    order_data: Seq<(Seq<char>, Seq<char>)>,
    s1: Store,
    r: Result<OutcomeModel, DonationsError>,
) -> bool {
    if owner != ctx.caller {
        r == Err::<OutcomeModel, DonationsError>(DonationsError::Unauthorized) && s1 == s0
    } else if !field_keys_unique(order_data) {
        r == Err::<OutcomeModel, DonationsError>(DonationsError::ValidationError) && s1 == s0
    } else {
        let ts = ctx.time_micros;
        let purchase_id = PurchaseId { created_at: ts, chain_id: ctx.chain_id };
        let main_msgs = if s0.registry_model().contains_key(owner) {
            seq![
                OutgoingMessageModel {
                    destination: s0.registry_model()[owner],
                    message: MessageModel::ProductPurchased {
                        purchase_id,
                        product_id,
                        buyer: owner,
                        buyer_chain_id: ctx.chain_id,
                        seller: target.owner,
                        amount,
                        order_data,
                    },
                },
            ]
        } else {
            Seq::empty()
        };
        let local_purchase = crate::types::PurchaseModel {
            id: purchase_id,
            product_id,
            buyer: owner,
            buyer_chain_id: ctx.chain_id,
            seller: target.owner,
            seller_chain_id: if s0.products_model().contains_key(product_id) {
                s0.products_model()[product_id].author_chain_id
            } else {
                ctx.chain_id
            },
            amount,
            timestamp: ts,
            order_data,
            product: s0.products_model()[product_id],
        };
        &&& r == Ok::<OutcomeModel, DonationsError>(
            OutcomeModel {
                response: ResponseDataModel::Done,
                messages: main_msgs + (if target.chain_id != ctx.chain_id {
                    seq![
                        OutgoingMessageModel {
                            destination: target.chain_id,
                            message: MessageModel::OrderReceived {
                                purchase_id,
                                product_id,
                                buyer: owner,
                                buyer_chain_id: ctx.chain_id,
                                amount,
                                order_data,
                                timestamp: ts,
                            },
                        },
                    ]
                } else {
                    Seq::empty()
                }),
                events: seq![
                    EventModel::ProductPurchased {
                        purchase_id,
                        product_id,
                        buyer: owner,
                        seller: target.owner,
                        amount,
                        timestamp: ts,
                    },
                ],
                actions: seq![
                    HostActionModel::Transfer { source: owner, dest: target, amount },
                ],
            },
        )
        &&& (if target.chain_id == ctx.chain_id && s0.products_model().contains_key(product_id) {
            s1.purchases_model() == s0.purchases_model().insert(purchase_id, local_purchase)
        } else {
            s1.purchases_same(s0)
        })
        &&& s1.donations_same(s0)
        &&& s1.profiles_same(s0)
        &&& s1.registry_same(s0)
        &&& s1.prices_same(s0)
        &&& s1.products_same(s0)
        &&& s1.subs_same(s0)
        &&& s1.posts_same(s0)
    }
}

/// Executes a purchase with the buyer's order answers.
pub fn op_transfer_to_buy(
    store: &mut Store,
    ctx: ExecContext,
    owner: Owner,
    product_id: ProductId,
    amount: Amount,
    target_account: Account,
    order_data: crate::types::OrderResponses,
) -> (r: Result<Outcome, DonationsError>)
    requires
        old(store).inv(),
    ensures
        final(store).inv(),
        transfer_to_buy_effects(
            *old(store),
            ctx,
            owner,
            product_id,
            amount,
            target_account,
            order_data.deep_view(),
            *final(store),
            result_model(r),
        ),
{
    if !(owner == ctx.caller) {
        return Err(DonationsError::Unauthorized);
    }
    if !unique_field_keys(&order_data) {
        return Err(DonationsError::ValidationError);
    }
    let ts = ctx.time_micros;
    let purchase_id = PurchaseId { created_at: ts, chain_id: ctx.chain_id };
    let seller = target_account.owner;
    let mut events: Vec<DonationsEvent> = Vec::new();
    let mut messages: Vec<OutgoingMessage> = Vec::new();
    let mut actions: Vec<HostAction> = Vec::new();
    push_action(
        &mut actions,
        HostAction::Transfer { source: owner, dest: target_account, amount },
    );
    push_event(
        &mut events,
        DonationsEvent::ProductPurchased {
            purchase_id,
            product_id,
            buyer: owner,
            seller,
            amount,
            timestamp: ts,
        },
    );
    proof {
        broadcast use vstd::laws_eq::group_laws_eq;

    }
    match store.subscriptions.get(&owner) {
        Some(main_chain) => {
            push_message(
                &mut messages,
                *main_chain,
                Message::ProductPurchased {
                    purchase_id,
                    product_id,
                    buyer: owner,
                    buyer_chain_id: ctx.chain_id,
                    seller,
                    amount,
                    order_data: dup_pairs(&order_data),
                },
            );
        },
        None => {},
    }
    let ghost main_msgs = messages.deep_view();
    if !(target_account.chain_id == ctx.chain_id) {
        push_message(
            &mut messages,
            target_account.chain_id,
            Message::OrderReceived {
                purchase_id,
                product_id,
                buyer: owner,
                buyer_chain_id: ctx.chain_id,
                amount,
                order_data,
                timestamp: ts,
            },
        );
    } else {
        match store.get_product(product_id) {
            Some(product) => {
                let seller_chain_id = product.author_chain_id;
                let purchase = Purchase {
                    id: purchase_id,
                    product_id,
                    buyer: owner,
                    buyer_chain_id: ctx.chain_id,
                    seller,
                    seller_chain_id,
                    amount,
                    timestamp: ts,
                    order_data,
                    product,
                };
                store.record_purchase(purchase);
            },
            None => {},
        }
    }
    let out = Outcome { response: ResponseData::Done, messages, events, actions };
    proof {
        assert(out.deep_view().actions =~= seq![
            HostActionModel::Transfer { source: owner, dest: target_account, amount },
        ]);
        assert(out.deep_view().events =~= seq![
            EventModel::ProductPurchased {
                purchase_id,
                product_id,
                buyer: owner,
                seller,
                amount,
                timestamp: ts,
            },
        ]);
        assert(main_msgs =~= (if old(store).registry_model().contains_key(owner) {
            seq![
                OutgoingMessageModel {
                    destination: old(store).registry_model()[owner],
                    message: MessageModel::ProductPurchased {
                        purchase_id,
                        product_id,
                        buyer: owner,
                        buyer_chain_id: ctx.chain_id,
                        seller,
                        amount,
                        order_data: order_data.deep_view(),
                    },
                },
            ]
        } else {
            Seq::<OutgoingMessageModel>::empty()
        }));
        assert(out.deep_view().messages =~= main_msgs + (if target_account.chain_id
            != ctx.chain_id {
            seq![
                OutgoingMessageModel {
                    destination: target_account.chain_id,
                    message: MessageModel::OrderReceived {
                        purchase_id,
                        product_id,
                        buyer: owner,
                        buyer_chain_id: ctx.chain_id,
                        amount,
                        order_data: order_data.deep_view(),
                        timestamp: ts,
                    },
                },
            ]
        } else {
            Seq::<OutgoingMessageModel>::empty()
        }));
    }
    Ok(out)
}


/// One post-published message per destination chain, in order.
pub open spec fn published_msgs(chains: Seq<ChainId>, post: PostModel) -> Seq<
    OutgoingMessageModel,
> {
    chains.map_values(
        |c: ChainId| OutgoingMessageModel {
            destination: c,
            message: MessageModel::PostPublished { post },
        },
    )
}

/// One post-updated message per destination chain, in order.
pub open spec fn updated_post_msgs(chains: Seq<ChainId>, post: PostModel) -> Seq<
    OutgoingMessageModel,
> {
    chains.map_values(
        |c: ChainId| OutgoingMessageModel {
            destination: c,
            message: MessageModel::PostUpdated { post },
        },
    )
}

/// One post-deleted message per destination chain, in order.
pub open spec fn deleted_post_msgs(chains: Seq<ChainId>, post_id: PostId, author: Owner) -> Seq<
    OutgoingMessageModel,
> {
    chains.map_values(
        |c: ChainId| OutgoingMessageModel {
            destination: c,
            message: MessageModel::PostDeleted { post_id, author },
        },
    )
}

/// One poll-results message per destination chain, in order.
pub open spec fn poll_msgs(chains: Seq<ChainId>, post_id: PostId, poll: PollModel) -> Seq<
    OutgoingMessageModel,
> {
    chains.map_values(
        |c: ChainId| OutgoingMessageModel {
            destination: c,
            message: MessageModel::PollResultsUpdated { post_id, poll },
        },
    )
}

/// One giveaway-snapshot message per destination chain, in order.
pub open spec fn giveaway_msgs(chains: Seq<ChainId>, post_id: PostId, giveaway: GiveawayModel) -> Seq<
    OutgoingMessageModel,
> {
    chains.map_values(
        |c: ChainId| OutgoingMessageModel {
            destination: c,
            message: MessageModel::GiveawayUpdated { post_id, giveaway },
        },
    )
}

/// Appends one post-published message per destination chain, in order.
pub fn push_published_msgs(messages: &mut Vec<OutgoingMessage>, chains: &Vec<ChainId>, post: &Post)
    ensures
        final(messages).deep_view() == old(messages).deep_view() + published_msgs(
            chains@,
            post.deep_view(),
        ),
{
    let ghost base = old(messages).deep_view();
    let n = chains.len();
    let mut j: usize = 0;
    while j < n
        invariant
            n == chains@.len(),
            j <= n,
            messages.deep_view() == base + published_msgs(
                chains@.subrange(0, j as int),
                post.deep_view(),
            ),
        decreases n - j,
    {
        push_message(messages, chains[j], Message::PostPublished { post: post.duplicate() });
        proof {
            assert(chains@.subrange(0, j as int + 1) =~= chains@.subrange(0, j as int).push(
                chains@[j as int],
            ));
            assert(messages.deep_view() =~= base + published_msgs(
                chains@.subrange(0, j as int + 1),
                post.deep_view(),
            ));
        }
        j = j + 1;
    }
    proof {
        assert(chains@.subrange(0, n as int) =~= chains@);
    }
}

/// Appends one post-updated message per destination chain, in order.
pub fn push_updated_post_msgs(
    messages: &mut Vec<OutgoingMessage>,
    chains: &Vec<ChainId>,
    post: &Post,
)
    ensures
        final(messages).deep_view() == old(messages).deep_view() + updated_post_msgs(
            chains@,
            post.deep_view(),
        ),
{
    let ghost base = old(messages).deep_view();
    let n = chains.len();
    let mut j: usize = 0;
    while j < n
        invariant
            n == chains@.len(),
            j <= n,
            messages.deep_view() == base + updated_post_msgs(
                chains@.subrange(0, j as int),
                post.deep_view(),
            ),
        decreases n - j,
    {
        push_message(messages, chains[j], Message::PostUpdated { post: post.duplicate() });
        proof {
            assert(chains@.subrange(0, j as int + 1) =~= chains@.subrange(0, j as int).push(
                chains@[j as int],
            ));
            assert(messages.deep_view() =~= base + updated_post_msgs(
                chains@.subrange(0, j as int + 1),
                post.deep_view(),
            ));
        }
        j = j + 1;
    }
    proof {
        assert(chains@.subrange(0, n as int) =~= chains@);
    }
}

/// Appends one post-deleted message per destination chain, in order.
pub fn push_deleted_post_msgs(
    messages: &mut Vec<OutgoingMessage>,
    chains: &Vec<ChainId>,
    post_id: PostId,
    author: Owner,
)
    ensures
        final(messages).deep_view() == old(messages).deep_view() + deleted_post_msgs(
            chains@,
            post_id,
            author,
        ),
{
    let ghost base = old(messages).deep_view();
    let n = chains.len();
    let mut j: usize = 0;
    while j < n
        invariant
            n == chains@.len(),
            j <= n,
            messages.deep_view() == base + deleted_post_msgs(
                chains@.subrange(0, j as int),
                post_id,
                author,
            ),
        decreases n - j,
    {
        push_message(messages, chains[j], Message::PostDeleted { post_id, author });
        proof {
            assert(chains@.subrange(0, j as int + 1) =~= chains@.subrange(0, j as int).push(
                chains@[j as int],
            ));
            assert(messages.deep_view() =~= base + deleted_post_msgs(
                chains@.subrange(0, j as int + 1),
                post_id,
                author,
            ));
        }
        j = j + 1;
    }
    proof {
        assert(chains@.subrange(0, n as int) =~= chains@);
    }
}

/// Appends one poll-results message per destination chain, in order.
pub fn push_poll_msgs(
    messages: &mut Vec<OutgoingMessage>,
    chains: &Vec<ChainId>,
    post_id: PostId,
    poll: &Poll,
)
    ensures
        final(messages).deep_view() == old(messages).deep_view() + poll_msgs(
            chains@,
            post_id,
            poll.deep_view(),
        ),
{
    let ghost base = old(messages).deep_view();
    let n = chains.len();
    let mut j: usize = 0;
    while j < n
        invariant
            n == chains@.len(),
            j <= n,
            messages.deep_view() == base + poll_msgs(
                chains@.subrange(0, j as int),
                post_id,
                poll.deep_view(),
            ),
        decreases n - j,
    {
        push_message(
            messages,
            chains[j],
            Message::PollResultsUpdated { post_id, poll: poll.duplicate() },
        );
        proof {
            assert(chains@.subrange(0, j as int + 1) =~= chains@.subrange(0, j as int).push(
                chains@[j as int],
            ));
            assert(messages.deep_view() =~= base + poll_msgs(
                chains@.subrange(0, j as int + 1),
                post_id,
                poll.deep_view(),
            ));
        }
        j = j + 1;
    }
    proof {
        assert(chains@.subrange(0, n as int) =~= chains@);
    }
}

/// Appends one giveaway-snapshot message per destination chain, in order.
pub fn push_giveaway_msgs(
    messages: &mut Vec<OutgoingMessage>,
    chains: &Vec<ChainId>,
    post_id: PostId,
    giveaway: &Giveaway,
)
    ensures
        final(messages).deep_view() == old(messages).deep_view() + giveaway_msgs(
            chains@,
            post_id,
            giveaway.deep_view(),
        ),
{
    let ghost base = old(messages).deep_view();
    let n = chains.len();
    let mut j: usize = 0;
    while j < n
        invariant
            n == chains@.len(),
            j <= n,
            messages.deep_view() == base + giveaway_msgs(
                chains@.subrange(0, j as int),
                post_id,
                giveaway.deep_view(),
            ),
        decreases n - j,
    {
        push_message(
            messages,
            chains[j],
            Message::GiveawayUpdated { post_id, giveaway: giveaway.duplicate() },
        );
        proof {
            assert(chains@.subrange(0, j as int + 1) =~= chains@.subrange(0, j as int).push(
                chains@[j as int],
            ));
            assert(messages.deep_view() =~= base + giveaway_msgs(
                chains@.subrange(0, j as int + 1),
                post_id,
                giveaway.deep_view(),
            ));
        }
        j = j + 1;
    }
    proof {
        assert(chains@.subrange(0, n as int) =~= chains@);
    }
}


/// The post one create operation stores: the id derives from the creation
/// timestamp, a poll exists exactly when options were supplied, and a
/// giveaway exactly when a prize was supplied.
pub open spec fn new_post_model(
    ctx: ExecContext,
    title: Seq<char>,
    content: Seq<char>,
    image_hash: Option<Seq<char>>,
    poll_options: Seq<Seq<char>>,
    poll_end_timestamp: Option<u64>,
    giveaway_prize: Option<Amount>,
    giveaway_end_timestamp: Option<u64>,
) -> PostModel {
    PostModel {
        id: (ctx.time_micros % crate::types::POST_ID_MOD) as u64,
        author: ctx.caller,
        author_chain_id: ctx.chain_id,
        title,
        content,
        image_hash,
        created_at: ctx.time_micros,
        poll: if poll_options.len() > 0 {
            Some(
                PollModel {
                    options: poll_options.map_values(
                        |t: Seq<char>| PollOptionModel { text: t, votes_count: 0 },
                    ),
                    end_timestamp: match poll_end_timestamp {
                        Some(e) => e,
                        None => 0,
                    },
                    voters: Seq::empty(),
                },
            )
        } else {
            None
        },
        giveaway: match giveaway_prize {
            Some(prize) => Some(
                GiveawayModel {
                    prize_amount: prize,
                    end_timestamp: match giveaway_end_timestamp {
                        Some(e) => e,
                        None => 0,
                    },
                    participants: Seq::empty(),
                    winner: None,
                    is_resolved: false,
                },
            ),
            None => None,
        },
    }
}

/// What creating a post does: the post is stored and indexed, one creation
/// event is appended, every expired subscription of the author found during
/// the fan-out scan is lazily removed with an unsubscription event, and the
/// post goes to each remaining valid subscriber on another chain, in
/// listing order.
pub open spec fn create_post_effects(
    s0: Store,
    ctx: ExecContext,
    title: Seq<char>,
    content: Seq<char>,
    image_hash: Option<Seq<char>>,
    poll_options: Seq<Seq<char>>,
    poll_end_timestamp: Option<u64>,
    giveaway_prize: Option<Amount>,
    giveaway_end_timestamp: Option<u64>,
    s1: Store,
    r: Result<OutcomeModel, DonationsError>,
) -> bool {
    let post = new_post_model(
        ctx,
        title,
        content,
        image_hash,
        poll_options,
        poll_end_timestamp,
        giveaway_prize,
        giveaway_end_timestamp,
    );
    let ts = ctx.time_micros;
    &&& r == Ok::<OutcomeModel, DonationsError>(
        OutcomeModel {
            response: ResponseDataModel::Done,
            messages: published_msgs(
                active_remote_chains(
                    s0.subs_model(),
                    s0.author_subs(ctx.caller),
                    ts,
                    ctx.chain_id,
                ),
                post,
            ),
            events: seq![EventModel::PostCreated { post, timestamp: ts }] + unsubscribed_events(
                expired_ids(s0.subs_model(), s0.author_subs(ctx.caller), ts),
                ts,
            ),
            actions: Seq::empty(),
        },
    )
    &&& s1.posts_model() == s0.posts_model().insert(post.id, post)
    &&& s1.subs_model() == s0.subs_model().remove_keys(
        expired_key_set(s0.subs_model(), s0.author_subs(ctx.caller), ts),
    )
    &&& s1.donations_same(s0)
    &&& s1.profiles_same(s0)
    &&& s1.registry_same(s0)
    &&& s1.prices_same(s0)
    &&& s1.products_same(s0)
    &&& s1.purchases_same(s0)
}

/// Executes a post creation, with an optional embedded poll and giveaway.
pub fn op_create_post(
    store: &mut Store,
    ctx: ExecContext,
    title: String,
    content: String,
    image_hash: Option<String>,
    poll_options: Vec<String>,
    poll_end_timestamp: Option<u64>,
    giveaway_prize: Option<Amount>,
    giveaway_end_timestamp: Option<u64>,
) -> (r: Result<Outcome, DonationsError>)
    requires
        old(store).inv(),
    ensures
        final(store).inv(),
        create_post_effects(
            *old(store),
            ctx,
            title@,
            content@,
            image_hash.deep_view(),
            poll_options.deep_view(),
            poll_end_timestamp,
            giveaway_prize,
            giveaway_end_timestamp,
            *final(store),
            result_model(r),
        ),
{
    let ts = ctx.time_micros;
    let author = ctx.caller;
    let post_id: PostId = ts % crate::types::POST_ID_MOD;
    let poll: Option<Poll> = if poll_options.len() > 0 {
        let ghost ov = poll_options.deep_view();
        let mut options: Vec<PollOption> = Vec::new();
        let n = poll_options.len();
        let mut j: usize = 0;
        while j < n
            invariant
                n == poll_options@.len(),
                poll_options.deep_view() == ov,
                j <= n,
                options@.len() == j,
                forall|t: int|
                    0 <= t < j ==> (#[trigger] options@[t]).deep_view() == (PollOptionModel {
                        text: ov[t],
                        votes_count: 0,
                    }),
            decreases n - j,
        {
            proof {
                assert(poll_options@[j as int]@ == ov[j as int]);
            }
            options.push(PollOption { text: poll_options[j].clone(), votes_count: 0 });
            j = j + 1;
        }
        proof {
            assert forall|t: int| 0 <= t < options.deep_view().len() implies
                options.deep_view()[t] == ov.map_values(
                |t2: Seq<char>| PollOptionModel { text: t2, votes_count: 0 },
            )[t] by {
                assert(options@[t].deep_view() == (PollOptionModel {
                    text: ov[t],
                    votes_count: 0,
                }));
            }
            assert(options.deep_view() =~= ov.map_values(
                |t2: Seq<char>| PollOptionModel { text: t2, votes_count: 0 },
            ));
        }
        let end = match poll_end_timestamp {
            Some(e) => e,
            None => 0,
        };
        Some(Poll { options, end_timestamp: end, voters: Vec::new() })
    } else {
        None
    };
    let giveaway: Option<Giveaway> = match giveaway_prize {
        Some(prize) => {
            let end = match giveaway_end_timestamp {
                Some(e) => e,
                None => 0,
            };
            Some(
                Giveaway {
                    prize_amount: prize,
                    end_timestamp: end,
                    participants: Vec::new(),
                    winner: None,
                    is_resolved: false,
                },
            )
        },
        None => None,
    };
    let post = Post {
        id: post_id,
        author,
        author_chain_id: ctx.chain_id,
        title,
        content,
        image_hash,
        created_at: ts,
        poll,
        giveaway,
    };
    let ghost pm = post.deep_view();
    proof {
        if post.poll is Some {
            assert(post.poll.deep_view() matches Some(p) && p.voters =~= Seq::<(
                Owner,
                usize,
            )>::empty());
        }
        if post.giveaway is Some {
            assert(post.giveaway.deep_view() matches Some(g) && g.participants
                =~= Seq::<crate::types::GiveawayParticipant>::empty());
        }
    }
    let broadcast_copy = post.duplicate();
    let event_copy = post.duplicate();
    store.create_post(post);
    let mut events: Vec<DonationsEvent> = Vec::new();
    push_event(&mut events, DonationsEvent::PostCreated { post: event_copy, timestamp: ts });
    let chains = expire_and_collect_chains(store, author, ts, ctx.chain_id, &mut events);
    let mut messages: Vec<OutgoingMessage> = Vec::new();
    push_published_msgs(&mut messages, &chains, &broadcast_copy);
    let out = Outcome { response: ResponseData::Done, messages, events, actions: Vec::new() };
    proof {
        assert(out.deep_view().actions =~= Seq::<HostActionModel>::empty());
        assert(out.deep_view().events =~= seq![EventModel::PostCreated { post: pm, timestamp: ts }]
            + unsubscribed_events(
            expired_ids(old(store).subs_model(), old(store).author_subs(author), ts),
            ts,
        ));
        assert(out.deep_view().messages =~= Seq::<OutgoingMessageModel>::empty() + published_msgs(
            active_remote_chains(
                old(store).subs_model(),
                old(store).author_subs(author),
                ts,
                ctx.chain_id,
            ),
            pm,
        ));
        assert(pm == new_post_model(
            ctx,
            pm.title,
            pm.content,
            pm.image_hash,
            poll_options.deep_view(),
            poll_end_timestamp,
            giveaway_prize,
            giveaway_end_timestamp,
        ));
    }
    Ok(out)
}


/// What updating a post does: the author's text-field changes land, one
/// event carrying the updated post is appended, and the update goes to each
/// valid subscriber on another chain, in listing order.  Lookup and
/// authorship failures abort with the matching error and change nothing.
pub open spec fn update_post_effects(
    s0: Store,
    ctx: ExecContext,
    post_id: PostId,
    title: Option<Seq<char>>,
    content: Option<Seq<char>>,
    image_hash: Option<Seq<char>>,
    s1: Store,
    r: Result<OutcomeModel, DonationsError>,
) -> bool {
    if !s0.posts_model().contains_key(post_id) {
        r == Err::<OutcomeModel, DonationsError>(DonationsError::NotFound) && s1 == s0
    } else if s0.posts_model()[post_id].author != ctx.caller {
        r == Err::<OutcomeModel, DonationsError>(DonationsError::Unauthorized) && s1 == s0
    } else {
        let pm = crate::posts::post_with_updates(
            s0.posts_model()[post_id],
            title,
            content,
            image_hash,
        );
        let ts = ctx.time_micros;
        &&& r == Ok::<OutcomeModel, DonationsError>(
            OutcomeModel {
                response: ResponseDataModel::Done,
                messages: updated_post_msgs(
                    active_remote_chains(
                        s0.subs_model(),
                        s0.author_subs(ctx.caller),
                        ts,
                        ctx.chain_id,
                    ),
                    pm,
                ),
                events: seq![EventModel::PostUpdated { post: pm, timestamp: ts }],
                actions: Seq::empty(),
            },
        )
        &&& s1.posts_model() == s0.posts_model().insert(post_id, pm)
        &&& s1.donations_same(s0)
        &&& s1.profiles_same(s0)
        &&& s1.registry_same(s0)
        &&& s1.prices_same(s0)
        &&& s1.products_same(s0)
        &&& s1.purchases_same(s0)
        &&& s1.subs_same(s0)
    }
}

/// Executes a post update for the caller.
pub fn op_update_post(
    store: &mut Store,
    ctx: ExecContext,
    post_id: PostId,
    title: Option<String>,
    content: Option<String>,
    image_hash: Option<String>,
) -> (r: Result<Outcome, DonationsError>)
    requires
        old(store).inv(),
    ensures
        final(store).inv(),
        update_post_effects(
            *old(store),
            ctx,
            post_id,
            title.deep_view(),
            content.deep_view(),
            image_hash.deep_view(),
            *final(store),
            result_model(r),
        ),
{
    match store.get_post(post_id) {
        None => {
            return Err(DonationsError::NotFound);
        },
        Some(p) => {
            if !(p.author == ctx.caller) {
                return Err(DonationsError::Unauthorized);
            }
        },
    }
    let res = store.update_post(post_id, title, content, image_hash);
    match res {
        Err(e) => {
            proof {
                assert(false);
            }
            return Err(e);
        },
        Ok(()) => {},
    }
    let updated = match store.get_post(post_id) {
        Some(p) => p,
        None => {
            proof {
                assert(false);
            }
            return Err(DonationsError::NotFound);
        },
    };
    let ghost pm = updated.deep_view();
    let ts = ctx.time_micros;
    let broadcast_copy = updated.duplicate();
    let mut events: Vec<DonationsEvent> = Vec::new();
    push_event(&mut events, DonationsEvent::PostUpdated { post: updated, timestamp: ts });
    let chains = collect_active_remote_chains(store, ctx.caller, ts, ctx.chain_id);
    let mut messages: Vec<OutgoingMessage> = Vec::new();
    push_updated_post_msgs(&mut messages, &chains, &broadcast_copy);
    let out = Outcome { response: ResponseData::Done, messages, events, actions: Vec::new() };
    proof {
        assert(out.deep_view().actions =~= Seq::<HostActionModel>::empty());
        assert(out.deep_view().events =~= seq![EventModel::PostUpdated { post: pm, timestamp: ts }]);
        assert(out.deep_view().messages =~= Seq::<OutgoingMessageModel>::empty()
            + updated_post_msgs(
            active_remote_chains(
                old(store).subs_model(),
                old(store).author_subs(ctx.caller),
                ts,
                ctx.chain_id,
            ),
            pm,
        ));
    }
    Ok(out)
}

/// What deleting a post does: the post leaves the map and every index list,
/// one event is appended, and the deletion goes to each valid subscriber on
/// another chain, in listing order.  Lookup and authorship failures abort
/// with the matching error and change nothing.
pub open spec fn delete_post_effects(
    s0: Store,
    ctx: ExecContext,
    post_id: PostId,
    s1: Store,
    r: Result<OutcomeModel, DonationsError>,
) -> bool {
    if !s0.posts_model().contains_key(post_id) {
        r == Err::<OutcomeModel, DonationsError>(DonationsError::NotFound) && s1 == s0
    } else if s0.posts_model()[post_id].author != ctx.caller {
        r == Err::<OutcomeModel, DonationsError>(DonationsError::Unauthorized) && s1 == s0
    } else {
        let ts = ctx.time_micros;
        &&& r == Ok::<OutcomeModel, DonationsError>(
            OutcomeModel {
                response: ResponseDataModel::Done,
                messages: deleted_post_msgs(
                    active_remote_chains(
                        s0.subs_model(),
                        s0.author_subs(ctx.caller),
                        ts,
                        ctx.chain_id,
                    ),
                    post_id,
                    ctx.caller,
                ),
                events: seq![
                    EventModel::PostDeleted { post_id, author: ctx.caller, timestamp: ts },
                ],
                actions: Seq::empty(),
            },
        )
        &&& s1.posts_model() == s0.posts_model().remove(post_id)
        &&& s1.donations_same(s0)
        &&& s1.profiles_same(s0)
        &&& s1.registry_same(s0)
        &&& s1.prices_same(s0)
        &&& s1.products_same(s0)
        &&& s1.purchases_same(s0)
        &&& s1.subs_same(s0)
    }
}

/// Executes a post deletion for the caller.
pub fn op_delete_post(store: &mut Store, ctx: ExecContext, post_id: PostId) -> (r: Result<
    Outcome,
    DonationsError,
>)
    requires
        old(store).inv(),
    ensures
        final(store).inv(),
        delete_post_effects(*old(store), ctx, post_id, *final(store), result_model(r)),
{
    let res = store.delete_post(post_id, ctx.caller);
    match res {
        Err(e) => {
            return Err(e);
        },
        Ok(()) => {},
    }
    let ts = ctx.time_micros;
    let mut events: Vec<DonationsEvent> = Vec::new();
    push_event(
        &mut events,
        DonationsEvent::PostDeleted { post_id, author: ctx.caller, timestamp: ts },
    );
    let chains = collect_active_remote_chains(store, ctx.caller, ts, ctx.chain_id);
    let mut messages: Vec<OutgoingMessage> = Vec::new();
    push_deleted_post_msgs(&mut messages, &chains, post_id, ctx.caller);
    let out = Outcome { response: ResponseData::Done, messages, events, actions: Vec::new() };
    proof {
        assert(out.deep_view().actions =~= Seq::<HostActionModel>::empty());
        assert(out.deep_view().events =~= seq![
            EventModel::PostDeleted { post_id, author: ctx.caller, timestamp: ts },
        ]);
        assert(out.deep_view().messages =~= Seq::<OutgoingMessageModel>::empty()
            + deleted_post_msgs(
            active_remote_chains(
                old(store).subs_model(),
                old(store).author_subs(ctx.caller),
                ts,
                ctx.chain_id,
            ),
            post_id,
            ctx.caller,
        ));
    }
    Ok(out)
}


/// What casting a vote does.  On the author's chain: the caller needs a
/// valid subscription unless voting on their own post, the vote lands with
/// every tally recomputed from the full voter map, a vote event and a
/// poll-results event are appended, and the poll snapshot goes to each
/// valid subscriber on another chain.  On any other chain: the vote is
/// forwarded to the author's chain and nothing changes locally.
pub open spec fn cast_vote_effects(
    s0: Store,
    ctx: ExecContext,
    author_chain_id: ChainId,
    author: Owner,
    post_id: PostId,
    option_index: usize,
    s1: Store,
    r: Result<OutcomeModel, DonationsError>,
) -> bool {
    let ts = ctx.time_micros;
    let voter = ctx.caller;
    if author_chain_id != ctx.chain_id {
        &&& r == Ok::<OutcomeModel, DonationsError>(
            OutcomeModel {
                response: ResponseDataModel::Done,
                messages: seq![
                    OutgoingMessageModel {
                        destination: author_chain_id,
                        message: MessageModel::VoteCasted {
                            post_id,
                            voter,
                            voter_chain_id: ctx.chain_id,
                            option_index,
                        },
                    },
                ],
                events: Seq::empty(),
                actions: Seq::empty(),
            },
        )
        &&& s1 == s0
    } else if voter != author && !s0.subscription_valid(voter, author, ts) {
        r == Err::<OutcomeModel, DonationsError>(DonationsError::ExpiredOrMissingAccess) && s1
            == s0
    } else if !s0.posts_model().contains_key(post_id) {
        r == Err::<OutcomeModel, DonationsError>(DonationsError::NotFound) && s1 == s0
    } else {
        match s0.posts_model()[post_id].poll {
            None => r == Err::<OutcomeModel, DonationsError>(DonationsError::NotFound) && s1
                == s0,
            Some(poll) => {
                if ts > poll.end_timestamp && poll.end_timestamp > 0 {
                    r == Err::<OutcomeModel, DonationsError>(DonationsError::PollEnded) && s1
                        == s0
                } else if option_index >= poll.options.len() {
                    r == Err::<OutcomeModel, DonationsError>(DonationsError::ValidationError)
                        && s1 == s0
                } else {
                    let new_poll = crate::posts::cast_vote_model(poll, voter, option_index);
                    &&& r == Ok::<OutcomeModel, DonationsError>(
                        OutcomeModel {
                            response: ResponseDataModel::Done,
                            messages: poll_msgs(
                                active_remote_chains(
                                    s0.subs_model(),
                                    s0.author_subs(author),
                                    ts,
                                    ctx.chain_id,
                                ),
                                post_id,
                                new_poll,
                            ),
                            events: seq![
                                EventModel::VoteCasted {
                                    post_id,
                                    voter,
                                    option_index,
                                    timestamp: ts,
                                },
                                EventModel::PollResultsUpdated {
                                    post_id,
                                    poll: new_poll,
                                    timestamp: ts,
                                },
                            ],
                            actions: Seq::empty(),
                        },
                    )
                    &&& s1.posts_model() == s0.posts_model().insert(
                        post_id,
                        PostModel { poll: Some(new_poll), ..s0.posts_model()[post_id] },
                    )
                    &&& s1.donations_same(s0)
                    &&& s1.profiles_same(s0)
                    &&& s1.registry_same(s0)
                    &&& s1.prices_same(s0)
                    &&& s1.products_same(s0)
                    &&& s1.purchases_same(s0)
                    &&& s1.subs_same(s0)
                }
            },
        }
    }
}

/// Executes a vote on a poll.
pub fn op_cast_vote(
    store: &mut Store,
    ctx: ExecContext,
    author_chain_id: ChainId,
    author: Owner,
    post_id: PostId,
    option_index: usize,
) -> (r: Result<Outcome, DonationsError>)
    requires
        old(store).inv(),
    ensures
        final(store).inv(),
        cast_vote_effects(
            *old(store),
            ctx,
            author_chain_id,
            author,
            post_id,
            option_index,
            *final(store),
            result_model(r),
        ),
{
    let ts = ctx.time_micros;
    let voter = ctx.caller;
    if !(author_chain_id == ctx.chain_id) {
        let mut messages: Vec<OutgoingMessage> = Vec::new();
        push_message(
            &mut messages,
            author_chain_id,
            Message::VoteCasted { post_id, voter, voter_chain_id: ctx.chain_id, option_index },
        );
        let out = Outcome {
            response: ResponseData::Done,
            messages,
            events: Vec::new(),
            actions: Vec::new(),
        };
        proof {
            assert(out.deep_view().events =~= Seq::<EventModel>::empty());
            assert(out.deep_view().actions =~= Seq::<HostActionModel>::empty());
            assert(out.deep_view().messages =~= Seq::<OutgoingMessageModel>::empty().push(
                OutgoingMessageModel {
                    destination: author_chain_id,
                    message: MessageModel::VoteCasted {
                        post_id,
                        voter,
                        voter_chain_id: ctx.chain_id,
                        option_index,
                    },
                },
            ));
        }
        return Ok(out);
    }
    if !(voter == author) {
        if !store.check_subscription_valid(voter, author, ts) {
            return Err(DonationsError::ExpiredOrMissingAccess);
        }
    }
    let updated_poll = match store.cast_vote(post_id, voter, option_index, ts) {
        Err(e) => {
            return Err(e);
        },
        Ok(p) => p,
    };
    let ghost new_pm = updated_poll.deep_view();
    let mut events: Vec<DonationsEvent> = Vec::new();
    push_event(&mut events, DonationsEvent::VoteCasted { post_id, voter, option_index, timestamp: ts });
    push_event(
        &mut events,
        DonationsEvent::PollResultsUpdated {
            post_id,
            poll: updated_poll.duplicate(),
            timestamp: ts,
        },
    );
    let chains = collect_active_remote_chains(store, author, ts, ctx.chain_id);
    let mut messages: Vec<OutgoingMessage> = Vec::new();
    push_poll_msgs(&mut messages, &chains, post_id, &updated_poll);
    let out = Outcome { response: ResponseData::Done, messages, events, actions: Vec::new() };
    proof {
        assert(out.deep_view().actions =~= Seq::<HostActionModel>::empty());
        assert(out.deep_view().events =~= Seq::<EventModel>::empty().push(
            EventModel::VoteCasted { post_id, voter, option_index, timestamp: ts },
        ).push(EventModel::PollResultsUpdated { post_id, poll: new_pm, timestamp: ts }));
        assert(out.deep_view().events =~= seq![
            EventModel::VoteCasted { post_id, voter, option_index, timestamp: ts },
            EventModel::PollResultsUpdated { post_id, poll: new_pm, timestamp: ts },
        ]);
        assert(out.deep_view().messages =~= Seq::<OutgoingMessageModel>::empty() + poll_msgs(
            active_remote_chains(
                old(store).subs_model(),
                old(store).author_subs(author),
                ts,
                ctx.chain_id,
            ),
            post_id,
            new_pm,
        ));
    }
    Ok(out)
}

/// What joining a giveaway does.  On the author's chain: the caller needs a
/// valid subscription unless it is their own giveaway, the entrant is added
/// unless an identical entry exists, a participation event is appended, and
/// the giveaway snapshot goes to each valid subscriber on another chain.
/// On any other chain: the participation is forwarded to the author's chain
/// and nothing changes locally.
pub open spec fn participate_effects(
    s0: Store,
    ctx: ExecContext,
    author_chain_id: ChainId,
    author: Owner,
    post_id: PostId,
    s1: Store,
    r: Result<OutcomeModel, DonationsError>,
) -> bool {
    let ts = ctx.time_micros;
    let participant = ctx.caller;
    let entrant = crate::types::GiveawayParticipant {
        owner: participant,
        chain_id: ctx.chain_id,
        joined_at: ts,
    };
    if author_chain_id != ctx.chain_id {
        &&& r == Ok::<OutcomeModel, DonationsError>(
            OutcomeModel {
                response: ResponseDataModel::Done,
                messages: seq![
                    OutgoingMessageModel {
                        destination: author_chain_id,
                        message: MessageModel::GiveawayParticipation {
                            post_id,
                            participant,
                            participant_chain_id: ctx.chain_id,
                        },
                    },
                ],
                events: Seq::empty(),
                actions: Seq::empty(),
            },
        )
        &&& s1 == s0
    } else if participant != author && !s0.subscription_valid(participant, author, ts) {
        r == Err::<OutcomeModel, DonationsError>(DonationsError::ExpiredOrMissingAccess) && s1
            == s0
    } else if !s0.posts_model().contains_key(post_id) {
        r == Err::<OutcomeModel, DonationsError>(DonationsError::NotFound) && s1 == s0
    } else {
        match s0.posts_model()[post_id].giveaway {
            None => r == Err::<OutcomeModel, DonationsError>(DonationsError::NotFound) && s1
                == s0,
            Some(g) => {
                if (ts > g.end_timestamp && g.end_timestamp > 0) || g.is_resolved {
                    r == Err::<OutcomeModel, DonationsError>(DonationsError::ValidationError)
                        && s1 == s0
                } else {
                    let new_g = crate::posts::join_giveaway_model(g, entrant);
                    &&& r == Ok::<OutcomeModel, DonationsError>(
                        OutcomeModel {
                            response: ResponseDataModel::Done,
                            messages: giveaway_msgs(
                                active_remote_chains(
                                    s0.subs_model(),
                                    s0.author_subs(author),
                                    ts,
                                    ctx.chain_id,
                                ),
                                post_id,
                                new_g,
                            ),
                            events: seq![
                                EventModel::GiveawayParticipated {
                                    post_id,
                                    participant,
                                    timestamp: ts,
                                },
                            ],
                            actions: Seq::empty(),
                        },
                    )
                    &&& s1.posts_model() == s0.posts_model().insert(
                        post_id,
                        PostModel { giveaway: Some(new_g), ..s0.posts_model()[post_id] },
                    )
                    &&& s1.donations_same(s0)
                    &&& s1.profiles_same(s0)
                    &&& s1.registry_same(s0)
                    &&& s1.prices_same(s0)
                    &&& s1.products_same(s0)
                    &&& s1.purchases_same(s0)
                    &&& s1.subs_same(s0)
                }
            },
        }
    }
}

/// Executes a giveaway participation.
pub fn op_participate_in_giveaway(
    store: &mut Store,
    ctx: ExecContext,
    author_chain_id: ChainId,
    author: Owner,
    post_id: PostId,
) -> (r: Result<Outcome, DonationsError>)
    requires
        old(store).inv(),
    ensures
        final(store).inv(),
        participate_effects(
            *old(store),
            ctx,
            author_chain_id,
            author,
            post_id,
            *final(store),
            result_model(r),
        ),
{
    let ts = ctx.time_micros;
    let participant = ctx.caller;
    if !(author_chain_id == ctx.chain_id) {
        let mut messages: Vec<OutgoingMessage> = Vec::new();
        push_message(
            &mut messages,
            author_chain_id,
            Message::GiveawayParticipation {
                post_id,
                participant,
                participant_chain_id: ctx.chain_id,
            },
        );
        let out = Outcome {
            response: ResponseData::Done,
            messages,
            events: Vec::new(),
            actions: Vec::new(),
        };
        proof {
            assert(out.deep_view().events =~= Seq::<EventModel>::empty());
            assert(out.deep_view().actions =~= Seq::<HostActionModel>::empty());
            assert(out.deep_view().messages =~= Seq::<OutgoingMessageModel>::empty().push(
                OutgoingMessageModel {
                    destination: author_chain_id,
                    message: MessageModel::GiveawayParticipation {
                        post_id,
                        participant,
                        participant_chain_id: ctx.chain_id,
                    },
                },
            ));
        }
        return Ok(out);
    }
    if !(participant == author) {
        if !store.check_subscription_valid(participant, author, ts) {
            return Err(DonationsError::ExpiredOrMissingAccess);
        }
    }
    let entrant = crate::types::GiveawayParticipant {
        owner: participant,
        chain_id: ctx.chain_id,
        joined_at: ts,
    };
    let updated_g = match store.add_giveaway_participant(post_id, entrant, ts) {
        Err(e) => {
            return Err(e);
        },
        Ok(g) => g,
    };
    let ghost new_gm = updated_g.deep_view();
    let mut events: Vec<DonationsEvent> = Vec::new();
    push_event(
        &mut events,
        DonationsEvent::GiveawayParticipated { post_id, participant, timestamp: ts },
    );
    let chains = collect_active_remote_chains(store, author, ts, ctx.chain_id);
    let mut messages: Vec<OutgoingMessage> = Vec::new();
    push_giveaway_msgs(&mut messages, &chains, post_id, &updated_g);
    let out = Outcome { response: ResponseData::Done, messages, events, actions: Vec::new() };
    proof {
        assert(out.deep_view().actions =~= Seq::<HostActionModel>::empty());
        assert(out.deep_view().events =~= seq![
            EventModel::GiveawayParticipated { post_id, participant, timestamp: ts },
        ]);
        assert(out.deep_view().messages =~= Seq::<OutgoingMessageModel>::empty() + giveaway_msgs(
            active_remote_chains(
                old(store).subs_model(),
                old(store).author_subs(author),
                ts,
                ctx.chain_id,
            ),
            post_id,
            new_gm,
        ));
    }
    Ok(out)
}

/// What resolving a giveaway does: only the post's author may resolve, the
/// winner is picked by the deterministic formula over the current time, the
/// rendered id length and the entrant count, the prize transfer to the
/// winner's account is requested, a resolution event is appended, and the
/// closed giveaway snapshot goes to each valid subscriber on another chain.
/// A second resolution is rejected and leaves the winner unchanged.
pub open spec fn resolve_giveaway_effects(
    s0: Store,
    ctx: ExecContext,
    post_id: PostId,
    s1: Store,
    r: Result<OutcomeModel, DonationsError>,
) -> bool {
    let ts = ctx.time_micros;
    let author = ctx.caller;
    if !s0.posts_model().contains_key(post_id) {
        r == Err::<OutcomeModel, DonationsError>(DonationsError::NotFound) && s1 == s0
    } else if s0.posts_model()[post_id].author != author {
        r == Err::<OutcomeModel, DonationsError>(DonationsError::Unauthorized) && s1 == s0
    } else {
        match s0.posts_model()[post_id].giveaway {
            None => r == Err::<OutcomeModel, DonationsError>(DonationsError::NotFound) && s1
                == s0,
            Some(g) => {
                if g.is_resolved || g.participants.len() == 0 {
                    r == Err::<OutcomeModel, DonationsError>(DonationsError::ValidationError)
                        && s1 == s0
                } else {
                    let new_g = crate::posts::resolve_giveaway_model(g, ts);
                    let winner = g.participants[crate::posts::winner_index(
                        ts,
                        g.participants.len(),
                    )];
                    &&& r == Ok::<OutcomeModel, DonationsError>(
                        OutcomeModel {
                            response: ResponseDataModel::Done,
                            messages: giveaway_msgs(
                                active_remote_chains(
                                    s0.subs_model(),
                                    s0.author_subs(author),
                                    ts,
                                    ctx.chain_id,
                                ),
                                post_id,
                                new_g,
                            ),
                            events: seq![
                                EventModel::GiveawayResolved {
                                    post_id,
                                    winner: winner.owner,
                                    winner_chain_id: winner.chain_id,
                                    prize_amount: g.prize_amount,
                                    timestamp: ts,
                                },
                            ],
                            actions: seq![
                                HostActionModel::Transfer {
                                    source: author,
                                    dest: Account {
                                        chain_id: winner.chain_id,
                                        owner: winner.owner,
                                    },
                                    amount: g.prize_amount,
                                },
                            ],
                        },
                    )
                    &&& s1.posts_model() == s0.posts_model().insert(
                        post_id,
                        PostModel { giveaway: Some(new_g), ..s0.posts_model()[post_id] },
                    )
                    &&& s1.donations_same(s0)
                    &&& s1.profiles_same(s0)
                    &&& s1.registry_same(s0)
                    &&& s1.prices_same(s0)
                    &&& s1.products_same(s0)
                    &&& s1.purchases_same(s0)
                    &&& s1.subs_same(s0)
                }
            },
        }
    }
}

/// Executes a giveaway resolution for the caller.
pub fn op_resolve_giveaway(store: &mut Store, ctx: ExecContext, post_id: PostId) -> (r: Result<
    Outcome,
    DonationsError,
>)
    requires
        old(store).inv(),
    ensures
        final(store).inv(),
        resolve_giveaway_effects(*old(store), ctx, post_id, *final(store), result_model(r)),
{
    let ts = ctx.time_micros;
    let author = ctx.caller;
    let ghost gm0 = match old(store).posts_model()[post_id].giveaway {
        Some(g) => g,
        None => arbitrary(),
    };
    let resolved = match store.resolve_giveaway(post_id, author, ts) {
        Err(e) => {
            return Err(e);
        },
        Ok(g) => g,
    };
    let ghost new_gm = resolved.deep_view();
    let winner = match resolved.winner {
        Some(w) => w,
        None => {
            proof {
                assert(false);
            }
            return Err(DonationsError::NotFound);
        },
    };
    let prize = resolved.prize_amount;
    let mut events: Vec<DonationsEvent> = Vec::new();
    push_event(
        &mut events,
        DonationsEvent::GiveawayResolved {
            post_id,
            winner: winner.owner,
            winner_chain_id: winner.chain_id,
            prize_amount: prize,
            timestamp: ts,
        },
    );
    let mut actions: Vec<HostAction> = Vec::new();
    push_action(
        &mut actions,
        HostAction::Transfer {
            source: author,
            dest: Account { chain_id: winner.chain_id, owner: winner.owner },
            amount: prize,
        },
    );
    let chains = collect_active_remote_chains(store, author, ts, ctx.chain_id);
    let mut messages: Vec<OutgoingMessage> = Vec::new();
    push_giveaway_msgs(&mut messages, &chains, post_id, &resolved);
    let out = Outcome { response: ResponseData::Done, messages, events, actions };
    proof {
        assert(out.deep_view().events =~= seq![
            EventModel::GiveawayResolved {
                post_id,
                winner: winner.owner,
                winner_chain_id: winner.chain_id,
                prize_amount: prize,
                timestamp: ts,
            },
        ]);
        assert(out.deep_view().actions =~= seq![
            HostActionModel::Transfer {
                source: author,
                dest: Account { chain_id: winner.chain_id, owner: winner.owner },
                amount: prize,
            },
        ]);
        assert(out.deep_view().messages =~= Seq::<OutgoingMessageModel>::empty() + giveaway_msgs(
            active_remote_chains(
                old(store).subs_model(),
                old(store).author_subs(author),
                ts,
                ctx.chain_id,
            ),
            post_id,
            new_gm,
        ));
    }
    Ok(out)
}


/// What one caller-submitted operation does, case by case; the per-
/// operation predicates carry the exact semantics.
pub open spec fn operation_effects(
    s0: Store,
    ctx: ExecContext,
    op: Operation,
    s1: Store,
    r: Result<OutcomeModel, DonationsError>,
) -> bool {
    match op {
        Operation::Transfer { owner, amount, target_account, text_message } => transfer_effects(
            s0,
            ctx,
            owner,
            amount,
            target_account,
            text_message.deep_view(),
            s1,
            r,
        ),
        Operation::Withdraw => withdraw_effects(s0, ctx, s1, r),
        Operation::Mint { owner, amount } => mint_effects(s0, ctx, owner, amount, s1, r),
        Operation::UpdateProfile { name, bio, socials, avatar_hash, header_hash } => update_profile_effects(
            s0,
            ctx,
            name.deep_view(),
            bio.deep_view(),
            socials.deep_view(),
            avatar_hash.deep_view(),
            header_hash.deep_view(),
            s1,
            r,
        ),
        Operation::Register { main_chain_id, name, bio, socials, avatar_hash, header_hash } => register_effects(
            s0,
            ctx,
            main_chain_id,
            name.deep_view(),
            bio.deep_view(),
            socials.deep_view(),
            avatar_hash.deep_view(),
            header_hash.deep_view(),
            s1,
            r,
        ),
        Operation::SetAvatar { hash } => set_avatar_effects(s0, ctx, hash@, s1, r),
        Operation::SetHeader { hash } => set_header_effects(s0, ctx, hash@, s1, r),
        Operation::GetProfile { owner } => get_profile_effects(s0, owner, s1, r),
        Operation::GetDonationsByRecipient { owner } => get_donations_by_recipient_effects(
            s0,
            owner,
            s1,
            r,
        ),
        Operation::GetDonationsByDonor { owner } => get_donations_by_donor_effects(
            s0,
            owner,
            s1,
            r,
        ),
        Operation::CreateProduct { public_data, price, private_data, success_message, order_form } => create_product_effects(
            s0,
            ctx,
            public_data.deep_view(),
            price,
            private_data.deep_view(),
            success_message.deep_view(),
            order_form.deep_view(),
            s1,
            r,
        ),
        Operation::UpdateProduct { product_id, public_data, price, private_data, success_message, order_form } => update_product_effects(
            s0,
            ctx,
            product_id,
            public_data.deep_view(),
            price,
            private_data.deep_view(),
            success_message.deep_view(),
            order_form.deep_view(),
            s1,
            r,
        ),
        Operation::DeleteProduct { product_id } => delete_product_effects(
            s0,
            ctx,
            product_id,
            s1,
            r,
        ),
        Operation::TransferToBuy { owner, product_id, amount, target_account, order_data } => transfer_to_buy_effects(
            s0,
            ctx,
            owner,
            product_id,
            amount,
            target_account,
            order_data.deep_view(),
            s1,
            r,
        ),
        Operation::ReadDataBlob { hash } => read_data_blob_effects(s0, hash@, s1, r),
        Operation::SetSubscriptionPrice { price, description } => set_subscription_price_effects(
            s0,
            ctx,
            price,
            description.deep_view(),
            s1,
            r,
        ),
        Operation::DeleteSubscriptionPrice => delete_subscription_price_effects(s0, ctx, s1, r),
        Operation::SubscribeToAuthor { owner, amount, target_account } => subscribe_to_author_effects(
            s0,
            ctx,
            owner,
            amount,
            target_account,
            s1,
            r,
        ),
        Operation::CreatePost {
            title,
            content,
            image_hash,
            poll_options,
            poll_end_timestamp,
            giveaway_prize,
            giveaway_end_timestamp,
        } => create_post_effects(
            s0,
            ctx,
            title@,
            content@,
            image_hash.deep_view(),
            poll_options.deep_view(),
            poll_end_timestamp,
            giveaway_prize,
            giveaway_end_timestamp,
            s1,
            r,
        ),
        Operation::UpdatePost { post_id, title, content, image_hash } => update_post_effects(
            s0,
            ctx,
            post_id,
            title.deep_view(),
            content.deep_view(),
            image_hash.deep_view(),
            s1,
            r,
        ),
        Operation::DeletePost { post_id } => delete_post_effects(s0, ctx, post_id, s1, r),
        Operation::CastVote { author_chain_id, author, post_id, option_index } => cast_vote_effects(
            s0,
            ctx,
            author_chain_id,
            author,
            post_id,
            option_index,
            s1,
            r,
        ),
        Operation::ParticipateInGiveaway { author_chain_id, author, post_id } => participate_effects(
            s0,
            ctx,
            author_chain_id,
            author,
            post_id,
            s1,
            r,
        ),
        Operation::ResolveGiveaway { post_id } => resolve_giveaway_effects(s0, ctx, post_id, s1, r),
    }
}

/// Executes one caller-submitted operation: validate, mutate the store,
/// append events, and decide the message fan-out.  A failure surfaces to
/// the caller and leaves the store exactly as it was.
pub fn execute_operation(store: &mut Store, ctx: ExecContext, op: Operation) -> (r: Result<
    Outcome,
    DonationsError,
>)
    requires
        old(store).inv(),
        old(store).donation_counter < u64::MAX,
        ctx.time_micros + THIRTY_DAYS_MICROS <= u64::MAX,
    ensures
        final(store).inv(),
        operation_effects(*old(store), ctx, op, *final(store), result_model(r)),
{
    match op {
        Operation::Transfer { owner, amount, target_account, text_message } => op_transfer(
            store,
            ctx,
            owner,
            amount,
            target_account,
            text_message,
        ),
        Operation::Withdraw => op_withdraw(store, ctx),
        Operation::Mint { owner, amount } => op_mint(store, ctx, owner, amount),
        Operation::UpdateProfile { name, bio, socials, avatar_hash, header_hash } => op_update_profile(
            store,
            ctx,
            name,
            bio,
            socials,
            avatar_hash,
            header_hash,
        ),
        Operation::Register { main_chain_id, name, bio, socials, avatar_hash, header_hash } => op_register(
            store,
            ctx,
            main_chain_id,
            name,
            bio,
            socials,
            avatar_hash,
            header_hash,
        ),
        Operation::SetAvatar { hash } => op_set_avatar(store, ctx, hash),
        Operation::SetHeader { hash } => op_set_header(store, ctx, hash),
        Operation::GetProfile { owner } => op_get_profile(store, owner),
        Operation::GetDonationsByRecipient { owner } => op_get_donations_by_recipient(
            store,
            owner,
        ),
        Operation::GetDonationsByDonor { owner } => op_get_donations_by_donor(store, owner),
        Operation::CreateProduct { public_data, price, private_data, success_message, order_form } => op_create_product(
            store,
            ctx,
            public_data,
            price,
            private_data,
            success_message,
            order_form,
        ),
        Operation::UpdateProduct { product_id, public_data, price, private_data, success_message, order_form } => op_update_product(
            store,
            ctx,
            product_id,
            public_data,
            price,
            private_data,
            success_message,
            order_form,
        ),
        Operation::DeleteProduct { product_id } => op_delete_product(store, ctx, product_id),
        Operation::TransferToBuy { owner, product_id, amount, target_account, order_data } => op_transfer_to_buy(
            store,
            ctx,
            owner,
            product_id,
            amount,
            target_account,
            order_data,
        ),
        Operation::ReadDataBlob { hash } => op_read_data_blob(store, hash),
        Operation::SetSubscriptionPrice { price, description } => op_set_subscription_price(
            store,
            ctx,
            price,
            description,
        ),
        Operation::DeleteSubscriptionPrice => op_delete_subscription_price(store, ctx),
        Operation::SubscribeToAuthor { owner, amount, target_account } => op_subscribe_to_author(
            store,
            ctx,
            owner,
            amount,
            target_account,
        ),
        Operation::CreatePost {
            title,
            content,
            image_hash,
            poll_options,
            poll_end_timestamp,
            giveaway_prize,
            giveaway_end_timestamp,
        } => op_create_post(
            store,
            ctx,
            title,
            content,
            image_hash,
            poll_options,
            poll_end_timestamp,
            giveaway_prize,
            giveaway_end_timestamp,
        ),
        Operation::UpdatePost { post_id, title, content, image_hash } => op_update_post(
            store,
            ctx,
            post_id,
            title,
            content,
            image_hash,
        ),
        Operation::DeletePost { post_id } => op_delete_post(store, ctx, post_id),
        Operation::CastVote { author_chain_id, author, post_id, option_index } => op_cast_vote(
            store,
            ctx,
            author_chain_id,
            author,
            post_id,
            option_index,
        ),
        Operation::ParticipateInGiveaway { author_chain_id, author, post_id } => op_participate_in_giveaway(
            store,
            ctx,
            author_chain_id,
            author,
            post_id,
        ),
        Operation::ResolveGiveaway { post_id } => op_resolve_giveaway(store, ctx, post_id),
    }
}


/// What one inbound cross-chain message does on the receiving chain, case
/// by case.  Handlers are best effort: a failed or stale message changes
/// nothing and surfaces nothing.
pub open spec fn message_effects(
    s0: Store,
    ctx: ExecContext,
    msg: MessageModel,
    s1: Store,
    out: OutcomeModel,
) -> bool {
    let ts = ctx.time_micros;
    match msg {
        MessageModel::Notify => s1 == s0 && out == quiet_outcome(ResponseDataModel::Done),
        MessageModel::TransferWithMessage { owner, amount, text_message, source_chain_id, source_owner } => {
            let id = (s0.donation_counter + 1) as u64;
            let rec = DonationRecordModel {
                id,
                timestamp: ts,
                from: source_owner,
                to: owner,
                amount,
                message: text_message,
                source_chain_id: Some(source_chain_id),
                to_chain_id: Some(ctx.chain_id),
            };
            &&& s1.donations_model() == s0.donations_model().insert(id, rec)
            &&& s1.donation_counter == id
            &&& out == OutcomeModel {
                response: ResponseDataModel::Done,
                messages: Seq::empty(),
                events: seq![
                    EventModel::DonationSent {
                        id,
                        from: source_owner,
                        to: owner,
                        amount,
                        message: text_message,
                        source_chain_id: Some(source_chain_id),
                        to_chain_id: Some(ctx.chain_id),
                        timestamp: ts,
                    },
                ],
                actions: Seq::empty(),
            }
            &&& s1.profiles_same(s0)
            &&& s1.registry_same(s0)
            &&& s1.prices_same(s0)
            &&& s1.products_same(s0)
            &&& s1.purchases_same(s0)
            &&& s1.subs_same(s0)
            &&& s1.posts_same(s0)
        },
        MessageModel::Register { source_chain_id, owner, name, bio, socials } => {
            &&& s1.registry_model() == s0.registry_model().insert(owner, source_chain_id)
            &&& (any_profile_update(name, bio, socials, None, None) ==> s1.profiles_model()
                == s0.profiles_model().insert(
                owner,
                profile_after_update(s0.profile_base(owner), name, bio, socials, None, None),
            ))
            &&& (!any_profile_update(name, bio, socials, None, None) ==> s1.profiles_model()
                == s0.profiles_model())
            &&& out == OutcomeModel {
                response: ResponseDataModel::Done,
                messages: Seq::empty(),
                events: Seq::empty(),
                actions: seq![
                    HostActionModel::SubscribeToEvents { chain_id: source_chain_id },
                ],
            }
            &&& s1.donations_same(s0)
            &&& s1.prices_same(s0)
            &&& s1.products_same(s0)
            &&& s1.purchases_same(s0)
            &&& s1.subs_same(s0)
            &&& s1.posts_same(s0)
        },
        MessageModel::ProductCreated { product } => {
            &&& (custom_fields_ok(product.public_data) && custom_fields_ok(product.private_data)
                && order_form_ok(product.order_form) ==> s1.products_model()
                == s0.products_model().insert(product.id, product))
            &&& (!(custom_fields_ok(product.public_data) && custom_fields_ok(product.private_data)
                && order_form_ok(product.order_form)) ==> s1 == s0)
            &&& out == quiet_outcome(ResponseDataModel::Done)
            &&& s1.donations_same(s0)
            &&& s1.profiles_same(s0)
            &&& s1.registry_same(s0)
            &&& s1.prices_same(s0)
            &&& s1.purchases_same(s0)
            &&& s1.subs_same(s0)
            &&& s1.posts_same(s0)
        },
        MessageModel::ProductUpdated { product } => {
            let kept = if s0.products_model().contains_key(product.id)
                && s0.products_model()[product.id].author == product.author {
                s0.products_model().remove(product.id)
            } else {
                s0.products_model()
            };
            &&& (custom_fields_ok(product.public_data) && custom_fields_ok(product.private_data)
                && order_form_ok(product.order_form) ==> s1.products_model() == kept.insert(
                product.id,
                product,
            ))
            &&& (!(custom_fields_ok(product.public_data) && custom_fields_ok(product.private_data)
                && order_form_ok(product.order_form)) ==> s1.products_model() == kept)
            &&& out == quiet_outcome(ResponseDataModel::Done)
            &&& s1.donations_same(s0)
            &&& s1.profiles_same(s0)
            &&& s1.registry_same(s0)
            &&& s1.prices_same(s0)
            &&& s1.purchases_same(s0)
            &&& s1.subs_same(s0)
            &&& s1.posts_same(s0)
        },
        MessageModel::ProductDeleted { product_id, author } => {
            &&& (s0.products_model().contains_key(product_id) && s0.products_model()[
                product_id].author == author ==> s1.products_model() == s0.products_model().remove(
                product_id,
            ))
            &&& (!(s0.products_model().contains_key(product_id) && s0.products_model()[
                product_id].author == author) ==> s1 == s0)
            &&& out == quiet_outcome(ResponseDataModel::Done)
            &&& s1.donations_same(s0)
            &&& s1.profiles_same(s0)
            &&& s1.registry_same(s0)
            &&& s1.prices_same(s0)
            &&& s1.purchases_same(s0)
            &&& s1.subs_same(s0)
            &&& s1.posts_same(s0)
        },
        MessageModel::ProductPurchased { purchase_id, product_id, buyer, buyer_chain_id, seller, amount, order_data } => {
            if s0.products_model().contains_key(product_id) && s0.products_model()[
                product_id].price == amount && field_keys_unique(order_data) {
                let product = s0.products_model()[product_id];
                let purchase = crate::types::PurchaseModel {
                    id: purchase_id,
                    product_id,
                    buyer,
                    buyer_chain_id,
                    seller,
                    seller_chain_id: product.author_chain_id,
                    amount,
                    timestamp: ts,
                    order_data,
                    product,
                };
                &&& s1.purchases_model() == s0.purchases_model().insert(purchase_id, purchase)
                &&& out == OutcomeModel {
                    response: ResponseDataModel::Done,
                    messages: seq![
                        OutgoingMessageModel {
                            destination: buyer_chain_id,
                            message: MessageModel::SendProductData {
                                buyer,
                                purchase_id,
                                product,
                                order_data,
                            },
                        },
                    ],
                    events: seq![
                        EventModel::ProductPurchased {
                            purchase_id,
                            product_id,
                            buyer,
                            seller,
                            amount,
                            timestamp: ts,
                        },
                    ],
                    actions: Seq::empty(),
                }
                &&& s1.donations_same(s0)
                &&& s1.profiles_same(s0)
                &&& s1.registry_same(s0)
                &&& s1.prices_same(s0)
                &&& s1.products_same(s0)
                &&& s1.subs_same(s0)
                &&& s1.posts_same(s0)
            } else {
                s1 == s0 && out == quiet_outcome(ResponseDataModel::Done)
            }
        },
        MessageModel::SendProductData { buyer, purchase_id, product, order_data } => {
            if field_keys_unique(order_data) && field_keys_unique(product.public_data)
                && field_keys_unique(product.private_data) {
                let purchase = crate::types::PurchaseModel {
                    id: purchase_id,
                    product_id: product.id,
                    buyer,
                    buyer_chain_id: ctx.chain_id,
                    seller: product.author,
                    seller_chain_id: product.author_chain_id,
                    amount: product.price,
                    timestamp: ts,
                    order_data,
                    product,
                };
                &&& s1.purchases_model() == s0.purchases_model().insert(purchase_id, purchase)
                &&& out == quiet_outcome(ResponseDataModel::Done)
                &&& s1.donations_same(s0)
                &&& s1.profiles_same(s0)
                &&& s1.registry_same(s0)
                &&& s1.prices_same(s0)
                &&& s1.products_same(s0)
                &&& s1.subs_same(s0)
                &&& s1.posts_same(s0)
            } else {
                s1 == s0 && out == quiet_outcome(ResponseDataModel::Done)
            }
        },
        MessageModel::OrderReceived { purchase_id, product_id, buyer, buyer_chain_id, amount, order_data, timestamp } => {
            if s0.products_model().contains_key(product_id) && field_keys_unique(order_data) {
                let product = s0.products_model()[product_id];
                let purchase = crate::types::PurchaseModel {
                    id: purchase_id,
                    product_id,
                    buyer,
                    buyer_chain_id,
                    seller: product.author,
                    seller_chain_id: product.author_chain_id,
                    amount,
                    timestamp,
                    order_data,
                    product,
                };
                &&& s1.purchases_model() == s0.purchases_model().insert(purchase_id, purchase)
                &&& out == OutcomeModel {
                    response: ResponseDataModel::Done,
                    messages: Seq::empty(),
                    events: seq![
                        EventModel::OrderPlaced {
                            purchase_id,
                            product_id,
                            buyer,
                            seller: product.author,
                            amount,
                            timestamp,
                        },
                    ],
                    actions: Seq::empty(),
                }
                &&& s1.donations_same(s0)
                &&& s1.profiles_same(s0)
                &&& s1.registry_same(s0)
                &&& s1.prices_same(s0)
                &&& s1.products_same(s0)
                &&& s1.subs_same(s0)
                &&& s1.posts_same(s0)
            } else {
                s1 == s0 && out == quiet_outcome(ResponseDataModel::Done)
            }
        },
        MessageModel::SubscriptionPayment { subscriber, subscriber_chain_id, author, amount, duration_micros, timestamp } => {
            if timestamp + duration_micros <= u64::MAX {
                let end = (timestamp + duration_micros) as u64;
                let sub = crate::types::ContentSubscription {
                    id: SubscriptionId { subscriber, author, created_at: timestamp },
                    subscriber,
                    subscriber_chain_id,
                    author,
                    author_chain_id: ctx.chain_id,
                    start_timestamp: timestamp,
                    end_timestamp: end,
                    price: amount,
                };
                &&& s1.subs_model() == s0.subs_model().insert(sub.id, sub)
                &&& out == OutcomeModel {
                    response: ResponseDataModel::Done,
                    messages: Seq::empty(),
                    events: seq![
                        EventModel::UserSubscribed {
                            subscription_id: sub.id,
                            subscriber,
                            author,
                            price: amount,
                            end_timestamp: end,
                            timestamp,
                        },
                    ],
                    actions: Seq::empty(),
                }
                &&& s1.donations_same(s0)
                &&& s1.profiles_same(s0)
                &&& s1.registry_same(s0)
                &&& s1.prices_same(s0)
                &&& s1.products_same(s0)
                &&& s1.purchases_same(s0)
                &&& s1.posts_same(s0)
            } else {
                s1 == s0 && out == quiet_outcome(ResponseDataModel::Done)
            }
        },
        MessageModel::PostPublished { post } => {
            &&& s1.posts_model() == s0.posts_model().insert(post.id, post)
            &&& out == quiet_outcome(ResponseDataModel::Done)
            &&& s1.donations_same(s0)
            &&& s1.profiles_same(s0)
            &&& s1.registry_same(s0)
            &&& s1.prices_same(s0)
            &&& s1.products_same(s0)
            &&& s1.purchases_same(s0)
            &&& s1.subs_same(s0)
        },
        MessageModel::PostUpdated { post } => {
            &&& (s0.posts_model().contains_key(post.id) ==> s1.posts_model()
                == s0.posts_model().insert(
                post.id,
                crate::posts::post_with_updates(
                    s0.posts_model()[post.id],
                    Some(post.title),
                    Some(post.content),
                    post.image_hash,
                ),
            ))
            &&& (!s0.posts_model().contains_key(post.id) ==> s1 == s0)
            &&& out == quiet_outcome(ResponseDataModel::Done)
            &&& s1.donations_same(s0)
            &&& s1.profiles_same(s0)
            &&& s1.registry_same(s0)
            &&& s1.prices_same(s0)
            &&& s1.products_same(s0)
            &&& s1.purchases_same(s0)
            &&& s1.subs_same(s0)
        },
        MessageModel::PostDeleted { post_id, author } => {
            &&& (s0.posts_model().contains_key(post_id) && s0.posts_model()[post_id].author
                == author ==> s1.posts_model() == s0.posts_model().remove(post_id))
            &&& (!(s0.posts_model().contains_key(post_id) && s0.posts_model()[post_id].author
                == author) ==> s1 == s0)
            &&& out == quiet_outcome(ResponseDataModel::Done)
            &&& s1.donations_same(s0)
            &&& s1.profiles_same(s0)
            &&& s1.registry_same(s0)
            &&& s1.prices_same(s0)
            &&& s1.products_same(s0)
            &&& s1.purchases_same(s0)
            &&& s1.subs_same(s0)
        },
        MessageModel::VoteCasted { post_id, voter, voter_chain_id, option_index } => {
            if !s0.posts_model().contains_key(post_id) {
                s1 == s0 && out == quiet_outcome(ResponseDataModel::Done)
            } else {
                let author = s0.posts_model()[post_id].author;
                if voter != author && !s0.subscription_valid(voter, author, ts) {
                    s1 == s0 && out == quiet_outcome(ResponseDataModel::Done)
                } else {
                    match s0.posts_model()[post_id].poll {
                        None => s1 == s0 && out == quiet_outcome(ResponseDataModel::Done),
                        Some(poll) => {
                            if (ts > poll.end_timestamp && poll.end_timestamp > 0)
                                || option_index >= poll.options.len() {
                                s1 == s0 && out == quiet_outcome(ResponseDataModel::Done)
                            } else {
                                let new_poll = crate::posts::cast_vote_model(
                                    poll,
                                    voter,
                                    option_index,
                                );
                                &&& s1.posts_model() == s0.posts_model().insert(
                                    post_id,
                                    PostModel {
                                        poll: Some(new_poll),
                                        ..s0.posts_model()[post_id]
                                    },
                                )
                                &&& out == OutcomeModel {
                                    response: ResponseDataModel::Done,
                                    messages: poll_msgs(
                                        active_remote_chains(
                                            s0.subs_model(),
                                            s0.author_subs(author),
                                            ts,
                                            ctx.chain_id,
                                        ),
                                        post_id,
                                        new_poll,
                                    ),
                                    events: seq![
                                        EventModel::VoteCasted {
                                            post_id,
                                            voter,
                                            option_index,
                                            timestamp: ts,
                                        },
                                        EventModel::PollResultsUpdated {
                                            post_id,
                                            poll: new_poll,
                                            timestamp: ts,
                                        },
                                    ],
                                    actions: Seq::empty(),
                                }
                                &&& s1.donations_same(s0)
                                &&& s1.profiles_same(s0)
                                &&& s1.registry_same(s0)
                                &&& s1.prices_same(s0)
                                &&& s1.products_same(s0)
                                &&& s1.purchases_same(s0)
                                &&& s1.subs_same(s0)
                            }
                        },
                    }
                }
            }
        },
        MessageModel::PollResultsUpdated { post_id, poll } => {
            &&& (s0.posts_model().contains_key(post_id) ==> s1.posts_model()
                == s0.posts_model().insert(
                post_id,
                PostModel { poll: Some(poll), ..s0.posts_model()[post_id] },
            ))
            &&& (!s0.posts_model().contains_key(post_id) ==> s1 == s0)
            &&& out == quiet_outcome(ResponseDataModel::Done)
            &&& s1.donations_same(s0)
            &&& s1.profiles_same(s0)
            &&& s1.registry_same(s0)
            &&& s1.prices_same(s0)
            &&& s1.products_same(s0)
            &&& s1.purchases_same(s0)
            &&& s1.subs_same(s0)
        },
        MessageModel::GiveawayParticipation { post_id, participant, participant_chain_id } => {
            let entrant = crate::types::GiveawayParticipant {
                owner: participant,
                chain_id: participant_chain_id,
                joined_at: ts,
            };
            if !s0.posts_model().contains_key(post_id) {
                s1 == s0 && out == quiet_outcome(ResponseDataModel::Done)
            } else {
                let author = s0.posts_model()[post_id].author;
                if participant != author && !s0.subscription_valid(participant, author, ts) {
                    s1 == s0 && out == quiet_outcome(ResponseDataModel::Done)
                } else {
                    match s0.posts_model()[post_id].giveaway {
                        None => s1 == s0 && out == quiet_outcome(ResponseDataModel::Done),
                        Some(g) => {
                            if (ts > g.end_timestamp && g.end_timestamp > 0) || g.is_resolved {
                                s1 == s0 && out == quiet_outcome(ResponseDataModel::Done)
                            } else {
                                let new_g = crate::posts::join_giveaway_model(g, entrant);
                                &&& s1.posts_model() == s0.posts_model().insert(
                                    post_id,
                                    PostModel {
                                        giveaway: Some(new_g),
                                        ..s0.posts_model()[post_id]
                                    },
                                )
                                &&& out == OutcomeModel {
                                    response: ResponseDataModel::Done,
                                    messages: giveaway_msgs(
                                        active_remote_chains(
                                            s0.subs_model(),
                                            s0.author_subs(author),
                                            ts,
                                            ctx.chain_id,
                                        ),
                                        post_id,
                                        new_g,
                                    ),
                                    events: seq![
                                        EventModel::GiveawayParticipated {
                                            post_id,
                                            participant,
                                            timestamp: ts,
                                        },
                                    ],
                                    actions: Seq::empty(),
                                }
                                &&& s1.donations_same(s0)
                                &&& s1.profiles_same(s0)
                                &&& s1.registry_same(s0)
                                &&& s1.prices_same(s0)
                                &&& s1.products_same(s0)
                                &&& s1.purchases_same(s0)
                                &&& s1.subs_same(s0)
                            }
                        },
                    }
                }
            }
        },
        MessageModel::GiveawayUpdated { post_id, giveaway } => {
            &&& (s0.posts_model().contains_key(post_id) ==> s1.posts_model()
                == s0.posts_model().insert(
                post_id,
                PostModel { giveaway: Some(giveaway), ..s0.posts_model()[post_id] },
            ))
            &&& (!s0.posts_model().contains_key(post_id) ==> s1 == s0)
            &&& out == quiet_outcome(ResponseDataModel::Done)
            &&& s1.donations_same(s0)
            &&& s1.profiles_same(s0)
            &&& s1.registry_same(s0)
            &&& s1.prices_same(s0)
            &&& s1.products_same(s0)
            &&& s1.purchases_same(s0)
            &&& s1.subs_same(s0)
        },
    }
}


/// Handles one inbound message from another chain, best effort: a failed
/// or stale message changes nothing and surfaces nothing, so one bad
/// message cannot halt the rest of the batch.
#[verifier::rlimit(100)]
pub fn execute_message(store: &mut Store, ctx: ExecContext, msg: Message) -> (out: Outcome)
    requires
        old(store).inv(),
        old(store).donation_counter < u64::MAX,
    ensures
        final(store).inv(),
        message_effects(*old(store), ctx, msg.deep_view(), *final(store), out.deep_view()),
{
    let ts = ctx.time_micros;
    let mut messages: Vec<OutgoingMessage> = Vec::new();
    let mut events: Vec<DonationsEvent> = Vec::new();
    let mut actions: Vec<HostAction> = Vec::new();
    match msg {
        Message::Notify => {},
        Message::TransferWithMessage { owner, amount, text_message, source_chain_id, source_owner } => {
            let ghost text = text_message.deep_view();
            let event_message = dup_opt_string(&text_message);
            let id = store.record_donation(
                source_owner,
                owner,
                amount,
                text_message,
                Some(source_chain_id),
                Some(ctx.chain_id),
                ts,
            );
            push_event(
                &mut events,
                DonationsEvent::DonationSent {
                    id,
                    from: source_owner,
                    to: owner,
                    amount,
                    message: event_message,
                    source_chain_id: Some(source_chain_id),
                    to_chain_id: Some(ctx.chain_id),
                    timestamp: ts,
                },
            );
            proof {
                assert(events.deep_view() =~= seq![
                    EventModel::DonationSent {
                        id,
                        from: source_owner,
                        to: owner,
                        amount,
                        message: text,
                        source_chain_id: Some(source_chain_id),
                        to_chain_id: Some(ctx.chain_id),
                        timestamp: ts,
                    },
                ]);
            }
        },
        Message::Register { source_chain_id, owner, name, bio, socials } => {
            push_action(&mut actions, HostAction::SubscribeToEvents { chain_id: source_chain_id });
            proof {
                broadcast use vstd::laws_eq::group_laws_eq;

            }
            store.subscriptions.insert(owner, source_chain_id);
            proof {
                broadcast use vstd::laws_eq::group_laws_eq;

                crate::store::lemma_same_invs(*old(store), *store);
                assert(store.inv());
            }
            let mut inputs: Vec<SocialLinkInput> = Vec::new();
            let ghost socialsv = socials.deep_view();
            let n = socials.len();
            let mut j: usize = 0;
            while j < n
                invariant
                    n == socials@.len(),
                    socials.deep_view() == socialsv,
                    j <= n,
                    inputs@.len() == j,
                    forall|t: int|
                        0 <= t < j ==> (#[trigger] inputs@[t]).deep_view() == socialsv[t],
                decreases n - j,
            {
                let s = &socials[j];
                proof {
                    assert(socials@[j as int].deep_view() == socialsv[j as int]);
                }
                inputs.push(SocialLinkInput { name: s.name.clone(), url: s.url.clone() });
                j = j + 1;
            }
            proof {
                assert forall|t: int| 0 <= t < inputs.deep_view().len() implies
                    inputs.deep_view()[t] == socialsv[t] by {
                    assert(inputs@[t].deep_view() == socialsv[t]);
                }
                assert(inputs.deep_view() =~= socialsv);
            }
            let mut scratch: Vec<DonationsEvent> = Vec::new();
            apply_profile_update(store, ctx, owner, name, bio, inputs, None, None, &mut scratch);
            proof {
                assert(actions.deep_view() =~= seq![
                    HostActionModel::SubscribeToEvents { chain_id: source_chain_id },
                ]);
            }
        },
        Message::ProductCreated { product } => {
            let _ = store.create_product(product);
        },
        Message::ProductUpdated { product } => {
            let pid = product.id;
            let author = product.author;
            let _ = store.delete_product(pid, author);
            let ghost mid = *store;
            let _ = store.create_product(product);
            proof {
                let pm = product.deep_view();
                if custom_fields_ok(pm.public_data) && custom_fields_ok(pm.private_data)
                    && order_form_ok(pm.order_form) {
                    if old(store).products_model().contains_key(pid) && old(
                        store,
                    ).products_model()[pid].author == author {
                        assert(mid.products_model() == old(store).products_model().remove(pid));
                    } else {
                        assert(mid.products_model() == old(store).products_model());
                    }
                }
            }
        },
        Message::ProductDeleted { product_id, author } => {
            let _ = store.delete_product(product_id, author);
        },
        Message::ProductPurchased { purchase_id, product_id, buyer, buyer_chain_id, seller, amount, order_data } => {
            match store.get_product(product_id) {
                Some(product) => {
                    if product.price == amount && unique_field_keys(&order_data) {
                        let snapshot = product.duplicate();
                        let answers = dup_pairs(&order_data);
                        push_message(
                            &mut messages,
                            buyer_chain_id,
                            Message::SendProductData { buyer, purchase_id, product, order_data },
                        );
                        let seller_chain_id = snapshot.author_chain_id;
                        let purchase = Purchase {
                            id: purchase_id,
                            product_id,
                            buyer,
                            buyer_chain_id,
                            seller,
                            seller_chain_id,
                            amount,
                            timestamp: ts,
                            order_data: answers,
                            product: snapshot,
                        };
                        store.record_purchase(purchase);
                        push_event(
                            &mut events,
                            DonationsEvent::ProductPurchased {
                                purchase_id,
                                product_id,
                                buyer,
                                seller,
                                amount,
                                timestamp: ts,
                            },
                        );
                        proof {
                            assert(messages.deep_view() =~= seq![
                                OutgoingMessageModel {
                                    destination: buyer_chain_id,
                                    message: MessageModel::SendProductData {
                                        buyer,
                                        purchase_id,
                                        product: old(store).products_model()[product_id],
                                        order_data: purchase.order_data.deep_view(),
                                    },
                                },
                            ]);
                            assert(events.deep_view() =~= seq![
                                EventModel::ProductPurchased {
                                    purchase_id,
                                    product_id,
                                    buyer,
                                    seller,
                                    amount,
                                    timestamp: ts,
                                },
                            ]);
                        }
                    }
                },
                None => {},
            }
        },
        Message::SendProductData { buyer, purchase_id, product, order_data } => {
            if unique_field_keys(&order_data) && unique_field_keys(&product.public_data)
                && unique_field_keys(&product.private_data) {
                let seller = product.author;
                let seller_chain_id = product.author_chain_id;
                let amount = product.price;
                let purchase = Purchase {
                    id: purchase_id,
                    product_id: product.id,
                    buyer,
                    buyer_chain_id: ctx.chain_id,
                    seller,
                    seller_chain_id,
                    amount,
                    timestamp: ts,
                    order_data,
                    product,
                };
                store.record_purchase(purchase);
            }
        },
        Message::OrderReceived { purchase_id, product_id, buyer, buyer_chain_id, amount, order_data, timestamp } => {
            match store.get_product(product_id) {
                Some(product) => if unique_field_keys(&order_data) {
                    let seller = product.author;
                    let seller_chain_id = product.author_chain_id;
                    let purchase = Purchase {
                        id: purchase_id,
                        product_id,
                        buyer,
                        buyer_chain_id,
                        seller,
                        seller_chain_id,
                        amount,
                        timestamp,
                        order_data,
                        product,
                    };
                    store.record_purchase(purchase);
                    push_event(
                        &mut events,
                        DonationsEvent::OrderPlaced {
                            purchase_id,
                            product_id,
                            buyer,
                            seller,
                            amount,
                            timestamp,
                        },
                    );
                    proof {
                        assert(events.deep_view() =~= seq![
                            EventModel::OrderPlaced {
                                purchase_id,
                                product_id,
                                buyer,
                                seller,
                                amount,
                                timestamp,
                            },
                        ]);
                    }
                },
                None => {},
            }
        },
        Message::SubscriptionPayment { subscriber, subscriber_chain_id, author, amount, duration_micros, timestamp } => {
            if timestamp <= u64::MAX - duration_micros {
                let end_timestamp = timestamp + duration_micros;
                let sub = crate::types::ContentSubscription {
                    id: SubscriptionId { subscriber, author, created_at: timestamp },
                    subscriber,
                    subscriber_chain_id,
                    author,
                    author_chain_id: ctx.chain_id,
                    start_timestamp: timestamp,
                    end_timestamp,
                    price: amount,
                };
                store.create_subscription(sub);
                push_event(
                    &mut events,
                    DonationsEvent::UserSubscribed {
                        subscription_id: sub.id,
                        subscriber,
                        author,
                        price: amount,
                        end_timestamp,
                        timestamp,
                    },
                );
                proof {
                    assert(events.deep_view() =~= seq![
                        EventModel::UserSubscribed {
                            subscription_id: sub.id,
                            subscriber,
                            author,
                            price: amount,
                            end_timestamp,
                            timestamp,
                        },
                    ]);
                }
            }
        },
        Message::PostPublished { post } => {
            store.create_post(post);
        },
        Message::PostUpdated { post } => {
            let _ = store.update_post(
                post.id,
                Some(post.title),
                Some(post.content),
                post.image_hash,
            );
        },
        Message::PostDeleted { post_id, author } => {
            let _ = store.delete_post(post_id, author);
        },
        Message::VoteCasted { post_id, voter, voter_chain_id, option_index } => {
            match store.get_post(post_id) {
                None => {},
                Some(post) => {
                    let author = post.author;
                    let allowed = voter == author || store.check_subscription_valid(
                        voter,
                        author,
                        ts,
                    );
                    if allowed {
                        match store.cast_vote(post_id, voter, option_index, ts) {
                            Ok(updated_poll) => {
                                push_event(
                                    &mut events,
                                    DonationsEvent::VoteCasted {
                                        post_id,
                                        voter,
                                        option_index,
                                        timestamp: ts,
                                    },
                                );
                                push_event(
                                    &mut events,
                                    DonationsEvent::PollResultsUpdated {
                                        post_id,
                                        poll: updated_poll.duplicate(),
                                        timestamp: ts,
                                    },
                                );
                                let chains = collect_active_remote_chains(
                                    store,
                                    author,
                                    ts,
                                    ctx.chain_id,
                                );
                                push_poll_msgs(&mut messages, &chains, post_id, &updated_poll);
                                proof {
                                    assert(events.deep_view() =~= seq![
                                        EventModel::VoteCasted {
                                            post_id,
                                            voter,
                                            option_index,
                                            timestamp: ts,
                                        },
                                        EventModel::PollResultsUpdated {
                                            post_id,
                                            poll: updated_poll.deep_view(),
                                            timestamp: ts,
                                        },
                                    ]);
                                    assert(messages.deep_view()
                                        =~= Seq::<OutgoingMessageModel>::empty() + poll_msgs(
                                        chains@,
                                        post_id,
                                        updated_poll.deep_view(),
                                    ));
                                }
                            },
                            Err(_) => {},
                        }
                    }
                },
            }
        },
        Message::PollResultsUpdated { post_id, poll } => {
            let _ = store.update_poll_results(post_id, poll);
        },
        Message::GiveawayParticipation { post_id, participant, participant_chain_id } => {
            match store.get_post(post_id) {
                None => {},
                Some(post) => {
                    let author = post.author;
                    let allowed = participant == author || store.check_subscription_valid(
                        participant,
                        author,
                        ts,
                    );
                    if allowed {
                        let entrant = crate::types::GiveawayParticipant {
                            owner: participant,
                            chain_id: participant_chain_id,
                            joined_at: ts,
                        };
                        match store.add_giveaway_participant(post_id, entrant, ts) {
                            Ok(updated_g) => {
                                push_event(
                                    &mut events,
                                    DonationsEvent::GiveawayParticipated {
                                        post_id,
                                        participant,
                                        timestamp: ts,
                                    },
                                );
                                let chains = collect_active_remote_chains(
                                    store,
                                    author,
                                    ts,
                                    ctx.chain_id,
                                );
                                push_giveaway_msgs(&mut messages, &chains, post_id, &updated_g);
                                proof {
                                    assert(events.deep_view() =~= seq![
                                        EventModel::GiveawayParticipated {
                                            post_id,
                                            participant,
                                            timestamp: ts,
                                        },
                                    ]);
                                    assert(messages.deep_view()
                                        =~= Seq::<OutgoingMessageModel>::empty() + giveaway_msgs(
                                        chains@,
                                        post_id,
                                        updated_g.deep_view(),
                                    ));
                                }
                            },
                            Err(_) => {},
                        }
                    }
                },
            }
        },
        Message::GiveawayUpdated { post_id, giveaway } => {
            let _ = store.update_giveaway(post_id, giveaway);
        },
    }
    let out = Outcome { response: ResponseData::Done, messages, events, actions };
    proof {
        assert(out.deep_view().messages =~= Seq::<OutgoingMessageModel>::empty()
            + out.deep_view().messages);
        assert(out.deep_view().events =~= Seq::<EventModel>::empty() + out.deep_view().events);
        assert(out.deep_view().actions =~= Seq::<HostActionModel>::empty()
            + out.deep_view().actions);
    }
    out
}


/// What replaying one subscribed-stream event does on the mirroring chain:
/// it re-applies the carried fact through the same lifecycle rules the
/// direct messages use, mutating the store only — replay emits no events,
/// no messages and no actions.  Stale or unmatched facts change nothing.
pub open spec fn event_replay_effects(
    s0: Store,
    ctx: ExecContext,
    ev: EventModel,
    s1: Store,
) -> bool {
    match ev {
        EventModel::ProfileNameUpdated { owner, name, timestamp } => {
            &&& s1.profiles_model() == s0.profiles_model().insert(
                owner,
                ProfileModel { name: coerced_name(name), ..s0.profile_base(owner) },
            )
            &&& s1.donations_same(s0)
            &&& s1.registry_same(s0)
            &&& s1.prices_same(s0)
            &&& s1.products_same(s0)
            &&& s1.purchases_same(s0)
            &&& s1.subs_same(s0)
            &&& s1.posts_same(s0)
        },
        EventModel::ProfileBioUpdated { owner, bio, timestamp } => {
            &&& s1.profiles_model() == s0.profiles_model().insert(
                owner,
                ProfileModel { bio, ..s0.profile_base(owner) },
            )
            &&& s1.donations_same(s0)
            &&& s1.registry_same(s0)
            &&& s1.prices_same(s0)
            &&& s1.products_same(s0)
            &&& s1.purchases_same(s0)
            &&& s1.subs_same(s0)
            &&& s1.posts_same(s0)
        },
        EventModel::ProfileSocialUpdated { owner, name, url, timestamp } => {
            &&& s1.profiles_model() == s0.profiles_model().insert(
                owner,
                ProfileModel {
                    socials: upsert_social(s0.profile_base(owner).socials, name, url),
                    ..s0.profile_base(owner)
                },
            )
            &&& s1.donations_same(s0)
            &&& s1.registry_same(s0)
            &&& s1.prices_same(s0)
            &&& s1.products_same(s0)
            &&& s1.purchases_same(s0)
            &&& s1.subs_same(s0)
            &&& s1.posts_same(s0)
        },
        EventModel::ProfileAvatarUpdated { owner, hash, timestamp } => {
            &&& s1.profiles_model() == s0.profiles_model().insert(
                owner,
                ProfileModel { avatar_hash: Some(hash), ..s0.profile_base(owner) },
            )
            &&& s1.donations_same(s0)
            &&& s1.registry_same(s0)
            &&& s1.prices_same(s0)
            &&& s1.products_same(s0)
            &&& s1.purchases_same(s0)
            &&& s1.subs_same(s0)
            &&& s1.posts_same(s0)
        },
        EventModel::ProfileHeaderUpdated { owner, hash, timestamp } => {
            &&& s1.profiles_model() == s0.profiles_model().insert(
                owner,
                ProfileModel { header_hash: Some(hash), ..s0.profile_base(owner) },
            )
            &&& s1.donations_same(s0)
            &&& s1.registry_same(s0)
            &&& s1.prices_same(s0)
            &&& s1.products_same(s0)
            &&& s1.purchases_same(s0)
            &&& s1.subs_same(s0)
            &&& s1.posts_same(s0)
        },
        EventModel::DonationSent { id, from, to, amount, message, source_chain_id, to_chain_id, timestamp } => {
            if s0.donation_counter < u64::MAX {
                let new_id = (s0.donation_counter + 1) as u64;
                &&& s1.donation_counter == new_id
                &&& s1.donations_model() == s0.donations_model().insert(
                    new_id,
                    DonationRecordModel {
                        id: new_id,
                        timestamp,
                        from,
                        to,
                        amount,
                        message,
                        source_chain_id,
                        to_chain_id,
                    },
                )
                &&& s1.profiles_same(s0)
                &&& s1.registry_same(s0)
                &&& s1.prices_same(s0)
                &&& s1.products_same(s0)
                &&& s1.purchases_same(s0)
                &&& s1.subs_same(s0)
                &&& s1.posts_same(s0)
            } else {
                s1 == s0
            }
        },
        EventModel::ProductCreated { product, timestamp } => {
            &&& (custom_fields_ok(product.public_data) && custom_fields_ok(product.private_data)
                && order_form_ok(product.order_form) ==> s1.products_model()
                == s0.products_model().insert(product.id, product))
            &&& (!(custom_fields_ok(product.public_data) && custom_fields_ok(product.private_data)
                && order_form_ok(product.order_form)) ==> s1 == s0)
            &&& s1.donations_same(s0)
            &&& s1.profiles_same(s0)
            &&& s1.registry_same(s0)
            &&& s1.prices_same(s0)
            &&& s1.purchases_same(s0)
            &&& s1.subs_same(s0)
            &&& s1.posts_same(s0)
        },
        EventModel::ProductUpdated { product, timestamp } => {
            let kept = if s0.products_model().contains_key(product.id)
                && s0.products_model()[product.id].author == product.author {
                s0.products_model().remove(product.id)
            } else {
                s0.products_model()
            };
            &&& (custom_fields_ok(product.public_data) && custom_fields_ok(product.private_data)
                && order_form_ok(product.order_form) ==> s1.products_model() == kept.insert(
                product.id,
                product,
            ))
            &&& (!(custom_fields_ok(product.public_data) && custom_fields_ok(product.private_data)
                && order_form_ok(product.order_form)) ==> s1.products_model() == kept)
            &&& s1.donations_same(s0)
            &&& s1.profiles_same(s0)
            &&& s1.registry_same(s0)
            &&& s1.prices_same(s0)
            &&& s1.purchases_same(s0)
            &&& s1.subs_same(s0)
            &&& s1.posts_same(s0)
        },
        EventModel::ProductDeleted { product_id, author, timestamp } => {
            &&& (s0.products_model().contains_key(product_id) && s0.products_model()[
                product_id].author == author ==> s1.products_model() == s0.products_model().remove(
                product_id,
            ))
            &&& (!(s0.products_model().contains_key(product_id) && s0.products_model()[
                product_id].author == author) ==> s1 == s0)
            &&& s1.donations_same(s0)
            &&& s1.profiles_same(s0)
            &&& s1.registry_same(s0)
            &&& s1.prices_same(s0)
            &&& s1.purchases_same(s0)
            &&& s1.subs_same(s0)
            &&& s1.posts_same(s0)
        },
        EventModel::ProductPurchased { purchase_id, product_id, buyer, seller, amount, timestamp } => {
            if s0.products_model().contains_key(product_id) {
                let product = s0.products_model()[product_id];
                let purchase = crate::types::PurchaseModel {
                    id: purchase_id,
                    product_id,
                    buyer,
                    buyer_chain_id: ctx.chain_id,
                    seller,
                    seller_chain_id: product.author_chain_id,
                    amount,
                    timestamp,
                    order_data: Seq::empty(),
                    product,
                };
                &&& s1.purchases_model() == s0.purchases_model().insert(purchase_id, purchase)
                &&& s1.donations_same(s0)
                &&& s1.profiles_same(s0)
                &&& s1.registry_same(s0)
                &&& s1.prices_same(s0)
                &&& s1.products_same(s0)
                &&& s1.subs_same(s0)
                &&& s1.posts_same(s0)
            } else {
                s1 == s0
            }
        },
        EventModel::OrderPlaced { purchase_id, product_id, buyer, seller, amount, timestamp } => s1
            == s0,
        EventModel::SubscriptionPriceSet { author, price, description, timestamp } => {
            &&& s1.prices_model() == s0.prices_model().insert(
                author,
                SubscriptionInfoModel { author, price, description },
            )
            &&& s1.donations_same(s0)
            &&& s1.profiles_same(s0)
            &&& s1.registry_same(s0)
            &&& s1.products_same(s0)
            &&& s1.purchases_same(s0)
            &&& s1.subs_same(s0)
            &&& s1.posts_same(s0)
        },
        EventModel::SubscriptionPriceDeleted { author, timestamp } => {
            &&& s1.prices_model() == s0.prices_model().remove(author)
            &&& s1.donations_same(s0)
            &&& s1.profiles_same(s0)
            &&& s1.registry_same(s0)
            &&& s1.products_same(s0)
            &&& s1.purchases_same(s0)
            &&& s1.subs_same(s0)
            &&& s1.posts_same(s0)
        },
        EventModel::UserSubscribed { subscription_id, subscriber, author, price, end_timestamp, timestamp } => s1
            == s0,
        EventModel::UserUnsubscribed { subscription_id, subscriber, author, timestamp } => {
            if subscription_id.author == author && subscription_id.subscriber == subscriber {
                &&& s1.subs_model() == s0.subs_model().remove(subscription_id)
                &&& s1.donations_same(s0)
                &&& s1.profiles_same(s0)
                &&& s1.registry_same(s0)
                &&& s1.prices_same(s0)
                &&& s1.products_same(s0)
                &&& s1.purchases_same(s0)
                &&& s1.posts_same(s0)
            } else {
                s1 == s0
            }
        },
        EventModel::PostCreated { post, timestamp } => {
            &&& s1.posts_model() == s0.posts_model().insert(post.id, post)
            &&& s1.donations_same(s0)
            &&& s1.profiles_same(s0)
            &&& s1.registry_same(s0)
            &&& s1.prices_same(s0)
            &&& s1.products_same(s0)
            &&& s1.purchases_same(s0)
            &&& s1.subs_same(s0)
        },
        EventModel::PostUpdated { post, timestamp } => {
            &&& (s0.posts_model().contains_key(post.id) ==> s1.posts_model()
                == s0.posts_model().insert(
                post.id,
                crate::posts::post_with_updates(
                    s0.posts_model()[post.id],
                    Some(post.title),
                    Some(post.content),
                    post.image_hash,
                ),
            ))
            &&& (!s0.posts_model().contains_key(post.id) ==> s1 == s0)
            &&& s1.donations_same(s0)
            &&& s1.profiles_same(s0)
            &&& s1.registry_same(s0)
            &&& s1.prices_same(s0)
            &&& s1.products_same(s0)
            &&& s1.purchases_same(s0)
            &&& s1.subs_same(s0)
        },
        EventModel::PostDeleted { post_id, author, timestamp } => {
            &&& (s0.posts_model().contains_key(post_id) && s0.posts_model()[post_id].author
                == author ==> s1.posts_model() == s0.posts_model().remove(post_id))
            &&& (!(s0.posts_model().contains_key(post_id) && s0.posts_model()[post_id].author
                == author) ==> s1 == s0)
            &&& s1.donations_same(s0)
            &&& s1.profiles_same(s0)
            &&& s1.registry_same(s0)
            &&& s1.prices_same(s0)
            &&& s1.products_same(s0)
            &&& s1.purchases_same(s0)
            &&& s1.subs_same(s0)
        },
        EventModel::VoteCasted { post_id, voter, option_index, timestamp } => s1 == s0,
        EventModel::PollResultsUpdated { post_id, poll, timestamp } => {
            &&& (s0.posts_model().contains_key(post_id) ==> s1.posts_model()
                == s0.posts_model().insert(
                post_id,
                PostModel { poll: Some(poll), ..s0.posts_model()[post_id] },
            ))
            &&& (!s0.posts_model().contains_key(post_id) ==> s1 == s0)
            &&& s1.donations_same(s0)
            &&& s1.profiles_same(s0)
            &&& s1.registry_same(s0)
            &&& s1.prices_same(s0)
            &&& s1.products_same(s0)
            &&& s1.purchases_same(s0)
            &&& s1.subs_same(s0)
        },
        EventModel::GiveawayParticipated { post_id, participant, timestamp } => s1 == s0,
        EventModel::GiveawayResolved { post_id, winner, winner_chain_id, prize_amount, timestamp } => s1
            == s0,
    }
}

/// Applies one replayed event to the local store.
#[verifier::rlimit(100)]
pub fn apply_replayed_event(store: &mut Store, ctx: ExecContext, ev: DonationsEvent)
    requires
        old(store).inv(),
    ensures
        final(store).inv(),
        event_replay_effects(*old(store), ctx, ev.deep_view(), *final(store)),
{
    match ev {
        DonationsEvent::ProfileNameUpdated { owner, name, timestamp } => {
            store.set_name(owner, name);
        },
        DonationsEvent::ProfileBioUpdated { owner, bio, timestamp } => {
            store.set_bio(owner, bio);
        },
        DonationsEvent::ProfileSocialUpdated { owner, name, url, timestamp } => {
            store.set_social(owner, name, url);
        },
        DonationsEvent::ProfileAvatarUpdated { owner, hash, timestamp } => {
            store.set_avatar(owner, hash);
        },
        DonationsEvent::ProfileHeaderUpdated { owner, hash, timestamp } => {
            store.set_header(owner, hash);
        },
        DonationsEvent::DonationSent { id, from, to, amount, message, source_chain_id, to_chain_id, timestamp } => {
            if store.donation_counter < u64::MAX {
                let _ = store.record_donation(
                    from,
                    to,
                    amount,
                    message,
                    source_chain_id,
                    to_chain_id,
                    timestamp,
                );
            }
        },
        DonationsEvent::ProductCreated { product, timestamp } => {
            let _ = store.create_product(product);
        },
        DonationsEvent::ProductUpdated { product, timestamp } => {
            let pid = product.id;
            let author = product.author;
            let _ = store.delete_product(pid, author);
            let ghost mid = *store;
            let _ = store.create_product(product);
            proof {
                let pm = product.deep_view();
                if custom_fields_ok(pm.public_data) && custom_fields_ok(pm.private_data)
                    && order_form_ok(pm.order_form) {
                    if old(store).products_model().contains_key(pid) && old(
                        store,
                    ).products_model()[pid].author == author {
                        assert(mid.products_model() == old(store).products_model().remove(pid));
                    } else {
                        assert(mid.products_model() == old(store).products_model());
                    }
                }
            }
        },
        DonationsEvent::ProductDeleted { product_id, author, timestamp } => {
            let _ = store.delete_product(product_id, author);
        },
        DonationsEvent::ProductPurchased { purchase_id, product_id, buyer, seller, amount, timestamp } => {
            match store.get_product(product_id) {
                Some(product) => {
                    let seller_chain_id = product.author_chain_id;
                    let purchase = Purchase {
                        id: purchase_id,
                        product_id,
                        buyer,
                        buyer_chain_id: ctx.chain_id,
                        seller,
                        seller_chain_id,
                        amount,
                        timestamp,
                        order_data: Vec::new(),
                        product,
                    };
                    proof {
                        assert(purchase.order_data.deep_view() =~= Seq::<(
                            Seq<char>,
                            Seq<char>,
                        )>::empty());
                    }
                    store.record_purchase(purchase);
                },
                None => {},
            }
        },
        DonationsEvent::OrderPlaced { .. } => {},
        DonationsEvent::SubscriptionPriceSet { author, price, description, timestamp } => {
            store.set_subscription_price(author, price, description);
        },
        DonationsEvent::SubscriptionPriceDeleted { author, timestamp } => {
            store.delete_subscription_info(author);
        },
        DonationsEvent::UserSubscribed { .. } => {},
        DonationsEvent::UserUnsubscribed { subscription_id, subscriber, author, timestamp } => {
            let _ = store.remove_subscription(subscription_id, author, subscriber);
        },
        DonationsEvent::PostCreated { post, timestamp } => {
            store.create_post(post);
        },
        DonationsEvent::PostUpdated { post, timestamp } => {
            let _ = store.update_post(
                post.id,
                Some(post.title),
                Some(post.content),
                post.image_hash,
            );
        },
        DonationsEvent::PostDeleted { post_id, author, timestamp } => {
            let _ = store.delete_post(post_id, author);
        },
        DonationsEvent::VoteCasted { .. } => {},
        DonationsEvent::PollResultsUpdated { post_id, poll, timestamp } => {
            let _ = store.update_poll_results(post_id, poll);
        },
        DonationsEvent::GiveawayParticipated { .. } => {},
        DonationsEvent::GiveawayResolved { .. } => {},
    }
}

/// A store reachable from another by replaying a run of events, in order.
pub open spec fn replay_events_rel(
    s0: Store,
    ctx: ExecContext,
    events: Seq<EventModel>,
    s1: Store,
) -> bool
    decreases events.len(),
{
    if events.len() == 0 {
        s1 == s0
    } else {
        exists|mid: Store|
            #[trigger] event_replay_effects(s0, ctx, events[0], mid) && replay_events_rel(
                mid,
                ctx,
                events.skip(1),
                s1,
            )
    }
}

/// Extending a replay run by one event extends the reachability relation.
pub proof fn lemma_replay_events_snoc(
    s0: Store,
    ctx: ExecContext,
    events: Seq<EventModel>,
    mid: Store,
    ev: EventModel,
    s1: Store,
)
    requires
        replay_events_rel(s0, ctx, events, mid),
        event_replay_effects(mid, ctx, ev, s1),
    ensures
        replay_events_rel(s0, ctx, events.push(ev), s1),
    decreases events.len(),
{
    if events.len() == 0 {
        assert(mid == s0);
        assert(events.push(ev)[0] == ev);
        assert(events.push(ev).skip(1) =~= Seq::<EventModel>::empty());
        assert(event_replay_effects(s0, ctx, events.push(ev)[0], s1));
        assert(replay_events_rel(s1, ctx, events.push(ev).skip(1), s1));
    } else {
        let m2 = choose|m2: Store|
            #[trigger] event_replay_effects(s0, ctx, events[0], m2) && replay_events_rel(
                m2,
                ctx,
                events.skip(1),
                mid,
            );
        lemma_replay_events_snoc(m2, ctx, events.skip(1), mid, ev, s1);
        assert(events.push(ev).skip(1) =~= events.skip(1).push(ev));
        assert(events.push(ev)[0] == events[0]);
        assert(event_replay_effects(s0, ctx, events.push(ev)[0], m2));
    }
}

/// A store reachable from another by replaying a run of stream batches:
/// batches from this chain itself are skipped (their facts were already
/// applied locally), and the rest replay their events in order.
pub open spec fn replay_batches_rel(
    s0: Store,
    ctx: ExecContext,
    batches: Seq<crate::protocol::StreamBatchModel>,
    s1: Store,
) -> bool
    decreases batches.len(),
{
    if batches.len() == 0 {
        s1 == s0
    } else if batches[0].source_chain_id == ctx.chain_id {
        replay_batches_rel(s0, ctx, batches.skip(1), s1)
    } else {
        exists|mid: Store|
            #[trigger] replay_events_rel(s0, ctx, batches[0].events, mid) && replay_batches_rel(
                mid,
                ctx,
                batches.skip(1),
                s1,
            )
    }
}

/// Extending a batch run by one batch extends the reachability relation.
pub proof fn lemma_replay_batches_snoc(
    s0: Store,
    ctx: ExecContext,
    batches: Seq<crate::protocol::StreamBatchModel>,
    mid: Store,
    b: crate::protocol::StreamBatchModel,
    s1: Store,
)
    requires
        replay_batches_rel(s0, ctx, batches, mid),
        if b.source_chain_id == ctx.chain_id {
            s1 == mid
        } else {
            replay_events_rel(mid, ctx, b.events, s1)
        },
    ensures
        replay_batches_rel(s0, ctx, batches.push(b), s1),
    decreases batches.len(),
{
    if batches.len() == 0 {
        assert(mid == s0);
        assert(batches.push(b)[0] == b);
        assert(batches.push(b).skip(1) =~= Seq::<crate::protocol::StreamBatchModel>::empty());
        if b.source_chain_id != ctx.chain_id {
            assert(replay_events_rel(s0, ctx, batches.push(b)[0].events, s1));
            assert(replay_batches_rel(s1, ctx, batches.push(b).skip(1), s1));
        } else {
            assert(batches.push(b).skip(1).len() == 0);
            assert(replay_batches_rel(s0, ctx, batches.push(b).skip(1), s1));
        }
    } else {
        assert(batches.push(b)[0] == batches[0]);
        assert(batches.push(b).skip(1) == batches.skip(1).push(b)) by {
            assert(batches.push(b).skip(1) =~= batches.skip(1).push(b));
        }
        if batches[0].source_chain_id == ctx.chain_id {
            lemma_replay_batches_snoc(s0, ctx, batches.skip(1), mid, b, s1);
            assert(replay_batches_rel(s0, ctx, batches.push(b).skip(1), s1));
        } else {
            let m2 = choose|m2: Store|
                #[trigger] replay_events_rel(s0, ctx, batches[0].events, m2)
                    && replay_batches_rel(m2, ctx, batches.skip(1), mid);
            lemma_replay_batches_snoc(m2, ctx, batches.skip(1), mid, b, s1);
            assert(replay_events_rel(s0, ctx, batches.push(b)[0].events, m2));
        }
    }
}

/// Replays the unread slices of every subscribed stream, in order: a slice
/// from this chain itself is skipped, and every other slice's events are
/// applied one by one through the lifecycle rules.  Because the host hands
/// over contiguous, monotone index ranges, replay is exactly-once and
/// gap-free for events emitted after the subscription was established.
pub fn process_streams(store: &mut Store, ctx: ExecContext, batches: Vec<crate::protocol::StreamBatch>)
    requires
        old(store).inv(),
    ensures
        final(store).inv(),
        replay_batches_rel(*old(store), ctx, batches.deep_view(), *final(store)),
{
    let ghost bs = batches.deep_view();
    let n = batches.len();
    let mut i: usize = 0;
    while i < n
        invariant
            store.inv(),
            n == batches@.len(),
            batches.deep_view() == bs,
            i <= n,
            replay_batches_rel(*old(store), ctx, bs.subrange(0, i as int), *store),
        decreases n - i,
    {
        let ghost pre_batch = *store;
        let batch = &batches[i];
        proof {
            assert(batches@[i as int].deep_view() == bs[i as int]);
        }
        if !(batch.source_chain_id == ctx.chain_id) {
            let ghost evs = bs[i as int].events;
            let m = batch.events.len();
            let mut j: usize = 0;
            while j < m
                invariant
                    store.inv(),
                    m == batch.events@.len(),
                    batch.events.deep_view() == evs,
                    j <= m,
                    replay_events_rel(pre_batch, ctx, evs.subrange(0, j as int), *store),
                decreases m - j,
            {
                let ghost pre_ev = *store;
                let ev = batch.events[j].duplicate();
                proof {
                    assert(batch.events@[j as int].deep_view() == evs[j as int]);
                }
                apply_replayed_event(store, ctx, ev);
                proof {
                    lemma_replay_events_snoc(
                        pre_batch,
                        ctx,
                        evs.subrange(0, j as int),
                        pre_ev,
                        evs[j as int],
                        *store,
                    );
                    assert(evs.subrange(0, j as int + 1) =~= evs.subrange(0, j as int).push(
                        evs[j as int],
                    ));
                }
                j = j + 1;
            }
            proof {
                assert(evs.subrange(0, m as int) =~= evs);
                lemma_replay_batches_snoc(
                    *old(store),
                    ctx,
                    bs.subrange(0, i as int),
                    pre_batch,
                    bs[i as int],
                    *store,
                );
                assert(bs.subrange(0, i as int + 1) =~= bs.subrange(0, i as int).push(
                    bs[i as int],
                ));
            }
        } else {
            proof {
                lemma_replay_batches_snoc(
                    *old(store),
                    ctx,
                    bs.subrange(0, i as int),
                    pre_batch,
                    bs[i as int],
                    *store,
                );
                assert(bs.subrange(0, i as int + 1) =~= bs.subrange(0, i as int).push(
                    bs[i as int],
                ));
            }
        }
        i = i + 1;
    }
    proof {
        assert(bs.subrange(0, n as int) =~= bs);
    }
}

} // verus!
