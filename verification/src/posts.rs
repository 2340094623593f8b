//! Post lifecycle rules: create, update, delete, and the dedicated poll and
//! giveaway operations.  A poll and a giveaway are built only at post
//! creation; afterwards they change only through the vote, participation,
//! resolution, and snapshot-replacement operations here, never through a
//! post update.  A poll tally is always recomputed from the full voter map,
//! never incremented, so replaying a vote cannot double count.

use crate::seqs::{lemma_map_values_insert, lemma_map_values_remove, lemma_seq_without, no_dups, seq_without};
use crate::store::{lemma_same_invs, list_of, push_to_list, remove_from_list, Store};
use crate::types::{
    dup_opt_string, dup_participants, dup_voters, Amount, ChainId,
    DonationsError, Giveaway, GiveawayModel, GiveawayParticipant, Owner, Poll, PollModel,
    PollOption, PollOptionModel, Post, PostId, PostModel, POST_ID_HEX_LEN,
};
use vstd::prelude::*;

verus! {

broadcast use vstd::laws_eq::group_laws_eq;

/// The looked-up posts for a sequence of post ids.
pub open spec fn lookup_posts(m: Map<PostId, PostModel>, ids: Seq<PostId>) -> Seq<PostModel> {
    ids.map_values(|i: PostId| m[i])
}

/// The position of a voter's entry in a voter map, or -1 when absent.
pub open spec fn voter_index(vs: Seq<(Owner, usize)>, voter: Owner) -> int
    decreases vs.len(),
{
    if vs.len() == 0 {
        -1
    } else if vs[0].0 == voter {
        0
    } else {
        let r = voter_index(vs.subrange(1, vs.len() as int), voter);
        if r == -1 {
            -1
        } else {
            r + 1
        }
    }
}

pub proof fn lemma_voter_index(vs: Seq<(Owner, usize)>, voter: Owner)
    ensures
        voter_index(vs, voter) == -1 ==> forall|i: int| 0 <= i < vs.len() ==> vs[i].0 != voter,
        voter_index(vs, voter) != -1 ==> {
            let j = voter_index(vs, voter);
            &&& 0 <= j < vs.len()
            &&& vs[j].0 == voter
            &&& forall|i: int| 0 <= i < j ==> vs[i].0 != voter
        },
    decreases vs.len(),
{
    if vs.len() > 0 {
        if vs[0].0 != voter {
            let rest = vs.subrange(1, vs.len() as int);
            lemma_voter_index(rest, voter);
            assert(forall|i: int| 0 <= i < rest.len() ==> rest[i] == vs[i + 1]);
            let r = voter_index(rest, voter);
            if r == -1 {
                assert forall|i: int| 0 <= i < vs.len() implies vs[i].0 != voter by {
                    if i > 0 {
                        assert(rest[i - 1].0 != voter);
                    }
                }
            } else {
                assert(vs[r + 1] == rest[r]);
                assert forall|i: int| 0 <= i < r + 1 implies vs[i].0 != voter by {
                    if i > 0 {
                        assert(rest[i - 1].0 != voter);
                    }
                }
            }
        }
    }
}

/// One vote per voter with last-vote-overwrites: replace the voter's entry
/// or append a new one.
pub open spec fn upsert_voter(vs: Seq<(Owner, usize)>, voter: Owner, ix: usize) -> Seq<
    (Owner, usize),
> {
    let i = voter_index(vs, voter);
    if i == -1 {
        vs.push((voter, ix))
    } else {
        vs.update(i, (voter, ix))
    }
}

/// How many voters chose an option.
pub open spec fn count_votes(vs: Seq<(Owner, usize)>, k: int) -> nat
    decreases vs.len(),
{
    if vs.len() == 0 {
        0
    } else {
        count_votes(vs.drop_last(), k) + if vs.last().1 == k {
            1nat
        } else {
            0nat
        }
    }
}

/// The options with every tally recomputed from the voter map.
pub open spec fn retally(options: Seq<PollOptionModel>, vs: Seq<(Owner, usize)>) -> Seq<
    PollOptionModel,
> {
    Seq::new(
        options.len(),
        |k: int| PollOptionModel { text: options[k].text, votes_count: count_votes(vs, k) as u64 },
    )
}

/// The poll after one vote: the voter's entry inserted or overwritten, and
/// every tally recomputed from the full voter map.
pub open spec fn cast_vote_model(p: PollModel, voter: Owner, ix: usize) -> PollModel {
    let vs = upsert_voter(p.voters, voter, ix);
    PollModel { options: retally(p.options, vs), end_timestamp: p.end_timestamp, voters: vs }
}

/// The giveaway after one join: the entrant appended unless an identical
/// entry is already present.
pub open spec fn join_giveaway_model(g: GiveawayModel, p: GiveawayParticipant) -> GiveawayModel {
    GiveawayModel {
        participants: if g.participants.contains(p) {
            g.participants
        } else {
            g.participants.push(p)
        },
        ..g
    }
}

/// The winner position the resolution formula picks among `n` participants.
pub open spec fn winner_index(now: u64, n: nat) -> int
    recommends
        n > 0,
{
    (now as int + POST_ID_HEX_LEN as int + n) % (n as int)
}

/// The giveaway after resolution: the winner recorded and the giveaway
/// closed.
pub open spec fn resolve_giveaway_model(g: GiveawayModel, now: u64) -> GiveawayModel {
    GiveawayModel {
        winner: Some(g.participants[winner_index(now, g.participants.len())]),
        is_resolved: true,
        ..g
    }
}

/// The model of a post after an update of its text fields; the embedded poll
/// and giveaway never change through an update.
pub open spec fn post_with_updates(
    p: PostModel,
    title: Option<Seq<char>>,
    content: Option<Seq<char>>,
    image_hash: Option<Seq<char>>,
) -> PostModel {
    PostModel {
        title: match title {
            Some(t) => t,
            None => p.title,
        },
        content: match content {
            Some(c) => c,
            None => p.content,
        },
        image_hash: match image_hash {
            Some(h) => Some(h),
            None => p.image_hash,
        },
        ..p
    }
}

impl Store {
    /// Removes a post from the map and from both its index lists, handing
    /// back the stored value.
    pub(crate) fn detach_post(&mut self, id: PostId) -> (r: Option<Post>)
        requires
            old(self).inv(),
        ensures
            final(self).inv(),
            final(self).posts_model() == old(self).posts_model().remove(id),
            r matches Some(p) ==> old(self).posts_model().contains_key(id) && p.deep_view() == old(
                self,
            ).posts_model()[id],
            r is None ==> !old(self).posts_model().contains_key(id),
            forall|x: Owner| #[trigger]
                final(self).author_posts(x) == seq_without(old(self).author_posts(x), id),
            forall|c: ChainId| #[trigger]
                final(self).chain_posts(c) == seq_without(old(self).chain_posts(c), id),
            final(self).donations_same(*old(self)),
            final(self).profiles_same(*old(self)),
            final(self).registry_same(*old(self)),
            final(self).prices_same(*old(self)),
            final(self).products_same(*old(self)),
            final(self).purchases_same(*old(self)),
            final(self).subs_same(*old(self)),
            final(self).donation_counter == old(self).donation_counter,
    {
        let ghost m0 = old(self).posts_model();
        let r = self.posts.remove(&id);
        proof {
            lemma_map_values_remove(old(self).posts@, id, |p: Post| p.deep_view());
            assert(m0.dom() =~= old(self).posts@.dom());
        }
        match r {
            Some(p) => {
                let author = p.author;
                let chain = p.author_chain_id;
                proof {
                    assert(p.deep_view() == m0[id]);
                }
                remove_from_list(&mut self.posts_by_author, author, id);
                remove_from_list(&mut self.posts_by_chain, chain, id);
                proof {
                    lemma_same_invs(*old(self), *self);
                    let m1 = self.posts_model();
                    assert(m1 == m0.remove(id));
                    assert forall|x: Owner| #[trigger]
                        self.author_posts(x) == seq_without(old(self).author_posts(x), id) by {
                        lemma_seq_without(old(self).author_posts(x), id);
                        if x != author {
                            assert(self.author_posts(x) == old(self).author_posts(x));
                            if old(self).author_posts(x).contains(id) {
                                assert(m0[id].author == x);
                                assert(false);
                            }
                        }
                    }
                    assert forall|c: ChainId| #[trigger]
                        self.chain_posts(c) == seq_without(old(self).chain_posts(c), id) by {
                        lemma_seq_without(old(self).chain_posts(c), id);
                        if c != chain {
                            assert(self.chain_posts(c) == old(self).chain_posts(c));
                            if old(self).chain_posts(c).contains(id) {
                                assert(m0[id].author_chain_id == c);
                                assert(false);
                            }
                        }
                    }
                    assert forall|pid: PostId| m1.contains_key(pid) implies {
                        let q = #[trigger] m1[pid];
                        &&& q.id == pid
                        &&& self.author_posts(q.author).contains(pid)
                        &&& self.chain_posts(q.author_chain_id).contains(pid)
                    } by {
                        assert(m0.contains_key(pid) && pid != id);
                        let q = m0[pid];
                        lemma_seq_without(old(self).author_posts(q.author), id);
                        lemma_seq_without(old(self).chain_posts(q.author_chain_id), id);
                        assert(old(self).author_posts(q.author).contains(pid));
                        assert(old(self).chain_posts(q.author_chain_id).contains(pid));
                    }
                    assert forall|x: Owner| #![trigger self.author_posts(x)]
                        {
                            &&& no_dups(self.author_posts(x))
                            &&& forall|j: int|
                                0 <= j < self.author_posts(x).len() ==> m1.contains_key(
                                    #[trigger] self.author_posts(x)[j],
                                ) && m1[self.author_posts(x)[j]].author == x
                        } by {
                        lemma_seq_without(old(self).author_posts(x), id);
                        assert forall|j: int| 0 <= j < self.author_posts(x).len() implies
                            m1.contains_key(#[trigger] self.author_posts(x)[j]) && m1[
                            self.author_posts(x)[j]].author == x by {
                            let pid = self.author_posts(x)[j];
                            assert(old(self).author_posts(x).contains(pid));
                            assert(pid != id);
                        }
                    }
                    assert forall|c: ChainId| #![trigger self.chain_posts(c)]
                        {
                            &&& no_dups(self.chain_posts(c))
                            &&& forall|j: int|
                                0 <= j < self.chain_posts(c).len() ==> m1.contains_key(
                                    #[trigger] self.chain_posts(c)[j],
                                ) && m1[self.chain_posts(c)[j]].author_chain_id == c
                        } by {
                        lemma_seq_without(old(self).chain_posts(c), id);
                        assert forall|j: int| 0 <= j < self.chain_posts(c).len() implies
                            m1.contains_key(#[trigger] self.chain_posts(c)[j]) && m1[
                            self.chain_posts(c)[j]].author_chain_id == c by {
                            let pid = self.chain_posts(c)[j];
                            assert(old(self).chain_posts(c).contains(pid));
                            assert(pid != id);
                        }
                    }
                    assert(self.posts_inv());
                }
                Some(p)
            },
            None => {
                proof {
                    assert(self.posts_model() =~= m0.remove(id));
                    lemma_same_invs(*old(self), *self);
                    assert forall|x: Owner| #[trigger]
                        self.author_posts(x) == seq_without(old(self).author_posts(x), id) by {
                        lemma_seq_without(old(self).author_posts(x), id);
                        if old(self).author_posts(x).contains(id) {
                            assert(m0.contains_key(id));
                            assert(false);
                        }
                    }
                    assert forall|c: ChainId| #[trigger]
                        self.chain_posts(c) == seq_without(old(self).chain_posts(c), id) by {
                        lemma_seq_without(old(self).chain_posts(c), id);
                        if old(self).chain_posts(c).contains(id) {
                            assert(m0.contains_key(id));
                            assert(false);
                        }
                    }
                    assert(self.posts_inv());
                }
                None
            },
        }
    }

    /// Stores a post under its id, replacing any previous post with that id,
    /// and indexes it by author and by the author's chain.
    pub fn create_post(&mut self, post: Post)
        requires
            old(self).inv(),
        ensures
            final(self).inv(),
            final(self).posts_model() == old(self).posts_model().insert(post.id, post.deep_view()),
            final(self).author_posts(post.author) == seq_without(
                old(self).author_posts(post.author),
                post.id,
            ).push(post.id),
            final(self).chain_posts(post.author_chain_id) == seq_without(
                old(self).chain_posts(post.author_chain_id),
                post.id,
            ).push(post.id),
            forall|x: Owner|
                x != post.author ==> #[trigger] final(self).author_posts(x) == seq_without(
                    old(self).author_posts(x),
                    post.id,
                ),
            forall|c: ChainId|
                c != post.author_chain_id ==> #[trigger] final(self).chain_posts(c) == seq_without(
                    old(self).chain_posts(c),
                    post.id,
                ),
            final(self).donations_same(*old(self)),
            final(self).profiles_same(*old(self)),
            final(self).registry_same(*old(self)),
            final(self).prices_same(*old(self)),
            final(self).products_same(*old(self)),
            final(self).purchases_same(*old(self)),
            final(self).subs_same(*old(self)),
            final(self).donation_counter == old(self).donation_counter,
    {
        let id = post.id;
        let author = post.author;
        let chain = post.author_chain_id;
        let ghost pm = post.deep_view();
        let _ = self.detach_post(id);
        let ghost mid = *self;
        self.posts.insert(id, post);
        push_to_list(&mut self.posts_by_author, author, id);
        push_to_list(&mut self.posts_by_chain, chain, id);
        proof {
            lemma_map_values_insert(mid.posts@, id, post, |p: Post| p.deep_view());
            lemma_same_invs(mid, *self);
            let m1 = self.posts_model();
            assert(m1 == mid.posts_model().insert(id, pm));
            assert(m1 =~= old(self).posts_model().insert(id, pm));
            assert(self.author_posts(author) == mid.author_posts(author).push(id));
            assert(self.chain_posts(chain) == mid.chain_posts(chain).push(id));
            assert forall|pid: PostId| m1.contains_key(pid) implies {
                let q = #[trigger] m1[pid];
                &&& q.id == pid
                &&& self.author_posts(q.author).contains(pid)
                &&& self.chain_posts(q.author_chain_id).contains(pid)
            } by {
                if pid == id {
                    assert(self.author_posts(author).last() == id);
                    assert(self.chain_posts(chain).last() == id);
                } else {
                    let q = mid.posts_model()[pid];
                    assert(mid.author_posts(q.author).contains(pid));
                    let j = choose|j: int|
                        0 <= j < mid.author_posts(q.author).len() && mid.author_posts(q.author)[j]
                            == pid;
                    if q.author == author {
                        assert(self.author_posts(author)[j] == pid);
                    } else {
                        assert(self.author_posts(q.author) == mid.author_posts(q.author));
                    }
                    assert(self.author_posts(q.author).contains(pid));
                    assert(mid.chain_posts(q.author_chain_id).contains(pid));
                    let j2 = choose|j2: int|
                        0 <= j2 < mid.chain_posts(q.author_chain_id).len() && mid.chain_posts(
                            q.author_chain_id,
                        )[j2] == pid;
                    if q.author_chain_id == chain {
                        assert(self.chain_posts(chain)[j2] == pid);
                    } else {
                        assert(self.chain_posts(q.author_chain_id) == mid.chain_posts(
                            q.author_chain_id,
                        ));
                    }
                    assert(self.chain_posts(q.author_chain_id).contains(pid));
                }
            }
            assert forall|x: Owner| #![trigger self.author_posts(x)]
                {
                    &&& no_dups(self.author_posts(x))
                    &&& forall|j: int|
                        0 <= j < self.author_posts(x).len() ==> m1.contains_key(
                            #[trigger] self.author_posts(x)[j],
                        ) && m1[self.author_posts(x)[j]].author == x
                } by {
                lemma_seq_without(old(self).author_posts(x), id);
                if x == author {
                    let base = mid.author_posts(x);
                    assert(!base.contains(id));
                    assert forall|j: int, j2: int|
                        0 <= j < j2 < self.author_posts(x).len() implies self.author_posts(x)[j]
                            != self.author_posts(x)[j2] by {
                        if j2 == self.author_posts(x).len() - 1 {
                            assert(self.author_posts(x)[j] == base[j]);
                            assert(base.contains(base[j]));
                        }
                    }
                    assert forall|j: int| 0 <= j < self.author_posts(x).len() implies
                        m1.contains_key(#[trigger] self.author_posts(x)[j]) && m1[
                        self.author_posts(x)[j]].author == x by {
                        if j < self.author_posts(x).len() - 1 {
                            let pid = base[j];
                            assert(mid.posts_model().contains_key(pid));
                            assert(pid != id);
                        }
                    }
                } else {
                    assert(self.author_posts(x) == mid.author_posts(x));
                    assert forall|j: int| 0 <= j < self.author_posts(x).len() implies
                        m1.contains_key(#[trigger] self.author_posts(x)[j]) && m1[
                        self.author_posts(x)[j]].author == x by {
                        let pid = mid.author_posts(x)[j];
                        assert(mid.posts_model().contains_key(pid));
                        assert(mid.posts_model()[pid].author == x);
                        assert(pid != id);
                    }
                }
            }
            assert forall|c: ChainId| #![trigger self.chain_posts(c)]
                {
                    &&& no_dups(self.chain_posts(c))
                    &&& forall|j: int|
                        0 <= j < self.chain_posts(c).len() ==> m1.contains_key(
                            #[trigger] self.chain_posts(c)[j],
                        ) && m1[self.chain_posts(c)[j]].author_chain_id == c
                } by {
                lemma_seq_without(old(self).chain_posts(c), id);
                if c == chain {
                    let base = mid.chain_posts(c);
                    assert(!base.contains(id));
                    assert forall|j: int, j2: int|
                        0 <= j < j2 < self.chain_posts(c).len() implies self.chain_posts(c)[j]
                            != self.chain_posts(c)[j2] by {
                        if j2 == self.chain_posts(c).len() - 1 {
                            assert(self.chain_posts(c)[j] == base[j]);
                            assert(base.contains(base[j]));
                        }
                    }
                    assert forall|j: int| 0 <= j < self.chain_posts(c).len() implies
                        m1.contains_key(#[trigger] self.chain_posts(c)[j]) && m1[
                        self.chain_posts(c)[j]].author_chain_id == c by {
                        if j < self.chain_posts(c).len() - 1 {
                            let pid = base[j];
                            assert(mid.posts_model().contains_key(pid));
                            assert(pid != id);
                        }
                    }
                } else {
                    assert(self.chain_posts(c) == mid.chain_posts(c));
                    assert forall|j: int| 0 <= j < self.chain_posts(c).len() implies
                        m1.contains_key(#[trigger] self.chain_posts(c)[j]) && m1[
                        self.chain_posts(c)[j]].author_chain_id == c by {
                        let pid = mid.chain_posts(c)[j];
                        assert(mid.posts_model().contains_key(pid));
                        assert(mid.posts_model()[pid].author_chain_id == c);
                        assert(pid != id);
                    }
                }
            }
            assert(self.posts_inv());
            assert forall|x: Owner| x != author implies #[trigger] self.author_posts(x)
                == seq_without(old(self).author_posts(x), id) by {
                assert(self.author_posts(x) == mid.author_posts(x));
            }
            assert forall|c: ChainId| c != chain implies #[trigger] self.chain_posts(c)
                == seq_without(old(self).chain_posts(c), id) by {
                assert(self.chain_posts(c) == mid.chain_posts(c));
            }
        }
    }

    /// Replaces a stored post's value in place; the id, author and chain do
    /// not change, so every index list is untouched.
    pub(crate) fn replace_post(&mut self, post_id: PostId, post: Post)
        requires
            old(self).inv(),
            old(self).posts_model().contains_key(post_id),
            post.deep_view().id == post_id,
            post.deep_view().author == old(self).posts_model()[post_id].author,
            post.deep_view().author_chain_id == old(self).posts_model()[post_id].author_chain_id,
        ensures
            final(self).inv(),
            final(self).posts_model() == old(self).posts_model().insert(post_id, post.deep_view()),
            final(self).posts_by_author == old(self).posts_by_author,
            final(self).posts_by_chain == old(self).posts_by_chain,
            final(self).donations_same(*old(self)),
            final(self).profiles_same(*old(self)),
            final(self).registry_same(*old(self)),
            final(self).prices_same(*old(self)),
            final(self).products_same(*old(self)),
            final(self).purchases_same(*old(self)),
            final(self).subs_same(*old(self)),
            final(self).donation_counter == old(self).donation_counter,
    {
        let ghost pm = post.deep_view();
        let ghost oldp = old(self).posts_model()[post_id];
        self.posts.insert(post_id, post);
        proof {
            lemma_map_values_insert(old(self).posts@, post_id, post, |p: Post| p.deep_view());
            lemma_same_invs(*old(self), *self);
            let m1 = self.posts_model();
            assert(m1 == old(self).posts_model().insert(post_id, pm));
            assert forall|pid: PostId| m1.contains_key(pid) implies {
                let q = #[trigger] m1[pid];
                &&& q.id == pid
                &&& self.author_posts(q.author).contains(pid)
                &&& self.chain_posts(q.author_chain_id).contains(pid)
            } by {
                if pid == post_id {
                    assert(old(self).author_posts(oldp.author).contains(pid));
                    assert(old(self).chain_posts(oldp.author_chain_id).contains(pid));
                } else {
                    assert(old(self).posts_model().contains_key(pid));
                }
            }
            assert forall|x: Owner| #![trigger self.author_posts(x)]
                {
                    &&& no_dups(self.author_posts(x))
                    &&& forall|j: int|
                        0 <= j < self.author_posts(x).len() ==> m1.contains_key(
                            #[trigger] self.author_posts(x)[j],
                        ) && m1[self.author_posts(x)[j]].author == x
                } by {
                assert(self.author_posts(x) == old(self).author_posts(x));
                assert forall|j: int| 0 <= j < self.author_posts(x).len() implies m1.contains_key(
                    #[trigger] self.author_posts(x)[j],
                ) && m1[self.author_posts(x)[j]].author == x by {
                    let pid = old(self).author_posts(x)[j];
                    assert(old(self).posts_model().contains_key(pid));
                    assert(old(self).posts_model()[pid].author == x);
                }
            }
            assert forall|c: ChainId| #![trigger self.chain_posts(c)]
                {
                    &&& no_dups(self.chain_posts(c))
                    &&& forall|j: int|
                        0 <= j < self.chain_posts(c).len() ==> m1.contains_key(
                            #[trigger] self.chain_posts(c)[j],
                        ) && m1[self.chain_posts(c)[j]].author_chain_id == c
                } by {
                assert(self.chain_posts(c) == old(self).chain_posts(c));
                assert forall|j: int| 0 <= j < self.chain_posts(c).len() implies m1.contains_key(
                    #[trigger] self.chain_posts(c)[j],
                ) && m1[self.chain_posts(c)[j]].author_chain_id == c by {
                    let pid = old(self).chain_posts(c)[j];
                    assert(old(self).posts_model().contains_key(pid));
                    assert(old(self).posts_model()[pid].author_chain_id == c);
                }
            }
            assert(self.posts_inv());
        }
    }

    /// The stored post with an id, copied out.
    pub fn get_post(&self, id: PostId) -> (r: Option<Post>)
        requires
            self.inv(),
        ensures
            match r {
                Some(p) => self.posts_model().contains_key(id) && p.deep_view()
                    == self.posts_model()[id],
                None => !self.posts_model().contains_key(id),
            },
    {
        proof {
            assert(self.posts@.dom() =~= self.posts_model().dom());
        }
        match self.posts.get(&id) {
            Some(p) => Some(p.duplicate()),
            None => None,
        }
    }

    /// The posts of an author, in listing order.
    pub fn list_posts_by_author(&self, author: Owner) -> (r: Vec<Post>)
        requires
            self.inv(),
        ensures
            r.deep_view() == lookup_posts(self.posts_model(), self.author_posts(author)),
    {
        let ghost m = self.posts_model();
        let ghost ids_g = self.author_posts(author);
        let mut r: Vec<Post> = Vec::new();
        let ids: &Vec<PostId> = match self.posts_by_author.get(&author) {
            Some(v) => v,
            None => {
                proof {
                    assert(ids_g =~= Seq::<PostId>::empty());
                    assert(r.deep_view() =~= lookup_posts(m, ids_g));
                }
                return r;
            },
        };
        let n = ids.len();
        let mut j: usize = 0;
        while j < n
            invariant
                self.inv(),
                m == self.posts_model(),
                ids_g == self.author_posts(author),
                ids@ == ids_g,
                n == ids@.len(),
                j <= n,
                r@.len() == j,
                forall|t: int| 0 <= t < j ==> (#[trigger] r@[t]).deep_view() == m[ids_g[t]],
            decreases n - j,
        {
            let id = ids[j];
            proof {
                assert(m.contains_key(ids_g[j as int]));
                assert(self.posts@.contains_key(id) == m.contains_key(id)) by {
                    assert(self.posts@.dom() =~= m.dom());
                }
            }
            match self.posts.get(&id) {
                Some(p) => {
                    r.push(p.duplicate());
                },
                None => {
                    proof {
                        assert(false);
                    }
                },
            }
            j = j + 1;
        }
        proof {
            assert forall|t: int| 0 <= t < ids_g.len() implies r.deep_view()[t] == lookup_posts(
                m,
                ids_g,
            )[t] by {
                assert(r@[t].deep_view() == m[ids_g[t]]);
            }
            assert(r.deep_view() =~= lookup_posts(m, ids_g));
        }
        r
    }

    /// Updates a stored post's text fields.  Fails with `NotFound` when the
    /// id is absent; the embedded poll and giveaway never change here.
    pub fn update_post(
        &mut self,
        post_id: PostId,
        title: Option<String>,
        content: Option<String>,
        image_hash: Option<String>,
    ) -> (r: Result<(), DonationsError>)
        requires
            old(self).inv(),
        ensures
            final(self).inv(),
            r == if old(self).posts_model().contains_key(post_id) {
                Ok::<(), DonationsError>(())
            } else {
                Err::<(), DonationsError>(DonationsError::NotFound)
            },
            r is Err ==> *final(self) == *old(self),
            r is Ok ==> {
                &&& final(self).posts_model() == old(self).posts_model().insert(
                    post_id,
                    post_with_updates(
                        old(self).posts_model()[post_id],
                        title.deep_view(),
                        content.deep_view(),
                        image_hash.deep_view(),
                    ),
                )
                &&& final(self).posts_by_author == old(self).posts_by_author
                &&& final(self).posts_by_chain == old(self).posts_by_chain
            },
            final(self).donations_same(*old(self)),
            final(self).profiles_same(*old(self)),
            final(self).registry_same(*old(self)),
            final(self).prices_same(*old(self)),
            final(self).products_same(*old(self)),
            final(self).purchases_same(*old(self)),
            final(self).subs_same(*old(self)),
            final(self).donation_counter == old(self).donation_counter,
    {
        proof {
            assert(self.posts@.dom() =~= self.posts_model().dom());
        }
        let updated: Post = match self.posts.get(&post_id) {
            None => {
                return Err(DonationsError::NotFound);
            },
            Some(p) => {
                proof {
                    assert(p.deep_view() == self.posts_model()[post_id]);
                }
                let poll = match &p.poll {
                    Some(q) => Some(q.duplicate()),
                    None => None,
                };
                let giveaway = match &p.giveaway {
                    Some(g) => Some(g.duplicate()),
                    None => None,
                };
                Post {
                    id: p.id,
                    author: p.author,
                    author_chain_id: p.author_chain_id,
                    created_at: p.created_at,
                    title: match title {
                        Some(t) => t,
                        None => p.title.clone(),
                    },
                    content: match content {
                        Some(c) => c,
                        None => p.content.clone(),
                    },
                    image_hash: match image_hash {
                        Some(h) => Some(h),
                        None => dup_opt_string(&p.image_hash),
                    },
                    poll,
                    giveaway,
                }
            },
        };
        self.replace_post(post_id, updated);
        Ok(())
    }

    /// Deletes a post.  Fails with `NotFound` when the id is absent and
    /// `Unauthorized` when the caller is not the stored author; a successful
    /// deletion removes the id from the map and from every index list.
    pub fn delete_post(&mut self, post_id: PostId, author: Owner) -> (r: Result<
        (),
        DonationsError,
    >)
        requires
            old(self).inv(),
        ensures
            final(self).inv(),
            r == if !old(self).posts_model().contains_key(post_id) {
                Err::<(), DonationsError>(DonationsError::NotFound)
            } else if old(self).posts_model()[post_id].author != author {
                Err::<(), DonationsError>(DonationsError::Unauthorized)
            } else {
                Ok::<(), DonationsError>(())
            },
            r is Err ==> *final(self) == *old(self),
            r is Ok ==> {
                &&& final(self).posts_model() == old(self).posts_model().remove(post_id)
                &&& forall|x: Owner| #[trigger]
                    final(self).author_posts(x) == seq_without(old(self).author_posts(x), post_id)
                &&& forall|c: ChainId| #[trigger]
                    final(self).chain_posts(c) == seq_without(old(self).chain_posts(c), post_id)
            },
            final(self).donations_same(*old(self)),
            final(self).profiles_same(*old(self)),
            final(self).registry_same(*old(self)),
            final(self).prices_same(*old(self)),
            final(self).products_same(*old(self)),
            final(self).purchases_same(*old(self)),
            final(self).subs_same(*old(self)),
            final(self).donation_counter == old(self).donation_counter,
    {
        proof {
            assert(self.posts@.dom() =~= self.posts_model().dom());
        }
        match self.posts.get(&post_id) {
            None => {
                return Err(DonationsError::NotFound);
            },
            Some(p) => {
                if !(p.author == author) {
                    return Err(DonationsError::Unauthorized);
                }
            },
        }
        let _ = self.detach_post(post_id);
        Ok(())
    }

    /// Casts or overwrites one voter's vote on a post's poll and recomputes
    /// every tally from the full voter map.  Fails with `NotFound` when the
    /// post is absent or carries no poll, `PollEnded` when the poll's end
    /// timestamp has passed (a zero end timestamp means no end), and
    /// `ValidationError` when the option index is out of range; a failed
    /// vote changes nothing.  Hands back the updated poll for broadcasting.
    pub fn cast_vote(
        &mut self,
        post_id: PostId,
        voter: Owner,
        option_index: usize,
        now: u64,
    ) -> (r: Result<Poll, DonationsError>)
        requires
            old(self).inv(),
        ensures
            final(self).inv(),
            !old(self).posts_model().contains_key(post_id) ==> r == Err::<Poll, DonationsError>(
                DonationsError::NotFound,
            ),
            old(self).posts_model().contains_key(post_id) ==> match old(self).posts_model()[
                post_id].poll {
                None => r == Err::<Poll, DonationsError>(DonationsError::NotFound),
                Some(poll) => {
                    if now > poll.end_timestamp && poll.end_timestamp > 0 {
                        r == Err::<Poll, DonationsError>(DonationsError::PollEnded)
                    } else if option_index >= poll.options.len() {
                        r == Err::<Poll, DonationsError>(DonationsError::ValidationError)
                    } else {
                        &&& r matches Ok(q) && q.deep_view() == cast_vote_model(
                            poll,
                            voter,
                            option_index,
                        )
                        &&& final(self).posts_model() == old(self).posts_model().insert(
                            post_id,
                            PostModel {
                                poll: Some(cast_vote_model(poll, voter, option_index)),
                                ..old(self).posts_model()[post_id]
                            },
                        )
                        &&& final(self).posts_by_author == old(self).posts_by_author
                        &&& final(self).posts_by_chain == old(self).posts_by_chain
                    }
                },
            },
            r is Err ==> *final(self) == *old(self),
            final(self).donations_same(*old(self)),
            final(self).profiles_same(*old(self)),
            final(self).registry_same(*old(self)),
            final(self).prices_same(*old(self)),
            final(self).products_same(*old(self)),
            final(self).purchases_same(*old(self)),
            final(self).subs_same(*old(self)),
            final(self).donation_counter == old(self).donation_counter,
    {
        proof {
            assert(self.posts@.dom() =~= self.posts_model().dom());
        }
        let (updated_post, new_poll): (Post, Poll) = match self.posts.get(&post_id) {
            None => {
                return Err(DonationsError::NotFound);
            },
            Some(p) => {
                proof {
                    assert(p.deep_view() == self.posts_model()[post_id]);
                }
                match &p.poll {
                    None => {
                        return Err(DonationsError::NotFound);
                    },
                    Some(poll) => {
                        if now > poll.end_timestamp && poll.end_timestamp > 0 {
                            return Err(DonationsError::PollEnded);
                        }
                        if option_index >= poll.options.len() {
                            return Err(DonationsError::ValidationError);
                        }
                        let ghost pm = poll.deep_view();
                        let ghost vs0 = pm.voters;
                        let mut voters = dup_voters(&poll.voters);
                        proof {
                            assert(poll.voters.deep_view() =~= poll.voters@);
                            assert(voters@ == vs0);
                        }
                        let vn = voters.len();
                        let mut j: usize = 0;
                        let mut found = false;
                        while j < vn && !found
                            invariant
                                vn == voters@.len(),
                                j <= vn,
                                voters@ == vs0,
                                !found ==> forall|m: int| 0 <= m < j ==> vs0[m].0 != voter,
                                found ==> j < vn && vs0[j as int].0 == voter && (forall|m: int|
                                    0 <= m < j ==> vs0[m].0 != voter),
                            decreases vn - j + if found { 0int } else { 1int },
                        {
                            if voters[j].0 == voter {
                                found = true;
                            } else {
                                j = j + 1;
                            }
                        }
                        proof {
                            lemma_voter_index(vs0, voter);
                        }
                        if found {
                            proof {
                                assert(voter_index(vs0, voter) == j as int);
                            }
                            voters.set(j, (voter, option_index));
                        } else {
                            proof {
                                assert(voter_index(vs0, voter) == -1);
                            }
                            voters.push((voter, option_index));
                        }
                        let ghost vs1 = upsert_voter(vs0, voter, option_index);
                        proof {
                            assert(voters@ =~= vs1);
                            assert(voters.deep_view() =~= voters@);
                        }
                        let mut options: Vec<PollOption> = Vec::new();
                        let on = poll.options.len();
                        let mut k: usize = 0;
                        while k < on
                            invariant
                                on == poll.options@.len(),
                                pm.options == poll.options.deep_view(),
                                voters@ == vs1,
                                k <= on,
                                options@.len() == k,
                                forall|t: int|
                                    0 <= t < k ==> (#[trigger] options@[t]).deep_view() == retally(
                                        pm.options,
                                        vs1,
                                    )[t],
                            decreases on - k,
                        {
                            let mut cnt: u64 = 0;
                            let mut t: usize = 0;
                            let vlen = voters.len();
                            while t < vlen
                                invariant
                                    vlen == voters@.len(),
                                    t <= vlen,
                                    voters@ == vs1,
                                    cnt == count_votes(vs1.subrange(0, t as int), k as int),
                                    cnt <= t,
                                decreases vlen - t,
                            {
                                proof {
                                    assert(vs1.subrange(0, t as int + 1).drop_last()
                                        =~= vs1.subrange(0, t as int));
                                    assert(vs1.subrange(0, t as int + 1).last() == vs1[t as int]);
                                }
                                if voters[t].1 == k {
                                    cnt = cnt + 1;
                                }
                                t = t + 1;
                            }
                            proof {
                                assert(vs1.subrange(0, vlen as int) =~= vs1);
                                assert(poll.options@[k as int].deep_view() == pm.options[k as int]);
                            }
                            options.push(
                                PollOption { text: poll.options[k].text.clone(), votes_count: cnt },
                            );
                            k = k + 1;
                        }
                        let ghost new_pm = cast_vote_model(pm, voter, option_index);
                        proof {
                            assert forall|t: int| 0 <= t < options.deep_view().len() implies
                                options.deep_view()[t] == retally(pm.options, vs1)[t] by {
                                assert(options@[t].deep_view() == retally(pm.options, vs1)[t]);
                            }
                            assert(options.deep_view() =~= retally(pm.options, vs1));
                        }
                        let fresh_poll = Poll {
                            options,
                            end_timestamp: poll.end_timestamp,
                            voters,
                        };
                        proof {
                            assert(fresh_poll.deep_view() == new_pm);
                        }
                        let stored_poll = fresh_poll.duplicate();
                        let giveaway = match &p.giveaway {
                            Some(g) => Some(g.duplicate()),
                            None => None,
                        };
                        let updated = Post {
                            id: p.id,
                            author: p.author,
                            author_chain_id: p.author_chain_id,
                            created_at: p.created_at,
                            title: p.title.clone(),
                            content: p.content.clone(),
                            image_hash: dup_opt_string(&p.image_hash),
                            poll: Some(stored_poll),
                            giveaway,
                        };
                        proof {
                            assert(updated.deep_view() == PostModel {
                                poll: Some(new_pm),
                                ..old(self).posts_model()[post_id]
                            });
                        }
                        (updated, fresh_poll)
                    },
                }
            },
        };
        self.replace_post(post_id, updated_post);
        Ok(new_poll)
    }

    /// Adds an entrant to a post's giveaway unless an identical entry is
    /// already present.  Fails with `NotFound` when the post is absent or
    /// carries no giveaway, and `ValidationError` when the giveaway has
    /// ended (a zero end timestamp means no end) or is already resolved; a
    /// failed join changes nothing.  Hands back the updated giveaway for
    /// broadcasting.
    pub fn add_giveaway_participant(
        &mut self,
        post_id: PostId,
        participant: GiveawayParticipant,
        now: u64,
    ) -> (r: Result<Giveaway, DonationsError>)
        requires
            old(self).inv(),
        ensures
            final(self).inv(),
            !old(self).posts_model().contains_key(post_id) ==> r == Err::<
                Giveaway,
                DonationsError,
            >(DonationsError::NotFound),
            old(self).posts_model().contains_key(post_id) ==> match old(self).posts_model()[
                post_id].giveaway {
                None => r == Err::<Giveaway, DonationsError>(DonationsError::NotFound),
                Some(g) => {
                    if now > g.end_timestamp && g.end_timestamp > 0 {
                        r == Err::<Giveaway, DonationsError>(DonationsError::ValidationError)
                    } else if g.is_resolved {
                        r == Err::<Giveaway, DonationsError>(DonationsError::ValidationError)
                    } else {
                        &&& r matches Ok(q) && q.deep_view() == join_giveaway_model(g, participant)
                        &&& final(self).posts_model() == old(self).posts_model().insert(
                            post_id,
                            PostModel {
                                giveaway: Some(join_giveaway_model(g, participant)),
                                ..old(self).posts_model()[post_id]
                            },
                        )
                        &&& final(self).posts_by_author == old(self).posts_by_author
                        &&& final(self).posts_by_chain == old(self).posts_by_chain
                    }
                },
            },
            r is Err ==> *final(self) == *old(self),
            final(self).donations_same(*old(self)),
            final(self).profiles_same(*old(self)),
            final(self).registry_same(*old(self)),
            final(self).prices_same(*old(self)),
            final(self).products_same(*old(self)),
            final(self).purchases_same(*old(self)),
            final(self).subs_same(*old(self)),
            final(self).donation_counter == old(self).donation_counter,
    {
        proof {
            assert(self.posts@.dom() =~= self.posts_model().dom());
        }
        let (updated_post, new_giveaway): (Post, Giveaway) = match self.posts.get(&post_id) {
            None => {
                return Err(DonationsError::NotFound);
            },
            Some(p) => {
                proof {
                    assert(p.deep_view() == self.posts_model()[post_id]);
                }
                match &p.giveaway {
                    None => {
                        return Err(DonationsError::NotFound);
                    },
                    Some(g) => {
                        if now > g.end_timestamp && g.end_timestamp > 0 {
                            return Err(DonationsError::ValidationError);
                        }
                        if g.is_resolved {
                            return Err(DonationsError::ValidationError);
                        }
                        let ghost gm = g.deep_view();
                        let mut participants = dup_participants(&g.participants);
                        proof {
                            assert(g.participants.deep_view() =~= g.participants@);
                            assert(participants@ == gm.participants);
                        }
                        let n = participants.len();
                        let mut j: usize = 0;
                        let mut present = false;
                        while j < n && !present
                            invariant
                                n == participants@.len(),
                                j <= n,
                                participants@ == gm.participants,
                                !present ==> forall|m: int|
                                    0 <= m < j ==> gm.participants[m] != participant,
                                present ==> gm.participants.contains(participant),
                            decreases n - j + if present { 0int } else { 1int },
                        {
                            if participants[j] == participant {
                                present = true;
                            } else {
                                j = j + 1;
                            }
                        }
                        if !present {
                            proof {
                                if gm.participants.contains(participant) {
                                    let m = choose|m: int|
                                        0 <= m < gm.participants.len() && gm.participants[m]
                                            == participant;
                                    assert(false);
                                }
                            }
                            participants.push(participant);
                        }
                        let ghost new_gm = join_giveaway_model(gm, participant);
                        proof {
                            assert(participants@ =~= new_gm.participants);
                            assert(participants.deep_view() =~= participants@);
                        }
                        let fresh_g = Giveaway {
                            prize_amount: g.prize_amount,
                            end_timestamp: g.end_timestamp,
                            participants,
                            winner: g.winner,
                            is_resolved: g.is_resolved,
                        };
                        proof {
                            assert(fresh_g.deep_view() == new_gm);
                        }
                        let stored_g = fresh_g.duplicate();
                        let poll = match &p.poll {
                            Some(q) => Some(q.duplicate()),
                            None => None,
                        };
                        let updated = Post {
                            id: p.id,
                            author: p.author,
                            author_chain_id: p.author_chain_id,
                            created_at: p.created_at,
                            title: p.title.clone(),
                            content: p.content.clone(),
                            image_hash: dup_opt_string(&p.image_hash),
                            poll,
                            giveaway: Some(stored_g),
                        };
                        proof {
                            assert(updated.deep_view() == PostModel {
                                giveaway: Some(new_gm),
                                ..old(self).posts_model()[post_id]
                            });
                        }
                        (updated, fresh_g)
                    },
                }
            },
        };
        self.replace_post(post_id, updated_post);
        Ok(new_giveaway)
    }

    /// Resolves a post's giveaway: picks the winner deterministically from
    /// the current time, the rendered post-id length and the entrant count,
    /// records the winner, and closes the giveaway.  Fails with `NotFound`
    /// when the post is absent or carries no giveaway, `Unauthorized` when
    /// the caller is not the post's author, and `ValidationError` when the
    /// giveaway is already resolved or has no entrants; a failed resolution
    /// changes nothing, so a second resolution is always rejected.
    pub fn resolve_giveaway(&mut self, post_id: PostId, author: Owner, now: u64) -> (r: Result<
        Giveaway,
        DonationsError,
    >)
        requires
            old(self).inv(),
        ensures
            final(self).inv(),
            !old(self).posts_model().contains_key(post_id) ==> r == Err::<
                Giveaway,
                DonationsError,
            >(DonationsError::NotFound),
            old(self).posts_model().contains_key(post_id) ==> {
                let post = old(self).posts_model()[post_id];
                if post.author != author {
                    r == Err::<Giveaway, DonationsError>(DonationsError::Unauthorized)
                } else {
                    match post.giveaway {
                        None => r == Err::<Giveaway, DonationsError>(DonationsError::NotFound),
                        Some(g) => {
                            if g.is_resolved {
                                r == Err::<Giveaway, DonationsError>(
                                    DonationsError::ValidationError,
                                )
                            } else if g.participants.len() == 0 {
                                r == Err::<Giveaway, DonationsError>(
                                    DonationsError::ValidationError,
                                )
                            } else {
                                &&& r matches Ok(q) && q.deep_view() == resolve_giveaway_model(
                                    g,
                                    now,
                                )
                                &&& final(self).posts_model() == old(self).posts_model().insert(
                                    post_id,
                                    PostModel {
                                        giveaway: Some(resolve_giveaway_model(g, now)),
                                        ..post
                                    },
                                )
                                &&& final(self).posts_by_author == old(self).posts_by_author
                                &&& final(self).posts_by_chain == old(self).posts_by_chain
                            }
                        },
                    }
                }
            },
            r is Err ==> *final(self) == *old(self),
            final(self).donations_same(*old(self)),
            final(self).profiles_same(*old(self)),
            final(self).registry_same(*old(self)),
            final(self).prices_same(*old(self)),
            final(self).products_same(*old(self)),
            final(self).purchases_same(*old(self)),
            final(self).subs_same(*old(self)),
            final(self).donation_counter == old(self).donation_counter,
    {
        proof {
            assert(self.posts@.dom() =~= self.posts_model().dom());
        }
        let (updated_post, new_giveaway): (Post, Giveaway) = match self.posts.get(&post_id) {
            None => {
                return Err(DonationsError::NotFound);
            },
            Some(p) => {
                proof {
                    assert(p.deep_view() == self.posts_model()[post_id]);
                }
                if !(p.author == author) {
                    return Err(DonationsError::Unauthorized);
                }
                match &p.giveaway {
                    None => {
                        return Err(DonationsError::NotFound);
                    },
                    Some(g) => {
                        if g.is_resolved {
                            return Err(DonationsError::ValidationError);
                        }
                        let count = g.participants.len();
                        if count == 0 {
                            return Err(DonationsError::ValidationError);
                        }
                        let ghost gm = g.deep_view();
                        let widx_wide: u128 = (now as u128 + POST_ID_HEX_LEN as u128
                            + count as u128) % (count as u128);
                        let widx: usize = widx_wide as usize;
                        proof {
                            assert(widx_wide < count as u128);
                            assert(widx as int == winner_index(now, gm.participants.len()));
                            assert(g.participants.deep_view() =~= g.participants@);
                        }
                        let winner = g.participants[widx];
                        proof {
                            assert(winner == gm.participants[winner_index(
                                now,
                                gm.participants.len(),
                            )]);
                        }
                        let participants = dup_participants(&g.participants);
                        let ghost new_gm = resolve_giveaway_model(gm, now);
                        let fresh_g = Giveaway {
                            prize_amount: g.prize_amount,
                            end_timestamp: g.end_timestamp,
                            participants,
                            winner: Some(winner),
                            is_resolved: true,
                        };
                        proof {
                            assert(fresh_g.deep_view() == new_gm);
                        }
                        let stored_g = fresh_g.duplicate();
                        let poll = match &p.poll {
                            Some(q) => Some(q.duplicate()),
                            None => None,
                        };
                        let updated = Post {
                            id: p.id,
                            author: p.author,
                            author_chain_id: p.author_chain_id,
                            created_at: p.created_at,
                            title: p.title.clone(),
                            content: p.content.clone(),
                            image_hash: dup_opt_string(&p.image_hash),
                            poll,
                            giveaway: Some(stored_g),
                        };
                        proof {
                            assert(updated.deep_view() == PostModel {
                                giveaway: Some(new_gm),
                                ..old(self).posts_model()[post_id]
                            });
                        }
                        (updated, fresh_g)
                    },
                }
            },
        };
        self.replace_post(post_id, updated_post);
        Ok(new_giveaway)
    }

    /// Replaces a post's poll with a snapshot received from its
    /// authoritative chain.  Fails with `NotFound` when the post is absent.
    pub fn update_poll_results(&mut self, post_id: PostId, poll: Poll) -> (r: Result<
        (),
        DonationsError,
    >)
        requires
            old(self).inv(),
        ensures
            final(self).inv(),
            r == if old(self).posts_model().contains_key(post_id) {
                Ok::<(), DonationsError>(())
            } else {
                Err::<(), DonationsError>(DonationsError::NotFound)
            },
            r is Err ==> *final(self) == *old(self),
            r is Ok ==> {
                &&& final(self).posts_model() == old(self).posts_model().insert(
                    post_id,
                    PostModel {
                        poll: Some(poll.deep_view()),
                        ..old(self).posts_model()[post_id]
                    },
                )
                &&& final(self).posts_by_author == old(self).posts_by_author
                &&& final(self).posts_by_chain == old(self).posts_by_chain
            },
            final(self).donations_same(*old(self)),
            final(self).profiles_same(*old(self)),
            final(self).registry_same(*old(self)),
            final(self).prices_same(*old(self)),
            final(self).products_same(*old(self)),
            final(self).purchases_same(*old(self)),
            final(self).subs_same(*old(self)),
            final(self).donation_counter == old(self).donation_counter,
    {
        proof {
            assert(self.posts@.dom() =~= self.posts_model().dom());
        }
        let updated: Post = match self.posts.get(&post_id) {
            None => {
                return Err(DonationsError::NotFound);
            },
            Some(p) => {
                proof {
                    assert(p.deep_view() == self.posts_model()[post_id]);
                }
                let giveaway = match &p.giveaway {
                    Some(g) => Some(g.duplicate()),
                    None => None,
                };
                Post {
                    id: p.id,
                    author: p.author,
                    author_chain_id: p.author_chain_id,
                    created_at: p.created_at,
                    title: p.title.clone(),
                    content: p.content.clone(),
                    image_hash: dup_opt_string(&p.image_hash),
                    poll: Some(poll),
                    giveaway,
                }
            },
        };
        self.replace_post(post_id, updated);
        Ok(())
    }

    /// Replaces a post's giveaway with a snapshot received from its
    /// authoritative chain.  Fails with `NotFound` when the post is absent.
    pub fn update_giveaway(&mut self, post_id: PostId, giveaway: Giveaway) -> (r: Result<
        (),
        DonationsError,
    >)
        requires
            old(self).inv(),
        ensures
            final(self).inv(),
            r == if old(self).posts_model().contains_key(post_id) {
                Ok::<(), DonationsError>(())
            } else {
                Err::<(), DonationsError>(DonationsError::NotFound)
            },
            r is Err ==> *final(self) == *old(self),
            r is Ok ==> {
                &&& final(self).posts_model() == old(self).posts_model().insert(
                    post_id,
                    PostModel {
                        giveaway: Some(giveaway.deep_view()),
                        ..old(self).posts_model()[post_id]
                    },
                )
                &&& final(self).posts_by_author == old(self).posts_by_author
                &&& final(self).posts_by_chain == old(self).posts_by_chain
            },
            final(self).donations_same(*old(self)),
            final(self).profiles_same(*old(self)),
            final(self).registry_same(*old(self)),
            final(self).prices_same(*old(self)),
            final(self).products_same(*old(self)),
            final(self).purchases_same(*old(self)),
            final(self).subs_same(*old(self)),
            final(self).donation_counter == old(self).donation_counter,
    {
        proof {
            assert(self.posts@.dom() =~= self.posts_model().dom());
        }
        let updated: Post = match self.posts.get(&post_id) {
            None => {
                return Err(DonationsError::NotFound);
            },
            Some(p) => {
                proof {
                    assert(p.deep_view() == self.posts_model()[post_id]);
                }
                let poll = match &p.poll {
                    Some(q) => Some(q.duplicate()),
                    None => None,
                };
                Post {
                    id: p.id,
                    author: p.author,
                    author_chain_id: p.author_chain_id,
                    created_at: p.created_at,
                    title: p.title.clone(),
                    content: p.content.clone(),
                    image_hash: dup_opt_string(&p.image_hash),
                    poll,
                    giveaway: Some(giveaway),
                }
            },
        };
        self.replace_post(post_id, updated);
        Ok(())
    }
}

} // verus!
