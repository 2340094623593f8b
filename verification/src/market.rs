//! Marketplace lifecycle rules: products (create, update, delete, get, list)
//! and purchase records (insert, get, list).  Updates and deletions are
//! author-gated; field maps and order forms are bounded; a purchase is
//! immutable and carries its product snapshot.

use crate::seqs::{lemma_map_values_insert, lemma_map_values_remove, lemma_seq_without, no_dups, seq_without};
use crate::store::{lemma_same_invs, list_of, push_to_list, remove_from_list, Store};
use crate::types::{
    custom_fields_ok, order_form_ok, MAX_CUSTOM_FIELDS, MAX_ORDER_FORM_FIELDS, Amount, ChainId, CustomFields, DonationsError,
    OrderFormField, Owner, Product, ProductId, ProductModel, Purchase, PurchaseId, PurchaseModel,
};
use vstd::prelude::*;

verus! {

broadcast use
    vstd::laws_eq::group_laws_eq,
    crate::ids::lemma_product_id_concrete_eq,
    crate::ids::lemma_purchase_id_concrete_eq,
    crate::ids::lemma_subscription_id_concrete_eq,
;

/// The looked-up products for a sequence of product ids.
pub open spec fn lookup_products(
    m: Map<ProductId, ProductModel>,
    ids: Seq<ProductId>,
) -> Seq<ProductModel> {
    ids.map_values(|i: ProductId| m[i])
}

/// The looked-up purchases for a sequence of purchase ids.
pub open spec fn lookup_purchases(
    m: Map<PurchaseId, PurchaseModel>,
    ids: Seq<PurchaseId>,
) -> Seq<PurchaseModel> {
    ids.map_values(|i: PurchaseId| m[i])
}

/// Rejects a custom field map with more than the allowed entries or a
/// repeated key.
pub fn validate_custom_fields(fields: &CustomFields) -> (r: Result<(), DonationsError>)
    ensures
        r is Ok <==> custom_fields_ok(fields.deep_view()),
        r is Err ==> r == Err::<(), DonationsError>(DonationsError::ValidationError),
{
    if fields.len() > MAX_CUSTOM_FIELDS {
        Err(DonationsError::ValidationError)
    } else if !crate::types::unique_field_keys(fields) {
        Err(DonationsError::ValidationError)
    } else {
        Ok(())
    }
}

/// Rejects an order form with more than the allowed fields.
pub fn validate_order_form(form: &Vec<OrderFormField>) -> (r: Result<(), DonationsError>)
    ensures
        r is Ok <==> order_form_ok(form.deep_view()),
        r is Err ==> r == Err::<(), DonationsError>(DonationsError::ValidationError),
{
    if form.len() > MAX_ORDER_FORM_FIELDS {
        Err(DonationsError::ValidationError)
    } else {
        Ok(())
    }
}

impl Store {
    /// Removes a product from the map and from both its index lists,
    /// handing back the stored value.
    pub(crate) fn detach_product(&mut self, id: ProductId) -> (r: Option<Product>)
        requires
            old(self).inv(),
        ensures
            final(self).inv(),
            final(self).products_model() == old(self).products_model().remove(id),
            r matches Some(p) ==> old(self).products_model().contains_key(id) && p.deep_view()
                == old(self).products_model()[id],
            r is None ==> !old(self).products_model().contains_key(id),
            forall|x: Owner| #[trigger]
                final(self).author_products(x) == seq_without(old(self).author_products(x), id),
            forall|c: ChainId| #[trigger]
                final(self).chain_products(c) == seq_without(old(self).chain_products(c), id),
            final(self).donations_same(*old(self)),
            final(self).profiles_same(*old(self)),
            final(self).registry_same(*old(self)),
            final(self).prices_same(*old(self)),
            final(self).purchases_same(*old(self)),
            final(self).subs_same(*old(self)),
            final(self).posts_same(*old(self)),
            final(self).donation_counter == old(self).donation_counter,
    {
        let ghost m0 = old(self).products_model();
        let r = self.products.remove(&id);
        proof {
            lemma_map_values_remove(old(self).products@, id, |p: Product| p.deep_view());
            assert(m0.dom() =~= old(self).products@.dom());
        }
        match r {
            Some(p) => {
                let author = p.author;
                let chain = p.author_chain_id;
                proof {
                    assert(p.deep_view() == m0[id]);
                }
                remove_from_list(&mut self.products_by_author, author, id);
                remove_from_list(&mut self.products_by_chain, chain, id);
                proof {
                    lemma_same_invs(*old(self), *self);
                    let m1 = self.products_model();
                    assert(m1 == m0.remove(id));
                    assert forall|x: Owner| #[trigger]
                        self.author_products(x) == seq_without(
                            old(self).author_products(x),
                            id,
                        ) by {
                        lemma_seq_without(old(self).author_products(x), id);
                        if x != author {
                            assert(self.author_products(x) == old(self).author_products(x));
                            if old(self).author_products(x).contains(id) {
                                assert(m0[id].author == x);
                                assert(m0[id].author == author);
                                assert(false);
                            }
                        }
                    }
                    assert forall|c: ChainId| #[trigger]
                        self.chain_products(c) == seq_without(
                            old(self).chain_products(c),
                            id,
                        ) by {
                        lemma_seq_without(old(self).chain_products(c), id);
                        if c != chain {
                            assert(self.chain_products(c) == old(self).chain_products(c));
                            if old(self).chain_products(c).contains(id) {
                                assert(m0[id].author_chain_id == c);
                                assert(false);
                            }
                        }
                    }
                    assert forall|pid: ProductId| m1.contains_key(pid) implies {
                        let q = #[trigger] m1[pid];
                        &&& q.id == pid
                        &&& self.author_products(q.author).contains(pid)
                        &&& self.chain_products(q.author_chain_id).contains(pid)
                    } by {
                        assert(m0.contains_key(pid) && pid != id);
                        let q = m0[pid];
                        lemma_seq_without(old(self).author_products(q.author), id);
                        lemma_seq_without(old(self).chain_products(q.author_chain_id), id);
                        assert(old(self).author_products(q.author).contains(pid));
                        assert(old(self).chain_products(q.author_chain_id).contains(pid));
                    }
                    assert forall|x: Owner| #![trigger self.author_products(x)]
                        {
                            &&& no_dups(self.author_products(x))
                            &&& forall|j: int|
                                0 <= j < self.author_products(x).len()
                                    ==> m1.contains_key(
                                    #[trigger] self.author_products(x)[j],
                                ) && m1[self.author_products(x)[j]].author == x
                        } by {
                        lemma_seq_without(old(self).author_products(x), id);
                        assert forall|j: int| 0 <= j < self.author_products(x).len() implies
                            m1.contains_key(#[trigger] self.author_products(x)[j])
                                && m1[self.author_products(x)[j]].author == x by {
                            let pid = self.author_products(x)[j];
                            assert(old(self).author_products(x).contains(pid));
                            assert(pid != id);
                        }
                    }
                    assert forall|c: ChainId| #![trigger self.chain_products(c)]
                        {
                            &&& no_dups(self.chain_products(c))
                            &&& forall|j: int|
                                0 <= j < self.chain_products(c).len()
                                    ==> m1.contains_key(
                                    #[trigger] self.chain_products(c)[j],
                                ) && m1[self.chain_products(c)[j]].author_chain_id == c
                        } by {
                        lemma_seq_without(old(self).chain_products(c), id);
                        assert forall|j: int| 0 <= j < self.chain_products(c).len() implies
                            m1.contains_key(#[trigger] self.chain_products(c)[j])
                                && m1[self.chain_products(c)[j]].author_chain_id == c by {
                            let pid = self.chain_products(c)[j];
                            assert(old(self).chain_products(c).contains(pid));
                            assert(pid != id);
                        }
                    }
                    assert(self.products_inv());
                }
                Some(p)
            },
            None => {
                proof {
                    assert(self.products_model() =~= m0.remove(id));
                    lemma_same_invs(*old(self), *self);
                    assert forall|x: Owner| #[trigger]
                        self.author_products(x) == seq_without(
                            old(self).author_products(x),
                            id,
                        ) by {
                        lemma_seq_without(old(self).author_products(x), id);
                        if old(self).author_products(x).contains(id) {
                            assert(m0.contains_key(id));
                            assert(false);
                        }
                    }
                    assert forall|c: ChainId| #[trigger]
                        self.chain_products(c) == seq_without(
                            old(self).chain_products(c),
                            id,
                        ) by {
                        lemma_seq_without(old(self).chain_products(c), id);
                        if old(self).chain_products(c).contains(id) {
                            assert(m0.contains_key(id));
                            assert(false);
                        }
                    }
                    assert(self.products_inv());
                }
                None
            },
        }
    }

    /// Stores a product under its id, replacing any previous product with
    /// that id, and indexes it by author and by author's chain; a replaced
    /// product moves to the end of its listings.  Rejects an oversized field
    /// map or order form before changing anything.
    pub fn create_product(&mut self, product: Product) -> (r: Result<(), DonationsError>)
        requires
            old(self).inv(),
        ensures
            final(self).inv(),
            r is Ok <==> {
                &&& custom_fields_ok(product.public_data.deep_view())
                &&& custom_fields_ok(product.private_data.deep_view())
                &&& order_form_ok(product.order_form.deep_view())
            },
            r is Err ==> r == Err::<(), DonationsError>(DonationsError::ValidationError)
                && *final(self) == *old(self),
            r is Ok ==> {
                &&& final(self).products_model() == old(self).products_model().insert(
                    product.id,
                    product.deep_view(),
                )
                &&& final(self).author_products(product.author) == seq_without(
                    old(self).author_products(product.author),
                    product.id,
                ).push(product.id)
                &&& final(self).chain_products(product.author_chain_id) == seq_without(
                    old(self).chain_products(product.author_chain_id),
                    product.id,
                ).push(product.id)
                &&& forall|x: Owner|
                    x != product.author ==> #[trigger] final(self).author_products(x)
                        == seq_without(old(self).author_products(x), product.id)
                &&& forall|c: ChainId|
                    c != product.author_chain_id ==> #[trigger] final(self).chain_products(c)
                        == seq_without(old(self).chain_products(c), product.id)
            },
            final(self).donations_same(*old(self)),
            final(self).profiles_same(*old(self)),
            final(self).registry_same(*old(self)),
            final(self).prices_same(*old(self)),
            final(self).purchases_same(*old(self)),
            final(self).subs_same(*old(self)),
            final(self).posts_same(*old(self)),
            final(self).donation_counter == old(self).donation_counter,
    {
        if validate_custom_fields(&product.public_data).is_err() {
            return Err(DonationsError::ValidationError);
        }
        if validate_custom_fields(&product.private_data).is_err() {
            return Err(DonationsError::ValidationError);
        }
        if validate_order_form(&product.order_form).is_err() {
            return Err(DonationsError::ValidationError);
        }
        let id = product.id;
        let author = product.author;
        let chain = product.author_chain_id;
        let ghost pm = product.deep_view();
        let _ = self.detach_product(id);
        let ghost mid = *self;
        self.products.insert(id, product);
        push_to_list(&mut self.products_by_author, author, id);
        push_to_list(&mut self.products_by_chain, chain, id);
        proof {
            lemma_map_values_insert(mid.products@, id, product, |p: Product| p.deep_view());
            lemma_same_invs(mid, *self);
            let m1 = self.products_model();
            assert(m1 == mid.products_model().insert(id, pm));
            assert(m1 =~= old(self).products_model().insert(id, pm));
            assert(self.author_products(author) == mid.author_products(author).push(id));
            assert(self.chain_products(chain) == mid.chain_products(chain).push(id));
            assert forall|pid: ProductId| m1.contains_key(pid) implies {
                let q = #[trigger] m1[pid];
                &&& q.id == pid
                &&& self.author_products(q.author).contains(pid)
                &&& self.chain_products(q.author_chain_id).contains(pid)
            } by {
                if pid == id {
                    assert(self.author_products(author).last() == id);
                    assert(self.chain_products(chain).last() == id);
                } else {
                    let q = mid.products_model()[pid];
                    assert(mid.author_products(q.author).contains(pid));
                    let j = choose|j: int|
                        0 <= j < mid.author_products(q.author).len() && mid.author_products(
                            q.author,
                        )[j] == pid;
                    if q.author == author {
                        assert(self.author_products(author)[j] == pid);
                    } else {
                        assert(self.author_products(q.author) == mid.author_products(q.author));
                    }
                    assert(self.author_products(q.author).contains(pid));
                    assert(mid.chain_products(q.author_chain_id).contains(pid));
                    let j2 = choose|j2: int|
                        0 <= j2 < mid.chain_products(q.author_chain_id).len()
                            && mid.chain_products(q.author_chain_id)[j2] == pid;
                    if q.author_chain_id == chain {
                        assert(self.chain_products(chain)[j2] == pid);
                    } else {
                        assert(self.chain_products(q.author_chain_id) == mid.chain_products(
                            q.author_chain_id,
                        ));
                    }
                    assert(self.chain_products(q.author_chain_id).contains(pid));
                }
            }
            assert forall|x: Owner| #![trigger self.author_products(x)]
                {
                    &&& no_dups(self.author_products(x))
                    &&& forall|j: int|
                        0 <= j < self.author_products(x).len() ==> m1.contains_key(
                            #[trigger] self.author_products(x)[j],
                        ) && m1[self.author_products(x)[j]].author == x
                } by {
                lemma_seq_without(old(self).author_products(x), id);
                if x == author {
                    let base = mid.author_products(x);
                    assert(!base.contains(id));
                    assert forall|j: int, j2: int|
                        0 <= j < j2 < self.author_products(x).len() implies self.author_products(
                            x,
                        )[j] != self.author_products(x)[j2] by {
                        if j2 == self.author_products(x).len() - 1 {
                            assert(self.author_products(x)[j] == base[j]);
                            assert(base.contains(base[j]));
                        }
                    }
                    assert forall|j: int| 0 <= j < self.author_products(x).len() implies
                        m1.contains_key(#[trigger] self.author_products(x)[j])
                            && m1[self.author_products(x)[j]].author == x by {
                        if j < self.author_products(x).len() - 1 {
                            let pid = base[j];
                            assert(mid.products_model().contains_key(pid));
                            assert(pid != id);
                        }
                    }
                } else {
                    assert(self.author_products(x) == mid.author_products(x));
                    assert forall|j: int| 0 <= j < self.author_products(x).len() implies
                        m1.contains_key(#[trigger] self.author_products(x)[j])
                            && m1[self.author_products(x)[j]].author == x by {
                        let pid = mid.author_products(x)[j];
                        assert(mid.products_model().contains_key(pid));
                        assert(mid.products_model()[pid].author == x);
                        assert(pid != id);
                    }
                }
            }
            assert forall|c: ChainId| #![trigger self.chain_products(c)]
                {
                    &&& no_dups(self.chain_products(c))
                    &&& forall|j: int|
                        0 <= j < self.chain_products(c).len() ==> m1.contains_key(
                            #[trigger] self.chain_products(c)[j],
                        ) && m1[self.chain_products(c)[j]].author_chain_id == c
                } by {
                lemma_seq_without(old(self).chain_products(c), id);
                if c == chain {
                    let base = mid.chain_products(c);
                    assert(!base.contains(id));
                    assert forall|j: int, j2: int|
                        0 <= j < j2 < self.chain_products(c).len() implies self.chain_products(
                            c,
                        )[j] != self.chain_products(c)[j2] by {
                        if j2 == self.chain_products(c).len() - 1 {
                            assert(self.chain_products(c)[j] == base[j]);
                            assert(base.contains(base[j]));
                        }
                    }
                    assert forall|j: int| 0 <= j < self.chain_products(c).len() implies
                        m1.contains_key(#[trigger] self.chain_products(c)[j])
                            && m1[self.chain_products(c)[j]].author_chain_id == c by {
                        if j < self.chain_products(c).len() - 1 {
                            let pid = base[j];
                            assert(mid.products_model().contains_key(pid));
                            assert(pid != id);
                        }
                    }
                } else {
                    assert(self.chain_products(c) == mid.chain_products(c));
                    assert forall|j: int| 0 <= j < self.chain_products(c).len() implies
                        m1.contains_key(#[trigger] self.chain_products(c)[j])
                            && m1[self.chain_products(c)[j]].author_chain_id == c by {
                        let pid = mid.chain_products(c)[j];
                        assert(mid.products_model().contains_key(pid));
                        assert(mid.products_model()[pid].author_chain_id == c);
                        assert(pid != id);
                    }
                }
            }
            assert(self.products_inv());
            assert forall|x: Owner| x != author implies #[trigger] self.author_products(x)
                == seq_without(old(self).author_products(x), id) by {
                assert(self.author_products(x) == mid.author_products(x));
                assert(mid.author_products(x) == seq_without(old(self).author_products(x), id));
            }
            assert forall|c: ChainId| c != chain implies #[trigger] self.chain_products(c)
                == seq_without(old(self).chain_products(c), id) by {
                assert(self.chain_products(c) == mid.chain_products(c));
                assert(mid.chain_products(c) == seq_without(old(self).chain_products(c), id));
            }
        }
        Ok(())
    }

    /// The stored product with an id, copied out.
    pub fn get_product(&self, id: ProductId) -> (r: Option<Product>)
        requires
            self.inv(),
        ensures
            match r {
                Some(p) => self.products_model().contains_key(id) && p.deep_view()
                    == self.products_model()[id],
                None => !self.products_model().contains_key(id),
            },
    {
        proof {
            assert(self.products@.dom() =~= self.products_model().dom());
        }
        match self.products.get(&id) {
            Some(p) => Some(p.duplicate()),
            None => None,
        }
    }

    /// Updates a stored product field by field.  Fails with `NotFound` when
    /// the id is absent, `Unauthorized` when the caller is not the stored
    /// author, and `ValidationError` when a supplied field map or order form
    /// is oversized; a failed update changes nothing.
    pub fn update_product(
        &mut self,
        product_id: ProductId,
        author: Owner,
        public_data: Option<CustomFields>,
        price: Option<Amount>,
        private_data: Option<CustomFields>,
        success_message: Option<String>,
        order_form: Option<Vec<OrderFormField>>,
    ) -> (r: Result<(), DonationsError>)
        requires
            old(self).inv(),
        ensures
            final(self).inv(),
            r == if !old(self).products_model().contains_key(product_id) {
                Err::<(), DonationsError>(DonationsError::NotFound)
            } else if old(self).products_model()[product_id].author != author {
                Err::<(), DonationsError>(DonationsError::Unauthorized)
            } else if !({
                &&& match public_data {
                    Some(v) => custom_fields_ok(v.deep_view()),
                    None => true,
                }
                &&& match private_data {
                    Some(v) => custom_fields_ok(v.deep_view()),
                    None => true,
                }
                &&& match order_form {
                    Some(v) => order_form_ok(v.deep_view()),
                    None => true,
                }
            }) {
                Err::<(), DonationsError>(DonationsError::ValidationError)
            } else {
                Ok::<(), DonationsError>(())
            },
            r is Err ==> *final(self) == *old(self),
            r is Ok ==> {
                &&& final(self).products_model() == old(self).products_model().insert(
                    product_id,
                    crate::types::product_with_updates(
                        old(self).products_model()[product_id],
                        public_data.deep_view(),
                        price,
                        private_data.deep_view(),
                        success_message.deep_view(),
                        order_form.deep_view(),
                    ),
                )
                &&& final(self).products_by_author == old(self).products_by_author
                &&& final(self).products_by_chain == old(self).products_by_chain
            },
            final(self).donations_same(*old(self)),
            final(self).profiles_same(*old(self)),
            final(self).registry_same(*old(self)),
            final(self).prices_same(*old(self)),
            final(self).purchases_same(*old(self)),
            final(self).subs_same(*old(self)),
            final(self).posts_same(*old(self)),
            final(self).donation_counter == old(self).donation_counter,
    {
        proof {
            assert(self.products@.dom() =~= self.products_model().dom());
        }
        let updated: Product = match self.products.get(&product_id) {
            None => {
                return Err(DonationsError::NotFound);
            },
            Some(p) => {
                if !(p.author == author) {
                    return Err(DonationsError::Unauthorized);
                }
                let ok = match &public_data {
                    Some(v) => validate_custom_fields(v).is_ok(),
                    None => true,
                } && (match &private_data {
                    Some(v) => validate_custom_fields(v).is_ok(),
                    None => true,
                }) && (match &order_form {
                    Some(v) => validate_order_form(v).is_ok(),
                    None => true,
                });
                if !ok {
                    return Err(DonationsError::ValidationError);
                }
                proof {
                    assert(p.deep_view() == self.products_model()[product_id]);
                }
                Product {
                    id: p.id,
                    author: p.author,
                    author_chain_id: p.author_chain_id,
                    created_at: p.created_at,
                    public_data: match public_data {
                        Some(v) => v,
                        None => crate::types::dup_pairs(&p.public_data),
                    },
                    price: match price {
                        Some(v) => v,
                        None => p.price,
                    },
                    private_data: match private_data {
                        Some(v) => v,
                        None => crate::types::dup_pairs(&p.private_data),
                    },
                    success_message: match success_message {
                        Some(v) => Some(v),
                        None => crate::types::dup_opt_string(&p.success_message),
                    },
                    order_form: match order_form {
                        Some(v) => v,
                        None => crate::types::dup_order_form(&p.order_form),
                    },
                }
            },
        };
        let ghost um = updated.deep_view();
        let ghost oldp = old(self).products_model()[product_id];
        self.products.insert(product_id, updated);
        proof {
            lemma_map_values_insert(
                old(self).products@,
                product_id,
                updated,
                |p: Product| p.deep_view(),
            );
            lemma_same_invs(*old(self), *self);
            let m1 = self.products_model();
            assert(m1 == old(self).products_model().insert(product_id, um));
            assert(um == crate::types::product_with_updates(
                oldp,
                public_data.deep_view(),
                price,
                private_data.deep_view(),
                success_message.deep_view(),
                order_form.deep_view(),
            ));
            assert forall|pid: ProductId| m1.contains_key(pid) implies {
                let q = #[trigger] m1[pid];
                &&& q.id == pid
                &&& self.author_products(q.author).contains(pid)
                &&& self.chain_products(q.author_chain_id).contains(pid)
            } by {
                if pid == product_id {
                    assert(old(self).author_products(oldp.author).contains(pid));
                    assert(old(self).chain_products(oldp.author_chain_id).contains(pid));
                } else {
                    assert(old(self).products_model().contains_key(pid));
                }
            }
            assert forall|x: Owner| #![trigger self.author_products(x)]
                {
                    &&& no_dups(self.author_products(x))
                    &&& forall|j: int|
                        0 <= j < self.author_products(x).len() ==> m1.contains_key(
                            #[trigger] self.author_products(x)[j],
                        ) && m1[self.author_products(x)[j]].author == x
                } by {
                assert(self.author_products(x) == old(self).author_products(x));
                assert forall|j: int| 0 <= j < self.author_products(x).len() implies
                    m1.contains_key(#[trigger] self.author_products(x)[j]) && m1[
                    self.author_products(x)[j]].author == x by {
                    let pid = old(self).author_products(x)[j];
                    assert(old(self).products_model().contains_key(pid));
                    assert(old(self).products_model()[pid].author == x);
                }
            }
            assert forall|c: ChainId| #![trigger self.chain_products(c)]
                {
                    &&& no_dups(self.chain_products(c))
                    &&& forall|j: int|
                        0 <= j < self.chain_products(c).len() ==> m1.contains_key(
                            #[trigger] self.chain_products(c)[j],
                        ) && m1[self.chain_products(c)[j]].author_chain_id == c
                } by {
                assert(self.chain_products(c) == old(self).chain_products(c));
                assert forall|j: int| 0 <= j < self.chain_products(c).len() implies
                    m1.contains_key(#[trigger] self.chain_products(c)[j]) && m1[
                    self.chain_products(c)[j]].author_chain_id == c by {
                    let pid = old(self).chain_products(c)[j];
                    assert(old(self).products_model().contains_key(pid));
                    assert(old(self).products_model()[pid].author_chain_id == c);
                }
            }
            assert(self.products_inv());
        }
        Ok(())
    }

    /// Deletes a product.  Fails with `NotFound` when the id is absent and
    /// `Unauthorized` when the caller is not the stored author; a successful
    /// deletion removes the id from the map and from every index list.
    pub fn delete_product(&mut self, product_id: ProductId, author: Owner) -> (r: Result<
        (),
        DonationsError,
    >)
        requires
            old(self).inv(),
        ensures
            final(self).inv(),
            r == if !old(self).products_model().contains_key(product_id) {
                Err::<(), DonationsError>(DonationsError::NotFound)
            } else if old(self).products_model()[product_id].author != author {
                Err::<(), DonationsError>(DonationsError::Unauthorized)
            } else {
                Ok::<(), DonationsError>(())
            },
            r is Err ==> *final(self) == *old(self),
            r is Ok ==> {
                &&& final(self).products_model() == old(self).products_model().remove(product_id)
                &&& forall|x: Owner| #[trigger]
                    final(self).author_products(x) == seq_without(
                        old(self).author_products(x),
                        product_id,
                    )
                &&& forall|c: ChainId| #[trigger]
                    final(self).chain_products(c) == seq_without(
                        old(self).chain_products(c),
                        product_id,
                    )
            },
            final(self).donations_same(*old(self)),
            final(self).profiles_same(*old(self)),
            final(self).registry_same(*old(self)),
            final(self).prices_same(*old(self)),
            final(self).purchases_same(*old(self)),
            final(self).subs_same(*old(self)),
            final(self).posts_same(*old(self)),
            final(self).donation_counter == old(self).donation_counter,
    {
        proof {
            assert(self.products@.dom() =~= self.products_model().dom());
        }
        match self.products.get(&product_id) {
            None => {
                return Err(DonationsError::NotFound);
            },
            Some(p) => {
                if !(p.author == author) {
                    return Err(DonationsError::Unauthorized);
                }
            },
        }
        let _ = self.detach_product(product_id);
        Ok(())
    }

    /// The products of an author, in listing order.
    pub fn list_products_by_author(&self, author: Owner) -> (r: Vec<Product>)
        requires
            self.inv(),
        ensures
            r.deep_view() == lookup_products(self.products_model(), self.author_products(author)),
    {
        let ghost m = self.products_model();
        let ghost ids_g = self.author_products(author);
        let mut r: Vec<Product> = Vec::new();
        let ids: &Vec<ProductId> = match self.products_by_author.get(&author) {
            Some(v) => v,
            None => {
                proof {
                    assert(ids_g =~= Seq::<ProductId>::empty());
                    assert(r.deep_view() =~= lookup_products(m, ids_g));
                }
                return r;
            },
        };
        let n = ids.len();
        let mut j: usize = 0;
        while j < n
            invariant
                self.inv(),
                m == self.products_model(),
                ids_g == self.author_products(author),
                ids@ == ids_g,
                n == ids@.len(),
                j <= n,
                r@.len() == j,
                forall|t: int| 0 <= t < j ==> (#[trigger] r@[t]).deep_view() == m[ids_g[t]],
            decreases n - j,
        {
            let id = ids[j];
            proof {
                assert(m.contains_key(ids_g[j as int]));
                assert(self.products@.contains_key(id) == m.contains_key(id)) by {
                    assert(self.products@.dom() =~= m.dom());
                }
            }
            match self.products.get(&id) {
                Some(p) => {
                    r.push(p.duplicate());
                },
                None => {
                    proof {
                        assert(false);
                    }
                },
            }
            j = j + 1;
        }
        proof {
            assert forall|t: int| 0 <= t < ids_g.len() implies r.deep_view()[t] == lookup_products(
                m,
                ids_g,
            )[t] by {
                assert(r@[t].deep_view() == m[ids_g[t]]);
            }
            assert(r.deep_view() =~= lookup_products(m, ids_g));
        }
        r
    }

    /// Removes a purchase from the map and from both its index lists,
    /// handing back the stored value.
    pub(crate) fn detach_purchase(&mut self, id: PurchaseId) -> (r: Option<Purchase>)
        requires
            old(self).inv(),
        ensures
            final(self).inv(),
            final(self).purchases_model() == old(self).purchases_model().remove(id),
            r matches Some(p) ==> old(self).purchases_model().contains_key(id) && p.deep_view()
                == old(self).purchases_model()[id],
            r is None ==> !old(self).purchases_model().contains_key(id),
            forall|x: Owner| #[trigger]
                final(self).buyer_purchases(x) == seq_without(old(self).buyer_purchases(x), id),
            forall|x: Owner| #[trigger]
                final(self).seller_purchases(x) == seq_without(old(self).seller_purchases(x), id),
            final(self).donations_same(*old(self)),
            final(self).profiles_same(*old(self)),
            final(self).registry_same(*old(self)),
            final(self).prices_same(*old(self)),
            final(self).products_same(*old(self)),
            final(self).subs_same(*old(self)),
            final(self).posts_same(*old(self)),
            final(self).donation_counter == old(self).donation_counter,
    {
        let ghost m0 = old(self).purchases_model();
        let r = self.purchases.remove(&id);
        proof {
            lemma_map_values_remove(old(self).purchases@, id, |p: Purchase| p.deep_view());
            assert(m0.dom() =~= old(self).purchases@.dom());
        }
        match r {
            Some(p) => {
                let buyer = p.buyer;
                let seller = p.seller;
                proof {
                    assert(p.deep_view() == m0[id]);
                }
                remove_from_list(&mut self.purchases_by_buyer, buyer, id);
                remove_from_list(&mut self.purchases_by_seller, seller, id);
                proof {
                    lemma_same_invs(*old(self), *self);
                    let m1 = self.purchases_model();
                    assert(m1 == m0.remove(id));
                    assert forall|x: Owner| #[trigger]
                        self.buyer_purchases(x) == seq_without(
                            old(self).buyer_purchases(x),
                            id,
                        ) by {
                        lemma_seq_without(old(self).buyer_purchases(x), id);
                        if x != buyer {
                            assert(self.buyer_purchases(x) == old(self).buyer_purchases(x));
                            if old(self).buyer_purchases(x).contains(id) {
                                assert(m0[id].buyer == x);
                                assert(false);
                            }
                        }
                    }
                    assert forall|x: Owner| #[trigger]
                        self.seller_purchases(x) == seq_without(
                            old(self).seller_purchases(x),
                            id,
                        ) by {
                        lemma_seq_without(old(self).seller_purchases(x), id);
                        if x != seller {
                            assert(self.seller_purchases(x) == old(self).seller_purchases(x));
                            if old(self).seller_purchases(x).contains(id) {
                                assert(m0[id].seller == x);
                                assert(false);
                            }
                        }
                    }
                    assert forall|pid: PurchaseId| m1.contains_key(pid) implies {
                        let q = #[trigger] m1[pid];
                        &&& q.id == pid
                        &&& self.buyer_purchases(q.buyer).contains(pid)
                        &&& self.seller_purchases(q.seller).contains(pid)
                    } by {
                        assert(m0.contains_key(pid) && pid != id);
                        let q = m0[pid];
                        lemma_seq_without(old(self).buyer_purchases(q.buyer), id);
                        lemma_seq_without(old(self).seller_purchases(q.seller), id);
                        assert(old(self).buyer_purchases(q.buyer).contains(pid));
                        assert(old(self).seller_purchases(q.seller).contains(pid));
                    }
                    assert forall|x: Owner| #![trigger self.buyer_purchases(x)]
                        {
                            &&& no_dups(self.buyer_purchases(x))
                            &&& forall|j: int|
                                0 <= j < self.buyer_purchases(x).len() ==> m1.contains_key(
                                    #[trigger] self.buyer_purchases(x)[j],
                                ) && m1[self.buyer_purchases(x)[j]].buyer == x
                        } by {
                        lemma_seq_without(old(self).buyer_purchases(x), id);
                        assert forall|j: int| 0 <= j < self.buyer_purchases(x).len() implies
                            m1.contains_key(#[trigger] self.buyer_purchases(x)[j]) && m1[
                            self.buyer_purchases(x)[j]].buyer == x by {
                            let pid = self.buyer_purchases(x)[j];
                            assert(old(self).buyer_purchases(x).contains(pid));
                            assert(pid != id);
                        }
                    }
                    assert forall|x: Owner| #![trigger self.seller_purchases(x)]
                        {
                            &&& no_dups(self.seller_purchases(x))
                            &&& forall|j: int|
                                0 <= j < self.seller_purchases(x).len() ==> m1.contains_key(
                                    #[trigger] self.seller_purchases(x)[j],
                                ) && m1[self.seller_purchases(x)[j]].seller == x
                        } by {
                        lemma_seq_without(old(self).seller_purchases(x), id);
                        assert forall|j: int| 0 <= j < self.seller_purchases(x).len() implies
                            m1.contains_key(#[trigger] self.seller_purchases(x)[j]) && m1[
                            self.seller_purchases(x)[j]].seller == x by {
                            let pid = self.seller_purchases(x)[j];
                            assert(old(self).seller_purchases(x).contains(pid));
                            assert(pid != id);
                        }
                    }
                    assert(self.purchases_inv());
                }
                Some(p)
            },
            None => {
                proof {
                    assert(self.purchases_model() =~= m0.remove(id));
                    lemma_same_invs(*old(self), *self);
                    assert forall|x: Owner| #[trigger]
                        self.buyer_purchases(x) == seq_without(
                            old(self).buyer_purchases(x),
                            id,
                        ) by {
                        lemma_seq_without(old(self).buyer_purchases(x), id);
                        if old(self).buyer_purchases(x).contains(id) {
                            assert(m0.contains_key(id));
                            assert(false);
                        }
                    }
                    assert forall|x: Owner| #[trigger]
                        self.seller_purchases(x) == seq_without(
                            old(self).seller_purchases(x),
                            id,
                        ) by {
                        lemma_seq_without(old(self).seller_purchases(x), id);
                        if old(self).seller_purchases(x).contains(id) {
                            assert(m0.contains_key(id));
                            assert(false);
                        }
                    }
                    assert(self.purchases_inv());
                }
                None
            },
        }
    }

    /// Records a purchase under its id, replacing any previous purchase with
    /// that id, and indexes it by buyer and by seller.  The buyer's answers
    /// and the snapshot's field maps must be maps: no repeated keys.
    pub fn record_purchase(&mut self, purchase: Purchase)
        requires
            old(self).inv(),
            crate::types::field_keys_unique(purchase.deep_view().order_data),
            crate::types::field_keys_unique(purchase.deep_view().product.public_data),
            crate::types::field_keys_unique(purchase.deep_view().product.private_data),
        ensures
            final(self).inv(),
            final(self).purchases_model() == old(self).purchases_model().insert(
                purchase.id,
                purchase.deep_view(),
            ),
            final(self).buyer_purchases(purchase.buyer) == seq_without(
                old(self).buyer_purchases(purchase.buyer),
                purchase.id,
            ).push(purchase.id),
            final(self).seller_purchases(purchase.seller) == seq_without(
                old(self).seller_purchases(purchase.seller),
                purchase.id,
            ).push(purchase.id),
            forall|x: Owner|
                x != purchase.buyer ==> #[trigger] final(self).buyer_purchases(x) == seq_without(
                    old(self).buyer_purchases(x),
                    purchase.id,
                ),
            forall|x: Owner|
                x != purchase.seller ==> #[trigger] final(self).seller_purchases(x) == seq_without(
                    old(self).seller_purchases(x),
                    purchase.id,
                ),
            final(self).donations_same(*old(self)),
            final(self).profiles_same(*old(self)),
            final(self).registry_same(*old(self)),
            final(self).prices_same(*old(self)),
            final(self).products_same(*old(self)),
            final(self).subs_same(*old(self)),
            final(self).posts_same(*old(self)),
            final(self).donation_counter == old(self).donation_counter,
    {
        let id = purchase.id;
        let buyer = purchase.buyer;
        let seller = purchase.seller;
        let ghost pm = purchase.deep_view();
        let _ = self.detach_purchase(id);
        let ghost mid = *self;
        self.purchases.insert(id, purchase);
        push_to_list(&mut self.purchases_by_buyer, buyer, id);
        push_to_list(&mut self.purchases_by_seller, seller, id);
        proof {
            lemma_map_values_insert(mid.purchases@, id, purchase, |p: Purchase| p.deep_view());
            lemma_same_invs(mid, *self);
            let m1 = self.purchases_model();
            assert(m1 == mid.purchases_model().insert(id, pm));
            assert(m1 =~= old(self).purchases_model().insert(id, pm));
            assert(self.buyer_purchases(buyer) == mid.buyer_purchases(buyer).push(id));
            assert(self.seller_purchases(seller) == mid.seller_purchases(seller).push(id));
            assert forall|pid: PurchaseId| m1.contains_key(pid) implies {
                let q = #[trigger] m1[pid];
                &&& q.id == pid
                &&& self.buyer_purchases(q.buyer).contains(pid)
                &&& self.seller_purchases(q.seller).contains(pid)
            } by {
                if pid == id {
                    assert(self.buyer_purchases(buyer).last() == id);
                    assert(self.seller_purchases(seller).last() == id);
                } else {
                    let q = mid.purchases_model()[pid];
                    assert(mid.buyer_purchases(q.buyer).contains(pid));
                    let j = choose|j: int|
                        0 <= j < mid.buyer_purchases(q.buyer).len() && mid.buyer_purchases(
                            q.buyer,
                        )[j] == pid;
                    if q.buyer == buyer {
                        assert(self.buyer_purchases(buyer)[j] == pid);
                    } else {
                        assert(self.buyer_purchases(q.buyer) == mid.buyer_purchases(q.buyer));
                    }
                    assert(self.buyer_purchases(q.buyer).contains(pid));
                    assert(mid.seller_purchases(q.seller).contains(pid));
                    let j2 = choose|j2: int|
                        0 <= j2 < mid.seller_purchases(q.seller).len() && mid.seller_purchases(
                            q.seller,
                        )[j2] == pid;
                    if q.seller == seller {
                        assert(self.seller_purchases(seller)[j2] == pid);
                    } else {
                        assert(self.seller_purchases(q.seller) == mid.seller_purchases(q.seller));
                    }
                    assert(self.seller_purchases(q.seller).contains(pid));
                }
            }
            assert forall|x: Owner| #![trigger self.buyer_purchases(x)]
                {
                    &&& no_dups(self.buyer_purchases(x))
                    &&& forall|j: int|
                        0 <= j < self.buyer_purchases(x).len() ==> m1.contains_key(
                            #[trigger] self.buyer_purchases(x)[j],
                        ) && m1[self.buyer_purchases(x)[j]].buyer == x
                } by {
                lemma_seq_without(old(self).buyer_purchases(x), id);
                if x == buyer {
                    let base = mid.buyer_purchases(x);
                    assert(!base.contains(id));
                    assert forall|j: int, j2: int|
                        0 <= j < j2 < self.buyer_purchases(x).len() implies self.buyer_purchases(
                            x,
                        )[j] != self.buyer_purchases(x)[j2] by {
                        if j2 == self.buyer_purchases(x).len() - 1 {
                            assert(self.buyer_purchases(x)[j] == base[j]);
                            assert(base.contains(base[j]));
                        }
                    }
                    assert forall|j: int| 0 <= j < self.buyer_purchases(x).len() implies
                        m1.contains_key(#[trigger] self.buyer_purchases(x)[j]) && m1[
                        self.buyer_purchases(x)[j]].buyer == x by {
                        if j < self.buyer_purchases(x).len() - 1 {
                            let pid = base[j];
                            assert(mid.purchases_model().contains_key(pid));
                            assert(pid != id);
                        }
                    }
                } else {
                    assert(self.buyer_purchases(x) == mid.buyer_purchases(x));
                    assert forall|j: int| 0 <= j < self.buyer_purchases(x).len() implies
                        m1.contains_key(#[trigger] self.buyer_purchases(x)[j]) && m1[
                        self.buyer_purchases(x)[j]].buyer == x by {
                        let pid = mid.buyer_purchases(x)[j];
                        assert(mid.purchases_model().contains_key(pid));
                        assert(mid.purchases_model()[pid].buyer == x);
                        assert(pid != id);
                    }
                }
            }
            assert forall|x: Owner| #![trigger self.seller_purchases(x)]
                {
                    &&& no_dups(self.seller_purchases(x))
                    &&& forall|j: int|
                        0 <= j < self.seller_purchases(x).len() ==> m1.contains_key(
                            #[trigger] self.seller_purchases(x)[j],
                        ) && m1[self.seller_purchases(x)[j]].seller == x
                } by {
                lemma_seq_without(old(self).seller_purchases(x), id);
                if x == seller {
                    let base = mid.seller_purchases(x);
                    assert(!base.contains(id));
                    assert forall|j: int, j2: int|
                        0 <= j < j2 < self.seller_purchases(x).len() implies self.seller_purchases(
                            x,
                        )[j] != self.seller_purchases(x)[j2] by {
                        if j2 == self.seller_purchases(x).len() - 1 {
                            assert(self.seller_purchases(x)[j] == base[j]);
                            assert(base.contains(base[j]));
                        }
                    }
                    assert forall|j: int| 0 <= j < self.seller_purchases(x).len() implies
                        m1.contains_key(#[trigger] self.seller_purchases(x)[j]) && m1[
                        self.seller_purchases(x)[j]].seller == x by {
                        if j < self.seller_purchases(x).len() - 1 {
                            let pid = base[j];
                            assert(mid.purchases_model().contains_key(pid));
                            assert(pid != id);
                        }
                    }
                } else {
                    assert(self.seller_purchases(x) == mid.seller_purchases(x));
                    assert forall|j: int| 0 <= j < self.seller_purchases(x).len() implies
                        m1.contains_key(#[trigger] self.seller_purchases(x)[j]) && m1[
                        self.seller_purchases(x)[j]].seller == x by {
                        let pid = mid.seller_purchases(x)[j];
                        assert(mid.purchases_model().contains_key(pid));
                        assert(mid.purchases_model()[pid].seller == x);
                        assert(pid != id);
                    }
                }
            }
            assert(self.purchases_inv());
            assert forall|x: Owner| x != buyer implies #[trigger] self.buyer_purchases(x)
                == seq_without(old(self).buyer_purchases(x), id) by {
                assert(self.buyer_purchases(x) == mid.buyer_purchases(x));
                assert(mid.buyer_purchases(x) == seq_without(old(self).buyer_purchases(x), id));
            }
            assert forall|x: Owner| x != seller implies #[trigger] self.seller_purchases(x)
                == seq_without(old(self).seller_purchases(x), id) by {
                assert(self.seller_purchases(x) == mid.seller_purchases(x));
                assert(mid.seller_purchases(x) == seq_without(old(self).seller_purchases(x), id));
            }
        }
    }

    /// The purchases of a buyer, in listing order.
    pub fn list_purchases_by_buyer(&self, buyer: Owner) -> (r: Vec<Purchase>)
        requires
            self.inv(),
        ensures
            r.deep_view() == lookup_purchases(self.purchases_model(), self.buyer_purchases(buyer)),
    {
        let ghost m = self.purchases_model();
        let ghost ids_g = self.buyer_purchases(buyer);
        let mut r: Vec<Purchase> = Vec::new();
        let ids: &Vec<PurchaseId> = match self.purchases_by_buyer.get(&buyer) {
            Some(v) => v,
            None => {
                proof {
                    assert(ids_g =~= Seq::<PurchaseId>::empty());
                    assert(r.deep_view() =~= lookup_purchases(m, ids_g));
                }
                return r;
            },
        };
        let n = ids.len();
        let mut j: usize = 0;
        while j < n
            invariant
                self.inv(),
                m == self.purchases_model(),
                ids_g == self.buyer_purchases(buyer),
                ids@ == ids_g,
                n == ids@.len(),
                j <= n,
                r@.len() == j,
                forall|t: int| 0 <= t < j ==> (#[trigger] r@[t]).deep_view() == m[ids_g[t]],
            decreases n - j,
        {
            let id = ids[j];
            proof {
                assert(m.contains_key(ids_g[j as int]));
                assert(self.purchases@.contains_key(id) == m.contains_key(id)) by {
                    assert(self.purchases@.dom() =~= m.dom());
                }
            }
            match self.purchases.get(&id) {
                Some(p) => {
                    r.push(p.duplicate());
                },
                None => {
                    proof {
                        assert(false);
                    }
                },
            }
            j = j + 1;
        }
        proof {
            assert forall|t: int| 0 <= t < ids_g.len() implies r.deep_view()[t] == lookup_purchases(
                m,
                ids_g,
            )[t] by {
                assert(r@[t].deep_view() == m[ids_g[t]]);
            }
            assert(r.deep_view() =~= lookup_purchases(m, ids_g));
        }
        r
    }

    /// The purchases of a seller, in listing order.
    pub fn list_purchases_by_seller(&self, seller: Owner) -> (r: Vec<Purchase>)
        requires
            self.inv(),
        ensures
            r.deep_view() == lookup_purchases(
                self.purchases_model(),
                self.seller_purchases(seller),
            ),
    {
        let ghost m = self.purchases_model();
        let ghost ids_g = self.seller_purchases(seller);
        let mut r: Vec<Purchase> = Vec::new();
        let ids: &Vec<PurchaseId> = match self.purchases_by_seller.get(&seller) {
            Some(v) => v,
            None => {
                proof {
                    assert(ids_g =~= Seq::<PurchaseId>::empty());
                    assert(r.deep_view() =~= lookup_purchases(m, ids_g));
                }
                return r;
            },
        };
        let n = ids.len();
        let mut j: usize = 0;
        while j < n
            invariant
                self.inv(),
                m == self.purchases_model(),
                ids_g == self.seller_purchases(seller),
                ids@ == ids_g,
                n == ids@.len(),
                j <= n,
                r@.len() == j,
                forall|t: int| 0 <= t < j ==> (#[trigger] r@[t]).deep_view() == m[ids_g[t]],
            decreases n - j,
        {
            let id = ids[j];
            proof {
                assert(m.contains_key(ids_g[j as int]));
                assert(self.purchases@.contains_key(id) == m.contains_key(id)) by {
                    assert(self.purchases@.dom() =~= m.dom());
                }
            }
            match self.purchases.get(&id) {
                Some(p) => {
                    r.push(p.duplicate());
                },
                None => {
                    proof {
                        assert(false);
                    }
                },
            }
            j = j + 1;
        }
        proof {
            assert forall|t: int| 0 <= t < ids_g.len() implies r.deep_view()[t] == lookup_purchases(
                m,
                ids_g,
            )[t] by {
                assert(r@[t].deep_view() == m[ids_g[t]]);
            }
            assert(r.deep_view() =~= lookup_purchases(m, ids_g));
        }
        r
    }
}

} // verus!
