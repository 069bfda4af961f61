//! An in-memory relational store over the five entity tables. The store
//! assigns primary keys serially on insert, refuses rows whose foreign
//! keys reference no existing row, and reports refusals as typed errors
//! instead of aborting.

use vstd::prelude::*;
use crate::models::{
    User, NewUser, UserView, Invoice, NewInvoice, InvoiceView, InvoiceProof, NewInvoiceProof,
    InvoiceProofView, InvoicePermissions, NewInvoicePermissions, InvoicePermissionsView,
    InvoiceLineItem, NewInvoiceLineItem, InvoiceLineItemView, opt_bytes_view,
};
use crate::hashing::{verifies, phc_prefixed, hash_password, verify_password};

verus! {

/// Why an operation was refused: the password-hashing step failed, or an
/// inserted row referenced a primary key that no row carries.
#[derive(Clone, Copy, Debug, PartialEq, Eq, Structural)]
pub enum StoreError {
    HashFailure,
    ForeignKeyViolation,
}

/// Whether some user row in `users` carries primary key `id`.
pub open spec fn has_user_in(users: Seq<UserView>, id: int) -> bool {
    exists|j: int| 0 <= j < users.len() && (#[trigger] users[j]).user_id == id
}

/// Whether some invoice row in `invoices` carries primary key `id`.
pub open spec fn has_invoice_in(invoices: Seq<InvoiceView>, id: int) -> bool {
    exists|j: int| 0 <= j < invoices.len() && (#[trigger] invoices[j]).invoice_id == id
}

/// Whether some line-item row in `items` carries primary key `id`.
pub open spec fn has_line_item_in(items: Seq<InvoiceLineItemView>, id: int) -> bool {
    exists|j: int| 0 <= j < items.len() && (#[trigger] items[j]).id == id
}

/// The user row built from the insertable `n` under primary key `id`.
pub open spec fn user_row(n: NewUser, id: int) -> UserView {
    UserView {
        user_id: id,
        username: n.username@,
        email: n.email@,
        profile_picture: opt_bytes_view(n.profile_picture),
        password_hash: n.password_hash@,
    }
}

/// The invoice row built from the insertable `n` under primary key `id`.
pub open spec fn invoice_row(n: NewInvoice, id: int) -> InvoiceView {
    InvoiceView { invoice_id: id, owner_id: n.owner_id as int }
}

/// The proof row built from the insertable `n` under primary key `id`.
pub open spec fn invoice_proof_row(n: NewInvoiceProof, id: int) -> InvoiceProofView {
    InvoiceProofView { proof_id: id, invoice_id: n.invoice_id as int, data: n.data@ }
}

/// The permissions row built from the insertable `n` under primary key `id`.
pub open spec fn invoice_permissions_row(n: NewInvoicePermissions, id: int) -> InvoicePermissionsView {
    InvoicePermissionsView {
        access_id: id,
        borrower_id: n.borrower_id as int,
        invoice_id: n.invoice_id as int,
        read_access: n.read_access,
        write_access: n.write_access,
    }
}

/// The line-item row built from the insertable `n` under primary key `id`.
pub open spec fn invoice_line_item_row(n: NewInvoiceLineItem, id: int) -> InvoiceLineItemView {
    InvoiceLineItemView {
        id: id,
        invoice_id: n.invoice_id as int,
        item_name: n.item_name@,
        item_price_usd: n.item_price_usd.0 as int,
    }
}

/// The five tables of the schema, held in memory. Each `Vec` is one table;
/// row order is insertion order.
pub struct Store {
    pub users: Vec<User>,
    pub invoices: Vec<Invoice>,
    pub invoice_proofs: Vec<InvoiceProof>,
    pub invoice_permissions: Vec<InvoicePermissions>,
    pub invoice_line_items: Vec<InvoiceLineItem>,
}

impl Store {
    /// The `users` table as a sequence of row contents.
    pub open spec fn users_view(self) -> Seq<UserView> {
        self.users@.map_values(|u: User| u@)
    }

    /// The `invoices` table as a sequence of row contents.
    pub open spec fn invoices_view(self) -> Seq<InvoiceView> {
        self.invoices@.map_values(|v: Invoice| v@)
    }

    /// The `invoice_proof` table as a sequence of row contents.
    pub open spec fn invoice_proofs_view(self) -> Seq<InvoiceProofView> {
        self.invoice_proofs@.map_values(|p: InvoiceProof| p@)
    }

    /// The `invoice_permissions` table as a sequence of row contents.
    pub open spec fn invoice_permissions_view(self) -> Seq<InvoicePermissionsView> {
        self.invoice_permissions@.map_values(|p: InvoicePermissions| p@)
    }

    /// The `invoice_line_items` table as a sequence of row contents.
    pub open spec fn invoice_line_items_view(self) -> Seq<InvoiceLineItemView> {
        self.invoice_line_items@.map_values(|l: InvoiceLineItem| l@)
    }

    /// Well-formedness of the store: every table's primary keys are assigned
    /// serially from 1 in insertion order, and every foreign key references
    /// an existing row — an invoice's owner is a user, and proofs,
    /// permissions and line items hang off existing invoices (permissions
    /// also off an existing borrower).
    pub open spec fn wf(self) -> bool {
        &&& forall|i: int| 0 <= i < self.users_view().len()
            ==> (#[trigger] self.users_view()[i]).user_id == i + 1
        &&& forall|i: int| 0 <= i < self.invoices_view().len()
            ==> (#[trigger] self.invoices_view()[i]).invoice_id == i + 1
        &&& forall|i: int| 0 <= i < self.invoice_proofs_view().len()
            ==> (#[trigger] self.invoice_proofs_view()[i]).proof_id == i + 1
        &&& forall|i: int| 0 <= i < self.invoice_permissions_view().len()
            ==> (#[trigger] self.invoice_permissions_view()[i]).access_id == i + 1
        &&& forall|i: int| 0 <= i < self.invoice_line_items_view().len()
            ==> (#[trigger] self.invoice_line_items_view()[i]).id == i + 1
        &&& forall|i: int| 0 <= i < self.invoices_view().len()
            ==> has_user_in(self.users_view(), (#[trigger] self.invoices_view()[i]).owner_id)
        &&& forall|i: int| 0 <= i < self.invoice_proofs_view().len()
            ==> has_invoice_in(self.invoices_view(), (#[trigger] self.invoice_proofs_view()[i]).invoice_id)
        &&& forall|i: int| 0 <= i < self.invoice_permissions_view().len()
            ==> has_user_in(self.users_view(), (#[trigger] self.invoice_permissions_view()[i]).borrower_id)
        &&& forall|i: int| 0 <= i < self.invoice_permissions_view().len()
            ==> has_invoice_in(self.invoices_view(), (#[trigger] self.invoice_permissions_view()[i]).invoice_id)
        &&& forall|i: int| 0 <= i < self.invoice_line_items_view().len()
            ==> has_invoice_in(self.invoices_view(), (#[trigger] self.invoice_line_items_view()[i]).invoice_id)
    }

    /// An empty store: five empty tables.
    pub fn new() -> (s: Store)
        ensures
            s.wf(),
            s.users_view() == Seq::<UserView>::empty(),
            s.invoices_view() == Seq::<InvoiceView>::empty(),
            s.invoice_proofs_view() == Seq::<InvoiceProofView>::empty(),
            s.invoice_permissions_view() == Seq::<InvoicePermissionsView>::empty(),
            s.invoice_line_items_view() == Seq::<InvoiceLineItemView>::empty(),
    {
        let s = Store {
            users: Vec::new(),
            invoices: Vec::new(),
            invoice_proofs: Vec::new(),
            invoice_permissions: Vec::new(),
            invoice_line_items: Vec::new(),
        };
        proof {
            assert(s.users_view() =~= Seq::<UserView>::empty());
            assert(s.invoices_view() =~= Seq::<InvoiceView>::empty());
            assert(s.invoice_proofs_view() =~= Seq::<InvoiceProofView>::empty());
            assert(s.invoice_permissions_view() =~= Seq::<InvoicePermissionsView>::empty());
            assert(s.invoice_line_items_view() =~= Seq::<InvoiceLineItemView>::empty());
        }
        s
    }

    /// Whether a user row with primary key `id` exists: resolves a
    /// foreign key into the `users` table.
    pub fn has_user(&self, id: i64) -> (b: bool)
        ensures
            b == has_user_in(self.users_view(), id as int),
    {
        let mut i: usize = 0;
        while i < self.users.len()
            invariant
                i <= self.users@.len(),
                forall|j: int| 0 <= j < i ==> (#[trigger] self.users_view()[j]).user_id != id as int,
            decreases self.users@.len() - i,
        {
            if self.users[i].user_id == id {
                proof {
                    assert((self.users_view()[i as int]).user_id == id as int);
                }
                return true;
            }
            i = i + 1;
        }
        false
    }

    /// Inserts a user row built from `new_user`, assigning the next primary
    /// key, and returns the populated row. The `users` table has no foreign
    /// key, so insertion always succeeds.
    pub fn insert_user(&mut self, new_user: NewUser) -> (u: User)
        requires
            old(self).wf(),
            old(self).users_view().len() < i64::MAX,
        ensures
            final(self).wf(),
            u@ == user_row(new_user, old(self).users_view().len() as int + 1),
            final(self).users_view() == old(self).users_view().push(u@),
            final(self).invoices_view() == old(self).invoices_view(),
            final(self).invoice_proofs_view() == old(self).invoice_proofs_view(),
            final(self).invoice_permissions_view() == old(self).invoice_permissions_view(),
            final(self).invoice_line_items_view() == old(self).invoice_line_items_view(),
    {
        let id: i64 = (self.users.len() as i64) + 1;
        let stored = User {
            user_id: id,
            username: new_user.username.clone(),
            email: new_user.email.clone(),
            profile_picture: clone_opt_bytes(&new_user.profile_picture),
            password_hash: new_user.password_hash.clone(),
        };
        let u = User {
            user_id: id,
            username: new_user.username,
            email: new_user.email,
            profile_picture: new_user.profile_picture,
            password_hash: new_user.password_hash,
        };
        proof {
            assert(stored@ == u@);
        }
        self.users.push(stored);
        proof {
            assert(self.users_view() =~= old(self).users_view().push(u@));
            assert(self.invoices_view() == old(self).invoices_view());
            assert(self.invoice_proofs_view() == old(self).invoice_proofs_view());
            assert(self.invoice_permissions_view() == old(self).invoice_permissions_view());
            assert(self.invoice_line_items_view() == old(self).invoice_line_items_view());
            assert forall|i: int| 0 <= i < self.users_view().len()
                implies (#[trigger] self.users_view()[i]).user_id == i + 1 by {
                if i < old(self).users_view().len() {
                    assert(self.users_view()[i] == old(self).users_view()[i]);
                } else {
                    assert(self.users_view()[i] == u@);
                }
            }
            assert forall|i: int| 0 <= i < self.invoices_view().len()
                implies has_user_in(self.users_view(), (#[trigger] self.invoices_view()[i]).owner_id) by {
                assert(self.invoices_view()[i] == old(self).invoices_view()[i]);
                lemma_has_user_push(old(self).users_view(), u@, old(self).invoices_view()[i].owner_id);
            }
            assert forall|i: int| 0 <= i < self.invoice_permissions_view().len()
                implies has_user_in(self.users_view(), (#[trigger] self.invoice_permissions_view()[i]).borrower_id) by {
                assert(self.invoice_permissions_view()[i] == old(self).invoice_permissions_view()[i]);
                lemma_has_user_push(old(self).users_view(), u@, old(self).invoice_permissions_view()[i].borrower_id);
            }
        }
        u
    }

    /// Inserts an invoice row built from `new_invoice`, assigning the next
    /// primary key. The row is refused with a foreign-key violation exactly
    /// when its owner references no existing user.
    pub fn insert_invoice(&mut self, new_invoice: NewInvoice) -> (r: Result<Invoice, StoreError>)
        requires
            old(self).wf(),
            old(self).invoices_view().len() < i64::MAX,
        ensures
            final(self).wf(),
            (r is Ok) == has_user_in(old(self).users_view(), new_invoice.owner_id as int),
            match r {
                Ok(inv) => {
                    &&& inv@ == invoice_row(new_invoice, old(self).invoices_view().len() as int + 1)
                    &&& final(self).invoices_view() == old(self).invoices_view().push(inv@)
                    &&& final(self).users_view() == old(self).users_view()
                    &&& final(self).invoice_proofs_view() == old(self).invoice_proofs_view()
                    &&& final(self).invoice_permissions_view() == old(self).invoice_permissions_view()
                    &&& final(self).invoice_line_items_view() == old(self).invoice_line_items_view()
                },
                Err(e) => {
                    &&& e == StoreError::ForeignKeyViolation
                    &&& *final(self) == *old(self)
                },
            },
    {
        if !self.has_user(new_invoice.owner_id) {
            return Err(StoreError::ForeignKeyViolation);
        }
        let id: i64 = (self.invoices.len() as i64) + 1;
        let inv = Invoice { invoice_id: id, owner_id: new_invoice.owner_id };
        self.invoices.push(inv);
        proof {
            assert(self.invoices_view() =~= old(self).invoices_view().push(inv@));
            assert(self.users_view() == old(self).users_view());
            assert(self.invoice_proofs_view() == old(self).invoice_proofs_view());
            assert(self.invoice_permissions_view() == old(self).invoice_permissions_view());
            assert(self.invoice_line_items_view() == old(self).invoice_line_items_view());
            assert forall|i: int| 0 <= i < self.invoice_proofs_view().len()
                implies has_invoice_in(self.invoices_view(), (#[trigger] self.invoice_proofs_view()[i]).invoice_id) by {
                assert(self.invoice_proofs_view()[i] == old(self).invoice_proofs_view()[i]);
                lemma_has_invoice_push(old(self).invoices_view(), inv@, old(self).invoice_proofs_view()[i].invoice_id);
            }
            assert forall|i: int| 0 <= i < self.invoice_permissions_view().len()
                implies has_invoice_in(self.invoices_view(), (#[trigger] self.invoice_permissions_view()[i]).invoice_id) by {
                assert(self.invoice_permissions_view()[i] == old(self).invoice_permissions_view()[i]);
                lemma_has_invoice_push(old(self).invoices_view(), inv@, old(self).invoice_permissions_view()[i].invoice_id);
            }
            assert forall|i: int| 0 <= i < self.invoice_line_items_view().len()
                implies has_invoice_in(self.invoices_view(), (#[trigger] self.invoice_line_items_view()[i]).invoice_id) by {
                assert(self.invoice_line_items_view()[i] == old(self).invoice_line_items_view()[i]);
                lemma_has_invoice_push(old(self).invoices_view(), inv@, old(self).invoice_line_items_view()[i].invoice_id);
            }
        }
        Ok(inv)
    }

    /// Inserts a proof row built from `new_proof`, assigning the next
    /// primary key. The row is refused with a foreign-key violation exactly
    /// when it references no existing invoice; the attached data is stored
    /// byte for byte.
    pub fn insert_invoice_proof(&mut self, new_proof: NewInvoiceProof) -> (r: Result<InvoiceProof, StoreError>)
        requires
            old(self).wf(),
            old(self).invoice_proofs_view().len() < i64::MAX,
        ensures
            final(self).wf(),
            (r is Ok) == has_invoice_in(old(self).invoices_view(), new_proof.invoice_id as int),
            match r {
                Ok(row) => {
                    &&& row@ == invoice_proof_row(new_proof, old(self).invoice_proofs_view().len() as int + 1)
                    &&& final(self).invoice_proofs_view() == old(self).invoice_proofs_view().push(row@)
                    &&& final(self).users_view() == old(self).users_view()
                    &&& final(self).invoices_view() == old(self).invoices_view()
                    &&& final(self).invoice_permissions_view() == old(self).invoice_permissions_view()
                    &&& final(self).invoice_line_items_view() == old(self).invoice_line_items_view()
                },
                Err(e) => {
                    &&& e == StoreError::ForeignKeyViolation
                    &&& *final(self) == *old(self)
                },
            },
    {
        if !self.has_invoice(new_proof.invoice_id) {
            return Err(StoreError::ForeignKeyViolation);
        }
        let id: i64 = (self.invoice_proofs.len() as i64) + 1;
        let stored = InvoiceProof {
            proof_id: id,
            invoice_id: new_proof.invoice_id,
            data: clone_bytes(&new_proof.data),
        };
        let row = InvoiceProof { proof_id: id, invoice_id: new_proof.invoice_id, data: new_proof.data };
        proof {
            assert(stored@ == row@);
        }
        self.invoice_proofs.push(stored);
        proof {
            assert(self.invoice_proofs_view() =~= old(self).invoice_proofs_view().push(row@));
            assert(self.users_view() == old(self).users_view());
            assert(self.invoices_view() == old(self).invoices_view());
            assert(self.invoice_permissions_view() == old(self).invoice_permissions_view());
            assert(self.invoice_line_items_view() == old(self).invoice_line_items_view());
            assert forall|i: int| 0 <= i < self.invoice_proofs_view().len()
                implies (#[trigger] self.invoice_proofs_view()[i]).proof_id == i + 1
                    && has_invoice_in(self.invoices_view(), self.invoice_proofs_view()[i].invoice_id) by {
                if i < old(self).invoice_proofs_view().len() {
                    assert(self.invoice_proofs_view()[i] == old(self).invoice_proofs_view()[i]);
                } else {
                    assert(self.invoice_proofs_view()[i] == row@);
                }
            }
        }
        Ok(row)
    }

    /// Inserts a permissions row built from `new_permissions`, assigning the
    /// next primary key. The row is refused with a foreign-key violation
    /// exactly when borrower or invoice references no existing row; the
    /// access flags play no part, so a row with both flags false is
    /// accepted as an explicit no-access grant.
    pub fn insert_invoice_permissions(&mut self, new_permissions: NewInvoicePermissions) -> (r: Result<InvoicePermissions, StoreError>)
        requires
            old(self).wf(),
            old(self).invoice_permissions_view().len() < i64::MAX,
        ensures
            final(self).wf(),
            (r is Ok) == (has_user_in(old(self).users_view(), new_permissions.borrower_id as int)
                && has_invoice_in(old(self).invoices_view(), new_permissions.invoice_id as int)),
            match r {
                Ok(row) => {
                    &&& row@ == invoice_permissions_row(new_permissions, old(self).invoice_permissions_view().len() as int + 1)
                    &&& final(self).invoice_permissions_view() == old(self).invoice_permissions_view().push(row@)
                    &&& final(self).users_view() == old(self).users_view()
                    &&& final(self).invoices_view() == old(self).invoices_view()
                    &&& final(self).invoice_proofs_view() == old(self).invoice_proofs_view()
                    &&& final(self).invoice_line_items_view() == old(self).invoice_line_items_view()
                },
                Err(e) => {
                    &&& e == StoreError::ForeignKeyViolation
                    &&& *final(self) == *old(self)
                },
            },
    {
        if !self.has_user(new_permissions.borrower_id) {
            return Err(StoreError::ForeignKeyViolation);
        }
        if !self.has_invoice(new_permissions.invoice_id) {
            return Err(StoreError::ForeignKeyViolation);
        }
        let id: i64 = (self.invoice_permissions.len() as i64) + 1;
        let row = InvoicePermissions {
            access_id: id,
            borrower_id: new_permissions.borrower_id,
            invoice_id: new_permissions.invoice_id,
            read_access: new_permissions.read_access,
            write_access: new_permissions.write_access,
        };
        self.invoice_permissions.push(row);
        proof {
            assert(self.invoice_permissions_view() =~= old(self).invoice_permissions_view().push(row@));
            assert(self.users_view() == old(self).users_view());
            assert(self.invoices_view() == old(self).invoices_view());
            assert(self.invoice_proofs_view() == old(self).invoice_proofs_view());
            assert(self.invoice_line_items_view() == old(self).invoice_line_items_view());
            assert forall|i: int| 0 <= i < self.invoice_permissions_view().len()
                implies (#[trigger] self.invoice_permissions_view()[i]).access_id == i + 1
                    && has_user_in(self.users_view(), self.invoice_permissions_view()[i].borrower_id)
                    && has_invoice_in(self.invoices_view(), self.invoice_permissions_view()[i].invoice_id) by {
                if i < old(self).invoice_permissions_view().len() {
                    assert(self.invoice_permissions_view()[i] == old(self).invoice_permissions_view()[i]);
                } else {
                    assert(self.invoice_permissions_view()[i] == row@);
                }
            }
        }
        Ok(row)
    }

    /// Inserts a line-item row built from `new_item`, assigning the next
    /// primary key. The row is refused with a foreign-key violation exactly
    /// when it references no existing invoice; the price is stored as its
    /// exact integer count of cents.
    pub fn insert_invoice_line_item(&mut self, new_item: NewInvoiceLineItem) -> (r: Result<InvoiceLineItem, StoreError>)
        requires
            old(self).wf(),
            old(self).invoice_line_items_view().len() < i64::MAX,
        ensures
            final(self).wf(),
            (r is Ok) == has_invoice_in(old(self).invoices_view(), new_item.invoice_id as int),
            match r {
                Ok(row) => {
                    &&& row@ == invoice_line_item_row(new_item, old(self).invoice_line_items_view().len() as int + 1)
                    &&& final(self).invoice_line_items_view() == old(self).invoice_line_items_view().push(row@)
                    &&& final(self).users_view() == old(self).users_view()
                    &&& final(self).invoices_view() == old(self).invoices_view()
                    &&& final(self).invoice_proofs_view() == old(self).invoice_proofs_view()
                    &&& final(self).invoice_permissions_view() == old(self).invoice_permissions_view()
                },
                Err(e) => {
                    &&& e == StoreError::ForeignKeyViolation
                    &&& *final(self) == *old(self)
                },
            },
    {
        if !self.has_invoice(new_item.invoice_id) {
            return Err(StoreError::ForeignKeyViolation);
        }
        let id: i64 = (self.invoice_line_items.len() as i64) + 1;
        let stored = InvoiceLineItem {
            id: id,
            invoice_id: new_item.invoice_id,
            item_name: new_item.item_name.clone(),
            item_price_usd: new_item.item_price_usd,
        };
        let row = InvoiceLineItem {
            id: id,
            invoice_id: new_item.invoice_id,
            item_name: new_item.item_name,
            item_price_usd: new_item.item_price_usd,
        };
        proof {
            assert(stored@ == row@);
        }
        self.invoice_line_items.push(stored);
        proof {
            assert(self.invoice_line_items_view() =~= old(self).invoice_line_items_view().push(row@));
            assert(self.users_view() == old(self).users_view());
            assert(self.invoices_view() == old(self).invoices_view());
            assert(self.invoice_proofs_view() == old(self).invoice_proofs_view());
            assert(self.invoice_permissions_view() == old(self).invoice_permissions_view());
            assert forall|i: int| 0 <= i < self.invoice_line_items_view().len()
                implies (#[trigger] self.invoice_line_items_view()[i]).id == i + 1
                    && has_invoice_in(self.invoices_view(), self.invoice_line_items_view()[i].invoice_id) by {
                if i < old(self).invoice_line_items_view().len() {
                    assert(self.invoice_line_items_view()[i] == old(self).invoice_line_items_view()[i]);
                } else {
                    assert(self.invoice_line_items_view()[i] == row@);
                }
            }
        }
        Ok(row)
    }

    /// Looks a line item up by primary key and returns a copy of the stored
    /// row, or nothing exactly when no row carries that key. The price reads
    /// back as the exact integer count of cents it was stored with.
    pub fn get_invoice_line_item(&self, id: i64) -> (r: Option<InvoiceLineItem>)
        ensures
            (r is Some) == has_line_item_in(self.invoice_line_items_view(), id as int),
            match r {
                Some(row) => {
                    &&& row@.id == id as int
                    &&& exists|j: int| 0 <= j < self.invoice_line_items_view().len()
                        && (#[trigger] self.invoice_line_items_view()[j]) == row@
                },
                None => !has_line_item_in(self.invoice_line_items_view(), id as int),
            },
    {
        let mut i: usize = 0;
        while i < self.invoice_line_items.len()
            invariant
                i <= self.invoice_line_items@.len(),
                forall|j: int| 0 <= j < i ==> (#[trigger] self.invoice_line_items_view()[j]).id != id as int,
            decreases self.invoice_line_items@.len() - i,
        {
            if self.invoice_line_items[i].id == id {
                let row = InvoiceLineItem {
                    id: self.invoice_line_items[i].id,
                    invoice_id: self.invoice_line_items[i].invoice_id,
                    item_name: self.invoice_line_items[i].item_name.clone(),
                    item_price_usd: self.invoice_line_items[i].item_price_usd,
                };
                proof {
                    assert(self.invoice_line_items_view()[i as int] == row@);
                }
                return Some(row);
            }
            i = i + 1;
        }
        None
    }

    /// Whether an invoice row with primary key `id` exists: resolves a
    /// foreign key into the `invoices` table.
    pub fn has_invoice(&self, id: i64) -> (b: bool)
        ensures
            b == has_invoice_in(self.invoices_view(), id as int),
    {
        let mut i: usize = 0;
        while i < self.invoices.len()
            invariant
                i <= self.invoices@.len(),
                forall|j: int| 0 <= j < i ==> (#[trigger] self.invoices_view()[j]).invoice_id != id as int,
            decreases self.invoices@.len() - i,
        {
            if self.invoices[i].invoice_id == id {
                proof {
                    assert((self.invoices_view()[i as int]).invoice_id == id as int);
                }
                return true;
            }
            i = i + 1;
        }
        false
    }
}

/// Keeping a user visible after a row is appended to the `users` table.
proof fn lemma_has_user_push(users: Seq<UserView>, u: UserView, id: int)
    requires
        has_user_in(users, id),
    ensures
        has_user_in(users.push(u), id),
{
    let j = choose|j: int| 0 <= j < users.len() && (#[trigger] users[j]).user_id == id;
    assert(users.push(u)[j] == users[j]);
}

/// Keeping an invoice visible after a row is appended to the `invoices` table.
proof fn lemma_has_invoice_push(invoices: Seq<InvoiceView>, v: InvoiceView, id: int)
    requires
        has_invoice_in(invoices, id),
    ensures
        has_invoice_in(invoices.push(v), id),
{
    let j = choose|j: int| 0 <= j < invoices.len() && (#[trigger] invoices[j]).invoice_id == id;
    assert(invoices.push(v)[j] == invoices[j]);
}

/// An exact byte-for-byte copy of a binary column value.
fn clone_bytes(v: &Vec<u8>) -> (r: Vec<u8>)
    ensures
        r@ == v@,
{
    let mut r: Vec<u8> = Vec::new();
    let mut i: usize = 0;
    while i < v.len()
        invariant
            i <= v@.len(),
            r@ == v@.subrange(0, i as int),
        decreases v@.len() - i,
    {
        r.push(v[i]);
        proof {
            assert(r@ =~= v@.subrange(0, i as int + 1));
        }
        i = i + 1;
    }
    proof {
        assert(r@ =~= v@);
    }
    r
}

/// An exact copy of an optional binary column value.
fn clone_opt_bytes(o: &Option<Vec<u8>>) -> (r: Option<Vec<u8>>)
    ensures
        opt_bytes_view(r) == opt_bytes_view(*o),
{
    match o {
        Some(v) => Some(clone_bytes(v)),
        None => None,
    }
}

impl User {
    /// Creates a user: derives a salted hash of `password`, inserts a row
    /// with no profile picture and the hash in place of the password, and
    /// returns the populated row, `user_id` included. The stored hash
    /// verifies against `password`, and is never the plaintext password
    /// itself — shown here for every password that does not already begin
    /// with the `"$argon2"` prefix that all produced hashes carry. A
    /// failure of the hashing step is reported and leaves the store
    /// unchanged.
    pub fn new(store: &mut Store, username: &str, email: &str, password: &str) -> (r: Result<User, StoreError>)
        requires
            old(store).wf(),
            old(store).users_view().len() < i64::MAX,
        ensures
            final(store).wf(),
            match r {
                Ok(u) => {
                    &&& u@.user_id == old(store).users_view().len() + 1
                    &&& u@.username == username@
                    &&& u@.email == email@
                    &&& u@.profile_picture is None
                    &&& verifies(password@, u@.password_hash)
                    &&& phc_prefixed(u@.password_hash)
                    &&& (!phc_prefixed(password@) ==> u@.password_hash != password@)
                    &&& final(store).users_view() == old(store).users_view().push(u@)
                    &&& final(store).invoices_view() == old(store).invoices_view()
                    &&& final(store).invoice_proofs_view() == old(store).invoice_proofs_view()
                    &&& final(store).invoice_permissions_view() == old(store).invoice_permissions_view()
                    &&& final(store).invoice_line_items_view() == old(store).invoice_line_items_view()
                },
                Err(e) => {
                    &&& e == StoreError::HashFailure
                    &&& *final(store) == *old(store)
                },
            },
    {
        let hash = match hash_password(password) {
            Some(h) => h,
            None => {
                return Err(StoreError::HashFailure);
            },
        };
        let new_user = NewUser {
            username: username.to_owned(),
            email: email.to_owned(),
            profile_picture: None,
            password_hash: hash,
        };
        let u = store.insert_user(new_user);
        Ok(u)
    }

    /// Whether `password` matches this user's stored hash under the hashing
    /// scheme.
    pub fn check_password(&self, password: &str) -> (r: bool)
        ensures
            r == verifies(password@, self@.password_hash),
    {
        verify_password(password, self.password_hash.as_str())
    }
}

} // verus!
