//! Entity shapes of the relational schema: one struct per table row and one
//! "insertable" counterpart per table, lacking the store-assigned primary
//! key. These are plain data declarations; relationships are expressed only
//! as foreign-key integers, resolved by the query functions of the store.

use vstd::prelude::*;

verus! {

/// A fixed-point currency amount: an integer count of cents, so that prices
/// carry no floating-point rounding error.
#[derive(Clone, Copy, Debug, PartialEq, Eq, Structural)]
pub struct Cents(pub i64);

/// A row of the `users` table.
#[derive(Debug, PartialEq)]
pub struct User {
    pub user_id: i64,
    pub username: String,
    pub email: String,
    pub profile_picture: Option<Vec<u8>>,
    pub password_hash: String,
}

/// A not-yet-persisted user: everything but the store-assigned `user_id`.
#[derive(Debug, PartialEq)]
pub struct NewUser {
    pub username: String,
    pub email: String,
    pub profile_picture: Option<Vec<u8>>,
    pub password_hash: String,
}

/// A row of the `invoices` table.
#[derive(Clone, Copy, Debug, PartialEq, Eq, Structural)]
pub struct Invoice {
    pub invoice_id: i64,
    pub owner_id: i64,
}

/// A not-yet-persisted invoice: everything but the store-assigned
/// `invoice_id`. The owner must reference an existing user.
#[derive(Clone, Copy, Debug, PartialEq, Eq, Structural)]
pub struct NewInvoice {
    pub owner_id: i64,
}

/// A row of the `invoice_proof` table: binary evidence attached to an
/// invoice. The data is opaque and immutable once stored.
#[derive(Debug, PartialEq)]
pub struct InvoiceProof {
    pub proof_id: i64,
    pub invoice_id: i64,
    pub data: Vec<u8>,
}

/// A not-yet-persisted invoice proof: everything but the store-assigned
/// `proof_id`. The invoice must exist.
#[derive(Debug, PartialEq)]
pub struct NewInvoiceProof {
    pub invoice_id: i64,
    pub data: Vec<u8>,
}

/// A row of the `invoice_permissions` table: the authoritative access grant
/// of one borrower on one invoice. Absence of a row means no access; a row
/// with both flags false is a distinct, explicit state.
#[derive(Clone, Copy, Debug, PartialEq, Eq, Structural)]
pub struct InvoicePermissions {
    pub access_id: i64,
    pub borrower_id: i64,
    pub invoice_id: i64,
    pub read_access: bool,
    pub write_access: bool,
}

/// A not-yet-persisted permissions row: everything but the store-assigned
/// `access_id`. Borrower and invoice must exist.
#[derive(Clone, Copy, Debug, PartialEq, Eq, Structural)]
pub struct NewInvoicePermissions {
    pub borrower_id: i64,
    pub invoice_id: i64,
    pub read_access: bool,
    pub write_access: bool,
}

/// A row of the `invoice_line_items` table.
#[derive(Debug, PartialEq)]
pub struct InvoiceLineItem {
    pub id: i64,
    pub invoice_id: i64,
    pub item_name: String,
    pub item_price_usd: Cents,
}

/// A not-yet-persisted line item: everything but the store-assigned `id`.
/// The invoice must exist.
#[derive(Debug, PartialEq)]
pub struct NewInvoiceLineItem {
    pub invoice_id: i64,
    pub item_name: String,
    pub item_price_usd: Cents,
}

/// The mathematical content of an optional binary column.
pub open spec fn opt_bytes_view(o: Option<Vec<u8>>) -> Option<Seq<u8>> {
    match o {
        Some(v) => Some(v@),
        None => None,
    }
}

/// The mathematical content of a `users` row.
pub ghost struct UserView {
    pub user_id: int,
    pub username: Seq<char>,
    pub email: Seq<char>,
    pub profile_picture: Option<Seq<u8>>,
    pub password_hash: Seq<char>,
}

impl View for User {
    type V = UserView;

    open spec fn view(&self) -> UserView {
        UserView {
            user_id: self.user_id as int,
            username: self.username@,
            email: self.email@,
            profile_picture: opt_bytes_view(self.profile_picture),
            password_hash: self.password_hash@,
        }
    }
}

/// The mathematical content of an `invoices` row.
pub ghost struct InvoiceView {
    pub invoice_id: int,
    pub owner_id: int,
}

impl View for Invoice {
    type V = InvoiceView;

    open spec fn view(&self) -> InvoiceView {
        InvoiceView { invoice_id: self.invoice_id as int, owner_id: self.owner_id as int }
    }
}

/// The mathematical content of an `invoice_proof` row.
pub ghost struct InvoiceProofView {
    pub proof_id: int,
    pub invoice_id: int,
    pub data: Seq<u8>,
}

impl View for InvoiceProof {
    type V = InvoiceProofView;

    open spec fn view(&self) -> InvoiceProofView {
        InvoiceProofView {
            proof_id: self.proof_id as int,
            invoice_id: self.invoice_id as int,
            data: self.data@,
        }
    }
}

/// The mathematical content of an `invoice_permissions` row.
pub ghost struct InvoicePermissionsView {
    pub access_id: int,
    pub borrower_id: int,
    pub invoice_id: int,
    pub read_access: bool,
    pub write_access: bool,
}

impl View for InvoicePermissions {
    type V = InvoicePermissionsView;

    open spec fn view(&self) -> InvoicePermissionsView {
        InvoicePermissionsView {
            access_id: self.access_id as int,
            borrower_id: self.borrower_id as int,
            invoice_id: self.invoice_id as int,
            read_access: self.read_access,
            write_access: self.write_access,
        }
    }
}

/// The mathematical content of an `invoice_line_items` row; the price is
/// the exact integer count of cents.
pub ghost struct InvoiceLineItemView {
    pub id: int,
    pub invoice_id: int,
    pub item_name: Seq<char>,
    pub item_price_usd: int,
}

impl View for InvoiceLineItem {
    type V = InvoiceLineItemView;

    open spec fn view(&self) -> InvoiceLineItemView {
        InvoiceLineItemView {
            id: self.id as int,
            invoice_id: self.invoice_id as int,
            item_name: self.item_name@,
            item_price_usd: self.item_price_usd.0 as int,
        }
    }
}

} // verus!
