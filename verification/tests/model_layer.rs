use invoice_models::models::{
    Cents, NewInvoice, NewInvoiceLineItem, NewInvoicePermissions, NewInvoiceProof, NewUser, User,
};
use invoice_models::store::{Store, StoreError};
use argon2::PasswordVerifier;

#[test]
fn store_new_is_empty() {
    let s = Store::new();
    assert_eq!(s.users.len(), 0);
    assert_eq!(s.invoices.len(), 0);
    assert_eq!(s.invoice_proofs.len(), 0);
    assert_eq!(s.invoice_permissions.len(), 0);
    assert_eq!(s.invoice_line_items.len(), 0);
}

#[test]
fn create_user_scenario() {
    let mut s = Store::new();
    let u = User::new(&mut s, "alice", "a@x.com", "secret123").unwrap();
    assert_eq!(u.user_id, 1);
    assert_eq!(u.username, "alice");
    assert_eq!(u.email, "a@x.com");
    assert!(u.profile_picture.is_none());
    assert_ne!(u.password_hash, "secret123");
    assert!(u.check_password("secret123"));
    assert!(!u.check_password("wrong"));
    assert_eq!(s.users.len(), 1);
    assert_eq!(s.users[0].password_hash, u.password_hash);
}

#[test]
fn stored_hash_verifies_under_argon2() {
    let mut s = Store::new();
    let u = User::new(&mut s, "bob", "b@x.com", "hunter2").unwrap();
    assert!(u.password_hash.starts_with("$argon2"));
    let parsed = argon2::PasswordHash::new(&u.password_hash).unwrap();
    assert!(argon2::Argon2::default()
        .verify_password(b"hunter2", &parsed)
        .is_ok());
    assert!(argon2::Argon2::default()
        .verify_password(b"hunter3", &parsed)
        .is_err());
}

#[test]
fn same_password_hashes_differently() {
    let mut s = Store::new();
    let u1 = User::new(&mut s, "carol", "c@x.com", "pw-shared").unwrap();
    let u2 = User::new(&mut s, "dave", "d@x.com", "pw-shared").unwrap();
    assert_eq!(u1.user_id, 1);
    assert_eq!(u2.user_id, 2);
    assert_ne!(u1.password_hash, u2.password_hash);
    assert!(u1.check_password("pw-shared"));
    assert!(u2.check_password("pw-shared"));
}

#[test]
fn insert_user_keeps_fields() {
    let mut s = Store::new();
    let u = s.insert_user(NewUser {
        username: String::from("erin"),
        email: String::from("e@x.com"),
        profile_picture: Some(vec![0xffu8, 0x00, 0x7f]),
        password_hash: String::from("not-a-real-hash"),
    });
    assert_eq!(u.user_id, 1);
    assert_eq!(u.profile_picture.as_deref(), Some(&[0xffu8, 0x00, 0x7f][..]));
    assert_eq!(s.users[0].profile_picture, u.profile_picture);
    assert_eq!(s.users[0].username, "erin");
}

#[test]
fn invoice_owner_must_exist() {
    let mut s = Store::new();
    let refused = s.insert_invoice(NewInvoice { owner_id: 1 });
    assert_eq!(refused.unwrap_err(), StoreError::ForeignKeyViolation);
    User::new(&mut s, "frank", "f@x.com", "pw").unwrap();
    let inv = s.insert_invoice(NewInvoice { owner_id: 1 }).unwrap();
    assert_eq!(inv.invoice_id, 1);
    assert_eq!(inv.owner_id, 1);
    let inv2 = s.insert_invoice(NewInvoice { owner_id: 1 }).unwrap();
    assert_eq!(inv2.invoice_id, 2);
}

#[test]
fn orphan_invoice_proof_is_refused() {
    let mut s = Store::new();
    User::new(&mut s, "grace", "g@x.com", "pw").unwrap();
    let refused = s.insert_invoice_proof(NewInvoiceProof {
        invoice_id: 7,
        data: vec![1u8, 2, 3],
    });
    assert_eq!(refused.unwrap_err(), StoreError::ForeignKeyViolation);
    assert_eq!(s.invoice_proofs.len(), 0);
    s.insert_invoice(NewInvoice { owner_id: 1 }).unwrap();
    let row = s
        .insert_invoice_proof(NewInvoiceProof {
            invoice_id: 1,
            data: vec![1u8, 2, 3],
        })
        .unwrap();
    assert_eq!(row.proof_id, 1);
    assert_eq!(row.data, vec![1u8, 2, 3]);
    assert_eq!(s.invoice_proofs[0].data, vec![1u8, 2, 3]);
}

#[test]
fn no_access_permissions_row_is_accepted() {
    let mut s = Store::new();
    User::new(&mut s, "heidi", "h@x.com", "pw").unwrap();
    s.insert_invoice(NewInvoice { owner_id: 1 }).unwrap();
    let row = s
        .insert_invoice_permissions(NewInvoicePermissions {
            borrower_id: 1,
            invoice_id: 1,
            read_access: false,
            write_access: false,
        })
        .unwrap();
    assert_eq!(row.access_id, 1);
    assert!(!row.read_access);
    assert!(!row.write_access);
    assert_eq!(s.invoice_permissions.len(), 1);
    assert!(!s.invoice_permissions[0].read_access);
    assert!(!s.invoice_permissions[0].write_access);
}

#[test]
fn permissions_borrower_must_exist() {
    let mut s = Store::new();
    User::new(&mut s, "ivan", "i@x.com", "pw").unwrap();
    s.insert_invoice(NewInvoice { owner_id: 1 }).unwrap();
    let refused = s.insert_invoice_permissions(NewInvoicePermissions {
        borrower_id: 2,
        invoice_id: 1,
        read_access: true,
        write_access: false,
    });
    assert_eq!(refused.unwrap_err(), StoreError::ForeignKeyViolation);
    let refused2 = s.insert_invoice_permissions(NewInvoicePermissions {
        borrower_id: 1,
        invoice_id: 2,
        read_access: true,
        write_access: false,
    });
    assert_eq!(refused2.unwrap_err(), StoreError::ForeignKeyViolation);
    assert_eq!(s.invoice_permissions.len(), 0);
}

#[test]
fn line_item_price_round_trips_in_cents() {
    let mut s = Store::new();
    User::new(&mut s, "judy", "j@x.com", "pw").unwrap();
    s.insert_invoice(NewInvoice { owner_id: 1 }).unwrap();
    // $19.99 is stored and read back as exactly 1999 cents.
    let row = s
        .insert_invoice_line_item(NewInvoiceLineItem {
            invoice_id: 1,
            item_name: String::from("widget"),
            item_price_usd: Cents(1999),
        })
        .unwrap();
    assert_eq!(row.id, 1);
    assert_eq!(row.item_price_usd, Cents(1999));
    let got = s.get_invoice_line_item(1).unwrap();
    assert_eq!(got.item_price_usd, Cents(1999));
    assert_eq!(got.item_name, "widget");

    let row2 = s
        .insert_invoice_line_item(NewInvoiceLineItem {
            invoice_id: 1,
            item_name: String::from("gadget"),
            item_price_usd: Cents(123456789),
        })
        .unwrap();
    assert_eq!(row2.id, 2);
    assert_eq!(s.get_invoice_line_item(2).unwrap().item_price_usd, Cents(123456789));
    assert!(s.get_invoice_line_item(3).is_none());
}

#[test]
fn orphan_line_item_is_refused() {
    let mut s = Store::new();
    let refused = s.insert_invoice_line_item(NewInvoiceLineItem {
        invoice_id: 1,
        item_name: String::from("widget"),
        item_price_usd: Cents(100),
    });
    assert_eq!(refused.unwrap_err(), StoreError::ForeignKeyViolation);
    assert!(s.get_invoice_line_item(1).is_none());
}
