use naroden::contact::{normalize_phone_number, phone_code_of, to_contacts, to_db_contact_phones, ContactRequest, DbContact};
use naroden::user::DbUser;

fn s(v: &str) -> String {
    v.to_string()
}

#[test]
fn normalize_removes_formatting() {
    assert_eq!(normalize_phone_number(&s("+359 (88) 123-4567"), &s("359")), "359881234567");
}

#[test]
fn normalize_drops_international_prefix() {
    assert_eq!(normalize_phone_number(&s("00359 888 123 456"), &s("44")), "359888123456");
}

#[test]
fn normalize_replaces_trunk_zero_with_country_code() {
    assert_eq!(normalize_phone_number(&s("0888 123 456"), &s("359")), "359888123456");
    assert_eq!(normalize_phone_number(&s("0"), &s("44")), "44");
}

#[test]
fn normalize_keeps_other_numbers() {
    assert_eq!(normalize_phone_number(&s("888-123"), &s("359")), "888123");
    assert_eq!(normalize_phone_number(&s(""), &s("359")), "");
    assert_eq!(normalize_phone_number(&s("+-() "), &s("359")), "");
}

#[test]
fn normalize_with_empty_country_code() {
    assert_eq!(normalize_phone_number(&s("0888"), &s("")), "888");
}

#[test]
fn normalize_is_idempotent_on_clean_results() {
    let once = normalize_phone_number(&s("0 888 (123)"), &s("359"));
    assert_eq!(normalize_phone_number(&once, &s("359")), once);
}

#[test]
fn normalize_ignores_formatting_differences() {
    let a = normalize_phone_number(&s("0888-123-456"), &s("359"));
    let b = normalize_phone_number(&s("(0888) 123 456"), &s("359"));
    assert_eq!(a, b);
}

#[test]
fn normalize_only_first_zero_replaced() {
    assert_eq!(normalize_phone_number(&s("0100"), &s("7")), "7100");
}

#[test]
fn contact_phones_are_normalised_per_contact() {
    let phones = vec![
        ContactRequest { phone: s("0888 111 222"), nickname: s("Мама") },
        ContactRequest { phone: s("+44 20 7946 0000"), nickname: s("Office") },
    ];
    let data = to_db_contact_phones("u1", &s("359"), &phones);
    assert_eq!(data.len(), 2);
    assert_eq!(data[0].user_id, "u1");
    assert_eq!(data[0].phone, "0888 111 222");
    assert_eq!(data[0].normalized_phone, "359888111222");
    assert_eq!(data[0].nickname, "Мама");
    assert_eq!(data[1].normalized_phone, "442079460000");
    assert_eq!(data[1].nickname, "Office");
}

#[test]
fn stored_contacts_are_answered_unchanged() {
    let db = vec![DbContact { phone: s("123"), section: s("Регистрирани"), nickname: s("A") }];
    let contacts = to_contacts(&db);
    assert_eq!(contacts.len(), 1);
    assert_eq!(contacts[0].phone, "123");
    assert_eq!(contacts[0].section, "Регистрирани");
    assert_eq!(contacts[0].nickname, "A");
    assert!(to_contacts(&vec![]).is_empty());
}

#[test]
fn phone_code_of_user() {
    let mut user = DbUser { first_name: s("A"), last_name: s("B"), email: None, phone: None, phone_code: Some(s("359")) };
    assert_eq!(phone_code_of(&user), "359");
    user.phone_code = None;
    assert_eq!(phone_code_of(&user), "");
}
