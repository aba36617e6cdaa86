//! Phone contacts uploaded by a user: normalisation of their numbers and the
//! records stored and answered for them.

use vstd::prelude::*;
use vstd::string::*;
use crate::text::{chars_of, push_chars_from};
use crate::user::DbUser;

verus! {

/// One contact of the uploaded address book.
#[derive(Debug)]
pub struct ContactRequest {
    pub phone: String,
    pub nickname: String,
}

/// The address book uploaded by a user.
#[derive(Debug)]
pub struct PostContactsRequest {
    pub phones: Vec<ContactRequest>,
}

/// A stored contact phone of a user, with its normalised number.
#[derive(Debug)]
pub struct DbContactPhone {
    pub user_id: String,
    pub phone: String,
    pub normalized_phone: String,
    pub nickname: String,
}

/// A stored contact, with the section (registered or not) it is shown in.
#[derive(Debug)]
pub struct DbContact {
    pub phone: String,
    pub section: String,
    pub nickname: String,
}

/// A contact as answered to the user.
#[derive(Debug)]
pub struct Contact {
    pub phone: String,
    pub section: String,
    pub nickname: String,
}

/// The contacts answered to the user.
#[derive(Debug)]
pub struct GetContacts {
    pub contacts: Vec<Contact>,
}

/// Characters that only format a phone number.
pub open spec fn is_phone_separator(c: char) -> bool {
    c == '+' || c == ' ' || c == '-' || c == '(' || c == ')'
}

/// `phone` without its formatting characters.
pub open spec fn strip_separators(phone: Seq<char>) -> Seq<char>
    decreases phone.len(),
{
    if phone.len() == 0 {
        phone
    } else if is_phone_separator(phone.last()) {
        strip_separators(phone.drop_last())
    } else {
        strip_separators(phone.drop_last()).push(phone.last())
    }
}

/// The normal form of a phone number: formatting removed, then an international
/// `00` prefix dropped, or else a leading trunk `0` replaced by the country code.
pub open spec fn normalized_phone(phone: Seq<char>, phone_code: Seq<char>) -> Seq<char> {
    let digits = strip_separators(phone);
    if digits.len() >= 2 && digits[0] == '0' && digits[1] == '0' {
        digits.subrange(2, digits.len() as int)
    } else if digits.len() >= 1 && digits[0] == '0' {
        phone_code + digits.subrange(1, digits.len() as int)
    } else {
        digits
    }
}

/// Whether `s` holds no formatting character.
pub open spec fn has_no_separator(s: Seq<char>) -> bool {
    forall|i: int| 0 <= i < s.len() ==> !is_phone_separator(#[trigger] s[i])
}

/// Normalises `phone`, with `phone_code` as the country code of the user.
pub fn normalize_phone_number(phone: &String, phone_code: &String) -> (res: String)
    ensures
        res@ == normalized_phone(phone@, phone_code@),
{
    let chars = chars_of(phone.as_str());
    let mut digits: Vec<char> = Vec::new();
    let mut i: usize = 0;
    while i < chars.len()
        invariant
            chars@ == phone@,
            i <= chars@.len(),
            digits@ == strip_separators(chars@.subrange(0, i as int)),
        decreases chars@.len() - i,
    {
        let c = chars[i];
        assert(chars@.subrange(0, i + 1).drop_last() =~= chars@.subrange(0, i as int));
        if !(c == '+' || c == ' ' || c == '-' || c == '(' || c == ')') {
            digits.push(c);
        }
        i = i + 1;
    }
    assert(chars@.subrange(0, chars@.len() as int) =~= chars@);
    let mut res = String::new();
    if digits.len() >= 2 && digits[0] == '0' && digits[1] == '0' {
        push_chars_from(&mut res, &digits, 2);
    } else if digits.len() >= 1 && digits[0] == '0' {
        res = phone_code.clone();
        push_chars_from(&mut res, &digits, 1);
    } else {
        push_chars_from(&mut res, &digits, 0);
        assert(digits@.subrange(0, digits@.len() as int) =~= digits@);
    }
    res
}

proof fn lemma_strip_has_no_separator(phone: Seq<char>)
    ensures
        has_no_separator(strip_separators(phone)),
    decreases phone.len(),
{
    if phone.len() > 0 {
        lemma_strip_has_no_separator(phone.drop_last());
    }
}

/// Removing formatting twice removes nothing more.
pub proof fn lemma_strip_separators_idempotent(phone: Seq<char>)
    ensures
        strip_separators(strip_separators(phone)) == strip_separators(phone),
{
    lemma_strip_has_no_separator(phone);
    lemma_strip_keeps_clean(strip_separators(phone));
}

proof fn lemma_strip_keeps_clean(phone: Seq<char>)
    requires
        has_no_separator(phone),
    ensures
        strip_separators(phone) == phone,
    decreases phone.len(),
{
    if phone.len() > 0 {
        assert(!is_phone_separator(phone[phone.len() - 1]));
        lemma_strip_keeps_clean(phone.drop_last());
        assert(phone.drop_last().push(phone.last()) =~= phone);
    }
}

/// Formatting does not matter: two numbers that differ only in formatting
/// characters normalise alike.
pub proof fn lemma_normalization_ignores_formatting(a: Seq<char>, b: Seq<char>, phone_code: Seq<char>)
    requires
        strip_separators(a) == strip_separators(b),
    ensures
        normalized_phone(a, phone_code) == normalized_phone(b, phone_code),
{
}

/// A normalised number holds no formatting character, when the country code holds none.
pub proof fn lemma_normalized_has_no_separator(phone: Seq<char>, phone_code: Seq<char>)
    requires
        has_no_separator(phone_code),
    ensures
        has_no_separator(normalized_phone(phone, phone_code)),
{
    lemma_strip_has_no_separator(phone);
    let digits = strip_separators(phone);
    let n = normalized_phone(phone, phone_code);
    if digits.len() >= 2 && digits[0] == '0' && digits[1] == '0' {
        assert forall|i: int| 0 <= i < n.len() implies !is_phone_separator(#[trigger] n[i]) by {
            assert(n[i] == digits[i + 2]);
        }
    } else if digits.len() >= 1 && digits[0] == '0' {
        assert forall|i: int| 0 <= i < n.len() implies !is_phone_separator(#[trigger] n[i]) by {
            if i < phone_code.len() {
                assert(n[i] == phone_code[i]);
            } else {
                assert(n[i] == digits[i - phone_code.len() + 1]);
            }
        }
    }
}

/// Normalising twice changes nothing, when the country code holds no formatting
/// character and the normal form does not begin with `0`.
pub proof fn lemma_normalization_idempotent(phone: Seq<char>, phone_code: Seq<char>)
    requires
        has_no_separator(phone_code),
        normalized_phone(phone, phone_code).len() == 0 || normalized_phone(phone, phone_code)[0]
            != '0',
    ensures
        normalized_phone(normalized_phone(phone, phone_code), phone_code) == normalized_phone(
            phone,
            phone_code,
        ),
{
    let n = normalized_phone(phone, phone_code);
    lemma_normalized_has_no_separator(phone, phone_code);
    lemma_strip_keeps_clean(n);
}

/// The contacts answered for the stored ones, field by field.
pub fn to_contacts(db_contacts: &Vec<DbContact>) -> (contacts: Vec<Contact>)
    ensures
        contacts@.len() == db_contacts@.len(),
        forall|i: int|
            0 <= i < db_contacts@.len() ==> {
                &&& #[trigger] contacts@[i].phone == db_contacts@[i].phone
                &&& contacts@[i].section == db_contacts@[i].section
                &&& contacts@[i].nickname == db_contacts@[i].nickname
            },
{
    let mut contacts: Vec<Contact> = Vec::new();
    let mut i: usize = 0;
    while i < db_contacts.len()
        invariant
            i <= db_contacts@.len(),
            contacts@.len() == i,
            forall|j: int|
                0 <= j < i ==> {
                    &&& #[trigger] contacts@[j].phone == db_contacts@[j].phone
                    &&& contacts@[j].section == db_contacts@[j].section
                    &&& contacts@[j].nickname == db_contacts@[j].nickname
                },
        decreases db_contacts@.len() - i,
    {
        let db_contact = &db_contacts[i];
        contacts.push(
            Contact {
                phone: db_contact.phone.clone(),
                section: db_contact.section.clone(),
                nickname: db_contact.nickname.clone(),
            },
        );
        i = i + 1;
    }
    contacts
}

/// The records stored for an uploaded address book: one per contact, in order,
/// owned by `user_id`, with the number normalised under `phone_code`.
pub fn to_db_contact_phones(user_id: &str, phone_code: &String, phones: &Vec<ContactRequest>) -> (data: Vec<DbContactPhone>)
    ensures
        data@.len() == phones@.len(),
        forall|i: int|
            0 <= i < phones@.len() ==> {
                &&& #[trigger] data@[i].user_id@ == user_id@
                &&& data@[i].phone == phones@[i].phone
                &&& data@[i].nickname == phones@[i].nickname
                &&& data@[i].normalized_phone@ == normalized_phone(phones@[i].phone@, phone_code@)
            },
{
    let mut data: Vec<DbContactPhone> = Vec::new();
    let mut i: usize = 0;
    while i < phones.len()
        invariant
            i <= phones@.len(),
            data@.len() == i,
            forall|j: int|
                0 <= j < i ==> {
                    &&& #[trigger] data@[j].user_id@ == user_id@
                    &&& data@[j].phone == phones@[j].phone
                    &&& data@[j].nickname == phones@[j].nickname
                    &&& data@[j].normalized_phone@ == normalized_phone(
                        phones@[j].phone@,
                        phone_code@,
                    )
                },
        decreases phones@.len() - i,
    {
        let contact = &phones[i];
        data.push(
            DbContactPhone {
                user_id: String::from_str(user_id),
                normalized_phone: normalize_phone_number(&contact.phone, phone_code),
                phone: contact.phone.clone(),
                nickname: contact.nickname.clone(),
            },
        );
        i = i + 1;
    }
    data
}

/// The country code of a user, empty when the user has none.
pub fn phone_code_of(user: &DbUser) -> (code: String)
    ensures
        code@ == match user.phone_code {
            None => Seq::<char>::empty(),
            Some(p) => p@,
        },
{
    match &user.phone_code {
        None => String::new(),
        Some(p) => p.clone(),
    }
}

} // verus!
