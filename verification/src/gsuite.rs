//! Directory accounts: bringing the account of a person in the directory
//! in line with what the company's own records say of that person, and
//! keeping the person's group memberships in step.

use vstd::prelude::*;
use vstd::string::StringExecFns;
pub use crate::groups::update_user_google_groups;
use crate::text::{chars_of, option_text, same_text, texts_of};

verus! {

// ---------------------------------------------------------------------------
// The parts of a directory account
// ---------------------------------------------------------------------------
/// The names of a person.
#[derive(Debug, Clone, PartialEq, Eq, Default)]
pub struct UserName {
    pub family_name: String,
    pub full_name: String,
    pub given_name: String,
}

/// An email address of an account.
#[derive(Debug, Clone, PartialEq, Eq, Default)]
pub struct UserEmail {
    pub address: String,
    pub custom_type: String,
    pub primary: bool,
    pub typev: String,
}

/// A phone number of an account.
#[derive(Debug, Clone, PartialEq, Eq, Default)]
pub struct UserPhone {
    pub custom_type: String,
    pub primary: bool,
    pub typev: String,
    pub value: String,
}

/// A postal address of an account.
#[derive(Debug, Clone, PartialEq, Eq, Default)]
pub struct UserAddress {
    pub country: String,
    pub country_code: String,
    pub custom_type: String,
    pub extended_address: String,
    pub formatted: String,
    pub locality: String,
    pub po_box: String,
    pub postal_code: String,
    pub primary: bool,
    pub region: String,
    pub source_is_structured: bool,
    pub street_address: String,
    pub typev: String,
}

/// The gender recorded for an account.
#[derive(Debug, Clone, PartialEq, Eq, Default)]
pub struct UserGender {
    pub address_me_as: String,
    pub custom_gender: String,
    pub typev: String,
}

/// Where a person sits.
#[derive(Debug, Clone, PartialEq, Eq, Default)]
pub struct UserLocation {
    pub area: String,
    pub building_id: String,
    pub custom_type: String,
    pub desk_code: String,
    pub floor_name: String,
    pub floor_section: String,
    pub typev: String,
}

/// A public SSH key of an account.
#[derive(Debug, Clone, PartialEq, Eq, Default)]
pub struct UserSSHKey {
    pub key: String,
    pub expiration_time_usec: Option<i128>,
    pub fingerprint: String,
}

/// An instant-messenger address of an account.
#[derive(Debug, Clone, PartialEq, Eq, Default)]
pub struct UserInstantMessenger {
    pub custom_protocol: String,
    pub custom_type: String,
    pub im: String,
    pub primary: bool,
    pub protocol: String,
    pub typev: String,
}

/// The custom properties that are kept with an account: under "Contact"
/// the start date and, where known, the GitHub username; under
/// "Amazon_Web_Services", where the person has one, the role, of type
/// "work".
#[derive(Debug, Clone, PartialEq, Eq, Default)]
pub struct CustomSchemas {
    pub contact_start_date: String,
    pub contact_github_username: Option<String>,
    pub aws_role: Option<String>,
}

/// The part of a directory account that an update reads or writes.
#[derive(Debug, Clone, PartialEq, Eq, Default)]
pub struct GSuiteUser {
    pub name: UserName,
    pub recovery_email: String,
    pub emails: Vec<UserEmail>,
    pub recovery_phone: String,
    pub phones: Vec<UserPhone>,
    pub primary_email: String,
    pub change_password_at_next_login: bool,
    pub password: String,
    pub addresses: Vec<UserAddress>,
    pub include_in_global_address_list: bool,
    pub gender: Option<UserGender>,
    pub locations: Vec<UserLocation>,
    pub ssh_public_keys: Vec<UserSSHKey>,
    pub ims: Vec<UserInstantMessenger>,
    pub custom_schemas: CustomSchemas,
}

/// What the company's own records say of a person.
#[derive(Debug, Clone, PartialEq, Eq, Default)]
pub struct User {
    pub first_name: String,
    pub last_name: String,
    pub username: String,
    pub recovery_email: String,
    pub recovery_phone: String,
    pub home_address_street_1: String,
    pub home_address_street_2: String,
    pub home_address_city: String,
    pub home_address_state: String,
    pub home_address_zipcode: String,
    pub home_address_country: String,
    pub home_address_formatted: String,
    pub gender: String,
    pub building: String,
    pub public_ssh_keys: Vec<String>,
    pub chat: String,
    pub start_date: String,
    pub github: String,
    pub aws_role: String,
    pub groups: Vec<String>,
    pub is_group_admin: bool,
}

// ---------------------------------------------------------------------------
// Views
// ---------------------------------------------------------------------------
pub struct UserNameView {
    pub family_name: Seq<char>,
    pub full_name: Seq<char>,
    pub given_name: Seq<char>,
}

pub struct UserEmailView {
    pub address: Seq<char>,
    pub custom_type: Seq<char>,
    pub primary: bool,
    pub typev: Seq<char>,
}

pub struct UserPhoneView {
    pub custom_type: Seq<char>,
    pub primary: bool,
    pub typev: Seq<char>,
    pub value: Seq<char>,
}

pub struct UserAddressView {
    pub country: Seq<char>,
    pub country_code: Seq<char>,
    pub custom_type: Seq<char>,
    pub extended_address: Seq<char>,
    pub formatted: Seq<char>,
    pub locality: Seq<char>,
    pub po_box: Seq<char>,
    pub postal_code: Seq<char>,
    pub primary: bool,
    pub region: Seq<char>,
    pub source_is_structured: bool,
    pub street_address: Seq<char>,
    pub typev: Seq<char>,
}

pub struct UserGenderView {
    pub address_me_as: Seq<char>,
    pub custom_gender: Seq<char>,
    pub typev: Seq<char>,
}

pub struct UserLocationView {
    pub area: Seq<char>,
    pub building_id: Seq<char>,
    pub custom_type: Seq<char>,
    pub desk_code: Seq<char>,
    pub floor_name: Seq<char>,
    pub floor_section: Seq<char>,
    pub typev: Seq<char>,
}

pub struct UserSSHKeyView {
    pub key: Seq<char>,
    pub expiration_time_usec: Option<i128>,
    pub fingerprint: Seq<char>,
}

pub struct UserInstantMessengerView {
    pub custom_protocol: Seq<char>,
    pub custom_type: Seq<char>,
    pub im: Seq<char>,
    pub primary: bool,
    pub protocol: Seq<char>,
    pub typev: Seq<char>,
}

pub struct CustomSchemasView {
    pub contact_start_date: Seq<char>,
    pub contact_github_username: Option<Seq<char>>,
    pub aws_role: Option<Seq<char>>,
}

pub struct GSuiteUserView {
    pub name: UserNameView,
    pub recovery_email: Seq<char>,
    pub emails: Seq<UserEmailView>,
    pub recovery_phone: Seq<char>,
    pub phones: Seq<UserPhoneView>,
    pub primary_email: Seq<char>,
    pub change_password_at_next_login: bool,
    pub password: Seq<char>,
    pub addresses: Seq<UserAddressView>,
    pub include_in_global_address_list: bool,
    pub gender: Option<UserGenderView>,
    pub locations: Seq<UserLocationView>,
    pub ssh_public_keys: Seq<UserSSHKeyView>,
    pub ims: Seq<UserInstantMessengerView>,
    pub custom_schemas: CustomSchemasView,
}

impl View for UserName {
    type V = UserNameView;

    open spec fn view(&self) -> UserNameView {
        UserNameView {
            family_name: self.family_name@,
            full_name: self.full_name@,
            given_name: self.given_name@,
        }
    }
}

impl View for UserEmail {
    type V = UserEmailView;

    open spec fn view(&self) -> UserEmailView {
        UserEmailView {
            address: self.address@,
            custom_type: self.custom_type@,
            primary: self.primary,
            typev: self.typev@,
        }
    }
}

impl View for UserPhone {
    type V = UserPhoneView;

    open spec fn view(&self) -> UserPhoneView {
        UserPhoneView {
            custom_type: self.custom_type@,
            primary: self.primary,
            typev: self.typev@,
            value: self.value@,
        }
    }
}

impl View for UserAddress {
    type V = UserAddressView;

    open spec fn view(&self) -> UserAddressView {
        UserAddressView {
            country: self.country@,
            country_code: self.country_code@,
            custom_type: self.custom_type@,
            extended_address: self.extended_address@,
            formatted: self.formatted@,
            locality: self.locality@,
            po_box: self.po_box@,
            postal_code: self.postal_code@,
            primary: self.primary,
            region: self.region@,
            source_is_structured: self.source_is_structured,
            street_address: self.street_address@,
            typev: self.typev@,
        }
    }
}

impl View for UserGender {
    type V = UserGenderView;

    open spec fn view(&self) -> UserGenderView {
        UserGenderView {
            address_me_as: self.address_me_as@,
            custom_gender: self.custom_gender@,
            typev: self.typev@,
        }
    }
}

impl View for UserLocation {
    type V = UserLocationView;

    open spec fn view(&self) -> UserLocationView {
        UserLocationView {
            area: self.area@,
            building_id: self.building_id@,
            custom_type: self.custom_type@,
            desk_code: self.desk_code@,
            floor_name: self.floor_name@,
            floor_section: self.floor_section@,
            typev: self.typev@,
        }
    }
}

impl View for UserSSHKey {
    type V = UserSSHKeyView;

    open spec fn view(&self) -> UserSSHKeyView {
        UserSSHKeyView {
            key: self.key@,
            expiration_time_usec: self.expiration_time_usec,
            fingerprint: self.fingerprint@,
        }
    }
}

impl View for UserInstantMessenger {
    type V = UserInstantMessengerView;

    open spec fn view(&self) -> UserInstantMessengerView {
        UserInstantMessengerView {
            custom_protocol: self.custom_protocol@,
            custom_type: self.custom_type@,
            im: self.im@,
            primary: self.primary,
            protocol: self.protocol@,
            typev: self.typev@,
        }
    }
}

impl View for CustomSchemas {
    type V = CustomSchemasView;

    open spec fn view(&self) -> CustomSchemasView {
        CustomSchemasView {
            contact_start_date: self.contact_start_date@,
            contact_github_username: option_text(self.contact_github_username),
            aws_role: option_text(self.aws_role),
        }
    }
}

impl View for GSuiteUser {
    type V = GSuiteUserView;

    open spec fn view(&self) -> GSuiteUserView {
        GSuiteUserView {
            name: self.name@,
            recovery_email: self.recovery_email@,
            emails: self.emails@.map_values(|e: UserEmail| e@),
            recovery_phone: self.recovery_phone@,
            phones: self.phones@.map_values(|p: UserPhone| p@),
            primary_email: self.primary_email@,
            change_password_at_next_login: self.change_password_at_next_login,
            password: self.password@,
            addresses: self.addresses@.map_values(|a: UserAddress| a@),
            include_in_global_address_list: self.include_in_global_address_list,
            gender: match self.gender {
                Some(g) => Some(g@),
                None => None,
            },
            locations: self.locations@.map_values(|l: UserLocation| l@),
            ssh_public_keys: self.ssh_public_keys@.map_values(|k: UserSSHKey| k@),
            ims: self.ims@.map_values(|i: UserInstantMessenger| i@),
            custom_schemas: self.custom_schemas@,
        }
    }
}

// ---------------------------------------------------------------------------
// The meaning of an update
// ---------------------------------------------------------------------------
/// The views of a sequence of email addresses.
pub open spec fn email_views(emails: Seq<UserEmail>) -> Seq<UserEmailView> {
    emails.map_values(|e: UserEmail| e@)
}

/// The views of a sequence of SSH keys.
pub open spec fn key_views(keys: Seq<UserSSHKey>) -> Seq<UserSSHKeyView> {
    keys.map_values(|k: UserSSHKey| k@)
}

/// Whether an email address is the home address of the account.
pub open spec fn is_home(email: UserEmailView) -> bool {
    email.typev == "home"@
}

/// A home address that is not the primary one.
pub open spec fn home_email(address: Seq<char>) -> UserEmailView {
    UserEmailView { address, custom_type: Seq::empty(), primary: false, typev: "home"@ }
}

/// An email address with another address in it.
pub open spec fn readdressed(email: UserEmailView, address: Seq<char>) -> UserEmailView {
    UserEmailView { address, ..email }
}

/// The email addresses with `address` as the home address: the first home
/// address is set to it, and where there is none a new one is added at the
/// end.
pub open spec fn with_home_email(emails: Seq<UserEmailView>, address: Seq<char>) -> Seq<
    UserEmailView,
>
    decreases emails.len(),
{
    if emails.len() == 0 {
        seq![home_email(address)]
    } else if is_home(emails[0]) {
        seq![readdressed(emails[0], address)] + emails.drop_first()
    } else {
        seq![emails[0]] + with_home_email(emails.drop_first(), address)
    }
}

/// The one phone number of an account: the recovery phone as home phone.
pub open spec fn home_phone(value: Seq<char>) -> UserPhoneView {
    UserPhoneView { custom_type: Seq::empty(), primary: true, typev: "home"@, value }
}

/// The street address of a person: the first line, and the second after
/// a line break where there is one.
pub open spec fn street_address(user: User) -> Seq<char> {
    if user.home_address_street_2@.len() == 0 {
        user.home_address_street_1@
    } else {
        user.home_address_street_1@ + "\n"@ + user.home_address_street_2@
    }
}

/// The one postal address of an account: the home address of the person.
pub open spec fn home_address(user: User) -> UserAddressView {
    UserAddressView {
        country: user.home_address_country@,
        country_code: "US"@,
        custom_type: Seq::empty(),
        extended_address: Seq::empty(),
        formatted: user.home_address_formatted@,
        locality: user.home_address_city@,
        po_box: Seq::empty(),
        postal_code: user.home_address_zipcode@,
        primary: true,
        region: user.home_address_state@,
        source_is_structured: false,
        street_address: street_address(user),
        typev: "home"@,
    }
}

/// The desk of a person in a building, on the first floor.
pub open spec fn desk_in(building: Seq<char>) -> UserLocationView {
    UserLocationView {
        area: Seq::empty(),
        building_id: building,
        custom_type: Seq::empty(),
        desk_code: Seq::empty(),
        floor_name: "1"@,
        floor_section: Seq::empty(),
        typev: "desk"@,
    }
}

/// The chat address of a person, on Matrix.
pub open spec fn matrix_address(chat: Seq<char>) -> UserInstantMessengerView {
    UserInstantMessengerView {
        custom_protocol: "matrix"@,
        custom_type: Seq::empty(),
        im: chat,
        primary: true,
        protocol: "custom_protocol"@,
        typev: "work"@,
    }
}

/// An SSH key as it is added to an account: without expiry and without
/// fingerprint, which the directory computes itself.
pub open spec fn added_key(key: Seq<char>) -> UserSSHKeyView {
    UserSSHKeyView { key, expiration_time_usec: None, fingerprint: Seq::empty() }
}

/// A text, or nothing where the text is empty.
pub open spec fn unless_empty(text: Seq<char>) -> Option<Seq<char>> {
    if text.len() == 0 {
        None
    } else {
        Some(text)
    }
}

/// The account after the update. `new_password` is the password to set, if
/// one is to be set.
pub open spec fn updated_account(
    account: GSuiteUserView,
    user: User,
    domain: Seq<char>,
    new_password: Option<Seq<char>>,
) -> GSuiteUserView {
    GSuiteUserView {
        name: UserNameView {
            family_name: user.last_name@,
            full_name: user.first_name@ + " "@ + user.last_name@,
            given_name: user.first_name@,
        },
        recovery_email: if user.recovery_email@.len() == 0 {
            account.recovery_email
        } else {
            user.recovery_email@
        },
        emails: if user.recovery_email@.len() == 0 {
            account.emails
        } else {
            with_home_email(account.emails, user.recovery_email@)
        },
        recovery_phone: if user.recovery_phone@.len() == 0 {
            account.recovery_phone
        } else {
            user.recovery_phone@
        },
        phones: if user.recovery_phone@.len() == 0 {
            account.phones
        } else {
            seq![home_phone(user.recovery_phone@)]
        },
        primary_email: user.username@ + "@"@ + domain,
        change_password_at_next_login: new_password is Some
            || account.change_password_at_next_login,
        password: match new_password {
            Some(password) => password,
            None => account.password,
        },
        addresses: if user.home_address_street_1@.len() == 0 {
            account.addresses
        } else {
            seq![home_address(user)]
        },
        include_in_global_address_list: true,
        gender: if user.gender@.len() == 0 {
            account.gender
        } else {
            Some(
                UserGenderView {
                    address_me_as: Seq::empty(),
                    custom_gender: Seq::empty(),
                    typev: user.gender@,
                },
            )
        },
        locations: if user.building@.len() == 0 {
            account.locations
        } else {
            seq![desk_in(user.building@)]
        },
        ssh_public_keys: account.ssh_public_keys + texts_of(user.public_ssh_keys@).map_values(
            |key: Seq<char>| added_key(key),
        ),
        ims: if user.chat@.len() == 0 {
            account.ims
        } else {
            seq![matrix_address(user.chat@)]
        },
        custom_schemas: CustomSchemasView {
            contact_start_date: user.start_date@,
            contact_github_username: unless_empty(user.github@),
            aws_role: unless_empty(user.aws_role@),
        },
    }
}

/// Setting the home address by position: where no address before `i` is a
/// home address, the address at `i` is the one that is set if it is a home
/// address, and a new one is added if `i` is the end.
pub proof fn lemma_with_home_email(emails: Seq<UserEmailView>, address: Seq<char>, i: int)
    requires
        0 <= i <= emails.len(),
        forall|j: int| 0 <= j < i ==> !is_home(#[trigger] emails[j]),
    ensures
        i < emails.len() && is_home(emails[i]) ==> with_home_email(emails, address)
            == emails.update(i, readdressed(emails[i], address)),
        i == emails.len() ==> with_home_email(emails, address) == emails.push(
            home_email(address),
        ),
    decreases i,
{
    if i == 0 {
        if emails.len() > 0 && is_home(emails[0]) {
            assert(seq![readdressed(emails[0], address)] + emails.drop_first() =~= emails.update(
                0,
                readdressed(emails[0], address),
            ));
        } else if emails.len() == 0 {
            assert(seq![home_email(address)] =~= emails.push(home_email(address)));
        }
    } else {
        let rest = emails.drop_first();
        assert(!is_home(emails[0]));
        assert forall|j: int| 0 <= j < i - 1 implies !is_home(#[trigger] rest[j]) by {
            assert(rest[j] == emails[j + 1]);
        }
        lemma_with_home_email(rest, address, i - 1);
        if i < emails.len() && is_home(emails[i]) {
            assert(rest[i - 1] == emails[i]);
            assert(seq![emails[0]] + rest.update(i - 1, readdressed(emails[i], address))
                =~= emails.update(i, readdressed(emails[i], address)));
        }
        if i == emails.len() {
            assert(seq![emails[0]] + rest.push(home_email(address)) =~= emails.push(
                home_email(address),
            ));
        }
    }
}

// ---------------------------------------------------------------------------
// Executable functions
// ---------------------------------------------------------------------------
/// Whether `c` is an ASCII letter or digit.
pub open spec fn is_letter_or_digit(c: char) -> bool {
    ('a' <= c <= 'z') || ('A' <= c <= 'Z') || ('0' <= c <= '9')
}

/// Whether a text has the form of a first password: thirty ASCII letters
/// and digits.
pub open spec fn is_first_password(password: Seq<char>) -> bool {
    &&& password.len() == 30
    &&& forall|i: int| 0 <= i < password.len() ==> is_letter_or_digit(#[trigger] password[i])
}

/// A random text to serve as a first password. Wraps
/// `gsuite_api::generate_password`, which draws thirty characters from the
/// ASCII letters and digits; which ones is not known beforehand.
#[verifier::external_body]
fn generate_password() -> (password: String)
    ensures
        is_first_password(password@),
{
    gsuite_api::generate_password()
}

/// Whether two texts are the same.
pub fn text_is(a: &str, b: &str) -> (r: bool)
    ensures
        r == (a@ == b@),
{
    same_text(&chars_of(a), &chars_of(b))
}

/// The email addresses with `address` as the home address.
pub fn set_home_email(emails: Vec<UserEmail>, address: &str) -> (r: Vec<UserEmail>)
    ensures
        email_views(r@) == with_home_email(email_views(emails@), address@),
{
    let ghost before = email_views(emails@);
    let mut list = emails;
    let mut i: usize = 0;
    while i < list.len()
        invariant
            i <= list.len(),
            before == email_views(emails@),
            email_views(list@) == before,
            forall|j: int| 0 <= j < i ==> !is_home(#[trigger] before[j]),
        decreases list.len() - i,
    {
        assert(before[i as int] == list@[i as int]@);
        if text_is(list[i].typev.as_str(), "home") {
            let updated = UserEmail {
                address: address.to_owned(),
                custom_type: list[i].custom_type.clone(),
                primary: list[i].primary,
                typev: list[i].typev.clone(),
            };
            proof {
                lemma_with_home_email(before, address@, i as int);
            }
            list.set(i, updated);
            assert(email_views(list@) =~= before.update(
                i as int,
                readdressed(before[i as int], address@),
            ));
            return list;
        }
        i += 1;
    }
    proof {
        lemma_with_home_email(before, address@, i as int);
    }
    list.push(
        UserEmail {
            address: address.to_owned(),
            custom_type: String::new(),
            primary: false,
            typev: "home".to_owned(),
        },
    );
    assert(email_views(list@) =~= before.push(home_email(address@)));
    list
}

/// The SSH keys of an account with the given keys added at the end.
pub fn add_ssh_keys(keys: Vec<UserSSHKey>, added: &Vec<String>) -> (r: Vec<UserSSHKey>)
    ensures
        key_views(r@) == key_views(keys@) + texts_of(added@).map_values(
            |key: Seq<char>| added_key(key),
        ),
{
    let ghost before = key_views(keys@);
    let ghost news = texts_of(added@).map_values(|key: Seq<char>| added_key(key));
    let mut keys = keys;
    let mut i: usize = 0;
    assert(key_views(keys@) =~= before + news.take(0));
    while i < added.len()
        invariant
            i <= added.len(),
            news == texts_of(added@).map_values(|key: Seq<char>| added_key(key)),
            key_views(keys@) == before + news.take(i as int),
        decreases added.len() - i,
    {
        let ghost so_far = key_views(keys@);
        keys.push(
            UserSSHKey {
                key: added[i].clone(),
                expiration_time_usec: None,
                fingerprint: String::new(),
            },
        );
        assert(key_views(keys@) =~= so_far.push(news[i as int]));
        assert(before + news.take(i + 1) =~= (before + news.take(i as int)).push(news[i as int]));
        i += 1;
    }
    assert(news.take(added.len() as int) =~= news);
    keys
}

/// A text, or nothing where the text is empty.
pub fn some_unless_empty(text: &str) -> (r: Option<String>)
    ensures
        option_text(r) == unless_empty(text@),
{
    if text.is_empty() {
        None
    } else {
        Some(text.to_owned())
    }
}

/// The account after the update, with the password to set, if one is to be
/// set, given.
pub fn updated_user(gu: GSuiteUser, user: &User, domain: &str, new_password: Option<String>) -> (r:
    GSuiteUser)
    ensures
        r@ == updated_account(gu@, *user, domain@, option_text(new_password)),
{
    let ghost account = gu@;
    let GSuiteUser {
        name: _,
        recovery_email,
        emails,
        recovery_phone,
        phones,
        primary_email: _,
        change_password_at_next_login,
        password,
        addresses,
        include_in_global_address_list: _,
        gender,
        locations,
        ssh_public_keys,
        ims,
        custom_schemas: _,
    } = gu;
    let mut full_name = String::from_str(user.first_name.as_str());
    full_name.append(" ");
    full_name.append(user.last_name.as_str());
    let name = UserName {
        family_name: user.last_name.clone(),
        full_name,
        given_name: user.first_name.clone(),
    };
    let (recovery_email, emails) = if user.recovery_email.as_str().is_empty() {
        (recovery_email, emails)
    } else {
        (user.recovery_email.clone(), set_home_email(emails, user.recovery_email.as_str()))
    };
    let (recovery_phone, phones) = if user.recovery_phone.as_str().is_empty() {
        (recovery_phone, phones)
    } else {
        let mut phones: Vec<UserPhone> = Vec::new();
        phones.push(
            UserPhone {
                custom_type: String::new(),
                primary: true,
                typev: "home".to_owned(),
                value: user.recovery_phone.clone(),
            },
        );
        assert(phones@.map_values(|p: UserPhone| p@) =~= seq![home_phone(user.recovery_phone@)]);
        (user.recovery_phone.clone(), phones)
    };
    let mut primary_email = String::from_str(user.username.as_str());
    primary_email.append("@");
    primary_email.append(domain);
    let (change_password_at_next_login, password) = match new_password {
        Some(fresh) => (true, fresh),
        None => (change_password_at_next_login, password),
    };
    let addresses = if user.home_address_street_1.as_str().is_empty() {
        addresses
    } else {
        let mut street = user.home_address_street_1.clone();
        if !user.home_address_street_2.as_str().is_empty() {
            street.append("\n");
            street.append(user.home_address_street_2.as_str());
        }
        let mut addresses: Vec<UserAddress> = Vec::new();
        addresses.push(
            UserAddress {
                country: user.home_address_country.clone(),
                country_code: "US".to_owned(),
                custom_type: String::new(),
                extended_address: String::new(),
                formatted: user.home_address_formatted.clone(),
                locality: user.home_address_city.clone(),
                po_box: String::new(),
                postal_code: user.home_address_zipcode.clone(),
                primary: true,
                region: user.home_address_state.clone(),
                source_is_structured: false,
                street_address: street,
                typev: "home".to_owned(),
            },
        );
        assert(addresses@.map_values(|a: UserAddress| a@) =~= seq![home_address(*user)]);
        addresses
    };
    let gender = if user.gender.as_str().is_empty() {
        gender
    } else {
        Some(
            UserGender {
                address_me_as: String::new(),
                custom_gender: String::new(),
                typev: user.gender.clone(),
            },
        )
    };
    let locations = if user.building.as_str().is_empty() {
        locations
    } else {
        let mut locations: Vec<UserLocation> = Vec::new();
        locations.push(
            UserLocation {
                area: String::new(),
                building_id: user.building.clone(),
                custom_type: String::new(),
                desk_code: String::new(),
                floor_name: "1".to_owned(),
                floor_section: String::new(),
                typev: "desk".to_owned(),
            },
        );
        assert(locations@.map_values(|l: UserLocation| l@) =~= seq![desk_in(user.building@)]);
        locations
    };
    let ssh_public_keys = add_ssh_keys(ssh_public_keys, &user.public_ssh_keys);
    let ims = if user.chat.as_str().is_empty() {
        ims
    } else {
        let mut ims: Vec<UserInstantMessenger> = Vec::new();
        ims.push(
            UserInstantMessenger {
                custom_protocol: "matrix".to_owned(),
                custom_type: String::new(),
                im: user.chat.clone(),
                primary: true,
                protocol: "custom_protocol".to_owned(),
                typev: "work".to_owned(),
            },
        );
        assert(ims@.map_values(|i: UserInstantMessenger| i@) =~= seq![
            matrix_address(user.chat@),
        ]);
        ims
    };
    let custom_schemas = CustomSchemas {
        contact_start_date: user.start_date.clone(),
        contact_github_username: some_unless_empty(user.github.as_str()),
        aws_role: some_unless_empty(user.aws_role.as_str()),
    };
    GSuiteUser {
        name,
        recovery_email,
        emails,
        recovery_phone,
        phones,
        primary_email,
        change_password_at_next_login,
        password,
        addresses,
        include_in_global_address_list: true,
        gender,
        locations,
        ssh_public_keys,
        ims,
        custom_schemas,
    }
}

/// Updates a directory account from the company's records of the person.
///
/// With `change_password` a fresh random password of thirty ASCII letters
/// and digits is set and the person has to change it at the next login;
/// which password it is, is not known beforehand.
pub fn update_gsuite_user(gu: GSuiteUser, user: &User, change_password: bool, domain: &str) -> (r:
    GSuiteUser)
    ensures
        !change_password ==> r@ == updated_account(gu@, *user, domain@, None),
        change_password ==> exists|password: Seq<char>|
            #[trigger] is_first_password(password) && r@ == updated_account(
                gu@,
                *user,
                domain@,
                Some(password),
            ),
        change_password ==> is_first_password(r@.password) && r@.change_password_at_next_login,
{
    if change_password {
        let fresh = generate_password();
        let ghost password = fresh@;
        let r = updated_user(gu, user, domain, Some(fresh));
        assert(is_first_password(password) && r@ == updated_account(
            gu@,
            *user,
            domain@,
            Some(password),
        ));
        r
    } else {
        updated_user(gu, user, domain, None)
    }
}

/// The aliases of a person as addresses in the domain.
pub fn format_aliases(aliases: &Vec<String>, domain: &str) -> (r: Vec<String>)
    ensures
        texts_of(r@) == texts_of(aliases@).map_values(|a: Seq<char>| a + "@"@ + domain@),
{
    let ghost wanted = texts_of(aliases@).map_values(|a: Seq<char>| a + "@"@ + domain@);
    let mut formatted: Vec<String> = Vec::new();
    let mut i: usize = 0;
    assert(texts_of(formatted@) =~= wanted.take(0));
    while i < aliases.len()
        invariant
            i <= aliases.len(),
            wanted == texts_of(aliases@).map_values(|a: Seq<char>| a + "@"@ + domain@),
            texts_of(formatted@) == wanted.take(i as int),
        decreases aliases.len() - i,
    {
        let ghost so_far = texts_of(formatted@);
        let mut address = aliases[i].clone();
        address.append("@");
        address.append(domain);
        formatted.push(address);
        assert(texts_of(formatted@) =~= so_far.push(wanted[i as int]));
        assert(wanted.take(i + 1) =~= wanted.take(i as int).push(wanted[i as int]));
        i += 1;
    }
    assert(wanted.take(aliases.len() as int) =~= wanted);
    formatted
}

/// The aliases to set for a person, as addresses in the domain; `None`
/// where the person has no aliases and nothing is to be set.
pub fn update_user_aliases(aliases: &Vec<String>, domain: &str) -> (r: Option<Vec<String>>)
    ensures
        aliases@.len() == 0 <==> r is None,
        r matches Some(formatted) ==> texts_of(formatted@) == texts_of(aliases@).map_values(
            |a: Seq<char>| a + "@"@ + domain@,
        ),
{
    if aliases.len() == 0 {
        None
    } else {
        Some(format_aliases(aliases, domain))
    }
}

} // verus!
