use cio::groups::{
    slug_before, update_user_google_groups, Group, GroupDirectory, SyncAction, SyncEvent, SyncState,
};
use cio::gsuite::{
    add_ssh_keys, format_aliases, set_home_email, update_gsuite_user, update_user_aliases,
    updated_user, CustomSchemas, GSuiteUser, User, UserAddress, UserEmail, UserGender,
    UserInstantMessenger, UserLocation, UserName, UserPhone, UserSSHKey,
};

fn s(x: &str) -> String {
    x.to_string()
}

fn email(typev: &str, address: &str) -> UserEmail {
    UserEmail { address: s(address), custom_type: s("c"), primary: true, typev: s(typev) }
}

fn person() -> User {
    User {
        first_name: s("Ada"),
        last_name: s("Lovelace"),
        username: s("ada"),
        recovery_email: s("ada@home.example"),
        recovery_phone: s("+15551234567"),
        home_address_street_1: s("1 Engine Way"),
        home_address_street_2: s("Unit 2"),
        home_address_city: s("London"),
        home_address_state: s("LDN"),
        home_address_zipcode: s("N1"),
        home_address_country: s("UK"),
        home_address_formatted: s("1 Engine Way, London"),
        gender: s("female"),
        building: s("HQ"),
        public_ssh_keys: vec![s("ssh-ed25519 AAA"), s("ssh-rsa BBB")],
        chat: s("@ada:matrix.example"),
        start_date: s("2020-01-02"),
        github: s("ada"),
        aws_role: s("arn:aws:iam::1:role/x"),
        groups: vec![s("eng")],
        is_group_admin: false,
    }
}

fn account() -> GSuiteUser {
    GSuiteUser {
        emails: vec![email("work", "ada@work.example"), email("home", "old@home.example"), email("home", "older@home.example")],
        recovery_email: s("old@home.example"),
        password: s("secret"),
        ssh_public_keys: vec![UserSSHKey { key: s("old key"), expiration_time_usec: Some(5), fingerprint: s("fp") }],
        phones: vec![UserPhone { custom_type: s(""), primary: false, typev: s("work"), value: s("1") }],
        ..Default::default()
    }
}

#[test]
fn account_is_filled_from_the_records() {
    let got = updated_user(account(), &person(), "example.com", None);
    let want = GSuiteUser {
        name: UserName { family_name: s("Lovelace"), full_name: s("Ada Lovelace"), given_name: s("Ada") },
        recovery_email: s("ada@home.example"),
        emails: vec![
            email("work", "ada@work.example"),
            email("home", "ada@home.example"),
            email("home", "older@home.example"),
        ],
        recovery_phone: s("+15551234567"),
        phones: vec![UserPhone { custom_type: s(""), primary: true, typev: s("home"), value: s("+15551234567") }],
        primary_email: s("ada@example.com"),
        change_password_at_next_login: false,
        password: s("secret"),
        addresses: vec![UserAddress {
            country: s("UK"),
            country_code: s("US"),
            custom_type: s(""),
            extended_address: s(""),
            formatted: s("1 Engine Way, London"),
            locality: s("London"),
            po_box: s(""),
            postal_code: s("N1"),
            primary: true,
            region: s("LDN"),
            source_is_structured: false,
            street_address: s("1 Engine Way\nUnit 2"),
            typev: s("home"),
        }],
        include_in_global_address_list: true,
        gender: Some(UserGender { address_me_as: s(""), custom_gender: s(""), typev: s("female") }),
        locations: vec![UserLocation {
            area: s(""),
            building_id: s("HQ"),
            custom_type: s(""),
            desk_code: s(""),
            floor_name: s("1"),
            floor_section: s(""),
            typev: s("desk"),
        }],
        ssh_public_keys: vec![
            UserSSHKey { key: s("old key"), expiration_time_usec: Some(5), fingerprint: s("fp") },
            UserSSHKey { key: s("ssh-ed25519 AAA"), expiration_time_usec: None, fingerprint: s("") },
            UserSSHKey { key: s("ssh-rsa BBB"), expiration_time_usec: None, fingerprint: s("") },
        ],
        ims: vec![UserInstantMessenger {
            custom_protocol: s("matrix"),
            custom_type: s(""),
            im: s("@ada:matrix.example"),
            primary: true,
            protocol: s("custom_protocol"),
            typev: s("work"),
        }],
        custom_schemas: CustomSchemas {
            contact_start_date: s("2020-01-02"),
            contact_github_username: Some(s("ada")),
            aws_role: Some(s("arn:aws:iam::1:role/x")),
        },
    };
    assert_eq!(got, want);
}

#[test]
fn empty_records_leave_the_account_alone() {
    let blank = User { first_name: s("A"), last_name: s("B"), username: s("ab"), ..Default::default() };
    let before = account();
    let got = update_gsuite_user(before.clone(), &blank, false, "example.com");
    assert_eq!(got.emails, before.emails);
    assert_eq!(got.recovery_email, before.recovery_email);
    assert_eq!(got.phones, before.phones);
    assert_eq!(got.addresses, before.addresses);
    assert_eq!(got.gender, None);
    assert_eq!(got.ssh_public_keys, before.ssh_public_keys);
    assert_eq!(got.password, "secret");
    assert!(!got.change_password_at_next_login);
    assert!(got.include_in_global_address_list);
    assert_eq!(got.name.full_name, "A B");
    assert_eq!(got.primary_email, "ab@example.com");
    assert_eq!(got.custom_schemas, CustomSchemas { contact_start_date: s(""), contact_github_username: None, aws_role: None });
}

#[test]
fn one_line_street_address() {
    let mut p = person();
    p.home_address_street_2 = String::new();
    let got = updated_user(account(), &p, "example.com", None);
    assert_eq!(got.addresses[0].street_address, "1 Engine Way");
}

#[test]
fn new_password_is_set_and_must_be_changed() {
    let got = updated_user(account(), &person(), "example.com", Some(s("fresh")));
    assert_eq!(got.password, "fresh");
    assert!(got.change_password_at_next_login);
    let random = update_gsuite_user(account(), &person(), true, "example.com");
    assert!(random.change_password_at_next_login);
    assert_ne!(random.password, "secret");
    assert_eq!(random.password.len(), 30);
    assert!(random.password.chars().all(|c| c.is_ascii_alphanumeric()));
    assert_eq!(random.name.full_name, "Ada Lovelace");
}

#[test]
fn home_email_is_set_or_added() {
    let none: Vec<UserEmail> = Vec::new();
    assert_eq!(
        set_home_email(none, "a@h"),
        vec![UserEmail { address: s("a@h"), custom_type: s(""), primary: false, typev: s("home") }]
    );
    let work_only = vec![email("work", "w")];
    assert_eq!(
        set_home_email(work_only, "a@h"),
        vec![email("work", "w"), UserEmail { address: s("a@h"), custom_type: s(""), primary: false, typev: s("home") }]
    );
    assert_eq!(set_home_email(vec![email("home", "x")], "a@h"), vec![email("home", "a@h")]);
}

#[test]
fn keys_and_aliases() {
    assert_eq!(add_ssh_keys(Vec::new(), &Vec::new()), Vec::<UserSSHKey>::new());
    assert_eq!(format_aliases(&vec![s("a"), s("b.c")], "example.com"), vec![s("a@example.com"), s("b.c@example.com")]);
    assert_eq!(update_user_aliases(&Vec::new(), "example.com"), None);
    assert_eq!(update_user_aliases(&vec![s("a")], "example.com"), Some(vec![s("a@example.com")]));
}

fn group(slug: &str) -> Group {
    Group { slug: s(slug), id: format!("id-{}", slug), name: format!("{} people", slug) }
}

fn directory(slugs: &[&str]) -> GroupDirectory {
    GroupDirectory::new(slugs.iter().map(|slug| group(slug)).collect()).unwrap()
}

fn run(wanted: &Vec<String>, admin: bool, groups: &GroupDirectory, members: &[&str]) -> Vec<SyncAction> {
    let mut actions = Vec::new();
    let (mut state, mut action) = update_user_google_groups(wanted, admin, groups, SyncState::Start, SyncEvent::Begin);
    let mut steps = 0;
    loop {
        actions.push(action.clone());
        let event = match &action {
            SyncAction::AskMembership { group_id } => SyncEvent::Membership(members.contains(&group_id.as_str())),
            SyncAction::UpdateMember { .. } | SyncAction::InsertMember { .. } | SyncAction::RemoveMember { .. } => SyncEvent::Written,
            _ => break,
        };
        let next = update_user_google_groups(wanted, admin, groups, state, event);
        state = next.0;
        action = next.1;
        steps += 1;
        assert!(steps <= 2 * (wanted.len() + groups.groups().len()) + 1);
    }
    assert!(state == SyncState::Finished || state == SyncState::Failed);
    actions
}

fn ask(slug: &str) -> SyncAction {
    SyncAction::AskMembership { group_id: format!("id-{}", slug) }
}

#[test]
fn memberships_are_brought_in_step() {
    let wanted = vec![s("eng"), s("all")];
    let groups = directory(&["all", "eng", "ops", "sales"]);
    let got = run(&wanted, false, &groups, &["id-all", "id-ops"]);
    let want = vec![
        ask("eng"),
        SyncAction::InsertMember { group_id: s("id-eng"), role: s("MEMBER") },
        ask("all"),
        SyncAction::UpdateMember { group_id: s("id-all"), role: s("MEMBER") },
        ask("ops"),
        SyncAction::RemoveMember { group_id: s("id-ops") },
        ask("sales"),
        SyncAction::Finish,
    ];
    assert_eq!(got, want);
}

#[test]
fn admins_own_their_groups() {
    let got = run(&vec![s("eng")], true, &directory(&["eng"]), &[]);
    assert_eq!(got, vec![ask("eng"), SyncAction::InsertMember { group_id: s("id-eng"), role: s("OWNER") }, SyncAction::Finish]);
}

#[test]
fn missing_group_stops_the_work() {
    let got = run(&vec![s("eng"), s("ghosts"), s("all")], false, &directory(&["all", "eng"]), &["id-eng"]);
    assert_eq!(
        got,
        vec![
            ask("eng"),
            SyncAction::UpdateMember { group_id: s("id-eng"), role: s("MEMBER") },
            SyncAction::MissingGroup { slug: s("ghosts") },
        ]
    );
}

#[test]
fn nothing_to_do() {
    assert_eq!(run(&Vec::new(), false, &directory(&[]), &[]), vec![SyncAction::Finish]);
}

#[test]
fn unexpected_events_fail() {
    let wanted = vec![s("eng")];
    let groups = directory(&["eng"]);
    for (state, event) in [
        (SyncState::Start, SyncEvent::Written),
        (SyncState::Finished, SyncEvent::Begin),
        (SyncState::AskedWanted { position: 0 }, SyncEvent::Written),
        (SyncState::AskedWanted { position: 5 }, SyncEvent::Membership(true)),
        (SyncState::WroteOther { position: 9 }, SyncEvent::Written),
        (SyncState::AskedOther { position: 0 }, SyncEvent::Membership(true)),
    ] {
        assert_eq!(
            update_user_google_groups(&wanted, false, &groups, state, event),
            (SyncState::Failed, SyncAction::Unexpected)
        );
    }
}

#[test]
fn directory_keeps_the_order_of_the_slugs() {
    assert!(GroupDirectory::new(vec![group("all"), group("eng"), group("ops")]).is_some());
    assert!(GroupDirectory::new(Vec::new()).is_some());
    assert!(GroupDirectory::new(vec![group("eng")]).is_some());
    assert!(GroupDirectory::new(vec![group("eng"), group("all")]).is_none());
    assert!(GroupDirectory::new(vec![group("all"), group("all")]).is_none());
    assert!(GroupDirectory::new(vec![group("a"), group("b"), group("ab")]).is_none());
    let d = directory(&["a", "ab", "b"]);
    assert_eq!(d.groups().len(), 3);
    assert_eq!(d.groups()[1].slug, "ab");
}

#[test]
fn order_of_slugs_is_the_order_of_strings() {
    for (a, b) in [("", ""), ("", "a"), ("a", ""), ("a", "b"), ("b", "a"), ("a", "ab"), ("ab", "a"), ("ab", "ab"), ("Z", "a"), ("e\u{301}", "\u{e9}"), ("\u{e9}", "z"), ("z", "\u{1F600}")] {
        assert_eq!(slug_before(a, b), a < b, "{:?} {:?}", a, b);
    }
}
