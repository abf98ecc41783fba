//! Page views and the users they belong to.

use vstd::prelude::*;
use vstd::string::StringExecFns;
use crate::text::{chars_of, string_of, strip_char_start, strip_leading_char, texts_of};
use crate::time::UtcTime;

verus! {

/// A view of a page by a signed-in user.
#[derive(Debug, Clone, PartialEq, Eq)]
pub struct NewPageView {
    pub time: UtcTime,
    pub domain: String,
    pub path: String,
    pub user_email: String,
    pub page_link: String,
    /// link to another table in Airtable
    pub link_to_auth_user: Vec<String>,
}

/// A user as the record store knows it: the identifier of the record and
/// the email address of the user.
#[derive(Debug, Clone, PartialEq, Eq)]
pub struct AuthUserRecord {
    pub id: String,
    pub email: String,
}

/// The link to a page: the domain and the path, with one slash between.
pub open spec fn page_link_of(domain: Seq<char>, path: Seq<char>) -> Seq<char> {
    "https://"@ + domain + "/"@ + strip_leading_char(path, '/')
}

/// The identifier of the first record with the given email address.
pub open spec fn first_with_email(
    records: Seq<AuthUserRecord>,
    email: Seq<char>,
) -> Option<Seq<char>>
    decreases records.len(),
{
    if records.len() == 0 {
        None
    } else if records[0].email@ == email {
        Some(records[0].id@)
    } else {
        first_with_email(records.drop_first(), email)
    }
}

/// The links of a page view after the users have been looked through: the
/// record of the first user with the email of the view, alone, or the
/// links as they were where there is no such user.
pub open spec fn linked_users(
    links: Seq<Seq<char>>,
    records: Seq<AuthUserRecord>,
    email: Seq<char>,
) -> Seq<Seq<char>> {
    match first_with_email(records, email) {
        Some(id) => seq![id],
        None => links,
    }
}

impl NewPageView {
    /// Sets the link to the page from the domain and the path.
    pub fn set_page_link(&mut self)
        ensures
            final(self).page_link@ == page_link_of(old(self).domain@, old(self).path@),
            final(self).time == old(self).time,
            final(self).domain == old(self).domain,
            final(self).path == old(self).path,
            final(self).user_email == old(self).user_email,
            final(self).link_to_auth_user == old(self).link_to_auth_user,
    {
        let path = string_of(&strip_char_start(&chars_of(self.path.as_str()), '/'));
        let mut link = String::from_str("https://");
        link.append(self.domain.as_str());
        link.append("/");
        link.append(path.as_str());
        self.page_link = link;
    }

    /// Links the page view to the user it belongs to: the first of the
    /// given users with the email address of the view.
    pub fn update_airtable_record(&mut self, auth_users: &Vec<AuthUserRecord>)
        ensures
            texts_of(final(self).link_to_auth_user@) == linked_users(
                texts_of(old(self).link_to_auth_user@),
                auth_users@,
                old(self).user_email@,
            ),
            final(self).time == old(self).time,
            final(self).domain == old(self).domain,
            final(self).path == old(self).path,
            final(self).user_email == old(self).user_email,
            final(self).page_link == old(self).page_link,
    {
        let mut i: usize = 0;
        assert(auth_users@.skip(0) =~= auth_users@);
        while i < auth_users.len()
            invariant
                i <= auth_users.len(),
                *self == *old(self),
                first_with_email(auth_users@, self.user_email@) == first_with_email(
                    auth_users@.skip(i as int),
                    self.user_email@,
                ),
            decreases auth_users.len() - i,
        {
            let ghost rest = auth_users@.skip(i as int);
            assert(rest[0] == auth_users@[i as int]);
            assert(rest.drop_first() =~= auth_users@.skip(i + 1));
            if auth_users[i].email == self.user_email {
                let mut links: Vec<String> = Vec::new();
                links.push(auth_users[i].id.clone());
                assert(texts_of(links@) =~= seq![auth_users@[i as int].id@]);
                self.link_to_auth_user = links;
                return ;
            }
            i += 1;
        }
    }
}

} // verus!
