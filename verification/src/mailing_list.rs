//! Signups to the mailing list and what is said of them.

use vstd::prelude::*;
use vstd::string::StringExecFns;
use crate::slack::{
    block_views, context, context_block, empty, empty_block, message, message_of, section,
    section_block, BlockView, FormattedMessage, MessageBlock, MessageView,
};
use crate::time::{elapsed_text, humanize_elapsed, humanize_since, now, UtcTime};

verus! {

/// The data type for a MailingListSignup.
#[derive(Debug, Clone, PartialEq, Eq)]
pub struct MailingListSignup {
    pub email: String,
    pub first_name: String,
    pub last_name: String,
    /// (generated) name is a combination of first_name and last_name.
    pub name: String,
    pub company: String,
    pub interest: String,
    pub wants_podcast_updates: bool,
    pub wants_newsletter: bool,
    pub wants_product_updates: bool,
    pub date_added: UtcTime,
    pub date_optin: UtcTime,
    pub date_last_changed: UtcTime,
    pub notes: String,
    pub tags: Vec<String>,
    /// link to another table in Airtable
    pub link_to_people: Vec<String>,
}

/// A truth value in words.
pub open spec fn truth_text(b: bool) -> Seq<char> {
    if b {
        "true"@
    } else {
        "false"@
    }
}

/// Who signed up: the name and the email address.
pub open spec fn signup_intro(s: MailingListSignup) -> Seq<char> {
    "*"@ + s.name@ + "* <mailto:"@ + s.email@ + "|"@ + s.email@ + ">"@
}

/// What the person is interested in, as a quotation, or a block without
/// content where nothing was said.
pub open spec fn interest_block(s: MailingListSignup) -> BlockView {
    if s.interest@.len() > 0 {
        section_block("\n>"@ + s.interest@)
    } else {
        empty_block()
    }
}

/// Which updates the person asked for.
pub open spec fn updates_text(s: MailingListSignup) -> Seq<char> {
    "podcast updates: _"@ + truth_text(s.wants_podcast_updates) + "_ | newsletter: _"@
        + truth_text(s.wants_newsletter) + "_ | product updates: _"@ + truth_text(
        s.wants_product_updates,
    ) + "_"@
}

/// Where the person works, if known, and when the person signed up.
pub open spec fn signup_context(s: MailingListSignup, time: Seq<char>) -> Seq<char> {
    if s.company@.len() > 0 {
        "works at "@ + s.company@ + " | subscribed to mailing list "@ + time
    } else {
        "subscribed to mailing list "@ + time
    }
}

/// The chat message that announces a signup, `time` being the words for
/// when the person signed up.
pub open spec fn signup_message(s: MailingListSignup, time: Seq<char>) -> MessageView {
    message_of(
        seq![
            section_block(signup_intro(s)),
            interest_block(s),
            context_block(updates_text(s)),
            context_block(signup_context(s, time)),
        ],
    )
}

/// A truth value in words.
pub fn truth(b: bool) -> (r: &'static str)
    ensures
        r@ == truth_text(b),
{
    if b {
        "true"
    } else {
        "false"
    }
}

impl MailingListSignup {
    /// A signup without content that was added, opted in and last changed
    /// at the given instant.
    pub fn empty_at(instant: UtcTime) -> (s: MailingListSignup)
        ensures
            s.email@.len() == 0,
            s.first_name@.len() == 0,
            s.last_name@.len() == 0,
            s.name@.len() == 0,
            s.company@.len() == 0,
            s.interest@.len() == 0,
            !s.wants_podcast_updates && !s.wants_newsletter && !s.wants_product_updates,
            s.date_added == instant && s.date_optin == instant && s.date_last_changed == instant,
            s.notes@.len() == 0,
            s.tags@.len() == 0,
            s.link_to_people@.len() == 0,
    {
        MailingListSignup {
            email: String::new(),
            first_name: String::new(),
            last_name: String::new(),
            name: String::new(),
            company: String::new(),
            interest: String::new(),
            wants_podcast_updates: false,
            wants_newsletter: false,
            wants_product_updates: false,
            date_added: instant,
            date_optin: instant,
            date_last_changed: instant,
            notes: String::new(),
            tags: Vec::new(),
            link_to_people: Vec::new(),
        }
    }

    /// The words for the time that has passed since the signup, as of
    /// `now`.
    pub fn human_duration_at(&self, now: UtcTime) -> (time: String)
        ensures
            time@ == elapsed_text(self.date_added, now),
    {
        humanize_elapsed(self.date_added, now)
    }

    /// Get the human duration of time since the signup was fired.
    pub fn human_duration(&self) -> (time: String)
        ensures
            exists|now: UtcTime| time@ == elapsed_text(self.date_added, now),
    {
        humanize_since(self.date_added)
    }

    /// The chat message that announces the signup, `time` being the words
    /// for when the person signed up.
    pub fn slack_msg_with(&self, time: &str) -> (m: FormattedMessage)
        ensures
            m@ == signup_message(*self, time@),
    {
        let mut msg = String::from_str("*");
        msg.append(self.name.as_str());
        msg.append("* <mailto:");
        msg.append(self.email.as_str());
        msg.append("|");
        msg.append(self.email.as_str());
        msg.append(">");
        let interest = if !self.interest.as_str().is_empty() {
            let mut quote = String::from_str("\n>");
            quote.append(self.interest.as_str());
            section(quote)
        } else {
            empty()
        };
        let mut updates = String::from_str("podcast updates: _");
        updates.append(truth(self.wants_podcast_updates));
        updates.append("_ | newsletter: _");
        updates.append(truth(self.wants_newsletter));
        updates.append("_ | product updates: _");
        updates.append(truth(self.wants_product_updates));
        updates.append("_");
        let about = if !self.company.as_str().is_empty() {
            let mut about = String::from_str("works at ");
            about.append(self.company.as_str());
            about.append(" | subscribed to mailing list ");
            about.append(time);
            about
        } else {
            let mut about = String::from_str("subscribed to mailing list ");
            about.append(time);
            about
        };
        let mut blocks: Vec<MessageBlock> = Vec::new();
        blocks.push(section(msg));
        blocks.push(interest);
        blocks.push(context(updates));
        blocks.push(context(about));
        assert(block_views(blocks@) =~= seq![
            section_block(signup_intro(*self)),
            interest_block(*self),
            context_block(updates_text(*self)),
            context_block(signup_context(*self, time@)),
        ]);
        message(blocks)
    }

    /// Convert the mailing list signup into a chat message.
    pub fn as_slack_msg(&self) -> (m: FormattedMessage)
        ensures
            exists|now: UtcTime| m@ == signup_message(*self, elapsed_text(self.date_added, now)),
    {
        let time = self.human_duration();
        let m = self.slack_msg_with(time.as_str());
        let ghost now = choose|now: UtcTime| time@ == elapsed_text(self.date_added, now);
        assert(m@ == signup_message(*self, elapsed_text(self.date_added, now)));
        m
    }
}

impl Default for MailingListSignup {
    /// A signup without content, dated now.
    fn default() -> (s: MailingListSignup)
        ensures
            s.email@.len() == 0,
            s.first_name@.len() == 0,
            s.last_name@.len() == 0,
            s.name@.len() == 0,
            s.company@.len() == 0,
            s.interest@.len() == 0,
            !s.wants_podcast_updates && !s.wants_newsletter && !s.wants_product_updates,
            s.notes@.len() == 0,
            s.tags@.len() == 0,
            s.link_to_people@.len() == 0,
    {
        let mut s = MailingListSignup::empty_at(now());
        s.date_optin = now();
        s.date_last_changed = now();
        s
    }
}

} // verus!
