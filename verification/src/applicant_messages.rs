//! What is said of an applicant: the chat message and the notification
//! email that announce a new application.

use vstd::prelude::*;
use vstd::string::StringExecFns;
use crate::applicant::{Applicant, ApplicantView};
use crate::slack::{
    block_views, context, context_block, message, message_of, section, section_block,
    FormattedMessage, MessageBlock, MessageView,
};
use crate::text::{chars_of, string_of, strip_char_start, strip_leading_char, texts_of};
use crate::time::{elapsed_text, humanize_elapsed, humanize_since, UtcTime};

verus! {

// ---------------------------------------------------------------------------
// The texts
// ---------------------------------------------------------------------------
/// `base` with `label`, `value` and `close` after it, where there is a
/// value; `base` as it is where there is none.
pub open spec fn labelled(
    base: Seq<char>,
    label: Seq<char>,
    value: Seq<char>,
    close: Seq<char>,
) -> Seq<char> {
    if value.len() > 0 {
        base + label + value + close
    } else {
        base
    }
}

/// `base` with a link to the account of `handle` at `host` after it, under
/// the word `tag`, where there is a handle.
pub open spec fn with_account(
    base: Seq<char>,
    host: Seq<char>,
    tag: Seq<char>,
    handle: Seq<char>,
) -> Seq<char> {
    if handle.len() > 0 {
        base + " | <https://"@ + host + "/"@ + strip_leading_char(handle, '@') + "|"@ + tag + ":"@
            + handle + ">"@
    } else {
        base
    }
}

/// Who applied: the name, the email address and, where known, the
/// location.
pub open spec fn intro_text(a: ApplicantView) -> Seq<char> {
    labelled(
        "*"@ + a.name + "*  <mailto:"@ + a.email + "|"@ + a.email + ">"@,
        "  "@,
        a.location,
        ""@,
    )
}

/// Where to find more: the documents, the phone, the accounts and the
/// sites of the applicant, each where known.
pub open spec fn info_text(a: ApplicantView) -> Seq<char> {
    let documents = "<"@ + a.resume + "|resume> | <"@ + a.materials + "|materials>"@;
    let phone = if a.phone.len() > 0 {
        documents + " | <tel:"@ + a.phone + "|"@ + a.phone + ">"@
    } else {
        documents
    };
    let github = with_account(phone, "github.com"@, "github"@, a.github);
    let gitlab = with_account(github, "gitlab.com"@, "gitlab"@, a.gitlab);
    let linkedin = labelled(gitlab, " | <"@, a.linkedin, "|linkedin>"@);
    let portfolio = labelled(linkedin, " | <"@, a.portfolio, "|portfolio>"@);
    labelled(portfolio, " | <"@, a.website, "|website>"@)
}

/// `base` with the values in tension after it: the first one introduced,
/// every further one joined to it.
pub open spec fn with_tensions(base: Seq<char>, values: Seq<Seq<char>>) -> Seq<char>
    decreases values.len(),
{
    if values.len() == 0 {
        base
    } else if values.len() == 1 {
        with_tensions(base, values.drop_last()) + " | in tension: *"@ + values.last() + "*"@
    } else {
        with_tensions(base, values.drop_last()) + " *& "@ + values.last() + "*"@
    }
}

/// The values that the applicant wrote about, or a note that there are
/// none yet.
pub open spec fn values_text(a: ApplicantView) -> Seq<char> {
    let reflected = labelled(""@, "values reflected: *"@, a.value_reflected, "*"@);
    let violated = labelled(reflected, " | violated: *"@, a.value_violated, "*"@);
    let all = with_tensions(violated, a.values_in_tension);
    if all.len() == 0 {
        "values not yet populated"@
    } else {
        all
    }
}

/// The sheet and role, when the application came in, and its status where
/// it has one.
pub open spec fn status_text(a: ApplicantView, time: Seq<char>) -> Seq<char> {
    labelled(
        "<https://docs.google.com/spreadsheets/d/"@ + a.sheet_id + "|"@ + a.role
            + "> Applicant | applied "@ + time,
        " | status: *"@,
        a.status,
        "*"@,
    )
}

/// The chat message that announces an applicant, `time` being the words
/// for when the application came in.
pub open spec fn slack_message(a: ApplicantView, time: Seq<char>) -> MessageView {
    message_of(
        seq![
            section_block(intro_text(a)),
            context_block(info_text(a)),
            context_block(values_text(a)),
            context_block(status_text(a, time)),
        ],
    )
}

/// The closing lines of the notification email.
pub open spec fn email_reminder() -> Seq<char> {
    "\n\n## Reminder\n\nTo view the all the candidates refer to the following Google spreadsheets:\n\n- Engineering Applications: https://applications-engineering.corp.oxide.computer\n- Product Engineering and Design Applications: https://applications-product.corp.oxide.computer\n- Technical Program Manager Applications: https://applications-tpm.corp.oxide.computer\n"@
}

/// `base` with a line for the account of `handle` at `host` after it,
/// where there is a handle.
pub open spec fn with_account_line(
    base: Seq<char>,
    label: Seq<char>,
    host: Seq<char>,
    handle: Seq<char>,
) -> Seq<char> {
    if handle.len() > 0 {
        base + label + handle + " (https://"@ + host + "/"@ + strip_leading_char(handle, '@')
            + ")"@
    } else {
        base
    }
}

/// The body of the email that tells the company of a new application,
/// `time` being the words for when the application came in.
pub open spec fn notification_email(a: ApplicantView, time: Seq<char>) -> Seq<char> {
    let head = "## Applicant Information for "@ + a.role + "\n\nSubmitted "@ + time + "\nName: "@
        + a.name + "\nEmail: "@ + a.email;
    let location = labelled(head, "\nLocation: "@, a.location, ""@);
    let phone = labelled(location, "\nPhone: "@, a.phone, ""@);
    let github = with_account_line(phone, "\nGitHub: "@, "github.com"@, a.github);
    let gitlab = with_account_line(github, "\nGitLab: "@, "gitlab.com"@, a.gitlab);
    let linkedin = labelled(gitlab, "\nLinkedIn: "@, a.linkedin, ""@);
    let portfolio = labelled(linkedin, "\nPortfolio: "@, a.portfolio, ""@);
    let website = labelled(portfolio, "\nWebsite: "@, a.website, ""@);
    website + "\nResume: "@ + a.resume + "\nOxide Candidate Materials: "@ + a.materials
        + email_reminder()
}

// ---------------------------------------------------------------------------
// Executable functions
// ---------------------------------------------------------------------------
/// Adds `label`, `value` and `close` to a text where there is a value.
pub fn append_labelled(msg: &mut String, label: &str, value: &str, close: &str)
    ensures
        final(msg)@ == labelled(old(msg)@, label@, value@, close@),
{
    if !value.is_empty() {
        msg.append(label);
        msg.append(value);
        msg.append(close);
    }
}

/// A handle without the `@` in front of it.
pub fn bare(handle: &str) -> (r: String)
    ensures
        r@ == strip_leading_char(handle@, '@'),
{
    string_of(&strip_char_start(&chars_of(handle), '@'))
}

/// Adds a link to the account of `handle` at `host` to a text, where
/// there is a handle.
pub fn append_account(msg: &mut String, host: &str, tag: &str, handle: &str)
    ensures
        final(msg)@ == with_account(old(msg)@, host@, tag@, handle@),
{
    if !handle.is_empty() {
        let name = bare(handle);
        msg.append(" | <https://");
        msg.append(host);
        msg.append("/");
        msg.append(name.as_str());
        msg.append("|");
        msg.append(tag);
        msg.append(":");
        msg.append(handle);
        msg.append(">");
    }
}

/// Adds a line for the account of `handle` at `host` to a text, where
/// there is a handle.
pub fn append_account_line(msg: &mut String, label: &str, host: &str, handle: &str)
    ensures
        final(msg)@ == with_account_line(old(msg)@, label@, host@, handle@),
{
    if !handle.is_empty() {
        let name = bare(handle);
        msg.append(label);
        msg.append(handle);
        msg.append(" (https://");
        msg.append(host);
        msg.append("/");
        msg.append(name.as_str());
        msg.append(")");
    }
}

/// Adds the values in tension to a text.
pub fn append_tensions(msg: &mut String, values: &Vec<String>)
    ensures
        final(msg)@ == with_tensions(old(msg)@, texts_of(values@)),
{
    let ghost all = texts_of(values@);
    let ghost base = msg@;
    let mut k: usize = 0;
    assert(all.take(0) =~= Seq::<Seq<char>>::empty());
    while k < values.len()
        invariant
            k <= values.len(),
            all == texts_of(values@),
            msg@ == with_tensions(base, all.take(k as int)),
        decreases values.len() - k,
    {
        let ghost next = all.take(k + 1);
        assert(next.drop_last() =~= all.take(k as int));
        assert(next.last() == values@[k as int]@);
        if k == 0 {
            msg.append(" | in tension: *");
        } else {
            msg.append(" *& ");
        }
        msg.append(values[k].as_str());
        msg.append("*");
        k += 1;
    }
    assert(all.take(values.len() as int) =~= all);
}

impl Applicant {
    /// Who applied.
    pub fn intro_msg(&self) -> (msg: String)
        ensures
            msg@ == intro_text(self@),
    {
        let mut msg = String::from_str("*");
        msg.append(self.name.as_str());
        msg.append("*  <mailto:");
        msg.append(self.email.as_str());
        msg.append("|");
        msg.append(self.email.as_str());
        msg.append(">");
        append_labelled(&mut msg, "  ", self.location.as_str(), "");
        msg
    }

    /// Where to find more of the applicant.
    pub fn info_msg(&self) -> (msg: String)
        ensures
            msg@ == info_text(self@),
    {
        let mut msg = String::from_str("<");
        msg.append(self.resume.as_str());
        msg.append("|resume> | <");
        msg.append(self.materials.as_str());
        msg.append("|materials>");
        if !self.phone.as_str().is_empty() {
            msg.append(" | <tel:");
            msg.append(self.phone.as_str());
            msg.append("|");
            msg.append(self.phone.as_str());
            msg.append(">");
        }
        append_account(&mut msg, "github.com", "github", self.github.as_str());
        append_account(&mut msg, "gitlab.com", "gitlab", self.gitlab.as_str());
        append_labelled(&mut msg, " | <", self.linkedin.as_str(), "|linkedin>");
        append_labelled(&mut msg, " | <", self.portfolio.as_str(), "|portfolio>");
        append_labelled(&mut msg, " | <", self.website.as_str(), "|website>");
        msg
    }

    /// The values that the applicant wrote about.
    pub fn values_msg(&self) -> (msg: String)
        ensures
            msg@ == values_text(self@),
    {
        let mut msg = String::from_str("");
        append_labelled(&mut msg, "values reflected: *", self.value_reflected.as_str(), "*");
        append_labelled(&mut msg, " | violated: *", self.value_violated.as_str(), "*");
        append_tensions(&mut msg, &self.values_in_tension);
        if msg.as_str().is_empty() {
            String::from_str("values not yet populated")
        } else {
            msg
        }
    }

    /// The sheet and role, when the application came in, and its status.
    pub fn status_msg(&self, time: &str) -> (msg: String)
        ensures
            msg@ == status_text(self@, time@),
    {
        let mut msg = String::from_str("<https://docs.google.com/spreadsheets/d/");
        msg.append(self.sheet_id.as_str());
        msg.append("|");
        msg.append(self.role.as_str());
        msg.append("> Applicant | applied ");
        msg.append(time);
        append_labelled(&mut msg, " | status: *", self.status.as_str(), "*");
        msg
    }

    /// The words for the time that has passed since the application came
    /// in, as of `now`.
    pub fn human_duration_at(&self, now: UtcTime) -> (time: String)
        ensures
            time@ == elapsed_text(self.submitted_time, now),
    {
        humanize_elapsed(self.submitted_time, now)
    }

    /// Get the human duration of time since the application was submitted.
    pub fn human_duration(&self) -> (time: String)
        ensures
            exists|now: UtcTime| time@ == elapsed_text(self.submitted_time, now),
    {
        humanize_since(self.submitted_time)
    }

    /// The chat message that announces the applicant, `time` being the
    /// words for when the application came in.
    pub fn slack_msg_with(&self, time: &str) -> (m: FormattedMessage)
        ensures
            m@ == slack_message(self@, time@),
    {
        let mut blocks: Vec<MessageBlock> = Vec::new();
        blocks.push(section(self.intro_msg()));
        blocks.push(context(self.info_msg()));
        blocks.push(context(self.values_msg()));
        blocks.push(context(self.status_msg(time)));
        assert(block_views(blocks@) =~= seq![
            section_block(intro_text(self@)),
            context_block(info_text(self@)),
            context_block(values_text(self@)),
            context_block(status_text(self@, time@)),
        ]);
        message(blocks)
    }

    /// Convert the applicant into a chat message.
    pub fn as_slack_msg(&self) -> (m: FormattedMessage)
        ensures
            exists|now: UtcTime|
                m@ == slack_message(self@, elapsed_text(self.submitted_time, now)),
    {
        let time = self.human_duration();
        let m = self.slack_msg_with(time.as_str());
        let ghost now = choose|now: UtcTime| time@ == elapsed_text(self.submitted_time, now);
        assert(m@ == slack_message(self@, elapsed_text(self.submitted_time, now)));
        m
    }

    /// The body of the notification email, `time` being the words for when
    /// the application came in.
    pub fn notification_email_with(&self, time: &str) -> (msg: String)
        ensures
            msg@ == notification_email(self@, time@),
    {
        let mut msg = String::from_str("## Applicant Information for ");
        msg.append(self.role.as_str());
        msg.append("\n\nSubmitted ");
        msg.append(time);
        msg.append("\nName: ");
        msg.append(self.name.as_str());
        msg.append("\nEmail: ");
        msg.append(self.email.as_str());
        append_labelled(&mut msg, "\nLocation: ", self.location.as_str(), "");
        append_labelled(&mut msg, "\nPhone: ", self.phone.as_str(), "");
        append_account_line(&mut msg, "\nGitHub: ", "github.com", self.github.as_str());
        append_account_line(&mut msg, "\nGitLab: ", "gitlab.com", self.gitlab.as_str());
        append_labelled(&mut msg, "\nLinkedIn: ", self.linkedin.as_str(), "");
        append_labelled(&mut msg, "\nPortfolio: ", self.portfolio.as_str(), "");
        append_labelled(&mut msg, "\nWebsite: ", self.website.as_str(), "");
        msg.append("\nResume: ");
        msg.append(self.resume.as_str());
        msg.append("\nOxide Candidate Materials: ");
        msg.append(self.materials.as_str());
        msg.append(
            "\n\n## Reminder\n\nTo view the all the candidates refer to the following Google spreadsheets:\n\n- Engineering Applications: https://applications-engineering.corp.oxide.computer\n- Product Engineering and Design Applications: https://applications-product.corp.oxide.computer\n- Technical Program Manager Applications: https://applications-tpm.corp.oxide.computer\n",
        );
        msg
    }

    /// Get the applicant's information in the form of the body of an email
    /// for a company wide notification that we received a new application.
    pub fn as_company_notification_email(&self) -> (msg: String)
        ensures
            exists|now: UtcTime|
                msg@ == notification_email(self@, elapsed_text(self.submitted_time, now)),
    {
        let time = self.human_duration();
        let msg = self.notification_email_with(time.as_str());
        let ghost now = choose|now: UtcTime| time@ == elapsed_text(self.submitted_time, now);
        assert(msg@ == notification_email(self@, elapsed_text(self.submitted_time, now)));
        msg
    }
}

} // verus!
