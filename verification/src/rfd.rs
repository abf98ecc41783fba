//! Requests for discussion and the fields that follow from their number.

use vstd::prelude::*;
use vstd::string::StringExecFns;
use crate::text::{decimal, decimal_text, pad_with_zeros, string_of, zero_padded};
use crate::time::UtcTime;

verus! {

/// The data type for an RFD.
#[derive(Debug, Clone, PartialEq, Eq)]
pub struct RFD {
    pub number: i32,
    /// (generated) number_string is the long version of the number with leading zeros
    pub number_string: String,
    pub title: String,
    /// (generated) name is a combination of number and title.
    pub name: String,
    pub state: String,
    /// link is the canonical link to the source.
    pub link: String,
    /// (generated) short_link is the generated link in the form of
    /// https://{number}.rfd.oxide.computer
    pub short_link: String,
    /// (generated) rendered_link is the link to the rfd in the rendered html
    /// website in the form of https://rfd.shared.oxide.computer/rfd/{number_string}
    pub rendered_link: String,
    pub discussion: String,
    pub authors: String,
    pub html: String,
    pub content: String,
    /// sha is the SHA of the last commit that modified the file
    pub sha: String,
    /// commit_date is the date of the last commit that modified the file
    pub commit_date: UtcTime,
}

/// The number of an RFD in its long form: in decimal, with zeros in front
/// up to four characters.
pub open spec fn long_number(number: i32) -> Seq<char> {
    zero_padded(decimal(number as int), 4)
}

/// The name of an RFD: its number and its title.
pub open spec fn full_name(number: i32, title: Seq<char>) -> Seq<char> {
    "RFD "@ + decimal(number as int) + " "@ + title
}

/// The short link to an RFD.
pub open spec fn short_link_of(number: i32) -> Seq<char> {
    "https://"@ + decimal(number as int) + ".rfd.oxide.computer"@
}

/// The link to the rendered form of an RFD.
pub open spec fn rendered_link_of(number: i32) -> Seq<char> {
    "https://rfd.shared.oxide.computer/rfd/"@ + long_number(number)
}

/// The line that announces an RFD in a chat.
pub open spec fn rfd_message(
    name: Seq<char>,
    state: Seq<char>,
    short_link: Seq<char>,
    rendered_link: Seq<char>,
    discussion: Seq<char>,
) -> Seq<char> {
    let line = name + " (_*"@ + state + "*_) <"@ + short_link + "|github> <"@ + rendered_link
        + "|rendered>"@;
    if discussion.len() > 0 {
        line + " <"@ + discussion + "|discussion>"@
    } else {
        line
    }
}

impl RFD {
    /// Whether the generated fields are those that follow from the number
    /// and the title.
    pub open spec fn expanded(&self) -> bool {
        &&& self.number_string@ == long_number(self.number)
        &&& self.name@ == full_name(self.number, self.title@)
        &&& self.short_link@ == short_link_of(self.number)
        &&& self.rendered_link@ == rendered_link_of(self.number)
    }

    /// Expand the fields in the RFD: fills in all generated fields and
    /// leaves the others as they are.
    pub fn expand(&mut self)
        ensures
            final(self).expanded(),
            final(self).number == old(self).number,
            final(self).title == old(self).title,
            final(self).state == old(self).state,
            final(self).link == old(self).link,
            final(self).discussion == old(self).discussion,
            final(self).authors == old(self).authors,
            final(self).html == old(self).html,
            final(self).content == old(self).content,
            final(self).sha == old(self).sha,
            final(self).commit_date == old(self).commit_date,
    {
        let number = string_of(&decimal_text(self.number));
        let long = string_of(&pad_with_zeros(decimal_text(self.number), 4));
        let mut name = String::from_str("RFD ");
        name.append(number.as_str());
        name.append(" ");
        name.append(self.title.as_str());
        let mut short_link = String::from_str("https://");
        short_link.append(number.as_str());
        short_link.append(".rfd.oxide.computer");
        let mut rendered_link = String::from_str("https://rfd.shared.oxide.computer/rfd/");
        rendered_link.append(long.as_str());
        self.number_string = long;
        self.name = name;
        self.short_link = short_link;
        self.rendered_link = rendered_link;
    }

    /// Convert an RFD into a line for a chat.
    pub fn as_slack_msg(&self) -> (msg: String)
        ensures
            msg@ == rfd_message(
                self.name@,
                self.state@,
                self.short_link@,
                self.rendered_link@,
                self.discussion@,
            ),
    {
        let mut msg = self.name.clone();
        msg.append(" (_*");
        msg.append(self.state.as_str());
        msg.append("*_) <");
        msg.append(self.short_link.as_str());
        msg.append("|github> <");
        msg.append(self.rendered_link.as_str());
        msg.append("|rendered>");
        if !self.discussion.as_str().is_empty() {
            msg.append(" <");
            msg.append(self.discussion.as_str());
            msg.append("|discussion>");
        }
        msg
    }
}

/// Expanding an RFD twice gives what expanding it once gives: the
/// generated fields follow from the number and the title alone.
pub proof fn lemma_expand_settles(once: RFD, twice: RFD)
    requires
        once.expanded(),
        twice.expanded(),
        twice.number == once.number,
        twice.title == once.title,
    ensures
        twice.number_string@ == once.number_string@,
        twice.name@ == once.name@,
        twice.short_link@ == once.short_link@,
        twice.rendered_link@ == once.rendered_link@,
{
}

} // verus!
