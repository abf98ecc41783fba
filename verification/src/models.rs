//! The records of the company under one roof.

pub use crate::applicant::{Applicant, ApplicantSheetColumns, ParseError};
pub use crate::github::{GitHubUser, GithubRepo, InvalidDate, Repo};
pub use crate::mailing_list::MailingListSignup;
pub use crate::rfd::RFD;
