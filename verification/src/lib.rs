//! The records of a company's internal tools, and the logic that makes
//! them.
//!
//! The heart of the library is applicant intake: a row of an applications
//! sheet and the text of the applicant's documents become one normalized
//! record. `extract` carves answers out of documents, `phone` and `handle`
//! normalize what applicants typed, `rules` holds the field rules, and
//! `applicant` assembles the record. The other modules hold the smaller
//! records (repositories, requests for discussion, journal club meetings,
//! mailing list signups, page views, directory accounts) and what is said
//! of them in chat messages.
//!
//! Every function is verified against a contract over `Seq<char>` and
//! plain numbers. What other crates compute (regular expressions, phone
//! numbers, dates, tables of comma-separated values) is called through a
//! few functions whose contracts are taken on trust; each says so.

pub mod analytics;
pub mod applicant;
pub mod applicant_messages;
pub mod extract;
pub mod github;
pub mod groups;
pub mod gsuite;
pub mod handle;
pub mod journal_clubs;
pub mod mailing_list;
pub mod models;
pub mod phone;
pub mod rfd;
pub mod rules;
pub mod slack;
pub mod text;
pub mod time;
