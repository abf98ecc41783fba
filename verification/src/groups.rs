//! Group memberships: the decisions that bring the groups of the directory
//! in step with the groups a person is meant to be in.
//!
//! Asking the directory and writing to it is work for the caller. The
//! decisions are a machine: the caller hands it what happened, it answers
//! with what to do next.

use vstd::prelude::*;
use crate::text::{chars_of, texts_of};

verus! {

// ---------------------------------------------------------------------------
// Types
// ---------------------------------------------------------------------------
/// A group of the directory: the name under which the company's records
/// know it, and its identifier and name in the directory.
#[derive(Debug, Clone, PartialEq, Eq)]
pub struct Group {
    pub slug: String,
    pub id: String,
    pub name: String,
}

/// The groups of the directory, each under its slug: no slug occurs twice,
/// and the groups stand in the order of their slugs.
#[derive(Debug)]
pub struct GroupDirectory {
    groups: Vec<Group>,
}

/// Where the work stands.
#[derive(Debug, Clone, Copy, PartialEq, Eq, Structural)]
pub enum SyncState {
    /// Nothing has been done yet.
    Start,
    /// The directory was asked whether the person is in the wanted group
    /// at this position of the person's groups.
    AskedWanted { position: usize },
    /// The membership in the wanted group at this position is being
    /// written.
    WroteWanted { position: usize },
    /// The directory was asked whether the person is in the group at this
    /// position of the directory's groups, which the person is not meant
    /// to be in.
    AskedOther { position: usize },
    /// The person is being taken out of the group at this position.
    WroteOther { position: usize },
    /// All groups have been dealt with.
    Finished,
    /// The work was given up.
    Failed,
}

/// What happened since the last step.
#[derive(Debug, Clone, Copy, PartialEq, Eq, Structural)]
pub enum SyncEvent {
    /// The work is to begin.
    Begin,
    /// The directory said whether the person is a member.
    Membership(bool),
    /// The directory carried out what it was told.
    Written,
}

/// What to do next.
#[derive(Debug, Clone, PartialEq, Eq)]
pub enum SyncAction {
    /// Ask the directory whether the person is a member of the group.
    AskMembership { group_id: String },
    /// Set the role of the person, who is a member of the group.
    UpdateMember { group_id: String, role: String },
    /// Add the person to the group with the role.
    InsertMember { group_id: String, role: String },
    /// Take the person out of the group.
    RemoveMember { group_id: String },
    /// Nothing is left to do.
    Finish,
    /// The person is meant to be in a group that the directory lacks.
    MissingGroup { slug: String },
    /// What happened is not what the machine was waiting for.
    Unexpected,
}

/// The mathematical content of an action.
pub enum ActionView {
    AskMembership { group_id: Seq<char> },
    UpdateMember { group_id: Seq<char>, role: Seq<char> },
    InsertMember { group_id: Seq<char>, role: Seq<char> },
    RemoveMember { group_id: Seq<char> },
    Finish,
    MissingGroup { slug: Seq<char> },
    Unexpected,
}

impl View for SyncAction {
    type V = ActionView;

    open spec fn view(&self) -> ActionView {
        match *self {
            SyncAction::AskMembership { group_id } => ActionView::AskMembership {
                group_id: group_id@,
            },
            SyncAction::UpdateMember { group_id, role } => ActionView::UpdateMember {
                group_id: group_id@,
                role: role@,
            },
            SyncAction::InsertMember { group_id, role } => ActionView::InsertMember {
                group_id: group_id@,
                role: role@,
            },
            SyncAction::RemoveMember { group_id } => ActionView::RemoveMember {
                group_id: group_id@,
            },
            SyncAction::Finish => ActionView::Finish,
            SyncAction::MissingGroup { slug } => ActionView::MissingGroup { slug: slug@ },
            SyncAction::Unexpected => ActionView::Unexpected,
        }
    }
}

// ---------------------------------------------------------------------------
// The order of the groups
// ---------------------------------------------------------------------------
/// Whether `a` comes before `b` in the order of strings: the first
/// character in which they differ decides, by its code point, and a text
/// comes before every longer text that starts with it.
pub open spec fn comes_before(a: Seq<char>, b: Seq<char>) -> bool
    decreases a.len(),
{
    if b.len() == 0 {
        false
    } else if a.len() == 0 {
        true
    } else if a[0] != b[0] {
        (a[0] as u32) < (b[0] as u32)
    } else {
        comes_before(a.drop_first(), b.drop_first())
    }
}

/// Whether the groups stand in the order of their slugs, each slug before
/// every later one.
pub open spec fn in_slug_order(groups: Seq<Group>) -> bool {
    forall|i: int, j: int|
        0 <= i < j < groups.len() ==> comes_before(
            (#[trigger] groups[i]).slug@,
            (#[trigger] groups[j]).slug@,
        )
}

/// No text comes before itself.
pub proof fn lemma_order_is_strict(a: Seq<char>)
    ensures
        !comes_before(a, a),
    decreases a.len(),
{
    if a.len() > 0 {
        lemma_order_is_strict(a.drop_first());
    }
}

/// What comes before a text comes before everything after that text.
pub proof fn lemma_order_carries_over(a: Seq<char>, b: Seq<char>, c: Seq<char>)
    requires
        comes_before(a, b),
        comes_before(b, c),
    ensures
        comes_before(a, c),
    decreases a.len(),
{
    if a.len() > 0 && a[0] == b[0] && b[0] == c[0] {
        lemma_order_carries_over(a.drop_first(), b.drop_first(), c.drop_first());
    }
}

/// Among groups in the order of their slugs no slug occurs twice.
pub proof fn lemma_slugs_are_distinct(groups: Seq<Group>, i: int, j: int)
    requires
        in_slug_order(groups),
        0 <= i < groups.len(),
        0 <= j < groups.len(),
        groups[i].slug@ == groups[j].slug@,
    ensures
        i == j,
{
    lemma_order_is_strict(groups[i].slug@);
    if i < j {
        assert(comes_before(groups[i].slug@, groups[j].slug@));
    } else if j < i {
        assert(comes_before(groups[j].slug@, groups[i].slug@));
    }
}

/// Among groups in the order of their slugs, the group that is found for
/// a slug is the only one with that slug.
pub proof fn lemma_position_is_the_only_one(groups: Seq<Group>, slug: Seq<char>, i: int)
    requires
        in_slug_order(groups),
        0 <= i < groups.len(),
        groups[i].slug@ == slug,
    ensures
        position_of(groups, slug, 0) == Some(i),
{
    lemma_position_of(groups, slug, 0);
    lemma_position_found(groups, slug, 0, i);
    match position_of(groups, slug, 0) {
        Some(k) => lemma_slugs_are_distinct(groups, k, i),
        None => {},
    }
}

/// A slug that some group from `from` on carries is found.
pub proof fn lemma_position_found(groups: Seq<Group>, slug: Seq<char>, from: int, i: int)
    requires
        0 <= from <= i < groups.len(),
        groups[i].slug@ == slug,
    ensures
        position_of(groups, slug, from) is Some,
    decreases groups.len() - from,
{
    if groups[from].slug@ != slug {
        lemma_position_found(groups, slug, from + 1, i);
    }
}

impl GroupDirectory {
    #[verifier::type_invariant]
    spec fn ordered(self) -> bool {
        in_slug_order(self.groups@)
    }
}

impl View for GroupDirectory {
    type V = Seq<Group>;

    closed spec fn view(&self) -> Seq<Group> {
        self.groups@
    }
}

// ---------------------------------------------------------------------------
// The machine
// ---------------------------------------------------------------------------
/// The role that the person gets in a group.
pub open spec fn role_of(is_group_admin: bool) -> Seq<char> {
    if is_group_admin {
        "OWNER"@
    } else {
        "MEMBER"@
    }
}

/// The position of the first group with the given slug, counted from
/// `from`.
pub open spec fn position_of(groups: Seq<Group>, slug: Seq<char>, from: int) -> Option<int>
    decreases groups.len() - from,
{
    if from < 0 || from >= groups.len() {
        None
    } else if groups[from].slug@ == slug {
        Some(from)
    } else {
        position_of(groups, slug, from + 1)
    }
}

/// Whether the person is meant to be in the group with the given slug.
pub open spec fn is_wanted(wanted: Seq<Seq<char>>, slug: Seq<char>) -> bool {
    wanted.contains(slug)
}

/// What to do about the groups of the directory from `position` on: ask
/// about the first one the person is not meant to be in, or finish.
pub open spec fn next_other(
    wanted: Seq<Seq<char>>,
    groups: Seq<Group>,
    position: int,
) -> (SyncState, ActionView)
    decreases groups.len() - position,
{
    if position < 0 || position >= groups.len() || position > usize::MAX {
        (SyncState::Finished, ActionView::Finish)
    } else if is_wanted(wanted, groups[position].slug@) {
        next_other(wanted, groups, position + 1)
    } else {
        (
            SyncState::AskedOther { position: position as usize },
            ActionView::AskMembership { group_id: groups[position].id@ },
        )
    }
}

/// What to do about the wanted groups from `position` on: ask about the
/// group at `position`, give up where the directory lacks it, or turn to
/// the other groups where no wanted group is left.
pub open spec fn next_wanted(
    wanted: Seq<Seq<char>>,
    groups: Seq<Group>,
    position: int,
) -> (SyncState, ActionView) {
    if 0 <= position < wanted.len() && position <= usize::MAX {
        match position_of(groups, wanted[position], 0) {
            Some(i) => (
                SyncState::AskedWanted { position: position as usize },
                ActionView::AskMembership { group_id: groups[i].id@ },
            ),
            None => (SyncState::Failed, ActionView::MissingGroup { slug: wanted[position] }),
        }
    } else {
        next_other(wanted, groups, 0)
    }
}

/// One step of the machine: the state after the event and what to do.
pub open spec fn step_of(
    wanted: Seq<Seq<char>>,
    is_group_admin: bool,
    groups: Seq<Group>,
    state: SyncState,
    event: SyncEvent,
) -> (SyncState, ActionView) {
    match (state, event) {
        (SyncState::Start, SyncEvent::Begin) => next_wanted(wanted, groups, 0),
        (SyncState::AskedWanted { position }, SyncEvent::Membership(member)) => {
            if position < wanted.len() {
                match position_of(groups, wanted[position as int], 0) {
                    Some(i) => (
                        SyncState::WroteWanted { position },
                        if member {
                            ActionView::UpdateMember {
                                group_id: groups[i].id@,
                                role: role_of(is_group_admin),
                            }
                        } else {
                            ActionView::InsertMember {
                                group_id: groups[i].id@,
                                role: role_of(is_group_admin),
                            }
                        },
                    ),
                    None => (SyncState::Failed, ActionView::Unexpected),
                }
            } else {
                (SyncState::Failed, ActionView::Unexpected)
            }
        },
        (SyncState::WroteWanted { position }, SyncEvent::Written) => {
            if position < wanted.len() {
                next_wanted(wanted, groups, position + 1)
            } else {
                (SyncState::Failed, ActionView::Unexpected)
            }
        },
        (SyncState::AskedOther { position }, SyncEvent::Membership(member)) => {
            if position < groups.len() && !is_wanted(wanted, groups[position as int].slug@) {
                if member {
                    (
                        SyncState::WroteOther { position },
                        ActionView::RemoveMember { group_id: groups[position as int].id@ },
                    )
                } else {
                    next_other(wanted, groups, position + 1)
                }
            } else {
                (SyncState::Failed, ActionView::Unexpected)
            }
        },
        (SyncState::WroteOther { position }, SyncEvent::Written) => {
            if position < groups.len() {
                next_other(wanted, groups, position + 1)
            } else {
                (SyncState::Failed, ActionView::Unexpected)
            }
        },
        _ => (SyncState::Failed, ActionView::Unexpected),
    }
}

/// Whether the machine has come to rest.
pub open spec fn at_rest(state: SyncState) -> bool {
    state == SyncState::Finished || state == SyncState::Failed
}

/// How much work is left at most, counted in steps.
pub open spec fn steps_left(wanted: int, groups: int, state: SyncState) -> int {
    match state {
        SyncState::Start => 2 * wanted + 2 * groups + 1,
        SyncState::AskedWanted { position } => 2 * (wanted - position) + 2 * groups,
        SyncState::WroteWanted { position } => 2 * (wanted - position) + 2 * groups - 1,
        SyncState::AskedOther { position } => 2 * (groups - position),
        SyncState::WroteOther { position } => 2 * (groups - position) - 1,
        SyncState::Finished => 0,
        SyncState::Failed => 0,
    }
}

// ---------------------------------------------------------------------------
// Laws
// ---------------------------------------------------------------------------
/// What `next_other` arrives at: rest, or a question about a group that
/// stands at or after `position` and that the person is not meant to be
/// in.
pub proof fn lemma_next_other(wanted: Seq<Seq<char>>, groups: Seq<Group>, position: int)
    requires
        0 <= position,
    ensures
        match next_other(wanted, groups, position).0 {
            SyncState::Finished => next_other(wanted, groups, position).1 == ActionView::Finish,
            SyncState::AskedOther { position: found } => position <= found < groups.len()
                && !is_wanted(wanted, groups[found as int].slug@) && next_other(
                wanted,
                groups,
                position,
            ).1 == (ActionView::AskMembership { group_id: groups[found as int].id@ }),
            _ => false,
        },
    decreases groups.len() - position,
{
    if position < groups.len() && position <= usize::MAX && is_wanted(
        wanted,
        groups[position].slug@,
    ) {
        lemma_next_other(wanted, groups, position + 1);
    }
}

/// The position that `position_of` finds holds a group with the slug that
/// was looked for.
pub proof fn lemma_position_of(groups: Seq<Group>, slug: Seq<char>, from: int)
    requires
        0 <= from,
    ensures
        position_of(groups, slug, from) matches Some(i) ==> from <= i < groups.len()
            && groups[i].slug@ == slug,
    decreases groups.len() - from,
{
    if from < groups.len() && groups[from].slug@ != slug {
        lemma_position_of(groups, slug, from + 1);
    }
}

/// Every step that does not bring the machine to rest leaves less work
/// than there was: a caller that keeps stepping comes to an end.
pub proof fn lemma_step_makes_progress(
    wanted: Seq<Seq<char>>,
    is_group_admin: bool,
    groups: Seq<Group>,
    state: SyncState,
    event: SyncEvent,
)
    requires
        wanted.len() <= usize::MAX,
        groups.len() <= usize::MAX,
    ensures
        ({
            let next = step_of(wanted, is_group_admin, groups, state, event).0;
            !at_rest(next) ==> 0 <= steps_left(wanted.len() as int, groups.len() as int, next)
                < steps_left(wanted.len() as int, groups.len() as int, state)
        }),
{
    lemma_next_other(wanted, groups, 0);
    match state {
        SyncState::AskedOther { position } => lemma_next_other(wanted, groups, position + 1),
        SyncState::WroteOther { position } => lemma_next_other(wanted, groups, position + 1),
        _ => {},
    }
}

/// The machine only ever writes what the person's groups call for: a
/// membership is set or added only in a group the person is meant to be
/// in, with the role that goes with the person, and the person is taken
/// out only of a group the person is not meant to be in.
pub proof fn lemma_writes_follow_wishes(
    wanted: Seq<Seq<char>>,
    is_group_admin: bool,
    groups: Seq<Group>,
    state: SyncState,
    event: SyncEvent,
)
    ensures
        match step_of(wanted, is_group_admin, groups, state, event).1 {
            ActionView::UpdateMember { group_id, role } => role == role_of(is_group_admin)
                && event == SyncEvent::Membership(true) && exists|i: int|
                0 <= i < groups.len() && #[trigger] groups[i].id@ == group_id && is_wanted(
                    wanted,
                    groups[i].slug@,
                ),
            ActionView::InsertMember { group_id, role } => role == role_of(is_group_admin)
                && event == SyncEvent::Membership(false) && exists|i: int|
                0 <= i < groups.len() && #[trigger] groups[i].id@ == group_id && is_wanted(
                    wanted,
                    groups[i].slug@,
                ),
            ActionView::RemoveMember { group_id } => event == SyncEvent::Membership(true)
                && exists|i: int|
                0 <= i < groups.len() && #[trigger] groups[i].id@ == group_id && !is_wanted(
                    wanted,
                    groups[i].slug@,
                ),
            _ => true,
        },
{
    lemma_next_other(wanted, groups, 0);
    match state {
        SyncState::AskedWanted { position } => {
            if position < wanted.len() {
                lemma_position_of(groups, wanted[position as int], 0);
                match position_of(groups, wanted[position as int], 0) {
                    Some(i) => {
                        assert(groups[i].slug@ == wanted[position as int]);
                        assert(is_wanted(wanted, groups[i].slug@));
                    },
                    None => {},
                }
            }
        },
        SyncState::WroteWanted { position } => {},
        SyncState::AskedOther { position } => {
            lemma_next_other(wanted, groups, position + 1);
        },
        SyncState::WroteOther { position } => {
            lemma_next_other(wanted, groups, position + 1);
        },
        _ => {},
    }
}

// ---------------------------------------------------------------------------
// Executable functions
// ---------------------------------------------------------------------------
/// The role that the person gets in a group.
pub fn role(is_group_admin: bool) -> (r: &'static str)
    ensures
        r@ == role_of(is_group_admin),
{
    if is_group_admin {
        "OWNER"
    } else {
        "MEMBER"
    }
}

/// The position of the first group with the given slug.
pub fn find_group(groups: &Vec<Group>, slug: &String) -> (r: Option<usize>)
    ensures
        match r {
            Some(i) => position_of(groups@, slug@, 0) == Some(i as int) && i < groups.len(),
            None => position_of(groups@, slug@, 0) is None,
        },
{
    let mut i: usize = 0;
    while i < groups.len()
        invariant
            i <= groups.len(),
            position_of(groups@, slug@, 0) == position_of(groups@, slug@, i as int),
        decreases groups.len() - i,
    {
        if groups[i].slug == *slug {
            return Some(i);
        }
        i += 1;
    }
    None
}

/// Whether the person is meant to be in the group with the given slug.
pub fn wants(wanted: &Vec<String>, slug: &String) -> (r: bool)
    ensures
        r == is_wanted(texts_of(wanted@), slug@),
{
    let ghost all = texts_of(wanted@);
    let mut i: usize = 0;
    while i < wanted.len()
        invariant
            i <= wanted.len(),
            all == texts_of(wanted@),
            forall|j: int| 0 <= j < i ==> all[j] != slug@,
        decreases wanted.len() - i,
    {
        assert(all[i as int] == wanted@[i as int]@);
        if wanted[i] == *slug {
            return true;
        }
        i += 1;
    }
    false
}

/// What to do about the groups of the directory from `position` on.
pub fn turn_to_others(wanted: &Vec<String>, groups: &Vec<Group>, position: usize) -> (r: (
    SyncState,
    SyncAction,
))
    ensures
        (r.0, r.1@) == next_other(texts_of(wanted@), groups@, position as int),
{
    let mut i: usize = position;
    while i < groups.len()
        invariant
            position <= i,
            next_other(texts_of(wanted@), groups@, position as int) == next_other(
                texts_of(wanted@),
                groups@,
                i as int,
            ),
        decreases groups.len() - i,
    {
        if !wants(wanted, &groups[i].slug) {
            return (
                SyncState::AskedOther { position: i },
                SyncAction::AskMembership { group_id: groups[i].id.clone() },
            );
        }
        i += 1;
    }
    (SyncState::Finished, SyncAction::Finish)
}

/// What to do about the wanted groups from `position` on.
pub fn turn_to_wanted(wanted: &Vec<String>, groups: &Vec<Group>, position: usize) -> (r: (
    SyncState,
    SyncAction,
))
    ensures
        (r.0, r.1@) == next_wanted(texts_of(wanted@), groups@, position as int),
{
    if position < wanted.len() {
        assert(texts_of(wanted@)[position as int] == wanted@[position as int]@);
        match find_group(groups, &wanted[position]) {
            Some(i) => (
                SyncState::AskedWanted { position },
                SyncAction::AskMembership { group_id: groups[i].id.clone() },
            ),
            None => (SyncState::Failed, SyncAction::MissingGroup { slug: wanted[position].clone() }),
        }
    } else {
        turn_to_others(wanted, groups, 0)
    }
}

/// Whether `a` comes before `b` in the order of strings.
pub fn slug_before(a: &str, b: &str) -> (r: bool)
    ensures
        r == comes_before(a@, b@),
{
    let x = chars_of(a);
    let y = chars_of(b);
    let mut i: usize = 0;
    assert(x@.skip(0) =~= x@ && y@.skip(0) =~= y@);
    while i < x.len() && i < y.len() && x[i] == y[i]
        invariant
            i <= x.len(),
            i <= y.len(),
            comes_before(x@, y@) == comes_before(x@.skip(i as int), y@.skip(i as int)),
        decreases x.len() - i,
    {
        let ghost p = x@.skip(i as int);
        let ghost q = y@.skip(i as int);
        assert(p[0] == x@[i as int] && q[0] == y@[i as int]);
        assert(p.drop_first() =~= x@.skip(i + 1) && q.drop_first() =~= y@.skip(i + 1));
        i += 1;
    }
    let ghost p = x@.skip(i as int);
    let ghost q = y@.skip(i as int);
    if i >= y.len() {
        false
    } else if i >= x.len() {
        true
    } else {
        assert(p[0] == x@[i as int] && q[0] == y@[i as int]);
        (x[i] as u32) < (y[i] as u32)
    }
}

impl GroupDirectory {
    /// The directory of the given groups; `None` where they do not stand
    /// in the order of their slugs or a slug occurs twice.
    pub fn new(groups: Vec<Group>) -> (r: Option<GroupDirectory>)
        ensures
            r is Some <==> in_slug_order(groups@),
            r matches Some(directory) ==> directory@ == groups@,
    {
        let mut i: usize = 1;
        while i < groups.len()
            invariant
                1 <= i,
                forall|p: int, q: int|
                    0 <= p < q < i && q < groups.len() ==> comes_before(
                        (#[trigger] groups@[p]).slug@,
                        (#[trigger] groups@[q]).slug@,
                    ),
            decreases groups.len() - i,
        {
            if !slug_before(groups[i - 1].slug.as_str(), groups[i].slug.as_str()) {
                return None;
            }
            proof {
                assert forall|p: int, q: int| 0 <= p < q < i + 1 && q < groups.len() implies comes_before(
                    (#[trigger] groups@[p]).slug@,
                    (#[trigger] groups@[q]).slug@,
                ) by {
                    if q == i && p < i - 1 {
                        assert(comes_before(groups@[p].slug@, groups@[i - 1].slug@));
                        lemma_order_carries_over(
                            groups@[p].slug@,
                            groups@[i - 1].slug@,
                            groups@[i as int].slug@,
                        );
                    }
                }
            }
            i += 1;
        }
        Some(GroupDirectory { groups })
    }

    /// The groups of the directory, in the order of their slugs.
    pub fn groups(&self) -> (r: &Vec<Group>)
        ensures
            r@ == self@,
            in_slug_order(r@),
    {
        proof {
            use_type_invariant(self);
        }
        &self.groups
    }
}

/// One step of bringing the groups of the directory in step with the
/// groups of a person: takes where the work stands and what happened, and
/// says where the work stands now and what to do.
pub fn update_user_google_groups(
    wanted: &Vec<String>,
    is_group_admin: bool,
    directory: &GroupDirectory,
    state: SyncState,
    event: SyncEvent,
) -> (r: (SyncState, SyncAction))
    ensures
        (r.0, r.1@) == step_of(texts_of(wanted@), is_group_admin, directory@, state, event),
{
    let groups = directory.groups();
    match (state, event) {
        (SyncState::Start, SyncEvent::Begin) => turn_to_wanted(wanted, groups, 0),
        (SyncState::AskedWanted { position }, SyncEvent::Membership(member)) => {
            if position < wanted.len() {
                assert(texts_of(wanted@)[position as int] == wanted@[position as int]@);
                match find_group(groups, &wanted[position]) {
                    Some(i) => {
                        let group_id = groups[i].id.clone();
                        let role = role(is_group_admin).to_owned();
                        if member {
                            (
                                SyncState::WroteWanted { position },
                                SyncAction::UpdateMember { group_id, role },
                            )
                        } else {
                            (
                                SyncState::WroteWanted { position },
                                SyncAction::InsertMember { group_id, role },
                            )
                        }
                    },
                    None => (SyncState::Failed, SyncAction::Unexpected),
                }
            } else {
                (SyncState::Failed, SyncAction::Unexpected)
            }
        },
        (SyncState::WroteWanted { position }, SyncEvent::Written) => {
            if position < wanted.len() {
                turn_to_wanted(wanted, groups, position + 1)
            } else {
                (SyncState::Failed, SyncAction::Unexpected)
            }
        },
        (SyncState::AskedOther { position }, SyncEvent::Membership(member)) => {
            if position < groups.len() && !wants(wanted, &groups[position].slug) {
                if member {
                    (
                        SyncState::WroteOther { position },
                        SyncAction::RemoveMember { group_id: groups[position].id.clone() },
                    )
                } else {
                    turn_to_others(wanted, groups, position + 1)
                }
            } else {
                (SyncState::Failed, SyncAction::Unexpected)
            }
        },
        (SyncState::WroteOther { position }, SyncEvent::Written) => {
            if position < groups.len() {
                turn_to_others(wanted, groups, position + 1)
            } else {
                (SyncState::Failed, SyncAction::Unexpected)
            }
        },
        _ => (SyncState::Failed, SyncAction::Unexpected),
    }
}

} // verus!
