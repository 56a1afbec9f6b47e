//! Which roles a user holds in a site: the roles assigned to them, then the
//! virtual roles that their standing gives them. The lookup asks the store
//! one question at a time; `UserRolesLookup` decides what to ask next and
//! what the answer is.
use vstd::prelude::*;

use crate::role::{
    applied_system_roles, select_virtual_roles, GetUserRolesInput, Role, RoleService,
};
use crate::types::Reference;

verus! {

/// Where a lookup stands.
#[derive(Debug, Clone, Copy, PartialEq, Eq, Structural)]
pub enum RolesPhase {
    /// Waiting for the roles assigned to the user.
    AwaitDirect,
    /// Waiting for the site's virtual roles.
    AwaitVirtual,
    /// Waiting to learn whether the user is a member of the site.
    AwaitMembership,
    /// Waiting for the users credited as authors of the page.
    AwaitAuthors,
    /// The answer has been given.
    Finished,
}

/// What the store is asked next, or the answer.
#[derive(Debug)]
pub enum RolesAction {
    /// The roles assigned to the user in the site that are not deleted
    /// (`crate::store::assigned_role_matches` says which).
    LoadDirectRoles { site_id: i64, user_id: i64 },
    /// The site's virtual roles (`crate::store::virtual_role_matches` says which).
    LoadVirtualRoles { site_id: i64 },
    /// Whether the user is a member of the site.
    LoadMembership { site_id: i64, user_id: i64 },
    /// The ids of the users credited as authors of the page.
    LoadPageAuthors { site_id: i64, page: Reference },
    /// The user's roles.
    Done(Vec<Role>),
}

/// The store's answer to the last question.
#[derive(Debug)]
pub enum RolesEvent {
    DirectRoles(Vec<Role>),
    VirtualRoles(Vec<Role>),
    Membership(bool),
    PageAuthors(Vec<i64>),
}

/// A role lookup in progress.
#[derive(Debug)]
pub struct UserRolesLookup {
    input: GetUserRolesInput,
    direct: Vec<Role>,
    virtual_roles: Vec<Role>,
    member: bool,
    phase: RolesPhase,
}

/// The state of a lookup.
pub struct RolesState {
    pub input: GetUserRolesInput,
    pub direct: Seq<Role>,
    pub virtual_roles: Seq<Role>,
    pub member: bool,
    pub phase: RolesPhase,
}

pub enum RolesActionView {
    LoadDirectRoles { site_id: i64, user_id: i64 },
    LoadVirtualRoles { site_id: i64 },
    LoadMembership { site_id: i64, user_id: i64 },
    LoadPageAuthors { site_id: i64, page: Reference },
    Done(Seq<Role>),
}

pub enum RolesEventView {
    DirectRoles(Seq<Role>),
    VirtualRoles(Seq<Role>),
    Membership(bool),
    PageAuthors(Seq<i64>),
}

impl View for UserRolesLookup {
    type V = RolesState;

    closed spec fn view(&self) -> RolesState {
        RolesState {
            input: self.input,
            direct: self.direct@,
            virtual_roles: self.virtual_roles@,
            member: self.member,
            phase: self.phase,
        }
    }
}

impl View for RolesAction {
    type V = RolesActionView;

    open spec fn view(&self) -> RolesActionView {
        match self {
            RolesAction::LoadDirectRoles { site_id, user_id } => RolesActionView::LoadDirectRoles {
                site_id: *site_id,
                user_id: *user_id,
            },
            RolesAction::LoadVirtualRoles { site_id } => RolesActionView::LoadVirtualRoles {
                site_id: *site_id,
            },
            RolesAction::LoadMembership { site_id, user_id } => RolesActionView::LoadMembership {
                site_id: *site_id,
                user_id: *user_id,
            },
            RolesAction::LoadPageAuthors { site_id, page } => RolesActionView::LoadPageAuthors {
                site_id: *site_id,
                page: *page,
            },
            RolesAction::Done(roles) => RolesActionView::Done(roles@),
        }
    }
}

impl View for RolesEvent {
    type V = RolesEventView;

    open spec fn view(&self) -> RolesEventView {
        match self {
            RolesEvent::DirectRoles(r) => RolesEventView::DirectRoles(r@),
            RolesEvent::VirtualRoles(r) => RolesEventView::VirtualRoles(r@),
            RolesEvent::Membership(m) => RolesEventView::Membership(*m),
            RolesEvent::PageAuthors(a) => RolesEventView::PageAuthors(a@),
        }
    }
}

/// The answer once everything is known: the assigned roles, then the
/// virtual roles for the user's standing.
pub open spec fn roles_finish(s: RolesState, page_author: bool) -> (RolesState, RolesActionView) {
    let logged_in = s.input.user_id is Some;
    let applied = applied_system_roles(logged_in, s.member, page_author);
    (
        RolesState { phase: RolesPhase::Finished, ..s },
        RolesActionView::Done(s.direct + select_virtual_roles(s.virtual_roles, applied)),
    )
}

/// Asking for the virtual roles.
pub open spec fn roles_ask_virtual(s: RolesState) -> (RolesState, RolesActionView) {
    (
        RolesState { phase: RolesPhase::AwaitVirtual, ..s },
        RolesActionView::LoadVirtualRoles { site_id: s.input.site_id },
    )
}

/// The first step: the assigned roles are asked for only when wanted and a
/// user is logged in.
pub open spec fn roles_start(input: GetUserRolesInput, include_direct: bool) -> (
    RolesState,
    RolesActionView,
) {
    let s = RolesState {
        input,
        direct: Seq::empty(),
        virtual_roles: Seq::empty(),
        member: false,
        phase: RolesPhase::AwaitDirect,
    };
    if include_direct && input.user_id is Some {
        (s, RolesActionView::LoadDirectRoles { site_id: input.site_id, user_id: input.user_id->0 })
    } else {
        roles_ask_virtual(s)
    }
}

/// Whether `e` answers the question the lookup is waiting on.
pub open spec fn roles_accepts(s: RolesState, e: RolesEventView) -> bool {
    match e {
        RolesEventView::DirectRoles(_) => s.phase == RolesPhase::AwaitDirect,
        RolesEventView::VirtualRoles(_) => s.phase == RolesPhase::AwaitVirtual,
        RolesEventView::Membership(_) => s.phase == RolesPhase::AwaitMembership,
        RolesEventView::PageAuthors(_) => s.phase == RolesPhase::AwaitAuthors,
    }
}

/// One step: what the lookup does with an answer. Membership is asked only
/// of a logged-in user, page authorship only of a member looking at a page.
pub open spec fn roles_next(s: RolesState, e: RolesEventView) -> (RolesState, RolesActionView) {
    match e {
        RolesEventView::DirectRoles(direct) => roles_ask_virtual(RolesState { direct, ..s }),
        RolesEventView::VirtualRoles(v) => {
            let s2 = RolesState { virtual_roles: v, ..s };
            match s.input.user_id {
                Some(user_id) => (
                    RolesState { phase: RolesPhase::AwaitMembership, ..s2 },
                    RolesActionView::LoadMembership { site_id: s.input.site_id, user_id },
                ),
                None => roles_finish(s2, false),
            }
        },
        RolesEventView::Membership(member) => {
            let s2 = RolesState { member, ..s };
            match s.input.page_reference {
                Some(page) if member => (
                    RolesState { phase: RolesPhase::AwaitAuthors, ..s2 },
                    RolesActionView::LoadPageAuthors { site_id: s.input.site_id, page },
                ),
                _ => roles_finish(s2, false),
            }
        },
        RolesEventView::PageAuthors(authors) => roles_finish(
            s,
            s.input.user_id is Some && authors.contains(s.input.user_id->0),
        ),
    }
}

/// What the store holds for one lookup: the user's assigned roles, the
/// site's virtual roles, whether the user is a member, and the page's authors.
pub struct RolesWorld {
    pub direct: Seq<Role>,
    pub virtual_roles: Seq<Role>,
    pub member: bool,
    pub authors: Seq<i64>,
}

/// The store's answer to a question.
pub open spec fn roles_answer(w: RolesWorld, a: RolesActionView) -> RolesEventView {
    match a {
        RolesActionView::LoadDirectRoles { .. } => RolesEventView::DirectRoles(w.direct),
        RolesActionView::LoadVirtualRoles { .. } => RolesEventView::VirtualRoles(w.virtual_roles),
        RolesActionView::LoadMembership { .. } => RolesEventView::Membership(w.member),
        RolesActionView::LoadPageAuthors { .. } => RolesEventView::PageAuthors(w.authors),
        RolesActionView::Done(_) => RolesEventView::Membership(false),
    }
}

/// The answer a lookup reaches when each question is answered from `w`,
/// within `fuel` questions.
pub open spec fn roles_run(s: RolesState, a: RolesActionView, w: RolesWorld, fuel: nat) -> Option<
    Seq<Role>,
>
    decreases fuel,
{
    match a {
        RolesActionView::Done(roles) => Some(roles),
        _ => if fuel == 0 {
            None
        } else {
            let (s2, a2) = roles_next(s, roles_answer(w, a));
            roles_run(s2, a2, w, (fuel - 1) as nat)
        },
    }
}

/// The roles a user holds: those assigned to them (when asked for and the
/// user is logged in), then the virtual roles of their standing. A user is
/// a member only when logged in and the store says so, and a page author
/// only when a member, looking at a page, and credited as its author.
pub open spec fn expected_user_roles(input: GetUserRolesInput, include_direct: bool, w: RolesWorld) -> Seq<
    Role,
> {
    let logged_in = input.user_id is Some;
    let member = logged_in && w.member;
    let author = member && input.page_reference is Some && w.authors.contains(input.user_id->0);
    let direct = if include_direct && logged_in {
        w.direct
    } else {
        Seq::empty()
    };
    direct + select_virtual_roles(w.virtual_roles, applied_system_roles(logged_in, member, author))
}

/// A lookup answered by the store reaches, within four questions, the roles
/// that `expected_user_roles` states.
pub proof fn lemma_user_roles_run(input: GetUserRolesInput, include_direct: bool, w: RolesWorld)
    ensures
        ({
            let (s, a) = roles_start(input, include_direct);
            roles_run(s, a, w, 4) == Some(expected_user_roles(input, include_direct, w))
        }),
{
    reveal_with_fuel(roles_run, 5);
    let (s, a) = roles_start(input, include_direct);
    assert(Seq::<Role>::empty() + select_virtual_roles(
        w.virtual_roles,
        applied_system_roles(false, false, false),
    ) =~= select_virtual_roles(w.virtual_roles, applied_system_roles(false, false, false)));
    if input.user_id is Some {
        let u = input.user_id->0;
        let d: Seq<Role> = if include_direct {
            w.direct
        } else {
            Seq::empty()
        };
        let member = w.member;
        let author = member && input.page_reference is Some && w.authors.contains(u);
        assert(d + select_virtual_roles(w.virtual_roles, applied_system_roles(true, member, author))
            == expected_user_roles(input, include_direct, w));
    }
}

fn contains_id(ids: &Vec<i64>, id: i64) -> (r: bool)
    ensures
        r == ids@.contains(id),
{
    let mut i: usize = 0;
    while i < ids.len()
        invariant
            i <= ids.len(),
            forall|j: int| 0 <= j < i ==> ids@[j] != id,
        decreases ids.len() - i,
    {
        if ids[i] == id {
            assert(ids@[i as int] == id);
            return true;
        }
        i = i + 1;
    }
    false
}

impl UserRolesLookup {
    /// Starts a lookup; the assigned roles are included when `include_direct`.
    pub fn start(input: GetUserRolesInput, include_direct: bool) -> (r: (UserRolesLookup, RolesAction))
        ensures
            (r.0@, r.1@) == roles_start(input, include_direct),
    {
        let site_id = input.site_id;
        let user_id = input.user_id;
        let lookup = UserRolesLookup {
            input,
            direct: Vec::new(),
            virtual_roles: Vec::new(),
            member: false,
            phase: RolesPhase::AwaitDirect,
        };
        if include_direct && user_id.is_some() {
            let u = user_id.unwrap();
            (lookup, RolesAction::LoadDirectRoles { site_id, user_id: u })
        } else {
            let mut lookup = lookup;
            lookup.phase = RolesPhase::AwaitVirtual;
            (lookup, RolesAction::LoadVirtualRoles { site_id })
        }
    }

    /// Where the lookup stands.
    pub fn phase(&self) -> (r: RolesPhase)
        ensures
            r == self@.phase,
    {
        self.phase
    }

    /// Whether `event` answers the question the lookup waits on.
    pub fn accepts(&self, event: &RolesEvent) -> (r: bool)
        ensures
            r == roles_accepts(self@, event@),
    {
        match event {
            RolesEvent::DirectRoles(_) => matches!(self.phase, RolesPhase::AwaitDirect),
            RolesEvent::VirtualRoles(_) => matches!(self.phase, RolesPhase::AwaitVirtual),
            RolesEvent::Membership(_) => matches!(self.phase, RolesPhase::AwaitMembership),
            RolesEvent::PageAuthors(_) => matches!(self.phase, RolesPhase::AwaitAuthors),
        }
    }

    fn finish(&mut self, page_author: bool) -> (a: RolesAction)
        ensures
            (final(self)@, a@) == roles_finish(old(self)@, page_author),
    {
        let logged_in = self.input.user_id.is_some();
        let applied = RoleService::applied_system_roles(logged_in, self.member, page_author);
        let mut selected = RoleService::select_virtual_roles(&self.virtual_roles, &applied);
        let mut roles = crate::role::clone_roles(&self.direct);
        let ghost direct = roles@;
        roles.append(&mut selected);
        let ghost virt = self.virtual_roles@;
        self.phase = RolesPhase::Finished;
        proof {
            assert(roles@ == direct + select_virtual_roles(virt, applied@));
        }
        RolesAction::Done(roles)
    }

    /// Takes the store's answer and says what to ask next, or gives the answer.
    pub fn advance(&mut self, event: RolesEvent) -> (a: RolesAction)
        requires
            roles_accepts(old(self)@, event@),
        ensures
            (final(self)@, a@) == roles_next(old(self)@, event@),
    {
        match event {
            RolesEvent::DirectRoles(direct) => {
                self.direct = direct;
                self.phase = RolesPhase::AwaitVirtual;
                RolesAction::LoadVirtualRoles { site_id: self.input.site_id }
            },
            RolesEvent::VirtualRoles(v) => {
                self.virtual_roles = v;
                match self.input.user_id {
                    Some(user_id) => {
                        self.phase = RolesPhase::AwaitMembership;
                        RolesAction::LoadMembership { site_id: self.input.site_id, user_id }
                    },
                    None => self.finish(false),
                }
            },
            RolesEvent::Membership(member) => {
                self.member = member;
                if member && self.input.page_reference.is_some() {
                    let page = crate::types::clone_option_reference(&self.input.page_reference);
                    self.phase = RolesPhase::AwaitAuthors;
                    RolesAction::LoadPageAuthors { site_id: self.input.site_id, page: page.unwrap() }
                } else {
                    self.finish(false)
                }
            },
            RolesEvent::PageAuthors(authors) => {
                let author = match self.input.user_id {
                    Some(u) => contains_id(&authors, u),
                    None => false,
                };
                self.finish(author)
            },
        }
    }
}

impl RoleService {
    /// Starts looking up every role a user holds in a site: assigned ones,
    /// then virtual ones.
    pub fn get_all_roles_for_user_and_site(input: GetUserRolesInput) -> (r: (
        UserRolesLookup,
        RolesAction,
    ))
        ensures
            (r.0@, r.1@) == roles_start(input, true),
    {
        UserRolesLookup::start(input, true)
    }

    /// Starts looking up the virtual roles a user holds in a site.
    pub fn get_virtual_roles_for_user(input: GetUserRolesInput) -> (r: (UserRolesLookup, RolesAction))
        ensures
            (r.0@, r.1@) == roles_start(input, false),
    {
        UserRolesLookup::start(input, false)
    }
}

} // verus!

verus! {

/// The questions a lookup asks from state `s` when given `events` in turn.
pub open spec fn roles_trace(s: RolesState, events: Seq<RolesEventView>) -> Seq<RolesActionView>
    decreases events.len(),
{
    if events.len() == 0 {
        Seq::empty()
    } else {
        let (s2, a) = roles_next(s, events[0]);
        seq![a] + roles_trace(s2, events.drop_first())
    }
}

/// A question of a lookup for `input` is about `input`: the assigned roles
/// and the membership asked for are those of its user in its site, the
/// virtual roles those of its site, and the page authors those of its page
/// in its site.
pub open spec fn about_input(input: GetUserRolesInput, a: RolesActionView) -> bool {
    match a {
        RolesActionView::LoadDirectRoles { site_id, user_id } => site_id == input.site_id && Some(
            user_id,
        ) == input.user_id,
        RolesActionView::LoadVirtualRoles { site_id } => site_id == input.site_id,
        RolesActionView::LoadMembership { site_id, user_id } => site_id == input.site_id && Some(
            user_id,
        ) == input.user_id,
        RolesActionView::LoadPageAuthors { site_id, page } => site_id == input.site_id && Some(page)
            == input.page_reference,
        RolesActionView::Done(_) => true,
    }
}

proof fn lemma_roles_trace_about_input(input: GetUserRolesInput, s: RolesState, events: Seq<RolesEventView>)
    requires
        s.input == input,
    ensures
        forall|i: int|
            0 <= i < roles_trace(s, events).len() ==> about_input(input, #[trigger] roles_trace(s, events)[i]),
    decreases events.len(),
{
    if events.len() > 0 {
        let (s2, a) = roles_next(s, events[0]);
        assert(s2.input == input);
        assert(about_input(input, a));
        lemma_roles_trace_about_input(input, s2, events.drop_first());
        let t = roles_trace(s, events);
        let rest = roles_trace(s2, events.drop_first());
        assert(t == seq![a] + rest);
        assert forall|i: int| 0 <= i < t.len() implies about_input(input, #[trigger] t[i]) by {
            if i > 0 {
                assert(t[i] == rest[i - 1]);
            }
        }
    }
}

/// Whatever the store answers, every question a lookup for `input` asks is
/// about `input`: its user's assigned roles and membership in its site, its
/// site's virtual roles, and the authors of its page in its site.
pub proof fn lemma_roles_questions_about_input(
    input: GetUserRolesInput,
    include_direct: bool,
    events: Seq<RolesEventView>,
)
    ensures
        ({
            let (s, a) = roles_start(input, include_direct);
            &&& about_input(input, a)
            &&& forall|i: int|
                0 <= i < roles_trace(s, events).len() ==> about_input(input, #[trigger] roles_trace(s, events)[i])
        }),
{
    let (s, a) = roles_start(input, include_direct);
    lemma_roles_trace_about_input(input, s, events);
}

} // verus!
