//! Invitations: a passphrase that lets one person register, with the role they get.
use vstd::prelude::*;
use crate::clock::{Timestamp, NANOS_PER_DAY};
use crate::passphrase::{drawn_from, Passphrase};
use crate::text::{push_char, push_str};
use crate::users::{EmailSubscription, Role, User, UserId};

verus! {

/// The number of invitations generated for one printed sheet.
pub const INVITATIONS_PER_SHEET: usize = 20;
/// The number of invitation cards that fit on one printed page.
pub const INVITATIONS_PER_PAGE: usize = 2;

/// How long a batch-generated invitation stays valid.
#[derive(Debug, Copy, Clone, PartialEq, Eq, Structural)]
pub enum InvitationLifetime {
    Short,
    Long,
}

pub open spec fn lifetime_days(lifetime: InvitationLifetime) -> i128 {
    match lifetime {
        InvitationLifetime::Short => 30,
        InvitationLifetime::Long => 365,
    }
}

impl InvitationLifetime {
    /// The lifetime in nanoseconds: thirty days, or a year of 365 days.
    pub fn duration_nanos(self) -> (nanos: i128)
        ensures
            nanos == lifetime_days(self) * NANOS_PER_DAY,
    {
        match self {
            InvitationLifetime::Short => 30 * NANOS_PER_DAY,
            InvitationLifetime::Long => 365 * NANOS_PER_DAY,
        }
    }
}

/// An invitation that has not been stored yet.
#[derive(Debug, Clone)]
pub struct NewInvitation {
    pub role: Role,
    pub created_by: Option<UserId>,
    pub passphrase: Passphrase,
    pub comment: String,
    pub valid_until: Option<Timestamp>,
}

/// A stored invitation, and who used it.
#[derive(Debug, Clone)]
pub struct Invitation {
    pub id: i64,
    pub role: Role,
    pub created_by: Option<UserId>,
    pub passphrase: Passphrase,
    pub comment: String,
    pub valid_until: Option<Timestamp>,
    pub used_by: Option<UserId>,
}

/// A user about to be registered.
#[derive(Debug, Clone)]
pub struct NewUser {
    pub name: String,
    pub symbol: char,
    pub email_address: String,
    pub email_subscription: EmailSubscription,
    pub role: Role,
    pub invited_by: Option<UserId>,
    pub campaign: Option<String>,
}

/// Collects the parts of an invitation; the passphrase is picked when it is built.
#[derive(Debug)]
pub struct InvitationBuilder {
    pub role: Role,
    pub created_by: Option<UserId>,
    pub valid_until: Option<Timestamp>,
    pub comment: String,
}

impl InvitationBuilder {
    pub fn new() -> (builder: InvitationBuilder)
        ensures
            builder.role == Role::Guest,
            builder.created_by is None,
            builder.valid_until is None,
            builder.comment@ == Seq::<char>::empty(),
    {
        InvitationBuilder { role: Role::Guest, created_by: None, valid_until: None, comment: String::new() }
    }

    pub fn role(self, role: Role) -> (builder: InvitationBuilder)
        ensures
            builder.role == role,
            builder.created_by == self.created_by,
            builder.valid_until == self.valid_until,
            builder.comment == self.comment,
    {
        InvitationBuilder { role, ..self }
    }

    pub fn created_by(self, user_id: Option<UserId>) -> (builder: InvitationBuilder)
        ensures
            builder.role == self.role,
            builder.created_by == user_id,
            builder.valid_until == self.valid_until,
            builder.comment == self.comment,
    {
        InvitationBuilder { created_by: user_id, ..self }
    }

    pub fn valid_until(self, valid_until: Option<Timestamp>) -> (builder: InvitationBuilder)
        ensures
            builder.role == self.role,
            builder.created_by == self.created_by,
            builder.valid_until == valid_until,
            builder.comment == self.comment,
    {
        InvitationBuilder { valid_until, ..self }
    }

    pub fn comment(self, comment: String) -> (builder: InvitationBuilder)
        ensures
            builder.role == self.role,
            builder.created_by == self.created_by,
            builder.valid_until == self.valid_until,
            builder.comment == comment,
    {
        InvitationBuilder { comment, ..self }
    }

    /// The invitation, with a passphrase picked at random from `wordlist`.
    pub fn build(self, wordlist: &[String]) -> (invitation: NewInvitation)
        ensures
            invitation.role == self.role,
            invitation.created_by == self.created_by,
            invitation.valid_until == self.valid_until,
            invitation.comment == self.comment,
            drawn_from(invitation.passphrase.0@, wordlist@),
    {
        let passphrase = Passphrase::sample(wordlist);
        NewInvitation {
            role: self.role,
            created_by: self.created_by,
            passphrase,
            comment: self.comment,
            valid_until: self.valid_until,
        }
    }
}

impl NewInvitation {
    pub fn builder() -> (builder: InvitationBuilder)
        ensures
            builder.role == Role::Guest,
            builder.created_by is None,
            builder.valid_until is None,
            builder.comment@ == Seq::<char>::empty(),
    {
        InvitationBuilder::new()
    }

    /// The invitation as stored under `id`, not yet used.
    pub fn with_id(self, id: i64) -> (invitation: Invitation)
        ensures
            invitation.id == id,
            invitation.role == self.role,
            invitation.created_by == self.created_by,
            invitation.passphrase.0@ == self.passphrase.0@,
            invitation.comment == self.comment,
            invitation.valid_until == self.valid_until,
            invitation.used_by is None,
    {
        Invitation {
            id,
            role: self.role,
            created_by: self.created_by,
            passphrase: self.passphrase,
            comment: self.comment,
            valid_until: self.valid_until,
            used_by: None,
        }
    }
}

/// Whole seconds since the epoch, counted down to the second, as the database
/// compares instants.
pub open spec fn whole_seconds(nanos: int) -> int {
    nanos / 1_000_000_000
}

/// The invitation can still be used at `now`: it never ends, or it ends in the second
/// of `now` or later.
pub open spec fn valid_at(valid_until: Option<Timestamp>, now: Timestamp) -> bool {
    match valid_until {
        None => true,
        Some(v) => whole_seconds(v.unix_nanos as int) >= whole_seconds(now.unix_nanos as int),
    }
}

/// The whole seconds of an instant.
pub fn seconds_of(nanos: i128) -> (seconds: i128)
    ensures
        seconds == whole_seconds(nanos as int),
{
    let q = nanos / 1_000_000_000;
    let r = nanos % 1_000_000_000;
    if r < 0 {
        q - 1
    } else {
        q
    }
}

impl Invitation {
    /// Whether the invitation can still be used at `now`.
    pub fn is_valid_at(&self, now: Timestamp) -> (valid: bool)
        ensures
            valid == valid_at(self.valid_until, now),
    {
        match self.valid_until {
            None => true,
            Some(v) => seconds_of(v.unix_nanos) >= seconds_of(now.unix_nanos),
        }
    }

    /// The user that registering with this invitation creates: they get the
    /// invitation's role, count as invited by its creator, and are subscribed to emails.
    pub fn to_user(&self, name: String, symbol: char, email_address: String, campaign: Option<String>) -> (user: NewUser)
        ensures
            user.name == name,
            user.symbol == symbol,
            user.email_address == email_address,
            user.email_subscription == EmailSubscription::Subscribed,
            user.role == self.role,
            user.invited_by == self.created_by,
            user.campaign == campaign,
    {
        NewUser {
            name,
            symbol,
            email_address,
            email_subscription: EmailSubscription::default(),
            role: self.role,
            invited_by: self.created_by,
            campaign,
        }
    }
}

/// A guest invitation from `user`, valid for a year from `now`; `None` where that
/// leaves the range of the `time` crate.
pub fn generate_invitation(user: &User, now: Timestamp, wordlist: &[String]) -> (invitation: Option<NewInvitation>)
    requires
        now.wf(),
    ensures
        invitation is None <==> now.checked_add_nanos_is_none(lifetime_days(InvitationLifetime::Long) * NANOS_PER_DAY),
        invitation matches Some(i) ==> {
            &&& i.role == Role::Guest
            &&& i.created_by == Some(user.id)
            &&& i.valid_until matches Some(v) && v.unix_nanos == now.unix_nanos + lifetime_days(InvitationLifetime::Long) * NANOS_PER_DAY
            &&& i.comment@ == Seq::<char>::empty()
            &&& drawn_from(i.passphrase.0@, wordlist@)
        },
{
    match now.checked_add_nanos(InvitationLifetime::Long.duration_nanos()) {
        Some(valid_until) => Some(
            InvitationBuilder::new().role(Role::Guest).created_by(Some(user.id)).valid_until(Some(valid_until)).build(wordlist),
        ),
        None => None,
    }
}

/// The invitation form: for how many days it is valid, who invites, and a comment.
#[derive(Debug, Clone)]
pub struct GenerateInvitationData {
    pub lifetime_in_days: u32,
    pub inviter: UserId,
    pub comment: String,
}

/// A guest invitation from the form's inviter with the form's comment, valid for the
/// form's number of days from `now`; `None` where that leaves the range of the `time` crate.
pub fn invitation_for_form(form: &GenerateInvitationData, now: Timestamp, wordlist: &[String]) -> (invitation: Option<NewInvitation>)
    requires
        now.wf(),
    ensures
        invitation is None <==> now.checked_add_nanos_is_none(form.lifetime_in_days * NANOS_PER_DAY),
        invitation matches Some(i) ==> {
            &&& i.role == Role::Guest
            &&& i.created_by == Some(form.inviter)
            &&& i.valid_until matches Some(v) && v.unix_nanos == now.unix_nanos + form.lifetime_in_days * NANOS_PER_DAY
            &&& i.comment == form.comment
            &&& drawn_from(i.passphrase.0@, wordlist@)
        },
{
    let lifetime = (form.lifetime_in_days as i128) * NANOS_PER_DAY;
    match now.checked_add_nanos(lifetime) {
        Some(valid_until) => Some(
            NewInvitation::builder()
                .role(Role::Guest)
                .created_by(Some(form.inviter))
                .valid_until(Some(valid_until))
                .comment(form.comment.clone())
                .build(wordlist),
        ),
        None => None,
    }
}

/// A sheet of guest invitations from `user`, each valid for a year from `now`;
/// `None` where that leaves the range of the `time` crate.
pub fn generate_invitations(user: &User, now: Timestamp, wordlist: &[String]) -> (invitations: Option<Vec<NewInvitation>>)
    requires
        now.wf(),
    ensures
        invitations is None <==> now.checked_add_nanos_is_none(lifetime_days(InvitationLifetime::Long) * NANOS_PER_DAY),
        invitations matches Some(v) ==> v@.len() == INVITATIONS_PER_SHEET && forall|k: int| 0 <= k < v@.len() ==> {
            &&& (#[trigger] v@[k]).role == Role::Guest
            &&& v@[k].created_by == Some(user.id)
            &&& v@[k].valid_until matches Some(t) && t.unix_nanos == now.unix_nanos + lifetime_days(InvitationLifetime::Long) * NANOS_PER_DAY
            &&& drawn_from(v@[k].passphrase.0@, wordlist@)
        },
{
    let mut invitations: Vec<NewInvitation> = Vec::new();
    let mut k: usize = 0;
    while k < INVITATIONS_PER_SHEET
        invariant
            k <= INVITATIONS_PER_SHEET,
            now.wf(),
            !now.checked_add_nanos_is_none(lifetime_days(InvitationLifetime::Long) * NANOS_PER_DAY) || k == 0,
            invitations@.len() == k,
            forall|j: int| 0 <= j < k ==> {
                &&& (#[trigger] invitations@[j]).role == Role::Guest
                &&& invitations@[j].created_by == Some(user.id)
                &&& invitations@[j].valid_until matches Some(t) && t.unix_nanos == now.unix_nanos + lifetime_days(InvitationLifetime::Long) * NANOS_PER_DAY
                &&& drawn_from(invitations@[j].passphrase.0@, wordlist@)
            },
        decreases INVITATIONS_PER_SHEET - k,
    {
        match generate_invitation(user, now, wordlist) {
            Some(invitation) => invitations.push(invitation),
            None => return None,
        }
        k = k + 1;
    }
    Some(invitations)
}

/// The passphrases of stored invitations, in order.
pub fn passphrases_of(invitations: &[Invitation]) -> (passphrases: Vec<Passphrase>)
    ensures
        passphrases@.len() == invitations@.len(),
        forall|k: int| 0 <= k < invitations@.len() ==> (#[trigger] passphrases@[k]).0@ == invitations@[k].passphrase.0@,
{
    let mut passphrases: Vec<Passphrase> = Vec::new();
    let mut k: usize = 0;
    while k < invitations.len()
        invariant
            k <= invitations@.len(),
            passphrases@.len() == k,
            forall|j: int| 0 <= j < k ==> (#[trigger] passphrases@[j]).0@ == invitations@[j].passphrase.0@,
        decreases invitations@.len() - k,
    {
        passphrases.push(Passphrase(invitations[k].passphrase.0.clone()));
        k = k + 1;
    }
    passphrases
}

/// The comment of the invitation that a user who deletes their profile gets.
pub open spec fn goodbye_comment(name: Seq<char>) -> Seq<char> {
    "Goodbye invitation for '"@ + name + "'"@
}

/// An invitation with the role of a user who deletes their profile, so that they can
/// come back, valid for 365 days from `now`; `None` where that leaves the range of the `time` crate.
pub fn goodbye_invitation(user: &User, now: Timestamp, wordlist: &[String]) -> (invitation: Option<NewInvitation>)
    requires
        now.wf(),
    ensures
        invitation is None <==> now.checked_add_nanos_is_none(365 * NANOS_PER_DAY),
        invitation matches Some(i) ==> {
            &&& i.role == user.role
            &&& i.created_by is None
            &&& i.valid_until matches Some(v) && v.unix_nanos == now.unix_nanos + 365 * NANOS_PER_DAY
            &&& i.comment@ == goodbye_comment(user.name@)
            &&& drawn_from(i.passphrase.0@, wordlist@)
        },
{
    match now.checked_add_nanos(365 * NANOS_PER_DAY) {
        Some(valid_until) => {
            let mut comment = String::new();
            push_str(&mut comment, "Goodbye invitation for '");
            push_str(&mut comment, user.name.as_str());
            push_char(&mut comment, '\'');
            proof {
                reveal_strlit("Goodbye invitation for '");
                reveal_strlit("'");
                assert(comment@ =~= goodbye_comment(user.name@));
            }
            Some(NewInvitation::builder().role(user.role).valid_until(Some(valid_until)).comment(comment).build(wordlist))
        },
        None => None,
    }
}

/// The comment of the invitation for the first administrator.
pub open spec fn admin_invitation_comment() -> Seq<char> {
    "auto-generated admin invite"@
}

/// The invitation for the first administrator: the stored one where there is one,
/// else a new administrator invitation to be stored.
pub fn get_or_create_invitation(stored: Option<Invitation>, wordlist: &[String]) -> (invitation: Result<Invitation, NewInvitation>)
    ensures
        match stored {
            Some(s) => invitation matches Ok(i) && i.id == s.id && i.passphrase.0@ == s.passphrase.0@,
            None => invitation matches Err(n) && n.role == Role::Admin && n.created_by is None
                && n.valid_until is None && n.comment@ == admin_invitation_comment()
                && drawn_from(n.passphrase.0@, wordlist@),
        },
{
    match stored {
        Some(s) => Ok(s),
        None => {
            let comment = "auto-generated admin invite".to_string();
            proof {
                reveal_strlit("auto-generated admin invite");
            }
            Err(InvitationBuilder::new().role(Role::Admin).comment(comment).build(wordlist))
        },
    }
}

/// The passphrases in pages of `INVITATIONS_PER_PAGE` cards, the last page holding the rest.
pub fn cards(passphrases: &[Passphrase]) -> (pages: Vec<Vec<Passphrase>>)
    ensures
        pages@.len() == (passphrases@.len() + INVITATIONS_PER_PAGE - 1) / INVITATIONS_PER_PAGE as int,
        forall|p: int, k: int| 0 <= p < pages@.len() && 0 <= k < (#[trigger] pages@[p])@.len() ==>
            (#[trigger] pages@[p]@[k]).0@ == passphrases@[p * INVITATIONS_PER_PAGE + k].0@,
        forall|p: int| 0 <= p < pages@.len() ==> (#[trigger] pages@[p])@.len() == if (p + 1) * INVITATIONS_PER_PAGE <= passphrases@.len() {
            INVITATIONS_PER_PAGE as int
        } else {
            passphrases@.len() - p * INVITATIONS_PER_PAGE
        },
{
    let mut pages: Vec<Vec<Passphrase>> = Vec::new();
    let mut start: usize = 0;
    while start < passphrases.len()
        invariant
            start == pages@.len() * INVITATIONS_PER_PAGE || start == passphrases@.len(),
            pages@.len() == (start + INVITATIONS_PER_PAGE - 1) / INVITATIONS_PER_PAGE as int,
            start <= passphrases@.len(),
            forall|p: int, k: int| 0 <= p < pages@.len() && 0 <= k < (#[trigger] pages@[p])@.len() ==>
                (#[trigger] pages@[p]@[k]).0@ == passphrases@[p * INVITATIONS_PER_PAGE + k].0@,
            forall|p: int| 0 <= p < pages@.len() ==> (#[trigger] pages@[p])@.len() == if (p + 1) * INVITATIONS_PER_PAGE <= passphrases@.len() {
                INVITATIONS_PER_PAGE as int
            } else {
                passphrases@.len() - p * INVITATIONS_PER_PAGE
            },
        decreases passphrases@.len() - start,
    {
        let end = if passphrases.len() - start > INVITATIONS_PER_PAGE { start + INVITATIONS_PER_PAGE } else { passphrases.len() };
        let mut page: Vec<Passphrase> = Vec::new();
        let mut k: usize = start;
        while k < end
            invariant
                start <= k <= end <= passphrases@.len(),
                page@.len() == k - start,
                forall|m: int| 0 <= m < page@.len() ==> (#[trigger] page@[m]).0@ == passphrases@[start + m].0@,
            decreases end - k,
        {
            page.push(Passphrase(passphrases[k].0.clone()));
            k = k + 1;
        }
        let ghost before = pages@;
        pages.push(page);
        assert forall|p: int, q: int| 0 <= p < pages@.len() && 0 <= q < (#[trigger] pages@[p])@.len() implies
            (#[trigger] pages@[p]@[q]).0@ == passphrases@[p * INVITATIONS_PER_PAGE + q].0@ by {
            if p < before.len() {
                assert(pages@[p] == before[p]);
            }
        }
        start = end;
    }
    pages
}

} // verus!
