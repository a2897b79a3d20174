//! Invite records: what an invitation grants, when it lapses, and what a
//! redemption request must look like.

use vstd::prelude::*;

use crate::komga::{
    opt_libraries_view, KomgaUserCreateOption, KomgaUserCreateOptionSharedLibraries,
    RestrictionView, SharedLibrariesView,
};
use crate::text::copy_opt_strings;

verus! {

/// What the account created through an invitation receives, and when the
/// invitation lapses (a Unix time; none means never).
pub struct InviteOption {
    pub labels_allow: Option<Vec<String>>,
    pub labels_exclude: Option<Vec<String>>,
    pub shared_libraries: Option<KomgaUserCreateOptionSharedLibraries>,
    pub expire_at: Option<u64>,
    pub roles: Option<Vec<String>>,
}

/// An invitation's settings, as characters.
pub ghost struct InviteOptionView {
    pub labels_allow: Option<Seq<Seq<char>>>,
    pub labels_exclude: Option<Seq<Seq<char>>>,
    pub shared_libraries: Option<SharedLibrariesView>,
    pub expire_at: Option<u64>,
    pub roles: Option<Seq<Seq<char>>>,
}

impl View for InviteOption {
    type V = InviteOptionView;

    open spec fn view(&self) -> InviteOptionView {
        InviteOptionView {
            labels_allow: self.labels_allow.deep_view(),
            labels_exclude: self.labels_exclude.deep_view(),
            shared_libraries: opt_libraries_view(self.shared_libraries),
            expire_at: self.expire_at,
            roles: self.roles.deep_view(),
        }
    }
}

/// The roles that an account gets when its invitation names none.
pub open spec fn default_roles() -> Seq<Seq<char>> {
    seq!["USER"@, "FILE_DOWNLOAD"@, "PAGE_STREAMING"@]
}

impl InviteOptionView {
    /// The restrictions to apply to the created account: the label and
    /// library settings, without expiry and roles.
    pub open spec fn restriction(self) -> RestrictionView {
        RestrictionView {
            labels_allow: self.labels_allow,
            labels_exclude: self.labels_exclude,
            shared_libraries: self.shared_libraries,
        }
    }

    /// The roles to create the account with.
    pub open spec fn granted_roles(self) -> Seq<Seq<char>> {
        match self.roles {
            Some(r) => r,
            None => default_roles(),
        }
    }

    /// Whether the invitation has lapsed at Unix time `now`.
    pub open spec fn expired_at(self, now: u64) -> bool {
        match self.expire_at {
            Some(deadline) => now > deadline,
            None => false,
        }
    }
}

impl InviteOption {
    /// A field-for-field copy.
    pub fn duplicate(&self) -> (r: Self)
        ensures
            r@ == self@,
    {
        InviteOption {
            labels_allow: copy_opt_strings(&self.labels_allow),
            labels_exclude: copy_opt_strings(&self.labels_exclude),
            shared_libraries: match &self.shared_libraries {
                Some(l) => Some(l.duplicate()),
                None => None,
            },
            expire_at: self.expire_at,
            roles: copy_opt_strings(&self.roles),
        }
    }

    /// The restrictions to apply to the account, copied out of the settings.
    pub fn restriction(&self) -> (r: KomgaUserCreateOption)
        ensures
            r@ == self@.restriction(),
    {
        KomgaUserCreateOption {
            labels_allow: copy_opt_strings(&self.labels_allow),
            labels_exclude: copy_opt_strings(&self.labels_exclude),
            shared_libraries: match &self.shared_libraries {
                Some(l) => Some(l.duplicate()),
                None => None,
            },
        }
    }

    /// The roles configured, or the default set when none are.
    pub fn granted_roles(&self) -> (r: Vec<String>)
        ensures
            r.deep_view() == self@.granted_roles(),
    {
        match &self.roles {
            Some(roles) => crate::text::copy_strings(roles),
            None => {
                let r = vec![
                    String::from_str("USER"),
                    String::from_str("FILE_DOWNLOAD"),
                    String::from_str("PAGE_STREAMING"),
                ];
                proof {
                    assert(r.deep_view() =~= default_roles());
                }
                r
            },
        }
    }

    /// Whether the invitation has lapsed at Unix time `now`: it has a deadline
    /// and `now` lies strictly after it.
    pub fn is_expired(&self, now: u64) -> (r: bool)
        ensures
            r == self@.expired_at(now),
    {
        match self.expire_at {
            Some(deadline) => now > deadline,
            None => false,
        }
    }
}

impl From<InviteOption> for KomgaUserCreateOption {
    fn from(val: InviteOption) -> (r: KomgaUserCreateOption) {
        KomgaUserCreateOption {
            labels_allow: val.labels_allow,
            labels_exclude: val.labels_exclude,
            shared_libraries: val.shared_libraries,
        }
    }
}

impl vstd::std_specs::convert::FromSpecImpl<InviteOption> for KomgaUserCreateOption {
    open spec fn obeys_from_spec() -> bool {
        true
    }

    open spec fn from_spec(val: InviteOption) -> KomgaUserCreateOption {
        KomgaUserCreateOption {
            labels_allow: val.labels_allow,
            labels_exclude: val.labels_exclude,
            shared_libraries: val.shared_libraries,
        }
    }
}

/// One invitation as stored: the token that names it, what it grants, and the
/// downstream account's id once that account exists.
pub struct InviteToken {
    pub token: String,
    pub option: InviteOption,
    pub user_id: Option<String>,
}

/// An invite record, as characters.
pub ghost struct InviteTokenView {
    pub token: Seq<char>,
    pub option: InviteOptionView,
    pub user_id: Option<Seq<char>>,
}

impl View for InviteToken {
    type V = InviteTokenView;

    open spec fn view(&self) -> InviteTokenView {
        InviteTokenView {
            token: self.token@,
            option: self.option@,
            user_id: self.user_id.deep_view(),
        }
    }
}

/// How far provisioning has come for one record.
pub enum ProvisionState {
    /// No downstream account exists yet.
    Pending,
    /// The account with this id exists; only its restrictions remain.
    PartiallyProvisioned(String),
}

impl InviteTokenView {
    /// The record once the downstream account `id` exists.
    pub open spec fn with_account(self, id: Seq<char>) -> InviteTokenView {
        InviteTokenView { user_id: Some(id), ..self }
    }
}

/// Whether `c` is a lower-case hexadecimal digit.
pub open spec fn lower_hex(c: char) -> bool {
    ('0' <= c && c <= '9') || ('a' <= c && c <= 'f')
}

/// Whether `s` is a version-4 UUID in hyphenated lower-case form: 36
/// characters, hyphens at 8, 13, 18 and 23, lower-case hexadecimal digits
/// elsewhere, the version digit `4` at 14, and the variant digit (one of `8`,
/// `9`, `a`, `b`) at 19.
pub open spec fn uuid_v4_text(s: Seq<char>) -> bool {
    &&& s.len() == 36
    &&& forall|i: int|
        0 <= i < 36 ==> if i == 8 || i == 13 || i == 18 || i == 23 {
            s[i] == '-'
        } else {
            lower_hex(#[trigger] s[i])
        }
    &&& s[14] == '4'
    &&& (s[19] == '8' || s[19] == '9' || s[19] == 'a' || s[19] == 'b')
}

/// Relies on uuid::Uuid::new_v4 and uuid's Display: random bits with the
/// version and variant bits set, written in the hyphenated lower-case form.
#[verifier::external_body]
fn random_token() -> (r: String)
    ensures
        uuid_v4_text(r@),
{
    uuid::Uuid::new_v4().to_string()
}

impl InviteToken {
    /// A pending record for `token`.
    pub fn new(token: String, option: InviteOption) -> (r: Self)
        ensures
            r.token == token,
            r.option == option,
            r.user_id is None,
    {
        InviteToken { token, option, user_id: None }
    }

    /// A pending record under a fresh random token, to be stored by the caller.
    pub fn issue(option: InviteOption) -> (r: Self)
        ensures
            r.option == option,
            r.user_id is None,
            uuid_v4_text(r.token@),
    {
        InviteToken::new(random_token(), option)
    }

    pub fn token(&self) -> (r: &str)
        ensures
            r@ == self.token@,
    {
        self.token.as_str()
    }

    pub fn option(&self) -> (r: &InviteOption)
        ensures
            *r == self.option,
    {
        &self.option
    }

    /// The provisioning state that the account id stands for.
    pub fn provision_state(&self) -> (r: ProvisionState)
        ensures
            match r {
                ProvisionState::Pending => self.user_id is None,
                ProvisionState::PartiallyProvisioned(id) => self.user_id.deep_view() == Some(id@),
            },
    {
        match &self.user_id {
            Some(id) => ProvisionState::PartiallyProvisioned(id.clone()),
            None => ProvisionState::Pending,
        }
    }

    /// Whether the record has lapsed at Unix time `now`.
    pub fn is_expired(&self, now: u64) -> (r: bool)
        ensures
            r == self@.option.expired_at(now),
    {
        self.option.is_expired(now)
    }

    /// A field-for-field copy.
    pub fn duplicate(&self) -> (r: Self)
        ensures
            r@ == self@,
    {
        InviteToken {
            token: self.token.clone(),
            option: self.option.duplicate(),
            user_id: match &self.user_id {
                Some(id) => Some(id.clone()),
                None => None,
            },
        }
    }

    /// A copy of the record with the downstream account `id` attached.
    pub fn with_account(&self, id: String) -> (r: Self)
        ensures
            r@ == self@.with_account(id@),
    {
        InviteToken {
            token: self.token.clone(),
            option: self.option.duplicate(),
            user_id: Some(id),
        }
    }
}

/// Relies on chrono::Utc::now and DateTime::timestamp: the system clock, in
/// seconds since the Unix epoch. `Utc::now` panics on a clock set before the
/// epoch, so every value it hands back is at least zero.
#[verifier::external_body]
fn utc_timestamp() -> (r: i64)
    ensures
        r >= 0,
{
    chrono::Utc::now().timestamp()
}

/// The current Unix time, in whole seconds.
pub fn current_unix() -> (r: u64) {
    let t = utc_timestamp();
    unix_seconds(t)
}

/// A clock reading, which is never negative, as an unsigned number of seconds.
fn unix_seconds(t: i64) -> (r: u64)
    requires
        t >= 0,
    ensures
        r as int == t as int,
{
    t as u64
}

/// The credentials that a redemption asks for.
pub struct InviteTokenApplicationRequest {
    pub email: String,
    pub password: String,
}

/// The least number of UTF-8 bytes a password may have.
pub const MIN_PASSWORD_BYTES: usize = 6;

/// A name for what garde's email rule says of an address: `None` when it
/// accepts it, else its message.
pub uninterp spec fn email_rejection(s: Seq<char>) -> Option<Seq<char>>;

/// Relies on garde::rules::email::apply, the rule behind `#[garde(email)]`:
/// `None` when the address is accepted, else the rule's message.
#[verifier::external_body]
fn email_rule(s: &String) -> (r: Option<String>)
    ensures
        r.deep_view() == email_rejection(s@),
{
    match garde::rules::email::apply(s, ()) {
        Ok(()) => None,
        Err(e) => Some(e.message().to_string()),
    }
}

/// Whether a password is long enough: at least six bytes in UTF-8, counted as
/// `str::len` counts them.
pub open spec fn password_long_enough(p: Seq<char>) -> bool {
    vstd::utf8::encode_utf8(p).len() as usize >= MIN_PASSWORD_BYTES
}

/// The report on a refused request, given what the email rule said of the
/// address: one line `- field: message` per failed rule, email first.
pub open spec fn report_for(email_problem: Option<Seq<char>>, password: Seq<char>) -> Seq<char> {
    let email_part = match email_problem {
        Some(m) => "- email: "@ + m + "\n"@,
        None => Seq::<char>::empty(),
    };
    let password_part = if password_long_enough(password) {
        Seq::<char>::empty()
    } else {
        "- password: length is lower than 6\n"@
    };
    email_part + password_part
}

/// The report on a refused request.
pub open spec fn validation_report(email: Seq<char>, password: Seq<char>) -> Seq<char> {
    report_for(email_rejection(email), password)
}

/// Whether a redemption request passes both rules.
pub open spec fn application_valid(email: Seq<char>, password: Seq<char>) -> bool {
    email_rejection(email) is None && password_long_enough(password)
}

impl InviteTokenApplicationRequest {
    pub fn new(email: String, password: String) -> (r: Self)
        ensures
            r.email == email,
            r.password == password,
    {
        InviteTokenApplicationRequest { email, password }
    }

    /// Checks the address and the password length. On refusal the error
    /// holds the report of every rule that failed.
    pub fn validate(&self) -> (r: Result<(), String>)
        ensures
            r is Ok <==> application_valid(self.email@, self.password@),
            r matches Err(report) ==> report@ == validation_report(self.email@, self.password@),
    {
        judge_application(email_rule(&self.email), self.password.as_str())
    }
}

/// The verdict on a redemption request, given `email_problem`, what the email
/// rule said of the address (`None` when it accepted it).
pub fn judge_application(email_problem: Option<String>, password: &str) -> (r: Result<(), String>)
    ensures
        r is Ok <==> (email_problem is None && password_long_enough(password@)),
        r matches Err(report) ==> report@ == report_for(email_problem.deep_view(), password@),
{
    let mut report = String::new();
    let email_ok = email_problem.is_none();
    match email_problem {
        Some(m) => {
            report.append("- email: ");
            report.append(m.as_str());
            report.append("\n");
        },
        None => {},
    }
    let password_ok = password.len() >= MIN_PASSWORD_BYTES;
    if !password_ok {
        report.append("- password: length is lower than 6\n");
    }
    if email_ok && password_ok {
        Ok(())
    } else {
        Err(report)
    }
}

/// The token named in a request path or query.
pub struct InviteQuery {
    pub token: String,
}

} // verus!
