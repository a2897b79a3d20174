//! Values exchanged with the Komga user-management API, and the client
//! configuration that addresses it.

use vstd::prelude::*;

use crate::text::{contains_string, copy_strings};

verus! {

/// Where the Komga server is and which admin account talks to it.
#[derive(Debug)]
pub struct KomgaClient {
    url: String,
    username: String,
    password: String,
}

/// An account as the server describes it.
pub struct KomgaUser {
    pub id: String,
    pub email: String,
    pub roles: Vec<String>,
    pub shared_all_libraries: bool,
    pub shared_libraries_ids: Vec<String>,
    pub labels_allow: Vec<String>,
    pub labels_exclude: Vec<String>,
}

impl KomgaUser {
    /// Whether the account holds `role`.
    pub fn has_role(&self, role: &String) -> (r: bool)
        ensures
            r == self.roles.deep_view().contains(role@),
    {
        contains_string(&self.roles, role)
    }

    /// Whether the account is an administrator.
    pub fn is_admin(&self) -> (r: bool)
        ensures
            r == self.roles.deep_view().contains("ADMIN"@),
    {
        let admin = String::from_str("ADMIN");
        self.has_role(&admin)
    }
}

/// The body of an account-creation request.
pub struct KomgaUserCreate {
    pub email: String,
    pub password: String,
    pub roles: Vec<String>,
}

/// An account-creation request, as characters.
pub ghost struct AccountRequestView {
    pub email: Seq<char>,
    pub password: Seq<char>,
    pub roles: Seq<Seq<char>>,
}

impl View for KomgaUserCreate {
    type V = AccountRequestView;

    open spec fn view(&self) -> AccountRequestView {
        AccountRequestView {
            email: self.email@,
            password: self.password@,
            roles: self.roles.deep_view(),
        }
    }
}

/// Which libraries an account may see: all of them, or those listed.
pub struct KomgaUserCreateOptionSharedLibraries {
    pub all: bool,
    pub library_ids: Vec<String>,
}

/// A library selection, as characters.
pub ghost struct SharedLibrariesView {
    pub all: bool,
    pub library_ids: Seq<Seq<char>>,
}

impl View for KomgaUserCreateOptionSharedLibraries {
    type V = SharedLibrariesView;

    open spec fn view(&self) -> SharedLibrariesView {
        SharedLibrariesView { all: self.all, library_ids: self.library_ids.deep_view() }
    }
}

pub open spec fn opt_libraries_view(
    v: Option<KomgaUserCreateOptionSharedLibraries>,
) -> Option<SharedLibrariesView> {
    match v {
        Some(l) => Some(l@),
        None => None,
    }
}

impl KomgaUserCreateOptionSharedLibraries {
    /// A field-for-field copy.
    pub fn duplicate(&self) -> (r: Self)
        ensures
            r@ == self@,
    {
        KomgaUserCreateOptionSharedLibraries {
            all: self.all,
            library_ids: copy_strings(&self.library_ids),
        }
    }
}

/// The access restrictions applied to an account after it is created.
pub struct KomgaUserCreateOption {
    pub labels_allow: Option<Vec<String>>,
    pub labels_exclude: Option<Vec<String>>,
    pub shared_libraries: Option<KomgaUserCreateOptionSharedLibraries>,
}

/// Access restrictions, as characters.
pub ghost struct RestrictionView {
    pub labels_allow: Option<Seq<Seq<char>>>,
    pub labels_exclude: Option<Seq<Seq<char>>>,
    pub shared_libraries: Option<SharedLibrariesView>,
}

impl View for KomgaUserCreateOption {
    type V = RestrictionView;

    open spec fn view(&self) -> RestrictionView {
        RestrictionView {
            labels_allow: self.labels_allow.deep_view(),
            labels_exclude: self.labels_exclude.deep_view(),
            shared_libraries: opt_libraries_view(self.shared_libraries),
        }
    }
}

/// A library as the catalog lists it.
pub struct KomgaMinimalLibrary {
    pub id: String,
    pub name: String,
    pub unavailable: bool,
}

/// One field that the server refused, and why.
pub struct KomgaCommonErrorViolation {
    pub field_name: String,
    pub message: String,
}

/// `field: message`.
pub open spec fn violation_text(field_name: Seq<char>, message: Seq<char>) -> Seq<char> {
    field_name + ": "@ + message
}

impl KomgaCommonErrorViolation {
    pub open spec fn text(&self) -> Seq<char> {
        violation_text(self.field_name@, self.message@)
    }

    /// The violation as one line of text.
    pub fn to_string(&self) -> (r: String)
        ensures
            r@ == self.text(),
    {
        let mut r = self.field_name.clone();
        r.append(": ");
        r.append(self.message.as_str());
        r
    }
}

/// The refusals that came back for one request.
pub struct KomgaViolationsError {
    pub violations: Vec<KomgaCommonErrorViolation>,
}

/// Each violation's text followed by a line break, in order.
pub open spec fn violations_text(v: Seq<KomgaCommonErrorViolation>) -> Seq<char>
    decreases v.len(),
{
    if v.len() == 0 {
        Seq::empty()
    } else {
        violations_text(v.drop_last()) + v.last().text() + "\n"@
    }
}

impl KomgaViolationsError {
    /// All violations, one per line.
    pub fn to_string(&self) -> (r: String)
        ensures
            r@ == violations_text(self.violations@),
    {
        let mut r = String::new();
        let mut i: usize = 0;
        while i < self.violations.len()
            invariant
                i <= self.violations@.len(),
                r@ == violations_text(self.violations@.subrange(0, i as int)),
            decreases self.violations.len() - i,
        {
            let line = self.violations[i].to_string();
            r.append(line.as_str());
            r.append("\n");
            proof {
                let next = self.violations@.subrange(0, i + 1);
                assert(next.drop_last() =~= self.violations@.subrange(0, i as int));
            }
            i = i + 1;
        }
        proof {
            assert(self.violations@.subrange(0, i as int) =~= self.violations@);
        }
        r
    }
}

/// The error document the server sends with a refused request.
pub struct KomgaCommonError {
    pub timestamp: String,
    pub status: u16,
    pub error: String,
    pub message: String,
    pub path: String,
}

impl KomgaCommonError {
    pub open spec fn text(&self) -> Seq<char> {
        self.error@ + ": "@ + self.message@
    }

    /// `error: message`.
    pub fn to_string(&self) -> (r: String)
        ensures
            r@ == self.text(),
    {
        let mut r = self.error.clone();
        r.append(": ");
        r.append(self.message.as_str());
        r
    }
}

impl KomgaClient {
    pub closed spec fn url_spec(&self) -> Seq<char> {
        self.url@
    }

    pub closed spec fn username_spec(&self) -> Seq<char> {
        self.username@
    }

    pub closed spec fn password_spec(&self) -> Seq<char> {
        self.password@
    }

    pub fn new(url: String, username: String, password: String) -> (r: Self)
        ensures
            r.url_spec() == url@,
            r.username_spec() == username@,
            r.password_spec() == password@,
    {
        Self { url, username, password }
    }

    /// The admin account's name, for basic authentication.
    pub fn username(&self) -> (r: &str)
        ensures
            r@ == self.username_spec(),
    {
        self.username.as_str()
    }

    /// The admin account's password, for basic authentication.
    pub fn password(&self) -> (r: &str)
        ensures
            r@ == self.password_spec(),
    {
        self.password.as_str()
    }

    /// The base address followed by `path`.
    pub fn endpoint(&self, path: &str) -> (r: String)
        ensures
            r@ == self.url_spec() + path@,
    {
        let mut r = self.url.clone();
        r.append(path);
        r
    }

    /// The address that describes the admin account itself.
    pub fn me_url(&self) -> (r: String)
        ensures
            r@ == self.url_spec() + "/api/v2/users/me"@,
    {
        self.endpoint("/api/v2/users/me")
    }

    /// The address to which new accounts are posted.
    pub fn users_url(&self) -> (r: String)
        ensures
            r@ == self.url_spec() + "/api/v2/users"@,
    {
        self.endpoint("/api/v2/users")
    }

    /// The address of one account, where its restrictions are patched.
    pub fn user_url(&self, user_id: &str) -> (r: String)
        ensures
            r@ == self.url_spec() + "/api/v2/users/"@ + user_id@,
    {
        let mut r = self.endpoint("/api/v2/users/");
        r.append(user_id);
        r
    }

    /// The address of the sharing-label catalog.
    pub fn sharing_labels_url(&self) -> (r: String)
        ensures
            r@ == self.url_spec() + "/api/v1/sharing-labels"@,
    {
        self.endpoint("/api/v1/sharing-labels")
    }

    /// The address of the library catalog.
    pub fn libraries_url(&self) -> (r: String)
        ensures
            r@ == self.url_spec() + "/api/v1/libraries"@,
    {
        self.endpoint("/api/v1/libraries")
    }

    /// The base address of the server.
    pub fn get_host(&self) -> (r: String)
        ensures
            r@ == self.url_spec(),
    {
        self.url.clone()
    }
}

} // verus!
