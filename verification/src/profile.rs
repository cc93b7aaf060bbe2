//! The identity a provider reports and the local account it maps to.

use vstd::prelude::*;
use crate::outside::{current_time, fresh_uid};
use crate::text::{copy_text, text_of};

verus! {

/// What a `CasdoorUser` holds, as mathematical values.
pub struct ProfileView {
    pub address: Seq<char>,
    pub aud: Seq<char>,
    pub email: Option<Seq<char>>,
    pub email_verified: Option<bool>,
    pub groups: Option<Seq<Seq<char>>>,
    pub iss: Seq<char>,
    pub name: Seq<char>,
    pub phone: Seq<char>,
    pub picture: Seq<char>,
    pub preferred_username: Option<Seq<char>>,
    pub sub: Seq<char>,
}

/// The profile the provider's user-info endpoint reports. Only `sub` is a
/// stable key; every other field may change between two logins. The fields
/// that depend on the granted scope are optional.
#[derive(Debug, Clone, Hash, Eq, PartialEq)]
pub struct CasdoorUser {
    pub address: String,
    pub aud: String,
    pub email: Option<String>,
    pub email_verified: Option<bool>,
    pub groups: Option<Vec<String>>,
    pub iss: String,
    pub name: String,
    pub phone: String,
    pub picture: String,
    pub preferred_username: Option<String>,
    pub sub: String,
}

impl View for CasdoorUser {
    type V = ProfileView;

    open spec fn view(&self) -> ProfileView {
        ProfileView {
            address: self.address@,
            aud: self.aud@,
            email: text_of(self.email),
            email_verified: self.email_verified,
            groups: match self.groups {
                Some(g) => Some(g.deep_view()),
                None => None,
            },
            iss: self.iss@,
            name: self.name@,
            phone: self.phone@,
            picture: self.picture@,
            preferred_username: text_of(self.preferred_username),
            sub: self.sub@,
        }
    }
}

/// What a `LocalAccount` holds, as mathematical values.
pub struct AccountView {
    pub uid: u128,
    pub name: Seq<char>,
    pub login: Seq<char>,
    pub avatar: Seq<char>,
    pub email: Seq<char>,
    pub created_at: i64,
    pub admin: bool,
    pub github_id: Option<Seq<char>>,
    pub casdoor_id: Option<Seq<char>>,
}

/// A local identity record. `casdoor_id` links it to the provider's subject;
/// no two accounts of one directory share a link.
#[derive(Debug, Clone, PartialEq, Eq)]
pub struct LocalAccount {
    pub uid: u128,
    pub name: String,
    pub login: String,
    pub avatar: String,
    pub email: String,
    pub created_at: i64,
    pub admin: bool,
    pub github_id: Option<String>,
    pub casdoor_id: Option<String>,
}

impl View for LocalAccount {
    type V = AccountView;

    open spec fn view(&self) -> AccountView {
        AccountView {
            uid: self.uid,
            name: self.name@,
            login: self.login@,
            avatar: self.avatar@,
            email: self.email@,
            created_at: self.created_at,
            admin: self.admin,
            github_id: text_of(self.github_id),
            casdoor_id: text_of(self.casdoor_id),
        }
    }
}

/// The account a first login creates: the display name is the preferred
/// username where the provider gave one and the provider's name otherwise, the
/// login handle is the provider's name, a missing email becomes the empty
/// text, and the account is an ordinary one linked to the profile's subject.
pub open spec fn account_of(profile: ProfileView, uid: u128, created_at: i64) -> AccountView {
    AccountView {
        uid,
        name: match profile.preferred_username {
            Some(preferred) => preferred,
            None => profile.name,
        },
        login: profile.name,
        avatar: profile.picture,
        email: match profile.email {
            Some(email) => email,
            None => Seq::empty(),
        },
        created_at,
        admin: false,
        github_id: None,
        casdoor_id: Some(profile.sub),
    }
}

/// A profile without an email yields an account with the empty text for one;
/// no profile fails to yield an account.
pub proof fn law_missing_email_is_empty(profile: ProfileView, uid: u128, created_at: i64)
    requires
        profile.email is None,
    ensures
        account_of(profile, uid, created_at).email == Seq::<char>::empty(),
        account_of(profile, uid, created_at).casdoor_id == Some(profile.sub),
{
}

impl LocalAccount {
    /// The account for `user` under the given id and creation time.
    pub fn from_profile(user: CasdoorUser, uid: u128, created_at: i64) -> (account: LocalAccount)
        ensures
            account@ == account_of(user@, uid, created_at),
    {
        let name = match user.preferred_username {
            Some(preferred) => preferred,
            None => user.name.clone(),
        };
        let email = match user.email {
            Some(email) => email,
            None => String::new(),
        };
        LocalAccount {
            uid,
            name,
            login: user.name,
            avatar: user.picture,
            email,
            created_at,
            admin: false,
            github_id: None,
            casdoor_id: Some(user.sub),
        }
    }

    /// The account for `user` under a fresh random id, created now.
    pub fn from(user: CasdoorUser) -> (account: LocalAccount)
        ensures
            account@ == account_of(user@, account.uid, account.created_at),
    {
        let uid: u128 = fresh_uid();
        let created_at: i64 = current_time();
        LocalAccount::from_profile(user, uid, created_at)
    }

    /// The provider subject this account is linked to, if any.
    pub fn provider_subject(&self) -> (subject: Option<&String>)
        ensures
            match subject {
                Some(s) => self@.casdoor_id == Some(s@),
                None => self@.casdoor_id is None,
            },
    {
        self.casdoor_id.as_ref()
    }

    /// A copy that holds the same values.
    pub fn duplicate(&self) -> (copy: LocalAccount)
        ensures
            copy@ == self@,
    {
        LocalAccount {
            uid: self.uid,
            name: self.name.clone(),
            login: self.login.clone(),
            avatar: self.avatar.clone(),
            email: self.email.clone(),
            created_at: self.created_at,
            admin: self.admin,
            github_id: copy_text(&self.github_id),
            casdoor_id: copy_text(&self.casdoor_id),
        }
    }
}

} // verus!
