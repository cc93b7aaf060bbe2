//! An in-memory account directory, keyed by the provider's subject.
//!
//! It keeps the one rule the login flow relies on: no two accounts are linked
//! to the same subject.

use vstd::prelude::*;
use crate::outside::text_eq;
use crate::profile::{AccountView, LocalAccount};

verus! {

/// Why the directory did not take an account.
#[derive(Debug, Clone, Copy, PartialEq, Eq, Structural)]
pub enum DirectoryError {
    /// The account is linked to no subject.
    Unlinked,
    /// Another account is already linked to that subject.
    Conflict,
}

spec fn subject_at(s: Seq<LocalAccount>, i: int) -> Seq<char> {
    s[i]@.casdoor_id->0
}

spec fn all_linked(s: Seq<LocalAccount>) -> bool {
    forall|i: int| 0 <= i < s.len() ==> (#[trigger] s[i])@.casdoor_id is Some
}

spec fn distinct_subjects(s: Seq<LocalAccount>) -> bool {
    forall|i: int, j: int| 0 <= i < j < s.len() ==> subject_at(s, i) != subject_at(s, j)
}

spec fn holds_subject(s: Seq<LocalAccount>, k: Seq<char>) -> bool {
    exists|i: int| 0 <= i < s.len() && #[trigger] subject_at(s, i) == k
}

spec fn index_of_subject(s: Seq<LocalAccount>, k: Seq<char>) -> int {
    choose|i: int| 0 <= i < s.len() && #[trigger] subject_at(s, i) == k
}

spec fn accounts_map(s: Seq<LocalAccount>) -> Map<Seq<char>, AccountView> {
    Map::new(|k: Seq<char>| holds_subject(s, k), |k: Seq<char>| s[index_of_subject(s, k)]@)
}

proof fn lemma_account_at(s: Seq<LocalAccount>, i: int)
    requires
        distinct_subjects(s),
        0 <= i < s.len(),
    ensures
        accounts_map(s).dom().contains(subject_at(s, i)),
        accounts_map(s)[subject_at(s, i)] == s[i]@,
{
    let k = subject_at(s, i);
    assert(holds_subject(s, k));
    let j = index_of_subject(s, k);
    assert(0 <= j < s.len() && subject_at(s, j) == k);
    if j < i {
        assert(subject_at(s, j) != subject_at(s, i));
    } else if i < j {
        assert(subject_at(s, i) != subject_at(s, j));
    }
}

proof fn lemma_account_added(s: Seq<LocalAccount>, a: LocalAccount)
    requires
        distinct_subjects(s),
        all_linked(s),
        a@.casdoor_id is Some,
        !holds_subject(s, a@.casdoor_id->0),
    ensures
        distinct_subjects(s.push(a)),
        all_linked(s.push(a)),
        accounts_map(s.push(a)) == accounts_map(s).insert(a@.casdoor_id->0, a@),
{
    let t = s.push(a);
    let key = a@.casdoor_id->0;
    assert forall|i: int| 0 <= i < t.len() implies (#[trigger] t[i])@.casdoor_id is Some by {
        if i < s.len() {
            assert(t[i] == s[i]);
        }
    }
    assert forall|i: int, j: int| 0 <= i < j < t.len() implies subject_at(t, i) != subject_at(
        t,
        j,
    ) by {
        assert(t[i] == s[i]);
        if j == s.len() {
            if subject_at(s, i) == key {
                assert(holds_subject(s, key));
            }
        } else {
            assert(t[j] == s[j]);
            assert(subject_at(s, i) != subject_at(s, j));
        }
    }
    let x = accounts_map(t);
    let y = accounts_map(s).insert(key, a@);
    assert forall|k: Seq<char>| x.dom().contains(k) <==> y.dom().contains(k) by {
        if holds_subject(t, k) {
            let i = index_of_subject(t, k);
            if i < s.len() {
                assert(t[i] == s[i]);
                assert(subject_at(s, i) == k);
            }
        }
        if holds_subject(s, k) {
            let i = index_of_subject(s, k);
            assert(t[i] == s[i]);
            assert(subject_at(t, i) == k);
        }
        if k == key {
            assert(subject_at(t, s.len() as int) == k);
        }
    }
    assert forall|k: Seq<char>| x.dom().contains(k) implies x[k] == y[k] by {
        let i = index_of_subject(t, k);
        lemma_account_at(t, i);
        if i < s.len() {
            assert(t[i] == s[i]);
            assert(subject_at(s, i) == k);
            lemma_account_at(s, i);
        }
    }
    assert(x =~= y);
}

/// The accounts that are linked to a subject, at most one for each.
pub struct AccountDirectory {
    accounts: Vec<LocalAccount>,
}

impl View for AccountDirectory {
    type V = Map<Seq<char>, AccountView>;

    closed spec fn view(&self) -> Map<Seq<char>, AccountView> {
        accounts_map(self.accounts@)
    }
}

/// What a directory that holds `m` answers to the creation of `account`.
pub open spec fn create_outcome(m: Map<Seq<char>, AccountView>, account: AccountView) -> Result<
    (),
    DirectoryError,
> {
    match account.casdoor_id {
        None => Err(DirectoryError::Unlinked),
        Some(subject) => if m.dom().contains(subject) {
            Err(DirectoryError::Conflict)
        } else {
            Ok(())
        },
    }
}

/// What a directory that held `m` holds after the creation of `account` was asked for.
pub open spec fn create_result(m: Map<Seq<char>, AccountView>, account: AccountView) -> Map<
    Seq<char>,
    AccountView,
> {
    if create_outcome(m, account) is Ok {
        m.insert(account.casdoor_id->0, account)
    } else {
        m
    }
}

impl AccountDirectory {
    #[verifier::type_invariant]
    spec fn well_formed(self) -> bool {
        &&& all_linked(self.accounts@)
        &&& distinct_subjects(self.accounts@)
    }

    /// A directory without accounts.
    pub fn new() -> (directory: AccountDirectory)
        ensures
            directory@ == Map::<Seq<char>, AccountView>::empty(),
    {
        let directory = AccountDirectory { accounts: Vec::new() };
        assert(directory@ =~= Map::<Seq<char>, AccountView>::empty());
        directory
    }

    /// Whether the directory holds no account at all.
    pub fn is_empty(&self) -> (empty: bool)
        ensures
            empty == (self@ == Map::<Seq<char>, AccountView>::empty()),
    {
        proof {
            use_type_invariant(self);
            if self.accounts@.len() > 0 {
                lemma_account_at(self.accounts@, 0);
            } else {
                assert(self@ =~= Map::<Seq<char>, AccountView>::empty());
            }
        }
        self.accounts.len() == 0
    }

    fn position(&self, subject: &str) -> (found: Option<usize>)
        ensures
            match found {
                Some(i) => i < self.accounts@.len() && subject_at(self.accounts@, i as int)
                    == subject@,
                None => !holds_subject(self.accounts@, subject@),
            },
    {
        proof {
            use_type_invariant(self);
        }
        let mut i: usize = 0;
        while i < self.accounts.len()
            invariant
                i <= self.accounts@.len(),
                all_linked(self.accounts@),
                forall|j: int| 0 <= j < i ==> subject_at(self.accounts@, j) != subject@,
            decreases self.accounts@.len() - i,
        {
            let same = match &self.accounts[i].casdoor_id {
                Some(linked) => text_eq(linked.as_str(), subject),
                None => false,
            };
            if same {
                return Some(i);
            }
            i += 1;
        }
        None
    }

    /// A copy of the account linked to `subject`, if there is one.
    pub fn find_by_casdoor_id(&self, subject: &str) -> (found: Option<LocalAccount>)
        ensures
            found is Some == self@.dom().contains(subject@),
            match found {
                Some(account) => account@ == self@[subject@],
                None => true,
            },
    {
        proof {
            use_type_invariant(self);
        }
        match self.position(subject) {
            Some(i) => {
                proof {
                    lemma_account_at(self.accounts@, i as int);
                }
                Some(self.accounts[i].duplicate())
            },
            None => None,
        }
    }

    /// Adds `account`, unless it is linked to no subject or to one that
    /// another account holds already; then nothing changes.
    pub fn create(&mut self, account: LocalAccount) -> (done: Result<(), DirectoryError>)
        ensures
            done == create_outcome(old(self)@, account@),
            final(self)@ == create_result(old(self)@, account@),
    {
        proof {
            use_type_invariant(&*self);
        }
        let found = match &account.casdoor_id {
            Some(subject) => self.position(subject.as_str()),
            None => {
                return Err(DirectoryError::Unlinked);
            },
        };
        match found {
            Some(i) => {
                proof {
                    lemma_account_at(self.accounts@, i as int);
                }
                Err(DirectoryError::Conflict)
            },
            None => {
                proof {
                    lemma_account_added(self.accounts@, account);
                }
                let mut accounts: Vec<LocalAccount> = Vec::new();
                core::mem::swap(&mut self.accounts, &mut accounts);
                accounts.push(account);
                self.accounts = accounts;
                Ok(())
            },
        }
    }
}

} // verus!
