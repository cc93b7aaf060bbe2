//! What the provider answers to the code exchange and to the profile request,
//! and how each answer is classified.

use vstd::prelude::*;
use vstd::string::{StrSliceExecFns, StringExecFns};
use crate::error::LoginError;
use crate::profile::CasdoorUser;

verus! {

/// The type of the credential the provider issued.
#[derive(Debug, Clone, PartialEq, Eq)]
pub enum TokenKind {
    Bearer,
    Mac,
    /// A type that RFC 6749 does not define.
    Extension(String),
}

/// A successful answer of the token endpoint.
#[derive(Debug, Clone, PartialEq, Eq)]
pub struct TokenGrant {
    pub access_token: String,
    pub token_kind: TokenKind,
    /// The granted scopes as the provider listed them; some providers put
    /// several into one comma-joined text.
    pub scopes: Option<Vec<String>>,
}

/// How the code exchange ended.
#[derive(Debug, Clone, PartialEq, Eq)]
pub enum TokenExchange {
    /// The provider issued a credential.
    Granted(TokenGrant),
    /// The provider answered with an error of its own; carries its message.
    ServerResponse(String),
    /// The request could not be sent or the answer not received.
    Request,
    /// The provider's answer could not be parsed.
    Parse,
    /// The provider answered in a way the protocol does not foresee.
    Other,
}

/// How the profile request ended.
#[derive(Debug, Clone, PartialEq, Eq)]
pub enum ProfileReply {
    /// The request could not be sent or the answer not received.
    Unreachable,
    /// The provider answered; `body` is the parsed profile, absent where the
    /// body was not a profile.
    Answered { status: u16, body: Option<CasdoorUser> },
}

/// The pieces of `text` between its commas, in order. A text without a comma
/// is one piece; a comma at either end gives an empty piece there.
pub open spec fn split_commas(text: Seq<char>) -> Seq<Seq<char>>
    decreases text.len(),
{
    if text.len() == 0 {
        seq![Seq::<char>::empty()]
    } else {
        let before = split_commas(text.drop_last());
        if text.last() == ',' {
            before.push(Seq::<char>::empty())
        } else {
            before.drop_last().push(before.last().push(text.last()))
        }
    }
}

/// The pieces of every text of `texts`, in order.
pub open spec fn split_all(texts: Seq<Seq<char>>) -> Seq<Seq<char>>
    decreases texts.len(),
{
    if texts.len() == 0 {
        Seq::<Seq<char>>::empty()
    } else {
        split_all(texts.drop_last()) + split_commas(texts.last())
    }
}

/// `pieces` joined by single commas.
pub open spec fn join_commas(pieces: Seq<Seq<char>>) -> Seq<char>
    decreases pieces.len(),
{
    if pieces.len() == 0 {
        Seq::<char>::empty()
    } else if pieces.len() == 1 {
        pieces[0]
    } else {
        join_commas(pieces.drop_last()) + seq![','] + pieces.last()
    }
}

/// Splitting loses nothing: there is at least one piece, no piece holds a
/// comma, and the pieces joined by commas give the text back.
pub proof fn lemma_split_commas(text: Seq<char>)
    ensures
        split_commas(text).len() >= 1,
        forall|i: int, j: int|
            0 <= i < split_commas(text).len() && 0 <= j < split_commas(text)[i].len()
                ==> split_commas(text)[i][j] != ',',
        join_commas(split_commas(text)) == text,
    decreases text.len(),
{
    if text.len() == 0 {
        assert(join_commas(split_commas(text)) =~= text);
    } else {
        let init = text.drop_last();
        let before = split_commas(init);
        lemma_split_commas(init);
        let after = split_commas(text);
        if text.last() == ',' {
            assert(after.drop_last() =~= before);
            assert(join_commas(after) =~= init + seq![','] + Seq::<char>::empty());
            assert(init + seq![','] + Seq::<char>::empty() =~= text);
            assert forall|i: int, j: int|
                0 <= i < after.len() && 0 <= j < after[i].len() implies after[i][j] != ',' by {
                if i < before.len() {
                    assert(after[i] == before[i]);
                }
            }
        } else {
            let grown = before.last().push(text.last());
            assert forall|i: int, j: int|
                0 <= i < after.len() && 0 <= j < after[i].len() implies after[i][j] != ',' by {
                if i < before.len() - 1 {
                    assert(after[i] == before[i]);
                } else if j < before.last().len() {
                    assert(after[i][j] == before[before.len() - 1][j]);
                }
            }
            if before.len() == 1 {
                assert(join_commas(before) == before[0]);
                assert(before[0] == init);
                assert(after[0] =~= text);
            } else {
                assert(after.drop_last() =~= before.drop_last());
                assert(join_commas(before) == join_commas(before.drop_last()) + seq![',']
                    + before.last());
                assert(join_commas(after) == join_commas(before.drop_last()) + seq![','] + grown);
                assert(join_commas(after) =~= join_commas(before).push(text.last()));
                assert(init.push(text.last()) =~= text);
            }
        }
    }
}

/// The pieces of `text` between its commas.
pub fn split_scope(text: &str) -> (pieces: Vec<String>)
    ensures
        pieces.deep_view() == split_commas(text@),
{
    let n: usize = text.unicode_len();
    let mut pieces: Vec<String> = Vec::new();
    let mut start: usize = 0;
    let mut i: usize = 0;
    assert(text@.subrange(0, 0) =~= Seq::<char>::empty());
    assert(pieces.deep_view().push(text@.subrange(0, 0)) =~= split_commas(text@.subrange(0, 0)));
    while i < n
        invariant
            n == text@.len(),
            start <= i <= n,
            pieces.deep_view().push(text@.subrange(start as int, i as int)) == split_commas(
                text@.subrange(0, i as int),
            ),
        decreases n - i,
    {
        let ghost done = pieces.deep_view();
        let ghost prefix = text@.subrange(0, i as int);
        let ghost longer = text@.subrange(0, i + 1);
        let ghost current = text@.subrange(start as int, i as int);
        proof {
            assert(longer.drop_last() =~= prefix);
            assert(longer.last() == text@[i as int]);
        }
        if text.get_char(i) == ',' {
            let piece = text.substring_char(start, i).to_owned();
            pieces.push(piece);
            start = i + 1;
            proof {
                assert(pieces.deep_view() =~= done.push(current));
                assert(text@.subrange(start as int, i + 1) =~= Seq::<char>::empty());
            }
        } else {
            proof {
                assert(done.push(current).drop_last() =~= done);
                assert(text@.subrange(start as int, i + 1) =~= current.push(text@[i as int]));
            }
        }
        i += 1;
    }
    let last = text.substring_char(start, n).to_owned();
    proof {
        assert(pieces.deep_view().push(last@) =~= split_commas(text@.subrange(0, n as int)));
        assert(text@.subrange(0, n as int) =~= text@);
    }
    let ghost done = pieces.deep_view();
    pieces.push(last);
    assert(pieces.deep_view() =~= done.push(last@));
    pieces
}

/// The scopes a grant names, as the set members they stand for.
pub open spec fn scopes_of(scopes: Option<Vec<String>>) -> Seq<Seq<char>> {
    match scopes {
        Some(listed) => split_all(listed.deep_view()),
        None => Seq::<Seq<char>>::empty(),
    }
}

impl TokenGrant {
    /// The granted scopes, with every comma-joined entry split into its
    /// members. A grant that lists no scopes has none.
    pub fn granted_scopes(&self) -> (scopes: Vec<String>)
        ensures
            scopes.deep_view() == scopes_of(self.scopes),
    {
        let mut all: Vec<String> = Vec::new();
        match &self.scopes {
            Some(listed) => {
                let mut i: usize = 0;
                assert(listed.deep_view().subrange(0, 0) =~= Seq::<Seq<char>>::empty());
                assert(all.deep_view() =~= Seq::<Seq<char>>::empty());
                while i < listed.len()
                    invariant
                        i <= listed@.len(),
                        all.deep_view() == split_all(listed.deep_view().subrange(0, i as int)),
                    decreases listed@.len() - i,
                {
                    let ghost before = all.deep_view();
                    let mut pieces = split_scope(listed[i].as_str());
                    let ghost added = pieces.deep_view();
                    all.append(&mut pieces);
                    proof {
                        let longer = listed.deep_view().subrange(0, i + 1);
                        assert(longer.drop_last() =~= listed.deep_view().subrange(0, i as int));
                        assert(longer.last() == listed@[i as int]@);
                        assert(all.deep_view() =~= before + added);
                    }
                    i += 1;
                }
                assert(listed.deep_view().subrange(0, listed@.len() as int) =~= listed.deep_view());
            },
            None => {
                assert(all.deep_view() =~= Seq::<Seq<char>>::empty());
            },
        }
        all
    }
}

/// What the code exchange comes to: the grant where the provider issued a
/// bearer credential, otherwise the failure it stands for.
pub open spec fn token_outcome(exchange: TokenExchange) -> Result<TokenGrant, LoginError> {
    match exchange {
        TokenExchange::Granted(grant) => match grant.token_kind {
            TokenKind::Bearer => Ok(grant),
            _ => Err(LoginError::UnsupportedTokenType),
        },
        TokenExchange::ServerResponse(message) => Err(LoginError::ProviderRejected(message)),
        TokenExchange::Request => Err(LoginError::ProviderUnreachable),
        TokenExchange::Parse => Err(LoginError::MalformedResponse),
        TokenExchange::Other => Err(LoginError::MalformedResponse),
    }
}

/// Classifies the answer to the code exchange.
pub fn check_token(exchange: TokenExchange) -> (checked: Result<TokenGrant, LoginError>)
    ensures
        checked == token_outcome(exchange),
{
    match exchange {
        TokenExchange::Granted(grant) => {
            let bearer = match &grant.token_kind {
                TokenKind::Bearer => true,
                _ => false,
            };
            if bearer {
                Ok(grant)
            } else {
                Err(LoginError::UnsupportedTokenType)
            }
        },
        TokenExchange::ServerResponse(message) => Err(LoginError::ProviderRejected(message)),
        TokenExchange::Request => Err(LoginError::ProviderUnreachable),
        TokenExchange::Parse => Err(LoginError::MalformedResponse),
        TokenExchange::Other => Err(LoginError::MalformedResponse),
    }
}

/// The `Authorization` header that presents a bearer credential.
pub fn bearer_header(access_token: &str) -> (header: String)
    ensures
        header@ == "Bearer "@ + access_token@,
{
    String::from_str("Bearer ").concat(access_token)
}

/// What the profile request comes to: the profile for a 200 with a readable
/// body, otherwise the failure the answer stands for.
pub open spec fn profile_outcome(reply: ProfileReply) -> Result<CasdoorUser, LoginError> {
    match reply {
        ProfileReply::Unreachable => Err(LoginError::ProviderUnreachable),
        ProfileReply::Answered { status, body } => if status == 200 {
            match body {
                Some(user) => Ok(user),
                None => Err(LoginError::MalformedResponse),
            }
        } else if status == 401 {
            Err(LoginError::Unauthorized)
        } else {
            Err(LoginError::ProviderUnreachable)
        },
    }
}

/// Classifies the answer to the profile request.
pub fn check_profile(reply: ProfileReply) -> (checked: Result<CasdoorUser, LoginError>)
    ensures
        checked == profile_outcome(reply),
{
    match reply {
        ProfileReply::Unreachable => Err(LoginError::ProviderUnreachable),
        ProfileReply::Answered { status, body } => {
            if status == 200 {
                match body {
                    Some(user) => Ok(user),
                    None => Err(LoginError::MalformedResponse),
                }
            } else if status == 401 {
                Err(LoginError::Unauthorized)
            } else {
                Err(LoginError::ProviderUnreachable)
            }
        },
    }
}

} // verus!
