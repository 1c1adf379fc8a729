use vstd::prelude::*;
use crate::allowers::BearerTokenProvider;

verus! {

/// The scheme prefix of a bearer credential, space included.
pub open spec fn bearer_prefix() -> Seq<char> {
    seq!['B', 'e', 'a', 'r', 'e', 'r', ' ']
}

/// Whether an `Authorization` value starts with the bearer prefix.
pub open spec fn has_bearer_prefix(auth: Seq<char>) -> bool {
    auth.len() >= 7 && auth.take(7) == bearer_prefix()
}

/// Whether an `Authorization` value carries a token that the token provider accepts.
pub open spec fn credential_accepted(accepted: Set<Seq<char>>, auth: Option<Seq<char>>) -> bool {
    match auth {
        Some(a) => has_bearer_prefix(a) && accepted.contains(a.skip(7)),
        None => false,
    }
}

/// The token of a bearer credential: the value with the prefix `Bearer ` taken
/// off, or nothing where the value does not start with it.
pub fn bearer_token_of(auth: &str) -> (r: Option<String>)
    ensures
        r is Some <==> has_bearer_prefix(auth@),
        r matches Some(t) ==> t@ == auth@.skip(7),
{
    let n = auth.unicode_len();
    if n < 7 {
        return None;
    }
    let ok = auth.get_char(0) == 'B' && auth.get_char(1) == 'e' && auth.get_char(2) == 'a'
        && auth.get_char(3) == 'r' && auth.get_char(4) == 'e' && auth.get_char(5) == 'r'
        && auth.get_char(6) == ' ';
    proof {
        if ok {
            assert(auth@.take(7) =~= bearer_prefix());
        } else {
            if auth@.take(7) == bearer_prefix() {
                assert(auth@.take(7)[0] == 'B');
                assert(auth@.take(7)[1] == 'e');
                assert(auth@.take(7)[2] == 'a');
                assert(auth@.take(7)[3] == 'r');
                assert(auth@.take(7)[4] == 'e');
                assert(auth@.take(7)[5] == 'r');
                assert(auth@.take(7)[6] == ' ');
            }
        }
    }
    if !ok {
        return None;
    }
    let token = auth.substring_char(7, n);
    Some(token.to_owned())
}

/// The authorization check: the `Authorization` value, if any, must be
/// `Bearer <token>` with a token that the token provider accepts.
pub fn expect_valid_bearer_token(allower: &BearerTokenProvider, auth: Option<&str>) -> (r: bool)
    ensures
        r == credential_accepted(allower@, auth_view(auth)),
{
    match auth {
        None => false,
        Some(a) => match bearer_token_of(a) {
            None => false,
            Some(token) => allower.allowed(&token),
        },
    }
}

/// The default body size limit: 5 MiB.
pub const MAX_BODY_SIZE: usize = 5242880;

/// Why the pipeline turned a request away before the relay.
pub enum Rejection {
    /// The body is over the size limit.
    PayloadTooLarge,
    /// Authorization is on and the credential is missing or not accepted.
    Unauthorized,
}

impl Rejection {
    /// The HTTP status that reports this rejection.
    pub fn status(&self) -> (r: u16)
        ensures
            self is PayloadTooLarge ==> r == 413,
            self is Unauthorized ==> r == 401,
    {
        match self {
            Rejection::PayloadTooLarge => 413,
            Rejection::Unauthorized => 401,
        }
    }
}

/// The decision of the pipeline before the relay, given the tokens of the
/// token provider if one is configured.
pub open spec fn screening(
    accepted: Option<Set<Seq<char>>>,
    max_body_size: nat,
    body_len: nat,
    auth: Option<Seq<char>>,
) -> Result<(), Rejection> {
    if body_len > max_body_size {
        Err(Rejection::PayloadTooLarge)
    } else {
        match accepted {
            None => Ok(()),
            Some(a) => if credential_accepted(a, auth) {
                Ok(())
            } else {
                Err(Rejection::Unauthorized)
            },
        }
    }
}

/// The view of an optional token provider: its accepted tokens.
pub open spec fn allower_view(allower: Option<BearerTokenProvider>) -> Option<Set<Seq<char>>> {
    match allower {
        Some(g) => Some(g@),
        None => None,
    }
}

/// The view of an optional `Authorization` value.
pub open spec fn auth_view(auth: Option<&str>) -> Option<Seq<char>> {
    match auth {
        Some(a) => Some(a@),
        None => None,
    }
}

/// Without a token provider, every request within the size limit passes the
/// authorization stage, whatever it carries.
pub proof fn lemma_no_allower_no_auth(max_body_size: nat, body_len: nat, auth: Option<Seq<char>>)
    requires
        body_len <= max_body_size,
    ensures
        screening(None, max_body_size, body_len, auth) is Ok,
{
}

/// A body over the limit is turned away before the relay, whatever the tokens
/// and the credential; a request that goes on has a body within the limit.
pub proof fn lemma_size_limit_first(
    accepted: Option<Set<Seq<char>>>,
    max_body_size: nat,
    body_len: nat,
    auth: Option<Seq<char>>,
)
    ensures
        body_len > max_body_size ==> screening(accepted, max_body_size, body_len, auth) == Err::<
            (),
            Rejection,
        >(Rejection::PayloadTooLarge),
        screening(accepted, max_body_size, body_len, auth) is Ok ==> body_len <= max_body_size,
{
}

/// With a token provider, a request within the limit goes on exactly when it carries
/// `Bearer <t>` with `t` one of its tokens.
pub proof fn lemma_allower_decides(
    accepted: Set<Seq<char>>,
    max_body_size: nat,
    body_len: nat,
    auth: Option<Seq<char>>,
)
    requires
        body_len <= max_body_size,
    ensures
        screening(Some(accepted), max_body_size, body_len, auth) is Ok <==> (auth matches Some(a)
            && has_bearer_prefix(a) && accepted.contains(a.skip(7))),
{
}

/// The pipeline's decision before the relay: the size limit first, then the
/// token check if one is configured. `Ok` means the request goes on to the relay.
pub fn screen_request(
    allower: &Option<BearerTokenProvider>,
    max_body_size: usize,
    body_len: usize,
    auth: Option<&str>,
) -> (r: Result<(), Rejection>)
    ensures
        r == screening(allower_view(*allower), max_body_size as nat, body_len as nat, auth_view(auth)),
{
    if body_len > max_body_size {
        return Err(Rejection::PayloadTooLarge);
    }
    match allower {
        None => Ok(()),
        Some(g) => {
            if expect_valid_bearer_token(g, auth) {
                Ok(())
            } else {
                Err(Rejection::Unauthorized)
            }
        },
    }
}

} // verus!
