use vstd::prelude::*;
use crate::config::BearerTokenConfig;

verus! {

/// The authorization check: a fixed set of accepted bearer tokens.
pub struct BearerTokenProvider {
    // A vector rather than a `HashSet<String>`: vstd's specification of
    // `HashSet::contains` holds only for key types whose hashing it models,
    // and `String` is not one, so a lookup there could not be proved. The
    // scan is linear in the number of configured tokens, which is small.
    bearer_tokens: Vec<String>,
}

/// Why the credential source could not be used.
pub enum ConfigError {
    /// The source could not be read.
    Unreadable,
    /// The source was read but does not hold a token list.
    Malformed,
}

impl View for BearerTokenProvider {
    type V = Set<Seq<char>>;

    closed spec fn view(&self) -> Set<Seq<char>> {
        self.bearer_tokens@.map_values(|t: String| t@).to_set()
    }
}

/// A token provider built from a credential source accepts a token exactly when the
/// source lists it.
pub proof fn lemma_allower_accepts_listed(g: BearerTokenProvider, cfg: BearerTokenConfig, t: Seq<char>)
    requires
        g@ == cfg.tokens().to_set(),
    ensures
        g@.contains(t) <==> exists|i: int|
            0 <= i < cfg.items@.len() && #[trigger] cfg.items@[i].bearer_token@ == t,
{
    if g@.contains(t) {
        let i = choose|i: int| 0 <= i < cfg.tokens().len() && cfg.tokens()[i] == t;
        assert(cfg.items@[i].bearer_token@ == t);
    }
    if exists|i: int| 0 <= i < cfg.items@.len() && #[trigger] cfg.items@[i].bearer_token@ == t {
        let i = choose|i: int| 0 <= i < cfg.items@.len() && #[trigger] cfg.items@[i].bearer_token@ == t;
        assert(cfg.tokens()[i] == t);
    }
}

impl BearerTokenProvider {
    /// Builds the token provider from the outcome of reading the credential source:
    /// no source disables authorization, a read source yields a provider that accepts
    /// exactly its tokens, and a failed read is passed on.
    pub fn new(source: Option<Result<BearerTokenConfig, ConfigError>>) -> (r: Result<
        Option<Self>,
        ConfigError,
    >)
        ensures
            source is None <==> r == Ok::<Option<Self>, ConfigError>(None),
            match source {
                None => true,
                Some(Ok(cfg)) => r matches Ok(Some(g)) && g@ == cfg.tokens().to_set(),
                Some(Err(e)) => r == Err::<Option<Self>, ConfigError>(e),
            },
    {
        match source {
            None => Ok(None),
            Some(Err(e)) => Err(e),
            Some(Ok(cfg)) => {
                let mut bearer_tokens: Vec<String> = Vec::new();
                let mut i: usize = 0;
                while i < cfg.items.len()
                    invariant
                        i <= cfg.items@.len(),
                        bearer_tokens@.map_values(|t: String| t@) =~= cfg.tokens().take(i as int),
                    decreases cfg.items@.len() - i,
                {
                    bearer_tokens.push(cfg.items[i].bearer_token.clone());
                    i = i + 1;
                    proof {
                        assert(cfg.tokens().take(i as int) =~= cfg.tokens().take(i - 1).push(
                            cfg.items@[i - 1].bearer_token@,
                        ));
                    }
                }
                proof {
                    assert(cfg.tokens().take(i as int) =~= cfg.tokens());
                }
                Ok(Some(BearerTokenProvider { bearer_tokens }))
            },
        }
    }

    /// Whether `key` is one of the accepted tokens (exact, case-sensitive).
    pub fn allowed(&self, key: &String) -> (r: bool)
        ensures
            r == self@.contains(key@),
    {
        let mut i: usize = 0;
        while i < self.bearer_tokens.len()
            invariant
                i <= self.bearer_tokens@.len(),
                forall|j: int| 0 <= j < i ==> self.bearer_tokens@[j]@ != key@,
            decreases self.bearer_tokens@.len() - i,
        {
            if self.bearer_tokens[i] == *key {
                proof {
                    let s = self.bearer_tokens@.map_values(|t: String| t@);
                    assert(s[i as int] == key@);
                }
                return true;
            }
            i = i + 1;
        }
        proof {
            let s = self.bearer_tokens@.map_values(|t: String| t@);
            if s.to_set().contains(key@) {
                let j = choose|j: int| 0 <= j < s.len() && s[j] == key@;
            }
        }
        false
    }
}

} // verus!
