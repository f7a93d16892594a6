//! Choosing a credential for a challenge of the remote. The strategies are
//! tried in a fixed order, and the first whose kind the challenge accepts is
//! the one attempted: there is no second attempt with another strategy.

use vstd::prelude::*;
use vstd::string::*;
use crate::error::{GitError, GitErrorView};

verus! {

/// The kinds of credential that a challenge accepts.
#[derive(Clone, Copy, Debug, PartialEq, Eq, Structural)]
pub struct CredentialOffer {
    /// The ambient credential of the operating system.
    pub default: bool,
    /// A public key held by an SSH agent.
    pub ssh_key: bool,
    /// A user name with a password in plain text.
    pub user_pass_plaintext: bool,
}

/// A way to obtain a credential.
#[derive(Clone, Copy, Debug, PartialEq, Eq, Structural)]
pub enum CredentialStrategy {
    /// The ambient credential of the operating system.
    Ambient,
    /// A key from the SSH agent.
    SshAgent,
    /// A lookup through the configured credential helper.
    Helper,
}

/// The strategies in the order in which they are considered.
pub open spec fn strategy_order() -> Seq<CredentialStrategy> {
    seq![CredentialStrategy::Ambient, CredentialStrategy::SshAgent, CredentialStrategy::Helper]
}

/// Whether `offer` accepts the kind of credential that `strategy` yields.
pub open spec fn offer_accepts(offer: CredentialOffer, strategy: CredentialStrategy) -> bool {
    match strategy {
        CredentialStrategy::Ambient => offer.default,
        CredentialStrategy::SshAgent => offer.ssh_key,
        CredentialStrategy::Helper => offer.user_pass_plaintext,
    }
}

/// `chosen` is the first strategy in order that `offer` accepts, or nothing
/// where it accepts none.
pub open spec fn is_first_accepted(
    offer: CredentialOffer,
    chosen: Option<CredentialStrategy>,
) -> bool {
    match chosen {
        Some(strategy) => exists|i: int|
            {
                &&& 0 <= i < strategy_order().len()
                &&& #[trigger] strategy_order()[i] == strategy
                &&& offer_accepts(offer, strategy)
                &&& forall|j: int| 0 <= j < i ==> !offer_accepts(offer, #[trigger] strategy_order()[j])
            },
        None => forall|j: int|
            0 <= j < strategy_order().len() ==> !offer_accepts(offer, #[trigger] strategy_order()[j]),
    }
}

/// The user name presented to the SSH agent.
pub open spec fn agent_user(from_url: Option<Seq<char>>) -> Seq<char> {
    match from_url {
        Some(name) => name,
        None => "git"@,
    }
}

/// The text of the failure of a negotiation.
pub open spec fn no_method_text() -> Seq<char> {
    "No authentication method available"@
}

/// The strategies in the order in which they are considered.
pub fn strategies() -> (v: Vec<CredentialStrategy>)
    ensures
        v@ == strategy_order(),
{
    let mut v: Vec<CredentialStrategy> = Vec::new();
    v.push(CredentialStrategy::Ambient);
    v.push(CredentialStrategy::SshAgent);
    v.push(CredentialStrategy::Helper);
    proof {
        assert(v@ =~= strategy_order());
    }
    v
}

fn accepts(offer: CredentialOffer, strategy: CredentialStrategy) -> (r: bool)
    ensures
        r == offer_accepts(offer, strategy),
{
    match strategy {
        CredentialStrategy::Ambient => offer.default,
        CredentialStrategy::SshAgent => offer.ssh_key,
        CredentialStrategy::Helper => offer.user_pass_plaintext,
    }
}

/// The strategy to attempt for a challenge: the first in order whose kind the
/// challenge accepts.
pub fn choose_strategy(offer: CredentialOffer) -> (chosen: Option<CredentialStrategy>)
    ensures
        is_first_accepted(offer, chosen),
        chosen == (if offer.default {
            Some(CredentialStrategy::Ambient)
        } else if offer.ssh_key {
            Some(CredentialStrategy::SshAgent)
        } else if offer.user_pass_plaintext {
            Some(CredentialStrategy::Helper)
        } else {
            None
        }),
{
    let order = strategies();
    let mut i: usize = 0;
    while i < order.len()
        invariant
            i <= order.len(),
            order@ == strategy_order(),
            forall|j: int| 0 <= j < i ==> !offer_accepts(offer, #[trigger] strategy_order()[j]),
        decreases order.len() - i,
    {
        let strategy = order[i];
        if accepts(offer, strategy) {
            assert(strategy_order()[i as int] == strategy);
            return Some(strategy);
        }
        i += 1;
    }
    proof {
        assert(!offer_accepts(offer, strategy_order()[0]));
        assert(!offer_accepts(offer, strategy_order()[1]));
        assert(!offer_accepts(offer, strategy_order()[2]));
    }
    None
}

/// The user name to present to the SSH agent: the one in the URL, or `git`.
pub fn ssh_username(from_url: Option<&str>) -> (r: String)
    ensures
        r@ == agent_user(
            match from_url {
                Some(name) => Some(name@),
                None => None,
            },
        ),
{
    match from_url {
        Some(name) => name.to_owned(),
        None => "git".to_owned(),
    }
}

/// The text handed to the remote when no credential can be offered.
pub fn no_method_message() -> (r: String)
    ensures
        r@ == no_method_text(),
{
    "No authentication method available".to_owned()
}

/// How a negotiation ends: it succeeds exactly when a strategy was chosen
/// and its one attempt yielded a credential.
pub fn conclude_negotiation(
    chosen: Option<CredentialStrategy>,
    attempt_succeeded: bool,
    url: &str,
) -> (r: Result<CredentialStrategy, GitError>)
    ensures
        match r {
            Ok(strategy) => chosen == Some(strategy) && attempt_succeeded,
            Err(e) => (chosen is None || !attempt_succeeded) && e@
                == (GitErrorView::AuthenticationExhausted {
                detail: no_method_text(),
                url: url@,
                refspec: Seq::empty(),
            }),
        },
{
    match chosen {
        Some(strategy) => {
            if attempt_succeeded {
                return Ok(strategy);
            }
        },
        None => {},
    }
    Err(
        GitError::AuthenticationExhausted {
            detail: no_method_message(),
            url: url.to_owned(),
            refspec: String::new(),
        },
    )
}

} // verus!
