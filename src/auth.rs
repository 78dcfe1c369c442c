use vstd::prelude::*;
use crate::error::ErrorCode;
use crate::state::{Config, Key};

verus! {

/// A session capability that the authorization service has already checked:
/// `signer` may act on behalf of `authority`.
#[derive(Clone, Copy, Debug, PartialEq, Eq)]
pub struct SessionGrant {
    pub signer: Key,
    pub authority: Key,
}

/// How a deployment authorizes trades; chosen once per deployment.
#[derive(Clone, Copy, Debug, PartialEq, Eq, Structural)]
pub enum AuthorizationPolicy {
    /// The administrator co-signs trades and is the mint authority of every
    /// position; the configuration is committed to the relocation bridge after
    /// buys and claims. No session capability is accepted.
    AdminMediated,
    /// Each trader is the mint authority of their own positions and may act
    /// through a session capability.
    SessionDelegated,
}

/// The signatures that came with an operation.
#[derive(Clone, Copy, Debug)]
pub struct Signers {
    /// The key that signed the operation.
    pub trader: Key,
    /// The administrator's co-signature, if any.
    pub admin_cosigner: Option<Key>,
    /// A checked session capability, if the signer acts through one.
    pub session: Option<SessionGrant>,
}

/// The owner identity on whose behalf the signer acts, if the policy lets it act.
pub open spec fn acting_owner(policy: AuthorizationPolicy, s: Signers) -> Option<Key> {
    match s.session {
        None => Some(s.trader),
        Some(g) => if policy == AuthorizationPolicy::SessionDelegated && g.signer == s.trader {
            Some(g.authority)
        } else {
            None
        },
    }
}

/// Whether the administrator's co-signature is present where the policy demands it.
pub open spec fn cosigned(policy: AuthorizationPolicy, config: Config, s: Signers) -> bool {
    policy == AuthorizationPolicy::SessionDelegated || s.admin_cosigner == Some(config.admin)
}

/// The owner identity a trade acts for, if the trade is authorized at all.
pub open spec fn trade_owner(policy: AuthorizationPolicy, config: Config, s: Signers) -> Option<Key> {
    if cosigned(policy, config, s) {
        acting_owner(policy, s)
    } else {
        None
    }
}

/// Who may mint units of a position held by `owner`.
pub open spec fn mint_authority(policy: AuthorizationPolicy, config: Config, owner: Key) -> Key {
    match policy {
        AuthorizationPolicy::AdminMediated => config.admin,
        AuthorizationPolicy::SessionDelegated => owner,
    }
}

/// Whether the policy hands the configuration to the relocation bridge after a change.
pub open spec fn commits_config(policy: AuthorizationPolicy) -> bool {
    policy == AuthorizationPolicy::AdminMediated
}

/// The owner identity on whose behalf the signer acts, or `Unauthorized`.
pub fn resolve_actor(policy: AuthorizationPolicy, s: &Signers) -> (r: Result<Key, ErrorCode>)
    ensures
        r == (match acting_owner(policy, *s) {
            Some(k) => Ok::<Key, ErrorCode>(k),
            None => Err(ErrorCode::Unauthorized),
        }),
{
    match s.session {
        None => Ok(s.trader),
        Some(g) => {
            if policy == AuthorizationPolicy::SessionDelegated && g.signer == s.trader {
                Ok(g.authority)
            } else {
                Err(ErrorCode::Unauthorized)
            }
        },
    }
}

/// The owner identity a trade acts for, or `Unauthorized`.
pub fn authorize_trade(policy: AuthorizationPolicy, config: &Config, s: &Signers) -> (r: Result<
    Key,
    ErrorCode,
>)
    ensures
        r == (match trade_owner(policy, *config, *s) {
            Some(k) => Ok::<Key, ErrorCode>(k),
            None => Err(ErrorCode::Unauthorized),
        }),
{
    let needs_cosigner = match policy {
        AuthorizationPolicy::AdminMediated => true,
        AuthorizationPolicy::SessionDelegated => false,
    };
    if needs_cosigner {
        match s.admin_cosigner {
            Some(a) => {
                if a != config.admin {
                    return Err(ErrorCode::Unauthorized);
                }
            },
            None => {
                return Err(ErrorCode::Unauthorized);
            },
        }
    }
    resolve_actor(policy, s)
}

/// The mint authority of a position held by `owner`.
pub fn position_mint_authority(policy: AuthorizationPolicy, config: &Config, owner: Key) -> (r: Key)
    ensures
        r == mint_authority(policy, *config, owner),
{
    match policy {
        AuthorizationPolicy::AdminMediated => config.admin,
        AuthorizationPolicy::SessionDelegated => owner,
    }
}

} // verus!
