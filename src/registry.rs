use vstd::prelude::*;

use crate::accounts::{RegisterAgent, UpdateAgent};
use crate::events::{AgentActivated, AgentDeactivated, AgentRegistered, AgentUpdated};
use crate::ledger::{opt_strings_view, opt_view, patched, Ledger, LedgerView};
use crate::types::{strings_view, AgentProfile, AgentStatus, ProfileView, Pubkey, RegistryError};
use crate::validation::{
    copy_strings, registration_error, update_error, validate_capabilities, validate_metadata_uri,
    validate_name, validate_pricing,
};

verus! {

/// A newly registered profile: active, with every counter at zero.
pub open spec fn fresh_profile(
    owner: Pubkey,
    name: Seq<char>,
    capabilities: Seq<Seq<char>>,
    pricing_lamports: u64,
    metadata_uri: Seq<char>,
) -> ProfileView {
    ProfileView {
        owner,
        name,
        capabilities,
        pricing_lamports,
        status: AgentStatus::Active,
        reputation_score: 0,
        tasks_completed: 0,
        total_ratings: 0,
        rating_sum: 0,
        metadata_uri,
    }
}

/// Why a registration fails, if it does: the owner's profile address is
/// taken, or a field breaks its constraint.
pub open spec fn register_error(
    l: LedgerView,
    owner: Pubkey,
    name: Seq<char>,
    capabilities: Seq<Seq<char>>,
    pricing_lamports: u64,
    metadata_uri: Seq<char>,
) -> Option<RegistryError> {
    if l.profiles.contains_key(owner) {
        Some(RegistryError::AddressInUse)
    } else {
        registration_error(name, capabilities, pricing_lamports, metadata_uri)
    }
}

/// Why the signer `owner` may not change the profile `agent_profile`, if
/// that is so.
pub open spec fn owner_access_error(l: LedgerView, agent_profile: Pubkey, owner: Pubkey) -> Option<
    RegistryError,
> {
    if !l.profiles.contains_key(agent_profile) {
        Some(RegistryError::AccountNotFound)
    } else if agent_profile != owner {
        Some(RegistryError::Unauthorized)
    } else {
        None
    }
}

/// Why an update fails, if it does.
pub open spec fn update_agent_error(
    l: LedgerView,
    agent_profile: Pubkey,
    owner: Pubkey,
    name: Option<Seq<char>>,
    capabilities: Option<Seq<Seq<char>>>,
    pricing_lamports: Option<u64>,
    metadata_uri: Option<Seq<char>>,
) -> Option<RegistryError> {
    if owner_access_error(l, agent_profile, owner).is_some() {
        owner_access_error(l, agent_profile, owner)
    } else {
        update_error(name, capabilities, pricing_lamports, metadata_uri)
    }
}

/// `l` with the status of `owner`'s profile set to `status`.
pub open spec fn with_status(l: LedgerView, owner: Pubkey, status: AgentStatus) -> LedgerView {
    LedgerView {
        profiles: l.profiles.insert(owner, ProfileView { status, ..l.profiles[owner] }),
        ..l
    }
}

fn check_owner_access(ledger: &Ledger, ctx: &UpdateAgent) -> (r: Result<(), RegistryError>)
    requires
        ledger.wf(),
    ensures
        r.is_err() == owner_access_error(ledger@, ctx.agent_profile, ctx.owner).is_some(),
        r.is_err() ==> r == Err::<(), RegistryError>(
            owner_access_error(ledger@, ctx.agent_profile, ctx.owner).unwrap(),
        ),
{
    if ledger.profile(ctx.agent_profile).is_none() {
        return Err(RegistryError::AccountNotFound);
    }
    if ctx.agent_profile != ctx.owner {
        return Err(RegistryError::Unauthorized);
    }
    Ok(())
}

/// Registers a new agent profile at the address derived from the signer.
pub fn register_agent(
    ledger: &mut Ledger,
    ctx: &RegisterAgent,
    name: String,
    capabilities: Vec<String>,
    pricing_lamports: u64,
    metadata_uri: String,
) -> (r: Result<AgentRegistered, RegistryError>)
    requires
        old(ledger).wf(),
    ensures
        final(ledger).wf(),
        match r {
            Ok(ev) => {
                &&& register_error(
                    old(ledger)@,
                    ctx.owner,
                    name@,
                    strings_view(capabilities@),
                    pricing_lamports,
                    metadata_uri@,
                ).is_none()
                &&& final(ledger)@ == (LedgerView {
                    profiles: old(ledger)@.profiles.insert(
                        ctx.owner,
                        fresh_profile(
                            ctx.owner,
                            name@,
                            strings_view(capabilities@),
                            pricing_lamports,
                            metadata_uri@,
                        ),
                    ),
                    ..old(ledger)@
                })
                &&& ev.agent == ctx.owner && ev.owner == ctx.owner
                &&& ev.name@ == name@ && ev.capabilities@ == capabilities@
                &&& ev.pricing_lamports == pricing_lamports && ev.metadata_uri@ == metadata_uri@
            },
            Err(e) => {
                &&& register_error(
                    old(ledger)@,
                    ctx.owner,
                    name@,
                    strings_view(capabilities@),
                    pricing_lamports,
                    metadata_uri@,
                ) == Some(e)
                &&& final(ledger)@ == old(ledger)@
            },
        },
{
    if ledger.profile(ctx.owner).is_some() {
        return Err(RegistryError::AddressInUse);
    }
    if let Err(e) = validate_name(&name) {
        return Err(e);
    }
    if let Err(e) = validate_capabilities(&capabilities) {
        return Err(e);
    }
    if let Err(e) = validate_metadata_uri(&metadata_uri) {
        return Err(e);
    }
    if let Err(e) = validate_pricing(pricing_lamports) {
        return Err(e);
    }
    let event_capabilities = copy_strings(&capabilities);
    let profile = AgentProfile {
        owner: ctx.owner,
        name: name.clone(),
        capabilities,
        pricing_lamports,
        status: AgentStatus::Active,
        reputation_score: 0,
        tasks_completed: 0,
        total_ratings: 0,
        rating_sum: 0,
        metadata_uri: metadata_uri.clone(),
    };
    ledger.insert_profile(profile);
    Ok(
        AgentRegistered {
            agent: ctx.owner,
            owner: ctx.owner,
            name,
            capabilities: event_capabilities,
            pricing_lamports,
            metadata_uri,
        },
    )
}

/// Replaces each supplied field of the signer's profile, after checking it
/// as registration does; omitted fields are kept.
pub fn update_agent(
    ledger: &mut Ledger,
    ctx: &UpdateAgent,
    name: Option<String>,
    capabilities: Option<Vec<String>>,
    pricing_lamports: Option<u64>,
    metadata_uri: Option<String>,
) -> (r: Result<AgentUpdated, RegistryError>)
    requires
        old(ledger).wf(),
    ensures
        final(ledger).wf(),
        match r {
            Ok(ev) => {
                &&& update_agent_error(
                    old(ledger)@,
                    ctx.agent_profile,
                    ctx.owner,
                    opt_view(name),
                    opt_strings_view(capabilities),
                    pricing_lamports,
                    opt_view(metadata_uri),
                ).is_none()
                &&& final(ledger)@ == (LedgerView {
                    profiles: old(ledger)@.profiles.insert(
                        ctx.owner,
                        patched(
                            old(ledger)@.profiles[ctx.owner],
                            opt_view(name),
                            opt_strings_view(capabilities),
                            pricing_lamports,
                            opt_view(metadata_uri),
                        ),
                    ),
                    ..old(ledger)@
                })
                &&& ev.agent == ctx.owner && ev.owner == ctx.owner
            },
            Err(e) => {
                &&& update_agent_error(
                    old(ledger)@,
                    ctx.agent_profile,
                    ctx.owner,
                    opt_view(name),
                    opt_strings_view(capabilities),
                    pricing_lamports,
                    opt_view(metadata_uri),
                ) == Some(e)
                &&& final(ledger)@ == old(ledger)@
            },
        },
{
    if let Err(e) = check_owner_access(ledger, ctx) {
        return Err(e);
    }
    match &name {
        Some(n) => {
            if let Err(e) = validate_name(n) {
                return Err(e);
            }
        },
        None => {},
    }
    match &capabilities {
        Some(c) => {
            if let Err(e) = validate_capabilities(c) {
                return Err(e);
            }
        },
        None => {},
    }
    match pricing_lamports {
        Some(p) => {
            if let Err(e) = validate_pricing(p) {
                return Err(e);
            }
        },
        None => {},
    }
    match &metadata_uri {
        Some(u) => {
            if let Err(e) = validate_metadata_uri(u) {
                return Err(e);
            }
        },
        None => {},
    }
    ledger.update_profile(ctx.owner, name, capabilities, pricing_lamports, metadata_uri);
    Ok(AgentUpdated { agent: ctx.owner, owner: ctx.owner })
}

/// Marks the signer's profile inactive; calling it again still succeeds.
pub fn deactivate_agent(ledger: &mut Ledger, ctx: &UpdateAgent) -> (r: Result<
    AgentDeactivated,
    RegistryError,
>)
    requires
        old(ledger).wf(),
    ensures
        final(ledger).wf(),
        match r {
            Ok(ev) => {
                &&& owner_access_error(old(ledger)@, ctx.agent_profile, ctx.owner).is_none()
                &&& final(ledger)@ == with_status(old(ledger)@, ctx.owner, AgentStatus::Inactive)
                &&& ev.agent == ctx.owner && ev.owner == ctx.owner
            },
            Err(e) => {
                &&& owner_access_error(old(ledger)@, ctx.agent_profile, ctx.owner) == Some(e)
                &&& final(ledger)@ == old(ledger)@
            },
        },
{
    if let Err(e) = check_owner_access(ledger, ctx) {
        return Err(e);
    }
    ledger.set_profile_status(ctx.owner, AgentStatus::Inactive);
    Ok(AgentDeactivated { agent: ctx.owner, owner: ctx.owner })
}

/// Marks the signer's profile active again; calling it again still succeeds.
pub fn activate_agent(ledger: &mut Ledger, ctx: &UpdateAgent) -> (r: Result<
    AgentActivated,
    RegistryError,
>)
    requires
        old(ledger).wf(),
    ensures
        final(ledger).wf(),
        match r {
            Ok(ev) => {
                &&& owner_access_error(old(ledger)@, ctx.agent_profile, ctx.owner).is_none()
                &&& final(ledger)@ == with_status(old(ledger)@, ctx.owner, AgentStatus::Active)
                &&& ev.agent == ctx.owner && ev.owner == ctx.owner
            },
            Err(e) => {
                &&& owner_access_error(old(ledger)@, ctx.agent_profile, ctx.owner) == Some(e)
                &&& final(ledger)@ == old(ledger)@
            },
        },
{
    if let Err(e) = check_owner_access(ledger, ctx) {
        return Err(e);
    }
    ledger.set_profile_status(ctx.owner, AgentStatus::Active);
    Ok(AgentActivated { agent: ctx.owner, owner: ctx.owner })
}

} // verus!
