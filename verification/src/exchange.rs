//! Building signed exchange requests: the compute half of submitting an
//! action. Each builder assembles the action value, signs it under the right
//! protocol, and returns everything the transport needs to post; the post
//! itself happens outside this core.

use vstd::prelude::*;

use crate::action::{
    action_encodable, Action, BuilderInfo, OrderGrouping, OrderPayload, OrderRequest,
    UpdateLeveragePayload,
};
use crate::errors::CoreError;
use crate::hasher::action_digest;
use crate::signing::{ecdsa_sign, scalar_ok, sig_matches, Chain, ExplicitSigner, Identity,
    ImplicitSigner, SignatureValue};
use crate::typed_data::{
    approve_agent_struct_hash, approve_builder_fee_struct_hash, explicit_signing_hash,
    implicit_signing_hash, ApproveAgent, ApproveBuilderFee,
};

verus! {

/// The view of an optional owned address.
pub open spec fn opt_addr_view(v: Option<[u8; 20]>) -> Option<Seq<u8>> {
    match v {
        None => None,
        Some(a) => Some(a@),
    }
}

/// A signed action ready for submission: the action itself, its nonce, the
/// produced signature, and the optional vault the action is attributed to.
pub struct SignedAction {
    pub action: Action,
    pub nonce: u64,
    pub signature: SignatureValue,
    pub vault_address: Option<[u8; 20]>,
}

/// Whether a signed action's signature is the implicit-scheme signature of
/// exactly its own action, nonce and vault attribution, under `key`.
pub open spec fn implicitly_signed(req: SignedAction, key: Seq<u8>, chain: Chain) -> bool {
    &&& sig_matches(
        req.signature,
        ecdsa_sign(
            key,
            implicit_signing_hash(
                chain.source_label(),
                action_digest(req.action, req.nonce, opt_addr_view(req.vault_address)),
            ),
        ),
    )
    &&& (req.signature.v == 27 || req.signature.v == 28)
    &&& req.signature.r@.len() == 66
    &&& req.signature.s@.len() == 66
}

/// Build and sign an order action: the orders, their grouping, and the
/// optional builder-fee attribution, hashed with the nonce and vault flag and
/// signed under the implicit scheme. The transport posts the result.
pub fn place_order_with_builder(
    signer: &Identity,
    orders: Vec<OrderRequest>,
    grouping: OrderGrouping,
    builder: Option<BuilderInfo>,
    nonce: u64,
    chain: Chain,
    vault_address: Option<[u8; 20]>,
) -> (r: Result<SignedAction, CoreError>)
    ensures
        r is Ok <==> signer.spec_has_key() && action_encodable(
            Action::Order(OrderPayload { orders, grouping, builder }),
        ) && scalar_ok(signer.spec_key()),
        !signer.spec_has_key() <==> (r matches Err(e) && e is Capability),
        r matches Ok(req) ==> {
            &&& req.action == Action::Order(OrderPayload { orders, grouping, builder })
            &&& req.nonce == nonce
            &&& req.vault_address == vault_address
            &&& implicitly_signed(req, signer.spec_key(), chain)
        },
{
    let action = Action::Order(OrderPayload { orders, grouping, builder });
    let signature = match ImplicitSigner::sign(signer, &action, nonce, chain, vault_address.as_ref()) {
        Ok(s) => s,
        Err(e) => {
            return Err(e);
        },
    };
    Ok(SignedAction { action, nonce, signature, vault_address })
}

/// Build and sign a leverage update for an asset, hashed with the nonce and
/// vault flag and signed under the implicit scheme.
pub fn update_leverage(
    signer: &Identity,
    asset: usize,
    is_cross: bool,
    leverage: u32,
    nonce: u64,
    chain: Chain,
    vault_address: Option<[u8; 20]>,
) -> (r: Result<SignedAction, CoreError>)
    ensures
        r is Ok <==> signer.spec_has_key() && scalar_ok(signer.spec_key()),
        !signer.spec_has_key() <==> (r matches Err(e) && e is Capability),
        r matches Ok(req) ==> {
            &&& req.action == Action::UpdateLeverage(
                UpdateLeveragePayload { asset, is_cross, leverage },
            )
            &&& req.nonce == nonce
            &&& req.vault_address == vault_address
            &&& implicitly_signed(req, signer.spec_key(), chain)
        },
        !(r matches Err(e) && e is Serialization),
{
    let action = Action::UpdateLeverage(UpdateLeveragePayload { asset, is_cross, leverage });
    assert(action_encodable(action));
    let signature = match ImplicitSigner::sign(signer, &action, nonce, chain, vault_address.as_ref()) {
        Ok(s) => s,
        Err(e) => {
            return Err(e);
        },
    };
    Ok(SignedAction { action, nonce, signature, vault_address })
}

/// A signed identity-level approval ready for submission.
pub struct SignedApproval {
    pub action: Action,
    pub nonce: u64,
    pub signature: SignatureValue,
}

/// Build and sign a builder-fee approval for the chain's label, under the
/// explicit typed-data scheme, with the durable identity.
pub fn approve_builder_fee(
    signer: &Identity,
    chain: Chain,
    builder_address: [u8; 20],
    max_fee_rate: String,
    nonce: u64,
) -> (r: Result<SignedApproval, CoreError>)
    ensures
        r is Ok <==> signer.spec_has_key() && scalar_ok(signer.spec_key()),
        !signer.spec_has_key() <==> (r matches Err(e) && e is Capability),
        r matches Ok(req) ==> {
            &&& req.action matches Action::ApproveBuilderFee(a) && a.chain_label@
                == chain.spec_label() && a.max_fee_rate == max_fee_rate && a.builder@
                == builder_address@ && a.nonce == nonce && sig_matches(
                req.signature,
                ecdsa_sign(
                    signer.spec_key(),
                    explicit_signing_hash(approve_builder_fee_struct_hash(a)),
                ),
            )
            &&& req.nonce == nonce
            &&& (req.signature.v == 27 || req.signature.v == 28)
            &&& req.signature.r@.len() == 66
            &&& req.signature.s@.len() == 66
        },
{
    let label = chain.label();
    let mut chain_label = String::new();
    chain_label.append(label);
    proof {
        assert(chain_label@ =~= chain.spec_label());
    }
    let approval = ApproveBuilderFee {
        chain_label,
        max_fee_rate,
        builder: builder_address,
        nonce,
    };
    let signature = match ExplicitSigner::sign_builder_fee(signer, &approval) {
        Ok(s) => s,
        Err(e) => {
            return Err(e);
        },
    };
    Ok(SignedApproval { action: Action::ApproveBuilderFee(approval), nonce, signature })
}

/// Build and sign an agent approval binding a fresh agent address, under its
/// label, to the durable identity.
pub fn approve_agent(
    signer: &Identity,
    chain: Chain,
    agent_address: [u8; 20],
    agent_name: String,
    nonce: u64,
) -> (r: Result<SignedApproval, CoreError>)
    ensures
        r is Ok <==> signer.spec_has_key() && scalar_ok(signer.spec_key()),
        !signer.spec_has_key() <==> (r matches Err(e) && e is Capability),
        r matches Ok(req) ==> {
            &&& req.action matches Action::ApproveAgent(a) && a.chain_label@ == chain.spec_label()
                && a.agent_address@ == agent_address@ && a.agent_name == agent_name && a.nonce
                == nonce && sig_matches(
                req.signature,
                ecdsa_sign(
                    signer.spec_key(),
                    explicit_signing_hash(approve_agent_struct_hash(a)),
                ),
            )
            &&& req.nonce == nonce
            &&& (req.signature.v == 27 || req.signature.v == 28)
            &&& req.signature.r@.len() == 66
            &&& req.signature.s@.len() == 66
        },
{
    let label = chain.label();
    let mut chain_label = String::new();
    chain_label.append(label);
    proof {
        assert(chain_label@ =~= chain.spec_label());
    }
    let approval = ApproveAgent { chain_label, agent_address, agent_name, nonce };
    let signature = match ExplicitSigner::sign_agent(signer, &approval) {
        Ok(s) => s,
        Err(e) => {
            return Err(e);
        },
    };
    Ok(SignedApproval { action: Action::ApproveAgent(approval), nonce, signature })
}

} // verus!
