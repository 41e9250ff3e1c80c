//! The decisions a node makes while it starts: which import queue and which
//! chain selection it builds, whether it runs as a collator, and how a
//! development chain authors blocks.

use vstd::prelude::*;

verus! {

/// The import queue a node is built with.
#[derive(PartialEq, Eq, Structural, Clone, Copy, Debug)]
pub enum ImportQueueKind {
    /// Blocks are imported as relay-chain consensus decides.
    RelayChain,
    /// Blocks are sealed as soon as they are authored (manual seal).
    InstantSeal,
    /// Blocks are imported under Aura.
    Aura,
}

/// What the partial components of a node consist of.
#[derive(PartialEq, Eq, Structural, Clone, Copy, Debug)]
pub struct PartialPlan {
    /// A longest-chain selection is kept.
    pub select_chain: bool,
    /// The mock parachain and timestamp inherent data providers are registered.
    pub mock_inherent_providers: bool,
    /// The import queue that the components hold.
    pub import_queue: ImportQueueKind,
}

/// The import queue for a node: relay-chain consensus for a parachain node,
/// and for a development node either instant sealing or Aura.
pub open spec fn spec_import_queue(dev: bool, instant_sealing: bool) -> ImportQueueKind {
    if !dev {
        ImportQueueKind::RelayChain
    } else if instant_sealing {
        ImportQueueKind::InstantSeal
    } else {
        ImportQueueKind::Aura
    }
}

/// Decides the partial components of a node. A development node keeps a
/// longest-chain selection and registers the mock inherent data providers;
/// a parachain node does neither.
pub fn partial_plan(dev: bool, instant_sealing: bool) -> (p: PartialPlan)
    ensures
        p.select_chain == dev,
        p.mock_inherent_providers == dev,
        p.import_queue == spec_import_queue(dev, instant_sealing),
{
    let import_queue = if dev {
        if instant_sealing {
            ImportQueueKind::InstantSeal
        } else {
            ImportQueueKind::Aura
        }
    } else {
        ImportQueueKind::RelayChain
    };
    PartialPlan { select_chain: dev, mock_inherent_providers: dev, import_queue }
}

/// How a parachain node takes part once started.
#[derive(PartialEq, Eq, Structural, Clone, Copy, Debug)]
pub enum ParachainNodeKind {
    /// Authors blocks and hands them to the relay chain.
    Collator,
    /// Follows the chain without authoring.
    FullNode,
}

/// Why a parachain node cannot be started.
#[derive(PartialEq, Eq, Structural, Clone, Copy, Debug)]
pub enum StartError {
    /// The configuration asks for a light client.
    LightClientNotSupported,
}

impl StartError {
    /// The message that the node reports for the error.
    pub fn message(&self) -> (m: &'static str)
        ensures
            m@ == "Light client not supported!"@,
    {
        match self {
            StartError::LightClientNotSupported => "Light client not supported!",
        }
    }
}

/// Decides how a parachain node starts: a light client is refused, a
/// validator runs as a collator and any other node as a full node.
pub fn parachain_node_kind(light_client: bool, validator: bool) -> (r: Result<
    ParachainNodeKind,
    StartError,
>)
    ensures
        light_client ==> r == Err::<ParachainNodeKind, StartError>(
            StartError::LightClientNotSupported,
        ),
        !light_client && validator ==> r == Ok::<ParachainNodeKind, StartError>(
            ParachainNodeKind::Collator,
        ),
        !light_client && !validator ==> r == Ok::<ParachainNodeKind, StartError>(
            ParachainNodeKind::FullNode,
        ),
{
    if light_client {
        return Err(StartError::LightClientNotSupported);
    }
    if validator {
        Ok(ParachainNodeKind::Collator)
    } else {
        Ok(ParachainNodeKind::FullNode)
    }
}

/// How a development node authors blocks.
#[derive(PartialEq, Eq, Structural, Clone, Copy, Debug)]
pub enum DevAuthoring {
    /// A block is sealed for each incoming transaction.
    InstantSeal,
    /// Blocks are authored in Aura slots.
    Aura,
}

/// How a development node authors: only an authority authors, by instant
/// sealing when asked for and by Aura otherwise.
pub open spec fn spec_dev_authoring(is_authority: bool, instant_sealing: bool) -> Option<
    DevAuthoring,
> {
    if !is_authority {
        None
    } else if instant_sealing {
        Some(DevAuthoring::InstantSeal)
    } else {
        Some(DevAuthoring::Aura)
    }
}

/// Decides how a development node authors blocks: only an authority
/// authors, by instant sealing when asked for and by Aura otherwise.
pub fn dev_authoring(is_authority: bool, instant_sealing: bool) -> (r: Option<DevAuthoring>)
    ensures
        r == spec_dev_authoring(is_authority, instant_sealing),
{
    if is_authority {
        if instant_sealing {
            Some(DevAuthoring::InstantSeal)
        } else {
            Some(DevAuthoring::Aura)
        }
    } else {
        None
    }
}

/// An authoring development node authors blocks the same way its import
/// queue imports them: instant sealing with an instant-seal queue, Aura with
/// an Aura queue.
pub proof fn lemma_dev_authoring_matches_import_queue(instant_sealing: bool)
    ensures
        spec_dev_authoring(true, instant_sealing) == Some(DevAuthoring::InstantSeal)
            <==> spec_import_queue(true, instant_sealing) == ImportQueueKind::InstantSeal,
        spec_dev_authoring(true, instant_sealing) == Some(DevAuthoring::Aura)
            <==> spec_import_queue(true, instant_sealing) == ImportQueueKind::Aura,
{
}

} // verus!
