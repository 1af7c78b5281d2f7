//! The component composition framework: one builder contract per capability
//! family, each family's output types feeding the next family's inputs, and
//! one `Builder` that fixes a choice per family. A mismatched combination
//! does not compile.
use crate::config::Configuration;
use crate::pipeline::{
    full_service_params, light_service_params, spec_full_service_params,
    spec_light_service_params, ServiceParams, Shape,
};
use crate::rpc::{DenyUnsafe, MethodSet, NoopRpcExtensionBuilder, RpcExtensionBuilder};
use std::marker::PhantomData;
use vstd::prelude::*;

verus! {

/// The opened storage backend of a node.
#[derive(Clone, Copy, PartialEq, Eq, Debug)]
pub struct BackendRef {
    pub shape: Shape,
}

/// The client of a node, built on its backend.
#[derive(Clone, Copy, PartialEq, Eq, Debug)]
pub struct ClientRef {
    pub shape: Shape,
}

/// The remote-data fetcher of a light node.
#[derive(Clone, Copy, PartialEq, Eq, Debug)]
pub struct OnDemandRef {
    pub client: ClientRef,
}

/// Chain-selection family.
pub trait SelectChainBuilder {
    type FullSelectChain: Copy;
    type LightSelectChain: Copy;

    spec fn full_spec(backend: BackendRef) -> Self::FullSelectChain;

    spec fn light_spec(backend: BackendRef) -> Self::LightSelectChain;

    fn build_full(backend: BackendRef) -> (r: Self::FullSelectChain)
        ensures
            r == Self::full_spec(backend),
    ;

    fn build_light(backend: BackendRef) -> (r: Self::LightSelectChain)
        ensures
            r == Self::light_spec(backend),
    ;
}

/// The longest-chain rule over a backend.
#[derive(Clone, Copy, PartialEq, Eq, Debug)]
pub struct LongestChain {
    pub backend: BackendRef,
}

/// Chooses the longest chain.
pub struct LongestChainBuilder;

impl SelectChainBuilder for LongestChainBuilder {
    type FullSelectChain = LongestChain;
    type LightSelectChain = LongestChain;

    open spec fn full_spec(backend: BackendRef) -> LongestChain {
        LongestChain { backend }
    }

    open spec fn light_spec(backend: BackendRef) -> LongestChain {
        LongestChain { backend }
    }

    fn build_full(backend: BackendRef) -> (r: LongestChain)
        ensures
            r.backend == backend,
    {
        LongestChain { backend }
    }

    fn build_light(backend: BackendRef) -> (r: LongestChain)
        ensures
            r.backend == backend,
    {
        LongestChain { backend }
    }
}

/// Builds the requests for finality proofs that a light node sends.
#[derive(Clone, Copy, PartialEq, Eq, Debug)]
pub struct FinalityProofRequestBuilder {
    pub client: ClientRef,
}

/// Block-import family. Its full variant is built over the chain selector
/// of its own `SelectChainBuilder`.
pub trait BlockImportBuilder {
    type SelectChainBuilder: SelectChainBuilder;
    type FullBlockImport: Copy;
    type LightBlockImport: Copy;
    type Link: Copy;

    spec fn light_spec(client: ClientRef, backend: BackendRef, on_demand: OnDemandRef) -> (
        Self::LightBlockImport,
        FinalityProofRequestBuilder,
    );

    spec fn full_spec(
        client: ClientRef,
        select_chain: <Self::SelectChainBuilder as SelectChainBuilder>::FullSelectChain,
    ) -> (Self::FullBlockImport, Self::Link);

    fn build_light(client: ClientRef, backend: BackendRef, on_demand: OnDemandRef) -> (r: (
        Self::LightBlockImport,
        FinalityProofRequestBuilder,
    ))
        ensures
            r == Self::light_spec(client, backend, on_demand),
    ;

    fn build_full(
        client: ClientRef,
        select_chain: <Self::SelectChainBuilder as SelectChainBuilder>::FullSelectChain,
    ) -> (r: (Self::FullBlockImport, Self::Link))
        ensures
            r == Self::full_spec(client, select_chain),
    ;
}

/// Finality-voting block import of a full node.
#[derive(Clone, Copy, PartialEq, Eq, Debug)]
pub struct GrandpaBlockImport<S> {
    pub client: ClientRef,
    pub select_chain: S,
}

/// The half of the finality voter that authoring setup needs.
#[derive(Clone, Copy, PartialEq, Eq, Debug)]
pub struct GrandpaLink<S> {
    pub client: ClientRef,
    pub select_chain: S,
}

/// Finality-proof-importing block import of a light node.
#[derive(Clone, Copy, PartialEq, Eq, Debug)]
pub struct GrandpaLightBlockImport {
    pub client: ClientRef,
    pub backend: BackendRef,
    pub verifier: OnDemandRef,
}

/// Finality voting, over the chain selector that `C` builds.
pub struct GrandpaBlockImportBuilder<C>(pub PhantomData<C>);

impl<C: SelectChainBuilder> BlockImportBuilder for GrandpaBlockImportBuilder<C> {
    type SelectChainBuilder = C;
    type FullBlockImport = GrandpaBlockImport<C::FullSelectChain>;
    type LightBlockImport = GrandpaLightBlockImport;
    type Link = GrandpaLink<C::FullSelectChain>;

    open spec fn light_spec(client: ClientRef, backend: BackendRef, on_demand: OnDemandRef) -> (
        GrandpaLightBlockImport,
        FinalityProofRequestBuilder,
    ) {
        (
            GrandpaLightBlockImport { client, backend, verifier: on_demand },
            FinalityProofRequestBuilder { client },
        )
    }

    open spec fn full_spec(client: ClientRef, select_chain: C::FullSelectChain) -> (
        GrandpaBlockImport<C::FullSelectChain>,
        GrandpaLink<C::FullSelectChain>,
    ) {
        (GrandpaBlockImport { client, select_chain }, GrandpaLink { client, select_chain })
    }

    fn build_light(client: ClientRef, backend: BackendRef, on_demand: OnDemandRef) -> (r: (
        GrandpaLightBlockImport,
        FinalityProofRequestBuilder,
    ))
        ensures
            r.0 == (GrandpaLightBlockImport { client, backend, verifier: on_demand }),
            r.1 == (FinalityProofRequestBuilder { client }),
    {
        let block_import = GrandpaLightBlockImport { client, backend, verifier: on_demand };
        let request_builder = FinalityProofRequestBuilder { client: block_import.client };
        (block_import, request_builder)
    }

    fn build_full(client: ClientRef, select_chain: C::FullSelectChain) -> (r: (
        GrandpaBlockImport<C::FullSelectChain>,
        GrandpaLink<C::FullSelectChain>,
    ))
        ensures
            r.0 == (GrandpaBlockImport { client, select_chain }),
            r.1 == (GrandpaLink { client, select_chain }),
    {
        (GrandpaBlockImport { client, select_chain }, GrandpaLink { client, select_chain })
    }
}

/// Transaction-pool family.
pub trait TransactionPoolBuilder {
    type FullTransactionPool: Copy;
    type LightTransactionPool: Copy;

    spec fn full_spec(client: ClientRef) -> Self::FullTransactionPool;

    spec fn light_spec(client: ClientRef, on_demand: OnDemandRef) -> Self::LightTransactionPool;

    fn build_full(client: ClientRef) -> (r: Self::FullTransactionPool)
        ensures
            r == Self::full_spec(client),
    ;

    fn build_light(client: ClientRef, on_demand: OnDemandRef) -> (r: Self::LightTransactionPool)
        ensures
            r == Self::light_spec(client, on_demand),
    ;
}

/// Where a pool validates transactions.
#[derive(Clone, Copy, PartialEq, Eq, Debug)]
pub enum PoolChainApi {
    /// Against the local client.
    Full(ClientRef),
    /// Against remote proofs fetched on demand.
    Light(ClientRef, OnDemandRef),
}

/// The basic transaction pool.
#[derive(Clone, Copy, PartialEq, Eq, Debug)]
pub struct BasicPool {
    pub api: PoolChainApi,
}

/// Builds the basic pool.
pub struct BasicPoolBuilder;

impl TransactionPoolBuilder for BasicPoolBuilder {
    type FullTransactionPool = BasicPool;
    type LightTransactionPool = BasicPool;

    open spec fn full_spec(client: ClientRef) -> BasicPool {
        BasicPool { api: PoolChainApi::Full(client) }
    }

    open spec fn light_spec(client: ClientRef, on_demand: OnDemandRef) -> BasicPool {
        BasicPool { api: PoolChainApi::Light(client, on_demand) }
    }

    fn build_full(client: ClientRef) -> (r: BasicPool)
        ensures
            r.api == PoolChainApi::Full(client),
    {
        BasicPool { api: PoolChainApi::Full(client) }
    }

    fn build_light(client: ClientRef, on_demand: OnDemandRef) -> (r: BasicPool)
        ensures
            r.api == PoolChainApi::Light(client, on_demand),
    {
        BasicPool { api: PoolChainApi::Light(client, on_demand) }
    }
}

/// Import-queue family. It accepts exactly the block imports that its own
/// `BlockImportBuilder` produces.
pub trait ImportQueueBuilder {
    type BlockImportBuilder: BlockImportBuilder;
    type FullImportQueue: Copy;
    type LightImportQueue: Copy;
    type Link: Copy;
    type ImportQueueBlockImport: Copy;

    /// The queue built over `block_import`; the chain selector it is given
    /// only drives its fork choice and is not part of its wiring.
    spec fn light_spec(
        client: ClientRef,
        block_import: <Self::BlockImportBuilder as BlockImportBuilder>::LightBlockImport,
    ) -> Self::LightImportQueue;

    spec fn full_spec(
        client: ClientRef,
        block_import: <Self::BlockImportBuilder as BlockImportBuilder>::FullBlockImport,
    ) -> (Self::FullImportQueue, Self::Link, Self::ImportQueueBlockImport);

    fn build_light<S: Copy>(
        client: ClientRef,
        block_import: <Self::BlockImportBuilder as BlockImportBuilder>::LightBlockImport,
        select_chain: S,
    ) -> (r: Self::LightImportQueue)
        ensures
            r == Self::light_spec(client, block_import),
    ;

    fn build_full<S: Copy>(
        client: ClientRef,
        block_import: <Self::BlockImportBuilder as BlockImportBuilder>::FullBlockImport,
        select_chain: S,
    ) -> (r: (Self::FullImportQueue, Self::Link, Self::ImportQueueBlockImport))
        ensures
            r == Self::full_spec(client, block_import),
    ;
}

/// How an import queue is wired: the block import it drives, and which of
/// justifications or finality proofs the inner block import takes.
#[derive(Clone, Copy, PartialEq, Eq, Debug)]
pub struct ImportQueue<W, I> {
    pub client: ClientRef,
    pub import: W,
    pub justification_import: Option<I>,
    pub finality_proof_import: Option<I>,
}

/// Slot-based block import of a full node, wrapping `I`.
#[derive(Clone, Copy, PartialEq, Eq, Debug)]
pub struct AuraBlockImport<I> {
    pub inner: I,
    pub client: ClientRef,
}

/// A link that carries nothing.
#[derive(Clone, Copy, PartialEq, Eq, Debug)]
pub struct NoLink;

/// Slot-based authoring, over the block import that `B` builds.
pub struct AuraImportQueueBuilder<B>(pub PhantomData<B>);

impl<B: BlockImportBuilder> ImportQueueBuilder for AuraImportQueueBuilder<B> {
    type BlockImportBuilder = B;
    type FullImportQueue = ImportQueue<AuraBlockImport<B::FullBlockImport>, B::FullBlockImport>;
    type LightImportQueue = ImportQueue<B::LightBlockImport, B::LightBlockImport>;
    type Link = NoLink;
    type ImportQueueBlockImport = AuraBlockImport<B::FullBlockImport>;

    open spec fn light_spec(client: ClientRef, block_import: B::LightBlockImport) -> ImportQueue<
        B::LightBlockImport,
        B::LightBlockImport,
    > {
        ImportQueue {
            client,
            import: block_import,
            justification_import: None,
            finality_proof_import: Some(block_import),
        }
    }

    open spec fn full_spec(client: ClientRef, block_import: B::FullBlockImport) -> (
        ImportQueue<AuraBlockImport<B::FullBlockImport>, B::FullBlockImport>,
        NoLink,
        AuraBlockImport<B::FullBlockImport>,
    ) {
        let wrapped = AuraBlockImport { inner: block_import, client };
        (
            ImportQueue {
                client,
                import: wrapped,
                justification_import: Some(block_import),
                finality_proof_import: None,
            },
            NoLink,
            wrapped,
        )
    }

    /// A light node's queue imports through `block_import` directly and
    /// hands it finality proofs.
    fn build_light<S: Copy>(client: ClientRef, block_import: B::LightBlockImport, select_chain: S) -> (r:
        ImportQueue<B::LightBlockImport, B::LightBlockImport>)
        ensures
            r == (ImportQueue {
                client,
                import: block_import,
                justification_import: None,
                finality_proof_import: Some(block_import),
            }),
    {
        ImportQueue {
            client,
            import: block_import,
            justification_import: None,
            finality_proof_import: Some(block_import),
        }
    }

    /// A full node's queue imports through a slot-checking wrapper of
    /// `block_import`, which also takes justifications; the wrapper is handed
    /// back for authoring.
    fn build_full<S: Copy>(client: ClientRef, block_import: B::FullBlockImport, select_chain: S) -> (r: (
        ImportQueue<AuraBlockImport<B::FullBlockImport>, B::FullBlockImport>,
        NoLink,
        AuraBlockImport<B::FullBlockImport>,
    ))
        ensures
            r.2 == (AuraBlockImport { inner: block_import, client }),
            r.0 == (ImportQueue {
                client,
                import: r.2,
                justification_import: Some(block_import),
                finality_proof_import: None,
            }),
    {
        let aura_block_import = AuraBlockImport { inner: block_import, client };
        let queue = ImportQueue {
            client,
            import: aura_block_import,
            justification_import: Some(block_import),
            finality_proof_import: None,
        };
        (queue, NoLink, aura_block_import)
    }
}

/// Epoch data shared by the slot-based block import and the authoring loop.
#[derive(Clone, Copy, PartialEq, Eq, Debug)]
pub struct BabeLink {
    pub client: ClientRef,
}

/// Epoch-checking block import, wrapping `I`.
#[derive(Clone, Copy, PartialEq, Eq, Debug)]
pub struct BabeBlockImport<I> {
    pub inner: I,
    pub link: BabeLink,
}

/// The epoch-checking wrapper of `inner` and the link it shares.
fn babe_block_import<I: Copy>(client: ClientRef, inner: I) -> (r: (BabeBlockImport<I>, BabeLink))
    ensures
        r.1 == (BabeLink { client }),
        r.0 == (BabeBlockImport { inner, link: r.1 }),
{
    let link = BabeLink { client };
    (BabeBlockImport { inner, link }, link)
}

/// Epoch-based authoring, over the block import that `B` builds.
pub struct BabeImportQueueBuilder<B>(pub PhantomData<B>);

impl<B: BlockImportBuilder> ImportQueueBuilder for BabeImportQueueBuilder<B> {
    type BlockImportBuilder = B;
    type FullImportQueue = ImportQueue<BabeBlockImport<B::FullBlockImport>, B::FullBlockImport>;
    type LightImportQueue = ImportQueue<BabeBlockImport<B::LightBlockImport>, B::LightBlockImport>;
    type Link = BabeLink;
    type ImportQueueBlockImport = BabeBlockImport<B::FullBlockImport>;

    open spec fn light_spec(client: ClientRef, block_import: B::LightBlockImport) -> ImportQueue<
        BabeBlockImport<B::LightBlockImport>,
        B::LightBlockImport,
    > {
        ImportQueue {
            client,
            import: BabeBlockImport { inner: block_import, link: BabeLink { client } },
            justification_import: None,
            finality_proof_import: Some(block_import),
        }
    }

    open spec fn full_spec(client: ClientRef, block_import: B::FullBlockImport) -> (
        ImportQueue<BabeBlockImport<B::FullBlockImport>, B::FullBlockImport>,
        BabeLink,
        BabeBlockImport<B::FullBlockImport>,
    ) {
        let link = BabeLink { client };
        let wrapped = BabeBlockImport { inner: block_import, link };
        (
            ImportQueue {
                client,
                import: wrapped,
                justification_import: Some(block_import),
                finality_proof_import: None,
            },
            link,
            wrapped,
        )
    }

    /// A light node's queue imports through the epoch-checking wrapper of
    /// `block_import`, which takes finality proofs.
    fn build_light<S: Copy>(client: ClientRef, block_import: B::LightBlockImport, select_chain: S) -> (r:
        ImportQueue<BabeBlockImport<B::LightBlockImport>, B::LightBlockImport>)
        ensures
            r == (ImportQueue {
                client,
                import: BabeBlockImport { inner: block_import, link: BabeLink { client } },
                justification_import: None,
                finality_proof_import: Some(block_import),
            }),
    {
        let (wrapped, _link) = babe_block_import(client, block_import);
        ImportQueue {
            client,
            import: wrapped,
            justification_import: None,
            finality_proof_import: Some(block_import),
        }
    }

    /// A full node's queue imports through the epoch-checking wrapper of
    /// `block_import`, which takes justifications; the wrapper and its link
    /// are handed back for authoring.
    fn build_full<S: Copy>(client: ClientRef, block_import: B::FullBlockImport, select_chain: S) -> (r: (
        ImportQueue<BabeBlockImport<B::FullBlockImport>, B::FullBlockImport>,
        BabeLink,
        BabeBlockImport<B::FullBlockImport>,
    ))
        ensures
            r.1 == (BabeLink { client }),
            r.2 == (BabeBlockImport { inner: block_import, link: r.1 }),
            r.0 == (ImportQueue {
                client,
                import: r.2,
                justification_import: Some(block_import),
                finality_proof_import: None,
            }),
    {
        let (wrapped, link) = babe_block_import(client, block_import);
        let queue = ImportQueue {
            client,
            import: wrapped,
            justification_import: Some(block_import),
            finality_proof_import: None,
        };
        (queue, link, wrapped)
    }
}

/// Finality-proof-provider family.
pub trait FinalityProofProviderBuilder {
    type FullFinalityProofProvider: Copy;
    type LightFinalityProofProvider: Copy;

    spec fn full_spec(backend: BackendRef, client: ClientRef) -> Self::FullFinalityProofProvider;

    spec fn light_spec(backend: BackendRef, client: ClientRef) -> Self::LightFinalityProofProvider;

    fn build_full(backend: BackendRef, client: ClientRef) -> (r: Self::FullFinalityProofProvider)
        ensures
            r == Self::full_spec(backend, client),
    ;

    fn build_light(backend: BackendRef, client: ClientRef) -> (r: Self::LightFinalityProofProvider)
        ensures
            r == Self::light_spec(backend, client),
    ;
}

/// Serves finality proofs from a backend and client.
#[derive(Clone, Copy, PartialEq, Eq, Debug)]
pub struct GrandpaFinalityProofProvider {
    pub backend: BackendRef,
    pub client: ClientRef,
}

/// Builds the finality-proof provider of finality voting.
pub struct GrandpaFinalityProofProviderBuilder;

impl FinalityProofProviderBuilder for GrandpaFinalityProofProviderBuilder {
    type FullFinalityProofProvider = GrandpaFinalityProofProvider;
    type LightFinalityProofProvider = GrandpaFinalityProofProvider;

    open spec fn full_spec(backend: BackendRef, client: ClientRef) -> GrandpaFinalityProofProvider {
        GrandpaFinalityProofProvider { backend, client }
    }

    open spec fn light_spec(backend: BackendRef, client: ClientRef) -> GrandpaFinalityProofProvider {
        GrandpaFinalityProofProvider { backend, client }
    }

    fn build_full(backend: BackendRef, client: ClientRef) -> (r: GrandpaFinalityProofProvider)
        ensures
            r == (GrandpaFinalityProofProvider { backend, client }),
    {
        GrandpaFinalityProofProvider { backend, client }
    }

    fn build_light(backend: BackendRef, client: ClientRef) -> (r: GrandpaFinalityProofProvider)
        ensures
            r == (GrandpaFinalityProofProvider { backend, client }),
    {
        GrandpaFinalityProofProvider { backend, client }
    }
}

/// RPC-extension family: the extension a full node serves, built once its
/// other components exist, from its pool, chain selector and links.
pub trait RpcExtensions<Pool, SelectChain, BlockImportLink, ImportQueueLink> {
    type ExtensionBuilder: RpcExtensionBuilder;
    type RpcSetup;

    /// What `rpc_extensions` may hand back for these components.
    spec fn extensions_spec(
        &self,
        client: ClientRef,
        transaction_pool: Pool,
        select_chain: SelectChain,
        block_import_link: BlockImportLink,
        import_queue_link: ImportQueueLink,
        r: (Self::ExtensionBuilder, Self::RpcSetup),
    ) -> bool;

    fn rpc_extensions(
        &self,
        client: ClientRef,
        transaction_pool: Pool,
        select_chain: SelectChain,
        block_import_link: &BlockImportLink,
        import_queue_link: &ImportQueueLink,
    ) -> (r: (Self::ExtensionBuilder, Self::RpcSetup))
        ensures
            self.extensions_spec(
                client,
                transaction_pool,
                select_chain,
                *block_import_link,
                *import_queue_link,
                r,
            ),
    ;
}

/// No extension: the tables hold the node's own methods only.
pub struct NoRpc<B>(pub PhantomData<B>);

impl<B> Default for NoRpc<B> {
    fn default() -> (r: Self)
        ensures
            r.0 == PhantomData::<B>,
    {
        NoRpc(PhantomData)
    }
}

impl<B, P, S, L, Q> RpcExtensions<P, S, L, Q> for NoRpc<B> {
    type ExtensionBuilder = NoopRpcExtensionBuilder;
    type RpcSetup = NoLink;

    open spec fn extensions_spec(
        &self,
        client: ClientRef,
        transaction_pool: P,
        select_chain: S,
        block_import_link: L,
        import_queue_link: Q,
        r: (NoopRpcExtensionBuilder, NoLink),
    ) -> bool {
        r.0.0.methods@.len() == 0
    }

    fn rpc_extensions(
        &self,
        client: ClientRef,
        transaction_pool: P,
        select_chain: S,
        block_import_link: &L,
        import_queue_link: &Q,
    ) -> (r: (NoopRpcExtensionBuilder, NoLink)) {
        (NoopRpcExtensionBuilder(MethodSet { methods: Vec::new() }), NoLink)
    }
}

pub type FullPoolOf<B> = <<B as Builder>::TransactionPoolBuilder as TransactionPoolBuilder>::FullTransactionPool;

pub type FullSelectChainOf<B> = <<B as Builder>::SelectChainBuilder as SelectChainBuilder>::FullSelectChain;

pub type FullBlockImportOf<B> = <<B as Builder>::BlockImportBuilder as BlockImportBuilder>::FullBlockImport;

pub type BlockImportLinkOf<B> = <<B as Builder>::BlockImportBuilder as BlockImportBuilder>::Link;

pub type ImportQueueLinkOf<B> = <<B as Builder>::ImportQueueBuilder as ImportQueueBuilder>::Link;

/// The components of a full node, all of mutually matching types, and the
/// parameters that `build` wires them with.
#[verifier::reject_recursive_types(B)]
pub struct FullComponents<
    B: Builder,
    R: RpcExtensions<FullPoolOf<B>, FullSelectChainOf<B>, BlockImportLinkOf<B>, ImportQueueLinkOf<B>>,
> {
    pub params: ServiceParams,
    pub client: ClientRef,
    pub backend: BackendRef,
    pub transaction_pool: FullPoolOf<B>,
    pub select_chain: FullSelectChainOf<B>,
    pub block_import: FullBlockImportOf<B>,
    pub block_import_link: BlockImportLinkOf<B>,
    pub import_queue: <B::ImportQueueBuilder as ImportQueueBuilder>::FullImportQueue,
    pub import_queue_link: ImportQueueLinkOf<B>,
    pub import_queue_block_import: <B::ImportQueueBuilder as ImportQueueBuilder>::ImportQueueBlockImport,
    pub finality_proof_provider: <B::FinalityProofProviderBuilder as FinalityProofProviderBuilder>::FullFinalityProofProvider,
    pub rpc_extensions: R::ExtensionBuilder,
    pub rpc_setup: R::RpcSetup,
}

/// The components of a light node, all of mutually matching types, and the
/// parameters that `build` wires them with. A light node serves no RPC
/// extension.
pub struct LightComponents<B: Builder> {
    pub params: ServiceParams,
    pub client: ClientRef,
    pub backend: BackendRef,
    pub on_demand: OnDemandRef,
    pub transaction_pool: <B::TransactionPoolBuilder as TransactionPoolBuilder>::LightTransactionPool,
    pub select_chain: <B::SelectChainBuilder as SelectChainBuilder>::LightSelectChain,
    pub block_import: <B::BlockImportBuilder as BlockImportBuilder>::LightBlockImport,
    pub finality_proof_request_builder: FinalityProofRequestBuilder,
    pub import_queue: <B::ImportQueueBuilder as ImportQueueBuilder>::LightImportQueue,
    pub finality_proof_provider: <B::FinalityProofProviderBuilder as FinalityProofProviderBuilder>::LightFinalityProofProvider,
    pub rpc_extensions: NoopRpcExtensionBuilder,
}

/// The parts that offline chain operations need: a full client, its
/// backend and an import queue, with no pool and nothing that serves the
/// network.
pub struct OpsComponents<B: Builder> {
    pub client: ClientRef,
    pub backend: BackendRef,
    pub import_queue: <B::ImportQueueBuilder as ImportQueueBuilder>::FullImportQueue,
}

pub open spec fn full_client() -> ClientRef {
    ClientRef { shape: Shape::Full }
}

pub open spec fn full_backend() -> BackendRef {
    BackendRef { shape: Shape::Full }
}

pub open spec fn light_client() -> ClientRef {
    ClientRef { shape: Shape::Light }
}

pub open spec fn light_backend() -> BackendRef {
    BackendRef { shape: Shape::Light }
}

/// One choice per capability family. The block import is built over this
/// builder's chain selector and the import queue over its block import, so
/// a pairing whose types disagree is rejected when it is compiled.
pub trait Builder: Sized {
    type TransactionPoolBuilder: TransactionPoolBuilder;
    type SelectChainBuilder: SelectChainBuilder;
    type BlockImportBuilder: BlockImportBuilder<SelectChainBuilder = Self::SelectChainBuilder>;
    type ImportQueueBuilder: ImportQueueBuilder<BlockImportBuilder = Self::BlockImportBuilder>;
    type FinalityProofProviderBuilder: FinalityProofProviderBuilder;

    /// Builds a full node's components in dependency order: pool, chain
    /// selector, block import over that selector, import queue over that
    /// block import, finality-proof provider, then the RPC extensions from
    /// all of them; every component is built over the same client and
    /// backend.
    fn build_full<
        R: RpcExtensions<
            FullPoolOf<Self>,
            FullSelectChainOf<Self>,
            BlockImportLinkOf<Self>,
            ImportQueueLinkOf<Self>,
        >,
    >(
        config: Configuration,
        offchain_storage: bool,
        rpc_extensions: &R,
    ) -> (r: FullComponents<Self, R>)
        ensures
            r.params == spec_full_service_params(config, offchain_storage),
            r.client == full_client(),
            r.backend == full_backend(),
            r.transaction_pool == Self::TransactionPoolBuilder::full_spec(full_client()),
            r.select_chain == Self::SelectChainBuilder::full_spec(full_backend()),
            (r.block_import, r.block_import_link) == Self::BlockImportBuilder::full_spec(
                full_client(),
                r.select_chain,
            ),
            (r.import_queue, r.import_queue_link, r.import_queue_block_import)
                == Self::ImportQueueBuilder::full_spec(full_client(), r.block_import),
            r.finality_proof_provider == Self::FinalityProofProviderBuilder::full_spec(
                full_backend(),
                full_client(),
            ),
            rpc_extensions.extensions_spec(
                full_client(),
                r.transaction_pool,
                r.select_chain,
                r.block_import_link,
                r.import_queue_link,
                (r.rpc_extensions, r.rpc_setup),
            ),
    {
        let backend = BackendRef { shape: Shape::Full };
        let client = ClientRef { shape: Shape::Full };
        let transaction_pool = Self::TransactionPoolBuilder::build_full(client);
        let select_chain = Self::SelectChainBuilder::build_full(backend);
        let (block_import, block_import_link) = Self::BlockImportBuilder::build_full(
            client,
            select_chain,
        );
        let (import_queue, import_queue_link, import_queue_block_import) =
            Self::ImportQueueBuilder::build_full(client, block_import, select_chain);
        let finality_proof_provider = Self::FinalityProofProviderBuilder::build_full(backend, client);
        let (ext, setup) = rpc_extensions.rpc_extensions(
            client,
            transaction_pool,
            select_chain,
            &block_import_link,
            &import_queue_link,
        );
        FullComponents {
            params: full_service_params(config, offchain_storage),
            client,
            backend,
            transaction_pool,
            select_chain,
            block_import,
            block_import_link,
            import_queue,
            import_queue_link,
            import_queue_block_import,
            finality_proof_provider,
            rpc_extensions: ext,
            rpc_setup: setup,
        }
    }

    /// Builds a light node's components in dependency order: pool, chain
    /// selector, block import with its finality-proof request builder, import
    /// queue over that block import, finality-proof provider; all over the
    /// same client, backend and remote fetcher.
    fn build_light(config: Configuration, offchain_storage: bool) -> (r: LightComponents<Self>)
        ensures
            r.params == spec_light_service_params(config, offchain_storage),
            r.client == light_client(),
            r.backend == light_backend(),
            r.on_demand == (OnDemandRef { client: light_client() }),
            r.transaction_pool == Self::TransactionPoolBuilder::light_spec(
                light_client(),
                r.on_demand,
            ),
            r.select_chain == Self::SelectChainBuilder::light_spec(light_backend()),
            (r.block_import, r.finality_proof_request_builder)
                == Self::BlockImportBuilder::light_spec(light_client(), light_backend(), r.on_demand),
            r.import_queue == Self::ImportQueueBuilder::light_spec(light_client(), r.block_import),
            r.finality_proof_provider == Self::FinalityProofProviderBuilder::light_spec(
                light_backend(),
                light_client(),
            ),
            forall|d: DenyUnsafe| r.rpc_extensions.methods_for(d).len() == 0,
    {
        let backend = BackendRef { shape: Shape::Light };
        let client = ClientRef { shape: Shape::Light };
        let on_demand = OnDemandRef { client };
        let transaction_pool = Self::TransactionPoolBuilder::build_light(client, on_demand);
        let select_chain = Self::SelectChainBuilder::build_light(backend);
        let (block_import, finality_proof_request_builder) =
            Self::BlockImportBuilder::build_light(client, backend, on_demand);
        let import_queue = Self::ImportQueueBuilder::build_light(client, block_import, select_chain);
        let finality_proof_provider = Self::FinalityProofProviderBuilder::build_light(backend, client);
        LightComponents {
            params: light_service_params(config, offchain_storage),
            client,
            backend,
            on_demand,
            transaction_pool,
            select_chain,
            block_import,
            finality_proof_request_builder,
            import_queue,
            finality_proof_provider,
            rpc_extensions: NoopRpcExtensionBuilder(MethodSet { methods: Vec::new() }),
        }
    }

    /// Builds what offline chain operations need: the import queue over the
    /// block import over the chain selector, and nothing else.
    fn build_ops() -> (r: OpsComponents<Self>)
        ensures
            r.client == full_client(),
            r.backend == full_backend(),
            r.import_queue == Self::ImportQueueBuilder::full_spec(
                full_client(),
                Self::BlockImportBuilder::full_spec(
                    full_client(),
                    Self::SelectChainBuilder::full_spec(full_backend()),
                ).0,
            ).0,
    {
        let backend = BackendRef { shape: Shape::Full };
        let client = ClientRef { shape: Shape::Full };
        let select_chain = Self::SelectChainBuilder::build_full(backend);
        let (block_import, _link) = Self::BlockImportBuilder::build_full(client, select_chain);
        let (import_queue, _queue_link, _wrapped) = Self::ImportQueueBuilder::build_full(
            client,
            block_import,
            select_chain,
        );
        OpsComponents { client, backend, import_queue }
    }
}

} // verus!
