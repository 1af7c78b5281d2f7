//! The RPC handler generator: one method-dispatch table per safety level,
//! built from the same constructors.
use crate::config::Configuration;
use vstd::prelude::*;

verus! {

/// Whether methods marked unsafe are left out of a table.
#[derive(Clone, Copy, PartialEq, Eq, Debug)]
pub enum DenyUnsafe {
    Yes,
    No,
}

/// One method of an RPC interface.
#[derive(Clone, Debug)]
pub struct RpcMethod {
    pub name: String,
    /// Mutating or privileged: never offered on a table that denies unsafe
    /// methods.
    pub is_unsafe: bool,
}

/// The methods one constructor contributes.
#[derive(Clone, Debug)]
pub struct MethodSet {
    pub methods: Vec<RpcMethod>,
}

impl MethodSet {
    /// A copy equal to `self`.
    pub fn duplicate(&self) -> (r: MethodSet)
        ensures
            r.methods@ == self.methods@,
    {
        let mut methods: Vec<RpcMethod> = Vec::new();
        let mut i: usize = 0;
        while i < self.methods.len()
            invariant
                i <= self.methods@.len(),
                methods@ == self.methods@.take(i as int),
            decreases self.methods@.len() - i,
        {
            let m = &self.methods[i];
            methods.push(RpcMethod { name: m.name.clone(), is_unsafe: m.is_unsafe });
            proof {
                assert(methods@ =~= self.methods@.take(i as int + 1));
            }
            i = i + 1;
        }
        proof {
            assert(self.methods@.take(self.methods@.len() as int) =~= self.methods@);
        }
        MethodSet { methods }
    }
}

/// Builds the node's RPC extension for one safety level, when an interface
/// is bound.
pub trait RpcExtensionBuilder {
    /// The methods the extension offers at safety level `deny`.
    spec fn methods_for(&self, deny: DenyUnsafe) -> Seq<RpcMethod>;

    fn build(&self, deny: DenyUnsafe) -> (r: MethodSet)
        ensures
            r.methods@ == self.methods_for(deny),
    ;
}

/// An extension builder that hands out the same methods at every safety
/// level.
pub struct NoopRpcExtensionBuilder(pub MethodSet);

impl RpcExtensionBuilder for NoopRpcExtensionBuilder {
    open spec fn methods_for(&self, deny: DenyUnsafe) -> Seq<RpcMethod> {
        self.0.methods@
    }

    fn build(&self, deny: DenyUnsafe) -> (r: MethodSet)
    {
        self.0.duplicate()
    }
}

impl From<MethodSet> for NoopRpcExtensionBuilder {
    fn from(e: MethodSet) -> (r: NoopRpcExtensionBuilder)
        ensures
            r.0 == e,
    {
        NoopRpcExtensionBuilder(e)
    }
}

impl vstd::std_specs::convert::FromSpecImpl<MethodSet> for NoopRpcExtensionBuilder {
    open spec fn obeys_from_spec() -> bool {
        true
    }

    open spec fn from_spec(e: MethodSet) -> NoopRpcExtensionBuilder {
        NoopRpcExtensionBuilder(e)
    }
}

/// The implementation behind the chain and state interfaces.
#[derive(Clone, Copy, PartialEq, Eq, Debug)]
pub enum Backing {
    /// Answers from local state.
    Full,
    /// Fetches remote proofs on demand.
    Light,
}

/// Which constructor a table entry came from.
#[derive(Clone, Copy, PartialEq, Eq, Debug)]
pub enum Provider {
    State(Backing),
    ChildState(Backing),
    Chain(Backing),
    Offchain,
    Author,
    System,
    Extension,
}

/// One entry of a dispatch table.
#[derive(Clone, Debug)]
pub struct RpcEntry {
    pub name: String,
    pub is_unsafe: bool,
    pub provider: Provider,
}

/// The methods of each interface the node serves.
#[derive(Clone, Debug)]
pub struct RpcSurface {
    pub state: MethodSet,
    pub child_state: MethodSet,
    pub chain: MethodSet,
    pub offchain: MethodSet,
    pub author: MethodSet,
    pub system: MethodSet,
}

/// What the tables of a node are generated from, besides the extension.
#[derive(Clone, Copy, PartialEq, Eq, Debug)]
pub struct RpcContext {
    /// Both a remote-blockchain handle and a remote-fetch handle are present.
    pub remote_handles: bool,
    /// The backend offers offchain storage.
    pub offchain_storage: bool,
}

pub open spec fn entries_of(s: Seq<RpcMethod>, provider: Provider) -> Seq<RpcEntry> {
    Seq::new(
        s.len(),
        |i: int| RpcEntry { name: s[i].name, is_unsafe: s[i].is_unsafe, provider },
    )
}

/// The entries of `s` that are not unsafe, in order.
pub open spec fn safe_only(s: Seq<RpcEntry>) -> Seq<RpcEntry>
    decreases s.len(),
{
    if s.len() == 0 {
        Seq::empty()
    } else if s.last().is_unsafe {
        safe_only(s.drop_last())
    } else {
        safe_only(s.drop_last()).push(s.last())
    }
}

pub open spec fn permitted(s: Seq<RpcEntry>, deny: DenyUnsafe) -> Seq<RpcEntry> {
    match deny {
        DenyUnsafe::Yes => safe_only(s),
        DenyUnsafe::No => s,
    }
}

/// Every entry, before the safety filter, in the order the table lists them:
/// state, child state, chain, offchain (with offchain storage only), author,
/// system, extension.
pub open spec fn all_entries(surface: RpcSurface, ctx: RpcContext, ext: Seq<RpcMethod>) -> Seq<
    RpcEntry,
> {
    let backing = if ctx.remote_handles {
        Backing::Light
    } else {
        Backing::Full
    };
    entries_of(surface.state.methods@, Provider::State(backing)) + entries_of(
        surface.child_state.methods@,
        Provider::ChildState(backing),
    ) + entries_of(surface.chain.methods@, Provider::Chain(backing)) + (if ctx.offchain_storage {
        entries_of(surface.offchain.methods@, Provider::Offchain)
    } else {
        Seq::empty()
    }) + entries_of(surface.author.methods@, Provider::Author) + entries_of(
        surface.system.methods@,
        Provider::System,
    ) + entries_of(ext, Provider::Extension)
}

/// The table served at safety level `deny`.
pub open spec fn spec_table(
    surface: RpcSurface,
    ctx: RpcContext,
    ext: Seq<RpcMethod>,
    deny: DenyUnsafe,
) -> Seq<RpcEntry> {
    permitted(all_entries(surface, ctx, ext), deny)
}

/// The method names a table offers.
pub open spec fn names(s: Seq<RpcEntry>) -> Set<Seq<char>> {
    Set::new(|n: Seq<char>| exists|i: int| 0 <= i < s.len() && s[i].name@ == n)
}

/// A name that only unsafe entries of `s` carry.
pub open spec fn unsafe_only(s: Seq<RpcEntry>, n: Seq<char>) -> bool {
    &&& names(s).contains(n)
    &&& forall|i: int| 0 <= i < s.len() && s[i].name@ == n ==> s[i].is_unsafe
}

/// What the system interface reports about the node.
#[derive(Clone, Debug)]
pub struct SystemInfo {
    pub chain_name: String,
    pub impl_name: String,
    pub impl_version: String,
}

pub open spec fn spec_system_info(c: Configuration) -> SystemInfo {
    SystemInfo { chain_name: c.chain_name, impl_name: c.impl_name, impl_version: c.impl_version }
}

/// The system information of the node configured by `config`.
pub fn system_info(config: &Configuration) -> (r: SystemInfo)
    ensures
        r == spec_system_info(*config),
{
    SystemInfo {
        chain_name: config.chain_name.clone(),
        impl_name: config.impl_name.clone(),
        impl_version: config.impl_version.clone(),
    }
}

/// The context of a node's tables: chain and state are served from remote
/// proofs only when both remote handles are present.
pub fn rpc_context(remote_blockchain: bool, on_demand: bool, offchain_storage: bool) -> (r:
    RpcContext)
    ensures
        r.remote_handles == (remote_blockchain && on_demand),
        r.offchain_storage == offchain_storage,
{
    RpcContext { remote_handles: remote_blockchain && on_demand, offchain_storage }
}

/// A method-dispatch table.
pub struct RpcHandler {
    pub entries: Vec<RpcEntry>,
    /// What the system interface reports.
    pub system: SystemInfo,
}

/// Why a call could not be dispatched.
#[derive(Clone, Copy, PartialEq, Eq, Debug)]
pub enum RpcError {
    MethodNotFound,
}

proof fn lemma_safe_only_push(s: Seq<RpcEntry>, e: RpcEntry)
    ensures
        safe_only(s.push(e)) == (if e.is_unsafe {
            safe_only(s)
        } else {
            safe_only(s).push(e)
        }),
{
    assert(s.push(e).drop_last() =~= s);
}

proof fn lemma_safe_only_concat(a: Seq<RpcEntry>, b: Seq<RpcEntry>)
    ensures
        safe_only(a + b) == safe_only(a) + safe_only(b),
    decreases b.len(),
{
    if b.len() == 0 {
        assert(a + b =~= a);
        assert(safe_only(a) + safe_only(b) =~= safe_only(a));
    } else {
        lemma_safe_only_concat(a, b.drop_last());
        assert((a + b).drop_last() =~= a + b.drop_last());
        assert((a + b).last() == b.last());
        if !b.last().is_unsafe {
            assert(safe_only(a) + safe_only(b) =~= (safe_only(a) + safe_only(b.drop_last())).push(
                b.last(),
            ));
        }
    }
}

/// An entry is in the safe part of `s` exactly when it is in `s` and safe.
proof fn lemma_safe_only_members(s: Seq<RpcEntry>)
    ensures
        forall|j: int|
            0 <= j < safe_only(s).len() ==> !(#[trigger] safe_only(s)[j]).is_unsafe && s.contains(
                safe_only(s)[j],
            ),
        forall|i: int|
            0 <= i < s.len() && !(#[trigger] s[i]).is_unsafe ==> safe_only(s).contains(s[i]),
    decreases s.len(),
{
    if s.len() > 0 {
        let p = s.drop_last();
        lemma_safe_only_members(p);
        assert forall|j: int|
            0 <= j < safe_only(s).len() implies !(#[trigger] safe_only(s)[j]).is_unsafe
            && s.contains(safe_only(s)[j]) by {
            if j < safe_only(p).len() {
                assert(safe_only(s)[j] == safe_only(p)[j]);
                let k = choose|k: int| 0 <= k < p.len() && p[k] == safe_only(p)[j];
                assert(s[k] == p[k]);
            } else {
                assert(s[s.len() - 1] == s.last());
            }
        }
        assert forall|i: int| 0 <= i < s.len() && !(#[trigger] s[i]).is_unsafe implies safe_only(
            s,
        ).contains(s[i]) by {
            if i < s.len() - 1 {
                assert(p[i] == s[i]);
                let k = choose|k: int| 0 <= k < safe_only(p).len() && safe_only(p)[k] == p[i];
                assert(safe_only(s)[k] == safe_only(p)[k]);
            } else {
                assert(safe_only(s)[safe_only(p).len() as int] == s[i]);
            }
        }
    }
}

/// Appends the entries of `set`, under `provider`, that `deny` permits.
fn append_entries(out: &mut Vec<RpcEntry>, set: &MethodSet, provider: Provider, deny: DenyUnsafe)
    ensures
        final(out)@ == old(out)@ + permitted(entries_of(set.methods@, provider), deny),
{
    let ghost all = entries_of(set.methods@, provider);
    let ghost start = out@;
    let mut i: usize = 0;
    proof {
        assert(all.take(0) =~= Seq::<RpcEntry>::empty());
        assert(out@ =~= start + permitted(all.take(0), deny));
    }
    while i < set.methods.len()
        invariant
            i <= set.methods@.len(),
            all == entries_of(set.methods@, provider),
            out@ == start + permitted(all.take(i as int), deny),
        decreases set.methods@.len() - i,
    {
        let m = &set.methods[i];
        let e = RpcEntry { name: m.name.clone(), is_unsafe: m.is_unsafe, provider };
        assert(e == all[i as int]);
        proof {
            assert(all.take(i as int + 1) =~= all.take(i as int).push(e));
            lemma_safe_only_push(all.take(i as int), e);
        }
        match deny {
            DenyUnsafe::Yes => {
                if !m.is_unsafe {
                    out.push(e);
                }
            },
            DenyUnsafe::No => {
                out.push(e);
            },
        }
        proof {
            assert(out@ =~= start + permitted(all.take(i as int + 1), deny));
        }
        i = i + 1;
    }
    proof {
        assert(all.take(set.methods@.len() as int) =~= all);
    }
}

proof fn lemma_permitted_concat(a: Seq<RpcEntry>, b: Seq<RpcEntry>, deny: DenyUnsafe)
    ensures
        permitted(a + b, deny) == permitted(a, deny) + permitted(b, deny),
{
    lemma_safe_only_concat(a, b);
}

/// Builds the dispatch table served at safety level `deny`. Chain and state
/// are backed by remote fetches when both remote handles are present, and by
/// local state otherwise; offchain methods appear only with offchain storage.
/// The extension is built for the same safety level.
pub fn gen_handler<B: RpcExtensionBuilder>(
    deny: DenyUnsafe,
    config: &Configuration,
    surface: &RpcSurface,
    ctx: RpcContext,
    extension: &B,
) -> (r: RpcHandler)
    ensures
        r.entries@ == spec_table(*surface, ctx, extension.methods_for(deny), deny),
        r.system == spec_system_info(*config),
{
    let ext = extension.build(deny);
    handler_from(deny, system_info(config), surface, ctx, &ext)
}

/// The handler the node keeps for its own callers: unsafe methods are
/// allowed, so it must never be bound to an externally reachable transport.
pub fn internal_handler<B: RpcExtensionBuilder>(
    config: &Configuration,
    surface: &RpcSurface,
    ctx: RpcContext,
    extension: &B,
) -> (r: RpcHandler)
    ensures
        r.entries@ == spec_table(*surface, ctx, extension.methods_for(DenyUnsafe::No), DenyUnsafe::No),
        r.system == spec_system_info(*config),
{
    gen_handler(DenyUnsafe::No, config, surface, ctx, extension)
}

/// Builds the dispatch table served at safety level `deny`, with the
/// extension's methods already built.
pub fn handler_from(
    deny: DenyUnsafe,
    system: SystemInfo,
    surface: &RpcSurface,
    ctx: RpcContext,
    ext: &MethodSet,
) -> (r: RpcHandler)
    ensures
        r.entries@ == spec_table(*surface, ctx, ext.methods@, deny),
        r.system == system,
{
    let backing = if ctx.remote_handles {
        Backing::Light
    } else {
        Backing::Full
    };
    let mut entries: Vec<RpcEntry> = Vec::new();
    append_entries(&mut entries, &surface.state, Provider::State(backing), deny);
    append_entries(&mut entries, &surface.child_state, Provider::ChildState(backing), deny);
    append_entries(&mut entries, &surface.chain, Provider::Chain(backing), deny);
    if ctx.offchain_storage {
        append_entries(&mut entries, &surface.offchain, Provider::Offchain, deny);
    }
    append_entries(&mut entries, &surface.author, Provider::Author, deny);
    append_entries(&mut entries, &surface.system, Provider::System, deny);
    append_entries(&mut entries, ext, Provider::Extension, deny);
    proof {
        let s = entries_of(surface.state.methods@, Provider::State(backing));
        let cs = entries_of(surface.child_state.methods@, Provider::ChildState(backing));
        let c = entries_of(surface.chain.methods@, Provider::Chain(backing));
        let o: Seq<RpcEntry> = if ctx.offchain_storage {
            entries_of(surface.offchain.methods@, Provider::Offchain)
        } else {
            Seq::empty()
        };
        let a = entries_of(surface.author.methods@, Provider::Author);
        let sy = entries_of(surface.system.methods@, Provider::System);
        let x = entries_of(ext.methods@, Provider::Extension);
        assert(permitted(Seq::<RpcEntry>::empty(), deny) =~= Seq::<RpcEntry>::empty());
        lemma_permitted_concat(s, cs, deny);
        lemma_permitted_concat(s + cs, c, deny);
        lemma_permitted_concat(s + cs + c, o, deny);
        lemma_permitted_concat(s + cs + c + o, a, deny);
        lemma_permitted_concat(s + cs + c + o + a, sy, deny);
        lemma_permitted_concat(s + cs + c + o + a + sy, x, deny);
        assert(entries@ =~= permitted(s + cs + c + o + a + sy + x, deny));
    }
    RpcHandler { entries, system }
}

impl RpcHandler {
    /// The first entry named `name`, or `MethodNotFound` when the table has
    /// none: a method left out of the table is never executed.
    pub fn dispatch(&self, name: &String) -> (r: Result<&RpcEntry, RpcError>)
        ensures
            match r {
                Ok(e) => exists|i: int|
                    0 <= i < self.entries@.len() && self.entries@[i] == *e && e.name@ == name@,
                Err(err) => err == RpcError::MethodNotFound && !names(self.entries@).contains(
                    name@,
                ),
            },
    {
        let mut i: usize = 0;
        while i < self.entries.len()
            invariant
                i <= self.entries@.len(),
                forall|j: int| 0 <= j < i ==> self.entries@[j].name@ != name@,
            decreases self.entries@.len() - i,
        {
            if self.entries[i].name == *name {
                return Ok(&self.entries[i]);
            }
            i = i + 1;
        }
        Err(RpcError::MethodNotFound)
    }
}

/// For one set of constructors, every entry of the table that denies unsafe
/// methods is in the table that allows them, so its names are a subset; a
/// name carried only by unsafe methods is missing from it, so dispatching it
/// there finds nothing; and when such a name exists the subset is strict.
pub proof fn lemma_safe_table_within_unsafe(
    surface: RpcSurface,
    ctx: RpcContext,
    ext: Seq<RpcMethod>,
)
    ensures
        forall|j: int|
            0 <= j < spec_table(surface, ctx, ext, DenyUnsafe::Yes).len() ==> spec_table(
                surface,
                ctx,
                ext,
                DenyUnsafe::No,
            ).contains(#[trigger] spec_table(surface, ctx, ext, DenyUnsafe::Yes)[j]),
        names(spec_table(surface, ctx, ext, DenyUnsafe::Yes)).subset_of(
            names(spec_table(surface, ctx, ext, DenyUnsafe::No)),
        ),
        forall|n: Seq<char>|
            unsafe_only(spec_table(surface, ctx, ext, DenyUnsafe::No), n) ==> !names(
                spec_table(surface, ctx, ext, DenyUnsafe::Yes),
            ).contains(n),
        (exists|n: Seq<char>| unsafe_only(spec_table(surface, ctx, ext, DenyUnsafe::No), n))
            ==> names(spec_table(surface, ctx, ext, DenyUnsafe::Yes)) != names(
            spec_table(surface, ctx, ext, DenyUnsafe::No),
        ),
{
    let all = all_entries(surface, ctx, ext);
    let safe = spec_table(surface, ctx, ext, DenyUnsafe::Yes);
    lemma_safe_only_members(all);
    assert forall|n: Seq<char>| names(safe).contains(n) implies names(all).contains(n) by {
        let j = choose|j: int| 0 <= j < safe.len() && safe[j].name@ == n;
        assert(all.contains(safe[j]));
        let i = choose|i: int| 0 <= i < all.len() && all[i] == safe[j];
    }
    assert forall|n: Seq<char>| unsafe_only(all, n) implies !names(safe).contains(n) by {
        if names(safe).contains(n) {
            let j = choose|j: int| 0 <= j < safe.len() && safe[j].name@ == n;
            assert(all.contains(safe[j]));
            let i = choose|i: int| 0 <= i < all.len() && all[i] == safe[j];
            assert(!safe[j].is_unsafe);
        }
    }
    if exists|n: Seq<char>| unsafe_only(all, n) {
        let n = choose|n: Seq<char>| unsafe_only(all, n);
        assert(names(all).contains(n));
        assert(!names(safe).contains(n));
    }
}

} // verus!
