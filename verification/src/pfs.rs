//! Namespace queries of the control channel.
//!
//! A namespace (PFS) is an inode-type entry among the siblings under the
//! super-root. A query walks those siblings through the engine's chain
//! accessors. The walk is a state machine: it names the next engine call as an
//! [`Action`], and is handed what the call returned as an [`Event`], until it
//! finishes with a reply or an error.
use vstd::prelude::*;
use crate::error::{protocol_error_of, to_protocol_error, EngineError, ErrorCode, ProtocolError};

verus! {

/// The largest key; as a next-key it says that no sibling follows.
pub const KEY_MAX: u64 = 0xffff_ffff_ffff_ffff;

/// The low bits of a name hash that tell apart names with one hash.
pub const DIRHASH_LOMASK: u64 = 0x7fff;

/// The block reference type of an inode.
pub const BREF_TYPE_INODE: u8 = 1;

/// The directory a walk starts from.
#[derive(Clone, Copy, Debug, PartialEq, Eq, Structural)]
pub enum Root {
    /// The root of the mounted namespace.
    Pfs,
    /// The super-root, whose entries are the namespaces.
    Super,
}

/// The metadata of a namespace, read from its inode.
#[derive(Clone, Copy, Debug, PartialEq, Eq, Structural)]
pub struct PfsInode {
    pub name_key: u64,
    pub pfs_type: u8,
    pub pfs_subtype: u8,
    pub pfs_clid: u128,
    pub pfs_fsid: u128,
}

/// What the engine tells of one chain.
#[derive(Clone, Copy, Debug, PartialEq, Eq, Structural)]
pub struct ChainProbe {
    /// The type of the chain's block reference.
    pub bref_type: u8,
    /// The chain's key.
    pub key: u64,
    /// Whether the chain's name is exactly the requested name. Read only by a
    /// lookup by name.
    pub name_matches: bool,
}

/// A namespace query.
#[derive(Clone, Copy, Debug, PartialEq, Eq)]
pub enum PfsQuery {
    /// The first namespace at or after a key. The key [`KEY_MAX`] asks for the
    /// mounted namespace itself.
    Get { name_key: u64 },
    /// The namespace with a given name. `name_hash` is the hash of the
    /// requested name and `name_error` the error of reading the name from the
    /// payload, if that failed.
    Lookup { name_hash: Result<u64, EngineError>, name_error: Option<EngineError> },
}

/// The fields a successful query sets in the reply structure.
#[derive(Clone, Copy, Debug, PartialEq, Eq)]
pub struct PfsReply {
    /// The namespace found.
    pub inode: PfsInode,
    /// The chain it was read from.
    pub chain: u64,
    /// Whether the reply also takes the namespace's name from the inode.
    pub copy_name: bool,
    /// The key to continue from: the key of the sibling that follows the
    /// namespace found, [`KEY_MAX`] where nothing follows.
    pub name_next: u64,
}

/// The engine call a walk asks for next.
#[derive(Clone, Copy, Debug, PartialEq, Eq)]
pub enum Action {
    /// Resolve the chain of a root directory.
    ResolveRoot(Root),
    /// Find the first chain under the root's chain with a key in `key_beg..=key_end`.
    Lookup { root: u64, key_beg: u64, key_end: u64 },
    /// Find the chain that follows `chain` under `parent`, up to `key_end`.
    Next { parent: Option<u64>, chain: u64, key_end: u64 },
    /// Report on a chain.
    Probe { chain: u64 },
    /// Read a chain's data as an inode.
    ReadInode { chain: u64 },
    /// The walk is over.
    Finish(Result<PfsReply, ProtocolError>),
}

/// What an engine call returned. `None` for a chain stands for "no chain".
#[derive(Clone, Copy, Debug, PartialEq, Eq)]
pub enum Event {
    /// The chain of the root asked for.
    Root(Result<Option<u64>, EngineError>),
    /// The parent and the chain that a lookup or a step to the next chain found.
    Located(Result<(Option<u64>, Option<u64>), EngineError>),
    /// The report on a chain, `None` if the engine does not hold it.
    Probe(Option<ChainProbe>),
    /// The inode read from a chain, `None` if the engine does not hold the chain.
    Inode(Option<PfsInode>),
}

/// Where a walk stands.
#[derive(Clone, Copy, Debug, PartialEq, Eq)]
pub enum Walk {
    /// Waiting for the root's chain.
    AwaitRoot { query: PfsQuery },
    /// Waiting for the next candidate.
    AwaitLocated { query: PfsQuery },
    /// Waiting for the report on a candidate.
    AwaitProbe { query: PfsQuery, parent: Option<u64>, chain: u64 },
    /// Waiting for the inode of the entry found.
    AwaitInode { query: PfsQuery, parent: Option<u64>, chain: u64 },
    /// Waiting for the sibling that follows the entry found.
    AwaitFollower { reply: PfsReply },
    /// Waiting for the report on that sibling.
    AwaitFollowerProbe { reply: PfsReply },
    /// Finished.
    Done,
}

impl PfsQuery {
    /// The key range of a lookup by name ends inside the key space.
    pub open spec fn wf(self) -> bool {
        match self {
            PfsQuery::Get { .. } => true,
            PfsQuery::Lookup { name_hash, .. } => name_hash matches Ok(h) ==> h + DIRHASH_LOMASK
                <= KEY_MAX,
        }
    }

    /// The last key a candidate may have.
    pub open spec fn key_end(self) -> u64 {
        match self {
            PfsQuery::Get { .. } => KEY_MAX,
            PfsQuery::Lookup { name_hash, .. } => match name_hash {
                Ok(h) => (h + DIRHASH_LOMASK) as u64,
                Err(_) => KEY_MAX,
            },
        }
    }

    /// The error of reading the requested name, where a lookup by name met one.
    pub open spec fn name_error(self) -> Option<EngineError> {
        match self {
            PfsQuery::Get { .. } => None,
            PfsQuery::Lookup { name_error, .. } => name_error,
        }
    }

    /// Whether a probed chain is the entry the query looks for.
    pub open spec fn accepts(self, probe: ChainProbe) -> bool {
        match self {
            PfsQuery::Get { .. } => probe.bref_type == BREF_TYPE_INODE,
            PfsQuery::Lookup { .. } => probe.name_matches,
        }
    }

    fn last_key(&self) -> (r: u64)
        requires
            self.wf(),
        ensures
            r == self.key_end(),
    {
        match self {
            PfsQuery::Get { .. } => KEY_MAX,
            PfsQuery::Lookup { name_hash, .. } => match name_hash {
                Ok(h) => *h + DIRHASH_LOMASK,
                Err(_) => KEY_MAX,
            },
        }
    }
}

impl Walk {
    /// The query a walk carries is well formed.
    pub open spec fn wf(self) -> bool {
        match self {
            Walk::AwaitRoot { query } => query.wf(),
            Walk::AwaitLocated { query } => query.wf(),
            Walk::AwaitProbe { query, .. } => query.wf(),
            Walk::AwaitInode { query, .. } => query.wf(),
            _ => true,
        }
    }
}

/// A walk that ends with an error.
pub open spec fn failed(e: ProtocolError) -> (Walk, Action) {
    (Walk::Done, Action::Finish(Err(e)))
}

/// A walk that ends with a platform error code.
pub open spec fn failed_with(code: ErrorCode) -> (Walk, Action) {
    failed(ProtocolError::Code(code))
}

/// The first step of a query: which root to resolve.
pub open spec fn begun(query: PfsQuery) -> (Walk, Action) {
    match query {
        PfsQuery::Get { name_key } => if name_key == KEY_MAX {
            (Walk::AwaitRoot { query }, Action::ResolveRoot(Root::Pfs))
        } else {
            (Walk::AwaitRoot { query }, Action::ResolveRoot(Root::Super))
        },
        PfsQuery::Lookup { .. } => (Walk::AwaitRoot { query }, Action::ResolveRoot(Root::Super)),
    }
}

/// What follows once a candidate, or the end of the range, has been located.
pub open spec fn located(query: PfsQuery, parent: Option<u64>, chain: Option<u64>) -> (
    Walk,
    Action,
) {
    match chain {
        None => failed_with(ErrorCode::NotFound),
        Some(c) => (Walk::AwaitProbe { query, parent, chain: c }, Action::Probe { chain: c }),
    }
}

/// What follows once the root's chain is known.
pub open spec fn rooted(query: PfsQuery, root: Option<u64>) -> (Walk, Action) {
    match query {
        PfsQuery::Get { name_key } => if name_key == KEY_MAX {
            located(query, None, root)
        } else {
            match root {
                None => failed_with(ErrorCode::Io),
                Some(p) => (
                    Walk::AwaitLocated { query },
                    Action::Lookup { root: p, key_beg: name_key, key_end: KEY_MAX },
                ),
            }
        },
        PfsQuery::Lookup { name_hash, .. } => match root {
            None => failed_with(ErrorCode::Io),
            Some(p) => match name_hash {
                Err(e) => failed(protocol_error_of(e)),
                Ok(h) => (
                    Walk::AwaitLocated { query },
                    Action::Lookup { root: p, key_beg: h, key_end: query.key_end() },
                ),
            },
        },
    }
}

/// What follows once a candidate has been probed.
pub open spec fn probed(query: PfsQuery, parent: Option<u64>, chain: u64, probe: ChainProbe) -> (
    Walk,
    Action,
) {
    match query.name_error() {
        Some(e) => failed(protocol_error_of(e)),
        None => if query.accepts(probe) {
            (Walk::AwaitInode { query, parent, chain }, Action::ReadInode { chain })
        } else {
            (
                Walk::AwaitLocated { query },
                Action::Next { parent, chain, key_end: query.key_end() },
            )
        },
    }
}

/// What follows once the inode of the entry found has been read: the reply
/// is made, and where the entry has a parent the sibling after it is asked
/// for, whose key the reply is to name.
pub open spec fn found(query: PfsQuery, parent: Option<u64>, chain: u64, inode: PfsInode) -> (
    Walk,
    Action,
) {
    let reply = PfsReply { inode, chain, copy_name: query is Get, name_next: KEY_MAX };
    match parent {
        None => (Walk::Done, Action::Finish(Ok(reply))),
        Some(_) => (
            Walk::AwaitFollower { reply },
            Action::Next { parent, chain, key_end: KEY_MAX },
        ),
    }
}

/// The transition of the walk: the next state and the next action, given the
/// state and what the engine returned. An event the state does not wait for
/// ends the walk with an I/O error.
pub open spec fn stepped(walk: Walk, event: Event) -> (Walk, Action) {
    match (walk, event) {
        (Walk::AwaitRoot { query }, Event::Root(Err(e))) => failed(protocol_error_of(e)),
        (Walk::AwaitRoot { query }, Event::Root(Ok(root))) => rooted(query, root),
        (Walk::AwaitLocated { query }, Event::Located(Err(e))) => failed(protocol_error_of(e)),
        (Walk::AwaitLocated { query }, Event::Located(Ok((parent, chain)))) => located(
            query,
            parent,
            chain,
        ),
        (Walk::AwaitProbe { query, parent, chain }, Event::Probe(None)) => failed_with(
            ErrorCode::NotFound,
        ),
        (Walk::AwaitProbe { query, parent, chain }, Event::Probe(Some(probe))) => probed(
            query,
            parent,
            chain,
            probe,
        ),
        (Walk::AwaitInode { query, parent, chain }, Event::Inode(None)) => failed_with(
            ErrorCode::NotFound,
        ),
        (Walk::AwaitInode { query, parent, chain }, Event::Inode(Some(inode))) => found(
            query,
            parent,
            chain,
            inode,
        ),
        (Walk::AwaitFollower { reply }, Event::Located(Err(e))) => failed(protocol_error_of(e)),
        (Walk::AwaitFollower { reply }, Event::Located(Ok((_, None)))) => (
            Walk::Done,
            Action::Finish(Ok(reply)),
        ),
        (Walk::AwaitFollower { reply }, Event::Located(Ok((_, Some(c))))) => (
            Walk::AwaitFollowerProbe { reply },
            Action::Probe { chain: c },
        ),
        (Walk::AwaitFollowerProbe { reply }, Event::Probe(None)) => failed_with(
            ErrorCode::NotFound,
        ),
        (Walk::AwaitFollowerProbe { reply }, Event::Probe(Some(probe))) => (
            Walk::Done,
            Action::Finish(Ok(PfsReply { name_next: probe.key, ..reply })),
        ),
        _ => failed_with(ErrorCode::Io),
    }
}

fn fail(e: ProtocolError) -> (r: (Walk, Action))
    ensures
        r == failed(e),
{
    (Walk::Done, Action::Finish(Err(e)))
}

fn fail_with(code: ErrorCode) -> (r: (Walk, Action))
    ensures
        r == failed_with(code),
{
    fail(ProtocolError::Code(code))
}

fn on_located(query: PfsQuery, parent: Option<u64>, chain: Option<u64>) -> (r: (Walk, Action))
    ensures
        r == located(query, parent, chain),
{
    match chain {
        None => fail_with(ErrorCode::NotFound),
        Some(c) => (Walk::AwaitProbe { query, parent, chain: c }, Action::Probe { chain: c }),
    }
}

fn on_root(query: PfsQuery, root: Option<u64>) -> (r: (Walk, Action))
    requires
        query.wf(),
    ensures
        r == rooted(query, root),
{
    match query {
        PfsQuery::Get { name_key } => {
            if name_key == KEY_MAX {
                on_located(query, None, root)
            } else {
                match root {
                    None => fail_with(ErrorCode::Io),
                    Some(p) => (
                        Walk::AwaitLocated { query },
                        Action::Lookup { root: p, key_beg: name_key, key_end: KEY_MAX },
                    ),
                }
            }
        },
        PfsQuery::Lookup { name_hash, .. } => match root {
            None => fail_with(ErrorCode::Io),
            Some(p) => match name_hash {
                Err(e) => fail(to_protocol_error(e)),
                Ok(h) => (
                    Walk::AwaitLocated { query },
                    Action::Lookup { root: p, key_beg: h, key_end: query.last_key() },
                ),
            },
        },
    }
}

fn on_probe(query: PfsQuery, parent: Option<u64>, chain: u64, probe: ChainProbe) -> (r: (
    Walk,
    Action,
))
    requires
        query.wf(),
    ensures
        r == probed(query, parent, chain, probe),
{
    let accepted = match query {
        PfsQuery::Get { .. } => probe.bref_type == BREF_TYPE_INODE,
        PfsQuery::Lookup { name_error, .. } => {
            if let Some(e) = name_error {
                return fail(to_protocol_error(e));
            }
            probe.name_matches
        },
    };
    if accepted {
        (Walk::AwaitInode { query, parent, chain }, Action::ReadInode { chain })
    } else {
        (Walk::AwaitLocated { query }, Action::Next { parent, chain, key_end: query.last_key() })
    }
}

fn on_inode(query: PfsQuery, parent: Option<u64>, chain: u64, inode: PfsInode) -> (r: (
    Walk,
    Action,
))
    ensures
        r == found(query, parent, chain, inode),
{
    let copy_name = match query {
        PfsQuery::Get { .. } => true,
        PfsQuery::Lookup { .. } => false,
    };
    let reply = PfsReply { inode, chain, copy_name, name_next: KEY_MAX };
    match parent {
        None => (Walk::Done, Action::Finish(Ok(reply))),
        Some(_) => (
            Walk::AwaitFollower { reply },
            Action::Next { parent, chain, key_end: KEY_MAX },
        ),
    }
}

/// Starts a query: the state to keep and the first engine call to make.
pub fn begin(query: PfsQuery) -> (r: (Walk, Action))
    requires
        query.wf(),
    ensures
        r == begun(query),
        r.0.wf(),
{
    match query {
        PfsQuery::Get { name_key } => {
            if name_key == KEY_MAX {
                (Walk::AwaitRoot { query }, Action::ResolveRoot(Root::Pfs))
            } else {
                (Walk::AwaitRoot { query }, Action::ResolveRoot(Root::Super))
            }
        },
        PfsQuery::Lookup { .. } => (Walk::AwaitRoot { query }, Action::ResolveRoot(Root::Super)),
    }
}

/// Advances a walk by what the engine returned for the last action.
pub fn step(walk: Walk, event: Event) -> (r: (Walk, Action))
    requires
        walk.wf(),
    ensures
        r == stepped(walk, event),
        r.0.wf(),
{
    match (walk, event) {
        (Walk::AwaitRoot { query }, Event::Root(Err(e))) => fail(to_protocol_error(e)),
        (Walk::AwaitRoot { query }, Event::Root(Ok(root))) => on_root(query, root),
        (Walk::AwaitLocated { query }, Event::Located(Err(e))) => fail(to_protocol_error(e)),
        (Walk::AwaitLocated { query }, Event::Located(Ok((parent, chain)))) => on_located(
            query,
            parent,
            chain,
        ),
        (Walk::AwaitProbe { query, parent, chain }, Event::Probe(None)) => fail_with(
            ErrorCode::NotFound,
        ),
        (Walk::AwaitProbe { query, parent, chain }, Event::Probe(Some(probe))) => on_probe(
            query,
            parent,
            chain,
            probe,
        ),
        (Walk::AwaitInode { query, parent, chain }, Event::Inode(None)) => fail_with(
            ErrorCode::NotFound,
        ),
        (Walk::AwaitInode { query, parent, chain }, Event::Inode(Some(inode))) => on_inode(
            query,
            parent,
            chain,
            inode,
        ),
        (Walk::AwaitFollower { reply }, Event::Located(Err(e))) => fail(to_protocol_error(e)),
        (Walk::AwaitFollower { reply }, Event::Located(Ok((_, None)))) => (
            Walk::Done,
            Action::Finish(Ok(reply)),
        ),
        (Walk::AwaitFollower { reply }, Event::Located(Ok((_, Some(c))))) => (
            Walk::AwaitFollowerProbe { reply },
            Action::Probe { chain: c },
        ),
        (Walk::AwaitFollowerProbe { reply }, Event::Probe(None)) => fail_with(ErrorCode::NotFound),
        (Walk::AwaitFollowerProbe { reply }, Event::Probe(Some(probe))) => (
            Walk::Done,
            Action::Finish(
                Ok(
                    PfsReply {
                        inode: reply.inode,
                        chain: reply.chain,
                        copy_name: reply.copy_name,
                        name_next: probe.key,
                    },
                ),
            ),
        ),
        _ => fail_with(ErrorCode::Io),
    }
}

/// An entry under a root, in a model of what the engine holds.
#[derive(Clone, Copy, Debug, PartialEq, Eq, Structural)]
pub struct Sibling {
    pub probe: ChainProbe,
    pub inode: PfsInode,
}

/// The first entry from index `i` on whose key lies in `key_beg..=key_end`.
pub open spec fn first_in_range(s: Seq<Sibling>, i: nat, key_beg: u64, key_end: u64) -> Option<
    u64,
>
    decreases s.len() - i,
{
    if i >= s.len() {
        None
    } else if key_beg <= s[i as int].probe.key <= key_end {
        Some(i as u64)
    } else {
        first_in_range(s, i + 1, key_beg, key_end)
    }
}

/// The entry after entry `chain`, if there is one and its key is at most `key_end`.
pub open spec fn follower(s: Seq<Sibling>, chain: u64, key_end: u64) -> Option<u64> {
    if chain + 1 < s.len() && s[chain + 1].probe.key <= key_end {
        Some((chain + 1) as u64)
    } else {
        None
    }
}

/// What a model engine returns for an action. The model holds the entries
/// `s` under the chain `root`, in the order of their keys, and knows entry
/// `i` as chain `i`.
pub open spec fn answered(root: u64, s: Seq<Sibling>, action: Action) -> Event {
    match action {
        Action::ResolveRoot(_) => Event::Root(Ok(Some(root))),
        Action::Lookup { root: r, key_beg, key_end } => Event::Located(
            Ok((Some(r), first_in_range(s, 0, key_beg, key_end))),
        ),
        Action::Next { parent, chain, key_end } => Event::Located(
            Ok((parent, follower(s, chain, key_end))),
        ),
        Action::Probe { chain } => Event::Probe(
            if chain < s.len() {
                Some(s[chain as int].probe)
            } else {
                None
            },
        ),
        Action::ReadInode { chain } => Event::Inode(
            if chain < s.len() {
                Some(s[chain as int].inode)
            } else {
                None
            },
        ),
        Action::Finish(_) => Event::Probe(None),
    }
}

/// The result of a walk that is driven by the model engine for at most
/// `fuel` engine calls; `None` if it has not finished by then.
pub open spec fn run(root: u64, s: Seq<Sibling>, walk: Walk, action: Action, fuel: nat) -> Option<
    Result<PfsReply, ProtocolError>,
>
    decreases fuel,
{
    match action {
        Action::Finish(r) => Some(r),
        _ => if fuel == 0 {
            None
        } else {
            let next = stepped(walk, answered(root, s, action));
            run(root, s, next.0, next.1, (fuel - 1) as nat)
        },
    }
}

/// The first entry the query accepts among entry `i` and those that follow
/// it inside the query's key range.
pub open spec fn match_from(s: Seq<Sibling>, query: PfsQuery, i: nat) -> Option<nat>
    decreases s.len() - i,
{
    if i >= s.len() {
        None
    } else if query.accepts(s[i as int].probe) {
        Some(i)
    } else if follower(s, i as u64, query.key_end()) is Some {
        match_from(s, query, i + 1)
    } else {
        None
    }
}

/// What a query answers when its walk starts at entry `start`: not found if
/// no entry is accepted, else the entry's inode and the key of the entry that
/// follows it, or [`KEY_MAX`] if none follows.
pub open spec fn outcome(s: Seq<Sibling>, query: PfsQuery, start: Option<u64>) -> Result<
    PfsReply,
    ProtocolError,
> {
    let hit = match start {
        None => None,
        Some(i) => match_from(s, query, i as nat),
    };
    match hit {
        None => Err(ProtocolError::Code(ErrorCode::NotFound)),
        Some(j) => Ok(
            PfsReply {
                inode: s[j as int].inode,
                chain: j as u64,
                copy_name: query is Get,
                name_next: match follower(s, j as u64, KEY_MAX) {
                    Some(n) => s[n as int].probe.key,
                    None => KEY_MAX,
                },
            },
        ),
    }
}

proof fn lemma_first_in_range(s: Seq<Sibling>, i: nat, key_beg: u64, key_end: u64)
    requires
        s.len() <= u64::MAX,
    ensures
        first_in_range(s, i, key_beg, key_end) matches Some(j) ==> i <= j < s.len(),
    decreases s.len() - i,
{
    if i < s.len() {
        lemma_first_in_range(s, i + 1, key_beg, key_end);
    }
}

proof fn lemma_scan(root: u64, s: Seq<Sibling>, query: PfsQuery, i: nat) -> (fuel: nat)
    requires
        i < s.len() <= u64::MAX,
        query.wf(),
        query.name_error() is None,
    ensures
        run(
            root,
            s,
            Walk::AwaitProbe { query, parent: Some(root), chain: i as u64 },
            Action::Probe { chain: i as u64 },
            fuel,
        ) == Some(outcome(s, query, Some(i as u64))),
    decreases s.len() - i,
{
    reveal_with_fuel(run, 5);
    let probe = s[i as int].probe;
    if query.accepts(probe) {
        4
    } else if follower(s, i as u64, query.key_end()) is Some {
        let rest = lemma_scan(root, s, query, i + 1);
        rest + 2
    } else {
        2
    }
}

/// Driven by an engine that holds the entries `s` under the super-root, a
/// query by key or by name finishes, and answers with the first entry it
/// accepts: the walk starts at the first entry whose key lies in the query's
/// range and skips entries it does not accept while one follows inside the
/// range. If there is no such entry the answer is not found. Either query
/// reports the key of the entry after the one found, or [`KEY_MAX`] where
/// none follows.
pub proof fn walk_finds_first_match(root: u64, s: Seq<Sibling>, query: PfsQuery)
    requires
        s.len() <= u64::MAX,
        query.wf(),
        query matches PfsQuery::Get { name_key } ==> name_key != KEY_MAX,
        query matches PfsQuery::Lookup { name_hash, name_error } ==> name_hash is Ok
            && name_error is None,
    ensures
        exists|fuel: nat|
            run(root, s, begun(query).0, begun(query).1, fuel) == Some(
                outcome(
                    s,
                    query,
                    first_in_range(
                        s,
                        0,
                        match query {
                            PfsQuery::Get { name_key } => name_key,
                            PfsQuery::Lookup { name_hash, .. } => name_hash->Ok_0,
                        },
                        query.key_end(),
                    ),
                ),
            ),
{
    reveal_with_fuel(run, 4);
    let key_beg = match query {
        PfsQuery::Get { name_key } => name_key,
        PfsQuery::Lookup { name_hash, .. } => name_hash->Ok_0,
    };
    let start = first_in_range(s, 0, key_beg, query.key_end());
    lemma_first_in_range(s, 0, key_beg, query.key_end());
    let b = begun(query);
    let fuel = match start {
        None => 2nat,
        Some(i) => lemma_scan(root, s, query, i as nat) + 2,
    };
    assert(run(root, s, b.0, b.1, fuel) == Some(outcome(s, query, start)));
}

} // verus!
