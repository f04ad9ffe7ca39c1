//! The registries of nodes and agents: a global registry of each kind and a
//! list per owner, each holding an address at most once.

use vstd::prelude::*;
use crate::types::{Agent, CustomError, GPUNode, Pubkey};

verus! {

/// Entries that the global node registry has room for.
pub const GPU_NODE_REGISTRY_CAPACITY: usize = 99_999;

/// Entries that the global agent registry has room for.
pub const AGENT_REGISTRY_CAPACITY: usize = 9_999;

/// Entries that the global task registry has room for.
pub const AI_TASK_REGISTRY_CAPACITY: usize = 9_999;

/// Entries that one owner's node list has room for.
pub const GPU_NODE_LIST_CAPACITY: usize = 9_999;

/// Entries that one owner's agent list has room for.
pub const AGENT_LIST_CAPACITY: usize = 999;

/// The nodes that one owner registered.
#[derive(Clone, Debug, PartialEq, Eq)]
pub struct GPUNodeList {
    pub nodes: Vec<Pubkey>,
}

/// Every registered node.
#[derive(Clone, Debug, PartialEq, Eq)]
pub struct GPUNodeRegistry {
    pub nodes: Vec<Pubkey>,
}

/// The agents that one owner registered.
#[derive(Clone, Debug, PartialEq, Eq)]
pub struct AgentList {
    pub agents: Vec<Pubkey>,
}

/// Every registered agent.
#[derive(Clone, Debug, PartialEq, Eq)]
pub struct AgentRegistry {
    pub agents: Vec<Pubkey>,
}

/// The receipts of every settled task.
#[derive(Clone, Debug, PartialEq, Eq)]
pub struct AiTaskRegistry {
    pub tasks: Vec<Pubkey>,
}

/// `key` stands in `s` at exactly one position.
pub open spec fn appears_once(s: Seq<Pubkey>, key: Pubkey) -> bool {
    exists|i: int|
        0 <= i < s.len() && s[i] == key && forall|j: int|
            0 <= j < s.len() && s[j] == key ==> j == i
}

/// Registration of `key` fails for want of room: it is new to the global
/// registry, and the registry is full, or the owner's list is full and does
/// not hold it yet.
pub open spec fn registration_fails(
    list: Seq<Pubkey>,
    registry: Seq<Pubkey>,
    key: Pubkey,
    list_capacity: usize,
    registry_capacity: usize,
) -> bool {
    !registry.contains(key) && ((!list.contains(key) && list.len() >= list_capacity)
        || registry.len() >= registry_capacity)
}

/// The owner's list and the global registry after `key` is registered: an
/// address that the registry already holds changes neither; a new one is
/// appended to the registry, and to the owner's list unless the list holds it
/// already.
pub open spec fn registered_lists(list: Seq<Pubkey>, registry: Seq<Pubkey>, key: Pubkey) -> (
    Seq<Pubkey>,
    Seq<Pubkey>,
) {
    if registry.contains(key) {
        (list, registry)
    } else if list.contains(key) {
        (list, registry.push(key))
    } else {
        (list.push(key), registry.push(key))
    }
}

/// Appending an address that `s` does not hold keeps `s` free of repeats.
proof fn lemma_push_keeps_unique(s: Seq<Pubkey>, key: Pubkey)
    requires
        s.no_duplicates(),
        !s.contains(key),
    ensures
        s.push(key).no_duplicates(),
{
    let t = s.push(key);
    assert forall|i: int, j: int| 0 <= i < t.len() && 0 <= j < t.len() && i != j implies t[i]
        != t[j] by {
        if i < s.len() && j < s.len() {
        } else if i < s.len() {
            assert(s.contains(s[i]));
        } else {
            assert(s.contains(s[j]));
        }
    }
}

/// Whether `keys` holds `key`, by a scan from the front.
pub fn contains_key(keys: &Vec<Pubkey>, key: &Pubkey) -> (r: bool)
    ensures
        r == keys@.contains(*key),
{
    let mut i: usize = 0;
    while i < keys.len()
        invariant
            i <= keys@.len(),
            forall|j: int| 0 <= j < i ==> keys@[j] != *key,
        decreases keys@.len() - i,
    {
        if keys[i].same_as(key) {
            return true;
        }
        i = i + 1;
    }
    false
}

/// Registration keeps the owner's list and the global registry free of
/// repeated addresses.
pub proof fn lemma_registration_keeps_unique(list: Seq<Pubkey>, registry: Seq<Pubkey>, key: Pubkey)
    requires
        list.no_duplicates(),
        registry.no_duplicates(),
    ensures
        registered_lists(list, registry, key).0.no_duplicates(),
        registered_lists(list, registry, key).1.no_duplicates(),
{
    if !registry.contains(key) {
        lemma_push_keeps_unique(registry, key);
        if !list.contains(key) {
            lemma_push_keeps_unique(list, key);
        }
    }
}

/// Registering the same address twice leaves it exactly once in the owner's
/// list and exactly once in the global registry, and the second registration
/// always succeeds without changing either. An address that the registry
/// holds already must have come in through this owner's list, as it does
/// where each slot's address is derived from its owner.
pub proof fn lemma_registration_idempotent(
    list: Seq<Pubkey>,
    registry: Seq<Pubkey>,
    key: Pubkey,
    list_capacity: usize,
    registry_capacity: usize,
)
    requires
        list.no_duplicates(),
        registry.no_duplicates(),
        registry.contains(key) ==> list.contains(key),
        !registration_fails(list, registry, key, list_capacity, registry_capacity),
    ensures
        ({
            let (l1, g1) = registered_lists(list, registry, key);
            let (l2, g2) = registered_lists(l1, g1, key);
            &&& !registration_fails(l1, g1, key, list_capacity, registry_capacity)
            &&& l2 == l1
            &&& g2 == g1
            &&& appears_once(l2, key)
            &&& appears_once(g2, key)
        }),
{
    let (l1, g1) = registered_lists(list, registry, key);
    lemma_registration_keeps_unique(list, registry, key);
    if !registry.contains(key) {
        assert(g1[g1.len() - 1] == key);
        if !list.contains(key) {
            assert(l1[l1.len() - 1] == key);
        }
    }
    assert(g1.contains(key));
    assert(l1.contains(key));
    let i = choose|i: int| 0 <= i < l1.len() && l1[i] == key;
    assert(forall|j: int| 0 <= j < l1.len() && l1[j] == key ==> j == i);
    let k = choose|k: int| 0 <= k < g1.len() && g1[k] == key;
    assert(forall|j: int| 0 <= j < g1.len() && g1[j] == key ==> j == k);
}

} // verus!
