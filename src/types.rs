//! The records that the protocol stores and exchanges.

use vstd::prelude::*;

verus! {

/// A 32-byte account address, which is also an ed25519 public key.
#[derive(Clone, Copy, Debug, PartialEq, Eq)]
pub struct Pubkey {
    pub bytes: [u8; 32],
}

impl Pubkey {
    pub open spec fn view(self) -> Seq<u8> {
        self.bytes@
    }

    /// Compares two addresses byte by byte.
    pub fn same_as(&self, other: &Pubkey) -> (r: bool)
        ensures
            r == (*self == *other),
    {
        let mut i: usize = 0;
        while i < 32
            invariant
                i <= 32,
                forall|j: int| 0 <= j < i ==> self.bytes[j] == other.bytes[j],
            decreases 32 - i,
        {
            if self.bytes[i] != other.bytes[i] {
                return false;
            }
            i = i + 1;
        }
        assert(self.bytes =~= other.bytes);
        true
    }
}

/// One graphics card of a node; `memory` is in megabytes.
#[derive(Clone, Debug, Default, PartialEq, Eq)]
pub struct Card {
    pub name: String,
    pub memory: u32,
}

/// A registered GPU compute node.
#[derive(Clone, Debug, PartialEq, Eq)]
pub struct GPUNode {
    pub id: String,
    pub owner: Pubkey,
    pub cards: Vec<Card>,
    pub cuda_version: String,
    pub price: u64,
    /// An IP address or a domain name.
    pub endpoint: String,
}

/// A registered AI agent.
#[derive(Clone, Debug, PartialEq, Eq)]
pub struct Agent {
    pub owner: Pubkey,
    pub title: String,
    pub desc: String,
    /// Link to an image.
    pub poster: String,
    /// LLM, Image, Audio, Video.
    pub category: String,
    pub docker_image_href: String,
    /// https or wss.
    pub api_protocol: String,
    pub api_port: u16,
    pub api_doc: String,
    /// The agent's share of a task's price, in parts per million
    /// (`SPLIT_SCALE` is the whole price).
    pub revenue_split: u32,
}

/// The task terms that the user, the agent and the node all sign.
#[derive(Clone, Copy, Debug, PartialEq, Eq)]
pub struct AiTask {
    pub user: Pubkey,
    pub agent_owner: Pubkey,
    pub gpu_node_owner: Pubkey,
    pub timestamp: u64,
    /// In the token's smallest unit.
    pub price: u64,
}

/// The three parties' signatures over the canonical encoding of one task.
#[derive(Clone, Debug, PartialEq, Eq)]
pub struct AiTaskSignature {
    pub user: Vec<u8>,
    pub agent: Vec<u8>,
    pub gpu_node: Vec<u8>,
}

/// A token account: its mint, the address allowed to move its funds, and its
/// balance.
#[derive(Clone, Copy, Debug, PartialEq, Eq)]
pub struct TokenAccount {
    pub mint: Pubkey,
    pub owner: Pubkey,
    pub amount: u64,
}

/// Every way in which an operation of the protocol can fail. A failed
/// operation changes nothing.
#[derive(Clone, Copy, Debug, PartialEq, Eq, Structural)]
pub enum CustomError {
    /// A signature does not verify, or an authority may not move the funds.
    Unauthorized,
    /// The allowance, or a source account, holds less than is to be moved.
    InsufficientFunds,
    /// An account does not belong to the party that the task names, or two
    /// token accounts hold different mints.
    InvalidAccountBinding,
    /// A registry or a list is at its capacity.
    StorageExhausted,
    /// A signature does not have the ed25519 length, or a revenue split
    /// exceeds the whole price.
    MalformedInput,
    /// A destination balance would exceed the largest `u64`.
    ArithmeticOverflow,
    /// An account that is to be created exists already: the registries at a
    /// second setup, or a receipt slot that a settlement has used.
    AlreadyInUse,
}

} // verus!
