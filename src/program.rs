//! The protocol's four operations, each over the accounts that it reads and
//! writes. An operation that fails leaves every one of its accounts as it was.

use vstd::prelude::*;
use crate::registry::{
    contains_key, lemma_registration_keeps_unique, registered_lists, registration_fails, AgentList, AgentRegistry, AiTaskRegistry,
    GPUNodeList, GPUNodeRegistry, AGENT_LIST_CAPACITY, AGENT_REGISTRY_CAPACITY,
    AI_TASK_REGISTRY_CAPACITY, GPU_NODE_LIST_CAPACITY, GPU_NODE_REGISTRY_CAPACITY,
};
use crate::signing::{signature_outcome, task_payload, ed25519_accepts, verify_task_signatures};
use crate::split::{agent_reward_of, lemma_split_exact, node_reward_of, split_price, SPLIT_SCALE};
use crate::token::{result_of, transfer, transfer_error};
use crate::types::{Agent, AiTask, AiTaskSignature, CustomError, GPUNode, Pubkey, TokenAccount};

verus! {

/// The accounts of the one-time setup: the three global registries, and
/// whether they have been created.
#[derive(Clone, Debug, PartialEq, Eq)]
pub struct Initialize {
    pub gpu_node_registry: GPUNodeRegistry,
    pub agent_registry: AgentRegistry,
    pub ai_task_registry: AiTaskRegistry,
    pub initialized: bool,
    pub user: Pubkey,
}

/// Creates the three global registries, empty, once: where they exist
/// already, fails and changes nothing.
pub fn initialize(ctx: &mut Initialize) -> (r: Result<(), CustomError>)
    ensures
        old(ctx).initialized ==> r == Err::<(), CustomError>(CustomError::AlreadyInUse)
            && *final(ctx) == *old(ctx),
        !old(ctx).initialized ==> r == Ok::<(), CustomError>(())
            && final(ctx).gpu_node_registry.nodes@ == Seq::<Pubkey>::empty()
            && final(ctx).agent_registry.agents@ == Seq::<Pubkey>::empty()
            && final(ctx).ai_task_registry.tasks@ == Seq::<Pubkey>::empty()
            && final(ctx).initialized && final(ctx).user == old(ctx).user,
{
    if ctx.initialized {
        return Err(CustomError::AlreadyInUse);
    }
    ctx.gpu_node_registry = GPUNodeRegistry { nodes: Vec::new() };
    ctx.agent_registry = AgentRegistry { agents: Vec::new() };
    ctx.ai_task_registry = AiTaskRegistry { tasks: Vec::new() };
    ctx.initialized = true;
    Ok(())
}

/// The accounts that registering a node touches: the global node registry,
/// the owner's node list, and the slot at address `gpu_node_key` that the
/// node record is written to.
#[derive(Clone, Debug, PartialEq, Eq)]
pub struct RegisterGPUNode {
    pub gpu_node_registry: GPUNodeRegistry,
    pub gpu_nodes: GPUNodeList,
    pub gpu_node_key: Pubkey,
    pub gpu_node: GPUNode,
    pub owner: Pubkey,
}

/// Writes `node` to its slot and enters the slot's address in the owner's
/// list and in the global registry, unless the registry holds it already;
/// an address is never entered twice in the owner's list.
pub fn register_gpu_node(ctx: &mut RegisterGPUNode, node: GPUNode) -> (r: Result<(), CustomError>)
    ensures
        r.is_err() <==> registration_fails(
            old(ctx).gpu_nodes.nodes@,
            old(ctx).gpu_node_registry.nodes@,
            old(ctx).gpu_node_key,
            GPU_NODE_LIST_CAPACITY,
            GPU_NODE_REGISTRY_CAPACITY,
        ),
        r.is_err() ==> r == Err::<(), CustomError>(CustomError::StorageExhausted) && *final(ctx)
            == *old(ctx),
        r.is_ok() ==> (final(ctx).gpu_nodes.nodes@, final(ctx).gpu_node_registry.nodes@)
            == registered_lists(
            old(ctx).gpu_nodes.nodes@,
            old(ctx).gpu_node_registry.nodes@,
            old(ctx).gpu_node_key,
        ) && final(ctx).gpu_node == node && final(ctx).gpu_node_key == old(ctx).gpu_node_key
            && final(ctx).owner == old(ctx).owner,
        old(ctx).gpu_nodes.nodes@.no_duplicates() && old(ctx).gpu_node_registry.nodes@.no_duplicates()
            ==> final(ctx).gpu_nodes.nodes@.no_duplicates()
            && final(ctx).gpu_node_registry.nodes@.no_duplicates(),
{
    proof {
        let list = old(ctx).gpu_nodes.nodes@;
        let registry = old(ctx).gpu_node_registry.nodes@;
        let key = old(ctx).gpu_node_key;
        if list.no_duplicates() && registry.no_duplicates() {
            lemma_registration_keeps_unique(list, registry, key);
        }
    }
    let present = contains_key(&ctx.gpu_node_registry.nodes, &ctx.gpu_node_key);
    let listed = contains_key(&ctx.gpu_nodes.nodes, &ctx.gpu_node_key);
    if !present && ((!listed && ctx.gpu_nodes.nodes.len() >= GPU_NODE_LIST_CAPACITY)
        || ctx.gpu_node_registry.nodes.len() >= GPU_NODE_REGISTRY_CAPACITY) {
        return Err(CustomError::StorageExhausted);
    }
    ctx.gpu_node = node;
    if !present {
        let key = ctx.gpu_node_key;
        if !listed {
            ctx.gpu_nodes.nodes.push(key);
        }
        ctx.gpu_node_registry.nodes.push(key);
    }
    Ok(())
}

/// The accounts that registering an agent touches: the global agent
/// registry, the owner's agent list, and the slot at address `agent_key` that
/// the agent record is written to.
#[derive(Clone, Debug, PartialEq, Eq)]
pub struct RegisterAgent {
    pub agent_registry: AgentRegistry,
    pub agent_list: AgentList,
    pub agent_key: Pubkey,
    pub agent: Agent,
    pub owner: Pubkey,
}

/// Writes `agent` to its slot and enters the slot's address in the owner's
/// list and in the global registry, unless the registry holds it already;
/// an address is never entered twice in the owner's list.
pub fn register_agent(ctx: &mut RegisterAgent, agent: Agent) -> (r: Result<(), CustomError>)
    ensures
        r.is_err() <==> registration_fails(
            old(ctx).agent_list.agents@,
            old(ctx).agent_registry.agents@,
            old(ctx).agent_key,
            AGENT_LIST_CAPACITY,
            AGENT_REGISTRY_CAPACITY,
        ),
        r.is_err() ==> r == Err::<(), CustomError>(CustomError::StorageExhausted) && *final(ctx)
            == *old(ctx),
        r.is_ok() ==> (final(ctx).agent_list.agents@, final(ctx).agent_registry.agents@)
            == registered_lists(
            old(ctx).agent_list.agents@,
            old(ctx).agent_registry.agents@,
            old(ctx).agent_key,
        ) && final(ctx).agent == agent && final(ctx).agent_key == old(ctx).agent_key
            && final(ctx).owner == old(ctx).owner,
        old(ctx).agent_list.agents@.no_duplicates() && old(ctx).agent_registry.agents@.no_duplicates()
            ==> final(ctx).agent_list.agents@.no_duplicates()
            && final(ctx).agent_registry.agents@.no_duplicates(),
{
    proof {
        let list = old(ctx).agent_list.agents@;
        let registry = old(ctx).agent_registry.agents@;
        let key = old(ctx).agent_key;
        if list.no_duplicates() && registry.no_duplicates() {
            lemma_registration_keeps_unique(list, registry, key);
        }
    }
    let present = contains_key(&ctx.agent_registry.agents, &ctx.agent_key);
    let listed = contains_key(&ctx.agent_list.agents, &ctx.agent_key);
    if !present && ((!listed && ctx.agent_list.agents.len() >= AGENT_LIST_CAPACITY)
        || ctx.agent_registry.agents.len() >= AGENT_REGISTRY_CAPACITY) {
        return Err(CustomError::StorageExhausted);
    }
    ctx.agent = agent;
    if !present {
        let key = ctx.agent_key;
        if !listed {
            ctx.agent_list.agents.push(key);
        }
        ctx.agent_registry.agents.push(key);
    }
    Ok(())
}

/// The accounts that settling a task touches: the task registry, the slot at
/// address `ai_task_key` that receives the receipt, the node and the agent
/// that the task names, the token accounts that receive their rewards, the
/// user's delegated allowance, and the user who submits.
#[derive(Clone, Debug, PartialEq, Eq)]
pub struct SubmitTask {
    pub ai_task_registry: AiTaskRegistry,
    pub ai_task_key: Pubkey,
    pub ai_task: AiTask,
    pub gpu_node: GPUNode,
    pub gpu_node_wallet: TokenAccount,
    pub agent: Agent,
    pub agent_wallet: TokenAccount,
    pub delegate: TokenAccount,
    pub user: Pubkey,
}

/// The accounts belong to the parties that `task` names.
pub open spec fn accounts_bound(ctx: SubmitTask, task: AiTask) -> bool {
    &&& ctx.user == task.user
    &&& ctx.agent.owner == task.agent_owner
    &&& ctx.agent_wallet.owner == task.agent_owner
    &&& ctx.gpu_node.owner == task.gpu_node_owner
    &&& ctx.gpu_node_wallet.owner == task.gpu_node_owner
}

/// The allowance after the agent has been paid.
pub open spec fn delegate_after_agent(ctx: SubmitTask, task: AiTask) -> TokenAccount {
    TokenAccount {
        amount: (ctx.delegate.amount - agent_reward_of(
            task.price as int,
            ctx.agent.revenue_split as int,
        )) as u64,
        ..ctx.delegate
    }
}

/// Why settling `task` over the accounts of `ctx` fails, if it does, checked
/// in this order: account binding, the revenue split, the allowance, a receipt
/// slot that no earlier settlement used, room for the receipt, then the transfer to the agent and the transfer to the node.
pub open spec fn settle_error(ctx: SubmitTask, task: AiTask) -> Option<CustomError> {
    let agent_reward = agent_reward_of(task.price as int, ctx.agent.revenue_split as int);
    let node_reward = node_reward_of(task.price as int, ctx.agent.revenue_split as int);
    if !accounts_bound(ctx, task) {
        Some(CustomError::InvalidAccountBinding)
    } else if ctx.agent.revenue_split > SPLIT_SCALE {
        Some(CustomError::MalformedInput)
    } else if ctx.delegate.amount < task.price {
        Some(CustomError::InsufficientFunds)
    } else if ctx.ai_task_registry.tasks@.contains(ctx.ai_task_key) {
        Some(CustomError::AlreadyInUse)
    } else if ctx.ai_task_registry.tasks@.len() >= AI_TASK_REGISTRY_CAPACITY {
        Some(CustomError::StorageExhausted)
    } else if transfer_error(ctx.delegate, ctx.agent_wallet, ctx.user, agent_reward as u64).is_some() {
        transfer_error(ctx.delegate, ctx.agent_wallet, ctx.user, agent_reward as u64)
    } else {
        transfer_error(
            delegate_after_agent(ctx, task),
            ctx.gpu_node_wallet,
            ctx.user,
            node_reward as u64,
        )
    }
}

/// `after` is `before` with `task` settled: the allowance has paid the price,
/// the agent's wallet has its reward and the node's wallet the rest, and the
/// receipt is written and entered in the task registry.
pub open spec fn settled(before: SubmitTask, after: SubmitTask, task: AiTask) -> bool {
    let split = before.agent.revenue_split as int;
    &&& after.delegate.amount == before.delegate.amount - task.price
    &&& after.agent_wallet.amount == before.agent_wallet.amount + agent_reward_of(
        task.price as int,
        split,
    )
    &&& after.gpu_node_wallet.amount == before.gpu_node_wallet.amount + node_reward_of(
        task.price as int,
        split,
    )
    &&& after.delegate.mint == before.delegate.mint
    &&& after.delegate.owner == before.delegate.owner
    &&& after.agent_wallet.mint == before.agent_wallet.mint
    &&& after.agent_wallet.owner == before.agent_wallet.owner
    &&& after.gpu_node_wallet.mint == before.gpu_node_wallet.mint
    &&& after.gpu_node_wallet.owner == before.gpu_node_wallet.owner
    &&& after.ai_task == task
    &&& after.ai_task_registry.tasks@ == before.ai_task_registry.tasks@.push(before.ai_task_key)
    &&& after.ai_task_key == before.ai_task_key
    &&& after.gpu_node == before.gpu_node
    &&& after.agent == before.agent
    &&& after.user == before.user
}

/// Settles `task`, whose signatures have been checked: pays the agent and the
/// node out of the allowance and records the receipt, all or nothing.
pub fn settle(ctx: &mut SubmitTask, task: AiTask) -> (r: Result<(), CustomError>)
    ensures
        r == result_of(settle_error(*old(ctx), task)),
        r.is_err() ==> *final(ctx) == *old(ctx),
        old(ctx).ai_task_registry.tasks@.contains(old(ctx).ai_task_key) ==> r.is_err(),
        r.is_ok() ==> settled(*old(ctx), *final(ctx), task),
{
    if !(ctx.user.same_as(&task.user) && ctx.agent.owner.same_as(&task.agent_owner)
        && ctx.agent_wallet.owner.same_as(&task.agent_owner) && ctx.gpu_node.owner.same_as(
        &task.gpu_node_owner,
    ) && ctx.gpu_node_wallet.owner.same_as(&task.gpu_node_owner)) {
        return Err(CustomError::InvalidAccountBinding);
    }
    if ctx.agent.revenue_split > SPLIT_SCALE {
        return Err(CustomError::MalformedInput);
    }
    if ctx.delegate.amount < task.price {
        return Err(CustomError::InsufficientFunds);
    }
    if contains_key(&ctx.ai_task_registry.tasks, &ctx.ai_task_key) {
        return Err(CustomError::AlreadyInUse);
    }
    if ctx.ai_task_registry.tasks.len() >= AI_TASK_REGISTRY_CAPACITY {
        return Err(CustomError::StorageExhausted);
    }
    let (agent_reward, node_reward) = split_price(task.price, ctx.agent.revenue_split);
    let mut delegate = ctx.delegate;
    let mut agent_wallet = ctx.agent_wallet;
    let mut gpu_node_wallet = ctx.gpu_node_wallet;
    match transfer(&mut delegate, &mut agent_wallet, &ctx.user, agent_reward) {
        Err(e) => {
            return Err(e);
        },
        Ok(()) => {},
    }
    assert(delegate == delegate_after_agent(*old(ctx), task));
    match transfer(&mut delegate, &mut gpu_node_wallet, &ctx.user, node_reward) {
        Err(e) => {
            return Err(e);
        },
        Ok(()) => {},
    }
    ctx.delegate = delegate;
    ctx.agent_wallet = agent_wallet;
    ctx.gpu_node_wallet = gpu_node_wallet;
    ctx.ai_task = task;
    let key = ctx.ai_task_key;
    ctx.ai_task_registry.tasks.push(key);
    Ok(())
}

/// What submitting `task` with `signature` over the accounts of `ctx` gives:
/// the signature check's failure, if any, and otherwise the settlement's.
pub open spec fn submit_outcome(ctx: SubmitTask, task: AiTask, signature: AiTaskSignature) -> Result<
    (),
    CustomError,
> {
    match signature_outcome(task, signature) {
        Err(e) => Err(e),
        Ok(()) => result_of(settle_error(ctx, task)),
    }
}

/// Checks the three parties' signatures over `task`, then settles it.
pub fn submit_task(ctx: &mut SubmitTask, task: AiTask, signature: AiTaskSignature) -> (r: Result<
    (),
    CustomError,
>)
    ensures
        r == submit_outcome(*old(ctx), task, signature),
        r.is_err() ==> *final(ctx) == *old(ctx),
        old(ctx).ai_task_registry.tasks@.contains(old(ctx).ai_task_key) ==> r.is_err(),
        r.is_ok() ==> settled(*old(ctx), *final(ctx), task),
        r.is_ok() ==> ed25519_accepts(task_payload(task), task.user@, signature.user@)
            && ed25519_accepts(task_payload(task), task.agent_owner@, signature.agent@)
            && ed25519_accepts(task_payload(task), task.gpu_node_owner@, signature.gpu_node@),
{
    match verify_task_signatures(&task, &signature) {
        Err(e) => Err(e),
        Ok(()) => settle(ctx, task),
    }
}

/// A task priced above the allowance is refused for want of funds, once its
/// signatures verify, its accounts are bound and its split is valid; the
/// refusal changes nothing, so the allowance keeps its amount.
pub proof fn lemma_balance_gating(ctx: SubmitTask, task: AiTask, signature: AiTaskSignature)
    requires
        signature_outcome(task, signature) == Ok::<(), CustomError>(()),
        accounts_bound(ctx, task),
        ctx.agent.revenue_split <= SPLIT_SCALE,
        ctx.delegate.amount < task.price,
    ensures
        submit_outcome(ctx, task, signature) == Err::<(), CustomError>(
            CustomError::InsufficientFunds,
        ),
{
}

/// Where the transfer to the agent would go through and the transfer to the
/// node would not, the settlement fails with the second transfer's error;
/// since a failed settlement changes nothing, the first transfer is not
/// observable either.
pub proof fn lemma_all_or_nothing(ctx: SubmitTask, task: AiTask)
    requires
        accounts_bound(ctx, task),
        ctx.agent.revenue_split <= SPLIT_SCALE,
        ctx.delegate.amount >= task.price,
        !ctx.ai_task_registry.tasks@.contains(ctx.ai_task_key),
        ctx.ai_task_registry.tasks@.len() < AI_TASK_REGISTRY_CAPACITY,
        transfer_error(
            ctx.delegate,
            ctx.agent_wallet,
            ctx.user,
            agent_reward_of(task.price as int, ctx.agent.revenue_split as int) as u64,
        ).is_none(),
        transfer_error(
            delegate_after_agent(ctx, task),
            ctx.gpu_node_wallet,
            ctx.user,
            node_reward_of(task.price as int, ctx.agent.revenue_split as int) as u64,
        ).is_some(),
    ensures
        settle_error(ctx, task) == transfer_error(
            delegate_after_agent(ctx, task),
            ctx.gpu_node_wallet,
            ctx.user,
            node_reward_of(task.price as int, ctx.agent.revenue_split as int) as u64,
        ),
        settle_error(ctx, task).is_some(),
{
}

/// A settlement pays out exactly the task's price: what the agent's wallet
/// and the node's wallet gain adds up to the price, which is what the
/// allowance loses.
pub proof fn lemma_settlement_pays_price(before: SubmitTask, after: SubmitTask, task: AiTask)
    requires
        settled(before, after, task),
        before.agent.revenue_split <= SPLIT_SCALE,
    ensures
        (after.agent_wallet.amount - before.agent_wallet.amount) + (after.gpu_node_wallet.amount
            - before.gpu_node_wallet.amount) == task.price,
        before.delegate.amount - after.delegate.amount == task.price,
{
    lemma_split_exact(task.price, before.agent.revenue_split);
}

} // verus!
