use ed25519_dalek::{ExpandedSecretKey, PublicKey, SecretKey};
use solana_hackthon_program::program::{settle, submit_task, SubmitTask};
use solana_hackthon_program::registry::{AiTaskRegistry, AI_TASK_REGISTRY_CAPACITY};
use solana_hackthon_program::signing::{encode_task, judge_signatures, verify_task_signatures};
use solana_hackthon_program::types::{
    Agent, AiTask, AiTaskSignature, CustomError, GPUNode, Pubkey, TokenAccount,
};

struct Party {
    secret: ExpandedSecretKey,
    public: PublicKey,
}

impl Party {
    fn new(seed: u8) -> Party {
        let secret = SecretKey::from_bytes(&[seed; 32]).unwrap();
        let public = PublicKey::from(&secret);
        Party { secret: ExpandedSecretKey::from(&secret), public }
    }

    fn key(&self) -> Pubkey {
        Pubkey { bytes: self.public.to_bytes() }
    }

    fn sign(&self, msg: &[u8]) -> Vec<u8> {
        self.secret.sign(msg, &self.public).to_bytes().to_vec()
    }
}

fn mint() -> Pubkey {
    Pubkey { bytes: [0xaa; 32] }
}

struct World {
    user: Party,
    agent: Party,
    node: Party,
}

fn world() -> World {
    World { user: Party::new(11), agent: Party::new(22), node: Party::new(33) }
}

fn task(w: &World, price: u64) -> AiTask {
    AiTask {
        user: w.user.key(),
        agent_owner: w.agent.key(),
        gpu_node_owner: w.node.key(),
        timestamp: 1_700_000_000,
        price,
    }
}

fn sign_all(w: &World, t: &AiTask) -> AiTaskSignature {
    let msg = encode_task(t);
    AiTaskSignature { user: w.user.sign(&msg), agent: w.agent.sign(&msg), gpu_node: w.node.sign(&msg) }
}

fn context(w: &World, allowance: u64, revenue_split: u32) -> SubmitTask {
    SubmitTask {
        ai_task_registry: AiTaskRegistry { tasks: Vec::new() },
        ai_task_key: Pubkey { bytes: [0x77; 32] },
        ai_task: AiTask {
            user: Pubkey { bytes: [0; 32] },
            agent_owner: Pubkey { bytes: [0; 32] },
            gpu_node_owner: Pubkey { bytes: [0; 32] },
            timestamp: 0,
            price: 0,
        },
        gpu_node: GPUNode {
            id: "node-1".to_string(),
            owner: w.node.key(),
            cards: Vec::new(),
            cuda_version: "12.2".to_string(),
            price: 1,
            endpoint: "node.example.org".to_string(),
        },
        gpu_node_wallet: TokenAccount { mint: mint(), owner: w.node.key(), amount: 0 },
        agent: Agent {
            owner: w.agent.key(),
            title: "summariser".to_string(),
            desc: String::new(),
            poster: String::new(),
            category: "LLM".to_string(),
            docker_image_href: String::new(),
            api_protocol: "https".to_string(),
            api_port: 443,
            api_doc: String::new(),
            revenue_split,
        },
        agent_wallet: TokenAccount { mint: mint(), owner: w.agent.key(), amount: 0 },
        delegate: TokenAccount { mint: mint(), owner: w.user.key(), amount: allowance },
        user: w.user.key(),
    }
}

#[test]
fn end_to_end_settlement() {
    let w = world();
    let t = task(&w, 1000);
    let sig = sign_all(&w, &t);
    let mut ctx = context(&w, 1000, 300_000);
    assert_eq!(submit_task(&mut ctx, t, sig), Ok(()));
    assert_eq!(ctx.agent_wallet.amount, 300);
    assert_eq!(ctx.gpu_node_wallet.amount, 700);
    assert_eq!(ctx.delegate.amount, 0);
    assert_eq!(ctx.ai_task, t);
    assert_eq!(ctx.ai_task_registry.tasks, vec![Pubkey { bytes: [0x77; 32] }]);
}

#[test]
fn price_above_allowance_is_refused() {
    let w = world();
    let t = task(&w, 1001);
    let sig = sign_all(&w, &t);
    let mut ctx = context(&w, 1000, 300_000);
    let before = ctx.clone();
    assert_eq!(submit_task(&mut ctx, t, sig), Err(CustomError::InsufficientFunds));
    assert_eq!(ctx.delegate.amount, 1000);
    assert_eq!(ctx, before);
}

#[test]
fn failing_second_transfer_leaves_everything_unchanged() {
    let w = world();
    let t = task(&w, 1000);
    let sig = sign_all(&w, &t);
    let mut ctx = context(&w, 1000, 300_000);
    ctx.gpu_node_wallet.mint = Pubkey { bytes: [0xbb; 32] };
    let before = ctx.clone();
    assert_eq!(submit_task(&mut ctx, t, sig), Err(CustomError::InvalidAccountBinding));
    assert_eq!(ctx, before);
    assert_eq!(ctx.agent_wallet.amount, 0);
    assert_eq!(ctx.delegate.amount, 1000);
}

#[test]
fn destination_overflow_on_second_transfer_changes_nothing() {
    let w = world();
    let t = task(&w, 1000);
    let mut ctx = context(&w, 1000, 300_000);
    ctx.gpu_node_wallet.amount = u64::MAX - 5;
    let before = ctx.clone();
    assert_eq!(settle(&mut ctx, t), Err(CustomError::ArithmeticOverflow));
    assert_eq!(ctx, before);
}

#[test]
fn mutated_payload_is_unauthorized() {
    let w = world();
    let t = task(&w, 1000);
    let sig = sign_all(&w, &t);
    let mut changed = t;
    changed.timestamp ^= 1;
    let mut ctx = context(&w, 5000, 300_000);
    let before = ctx.clone();
    assert_eq!(submit_task(&mut ctx, changed, sig.clone()), Err(CustomError::Unauthorized));
    assert_eq!(ctx, before);
    let mut cheaper = t;
    cheaper.price = 999;
    assert_eq!(submit_task(&mut ctx, cheaper, sig), Err(CustomError::Unauthorized));
    assert_eq!(ctx, before);
}

#[test]
fn every_payload_byte_is_covered() {
    let w = world();
    let t = task(&w, 1000);
    let sig = sign_all(&w, &t);
    assert_eq!(verify_task_signatures(&t, &sig), Ok(()));
    let msg = encode_task(&t);
    for i in 0..msg.len() {
        let mut bad = msg.clone();
        bad[i] ^= 0x01;
        let forged = AiTaskSignature {
            user: sig.user.clone(),
            agent: sig.agent.clone(),
            gpu_node: sig.gpu_node.clone(),
        };
        let mut k = [0u8; 32];
        k.copy_from_slice(&bad[0..32]);
        let mut a = [0u8; 32];
        a.copy_from_slice(&bad[32..64]);
        let mut n = [0u8; 32];
        n.copy_from_slice(&bad[64..96]);
        let mut ts = [0u8; 8];
        ts.copy_from_slice(&bad[96..104]);
        let mut pr = [0u8; 8];
        pr.copy_from_slice(&bad[104..112]);
        let mutated = AiTask {
            user: Pubkey { bytes: k },
            agent_owner: Pubkey { bytes: a },
            gpu_node_owner: Pubkey { bytes: n },
            timestamp: u64::from_le_bytes(ts),
            price: u64::from_le_bytes(pr),
        };
        assert_eq!(encode_task(&mutated), bad);
        assert_eq!(verify_task_signatures(&mutated, &forged), Err(CustomError::Unauthorized));
    }
}

#[test]
fn one_party_signing_for_all_is_unauthorized() {
    let w = world();
    let t = task(&w, 1000);
    let msg = encode_task(&t);
    let sig = AiTaskSignature { user: w.user.sign(&msg), agent: w.user.sign(&msg), gpu_node: w.user.sign(&msg) };
    let mut ctx = context(&w, 1000, 300_000);
    assert_eq!(submit_task(&mut ctx, t, sig), Err(CustomError::Unauthorized));
    assert_eq!(ctx.delegate.amount, 1000);
}

#[test]
fn short_signature_is_malformed() {
    let w = world();
    let t = task(&w, 1000);
    let mut sig = sign_all(&w, &t);
    sig.gpu_node.pop();
    let mut ctx = context(&w, 1000, 300_000);
    assert_eq!(submit_task(&mut ctx, t, sig), Err(CustomError::MalformedInput));
}

#[test]
fn judge_signatures_verdicts() {
    let good = AiTaskSignature { user: vec![0; 64], agent: vec![0; 64], gpu_node: vec![0; 64] };
    assert_eq!(judge_signatures(&good, true, true, true), Ok(()));
    assert_eq!(judge_signatures(&good, true, false, true), Err(CustomError::Unauthorized));
    let bad = AiTaskSignature { user: vec![0; 64], agent: vec![0; 65], gpu_node: vec![0; 64] };
    assert_eq!(judge_signatures(&bad, true, true, true), Err(CustomError::MalformedInput));
}

#[test]
fn encode_task_layout() {
    let t = AiTask {
        user: Pubkey { bytes: [1; 32] },
        agent_owner: Pubkey { bytes: [2; 32] },
        gpu_node_owner: Pubkey { bytes: [3; 32] },
        timestamp: 0x0102_0304_0506_0708,
        price: 1000,
    };
    let b = encode_task(&t);
    assert_eq!(b.len(), 112);
    assert!(b[0..32].iter().all(|x| *x == 1));
    assert!(b[32..64].iter().all(|x| *x == 2));
    assert!(b[64..96].iter().all(|x| *x == 3));
    assert_eq!(b[96..104], [8, 7, 6, 5, 4, 3, 2, 1]);
    assert_eq!(b[104..112], [0xe8, 0x03, 0, 0, 0, 0, 0, 0]);
}

#[test]
fn mismatched_accounts_are_refused() {
    let w = world();
    let t = task(&w, 1000);
    let sig = sign_all(&w, &t);
    let mut ctx = context(&w, 1000, 300_000);
    ctx.agent.owner = w.node.key();
    let before = ctx.clone();
    assert_eq!(submit_task(&mut ctx, t, sig), Err(CustomError::InvalidAccountBinding));
    assert_eq!(ctx, before);
}

#[test]
fn split_above_whole_is_malformed() {
    let w = world();
    let t = task(&w, 1000);
    let mut ctx = context(&w, 1000, 1_000_001);
    assert_eq!(settle(&mut ctx, t), Err(CustomError::MalformedInput));
}

#[test]
fn allowance_not_owned_by_user_is_unauthorized() {
    let w = world();
    let t = task(&w, 1000);
    let mut ctx = context(&w, 1000, 300_000);
    ctx.delegate.owner = w.agent.key();
    assert_eq!(settle(&mut ctx, t), Err(CustomError::Unauthorized));
    assert_eq!(ctx.delegate.amount, 1000);
}

#[test]
fn full_task_registry_is_exhausted() {
    let w = world();
    let t = task(&w, 1000);
    let mut ctx = context(&w, 1000, 300_000);
    ctx.ai_task_registry.tasks = vec![Pubkey { bytes: [5; 32] }; AI_TASK_REGISTRY_CAPACITY];
    assert_eq!(settle(&mut ctx, t), Err(CustomError::StorageExhausted));
    assert_eq!(ctx.delegate.amount, 1000);
}

#[test]
fn two_settlements_draw_down_the_allowance() {
    let w = world();
    let mut ctx = context(&w, 2500, 250_000);
    let t1 = task(&w, 1000);
    assert_eq!(submit_task(&mut ctx, t1, sign_all(&w, &t1)), Ok(()));
    let mut t2 = task(&w, 1500);
    t2.timestamp += 60;
    ctx.ai_task_key = Pubkey { bytes: [0x78; 32] };
    assert_eq!(submit_task(&mut ctx, t2, sign_all(&w, &t2)), Ok(()));
    assert_eq!(ctx.delegate.amount, 0);
    assert_eq!(ctx.agent_wallet.amount, 250 + 375);
    assert_eq!(ctx.gpu_node_wallet.amount, 750 + 1125);
    assert_eq!(ctx.ai_task_registry.tasks.len(), 2);
}

#[test]
fn used_receipt_slot_is_refused() {
    let w = world();
    let mut ctx = context(&w, 5000, 300_000);
    let t1 = task(&w, 1000);
    assert_eq!(submit_task(&mut ctx, t1, sign_all(&w, &t1)), Ok(()));
    let before = ctx.clone();
    assert_eq!(submit_task(&mut ctx, t1, sign_all(&w, &t1)), Err(CustomError::AlreadyInUse));
    assert_eq!(ctx, before);
    let mut t2 = task(&w, 500);
    t2.timestamp += 1;
    assert_eq!(submit_task(&mut ctx, t2, sign_all(&w, &t2)), Err(CustomError::AlreadyInUse));
    assert_eq!(ctx.delegate.amount, 4000);
    assert_eq!(ctx.agent_wallet.amount, 300);
    assert_eq!(ctx.ai_task_registry.tasks.len(), 1);
}
