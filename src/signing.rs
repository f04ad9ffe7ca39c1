//! The canonical encoding of a task, and the check of the three parties'
//! ed25519 signatures over it.

use vstd::prelude::*;
use crate::types::{AiTask, AiTaskSignature, CustomError, Pubkey};
use ed25519_dalek::{PublicKey as Ed25519PublicKey, Signature as Ed25519Signature, Verifier};

verus! {

/// The length of an ed25519 signature, in bytes.
pub const SIGNATURE_LENGTH: usize = 64;

/// The eight little-endian bytes of `x`.
pub open spec fn u64_le(x: u64) -> Seq<u8> {
    seq![
        #[verifier::truncate] (x as u8),
        #[verifier::truncate] ((x >> 8u64) as u8),
        #[verifier::truncate] ((x >> 16u64) as u8),
        #[verifier::truncate] ((x >> 24u64) as u8),
        #[verifier::truncate] ((x >> 32u64) as u8),
        #[verifier::truncate] ((x >> 40u64) as u8),
        #[verifier::truncate] ((x >> 48u64) as u8),
        #[verifier::truncate] ((x >> 56u64) as u8),
    ]
}

/// The canonical encoding of a task: the three addresses in field order,
/// then the timestamp and the price as little-endian `u64`s.
pub open spec fn task_payload(task: AiTask) -> Seq<u8> {
    task.user@ + task.agent_owner@ + task.gpu_node_owner@ + u64_le(task.timestamp) + u64_le(
        task.price,
    )
}

/// Whether ed25519 verification accepts signature `sig` of message `msg`
/// under public key `key`.
pub uninterp spec fn ed25519_accepts(msg: Seq<u8>, key: Seq<u8>, sig: Seq<u8>) -> bool;

/// Relies on ed25519-dalek's `PublicKey::from_bytes`, `Signature::from_bytes`
/// and `Verifier::verify`: the answer depends on the three byte strings alone,
/// a malformed key or signature is rejected rather than panicking, and a
/// signature whose length is not 64 never parses.
#[verifier::external_body]
fn ed25519_verify(msg: &[u8], key: &[u8], sig: &[u8]) -> (r: bool)
    ensures
        r == ed25519_accepts(msg@, key@, sig@),
        r ==> sig@.len() == SIGNATURE_LENGTH,
{
    match (Ed25519PublicKey::from_bytes(key), Ed25519Signature::from_bytes(sig)) {
        (Ok(k), Ok(s)) => k.verify(msg, &s).is_ok(),
        _ => false,
    }
}

fn push_u64_le(out: &mut Vec<u8>, x: u64)
    ensures
        final(out)@ == old(out)@ + u64_le(x),
{
    out.push(#[verifier::truncate] (x as u8));
    out.push(#[verifier::truncate] ((x >> 8u64) as u8));
    out.push(#[verifier::truncate] ((x >> 16u64) as u8));
    out.push(#[verifier::truncate] ((x >> 24u64) as u8));
    out.push(#[verifier::truncate] ((x >> 32u64) as u8));
    out.push(#[verifier::truncate] ((x >> 40u64) as u8));
    out.push(#[verifier::truncate] ((x >> 48u64) as u8));
    out.push(#[verifier::truncate] ((x >> 56u64) as u8));
    assert(final(out)@ =~= old(out)@ + u64_le(x));
}

fn push_key(out: &mut Vec<u8>, key: &Pubkey)
    ensures
        final(out)@ == old(out)@ + key@,
{
    let ghost start = out@;
    let mut i: usize = 0;
    while i < 32
        invariant
            i <= 32,
            out@ == start + key@.subrange(0, i as int),
        decreases 32 - i,
    {
        out.push(key.bytes[i]);
        assert(key@.subrange(0, i + 1) =~= key@.subrange(0, i as int).push(key.bytes[i as int]));
        i = i + 1;
    }
    assert(key@.subrange(0, 32) =~= key@);
}

/// Encodes a task canonically: the exact bytes that all three parties sign.
pub fn encode_task(task: &AiTask) -> (r: Vec<u8>)
    ensures
        r@ == task_payload(*task),
{
    let mut out: Vec<u8> = Vec::new();
    push_key(&mut out, &task.user);
    push_key(&mut out, &task.agent_owner);
    push_key(&mut out, &task.gpu_node_owner);
    push_u64_le(&mut out, task.timestamp);
    push_u64_le(&mut out, task.price);
    assert(out@ =~= task_payload(*task));
    out
}

/// What the signature check gives for signatures `sig`, where `user_ok`,
/// `agent_ok` and `node_ok` are the verdicts of the verification of each one:
/// a signature of the wrong length is malformed, and otherwise every one of
/// the three must verify.
pub open spec fn signature_verdict(
    sig: AiTaskSignature,
    user_ok: bool,
    agent_ok: bool,
    node_ok: bool,
) -> Result<(), CustomError> {
    if sig.user@.len() != SIGNATURE_LENGTH || sig.agent@.len() != SIGNATURE_LENGTH
        || sig.gpu_node@.len() != SIGNATURE_LENGTH {
        Err(CustomError::MalformedInput)
    } else if !(user_ok && agent_ok && node_ok) {
        Err(CustomError::Unauthorized)
    } else {
        Ok(())
    }
}

/// What the signature check gives for `task` and `sig`: each party's
/// signature is verified under that party's own key, over the task's
/// canonical encoding.
pub open spec fn signature_outcome(task: AiTask, sig: AiTaskSignature) -> Result<(), CustomError> {
    let msg = task_payload(task);
    signature_verdict(
        sig,
        ed25519_accepts(msg, task.user@, sig.user@),
        ed25519_accepts(msg, task.agent_owner@, sig.agent@),
        ed25519_accepts(msg, task.gpu_node_owner@, sig.gpu_node@),
    )
}

/// Turns the three verification verdicts into the check's result.
pub fn judge_signatures(sig: &AiTaskSignature, user_ok: bool, agent_ok: bool, node_ok: bool) -> (r:
    Result<(), CustomError>)
    ensures
        r == signature_verdict(*sig, user_ok, agent_ok, node_ok),
{
    if sig.user.len() != SIGNATURE_LENGTH || sig.agent.len() != SIGNATURE_LENGTH
        || sig.gpu_node.len() != SIGNATURE_LENGTH {
        Err(CustomError::MalformedInput)
    } else if !(user_ok && agent_ok && node_ok) {
        Err(CustomError::Unauthorized)
    } else {
        Ok(())
    }
}

/// Checks that the user, the agent owner and the node owner named in `task`
/// each signed its canonical encoding with their own key.
pub fn verify_task_signatures(task: &AiTask, sig: &AiTaskSignature) -> (r: Result<(), CustomError>)
    ensures
        r == signature_outcome(*task, *sig),
        r.is_ok() ==> ed25519_accepts(task_payload(*task), task.user@, sig.user@)
            && ed25519_accepts(task_payload(*task), task.agent_owner@, sig.agent@)
            && ed25519_accepts(task_payload(*task), task.gpu_node_owner@, sig.gpu_node@),
{
    let msg = encode_task(task);
    let user_ok = ed25519_verify(msg.as_slice(), task.user.bytes.as_slice(), sig.user.as_slice());
    let agent_ok = ed25519_verify(
        msg.as_slice(),
        task.agent_owner.bytes.as_slice(),
        sig.agent.as_slice(),
    );
    let node_ok = ed25519_verify(
        msg.as_slice(),
        task.gpu_node_owner.bytes.as_slice(),
        sig.gpu_node.as_slice(),
    );
    judge_signatures(sig, user_ok, agent_ok, node_ok)
}

/// The canonical encoding tells tasks apart: two tasks with the same payload
/// are the same task, so a payload that differs in any byte from the signed
/// one belongs to a different task.
pub proof fn lemma_payload_injective(a: AiTask, b: AiTask)
    requires
        task_payload(a) == task_payload(b),
    ensures
        a == b,
{
    let pa = task_payload(a);
    let pb = task_payload(b);
    assert(a.user@ =~= pa.subrange(0, 32));
    assert(b.user@ =~= pb.subrange(0, 32));
    assert(a.agent_owner@ =~= pa.subrange(32, 64));
    assert(b.agent_owner@ =~= pb.subrange(32, 64));
    assert(a.gpu_node_owner@ =~= pa.subrange(64, 96));
    assert(b.gpu_node_owner@ =~= pb.subrange(64, 96));
    assert(u64_le(a.timestamp) =~= pa.subrange(96, 104));
    assert(u64_le(b.timestamp) =~= pb.subrange(96, 104));
    assert(u64_le(a.price) =~= pa.subrange(104, 112));
    assert(u64_le(b.price) =~= pb.subrange(104, 112));
    assert(a.user.bytes =~= b.user.bytes);
    assert(a.agent_owner.bytes =~= b.agent_owner.bytes);
    assert(a.gpu_node_owner.bytes =~= b.gpu_node_owner.bytes);
    lemma_u64_le_injective(a.timestamp, b.timestamp);
    lemma_u64_le_injective(a.price, b.price);
}

proof fn lemma_u64_le_injective(x: u64, y: u64)
    requires
        u64_le(x) == u64_le(y),
    ensures
        x == y,
{
    assert(u64_le(x)[0] == u64_le(y)[0]);
    assert(u64_le(x)[1] == u64_le(y)[1]);
    assert(u64_le(x)[2] == u64_le(y)[2]);
    assert(u64_le(x)[3] == u64_le(y)[3]);
    assert(u64_le(x)[4] == u64_le(y)[4]);
    assert(u64_le(x)[5] == u64_le(y)[5]);
    assert(u64_le(x)[6] == u64_le(y)[6]);
    assert(u64_le(x)[7] == u64_le(y)[7]);
    assert(((x as u8) == (y as u8) && ((x >> 8u64) as u8) == ((y >> 8u64) as u8) && ((x
        >> 16u64) as u8) == ((y >> 16u64) as u8) && ((x >> 24u64) as u8) == ((y >> 24u64) as u8)
        && ((x >> 32u64) as u8) == ((y >> 32u64) as u8) && ((x >> 40u64) as u8) == ((y
        >> 40u64) as u8) && ((x >> 48u64) as u8) == ((y >> 48u64) as u8) && ((x >> 56u64) as u8)
        == ((y >> 56u64) as u8)) ==> x == y) by (bit_vector);
}

} // verus!
