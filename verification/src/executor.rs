//! The gated transfer executor: it wraps the host's raw balance-movement
//! primitive, assembles the account list a hook-routed movement needs, and
//! classifies failures of gated movements.
//!
//! The movement itself is a host call; the library receives its outcome as a
//! value and decides what the settlement reports.  Whitelist validation is a
//! precondition enforced at the orchestration layer, not here.

use vstd::prelude::*;

use crate::bytes::contains_bytes;
use crate::bytes::contains_subslice;
use crate::errors::PoolError;
use crate::ids::ProgramId;
use crate::token::get_extra_account_metas_address;
use crate::token::spec_extra_metas_address;

verus! {

/// What the host reported back for one balance movement: delivered, or
/// failed with a diagnostic message.
#[derive(Debug, PartialEq, Eq)]
pub enum MovementOutcome {
    /// The movement went through.
    Delivered,
    /// The movement failed; the payload is the host's message, as bytes.
    Failed(Vec<u8>),
}

/// The message fragment that signals resource exhaustion during hook
/// execution: the bytes of "insufficient compute units".
pub open spec fn spec_timeout_signal() -> Seq<u8> {
    seq![
        105u8, 110u8, 115u8, 117u8, 102u8, 102u8, 105u8, 99u8, 105u8, 101u8, 110u8, 116u8,
        32u8, 99u8, 111u8, 109u8, 112u8, 117u8, 116u8, 101u8, 32u8, 117u8, 110u8, 105u8,
        116u8, 115u8,
    ]
}

/// The message fragment that signals an unresolved or invalid auxiliary
/// account: the bytes of "invalid account".
pub open spec fn spec_resolution_signal() -> Seq<u8> {
    seq![
        105u8, 110u8, 118u8, 97u8, 108u8, 105u8, 100u8, 32u8, 97u8, 99u8, 99u8, 111u8,
        117u8, 110u8, 116u8,
    ]
}

/// The bytes of "insufficient compute units".
fn timeout_signal() -> (r: Vec<u8>)
    ensures
        r@ == spec_timeout_signal(),
{
    let r: Vec<u8> = vec![
        105u8, 110u8, 115u8, 117u8, 102u8, 102u8, 105u8, 99u8, 105u8, 101u8, 110u8, 116u8,
        32u8, 99u8, 111u8, 109u8, 112u8, 117u8, 116u8, 101u8, 32u8, 117u8, 110u8, 105u8,
        116u8, 115u8,
    ];
    proof {
        assert(r@ =~= spec_timeout_signal());
    }
    r
}

/// The bytes of "invalid account".
fn resolution_signal() -> (r: Vec<u8>)
    ensures
        r@ == spec_resolution_signal(),
{
    let r: Vec<u8> = vec![
        105u8, 110u8, 118u8, 97u8, 108u8, 105u8, 100u8, 32u8, 97u8, 99u8, 99u8, 111u8,
        117u8, 110u8, 116u8,
    ];
    proof {
        assert(r@ =~= spec_resolution_signal());
    }
    r
}

/// How a gated movement's failure message is classified: resource
/// exhaustion, account resolution, or the generic hook failure.
pub open spec fn spec_classify_hook_failure(message: Seq<u8>) -> PoolError {
    if contains_bytes(message, spec_timeout_signal()) {
        PoolError::HookExecutionTimeout
    } else if contains_bytes(message, spec_resolution_signal()) {
        PoolError::HookAccountResolutionFailed
    } else {
        PoolError::HookExecutionFailed
    }
}

/// Classifies the failure message of a gated movement.
pub fn classify_hook_failure(message: &[u8]) -> (r: PoolError)
    ensures
        r == spec_classify_hook_failure(message@),
{
    let timeout = timeout_signal();
    if contains_subslice(message, timeout.as_slice()) {
        return PoolError::HookExecutionTimeout;
    }
    let resolution = resolution_signal();
    if contains_subslice(message, resolution.as_slice()) {
        return PoolError::HookAccountResolutionFailed;
    }
    PoolError::HookExecutionFailed
}

/// What one transfer leg reports: success when the movement was delivered;
/// a classified hook error when a gated movement failed; and the propagated
/// movement error when a plain movement failed.
pub open spec fn spec_execute_leg(hook_program: Option<ProgramId>, outcome: MovementOutcome)
    -> Result<(), PoolError> {
    match outcome {
        MovementOutcome::Delivered => Ok(()),
        MovementOutcome::Failed(message) => if hook_program is Some {
            Err(spec_classify_hook_failure(message@))
        } else {
            Err(PoolError::TransferFailed)
        },
    }
}

/// Settles one caller-to-pool movement: delivered means success; a failure
/// under a declared hook program is classified, and one without a hook
/// stands for the host's own movement error.
///
/// The raw movement (a signed host invocation) is the host's; the caller
/// must already have validated a declared hook program against the registry.
pub fn transfer_from_user_with_hooks(
    hook_program: &Option<ProgramId>,
    outcome: &MovementOutcome,
) -> (r: Result<(), PoolError>)
    ensures
        r == spec_execute_leg(*hook_program, *outcome),
{
    match outcome {
        MovementOutcome::Delivered => Ok(()),
        MovementOutcome::Failed(message) => {
            if hook_program.is_some() {
                Err(classify_hook_failure(message.as_slice()))
            } else {
                Err(PoolError::TransferFailed)
            }
        },
    }
}

/// Settles one pool-to-caller movement; the classification is the same as
/// for a caller-to-pool movement, the difference (the pool authority signs
/// through its derivation seeds) is the host's.
pub fn transfer_from_pool_with_hooks(
    hook_program: &Option<ProgramId>,
    outcome: &MovementOutcome,
) -> (r: Result<(), PoolError>)
    ensures
        r == spec_execute_leg(*hook_program, *outcome),
{
    match outcome {
        MovementOutcome::Delivered => Ok(()),
        MovementOutcome::Failed(message) => {
            if hook_program.is_some() {
                Err(classify_hook_failure(message.as_slice()))
            } else {
                Err(PoolError::TransferFailed)
            }
        },
    }
}

/// Appends to `acc` each element of `rem`, in order, that `acc` does not
/// already hold.
pub open spec fn spec_append_unique(acc: Seq<ProgramId>, rem: Seq<ProgramId>) -> Seq<ProgramId>
    decreases rem.len(),
{
    if rem.len() == 0 {
        acc
    } else {
        let next = if acc.contains(rem[0]) {
            acc
        } else {
            acc.push(rem[0])
        };
        spec_append_unique(next, rem.skip(1))
    }
}

/// The account list of a hook-routed movement: source, asset, destination
/// and authority first; then the hook's auxiliary-configuration record and
/// the hook program itself, each when the caller supplied it; then every
/// remaining caller-supplied account not already listed, in order.
pub open spec fn spec_assemble_hook_accounts(
    source: ProgramId,
    mint: ProgramId,
    destination: ProgramId,
    authority: ProgramId,
    hook_program: ProgramId,
    extra_metas_address: ProgramId,
    remaining: Seq<ProgramId>,
) -> Seq<ProgramId> {
    let base = seq![source, mint, destination, authority];
    let with_meta = if remaining.contains(extra_metas_address) {
        base.push(extra_metas_address)
    } else {
        base
    };
    let with_hook = if remaining.contains(hook_program) {
        with_meta.push(hook_program)
    } else {
        with_meta
    };
    spec_append_unique(with_hook, remaining)
}

/// Whether `v` holds `x`.
fn vec_contains_id(v: &Vec<ProgramId>, x: &ProgramId) -> (r: bool)
    ensures
        r == v@.contains(*x),
{
    let n = v.len();
    let mut i: usize = 0;
    while i < n
        invariant
            n == v@.len(),
            0 <= i <= n,
            forall|k: int| 0 <= k < i ==> v@[k] != *x,
        decreases n - i,
    {
        if v[i] == *x {
            return true;
        }
        i = i + 1;
    }
    false
}

/// Whether the slice `s` holds `x`.
fn slice_contains_id(s: &[ProgramId], x: &ProgramId) -> (r: bool)
    ensures
        r == s@.contains(*x),
{
    let n = s.len();
    let mut i: usize = 0;
    while i < n
        invariant
            n == s@.len(),
            0 <= i <= n,
            forall|k: int| 0 <= k < i ==> s@[k] != *x,
        decreases n - i,
    {
        if s[i] == *x {
            return true;
        }
        i = i + 1;
    }
    false
}

/// Assembles the account list for a movement routed through `hook_program`:
/// the four standard movement accounts, then the hook's
/// auxiliary-configuration record if supplied, then the hook program itself
/// if supplied, then all other supplied accounts, each listed once.
pub fn assemble_hook_transfer_accounts(
    source: ProgramId,
    mint: ProgramId,
    destination: ProgramId,
    authority: ProgramId,
    hook_program: ProgramId,
    extra_metas_address: ProgramId,
    remaining: &[ProgramId],
) -> (r: Vec<ProgramId>)
    ensures
        r@ == spec_assemble_hook_accounts(
            source,
            mint,
            destination,
            authority,
            hook_program,
            extra_metas_address,
            remaining@,
        ),
{
    let mut out: Vec<ProgramId> = Vec::new();
    out.push(source);
    out.push(mint);
    out.push(destination);
    out.push(authority);
    if slice_contains_id(remaining, &extra_metas_address) {
        out.push(extra_metas_address);
    }
    if slice_contains_id(remaining, &hook_program) {
        out.push(hook_program);
    }
    proof {
        assert(out@ =~= {
            let base = seq![source, mint, destination, authority];
            let with_meta = if remaining@.contains(extra_metas_address) {
                base.push(extra_metas_address)
            } else {
                base
            };
            if remaining@.contains(hook_program) {
                with_meta.push(hook_program)
            } else {
                with_meta
            }
        });
    }
    proof {
        assert(remaining@.skip(0) =~= remaining@);
    }
    let n = remaining.len();
    let mut i: usize = 0;
    while i < n
        invariant
            n == remaining@.len(),
            0 <= i <= n,
            spec_append_unique(out@, remaining@.skip(i as int)) == spec_assemble_hook_accounts(
                source,
                mint,
                destination,
                authority,
                hook_program,
                extra_metas_address,
                remaining@,
            ),
        decreases n - i,
    {
        proof {
            assert(remaining@.skip(i as int)[0] == remaining@[i as int]);
            assert(remaining@.skip(i as int).skip(1) =~= remaining@.skip(i as int + 1));
        }
        if !vec_contains_id(&out, &remaining[i]) {
            out.push(remaining[i]);
        }
        i = i + 1;
    }
    proof {
        assert(remaining@.skip(n as int).len() == 0);
    }
    out
}

/// The complete account list of one movement routed through `hook_program`:
/// the hook's auxiliary-configuration address is derived for the asset, and
/// the list is assembled around it from the caller-supplied accounts.
pub fn hook_transfer_account_list(
    source: ProgramId,
    mint: ProgramId,
    destination: ProgramId,
    authority: ProgramId,
    hook_program: ProgramId,
    remaining: &[ProgramId],
) -> (r: Vec<ProgramId>)
    ensures
        r@ == spec_assemble_hook_accounts(
            source,
            mint,
            destination,
            authority,
            hook_program,
            spec_extra_metas_address(mint, hook_program),
            remaining@,
        ),
{
    let extra_metas_address = get_extra_account_metas_address(&mint, &hook_program);
    assemble_hook_transfer_accounts(
        source,
        mint,
        destination,
        authority,
        hook_program,
        extra_metas_address,
        remaining,
    )
}

} // verus!