//! The hook registry: an authority-controlled allow-list of trusted hook
//! programs, consulted before any hook-bearing asset is moved.
//!
//! The registry holds up to [`MAX_WHITELISTED_PROGRAMS`] program identifiers
//! in insertion order, with no duplicates.  Removal shifts all later entries
//! left by one slot, so the relative order of the remaining entries is kept.

use vstd::prelude::*;

use crate::errors::PoolError;
use crate::ids::ProgramId;

verus! {

/// The registry's capacity: at most this many programs can be trusted at
/// once.
pub const MAX_WHITELISTED_PROGRAMS: usize = 32;

/// An allow-list of trusted hook programs, owned by an authority.
pub struct HookRegistry {
    /// The authority that can manage the allow-list.
    pub authority: ProgramId,
    /// The trusted programs, in insertion order.
    pub whitelisted_programs: Vec<ProgramId>,
    /// The derivation seed the host stored the registry under.
    pub bump: u8,
}

impl HookRegistry {
    /// The registry's invariant: within capacity, and no program listed
    /// twice.
    pub open spec fn well_formed(&self) -> bool {
        &&& self.whitelisted_programs@.len() <= MAX_WHITELISTED_PROGRAMS
        &&& forall|i: int, j: int|
            0 <= i < j < self.whitelisted_programs@.len()
                ==> self.whitelisted_programs@[i] != self.whitelisted_programs@[j]
    }

    /// The listed programs, in order, in specifications.
    pub open spec fn programs(&self) -> Seq<ProgramId> {
        self.whitelisted_programs@
    }

    /// Whether `program_id` is in the allow-list.
    pub fn is_program_whitelisted(&self, program_id: &ProgramId) -> (r: bool)
        ensures
            r == self.programs().contains(*program_id),
    {
        let n = self.whitelisted_programs.len();
        if n == 0 {
            return false;
        }
        let mut i: usize = 0;
        while i < n
            invariant
                n == self.whitelisted_programs@.len(),
                0 <= i <= n,
                forall|k: int| 0 <= k < i ==> self.whitelisted_programs@[k] != *program_id,
            decreases n - i,
        {
            if self.whitelisted_programs[i] == *program_id {
                return true;
            }
            i = i + 1;
        }
        false
    }

    /// Appends `program_id` to the allow-list.
    ///
    /// Fails with `HookRegistryFull` when the registry already holds its
    /// maximum, and with `HookProgramAlreadyWhitelisted` when the program is
    /// already listed; on failure the registry is unchanged.
    pub fn add_program(&mut self, program_id: ProgramId) -> (r: Result<(), PoolError>)
        requires
            old(self).well_formed(),
        ensures
            final(self).well_formed(),
            final(self).authority == old(self).authority,
            final(self).bump == old(self).bump,
            old(self).programs().len() == MAX_WHITELISTED_PROGRAMS ==> r
                == Err::<(), PoolError>(PoolError::HookRegistryFull),
            old(self).programs().len() < MAX_WHITELISTED_PROGRAMS && old(self).programs().contains(
                program_id,
            ) ==> r == Err::<(), PoolError>(PoolError::HookProgramAlreadyWhitelisted),
            r is Err ==> final(self).programs() == old(self).programs(),
            r is Ok <==> old(self).programs().len() < MAX_WHITELISTED_PROGRAMS && !old(
                self,
            ).programs().contains(program_id),
            r is Ok ==> final(self).programs() == old(self).programs().push(program_id),
    {
        if self.whitelisted_programs.len() >= MAX_WHITELISTED_PROGRAMS {
            return Err(PoolError::HookRegistryFull);
        }
        if self.is_program_whitelisted(&program_id) {
            return Err(PoolError::HookProgramAlreadyWhitelisted);
        }
        self.whitelisted_programs.push(program_id);
        Ok(())
    }

    /// Removes `program_id` from the allow-list, shifting all later entries
    /// left by one slot.
    ///
    /// Fails with `HookProgramNotFound` when the program is not listed; the
    /// registry is then unchanged.
    pub fn remove_program(&mut self, program_id: ProgramId) -> (r: Result<(), PoolError>)
        requires
            old(self).well_formed(),
        ensures
            final(self).well_formed(),
            final(self).authority == old(self).authority,
            final(self).bump == old(self).bump,
            r is Ok <==> old(self).programs().contains(program_id),
            r is Err ==> r == Err::<(), PoolError>(PoolError::HookProgramNotFound) && final(self).programs() == old(self).programs(),
            r is Ok ==> exists|i: int|
                {
                    &&& 0 <= i < old(self).programs().len()
                    &&& old(self).programs()[i] == program_id
                    &&& final(self).programs() == old(self).programs().remove(i)
                },
    {
        let n = self.whitelisted_programs.len();
        let mut i: usize = 0;
        while i < n
            invariant
                old(self) == self,
                old(self).well_formed(),
                n == self.whitelisted_programs@.len(),
                0 <= i <= n,
                forall|k: int| 0 <= k < i ==> self.whitelisted_programs@[k] != program_id,
            decreases n - i,
        {
            if self.whitelisted_programs[i] == program_id {
                self.whitelisted_programs.remove(i);
                proof {
                    assert(self.programs() == old(self).programs().remove(i as int));
                }
                return Ok(());
            }
            i = i + 1;
        }
        Err(PoolError::HookProgramNotFound)
    }

    /// The listed programs, in insertion order.
    pub fn get_whitelisted_programs(&self) -> (r: &Vec<ProgramId>)
        ensures
            r@ == self.programs(),
    {
        &self.whitelisted_programs
    }
}

/// Creates an empty registry owned by `authority`.
pub fn handle_create_hook_registry(authority: ProgramId, bump: u8) -> (r: HookRegistry)
    ensures
        r.well_formed(),
        r.authority == authority,
        r.bump == bump,
        r.programs() == Seq::<ProgramId>::empty(),
{
    let registry = HookRegistry { authority, whitelisted_programs: Vec::new(), bump };
    proof {
        assert(registry.programs() =~= Seq::<ProgramId>::empty());
    }
    registry
}

/// Adds a program to the registry on the authority's behalf.
///
/// The caller must be the registry's stored authority; anyone else is
/// refused with `InvalidAdmin` and the registry is unchanged.
pub fn handle_add_hook_program(
    registry: &mut HookRegistry,
    caller: ProgramId,
    program_id: ProgramId,
) -> (r: Result<(), PoolError>)
    requires
        old(registry).well_formed(),
    ensures
        final(registry).well_formed(),
        final(registry).authority == old(registry).authority,
        caller != old(registry).authority ==> r == Err::<(), PoolError>(PoolError::InvalidAdmin)
            && final(registry).programs() == old(registry).programs(),
        caller == old(registry).authority ==> {
            &&& r is Err ==> final(registry).programs() == old(registry).programs()
            &&& r is Ok <==> old(registry).programs().len() < MAX_WHITELISTED_PROGRAMS && !old(
                registry,
            ).programs().contains(program_id)
            &&& old(registry).programs().len() == MAX_WHITELISTED_PROGRAMS ==> r == Err::<
                (),
                PoolError,
            >(PoolError::HookRegistryFull)
            &&& old(registry).programs().len() < MAX_WHITELISTED_PROGRAMS && old(
                registry,
            ).programs().contains(program_id) ==> r == Err::<(), PoolError>(
                PoolError::HookProgramAlreadyWhitelisted,
            )
            &&& r is Ok ==> final(registry).programs() == old(registry).programs().push(
                program_id,
            )
        },
{
    if !(caller == registry.authority) {
        return Err(PoolError::InvalidAdmin);
    }
    registry.add_program(program_id)
}

/// Removes a program from the registry on the authority's behalf.
///
/// The caller must be the registry's stored authority; anyone else is
/// refused with `InvalidAdmin` and the registry is unchanged.
pub fn handle_remove_hook_program(
    registry: &mut HookRegistry,
    caller: ProgramId,
    program_id: ProgramId,
) -> (r: Result<(), PoolError>)
    requires
        old(registry).well_formed(),
    ensures
        final(registry).well_formed(),
        final(registry).authority == old(registry).authority,
        caller != old(registry).authority ==> r == Err::<(), PoolError>(PoolError::InvalidAdmin)
            && final(registry).programs() == old(registry).programs(),
        caller == old(registry).authority ==> {
            &&& r is Ok <==> old(registry).programs().contains(program_id)
            &&& r is Err ==> r == Err::<(), PoolError>(PoolError::HookProgramNotFound) && final(registry).programs() == old(registry).programs()
            &&& r is Ok ==> exists|i: int|
                {
                    &&& 0 <= i < old(registry).programs().len()
                    &&& old(registry).programs()[i] == program_id
                    &&& final(registry).programs() == old(registry).programs().remove(i)
                }
        },
{
    if !(caller == registry.authority) {
        return Err(PoolError::InvalidAdmin);
    }
    registry.remove_program(program_id)
}

/// Replaces the registry's authority.
///
/// Only the stored authority can rotate itself out; anyone else is refused
/// with `InvalidAdmin` and the registry is unchanged.
pub fn handle_update_hook_registry_authority(
    registry: &mut HookRegistry,
    caller: ProgramId,
    new_authority: ProgramId,
) -> (r: Result<(), PoolError>)
    requires
        old(registry).well_formed(),
    ensures
        final(registry).well_formed(),
        final(registry).programs() == old(registry).programs(),
        final(registry).bump == old(registry).bump,
        caller != old(registry).authority ==> r == Err::<(), PoolError>(PoolError::InvalidAdmin)
            && final(registry).authority == old(registry).authority,
        caller == old(registry).authority ==> r == Ok::<(), PoolError>(()) && final(registry).authority == new_authority,
{
    if !(caller == registry.authority) {
        return Err(PoolError::InvalidAdmin);
    }
    registry.authority = new_authority;
    Ok(())
}

/// Checks that a declared hook program is in the supplied registry.
///
/// Fails with `UnauthorizedHookProgram` when it is not.
pub fn validate_hook_program(hook_program_id: &ProgramId, hook_registry: &HookRegistry) -> (r:
    Result<(), PoolError>)
    ensures
        r is Ok <==> hook_registry.programs().contains(*hook_program_id),
        r is Err ==> r == Err::<(), PoolError>(PoolError::UnauthorizedHookProgram),
{
    if hook_registry.is_program_whitelisted(hook_program_id) {
        Ok(())
    } else {
        Err(PoolError::UnauthorizedHookProgram)
    }
}

} // verus!
