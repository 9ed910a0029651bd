//! An account-oriented profile store: one fixed-schema user record held in an
//! addressable storage slot, mutated only through a small set of instructions
//! that validate their inputs, enforce authorization, and re-serialize the
//! record in place.
//!
//! The host runtime (clock, signer flags, slot ownership, balance transfer)
//! is modelled as plain values handed to the processor, so the whole decision
//! logic is verified here.

pub mod codec;
pub mod error;
pub mod instruction;
pub mod ints;
pub mod laws;
pub mod processor;
pub mod state;

use vstd::prelude::*;

use crate::error::ProcessError;
use crate::processor::{spec_process, Processor, Slot};

verus! {

/// The program entry point the host runtime calls: one instruction against
/// the record slot and its companion (payer or destination) slot.
pub fn process_instruction(
    user_slot: &mut Slot,
    second_slot: &mut Slot,
    user_is_signer: bool,
    second_is_signer: bool,
    owner_matches: bool,
    instruction_data: &[u8],
    now: i64,
) -> (r: Result<(), ProcessError>)
    ensures
        ({
            let outcome = spec_process(
                old(user_slot).data@,
                old(user_slot).lamports,
                old(second_slot).data@,
                old(second_slot).lamports,
                user_is_signer,
                second_is_signer,
                owner_matches,
                instruction_data@,
                now,
            );
            &&& r == outcome.0
            &&& final(user_slot).data@ == outcome.1
            &&& final(user_slot).lamports == outcome.2
            &&& final(second_slot).data@ == outcome.3
            &&& final(second_slot).lamports == outcome.4
        }),
{
    Processor::process(
        user_slot,
        second_slot,
        user_is_signer,
        second_is_signer,
        owner_matches,
        instruction_data,
        now,
    )
}

} // verus!
