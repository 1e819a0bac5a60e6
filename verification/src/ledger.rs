//! The boundary to the ledger runtime: the identity type, the runtime's error
//! type, the comparison of identities and the clock. What this module says
//! of them is taken on trust; everything else in the crate is proved from it.

use anchor_lang::prelude::Clock;
use anchor_lang::prelude::ProgramError;
use anchor_lang::prelude::Pubkey;
use anchor_lang::prelude::SolanaSysvar;
use vstd::prelude::*;

verus! {

/// `Pubkey`, the 32-byte identity of a caller or an author. Its bytes are not
/// modelled: the library only passes identities on and compares them.
#[verifier::external_type_specification]
#[verifier::external_body]
pub struct ExPubkey(Pubkey);

/// `ProgramError`, the error that the ledger runtime reports. The library
/// only passes it on.
#[verifier::external_type_specification]
#[verifier::external_body]
pub struct ExProgramError(ProgramError);

/// `==` on `Pubkey`, which the type derives and which therefore compares the
/// 32 bytes: it is claimed to hold exactly of an identity and itself.
pub assume_specification[ <Pubkey as PartialEq>::eq ](a: &Pubkey, b: &Pubkey) -> (same: bool)
    ensures
        same == (*a == *b),
;

/// Reads the ledger's clock with `Clock::get` and hands back the
/// `unix_timestamp` of the reading, or the error that `Clock::get` gave.
///
/// Nothing is claimed of the result: the time is whatever the runtime says
/// it is, and where no ledger is running there is no clock and the call
/// fails.
#[verifier::external_body]
pub(crate) fn ledger_unix_timestamp() -> (reading: Result<i64, ProgramError>) {
    Clock::get().map(|clock| clock.unix_timestamp)
}

} // verus!
