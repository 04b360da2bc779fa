use vstd::prelude::*;

use soroban_sdk::{Address, Env};

verus! {

/// The contract environment of the Soroban SDK; the library only carries it.
#[verifier::external_type_specification]
#[verifier::external_body]
pub struct ExEnv(Env);

/// An account or contract address of the Soroban SDK; the library only
/// carries and copies it.
#[verifier::external_type_specification]
#[verifier::external_body]
pub struct ExAddress(Address);

/// A host string of the Soroban SDK; the library only carries and copies it.
#[verifier::external_type_specification]
#[verifier::external_body]
pub struct ExHostString(soroban_sdk::String);

/// `Address::clone` of the Soroban SDK is derived: the copy holds the same
/// host handle and the same object reference, so it is the same value as the
/// original.
pub assume_specification[ <Address as core::clone::Clone>::clone ](a: &Address) -> (r: Address)
    ensures
        r == *a,
;

/// `String::clone` of the Soroban SDK is derived: the copy holds the same host
/// handle and the same object reference, so it is the same value as the
/// original.
pub assume_specification[ <soroban_sdk::String as core::clone::Clone>::clone ](
    s: &soroban_sdk::String,
) -> (r: soroban_sdk::String)
    ensures
        r == *s,
;

/// Reads the ledger's close time with `Ledger::timestamp` of the Soroban SDK.
/// Nothing is stated of the result: it is the time of the ledger the call
/// runs in, which the host decides.
#[verifier::external_body]
pub(crate) fn ledger_timestamp(env: &Env) -> (t: u64) {
    env.ledger().timestamp()
}

} // verus!
