//! Standard process exit codes in the `sysexits.h` convention.
//!
//! The crate exposes the sixteen reserved exit-code constants as plain `i32`
//! values, together with two total predicates that classify an arbitrary
//! exit code: [`is_success`] holds exactly for [`OK`] (zero), and
//! [`is_error`] is its negation. Callers pass the chosen constant to their
//! own process-termination facility; this crate never terminates anything.

use vstd::prelude::*;

verus! {

/// Successful termination.
pub const OK: i32 = 0;

/// The command was used incorrectly: wrong number of arguments, a bad flag,
/// bad syntax in a parameter, and the like.
pub const USAGE: i32 = 64;

/// The user-supplied input data was incorrect in some way. Meant for the
/// user's data, not for system files.
pub const DATAERR: i32 = 65;

/// An input file (not a system file) did not exist or was not readable.
pub const NOINPUT: i32 = 66;

/// The user specified did not exist, for instance in a mail address or a
/// remote login.
pub const NOUSER: i32 = 67;

/// The host specified did not exist, for instance in a mail address or a
/// network request.
pub const NOHOST: i32 = 68;

/// A required service or support resource is unavailable. Also usable as a
/// catch-all when something fails for an unknown reason.
pub const UNAVAILABLE: i32 = 69;

/// An internal software error has been detected, as far as possible limited
/// to defects that are not operating-system related.
pub const SOFTWARE: i32 = 70;

/// An operating-system error has been detected, such as a failure to fork or
/// to create a pipe.
pub const OSERR: i32 = 71;

/// A system file does not exist, cannot be opened, or is malformed.
pub const OSFILE: i32 = 72;

/// A user-specified output file cannot be created.
pub const CANTCREAT: i32 = 73;

/// An error occurred while doing I/O on some file.
pub const IOERR: i32 = 74;

/// Temporary failure: the operation is not really in error and may be
/// reattempted later.
pub const TEMPFAIL: i32 = 75;

/// The remote peer returned something that was "not possible" during a
/// protocol exchange.
pub const PROTOCOL: i32 = 76;

/// Insufficient permission to perform the operation. Meant for higher-level
/// permissions rather than file-system problems.
pub const NOPERM: i32 = 77;

/// Something was found in an unconfigured or misconfigured state.
pub const CONFIG: i32 = 78;

/// An exit code reports success exactly when it equals [`OK`], that is, zero.
pub open spec fn spec_is_success(code: i32) -> bool {
    code == OK
}

/// An exit code reports an error exactly when it does not report success.
pub open spec fn spec_is_error(code: i32) -> bool {
    !spec_is_success(code)
}

/// The sixteen named exit codes, [`OK`] first, then the reserved error codes
/// in ascending order.
pub open spec fn named_codes() -> Seq<i32> {
    seq![
        OK, USAGE, DATAERR, NOINPUT, NOUSER, NOHOST, UNAVAILABLE, SOFTWARE,
        OSERR, OSFILE, CANTCREAT, IOERR, TEMPFAIL, PROTOCOL, NOPERM, CONFIG,
    ]
}

/// Checks whether the exit code given by `code` reports success.
///
/// True if and only if `code` equals [`OK`]; every other integer, named or
/// not, is classified as an error.
#[verifier::when_used_as_spec(spec_is_success)]
pub fn is_success(code: i32) -> (success: bool)
    ensures
        success == spec_is_success(code),
        success <==> code == OK,
{
    code == OK
}

/// Checks whether the exit code given by `code` reports an error.
///
/// The exact negation of [`is_success`]: there is no third classification.
#[verifier::when_used_as_spec(spec_is_error)]
pub fn is_error(code: i32) -> (error: bool)
    ensures
        error == spec_is_error(code),
        error == !spec_is_success(code),
{
    !is_success(code)
}

/// Complement law: for every exit code, error is the exact negation of
/// success, so exactly one of the two classifications holds.
pub proof fn lemma_error_complements_success(code: i32)
    ensures
        spec_is_error(code) == !spec_is_success(code),
        spec_is_success(code) != spec_is_error(code),
{
}

/// Purity: each predicate's result is a function of its argument alone, so
/// any two results obtained for the same code agree, call after call.
pub proof fn lemma_predicates_pure(
    code: i32,
    success_first: bool,
    success_second: bool,
    error_first: bool,
    error_second: bool,
)
    requires
        success_first == spec_is_success(code),
        success_second == spec_is_success(code),
        error_first == spec_is_error(code),
        error_second == spec_is_error(code),
    ensures
        success_first == success_second,
        error_first == error_second,
{
}

/// Shape of the registry: [`OK`] is zero and stands first among the sixteen
/// named codes, every other named code lies in the reserved range 64 to 78,
/// and the named codes are pairwise distinct.
pub proof fn lemma_named_codes_distinct()
    ensures
        named_codes().len() == 16,
        named_codes()[0] == OK,
        OK == 0,
        forall|i: int| 1 <= i < 16 ==> 64 <= #[trigger] named_codes()[i] <= 78,
        forall|i: int, j: int|
            0 <= i < j < 16 ==> #[trigger] named_codes()[i] != #[trigger] named_codes()[j],
{
}

/// Only [`OK`] among the named codes reports success: every named code other
/// than [`OK`] is classified as an error.
pub proof fn lemma_named_codes_classified()
    ensures
        spec_is_success(named_codes()[0]),
        forall|i: int| 1 <= i < 16 ==> spec_is_error(#[trigger] named_codes()[i]),
{
    lemma_named_codes_distinct();
}

} // verus!
