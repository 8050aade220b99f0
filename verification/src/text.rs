//! Building the messages that failures carry.

use vstd::prelude::*;
use vstd::string::StringExecFns;

verus! {

/// What a fallible operation of this crate gave, next to what it should
/// give: the same value on success, the same text on failure.
pub open spec fn agrees<T>(got: Result<T, String>, expected: Result<T, Seq<char>>) -> bool {
    match expected {
        Ok(value) => got == Ok::<T, String>(value),
        Err(reason) => got matches Err(message) && message@ == reason,
    }
}

/// `prefix` followed by `detail`.
pub fn message(prefix: &str, detail: &str) -> (text: String)
    ensures
        text@ == prefix@ + detail@,
{
    String::from_str(prefix).concat(detail)
}

} // verus!
