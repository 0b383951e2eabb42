//! The version of a gateway, and what a client does about an older one.

use vstd::prelude::*;
use std::cmp::Ordering;
use crate::client_error::{other, TensorZeroError};
use crate::error::ErrorDetails;
use crate::numeral::{rank_versions, version_rank, Rank, VersionFault};

verus! {

/// The rank that an ordering stands for.
pub open spec fn rank_of(o: Ordering) -> Rank {
    match o {
        Ordering::Less => Rank::Less,
        Ordering::Equal => Rank::Equal,
        Ordering::Greater => Rank::Greater,
    }
}

/// The text of the error for two versions that cannot be ranked.
pub open spec fn version_fault_text(fault: VersionFault, first: Seq<char>, second: Seq<char>) -> Seq<
    char,
> {
    match fault {
        VersionFault::First(f) => "Failed to parse first version string `"@ + first + "`: "@
            + f.text(),
        VersionFault::Second(f) => "Failed to parse second version string `"@ + second + "`: "@
            + f.text(),
        VersionFault::Components => "Version strings `"@ + first + "` and `"@ + second
            + "` have different number of components"@,
    }
}

/// The error for two versions that cannot be ranked.
pub fn version_error(fault: VersionFault, first: &str, second: &str) -> (e: TensorZeroError)
    ensures
        e.is_internal(version_fault_text(fault, first@, second@)),
{
    let message = match fault {
        VersionFault::First(f) => {
            let mut m = String::from_str("Failed to parse first version string `");
            m.append(first);
            m.append("`: ");
            m.append(f.as_str());
            m
        },
        VersionFault::Second(f) => {
            let mut m = String::from_str("Failed to parse second version string `");
            m.append(second);
            m.append("`: ");
            m.append(f.as_str());
            m
        },
        VersionFault::Components => {
            let mut m = String::from_str("Version strings `");
            m.append(first);
            m.append("` and `");
            m.append(second);
            m.append("` have different number of components");
            m
        },
    };
    other(ErrorDetails::InternalError { message })
}

/// Compares two versions of the form `<year>.<month>.<number>`: numbers
/// between dots, compared one after the other as numbers, so that `01` and
/// `1` are equal. Versions with a component that is no number, or with
/// different numbers of components, give an error.
pub fn compare_versions(first: &str, second: &str) -> (r: Result<Ordering, TensorZeroError>)
    ensures
        match version_rank(first@, second@) {
            Ok(rank) => r matches Ok(o) && rank_of(o) == rank,
            Err(fault) => r matches Err(e) && e.is_internal(
                version_fault_text(fault, first@, second@),
            ),
        },
{
    match rank_versions(first, second) {
        Ok(Rank::Less) => Ok(Ordering::Less),
        Ok(Rank::Equal) => Ok(Ordering::Equal),
        Ok(Rank::Greater) => Ok(Ordering::Greater),
        Err(fault) => Err(version_error(fault, first, second)),
    }
}

/// The first version of the gateway that takes the arguments of a tool call
/// as a JSON object.
pub open spec fn min_version() -> Seq<char> {
    "2025.03.3"@
}

/// Whether a gateway of this version takes the arguments of a tool call as a
/// JSON object: whether it is the minimum version or a later one.
pub fn supports_tool_call_arguments_object(gateway_version: &str) -> (r: Result<bool, TensorZeroError>)
    ensures
        match version_rank(gateway_version@, min_version()) {
            Ok(rank) => r == Ok::<bool, TensorZeroError>(rank != Rank::Less),
            Err(fault) => r matches Err(e) && e.is_internal(
                version_fault_text(fault, gateway_version@, min_version()),
            ),
        },
{
    match compare_versions(gateway_version, "2025.03.3") {
        Ok(Ordering::Less) => Ok(false),
        Ok(_) => Ok(true),
        Err(e) => Err(e),
    }
}

} // verus!
