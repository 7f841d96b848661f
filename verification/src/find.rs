//! The resolution: from a selector and a host to the record of an SDK.

use crate::host::{Host, HostView, Lookup, LookupView};
use crate::info::{
    decode, env_outcome_view, env_record, found_view, MalformedVersion, SdkInfo, SdkInfoView,
};
use crate::location::Location;
use crate::version::SdkVersion;
use vstd::prelude::*;

verus! {

/// Why a resolution was given up.
#[derive(Clone, Debug, PartialEq, Eq)]
pub enum FindError<E> {
    /// `WindowsSdkVersion` is set, beside `WindowsSdkDir`, to something that
    /// is not valid text.
    MalformedVersion,
    /// A registry location could not be opened, for another reason than its
    /// absence. The error is that of the lookup.
    Access(E),
}

/// The value of what a lookup of registry locations gave.
pub open spec fn query_view<E>(outcome: Result<Option<SdkInfo>, E>) -> Result<
    Option<SdkInfoView>,
    E,
> {
    match outcome {
        Ok(found) => Ok(found_view(found)),
        Err(e) => Err(e),
    }
}

/// What one registry location holds of an SDK. A location that is absent holds
/// nothing, and neither does one whose values make up no record. Only a
/// failure to open it is an error.
pub open spec fn location_record<E>(lookup: LookupView<E>) -> Result<Option<SdkInfoView>, E> {
    match lookup {
        LookupView::Absent => Ok(None),
        LookupView::Inaccessible(e) => Err(e),
        LookupView::Malformed => Ok(None),
        LookupView::Stored(record) => Ok(decode(record)),
    }
}

/// What the two locations of one generation hold of an SDK: what the suffixed
/// one holds, and what the plain one holds only where the suffixed one is
/// absent.
pub open spec fn double_release_record<E>(
    suffixed: LookupView<E>,
    plain: LookupView<E>,
) -> Result<Option<SdkInfoView>, E> {
    if suffixed is Absent {
        location_record(plain)
    } else {
        location_record(suffixed)
    }
}

/// What the registry says, as the outcome of a resolution.
pub open spec fn of_registry<E>(outcome: Result<Option<SdkInfoView>, E>) -> Result<
    Option<SdkInfoView>,
    FindError<E>,
> {
    match outcome {
        Ok(found) => Ok(found),
        Err(e) => Err(FindError::Access(e)),
    }
}

/// What the environment says, as the outcome of a resolution.
pub open spec fn of_environment<E>(
    outcome: Result<Option<SdkInfoView>, MalformedVersion>,
) -> Result<Option<SdkInfoView>, FindError<E>> {
    match outcome {
        Ok(found) => Ok(found),
        Err(_) => Err(FindError::MalformedVersion),
    }
}

/// The first of two outcomes, unless it found nothing: then the second.
pub open spec fn or_else<E>(
    first: Result<Option<SdkInfoView>, FindError<E>>,
    second: Result<Option<SdkInfoView>, FindError<E>>,
) -> Result<Option<SdkInfoView>, FindError<E>> {
    if first == Ok::<Option<SdkInfoView>, FindError<E>>(None) {
        second
    } else {
        first
    }
}

/// What a resolution of `version` gives on `host`.
///
/// `Env` gives what the environment says, `V10_0` what its one location holds,
/// each older generation what its two locations hold. `Any` tries these eight
/// in the order of [`SdkVersion::search_order`] and gives the first outcome
/// that is a record or an error.
pub open spec fn resolve<E>(version: SdkVersion, host: HostView<E>) -> Result<
    Option<SdkInfoView>,
    FindError<E>,
>
    decreases
            (if version == SdkVersion::Any {
                1nat
            } else {
                0nat
            }),
{
    match version {
        SdkVersion::Any => or_else(
            resolve(SdkVersion::Env, host),
            or_else(
                resolve(SdkVersion::V10_0, host),
                or_else(
                    resolve(SdkVersion::V8_1, host),
                    or_else(
                        resolve(SdkVersion::V8_0, host),
                        or_else(
                            resolve(SdkVersion::V7_1, host),
                            or_else(
                                resolve(SdkVersion::V7_0, host),
                                or_else(
                                    resolve(SdkVersion::V6_1, host),
                                    resolve(SdkVersion::V6_0, host),
                                ),
                            ),
                        ),
                    ),
                ),
            ),
        ),
        SdkVersion::Env => of_environment(env_record(host.env)),
        SdkVersion::V10_0 => of_registry(location_record(host.store[Location::V10_0])),
        _ => of_registry(
            double_release_record(host.store[version.suffixed()], host.store[version.plain()]),
        ),
    }
}

/// The value of what a resolution gave.
pub open spec fn find_view<E>(outcome: Result<Option<SdkInfo>, FindError<E>>) -> Result<
    Option<SdkInfoView>,
    FindError<E>,
> {
    match outcome {
        Ok(found) => Ok(found_view(found)),
        Err(e) => Err(e),
    }
}

/// Whether an outcome ends a search: it is a record or an error.
fn settles<E>(outcome: &Result<Option<SdkInfo>, FindError<E>>) -> (settled: bool)
    ensures
        settled == (find_view(*outcome) != Ok::<Option<SdkInfoView>, FindError<E>>(None)),
{
    match outcome {
        Ok(None) => false,
        _ => true,
    }
}

/// Hands on what the environment said as the outcome of a resolution.
fn from_environment<E>(outcome: Result<Option<SdkInfo>, MalformedVersion>) -> (lifted: Result<
    Option<SdkInfo>,
    FindError<E>,
>)
    ensures
        find_view(lifted) == of_environment::<E>(env_outcome_view(outcome)),
{
    match outcome {
        Ok(found) => Ok(found),
        Err(_) => Err(FindError::MalformedVersion),
    }
}

/// Hands on what the registry said as the outcome of a resolution.
fn from_registry<E>(outcome: Result<Option<SdkInfo>, E>) -> (lifted: Result<
    Option<SdkInfo>,
    FindError<E>,
>)
    ensures
        find_view(lifted) == of_registry(query_view(outcome)),
{
    match outcome {
        Ok(found) => Ok(found),
        Err(e) => Err(FindError::Access(e)),
    }
}

impl SdkInfo {
    /// Returns installation information for a Windows SDK installation.
    ///
    /// If `SdkVersion::Any` is specified, this method will first query
    /// environment variables, then search the registry for the latest Windows
    /// SDK that is known here. If a specific version is specified, this method
    /// will only look for that version before giving up.
    pub fn find<E>(version: SdkVersion, host: Host<E>) -> (outcome: Result<
        Option<SdkInfo>,
        FindError<E>,
    >)
        ensures
            find_view(outcome) == resolve(version, host@),
    {
        proof {
            reveal_with_fuel(resolve, 2);
        }
        let Host { env, store } = host;
        match version {
            SdkVersion::Any => {
                let outcome = from_environment(Self::query_env(env));
                if settles(&outcome) {
                    return outcome;
                }
                let outcome = from_registry(Self::query_reg(store.v10_0));
                if settles(&outcome) {
                    return outcome;
                }
                let outcome = from_registry(Self::find_double_release((store.v8_1a, store.v8_1)));
                if settles(&outcome) {
                    return outcome;
                }
                let outcome = from_registry(Self::find_double_release((store.v8_0a, store.v8_0)));
                if settles(&outcome) {
                    return outcome;
                }
                let outcome = from_registry(Self::find_double_release((store.v7_1a, store.v7_1)));
                if settles(&outcome) {
                    return outcome;
                }
                let outcome = from_registry(Self::find_double_release((store.v7_0a, store.v7_0)));
                if settles(&outcome) {
                    return outcome;
                }
                let outcome = from_registry(Self::find_double_release((store.v6_1a, store.v6_1)));
                if settles(&outcome) {
                    return outcome;
                }
                from_registry(Self::find_double_release((store.v6_0a, store.v6_0)))
            },
            SdkVersion::Env => from_environment(Self::query_env(env)),
            SdkVersion::V10_0 => from_registry(Self::query_reg(store.v10_0)),
            SdkVersion::V8_1 => from_registry(
                Self::find_double_release((store.v8_1a, store.v8_1)),
            ),
            SdkVersion::V8_0 => from_registry(
                Self::find_double_release((store.v8_0a, store.v8_0)),
            ),
            SdkVersion::V7_1 => from_registry(
                Self::find_double_release((store.v7_1a, store.v7_1)),
            ),
            SdkVersion::V7_0 => from_registry(
                Self::find_double_release((store.v7_0a, store.v7_0)),
            ),
            SdkVersion::V6_1 => from_registry(
                Self::find_double_release((store.v6_1a, store.v6_1)),
            ),
            SdkVersion::V6_0 => from_registry(
                Self::find_double_release((store.v6_0a, store.v6_0)),
            ),
        }
    }

    /// Returns what the two locations of one generation hold: `lookups.0` is
    /// the lookup of the suffixed location, `lookups.1` that of the plain one,
    /// which counts only where the suffixed location is absent.
    pub fn find_double_release<E>(lookups: (Lookup<E>, Lookup<E>)) -> (outcome: Result<
        Option<SdkInfo>,
        E,
    >)
        ensures
            query_view(outcome) == double_release_record(lookups.0@, lookups.1@),
    {
        match lookups.0 {
            Lookup::Absent => Self::query_reg(lookups.1),
            suffixed => Self::query_reg(suffixed),
        }
    }

    /// Returns what one registry location holds. A location whose values make
    /// up no record is passed over like one that is absent: the key may not
    /// have been deleted correctly.
    pub fn query_reg<E>(lookup: Lookup<E>) -> (outcome: Result<Option<SdkInfo>, E>)
        ensures
            query_view(outcome) == location_record(lookup@),
    {
        match lookup {
            Lookup::Absent => Ok(None),
            Lookup::Inaccessible(e) => Err(e),
            Lookup::Malformed => Ok(None),
            Lookup::Stored(record) => Ok(Self::decode(record)),
        }
    }
}

} // verus!
