//! What holds of every resolution, on every host.

use crate::find::{double_release_record, location_record, of_registry, resolve, FindError};
use crate::host::{Host, HostView, LookupView, StoredRecordView};
use crate::info::{decode, SdkInfoView};
use crate::location::Location;
use crate::version::SdkVersion;
use vstd::prelude::*;

verus! {

/// The outcome of a resolution that found nothing.
pub open spec fn nothing<E>() -> Result<Option<SdkInfoView>, FindError<E>> {
    Ok(None)
}

/// A generation none of whose locations exists is not found, and that is no
/// error.
pub proof fn lemma_absent_generation_is_not_found<E>(version: SdkVersion, host: HostView<E>)
    requires
        version.is_generation(),
        forall|i: int|
            0 <= i < version.spec_locations().len() ==> host.store[
                #[trigger] version.spec_locations()[i]
            ] is Absent,
    ensures
        resolve(version, host) == nothing::<E>(),
{
    let locations = version.spec_locations();
    assert(host.store[locations[0]] is Absent);
    if version.is_double_release() {
        assert(locations[0] == version.suffixed());
        assert(locations[1] == version.plain());
        assert(host.store[locations[1]] is Absent);
    } else {
        assert(locations[0] == Location::V10_0);
    }
}

/// Where the suffixed location of a generation exists, the generation is
/// resolved from it alone, whatever the plain location holds.
pub proof fn lemma_suffixed_flavour_is_preferred<E>(version: SdkVersion, host: HostView<E>)
    requires
        version.is_double_release(),
        !(host.store[version.suffixed()] is Absent),
    ensures
        resolve(version, host) == of_registry(location_record(host.store[version.suffixed()])),
        forall|record: StoredRecordView|
            host.store[version.suffixed()] == LookupView::<E>::Stored(record) ==> resolve(
                version,
                host,
            ) == Ok::<Option<SdkInfoView>, FindError<E>>(decode(record)),
{
}

/// Where only the plain location of a generation exists, the generation is
/// resolved from it.
pub proof fn lemma_plain_flavour_is_the_fallback<E>(version: SdkVersion, host: HostView<E>)
    requires
        version.is_double_release(),
        host.store[version.suffixed()] is Absent,
    ensures
        resolve(version, host) == of_registry(location_record(host.store[version.plain()])),
        forall|record: StoredRecordView|
            host.store[version.plain()] == LookupView::<E>::Stored(record) ==> resolve(
                version,
                host,
            ) == Ok::<Option<SdkInfoView>, FindError<E>>(decode(record)),
{
}

/// The environment always wins: where both variables are set, `Any` gives what
/// `Env` gives, whatever the registry holds.
pub proof fn lemma_environment_wins<E>(host: HostView<E>)
    requires
        host.env.sdk_dir is Some,
        !(host.env.sdk_version is Unset),
    ensures
        resolve(SdkVersion::Env, host) != nothing::<E>(),
        resolve(SdkVersion::Any, host) == resolve(SdkVersion::Env, host),
{
    reveal_with_fuel(resolve, 2);
}

/// `Any` finds nothing if and only if each of the eight selectors that it
/// stands for finds nothing.
pub proof fn lemma_any_finds_nothing_iff_none_does<E>(host: HostView<E>)
    ensures
        resolve(SdkVersion::Any, host) == nothing::<E>() <==> forall|i: int|
            0 <= i < SdkVersion::search_order().len() ==> resolve(
                #[trigger] SdkVersion::search_order()[i],
                host,
            ) == nothing::<E>(),
{
    reveal_with_fuel(resolve, 2);
    let order = SdkVersion::search_order();
    if forall|i: int|
        0 <= i < order.len() ==> resolve(#[trigger] order[i], host) == nothing::<E>() {
        assert(resolve(order[0], host) == nothing::<E>());
        assert(resolve(order[1], host) == nothing::<E>());
        assert(resolve(order[2], host) == nothing::<E>());
        assert(resolve(order[3], host) == nothing::<E>());
        assert(resolve(order[4], host) == nothing::<E>());
        assert(resolve(order[5], host) == nothing::<E>());
        assert(resolve(order[6], host) == nothing::<E>());
        assert(resolve(order[7], host) == nothing::<E>());
    }
}

/// `Any` gives the outcome of the first of its eight selectors that finds a
/// record or fails: the selectors before it found nothing, and those after it
/// do not count.
pub proof fn lemma_any_gives_the_first_that_settles<E>(host: HostView<E>, k: int)
    requires
        0 <= k < SdkVersion::search_order().len(),
        resolve(SdkVersion::search_order()[k], host) != nothing::<E>(),
        forall|j: int|
            0 <= j < k ==> resolve(#[trigger] SdkVersion::search_order()[j], host) == nothing::<
                E,
            >(),
    ensures
        resolve(SdkVersion::Any, host) == resolve(SdkVersion::search_order()[k], host),
{
    reveal_with_fuel(resolve, 2);
    let order = SdkVersion::search_order();
    assert(0 < k ==> resolve(order[0], host) == nothing::<E>());
    assert(1 < k ==> resolve(order[1], host) == nothing::<E>());
    assert(2 < k ==> resolve(order[2], host) == nothing::<E>());
    assert(3 < k ==> resolve(order[3], host) == nothing::<E>());
    assert(4 < k ==> resolve(order[4], host) == nothing::<E>());
    assert(5 < k ==> resolve(order[5], host) == nothing::<E>());
    assert(6 < k ==> resolve(order[6], host) == nothing::<E>());
}

/// A key that lacks the version, or the folder, holds no record; a generation
/// that is resolved from such a key is not found, which is no error, so that
/// `Any` goes on to the next.
pub proof fn lemma_incomplete_record_is_passed_over<E>(record: StoredRecordView)
    ensures
        decode(record) is None <==> record.product_version is None
            || record.installation_folder is None,
        decode(record) is None ==> location_record(LookupView::<E>::Stored(record)) == Ok::<
            Option<SdkInfoView>,
            E,
        >(None),
{
}

/// A resolution is repeatable: it leaves the host as it is and depends on
/// nothing but the selector and what the host holds, so that on two hosts of
/// one value it gives outcomes of one value.
pub proof fn lemma_resolution_is_repeatable<E>(version: SdkVersion, first: Host<E>, second: Host<E>)
    requires
        first@ == second@,
    ensures
        resolve(version, first@) == resolve(version, second@),
{
}

/// A resolution reads no more of the host than its selector names: two hosts
/// that agree on the environment, where the selector reads it, and on the
/// locations of the selector resolve alike.
pub proof fn lemma_resolution_reads_only_what_it_names<E>(
    version: SdkVersion,
    first: HostView<E>,
    second: HostView<E>,
)
    requires
        version.spec_reads_environment() ==> first.env == second.env,
        forall|i: int|
            0 <= i < version.spec_locations().len() ==> first.store[
                #[trigger] version.spec_locations()[i]
            ] == second.store[version.spec_locations()[i]],
    ensures
        resolve(version, first) == resolve(version, second),
{
    reveal_with_fuel(resolve, 2);
    let locations = version.spec_locations();
    if version == SdkVersion::Any {
        assert(first.store[locations[0]] == second.store[locations[0]]);
        assert(first.store[locations[1]] == second.store[locations[1]]);
        assert(first.store[locations[2]] == second.store[locations[2]]);
        assert(first.store[locations[3]] == second.store[locations[3]]);
        assert(first.store[locations[4]] == second.store[locations[4]]);
        assert(first.store[locations[5]] == second.store[locations[5]]);
        assert(first.store[locations[6]] == second.store[locations[6]]);
        assert(first.store[locations[7]] == second.store[locations[7]]);
        assert(first.store[locations[8]] == second.store[locations[8]]);
        assert(first.store[locations[9]] == second.store[locations[9]]);
        assert(first.store[locations[10]] == second.store[locations[10]]);
        assert(first.store[locations[11]] == second.store[locations[11]]);
        assert(first.store[locations[12]] == second.store[locations[12]]);
    } else if version == SdkVersion::V10_0 {
        assert(first.store[locations[0]] == second.store[locations[0]]);
    } else if version.is_double_release() {
        assert(locations[0] == version.suffixed());
        assert(locations[1] == version.plain());
        assert(first.store[locations[0]] == second.store[locations[0]]);
        assert(first.store[locations[1]] == second.store[locations[1]]);
    }
}

} // verus!
