//! The baseline that a device has to meet before anything else is asked of it:
//! an API version this library works with, the features and the extensions that
//! the caller wants.

use crate::native::{enabled, features_cover, same_extensions, version_before, version_precedes};
use crate::selection::{first_match, position};
use vstd::prelude::*;
use vulkano::instance::DeviceExtensions;
use vulkano::instance::Features;
use vulkano::instance::Version;

verus! {

/// The oldest API version that is accepted.
pub open spec fn oldest_version() -> Version {
    Version { major: 1, minor: 0, patch: 0 }
}

/// The first API version that is too new.
pub open spec fn first_unknown_version() -> Version {
    Version { major: 2, minor: 0, patch: 0 }
}

/// Older patch releases and newer minor versions of version 1 are accepted, a
/// new major version is not.
pub open spec fn version_in_range(version: Version) -> bool {
    !version_before(version, oldest_version()) && version_before(version, first_unknown_version())
}

/// The accepted versions are those with major number 1.
pub proof fn lemma_version_in_range(version: Version)
    ensures
        version_in_range(version) <==> version.major == 1,
{
}

/// Tells whether this library works with the given API version.
pub fn version_supported(version: &Version) -> (ok: bool)
    ensures
        ok == version_in_range(*version),
        ok == (version.major == 1),
{
    let oldest = Version { major: 1, minor: 0, patch: 0 };
    let unknown = Version { major: 2, minor: 0, patch: 0 };
    !version_precedes(version, &oldest) && version_precedes(version, &unknown)
}

/// Tells whether every extension that is wanted is on offer.
pub fn extensions_available(wanted: &DeviceExtensions, offered: &DeviceExtensions) -> (ok: bool)
    ensures
        ok == enabled(*wanted).subset_of(enabled(*offered)),
{
    let missing = wanted.difference(offered);
    let nothing = DeviceExtensions::none();
    let ok = same_extensions(&missing, &nothing);
    proof {
        if enabled(*wanted).subset_of(enabled(*offered)) {
            assert(enabled(missing) =~= Set::<Seq<char>>::empty());
        } else {
            let name = choose|name: Seq<char>|
                enabled(*wanted).contains(name) && !enabled(*offered).contains(name);
            assert(enabled(missing).contains(name));
        }
    }
    ok
}

/// A device with this version, these features and these extensions meets the
/// baseline for the wanted features and extensions.
pub open spec fn baseline_met(
    version: Version,
    offered_features: Features,
    offered_extensions: DeviceExtensions,
    wanted_features: Features,
    wanted_extensions: DeviceExtensions,
) -> bool {
    &&& version_in_range(version)
    &&& features_cover(offered_features, wanted_features)
    &&& enabled(wanted_extensions).subset_of(enabled(offered_extensions))
}

/// Tells whether a device meets the baseline, from what it reports of itself.
pub fn meets_baseline(
    version: &Version,
    offered_features: &Features,
    offered_extensions: &DeviceExtensions,
    wanted_features: &Features,
    wanted_extensions: &DeviceExtensions,
) -> (ok: bool)
    ensures
        ok == baseline_met(
            *version,
            *offered_features,
            *offered_extensions,
            *wanted_features,
            *wanted_extensions,
        ),
{
    version_supported(version) && offered_features.superset_of(wanted_features)
        && extensions_available(wanted_extensions, offered_extensions)
}

/// `ok` is the answer of the caller's two criteria about a device with these
/// queue families: no, where the queue filter turns every family down;
/// otherwise, where it lets a family pass, what the other criteria say.
pub open spec fn acceptance_follows<D, M, Q: Fn(&M) -> bool, O: Fn(D) -> bool>(
    device: D,
    families: Seq<M>,
    queue_filter: Q,
    other_criteria: O,
    ok: bool,
) -> bool {
    ||| !ok && forall|k: int|
        0 <= k < families.len() ==> queue_filter.ensures((&families[k],), false)
    ||| other_criteria.ensures((device,), ok) && exists|k: int|
        0 <= k < families.len() && queue_filter.ensures((&families[k],), true)
}

/// Puts a device to the caller's two criteria: at least one of its queue
/// families has to pass the queue filter, and the other criteria have to
/// accept the device.
///
/// The queue filter is asked about no family after the first that passes. The
/// other criteria are only asked where a family passed.
pub fn criteria_accept<D: Copy, M, Q: Fn(&M) -> bool, O: Fn(D) -> bool>(
    device: D,
    families: &Vec<M>,
    queue_filter: &Q,
    other_criteria: &O,
) -> (ok: bool)
    requires
        forall|k: int| 0 <= k < families.len() ==> queue_filter.requires((&families@[k],)),
        other_criteria.requires((device,)),
    ensures
        acceptance_follows(device, families@, *queue_filter, *other_criteria, ok),
{
    let found = first_match(families, queue_filter);
    match found {
        None => false,
        Some(k) => {
            assert(position(found) == Some(k as int));
            other_criteria(device)
        },
    }
}

/// `ok` is the answer to whether a device is suitable, from what it reports
/// of itself and from what the caller's two criteria say.
///
/// A device that misses the baseline is unsuitable. One that meets it is
/// unsuitable too if the queue filter turns all of its queue families down.
/// Where the filter lets a family pass, the other criteria decide.
pub open spec fn suitability_follows<D, M, Q: Fn(&M) -> bool, O: Fn(D) -> bool>(
    device: D,
    version: Version,
    offered_features: Features,
    offered_extensions: DeviceExtensions,
    families: Seq<M>,
    wanted_features: Features,
    wanted_extensions: DeviceExtensions,
    queue_filter: Q,
    other_criteria: O,
    ok: bool,
) -> bool {
    if !baseline_met(
        version,
        offered_features,
        offered_extensions,
        wanted_features,
        wanted_extensions,
    ) {
        !ok
    } else {
        acceptance_follows(device, families, queue_filter, other_criteria, ok)
    }
}

/// Tells whether a device is suitable: it meets the baseline, at least one of
/// its queue families passes the queue filter, and the other criteria accept
/// it.
///
/// The queue filter is only asked where the baseline is met, and about no
/// family after the first that passes. The other criteria are only asked where
/// a family passed.
pub fn device_suitable<D: Copy, M, Q: Fn(&M) -> bool, O: Fn(D) -> bool>(
    device: D,
    version: &Version,
    offered_features: &Features,
    offered_extensions: &DeviceExtensions,
    families: &Vec<M>,
    wanted_features: &Features,
    wanted_extensions: &DeviceExtensions,
    queue_filter: &Q,
    other_criteria: &O,
) -> (ok: bool)
    requires
        forall|k: int| 0 <= k < families.len() ==> queue_filter.requires((&families@[k],)),
        other_criteria.requires((device,)),
    ensures
        suitability_follows(
            device,
            *version,
            *offered_features,
            *offered_extensions,
            families@,
            *wanted_features,
            *wanted_extensions,
            *queue_filter,
            *other_criteria,
            ok,
        ),
{
    if !meets_baseline(
        version,
        offered_features,
        offered_extensions,
        wanted_features,
        wanted_extensions,
    ) {
        false
    } else {
        criteria_accept(device, families, queue_filter, other_criteria)
    }
}

} // verus!
