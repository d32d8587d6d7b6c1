//! Conveniences for quick prototypes on top of the vulkano graphics bindings.
//!
//! Nothing here is meant for production code.
//!
//! The library picks a physical device and a queue family by a filter and a
//! preference, checks the baseline that nearly every program asks of a device,
//! decides which debug messages to listen to and how to log them, and writes
//! the report on what the devices of a machine can do. It neither creates an
//! instance or a device nor logs anything itself: a program does that with what
//! the library hands it.
//!
//! - [`policy`] and [`selection`] hold the selection policy, as a mathematical
//!   function and as the code that runs it over any list of candidates.
//! - [`requirements`] holds the baseline for devices, and [`easy_device_filter`]
//!   builds a device filter on it.
//! - [`instance`] and [`device`] apply the policy to the devices of an instance
//!   and to the queue families of a device.
//! - [`debug`] picks and words debug messages.
//! - [`info`], [`limits`], [`report`] and [`text`] describe devices as plain
//!   data and turn the descriptions into lines of text.
//! - [`native`] lists what is taken on trust about the bindings.

pub mod debug;
pub mod device;
pub mod info;
pub mod instance;
pub mod limits;
pub mod native;
pub mod policy;
pub mod report;
pub mod requirements;
pub mod selection;
pub mod text;

use crate::native::{listed_families, queue_families, reported_features, reported_version};
use crate::requirements::{
    criteria_accept, extensions_available, suitability_follows, version_supported,
};
use vstd::prelude::*;
use vulkano::instance::DeviceExtensions;
use vulkano::instance::Features;
use vulkano::instance::PhysicalDevice;
use vulkano::instance::QueueFamily;

verus! {

/// Builds a device filter out of the criteria that nearly every program has.
///
/// The filter lets a device pass if its API version is one this library works
/// with, it has the wanted features and extensions, at least one of its queue
/// families passes `queue_filter`, and `other_criteria` accepts it. Each
/// question is only asked where the ones before it were answered with yes: the
/// driver is asked for the extensions of a device only once its version and
/// features fit, and the two criteria only once the extensions fit too.
///
/// The answer of the filter is the one that
/// [`device_suitable`](requirements::device_suitable) gives for the version,
/// the features and the queue families that the device reports, and for the
/// extensions that the driver offers when it is asked.
pub fn easy_device_filter<'a, Q, O>(
    features: &'a Features,
    extensions: &'a DeviceExtensions,
    queue_filter: &'a Q,
    other_criteria: O,
) -> (filter: impl Fn(PhysicalDevice) -> bool + 'a) where
    Q: Fn(&QueueFamily) -> bool,
    O: Fn(PhysicalDevice) -> bool + 'a,

    requires
        forall|family: &QueueFamily| queue_filter.requires((family,)),
        forall|device: PhysicalDevice| other_criteria.requires((device,)),
    ensures
        forall|device: PhysicalDevice| filter.requires((device,)),
        forall|device: PhysicalDevice, ok: bool| #[trigger]
            filter.ensures((device,), ok) ==> exists|offered: DeviceExtensions|
                suitability_follows(
                    device,
                    reported_version(device),
                    reported_features(device),
                    offered,
                    listed_families(device),
                    *features,
                    *extensions,
                    *queue_filter,
                    other_criteria,
                    ok,
                ),
{
    move |device: PhysicalDevice| -> (ok: bool)
        ensures
            exists|offered: DeviceExtensions|
                suitability_follows(
                    device,
                    reported_version(device),
                    reported_features(device),
                    offered,
                    listed_families(device),
                    *features,
                    *extensions,
                    *queue_filter,
                    other_criteria,
                    ok,
                ),
        {
            let version = device.api_version();
            if !version_supported(&version) || !device.supported_features().superset_of(features) {
                assert(suitability_follows(
                    device,
                    reported_version(device),
                    reported_features(device),
                    *extensions,
                    listed_families(device),
                    *features,
                    *extensions,
                    *queue_filter,
                    other_criteria,
                    false,
                ));
                false
            } else {
                let offered = DeviceExtensions::supported_by_device(device);
                let ok = if !extensions_available(extensions, &offered) {
                    false
                } else {
                    let families = queue_families(device);
                    criteria_accept(device, &families, queue_filter, &other_criteria)
                };
                assert(suitability_follows(
                    device,
                    reported_version(device),
                    reported_features(device),
                    offered,
                    listed_families(device),
                    *features,
                    *extensions,
                    *queue_filter,
                    other_criteria,
                    ok,
                ));
                ok
            }
        }
}

} // verus!
