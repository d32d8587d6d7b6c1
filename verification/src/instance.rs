//! An instance with its debug callback, and the selection of a physical device
//! on it.

use crate::device::EasyPhysicalDevice;
use crate::native::{listed_devices, physical_devices, reported_features};
use crate::selection::{
    count, examine, favorite_of, filter_says, lemma_favorite_was_selected, position,
    selection_follows, Examination, Selection, Stage, Verdict,
};
use std::cmp::Ordering;
use std::sync::Arc;
use vstd::prelude::*;
use vulkano::instance::debug::DebugCallback;
use vulkano::instance::Instance;
use vulkano::instance::PhysicalDevice;

verus! {

/// An instance together with the callback that forwards its debug messages.
///
/// The two are kept in one value so that the callback lives as long as the
/// instance is in use: keep this value for as long as the program runs.
pub struct EasyInstance {
    instance: Arc<Instance>,
    _debug_callback: DebugCallback,
}

/// The outcome of a device selection.
pub struct DeviceSelection<'instance> {
    /// The favorite among the devices that passed the filter, if any did.
    pub favorite: Option<EasyPhysicalDevice<'instance>>,
    /// One verdict per device of the instance, in the order of enumeration.
    pub verdicts: Vec<Verdict>,
}

/// Why a device selection was given up.
#[derive(Debug, PartialEq, Eq)]
pub enum SelectionError {
    /// A device does not support robust buffer access, which every
    /// implementation has to.
    MissingRobustBufferAccess {
        /// Position of the device in the order of enumeration.
        device: usize,
        /// The verdicts on the devices before it.
        verdicts: Vec<Verdict>,
    },
}

/// `outcome` is how the selection ends when it goes through `devices` in
/// order. Where every device supports robust buffer access, it ends with the
/// policy's verdicts on all of them and the favorite that these name.
/// Otherwise it ends with an error at the first device that lacks it, and with
/// the policy's verdicts on the devices before that one.
pub open spec fn devices_examined<
    'instance,
    F: Fn(PhysicalDevice) -> bool,
    P: Fn(PhysicalDevice, PhysicalDevice) -> Ordering,
>(
    devices: Seq<PhysicalDevice<'instance>>,
    filter: F,
    preference: P,
    outcome: Result<DeviceSelection<'instance>, SelectionError>,
) -> bool {
    match outcome {
        Ok(selection) => {
            &&& forall|i: int|
                0 <= i < devices.len() ==> (#[trigger] reported_features(
                    devices[i],
                )).robust_buffer_access
            &&& selection_follows(
                devices,
                filter,
                preference,
                selection.verdicts@,
                favorite_of(selection.verdicts@),
            )
            &&& match favorite_of(selection.verdicts@) {
                Some(k) => selection.favorite matches Some(easy) && easy.handle() == devices[k],
                None => selection.favorite is None,
            }
        },
        Err(SelectionError::MissingRobustBufferAccess { device, verdicts }) => {
            &&& device == verdicts@.len()
            &&& device < devices.len()
            &&& !reported_features(devices[count(verdicts@)]).robust_buffer_access
            &&& forall|i: int|
                0 <= i < verdicts@.len() ==> (#[trigger] reported_features(
                    devices[i],
                )).robust_buffer_access
            &&& selection_follows(
                devices.take(count(verdicts@)),
                filter,
                preference,
                verdicts@,
                favorite_of(verdicts@),
            )
        },
    }
}

impl SelectionError {
    /// What went wrong, in words.
    pub fn message(&self) -> (text: &'static str)
        ensures
            text@ == "Robust buffer access support is mandated by the spec"@,
    {
        match self {
            SelectionError::MissingRobustBufferAccess { .. } => {
                "Robust buffer access support is mandated by the spec"
            },
        }
    }
}

impl EasyInstance {
    /// The instance that this value holds.
    pub closed spec fn handle(&self) -> Arc<Instance> {
        self.instance
    }

    /// The registration of the debug callback that this value holds.
    pub closed spec fn callback(&self) -> DebugCallback {
        self._debug_callback
    }

    /// Puts an instance and the debug callback registered on it into one
    /// value, which owns both from then on.
    pub fn from_parts(instance: Arc<Instance>, debug_callback: DebugCallback) -> (easy: Self)
        ensures
            easy.handle() == instance,
            easy.callback() == debug_callback,
    {
        EasyInstance { instance, _debug_callback: debug_callback }
    }

    /// Gives access to the instance.
    pub fn instance(&self) -> (instance: &Arc<Instance>)
        ensures
            *instance == self.handle(),
    {
        &self.instance
    }

    /// Selects one physical device.
    ///
    /// The devices of the instance are examined in the order in which it
    /// lists them. A device that does not support robust buffer access ends
    /// the examination with an error. Otherwise the first device that passes
    /// `filter` is the favorite, and a later one that passes replaces it only
    /// if `preference` ranks it strictly greater than the favorite.
    ///
    /// `watch` is told of each device as the examination goes: when the device
    /// comes up, when it has been found to support robust buffer access, and
    /// when its verdict is in. A program that logs what the devices can do
    /// does so there.
    pub fn select_physical_device<F, P, W>(&self, filter: F, preference: P, watch: W) -> (outcome:
        Result<DeviceSelection<'_>, SelectionError>) where
        F: Fn(PhysicalDevice) -> bool,
        P: Fn(PhysicalDevice, PhysicalDevice) -> Ordering,
        W: Fn(PhysicalDevice, Stage),

        requires
            forall|i: int, stage: Stage|
                0 <= i < listed_devices(*self.handle()).len() ==> watch.requires(
                    (listed_devices(*self.handle())[i], stage),
                ),
            forall|i: int|
                0 <= i < listed_devices(*self.handle()).len() ==> filter.requires(
                    (listed_devices(*self.handle())[i],),
                ),
            forall|i: int, j: int|
                0 <= j < i < listed_devices(*self.handle()).len() ==> preference.requires(
                    (listed_devices(*self.handle())[i], listed_devices(*self.handle())[j]),
                ),
        ensures
            devices_examined(listed_devices(*self.handle()), filter, preference, outcome),
            match outcome {
                Ok(selection) => {
                    &&& selection.verdicts@.len() == listed_devices(*self.handle()).len()
                    &&& selection.favorite matches Some(easy) ==> filter.ensures(
                        (easy.handle(),),
                        true,
                    )
                    &&& selection.favorite is None <==> forall|j: int|
                        0 <= j < selection.verdicts@.len() ==> !selection.verdicts@[j].selected
                },
                Err(SelectionError::MissingRobustBufferAccess { device, verdicts }) => device
                    == verdicts@.len(),
            },
    {
        let devices = physical_devices(&self.instance);
        assert(devices@ == listed_devices(*self.handle()));
        let robust = |device: PhysicalDevice| -> (sound: bool)
            ensures
                sound == reported_features(device).robust_buffer_access,
            { device.supported_features().robust_buffer_access };
        let outcome = match examine(&devices, robust, filter, preference, watch) {
            Examination::Complete(selection) => {
                let Selection { favorite, verdicts } = selection;
                proof {
                    assert forall|i: int| 0 <= i < devices@.len() implies (
                    #[trigger] reported_features(devices@[i])).robust_buffer_access by {
                        assert(filter_says(robust, devices@[i], true));
                    }
                    lemma_favorite_was_selected(
                        devices@,
                        filter,
                        preference,
                        verdicts@,
                        position(favorite),
                    );
                }
                let easy = match favorite {
                    Some(k) => Some(EasyPhysicalDevice::new(devices[k])),
                    None => None,
                };
                let ghost verdicts_then = verdicts@;
                let chosen = DeviceSelection { favorite: easy, verdicts };
                assert(chosen.verdicts@ == verdicts_then);
                Ok(chosen)
            },
            Examination::GaveUp { position, verdicts } => {
                proof {
                    assert forall|i: int| 0 <= i < verdicts@.len() implies (
                    #[trigger] reported_features(devices@[i])).robust_buffer_access by {
                        assert(filter_says(robust, devices@[i], true));
                    }
                }
                Err(SelectionError::MissingRobustBufferAccess { device: position, verdicts })
            },
        };
        assert(devices_examined(devices@, filter, preference, outcome));
        outcome
    }
}

} // verus!
