//! A physical device that was picked, and the choice of a queue family on it.

use crate::native::{listed_families, queue_families};
use crate::selection::{
    favorite_of, select_favorite, selection_follows, verdict_follows, Selection, Verdict,
};
use std::cmp::Ordering;
use vstd::prelude::*;
use vulkano::instance::PhysicalDevice;
use vulkano::instance::QueueFamily;

verus! {

/// A physical device, ready for setting up a logical device on it.
pub struct EasyPhysicalDevice<'instance> {
    device: PhysicalDevice<'instance>,
}

/// `family` is the favorite that the selection policy settles on when it goes
/// through `families` in order and arrives at `verdicts`.
pub open spec fn family_selected<
    'instance,
    F: Fn(QueueFamily) -> bool,
    P: Fn(QueueFamily, QueueFamily) -> Ordering,
>(
    families: Seq<QueueFamily<'instance>>,
    verdicts: Seq<Verdict>,
    filter: F,
    preference: P,
    family: Option<QueueFamily<'instance>>,
) -> bool {
    &&& selection_follows(families, filter, preference, verdicts, favorite_of(verdicts))
    &&& match favorite_of(verdicts) {
        Some(k) => family == Some(families[k]),
        None => family is None,
    }
}

impl<'instance> EasyPhysicalDevice<'instance> {
    /// The handle that this value wraps.
    pub closed spec fn handle(&self) -> PhysicalDevice<'instance> {
        self.device
    }

    /// Wraps the handle of a physical device.
    pub fn new(device: PhysicalDevice<'instance>) -> (easy: Self)
        ensures
            easy.handle() == device,
    {
        EasyPhysicalDevice { device }
    }

    /// Gives access to the handle of the physical device.
    pub fn physical_device(&self) -> (device: &PhysicalDevice<'instance>)
        ensures
            *device == self.handle(),
    {
        &self.device
    }

    /// Picks the queue family for a single-queue setup.
    ///
    /// The families of the device are examined in the order in which the
    /// device lists them. The first that passes `filter` is the favorite, and
    /// a later one that passes replaces it only if `preference` ranks it
    /// strictly greater than the favorite. The result is that favorite, and
    /// nothing where no family passes.
    pub fn select_queue_family<F, P>(&self, filter: F, preference: P) -> (family: Option<
        QueueFamily<'instance>,
    >) where F: Fn(QueueFamily) -> bool, P: Fn(QueueFamily, QueueFamily) -> Ordering
        requires
            forall|i: int|
                0 <= i < listed_families(self.handle()).len() ==> filter.requires(
                    (listed_families(self.handle())[i],),
                ),
            forall|i: int, j: int|
                0 <= j < i < listed_families(self.handle()).len() ==> preference.requires(
                    (listed_families(self.handle())[i], listed_families(self.handle())[j]),
                ),
        ensures
            exists|verdicts: Seq<Verdict>|
                family_selected(
                    listed_families(self.handle()),
                    verdicts,
                    filter,
                    preference,
                    family,
                ),
            family matches Some(chosen) ==> filter.ensures((chosen,), true),
            family is None ==> forall|i: int|
                0 <= i < listed_families(self.handle()).len() ==> filter.ensures(
                    (#[trigger] listed_families(self.handle())[i],),
                    false,
                ),
    {
        let families = queue_families(self.device);
        assert(families@ == listed_families(self.handle()));
        let Selection { favorite, verdicts } = select_favorite(&families, filter, preference);
        let family = match favorite {
            Some(k) => Some(families[k]),
            None => None,
        };
        assert(family_selected(families@, verdicts@, filter, preference, family));
        assert forall|i: int| family is None && 0 <= i < families@.len() implies filter.ensures(
            (#[trigger] families@[i],),
            false,
        ) by {
            assert(verdict_follows(families@, filter, preference, verdicts@, i));
        }
        family
    }
}

} // verus!
