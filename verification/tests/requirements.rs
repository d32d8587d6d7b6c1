use std::cell::RefCell;
use std::cmp::Ordering;
use vulkano::instance::{DeviceExtensions, Features, PhysicalDevice, QueueFamily, Version};
use vulkanoob::easy_device_filter;
use vulkanoob::requirements::{
    criteria_accept, device_suitable, extensions_available, meets_baseline, version_supported,
};
use vulkanoob::selection::select_favorite;

/// A device as far as the baseline looks at it.
#[derive(Clone, Copy)]
struct Device {
    id: u32,
    major: u16,
    compute_family: bool,
}

/// Whether a device is suitable for a program that wants nothing but a
/// compute queue.
fn wants_compute(device: Device) -> bool {
    let families: Vec<bool> = vec![false, device.compute_family];
    device_suitable(
        device,
        &Version { major: device.major, minor: 0, patch: 0 },
        &Features::none(),
        &DeviceExtensions::none(),
        &families,
        &Features::none(),
        &DeviceExtensions::none(),
        &|compute: &bool| *compute,
        &|_: Device| true,
    )
}

/// Asks whether device 7 is suitable, with no features or extensions wanted,
/// and notes down what the two criteria were asked about.
fn suitability(
    version: Version,
    families: Vec<u32>,
    family_wanted: u32,
    accepted: bool,
) -> (bool, Vec<u32>, Vec<u32>) {
    let families_asked: RefCell<Vec<u32>> = RefCell::new(Vec::new());
    let devices_asked: RefCell<Vec<u32>> = RefCell::new(Vec::new());
    let ok = device_suitable(
        7u32,
        &version,
        &Features::none(),
        &DeviceExtensions::none(),
        &families,
        &Features::none(),
        &DeviceExtensions::none(),
        &|family: &u32| {
            families_asked.borrow_mut().push(*family);
            *family == family_wanted
        },
        &|device: u32| {
            devices_asked.borrow_mut().push(device);
            accepted
        },
    );
    (ok, families_asked.into_inner(), devices_asked.into_inner())
}

fn version(major: u16, minor: u16, patch: u16) -> Version {
    Version { major, minor, patch }
}

#[test]
fn version_one_is_supported_from_its_first_release() {
    assert!(version_supported(&version(1, 0, 0)));
    assert!(version_supported(&version(1, 0, 76)));
    assert!(version_supported(&version(1, 1, 0)));
    assert!(version_supported(&version(1, 65535, 65535)));
}

#[test]
fn versions_before_one_are_not_supported() {
    assert!(!version_supported(&version(0, 0, 0)));
    assert!(!version_supported(&version(0, 9, 9)));
    assert!(!version_supported(&version(0, 65535, 65535)));
}

#[test]
fn version_two_and_later_are_not_supported() {
    assert!(!version_supported(&version(2, 0, 0)));
    assert!(!version_supported(&version(2, 0, 1)));
    assert!(!version_supported(&version(3, 1, 4)));
}

#[test]
fn no_wanted_extension_is_always_available() {
    let nothing = DeviceExtensions::none();
    let swapchain = DeviceExtensions { khr_swapchain: true, ..DeviceExtensions::none() };
    assert!(extensions_available(&nothing, &nothing));
    assert!(extensions_available(&nothing, &swapchain));
}

#[test]
fn missing_extension_is_not_available() {
    let nothing = DeviceExtensions::none();
    let swapchain = DeviceExtensions { khr_swapchain: true, ..DeviceExtensions::none() };
    let marker = DeviceExtensions { ext_debug_marker: true, ..DeviceExtensions::none() };
    assert!(!extensions_available(&swapchain, &nothing));
    assert!(!extensions_available(&swapchain, &marker));
}

#[test]
fn offered_extensions_may_exceed_the_wanted_ones() {
    let swapchain = DeviceExtensions { khr_swapchain: true, ..DeviceExtensions::none() };
    let both = DeviceExtensions {
        khr_swapchain: true,
        khr_maintenance1: true,
        ..DeviceExtensions::none()
    };
    assert!(extensions_available(&swapchain, &both));
    assert!(extensions_available(&both, &both));
    assert!(!extensions_available(&both, &swapchain));
}

#[test]
fn baseline_is_met_where_version_features_and_extensions_fit() {
    let offered_features =
        Features { robust_buffer_access: true, geometry_shader: true, ..Features::none() };
    let wanted_features = Features { geometry_shader: true, ..Features::none() };
    let swapchain = DeviceExtensions { khr_swapchain: true, ..DeviceExtensions::none() };
    assert!(meets_baseline(
        &version(1, 0, 76),
        &offered_features,
        &swapchain,
        &wanted_features,
        &swapchain
    ));
}

#[test]
fn baseline_fails_on_the_version_alone() {
    let features = Features::none();
    let nothing = DeviceExtensions::none();
    assert!(meets_baseline(&version(1, 2, 3), &features, &nothing, &features, &nothing));
    assert!(!meets_baseline(&version(2, 0, 0), &features, &nothing, &features, &nothing));
    assert!(!meets_baseline(&version(0, 9, 0), &features, &nothing, &features, &nothing));
}

#[test]
fn baseline_fails_on_a_missing_feature() {
    let offered = Features { robust_buffer_access: true, ..Features::none() };
    let wanted = Features { tessellation_shader: true, ..Features::none() };
    let nothing = DeviceExtensions::none();
    assert!(!meets_baseline(&version(1, 0, 0), &offered, &nothing, &wanted, &nothing));
    assert!(meets_baseline(&version(1, 0, 0), &Features::all(), &nothing, &wanted, &nothing));
}

#[test]
fn baseline_fails_on_a_missing_extension() {
    let features = Features::none();
    let nothing = DeviceExtensions::none();
    let swapchain = DeviceExtensions { khr_swapchain: true, ..DeviceExtensions::none() };
    assert!(!meets_baseline(&version(1, 0, 0), &features, &nothing, &features, &swapchain));
}

#[test]
fn device_is_suitable_where_everything_fits() {
    let (ok, families, devices) = suitability(version(1, 0, 76), vec![3, 4, 5], 4, true);
    assert!(ok);
    assert_eq!(families, vec![3, 4]);
    assert_eq!(devices, vec![7]);
}

#[test]
fn device_below_the_baseline_is_unsuitable_and_nothing_is_asked() {
    let (ok, families, devices) = suitability(version(2, 0, 0), vec![3, 4, 5], 4, true);
    assert!(!ok);
    assert_eq!(families, Vec::<u32>::new());
    assert_eq!(devices, Vec::<u32>::new());
}

#[test]
fn device_without_a_fitting_queue_family_is_unsuitable() {
    let (ok, families, devices) = suitability(version(1, 0, 0), vec![3, 4, 5], 9, true);
    assert!(!ok);
    assert_eq!(families, vec![3, 4, 5]);
    assert_eq!(devices, Vec::<u32>::new());
    let (ok, _, _) = suitability(version(1, 0, 0), vec![], 9, true);
    assert!(!ok);
}

#[test]
fn device_that_the_other_criteria_turn_down_is_unsuitable() {
    let (ok, families, devices) = suitability(version(1, 0, 0), vec![4], 4, false);
    assert!(!ok);
    assert_eq!(families, vec![4]);
    assert_eq!(devices, vec![7]);
}

#[test]
fn device_without_a_wanted_feature_or_extension_is_unsuitable() {
    let wanted_features = Features { geometry_shader: true, ..Features::none() };
    let swapchain = DeviceExtensions { khr_swapchain: true, ..DeviceExtensions::none() };
    let pass = |_: &u32| true;
    let accept = |_: u32| true;
    let families: Vec<u32> = vec![0];
    let v = version(1, 1, 0);
    assert!(!device_suitable(
        0u32,
        &v,
        &Features::none(),
        &swapchain,
        &families,
        &wanted_features,
        &swapchain,
        &pass,
        &accept
    ));
    assert!(!device_suitable(
        0u32,
        &v,
        &Features::all(),
        &DeviceExtensions::none(),
        &families,
        &wanted_features,
        &swapchain,
        &pass,
        &accept
    ));
    assert!(device_suitable(
        0u32,
        &v,
        &Features::all(),
        &swapchain,
        &families,
        &wanted_features,
        &swapchain,
        &pass,
        &accept
    ));
}

#[test]
fn criteria_accept_where_a_family_passes_and_the_device_is_accepted() {
    let families: Vec<u32> = vec![1, 2, 3];
    assert!(criteria_accept(0u32, &families, &|family: &u32| *family == 2, &|_: u32| true));
    assert!(!criteria_accept(0u32, &families, &|family: &u32| *family == 2, &|_: u32| false));
    assert!(!criteria_accept(0u32, &families, &|family: &u32| *family == 9, &|_: u32| true));
    let none: Vec<u32> = Vec::new();
    assert!(!criteria_accept(0u32, &none, &|_: &u32| true, &|_: u32| true));
}

#[test]
fn device_filter_is_built_without_asking_anything() {
    let features = Features::none();
    let extensions = DeviceExtensions::none();
    let queue_filter = |_: &QueueFamily| -> bool { panic!("no family to ask about") };
    let _filter = easy_device_filter(&features, &extensions, &queue_filter, |_: PhysicalDevice| {
        panic!("no device to ask about")
    });
}

#[test]
fn picked_device_is_a_suitable_one() {
    let devices = vec![
        Device { id: 0, major: 2, compute_family: true },
        Device { id: 1, major: 1, compute_family: false },
        Device { id: 2, major: 1, compute_family: true },
        Device { id: 3, major: 1, compute_family: true },
    ];
    let outcome = select_favorite(&devices, wants_compute, |_: Device, _: Device| Ordering::Equal);
    assert_eq!(outcome.favorite.map(|k| devices[k].id), Some(2));
    let selected: Vec<bool> = outcome.verdicts.iter().map(|verdict| verdict.selected).collect();
    assert_eq!(selected, vec![false, false, true, true]);
}

#[test]
fn no_device_is_picked_where_none_is_suitable() {
    let devices = vec![
        Device { id: 0, major: 2, compute_family: true },
        Device { id: 1, major: 1, compute_family: false },
    ];
    let outcome = select_favorite(&devices, wants_compute, |_: Device, _: Device| Ordering::Equal);
    assert_eq!(outcome.favorite, None);
}
