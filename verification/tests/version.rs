use wgpu_openxr_example::types::{next_preview_eye, preview_eye_label, VIEW_COUNT};
use wgpu_openxr_example::version::{graphics_requirements_ok, vk_api_version, XrVersion};

#[test]
fn xr_version_packs_like_the_runtime() {
    let v = XrVersion::new(1, 1, 0);
    assert_eq!(v.packed(), openxr::sys::Version::new(1, 1, 0).into_raw());
    let w = XrVersion::new(1, 0, 34);
    assert_eq!(w.packed(), openxr::sys::Version::new(1, 0, 34).into_raw());
    assert_eq!(XrVersion::new(0, 0, 0).packed(), 0);
}

#[test]
fn xr_version_orders_by_major_minor_patch() {
    let a = XrVersion::new(1, 0, 99);
    let b = XrVersion::new(1, 1, 0);
    let c = XrVersion::new(2, 0, 0);
    assert!(a.lt(&b));
    assert!(b.lt(&c));
    assert!(!b.lt(&a));
    assert!(!a.lt(&a));
}

#[test]
fn graphics_requirements_check_matches_session_setup() {
    let target = XrVersion::new(1, 1, 0);
    // Within range.
    assert!(graphics_requirements_ok(
        &target,
        &XrVersion::new(1, 0, 0),
        &XrVersion::new(1, 3, 0)
    ));
    // Below the minimum supported version.
    assert!(!graphics_requirements_ok(
        &target,
        &XrVersion::new(1, 2, 0),
        &XrVersion::new(1, 3, 0)
    ));
    // Of a later major line than the maximum supported one.
    assert!(!graphics_requirements_ok(
        &XrVersion::new(2, 0, 0),
        &XrVersion::new(1, 0, 0),
        &XrVersion::new(1, 3, 0)
    ));
    // Same major as the maximum: the minor does not matter upward.
    assert!(graphics_requirements_ok(
        &XrVersion::new(1, 9, 0),
        &XrVersion::new(1, 0, 0),
        &XrVersion::new(1, 3, 0)
    ));
}

#[test]
fn vk_api_version_packs_like_the_graphics_library() {
    assert_eq!(vk_api_version(0, 1, 1, 0), ash::vk::make_api_version(0, 1, 1, 0));
    assert_eq!(vk_api_version(0, 1, 3, 281), ash::vk::make_api_version(0, 1, 3, 281));
    assert_eq!(vk_api_version(1, 2, 3, 4), ash::vk::make_api_version(1, 2, 3, 4));
    assert_eq!(vk_api_version(0, 1, 0, 0), 1 << 22);
}

#[test]
fn preview_eye_toggles_between_both_views() {
    assert_eq!(VIEW_COUNT, 2);
    assert_eq!(next_preview_eye(0), 1);
    assert_eq!(next_preview_eye(1), 0);
    assert_eq!(preview_eye_label(0), "left");
    assert_eq!(preview_eye_label(1), "right");
}
