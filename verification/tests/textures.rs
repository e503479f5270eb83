//! Texture diff manager behaviour: full sets, sub-region patches, frees,
//! and the error cases.

use blue_engine_egui::{BridgeError, Image, ImageDelta, TextureStore};

fn image(width: u32, height: u32, value: u32) -> Image {
    Image::filled(width, height, value)
}

#[test]
fn set_then_free_round_trip_removes_id() {
    let mut store = TextureStore::new();
    assert!(store.apply_set(9, ImageDelta::Full(image(2, 2, 5))).is_ok());
    assert!(store.contains(9));
    store.apply_free(9);
    assert!(!store.contains(9));
}

#[test]
fn second_full_set_wins() {
    let mut store = TextureStore::new();
    assert!(store.apply_set(1, ImageDelta::Full(image(2, 2, 5))).is_ok());
    assert!(store.apply_set(1, ImageDelta::Full(image(2, 2, 8))).is_ok());
    let img = store.get(1).unwrap();
    assert_eq!(img.pixel(0, 0), 8);
    assert_eq!(img.pixel(1, 1), 8);
}

#[test]
fn free_of_absent_id_is_a_no_op() {
    let mut store = TextureStore::new();
    store.apply_free(42);
    assert!(!store.contains(42));
    assert!(store.apply_set(42, ImageDelta::Full(image(1, 1, 3))).is_ok());
    store.apply_free(42);
    store.apply_free(42);
    assert!(!store.contains(42));
}

#[test]
fn patch_overwrites_region_and_keeps_rest() {
    let mut store = TextureStore::new();
    assert!(store.apply_set(2, ImageDelta::Full(image(4, 4, 1))).is_ok());
    let r = store.apply_set(2, ImageDelta::Patch { x: 1, y: 1, image: image(2, 2, 9) });
    assert!(r.is_ok());
    let img = store.get(2).unwrap();
    // Inside the region.
    assert_eq!(img.pixel(1, 1), 9);
    assert_eq!(img.pixel(2, 1), 9);
    assert_eq!(img.pixel(1, 2), 9);
    assert_eq!(img.pixel(2, 2), 9);
    // Outside the region.
    assert_eq!(img.pixel(0, 0), 1);
    assert_eq!(img.pixel(3, 0), 1);
    assert_eq!(img.pixel(0, 3), 1);
    assert_eq!(img.pixel(3, 3), 1);
    assert_eq!(img.pixel(3, 1), 1);
    assert_eq!(img.pixel(1, 3), 1);
}

#[test]
fn patch_of_unseen_id_fails_without_effect() {
    let mut store = TextureStore::new();
    let r = store.apply_set(5, ImageDelta::Patch { x: 0, y: 0, image: image(1, 1, 9) });
    assert_eq!(r, Err(BridgeError::TextureMissing(5)));
    assert!(!store.contains(5));
}

#[test]
fn patch_out_of_bounds_fails_without_effect() {
    let mut store = TextureStore::new();
    assert!(store.apply_set(6, ImageDelta::Full(image(2, 2, 1))).is_ok());
    let r = store.apply_set(6, ImageDelta::Patch { x: 1, y: 1, image: image(2, 2, 9) });
    assert_eq!(r, Err(BridgeError::PatchOutOfBounds(6)));
    let img = store.get(6).unwrap();
    assert_eq!(img.pixel(1, 1), 1);
}

#[test]
fn patch_at_exact_edge_is_accepted() {
    let mut store = TextureStore::new();
    assert!(store.apply_set(7, ImageDelta::Full(image(3, 3, 1))).is_ok());
    let r = store.apply_set(7, ImageDelta::Patch { x: 2, y: 2, image: image(1, 1, 4) });
    assert!(r.is_ok());
    let img = store.get(7).unwrap();
    assert_eq!(img.pixel(2, 2), 4);
    assert_eq!(img.pixel(2, 1), 1);
}

#[test]
fn empty_image_round_trips() {
    let mut store = TextureStore::new();
    assert!(store.apply_set(0, ImageDelta::Full(image(0, 0, 0))).is_ok());
    assert!(store.contains(0));
    store.apply_free(0);
    assert!(!store.contains(0));
}
