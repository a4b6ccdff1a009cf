use rviv::cache::{Texture, TextureCache};
use rviv::config::{staging_config, texture_config, view_config};
use rviv::context::{Resource, Staging, TextureStore};
use rviv::device::DEVICE_LOCAL;
use rviv::texture::{Load, LoadAction, LoadReply};

fn store(size: u64) -> TextureStore {
    TextureStore {
        staging: Staging { buffer: 1, memory: 2, size },
        cache: TextureCache::new(),
    }
}

fn texture(number: u64) -> Texture {
    Texture { image: number, memory: 100 + number, view: 200 + number, width: 2, height: 3 }
}

fn decoded() -> LoadReply {
    LoadReply::Decoded { width: 2, height: 3, size: 24 }
}

/// Runs the steps from the staging buffer on, with the given handles for the new objects.
fn upload(load: &mut Load, store: &mut TextureStore, image: u64, memory: u64, view: u64) {
    assert_eq!(load.action(store), LoadAction::CreateImage { texture: texture_config(2, 3) });
    load.advance(store, LoadReply::Handle(image));
    assert_eq!(load.action(store), LoadAction::Allocate { image, properties: DEVICE_LOCAL });
    load.advance(store, LoadReply::Handle(memory));
    assert_eq!(load.action(store), LoadAction::BindMemory { image, memory });
    load.advance(store, LoadReply::Done);
    let buffer = store.staging.buffer;
    assert_eq!(load.action(store), LoadAction::Copy { buffer, image, width: 2, height: 3 });
    load.advance(store, LoadReply::Done);
    let description = view_config(43);
    assert_eq!(load.action(store), LoadAction::CreateView { image, description });
    load.advance(store, LoadReply::Handle(view));
    assert_eq!(load.action(store), LoadAction::Bind { view });
    load.advance(store, LoadReply::Done);
}

#[test]
fn a_large_image_gets_a_larger_staging_buffer() {
    let mut store = store(4);
    let mut load = Load::start(&mut store, 7);
    assert_eq!(load.action(&store), LoadAction::Decode);
    load.advance(&mut store, decoded());
    assert_eq!(load.action(&store), LoadAction::WaitIdle);
    load.advance(&mut store, LoadReply::Done);
    assert_eq!(load.action(&store), LoadAction::Destroy(Resource::Buffer(1)));
    load.advance(&mut store, LoadReply::Done);
    assert_eq!(load.action(&store), LoadAction::Destroy(Resource::Memory(2)));
    load.advance(&mut store, LoadReply::Done);
    let staging = staging_config(24);
    assert_eq!(load.action(&store), LoadAction::CreateStaging { staging });
    load.advance(&mut store, LoadReply::Buffer { buffer: 3, memory: 4 });
    assert_eq!(store.staging, Staging { buffer: 1, memory: 2, size: 4 });
    assert_eq!(load.action(&store), LoadAction::Fill { memory: 4, size: 24 });
    load.advance(&mut store, LoadReply::Done);
    assert_eq!(store.staging, Staging { buffer: 3, memory: 4, size: 24 });
    upload(&mut load, &mut store, 10, 11, 12);
    assert_eq!(load.action(&store), LoadAction::Finished { width: 2, height: 3 });
    assert!(store.cache.contains(7));
}

#[test]
fn a_small_image_uses_the_staging_buffer_that_is_there() {
    let mut store = store(24);
    let mut load = Load::start(&mut store, 0);
    load.advance(&mut store, decoded());
    load.advance(&mut store, LoadReply::Done);
    assert_eq!(load.action(&store), LoadAction::Fill { memory: 2, size: 24 });
    load.advance(&mut store, LoadReply::Done);
    upload(&mut load, &mut store, 10, 11, 12);
    assert_eq!(load.action(&store), LoadAction::Finished { width: 2, height: 3 });
    assert_eq!(store.staging, Staging { buffer: 1, memory: 2, size: 24 });
}

#[test]
fn a_cached_image_is_only_bound() {
    let mut store = store(4);
    store.cache.insert(5, texture(5));
    let mut load = Load::start(&mut store, 5);
    assert_eq!(load.action(&store), LoadAction::Bind { view: 205 });
    load.advance(&mut store, LoadReply::Done);
    assert_eq!(load.action(&store), LoadAction::Finished { width: 2, height: 3 });
}

#[test]
fn a_loaded_image_is_found_in_the_cache_the_next_time() {
    let mut store = store(24);
    let mut load = Load::start(&mut store, 9);
    load.advance(&mut store, decoded());
    load.advance(&mut store, LoadReply::Done);
    load.advance(&mut store, LoadReply::Done);
    upload(&mut load, &mut store, 10, 11, 12);
    let again = Load::start(&mut store, 9);
    assert_eq!(again.action(&store), LoadAction::Bind { view: 12 });
    assert_eq!((again.width, again.height), (2, 3));
}

#[test]
fn a_full_cache_gives_back_the_texture_used_longest_ago() {
    let mut store = store(24);
    for key in 0..10 {
        store.cache.insert(key, texture(key as u64));
    }
    Load::start(&mut store, 0);
    let mut load = Load::start(&mut store, 50);
    load.advance(&mut store, decoded());
    load.advance(&mut store, LoadReply::Done);
    load.advance(&mut store, LoadReply::Done);
    upload(&mut load, &mut store, 60, 61, 62);
    assert_eq!(load.action(&store), LoadAction::Destroy(Resource::ImageView(201)));
    load.advance(&mut store, LoadReply::Done);
    assert_eq!(load.action(&store), LoadAction::Destroy(Resource::Image(1)));
    load.advance(&mut store, LoadReply::Done);
    assert_eq!(load.action(&store), LoadAction::Destroy(Resource::Memory(101)));
    load.advance(&mut store, LoadReply::Done);
    assert_eq!(load.action(&store), LoadAction::Finished { width: 2, height: 3 });
    assert!(store.cache.contains(0));
    assert!(!store.cache.contains(1));
    assert!(store.cache.contains(50));
    assert_eq!(store.cache.len(), 10);
}

#[test]
fn a_load_ends_where_a_step_fails() {
    let mut store = store(24);
    let mut load = Load::start(&mut store, 1);
    load.advance(&mut store, LoadReply::Failed);
    assert_eq!(load.action(&store), LoadAction::Failed);
    let mut late = Load::start(&mut store, 1);
    late.advance(&mut store, decoded());
    late.advance(&mut store, LoadReply::Done);
    late.advance(&mut store, LoadReply::Done);
    late.advance(&mut store, LoadReply::Handle(10));
    late.advance(&mut store, LoadReply::Failed);
    assert_eq!(late.action(&store), LoadAction::Failed);
    assert!(!store.cache.contains(1));
}

#[test]
fn a_load_that_fails_keeps_the_name_of_the_staging_buffer() {
    let mut store = store(4);
    let mut load = Load::start(&mut store, 1);
    load.advance(&mut store, decoded());
    for _ in 0..3 {
        load.advance(&mut store, LoadReply::Done);
    }
    load.advance(&mut store, LoadReply::Buffer { buffer: 3, memory: 4 });
    load.advance(&mut store, LoadReply::Failed);
    assert_eq!(load.action(&store), LoadAction::Failed);
    assert_eq!(store.staging, Staging { buffer: 1, memory: 2, size: 4 });
}
