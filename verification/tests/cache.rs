use rviv::cache::{Texture, TextureCache, MAX_CACHED_TEXTURES};

fn texture(number: u64) -> Texture {
    Texture {
        image: 100 + number,
        memory: 200 + number,
        view: 300 + number,
        width: 640,
        height: 480,
    }
}

fn images_of(textures: Vec<Texture>) -> Vec<u64> {
    textures.iter().map(|t| t.image).collect()
}

#[test]
fn ten_textures_fit() {
    assert_eq!(MAX_CACHED_TEXTURES, 10);
    let mut cache = TextureCache::new();
    assert_eq!(cache.len(), 0);
    for key in 0..10 {
        assert_eq!(cache.insert(key, texture(key as u64)), None);
    }
    assert_eq!(cache.len(), 10);
    assert_eq!(cache.insert(10, texture(10)), Some(texture(0)));
    assert_eq!(cache.len(), 10);
    assert!(!cache.contains(0));
    assert!(cache.contains(1));
    assert!(cache.contains(10));
}

#[test]
fn lookup_of_a_missing_key_changes_nothing() {
    let mut cache = TextureCache::new();
    cache.insert(3, texture(3));
    assert_eq!(cache.lookup(4), None);
    assert_eq!(cache.len(), 1);
    assert_eq!(cache.lookup(3), Some(texture(3)));
    assert_eq!(cache.len(), 1);
}

#[test]
fn a_texture_that_is_used_again_stays_longer() {
    let mut cache = TextureCache::new();
    for key in 0..10 {
        cache.insert(key, texture(key as u64));
    }
    assert_eq!(cache.lookup(0), Some(texture(0)));
    assert_eq!(cache.insert(10, texture(10)), Some(texture(1)));
    assert!(cache.contains(0));
    assert_eq!(cache.insert(11, texture(11)), Some(texture(2)));
}

#[test]
fn textures_are_drained_in_the_order_of_their_last_uses() {
    let mut cache = TextureCache::new();
    for key in [7, 5, 9, 6] {
        cache.insert(key, texture(key as u64));
    }
    cache.lookup(5);
    cache.lookup(7);
    assert_eq!(images_of(cache.drain()), vec![109, 106, 105, 107]);
    assert_eq!(cache.len(), 0);
    assert_eq!(cache.insert(7, texture(7)), None);
}

#[test]
fn the_cache_holds_the_most_recently_used_keys() {
    let uses = [1, 2, 3, 4, 5, 6, 7, 8, 9, 10, 1, 11, 2, 12, 12, 1, 3];
    let mut cache = TextureCache::new();
    for &key in &uses {
        if cache.lookup(key).is_none() {
            cache.insert(key, texture(key as u64));
        }
    }
    let mut recent: Vec<usize> = Vec::new();
    for &key in uses.iter().rev() {
        if !recent.contains(&key) && recent.len() < 10 {
            recent.push(key);
        }
    }
    recent.reverse();
    let expected: Vec<u64> = recent.iter().map(|&key| 100 + key as u64).collect();
    assert_eq!(images_of(cache.drain()), expected);
}

#[test]
fn the_cache_gives_back_what_was_put_in() {
    let mut cache = TextureCache::new();
    for key in 0..12 {
        cache.insert(key, texture(key as u64));
    }
    for key in 0..12 {
        let expected = if key < 2 { None } else { Some(texture(key as u64)) };
        assert_eq!(cache.lookup(key), expected);
    }
}

#[test]
fn a_key_is_found_while_fewer_others_were_used_since() {
    let mut cache = TextureCache::new();
    cache.insert(100, texture(100));
    for round in 0..5 {
        for key in 0..9 {
            if cache.lookup(key).is_none() {
                cache.insert(key, texture(round));
            }
        }
    }
    assert_eq!(cache.lookup(100), Some(texture(100)));
    assert_eq!(cache.lookup(3), Some(texture(0)));
}
