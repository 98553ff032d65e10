use std::collections::BTreeMap;

use image::{DynamicImage, Luma};
use terrain_pyramid::attachment::{AttachmentConfig, AttachmentFormat};
use terrain_pyramid::coords::{TileCoord, TileId};
use terrain_pyramid::filter::Filter;
use terrain_pyramid::layer::{LayerWalk, Task};
use terrain_pyramid::node::paint_quadrant;

type Store = BTreeMap<(u32, u32, u32), DynamicImage>;

fn elevation() -> AttachmentConfig {
    AttachmentConfig { center_size: 4, border_size: 1, format: AttachmentFormat::R16 }
}

fn filled(value: u16) -> DynamicImage {
    let mut tile = DynamicImage::new_luma16(6, 6);
    for pixel in tile.as_mut_luma16().unwrap().pixels_mut() {
        *pixel = Luma([value]);
    }
    tile
}

fn key(id: TileId) -> (u32, u32, u32) {
    (id.lod, id.x, id.y)
}

/// Carries out the tasks of a layer against a store in memory, and tells which
/// tiles were stored, in order.
fn run(store: &mut Store, filter: Filter, lod: u32, first: (u32, u32), last: (u32, u32)) -> Vec<TileId> {
    let config = elevation();
    let mut walk = LayerWalk::start(
        lod,
        TileCoord { x: first.0, y: first.1 },
        TileCoord { x: last.0, y: last.1 },
    )
    .unwrap();
    let mut open: Option<DynamicImage> = None;
    let mut stored = Vec::new();
    while let Some(task) = walk.task() {
        match task {
            Task::Open(id) => {
                assert!(open.is_none());
                open = Some(store.get(&key(id)).cloned().unwrap_or_else(|| DynamicImage::new_luma16(6, 6)));
            },
            Task::Paint(id, quadrant) => {
                let child = store.get(&key(id));
                paint_quadrant(filter, open.as_mut().unwrap(), child, &config, quadrant).unwrap();
            },
            Task::Store(id) => {
                store.insert(key(id), open.take().unwrap());
                stored.push(id);
            },
        }
        walk.advance();
    }
    assert!(open.is_none());
    stored
}

fn quarter_value(tile: &DynamicImage, quarter: u32) -> u16 {
    let (left, top) = (1 + 2 * (quarter % 2), 1 + 2 * (quarter / 2));
    let buffer = tile.as_luma16().unwrap();
    let value = buffer.get_pixel(left, top).0[0];
    for y in top..top + 2 {
        for x in left..left + 2 {
            assert_eq!(buffer.get_pixel(x, y).0, [value]);
        }
    }
    value
}

#[test]
fn parent_is_built_from_four_stored_children() {
    let mut store = Store::new();
    store.insert((0, 0, 0), filled(10));
    store.insert((0, 1, 0), filled(20));
    store.insert((0, 0, 1), filled(30));
    store.insert((0, 1, 1), filled(40));
    let stored = run(&mut store, Filter::Linear, 1, (0, 0), (0, 0));
    assert_eq!(stored, vec![TileId { lod: 1, x: 0, y: 0 }]);
    let parent = &store[&(1, 0, 0)];
    assert_eq!(quarter_value(parent, 0), 10);
    assert_eq!(quarter_value(parent, 1), 20);
    assert_eq!(quarter_value(parent, 2), 30);
    assert_eq!(quarter_value(parent, 3), 40);
    for i in 0..6 {
        for (x, y) in [(i, 0), (i, 5), (0, i), (5, i)] {
            assert_eq!(parent.as_luma16().unwrap().get_pixel(x, y).0, [0]);
        }
    }
}

#[test]
fn parent_with_a_missing_child_is_still_stored() {
    let mut store = Store::new();
    store.insert((0, 0, 0), filled(10));
    store.insert((0, 1, 0), filled(20));
    store.insert((0, 1, 1), filled(40));
    let stored = run(&mut store, Filter::Linear, 1, (0, 0), (0, 0));
    assert_eq!(stored, vec![TileId { lod: 1, x: 0, y: 0 }]);
    let parent = &store[&(1, 0, 0)];
    assert_eq!(quarter_value(parent, 0), 10);
    assert_eq!(quarter_value(parent, 1), 20);
    assert_eq!(quarter_value(parent, 2), 0);
    assert_eq!(quarter_value(parent, 3), 40);
}

#[test]
fn parent_without_any_child_is_stored_as_it_is() {
    let mut store = Store::new();
    let stored = run(&mut store, Filter::Linear, 3, (4, 4), (5, 4));
    assert_eq!(stored, vec![TileId { lod: 3, x: 4, y: 4 }, TileId { lod: 3, x: 5, y: 4 }]);
    assert_eq!(store[&(3, 4, 4)], DynamicImage::new_luma16(6, 6));
    assert_eq!(store[&(3, 5, 4)], DynamicImage::new_luma16(6, 6));
    assert_eq!(store.len(), 2);
}

#[test]
fn stored_parent_keeps_the_quarter_of_a_missing_child() {
    let mut store = Store::new();
    store.insert((1, 0, 0), filled(77));
    store.insert((0, 0, 0), filled(10));
    store.insert((0, 1, 1), filled(40));
    run(&mut store, Filter::Linear, 1, (0, 0), (0, 0));
    let parent = &store[&(1, 0, 0)];
    assert_eq!(quarter_value(parent, 0), 10);
    assert_eq!(quarter_value(parent, 1), 77);
    assert_eq!(quarter_value(parent, 2), 77);
    assert_eq!(quarter_value(parent, 3), 40);
    assert_eq!(parent.as_luma16().unwrap().get_pixel(0, 0).0, [77]);
}

#[test]
fn second_run_stores_the_same_bytes() {
    let mut store = Store::new();
    for y in 0..4u32 {
        for x in 0..4u32 {
            if (x + y) % 3 != 0 {
                store.insert((0, x, y), filled((100 * x + 7 * y) as u16));
            }
        }
    }
    run(&mut store, Filter::Linear, 1, (0, 0), (1, 1));
    let first: Vec<Vec<u8>> = store.values().map(|tile| tile.as_bytes().to_vec()).collect();
    run(&mut store, Filter::Linear, 1, (0, 0), (1, 1));
    let second: Vec<Vec<u8>> = store.values().map(|tile| tile.as_bytes().to_vec()).collect();
    assert_eq!(first, second);
    assert_eq!(store.len(), 10 + 4);
}

#[test]
fn pyramid_grows_layer_by_layer() {
    let mut store = Store::new();
    for y in 0..4u32 {
        for x in 0..4u32 {
            store.insert((0, x, y), filled((4 * y + x) as u16 * 16));
        }
    }
    let stored = run(&mut store, Filter::Linear, 1, (0, 0), (1, 1));
    assert_eq!(
        stored,
        vec![
            TileId { lod: 1, x: 0, y: 0 },
            TileId { lod: 1, x: 1, y: 0 },
            TileId { lod: 1, x: 0, y: 1 },
            TileId { lod: 1, x: 1, y: 1 },
        ]
    );
    run(&mut store, Filter::Linear, 2, (0, 0), (0, 0));
    let top = &store[&(2, 0, 0)];
    // Each pixel of the top tile is the mean of one quarter's block of a tile
    // of layer 1, which holds the values of two by two tiles of layer 0.
    let buffer = top.as_luma16().unwrap();
    assert_eq!(buffer.get_pixel(1, 1).0, [0]);
    assert_eq!(buffer.get_pixel(2, 1).0, [16]);
    assert_eq!(buffer.get_pixel(1, 2).0, [64]);
    assert_eq!(buffer.get_pixel(2, 2).0, [80]);
    assert_eq!(buffer.get_pixel(3, 1).0, [32]);
    assert_eq!(buffer.get_pixel(4, 4).0, [240]);
    assert_eq!(buffer.get_pixel(3, 4).0, [224]);
}
