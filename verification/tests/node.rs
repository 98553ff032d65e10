use image::{DynamicImage, Luma, LumaA};
use terrain_pyramid::attachment::{AttachmentConfig, AttachmentFormat};
use terrain_pyramid::coords::Quadrant;
use terrain_pyramid::filter::Filter;
use terrain_pyramid::node::{down_sample_node, paint_quadrant, TileError};

fn heights() -> AttachmentConfig {
    AttachmentConfig { center_size: 4, border_size: 1, format: AttachmentFormat::R16 }
}

fn uniform(value: u16) -> DynamicImage {
    let mut tile = DynamicImage::new_luma16(6, 6);
    for pixel in tile.as_mut_luma16().unwrap().pixels_mut() {
        *pixel = Luma([value]);
    }
    tile
}

fn ramp(step: u16) -> DynamicImage {
    let mut tile = DynamicImage::new_luma16(6, 6);
    for (x, y, pixel) in tile.as_mut_luma16().unwrap().enumerate_pixels_mut() {
        *pixel = Luma([step * (x + 6 * y) as u16]);
    }
    tile
}

fn quarter_of(x: u32, y: u32) -> Option<usize> {
    if !(1..5).contains(&x) || !(1..5).contains(&y) {
        None
    } else {
        Some(((x - 1) / 2 + 2 * ((y - 1) / 2)) as usize)
    }
}

#[test]
fn four_uniform_children_fill_the_four_quarters() {
    let config = heights();
    let children = [Some(uniform(10)), Some(uniform(20)), Some(uniform(30)), Some(uniform(40))];
    let mut node = DynamicImage::new_luma16(6, 6);
    assert_eq!(down_sample_node(Filter::Linear, &mut node, &children, &config), Ok(()));
    let painted = node.as_luma16().unwrap();
    let constants = [10u16, 20, 30, 40];
    for y in 0..6 {
        for x in 0..6 {
            let expected = match quarter_of(x, y) {
                Some(quarter) => constants[quarter],
                None => 0,
            };
            assert_eq!(painted.get_pixel(x, y).0, [expected], "at ({}, {})", x, y);
        }
    }
    assert_eq!(painted.get_pixel(1, 1).0, [10]);
    assert_eq!(painted.get_pixel(4, 2).0, [20]);
    assert_eq!(painted.get_pixel(2, 3).0, [30]);
    assert_eq!(painted.get_pixel(3, 4).0, [40]);
}

#[test]
fn children_come_in_the_order_of_their_offsets() {
    let config = heights();
    let children = [Some(uniform(1)), Some(uniform(2)), Some(uniform(3)), Some(uniform(4))];
    let mut whole = DynamicImage::new_luma16(6, 6);
    down_sample_node(Filter::Linear, &mut whole, &children, &config).unwrap();
    let mut by_hand = DynamicImage::new_luma16(6, 6);
    let order = [
        Quadrant::from_offset(0, 0).unwrap(),
        Quadrant::from_offset(1, 0).unwrap(),
        Quadrant::from_offset(0, 1).unwrap(),
        Quadrant::from_offset(1, 1).unwrap(),
    ];
    for (child, quadrant) in children.iter().zip(order) {
        paint_quadrant(Filter::Linear, &mut by_hand, child.as_ref(), &config, quadrant).unwrap();
    }
    assert_eq!(whole, by_hand);
    assert_eq!(order, Quadrant::all());
}

#[test]
fn missing_child_leaves_its_quarter_as_it_was() {
    let config = heights();
    let children = [Some(uniform(10)), Some(uniform(20)), None, Some(uniform(40))];
    let before = ramp(100);
    let mut node = before.clone();
    assert_eq!(down_sample_node(Filter::Linear, &mut node, &children, &config), Ok(()));
    let constants = [10u16, 20, 0, 40];
    for y in 0..6 {
        for x in 0..6 {
            let old = before.as_luma16().unwrap().get_pixel(x, y).0;
            let expected = match quarter_of(x, y) {
                Some(2) | None => old,
                Some(quarter) => [constants[quarter]],
            };
            assert_eq!(node.as_luma16().unwrap().get_pixel(x, y).0, expected, "at ({}, {})", x, y);
        }
    }
    // On a fresh parent the gap holds the default value.
    let mut fresh = DynamicImage::new_luma16(6, 6);
    down_sample_node(Filter::Linear, &mut fresh, &children, &config).unwrap();
    assert_eq!(fresh.as_luma16().unwrap().get_pixel(1, 3).0, [0]);
    assert_eq!(fresh.as_luma16().unwrap().get_pixel(2, 4).0, [0]);
    assert_eq!(fresh.as_luma16().unwrap().get_pixel(3, 3).0, [40]);
}

#[test]
fn no_child_at_all_changes_nothing_and_is_no_error() {
    let config = heights();
    let children = [None, None, None, None];
    let before = ramp(3);
    let mut node = before.clone();
    assert_eq!(down_sample_node(Filter::Linear, &mut node, &children, &config), Ok(()));
    assert_eq!(node, before);
    // Without a child nothing is looked at, not even the parent or the filter.
    let mut odd = DynamicImage::new_rgb8(2, 9);
    assert_eq!(down_sample_node(Filter::MinMax, &mut odd, &children, &config), Ok(()));
    assert_eq!(odd, DynamicImage::new_rgb8(2, 9));
    for quadrant in Quadrant::all() {
        assert_eq!(paint_quadrant(Filter::MinMax, &mut odd, None, &config, quadrant), Ok(()));
    }
    assert_eq!(odd, DynamicImage::new_rgb8(2, 9));
}

#[test]
fn down_sampling_twice_gives_the_same_tile() {
    let config = heights();
    let children = [Some(ramp(7)), None, Some(ramp(11)), Some(uniform(65535))];
    let mut once = ramp(1);
    down_sample_node(Filter::Linear, &mut once, &children, &config).unwrap();
    let mut twice = once.clone();
    down_sample_node(Filter::Linear, &mut twice, &children, &config).unwrap();
    assert_eq!(once, twice);
    assert_eq!(once.as_bytes(), twice.as_bytes());
    // A fresh run from the same start gives the same bytes, too.
    let mut again = ramp(1);
    down_sample_node(Filter::Linear, &mut again, &children, &config).unwrap();
    assert_eq!(once.as_bytes(), again.as_bytes());
}

#[test]
fn min_max_down_samples_a_range_tile() {
    let config = AttachmentConfig { center_size: 2, border_size: 0, format: AttachmentFormat::Rg16 };
    let mut children = Vec::new();
    for i in 0..4u16 {
        let mut child = DynamicImage::new_luma_a16(2, 2);
        let buffer = child.as_mut_luma_alpha16().unwrap();
        buffer.put_pixel(0, 0, LumaA([100 * i + 4, 100 * i + 5]));
        buffer.put_pixel(1, 0, LumaA([100 * i + 3, 100 * i + 6]));
        buffer.put_pixel(0, 1, LumaA([100 * i + 2, 100 * i + 7]));
        buffer.put_pixel(1, 1, LumaA([100 * i + 1, 100 * i + 8]));
        children.push(Some(child));
    }
    let children: [Option<DynamicImage>; 4] = children.try_into().unwrap();
    let mut node = DynamicImage::new_luma_a16(2, 2);
    assert_eq!(down_sample_node(Filter::MinMax, &mut node, &children, &config), Ok(()));
    let painted = node.as_luma_alpha16().unwrap();
    assert_eq!(painted.get_pixel(0, 0).0, [1, 8]);
    assert_eq!(painted.get_pixel(1, 0).0, [101, 108]);
    assert_eq!(painted.get_pixel(0, 1).0, [201, 208]);
    assert_eq!(painted.get_pixel(1, 1).0, [301, 308]);
}

#[test]
fn min_max_is_refused_on_other_formats() {
    let config = heights();
    let before = ramp(2);
    let mut node = before.clone();
    let child = uniform(5);
    assert_eq!(
        paint_quadrant(Filter::MinMax, &mut node, Some(&child), &config, Quadrant::TopLeft),
        Err(TileError::UnsupportedFormat)
    );
    assert_eq!(node, before);
    let children = [None, Some(uniform(5)), None, None];
    assert_eq!(
        down_sample_node(Filter::MinMax, &mut node, &children, &config),
        Err(TileError::UnsupportedFormat)
    );
    assert_eq!(node, before);
}

#[test]
fn parent_of_another_format_or_size_is_refused() {
    let config = heights();
    let child = uniform(5);
    for wrong in [
        DynamicImage::new_luma_a16(6, 6),
        DynamicImage::new_luma8(6, 6),
        DynamicImage::new_luma16(6, 4),
        DynamicImage::new_luma16(8, 6),
        DynamicImage::new_luma16(0, 0),
    ] {
        let mut node = wrong.clone();
        assert_eq!(
            paint_quadrant(Filter::Linear, &mut node, Some(&child), &config, Quadrant::BottomRight),
            Err(TileError::ParentMismatch)
        );
        assert_eq!(node, wrong);
        let children = [Some(uniform(5)), None, None, None];
        assert_eq!(
            down_sample_node(Filter::Linear, &mut node, &children, &config),
            Err(TileError::ParentMismatch)
        );
        assert_eq!(node, wrong);
    }
}

#[test]
fn child_of_another_format_or_size_is_refused() {
    let config = heights();
    let before = ramp(2);
    for wrong in [
        DynamicImage::new_rgb8(6, 6),
        DynamicImage::new_rgb16(6, 6),
        DynamicImage::new_luma16(5, 6),
        DynamicImage::new_luma16(6, 7),
    ] {
        let mut node = before.clone();
        assert_eq!(
            paint_quadrant(Filter::Linear, &mut node, Some(&wrong), &config, Quadrant::TopRight),
            Err(TileError::ChildMismatch)
        );
        assert_eq!(node, before);
        // The good children before the wrong one paint nothing either.
        let children = [Some(uniform(5)), None, Some(wrong), Some(uniform(6))];
        assert_eq!(
            down_sample_node(Filter::Linear, &mut node, &children, &config),
            Err(TileError::ChildMismatch)
        );
        assert_eq!(node, before);
    }
}

#[test]
fn tile_too_large_for_the_machine_is_refused() {
    let config = AttachmentConfig {
        center_size: u32::MAX,
        border_size: 1,
        format: AttachmentFormat::R16,
    };
    let mut node = uniform(1);
    let child = uniform(2);
    assert_eq!(
        paint_quadrant(Filter::Linear, &mut node, Some(&child), &config, Quadrant::TopLeft),
        Err(TileError::ParentMismatch)
    );
    assert_eq!(node, uniform(1));
}
