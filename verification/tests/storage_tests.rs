use image_storage::element::{Element, RGB, RGBA};
use image_storage::shape::is_valid_shape;
use image_storage::storage::{Image2D, Image3D, ImageStorage};

#[test]
fn image_storage_from_elem_test() {
    let image = ImageStorage::from_elem([10, 10, 10], RGB::new(0u8, 1, 5));
    assert_eq!(image.dimensions(), &[10, 10, 10]);
}

#[test]
fn from_elem_fills_every_position() {
    let e = RGB::new(4u8, 5, 6);
    let image: Image2D<RGB<u8>> = ImageStorage::from_elem([3, 2], e);
    assert_eq!(image.dimensions(), &[3, 2]);
    for x in 0..3 {
        for y in 0..2 {
            assert_eq!(image.get_element([x, y]), Some(&e));
        }
    }
}

#[test]
fn get_element_out_of_bounds_is_absent() {
    let image: Image2D<RGB<u8>> = ImageStorage::from_elem([3, 2], RGB::new(0, 0, 0));
    assert_eq!(image.get_element([3, 0]), None);
    assert_eq!(image.get_element([0, 2]), None);
    assert_eq!(image.get_element([3, 2]), None);
    assert_eq!(image.get_element([2, 1]), Some(&RGB::new(0, 0, 0)));
    assert_eq!(image.get_element([usize::MAX, 0]), None);
}

#[test]
fn get_element_mut_out_of_bounds_is_absent() {
    let mut image: Image2D<RGB<u8>> = ImageStorage::from_elem([3, 2], RGB::new(0, 0, 0));
    assert!(image.get_element_mut([3, 0]).is_none());
    assert!(image.get_element_mut([0, 2]).is_none());
    assert!(image.get_element_mut([2, 1]).is_some());
}

#[test]
fn get_element_mut_writes_one_position() {
    let mut image: Image2D<RGB<u8>> = ImageStorage::from_elem([2, 3], RGB::new(0, 0, 0));
    match image.get_element_mut([1, 2]) {
        Some(e) => *e = RGB::new(7, 8, 9),
        None => panic!("position (1, 2) is within bounds"),
    }
    for x in 0..2 {
        for y in 0..3 {
            let expected = if x == 1 && y == 2 { RGB::new(7, 8, 9) } else { RGB::new(0, 0, 0) };
            assert_eq!(image.get_element([x, y]), Some(&expected));
        }
    }
    assert_eq!(image.dimensions(), &[2, 3]);
}

fn numbered(w: usize, h: usize) -> Image2D<RGB<u32>> {
    let mut image = ImageStorage::from_elem([w, h], RGB::new(0u32, 0, 0));
    for x in 0..w {
        for y in 0..h {
            match image.get_element_mut([x, y]) {
                Some(e) => *e = RGB::new(x as u32, y as u32, (x * h + y) as u32),
                None => panic!("position is within bounds"),
            }
        }
    }
    image
}

#[test]
fn elements_yields_every_element_in_row_major_order() {
    let image = numbered(3, 4);
    let mut it = image.elements();
    let mut seen = 0usize;
    for x in 0..3u32 {
        for y in 0..4u32 {
            let e = it.next();
            assert_eq!(e, Some(&RGB::new(x, y, x * 4 + y)));
            seen += 1;
        }
    }
    assert_eq!(it.next(), None);
    assert_eq!(it.next(), None);
    assert_eq!(seen, 12);
}

#[test]
fn elements_can_be_started_again() {
    let image = numbered(2, 2);
    let mut first = image.elements();
    assert_eq!(first.next(), Some(&RGB::new(0, 0, 0)));
    assert_eq!(first.next(), Some(&RGB::new(0, 1, 1)));
    let mut second = image.elements();
    assert_eq!(second.next(), Some(&RGB::new(0, 0, 0)));
    assert_eq!(first.next(), Some(&RGB::new(1, 0, 2)));
}

#[test]
fn elements_mut_yields_in_row_major_order() {
    let mut image = numbered(2, 3);
    let mut it = image.elements_mut();
    let mut place = 0u32;
    while let Some(e) = it.next() {
        assert_eq!(e.blue(), place);
        place += 1;
    }
    assert_eq!(place, 6);
}

#[test]
fn elements_mut_apply_is_seen_by_get_element() {
    let mut image = ImageStorage::from_elem([2, 2], RGB::new(0u8, 0, 0));
    {
        let mut it = image.elements_mut();
        while let Some(e) = it.next() {
            e.apply(|c| c + 1);
        }
    }
    assert_eq!(image.get_element([0, 0]), Some(&RGB::new(1, 1, 1)));
    assert_eq!(image.get_element([0, 1]), Some(&RGB::new(1, 1, 1)));
    assert_eq!(image.get_element([1, 0]), Some(&RGB::new(1, 1, 1)));
    assert_eq!(image.get_element([1, 1]), Some(&RGB::new(1, 1, 1)));
    assert_eq!(image.dimensions(), &[2, 2]);
}

#[test]
fn elements_mut_writes_reach_their_own_positions() {
    let mut image = ImageStorage::from_elem([2, 3], RGBA::new(0u16, 0, 0, 0));
    {
        let mut it = image.elements_mut();
        let mut place = 0u16;
        while let Some(e) = it.next() {
            *e = RGBA::new(place, place + 1, place + 2, place + 3);
            place += 10;
        }
    }
    assert_eq!(image.get_element([0, 0]), Some(&RGBA::new(0, 1, 2, 3)));
    assert_eq!(image.get_element([0, 2]), Some(&RGBA::new(20, 21, 22, 23)));
    assert_eq!(image.get_element([1, 0]), Some(&RGBA::new(30, 31, 32, 33)));
    assert_eq!(image.get_element([1, 2]), Some(&RGBA::new(50, 51, 52, 53)));
}

#[test]
fn apply_transforms_every_element() {
    let mut image = numbered(2, 2);
    image.apply(|c| c * 3);
    assert_eq!(image.get_element([0, 0]), Some(&RGB::new(0, 0, 0)));
    assert_eq!(image.get_element([0, 1]), Some(&RGB::new(0, 3, 3)));
    assert_eq!(image.get_element([1, 0]), Some(&RGB::new(3, 0, 6)));
    assert_eq!(image.get_element([1, 1]), Some(&RGB::new(3, 3, 9)));
    assert_eq!(image.dimensions(), &[2, 2]);
}

#[test]
fn empty_is_all_zero() {
    let image: Image2D<RGBA<i32>> = ImageStorage::empty([2, 3]);
    assert_eq!(image.dimensions(), &[2, 3]);
    let mut it = image.elements();
    let mut seen = 0;
    while let Some(e) = it.next() {
        assert_eq!(e.channels(), &[0, 0, 0, 0]);
        seen += 1;
    }
    assert_eq!(seen, 6);
}

#[test]
fn three_dimensions_are_row_major() {
    let mut image: Image3D<RGB<u32>> = ImageStorage::from_elem([2, 3, 4], RGB::new(0, 0, 0));
    for x in 0..2usize {
        for y in 0..3usize {
            for z in 0..4usize {
                match image.get_element_mut([x, y, z]) {
                    Some(e) => *e = RGB::new(x as u32, y as u32, z as u32),
                    None => panic!("position is within bounds"),
                }
            }
        }
    }
    assert_eq!(image.dimensions(), &[2, 3, 4]);
    let mut it = image.elements();
    let mut seen = 0usize;
    while let Some(e) = it.next() {
        let x = seen / 12;
        let y = (seen / 4) % 3;
        let z = seen % 4;
        assert_eq!(e, &RGB::new(x as u32, y as u32, z as u32));
        seen += 1;
    }
    assert_eq!(seen, 24);
    assert_eq!(image.get_element([1, 2, 3]), Some(&RGB::new(1, 2, 3)));
    assert_eq!(image.get_element([2, 0, 0]), None);
    assert_eq!(image.get_element([0, 3, 0]), None);
    assert_eq!(image.get_element([0, 0, 4]), None);
}

#[test]
fn zero_extent_holds_nothing() {
    let mut image: Image2D<RGB<u8>> = ImageStorage::from_elem([0, 5], RGB::new(1, 2, 3));
    assert_eq!(image.dimensions(), &[0, 5]);
    assert_eq!(image.get_element([0, 0]), None);
    assert!(image.elements().next().is_none());
    assert!(image.elements_mut().next().is_none());
}

#[test]
fn no_axes_hold_one_element() {
    let image: ImageStorage<RGB<u8>, 0> = ImageStorage::from_elem([], RGB::new(1, 2, 3));
    assert_eq!(image.dimensions().len(), 0);
    assert_eq!(image.get_element([]), Some(&RGB::new(1, 2, 3)));
    let mut it = image.elements();
    assert_eq!(it.next(), Some(&RGB::new(1, 2, 3)));
    assert_eq!(it.next(), None);
}

#[test]
fn one_axis_storage() {
    let mut image: ImageStorage<RGB<u8>, 1> = ImageStorage::from_elem([4], RGB::new(0, 0, 0));
    match image.get_element_mut([2]) {
        Some(e) => e.apply(|c| c + 9),
        None => panic!("position 2 is within bounds"),
    }
    assert_eq!(image.get_element([2]), Some(&RGB::new(9, 9, 9)));
    assert_eq!(image.get_element([1]), Some(&RGB::new(0, 0, 0)));
    assert_eq!(image.get_element([4]), None);
}

#[test]
fn default_fills_every_position_with_the_default_element() {
    let image: Image2D<RGB<u8>> = ImageStorage::default([2, 3]);
    assert_eq!(image.dimensions(), &[2, 3]);
    let mut it = image.elements();
    let mut seen = 0;
    while let Some(e) = it.next() {
        assert_eq!(e, &RGB::new(0, 0, 0));
        seen += 1;
    }
    assert_eq!(seen, 6);
    assert_eq!(image.get_element([1, 2]), Some(&RGB::new(0, 0, 0)));
    assert_eq!(image.get_element([2, 0]), None);
}

#[test]
fn valid_shapes_are_accepted() {
    assert!(is_valid_shape(&[]));
    assert!(is_valid_shape(&[0]));
    assert!(is_valid_shape(&[10, 10, 10]));
    assert!(is_valid_shape(&[isize::MAX as usize]));
    assert!(is_valid_shape(&[isize::MAX as usize, 0, 1]));
    assert!(is_valid_shape(&[1 << 31, 1 << 31]));
}

#[test]
fn overflowing_shapes_are_refused() {
    assert!(!is_valid_shape(&[usize::MAX]));
    assert!(!is_valid_shape(&[isize::MAX as usize + 1]));
    assert!(!is_valid_shape(&[isize::MAX as usize, 2]));
    assert!(!is_valid_shape(&[usize::MAX, 0, usize::MAX]));
    assert!(!is_valid_shape(&[1 << 32, 1 << 31]));
    assert!(!is_valid_shape(&[2, 0, isize::MAX as usize]));
}
