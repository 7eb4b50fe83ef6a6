use perlin_terrain::perlin_noise::PerlinMap;

fn angles(map: &PerlinMap) -> Vec<i32> {
    let mut out = Vec::new();
    for y in 0..map.height() {
        for x in 0..map.width() {
            out.push(map.gradient_angle(x, y));
        }
    }
    out
}

#[test]
fn default_grid_holds_documented_angles() {
    let map = PerlinMap::new();
    assert_eq!(map.width(), 2);
    assert_eq!(map.height(), 2);
    assert_eq!(map.gradient_angle(0, 0), 60);
    assert_eq!(map.gradient_angle(1, 0), 45);
    assert_eq!(map.gradient_angle(0, 1), 150);
    assert_eq!(map.gradient_angle(1, 1), 240);
}

#[test]
fn default_grid_cell_corners() {
    let map = PerlinMap::new();
    assert_eq!(map.corner_angles(0, 0), Some((60, 45, 150, 240)));
}

#[test]
fn corner_lookup_is_deterministic() {
    let mut map = PerlinMap::new();
    map.generate_vec_map(6, 5);
    for y in 0..4 {
        for x in 0..5 {
            assert_eq!(map.corner_angles(x, y), map.corner_angles(x, y));
        }
    }
}

#[test]
fn corner_lookup_outside_grid_is_none() {
    let map = PerlinMap::new();
    assert_eq!(map.corner_angles(1, 0), None);
    assert_eq!(map.corner_angles(0, 1), None);
    assert_eq!(map.corner_angles(-1, 0), None);
    assert_eq!(map.corner_angles(0, -1), None);
    assert_eq!(map.corner_angles(i32::MAX, i32::MAX), None);
    assert_eq!(map.corner_angles(i32::MIN, i32::MIN), None);
}

#[test]
fn corner_lookup_follows_row_major_positions() {
    let mut map = PerlinMap::new();
    map.generate_vec_map(3, 3);
    // The right-hand corners of the last column sit at the start of the next row.
    let expected = (
        map.gradient_angle(2, 0),
        map.gradient_angle(0, 1),
        map.gradient_angle(2, 1),
        map.gradient_angle(0, 2),
    );
    assert_eq!(map.corner_angles(2, 0), Some(expected));
    assert_eq!(map.corner_angles(2, 1), None);
}

#[test]
fn adjacent_cells_share_corner_gradients() {
    let mut map = PerlinMap::new();
    map.generate_vec_map(5, 5);
    for y in 0..3 {
        for x in 0..3 {
            let here = map.corner_angles(x, y).unwrap();
            let right = map.corner_angles(x + 1, y).unwrap();
            let below = map.corner_angles(x, y + 1).unwrap();
            assert_eq!(here.1, right.0);
            assert_eq!(here.3, right.2);
            assert_eq!(here.2, below.0);
            assert_eq!(here.3, below.1);
        }
    }
}

#[test]
fn full_turn_keeps_gradient_directions() {
    let mut map = PerlinMap::new();
    map.rotate_vec_map(360);
    let after = angles(&map);
    assert_eq!(after, vec![420, 405, 510, 600]);
    let directions: Vec<i32> = after.iter().map(|a| a.rem_euclid(360)).collect();
    assert_eq!(directions, vec![60, 45, 150, 240]);
}

#[test]
fn full_turn_keeps_random_directions() {
    let mut map = PerlinMap::new();
    map.generate_vec_map(7, 4);
    let before = angles(&map);
    map.rotate_vec_map(-720);
    let after = angles(&map);
    for (b, a) in before.iter().zip(after.iter()) {
        assert_eq!(*a, *b - 720);
        assert_eq!(a.rem_euclid(360), *b);
    }
}

#[test]
fn rotation_adds_without_reducing() {
    let mut map = PerlinMap::new();
    map.rotate_vec_map(300);
    assert_eq!(angles(&map), vec![360, 345, 450, 540]);
    assert_eq!(map.corner_angles(0, 0), Some((360, 345, 450, 540)));
}

#[test]
fn negative_rotation_goes_below_zero() {
    let mut map = PerlinMap::new();
    map.rotate_vec_map(-100);
    assert_eq!(angles(&map), vec![-40, -55, 50, 140]);
    map.rotate_vec_map(100);
    assert_eq!(angles(&map), vec![60, 45, 150, 240]);
}

#[test]
fn rotation_up_to_the_integer_limits() {
    let mut map = PerlinMap::new();
    map.rotate_vec_map(i32::MAX - 240);
    assert_eq!(
        angles(&map),
        vec![i32::MAX - 180, i32::MAX - 195, i32::MAX - 90, i32::MAX]
    );
    let mut map = PerlinMap::new();
    map.rotate_vec_map(i32::MIN);
    assert_eq!(
        angles(&map),
        vec![i32::MIN + 60, i32::MIN + 45, i32::MIN + 150, i32::MIN + 240]
    );
}

#[test]
fn rotation_changes_angles() {
    let mut map = PerlinMap::new();
    map.rotate_vec_map(30);
    assert_eq!(angles(&map), vec![90, 75, 180, 270]);
    assert_eq!(map.corner_angles(0, 0), Some((90, 75, 180, 270)));
}

#[test]
fn regenerated_grid_has_requested_size_and_range() {
    let mut map = PerlinMap::new();
    map.generate_vec_map(20, 20);
    assert_eq!(map.width(), 20);
    assert_eq!(map.height(), 20);
    let all = angles(&map);
    assert_eq!(all.len(), 400);
    assert!(all.iter().all(|a| (0..360).contains(a)));
    assert_eq!(map.corner_angles(18, 18).is_some(), true);
    assert_eq!(map.corner_angles(19, 19), None);
}

#[test]
fn narrow_grid_corners_wrap_to_next_row() {
    let mut map = PerlinMap::new();
    map.generate_vec_map(1, 3);
    assert_eq!(map.width(), 1);
    assert_eq!(map.height(), 3);
    let all = angles(&map);
    assert_eq!(all.len(), 3);
    // One column wide: the right-hand corners are the next rows' cells.
    assert_eq!(map.corner_angles(0, 0), Some((all[0], all[1], all[1], all[2])));
    assert_eq!(map.corner_angles(0, 1), None);
}

#[test]
fn empty_grid_has_no_cells() {
    let mut map = PerlinMap::new();
    map.generate_vec_map(0, 0);
    assert_eq!(map.width(), 0);
    assert_eq!(map.height(), 0);
    assert_eq!(map.corner_angles(0, 0), None);
    map.rotate_vec_map(90);
    assert_eq!(map.corner_angles(0, 0), None);
}
