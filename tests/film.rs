use raytracer::film::{assemble, image_row, Film};
use raytracer::grid::pixel_grid;

#[test]
fn grid_is_column_major() {
    let g = pixel_grid(2, 3);
    assert_eq!(g, vec![(0, 0), (0, 1), (0, 2), (1, 0), (1, 1), (1, 2)]);
}

#[test]
fn grid_of_one_pixel() {
    assert_eq!(pixel_grid(1, 1), vec![(0, 0)]);
}

#[test]
fn grid_covers_every_pixel_once() {
    let g = pixel_grid(16, 9);
    assert_eq!(g.len(), 144);
    for x in 0..16u32 {
        for y in 0..9u32 {
            assert_eq!(g.iter().filter(|p| **p == (x, y)).count(), 1);
        }
    }
}

#[test]
fn scene_row_zero_is_bottom_row() {
    assert_eq!(image_row(9, 0), 8);
    assert_eq!(image_row(9, 8), 0);
    assert_eq!(image_row(1, 0), 0);
}

#[test]
fn new_film_is_black() {
    let f = Film::new(3, 2);
    assert_eq!(f.width(), 3);
    assert_eq!(f.height(), 2);
    assert_eq!(f.into_samples(), vec![0u8; 18]);
}

#[test]
fn put_flips_rows() {
    let mut f = Film::new(2, 2);
    f.put(1, 0, [10, 20, 30]);
    let s = f.into_samples();
    // scene (1, 0) is the bottom-right pixel: image row 1, column 1
    assert_eq!(s, vec![0, 0, 0, 0, 0, 0, 0, 0, 0, 10, 20, 30]);
}

#[test]
fn put_top_left() {
    let mut f = Film::new(2, 3);
    f.put(0, 2, [1, 2, 3]);
    let s = f.into_samples();
    assert_eq!(&s[0..3], &[1, 2, 3]);
    assert!(s[3..].iter().all(|b| *b == 0));
}

#[test]
fn assemble_places_render_order() {
    // render order for 2x2: (0,0), (0,1), (1,0), (1,1)
    let colors = vec![[1, 1, 1], [2, 2, 2], [3, 3, 3], [4, 4, 4]];
    let s = assemble(2, 2, &colors);
    // image row 0 is scene row 1: (0,1) then (1,1); row 1 is scene row 0
    assert_eq!(s, vec![2, 2, 2, 4, 4, 4, 1, 1, 1, 3, 3, 3]);
}

#[test]
fn assemble_keeps_channels() {
    let colors = vec![[220, 234, 254]];
    assert_eq!(assemble(1, 1, &colors), vec![220, 234, 254]);
}

#[test]
fn assemble_matches_puts_over_grid() {
    let (w, h) = (5u32, 4u32);
    let grid = pixel_grid(w, h);
    let colors: Vec<[u8; 3]> = grid.iter().map(|&(x, y)| [x as u8, y as u8, (x * 10 + y) as u8]).collect();
    let mut f = Film::new(w, h);
    for (k, &(x, y)) in grid.iter().enumerate() {
        f.put(x, y, colors[k]);
    }
    assert_eq!(assemble(w, h, &colors), f.into_samples());
}

#[test]
fn assemble_is_deterministic() {
    let colors: Vec<[u8; 3]> = (0..12u8).map(|i| [i, 2 * i, 3 * i]).collect();
    assert_eq!(assemble(4, 3, &colors), assemble(4, 3, &colors.clone()));
}
