use tinyraytracer::framebuffer::Framebuffer;

#[test]
fn new_grid_is_filled() {
    let fb = Framebuffer::new(4, 3, 7u32);
    assert_eq!(fb.width(), 4);
    assert_eq!(fb.height(), 3);
    assert_eq!(fb.cells().len(), 12);
    assert!(fb.cells().iter().all(|c| *c == 7));
}

#[test]
fn index_is_row_major() {
    let fb = Framebuffer::new(4, 3, 0u8);
    assert_eq!(fb.index(0, 0), 0);
    assert_eq!(fb.index(0, 3), 3);
    assert_eq!(fb.index(1, 0), 4);
    assert_eq!(fb.index(2, 3), 11);
}

#[test]
fn set_changes_one_cell_only() {
    let mut fb = Framebuffer::new(3, 2, 0i32);
    fb.set(1, 2, 9);
    assert_eq!(fb.get(1, 2), 9);
    assert_eq!(fb.cells()[5], 9);
    for i in 0..2 {
        for j in 0..3 {
            if (i, j) != (1, 2) {
                assert_eq!(fb.get(i, j), 0);
            }
        }
    }
}

#[test]
fn empty_grid_has_no_cells() {
    let fb = Framebuffer::new(0, 5, 1u8);
    assert_eq!(fb.cells().len(), 0);
    assert_eq!(fb.height(), 5);
}

#[test]
fn map_applies_to_every_cell_in_place() {
    let mut fb = Framebuffer::new(2, 2, 1u32);
    fb.set(0, 1, 5);
    fb.set(1, 0, 10);
    let doubled = fb.map(|c: u32| c * 2);
    assert_eq!(doubled.width(), 2);
    assert_eq!(doubled.height(), 2);
    assert_eq!(doubled.cells(), &vec![2, 10, 20, 2]);
}
