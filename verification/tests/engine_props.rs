use term_life::cells::CellSet;
use term_life::engine::advance;

fn mk(coords: &[(u16, u16)]) -> CellSet {
    let mut s = CellSet::new();
    for c in coords {
        s.insert(*c);
    }
    s
}

fn same(s: &CellSet, coords: &[(u16, u16)]) -> bool {
    if s.len() != coords.len() {
        return false;
    }
    coords.iter().all(|c| s.contains(*c))
}

const W: u16 = 20;
const H: u16 = 12;

#[test]
fn lone_cell_dies() {
    let s = mk(&[(6, 6)]);
    let next = advance(&s, W, H);
    assert_eq!(next.len(), 0);
}

#[test]
fn cell_with_one_neighbor_dies() {
    let s = mk(&[(6, 6), (8, 6)]);
    let next = advance(&s, W, H);
    assert_eq!(next.len(), 0);
}

#[test]
fn block_with_two_and_three_neighbors_survives() {
    // A 2x2 block is a still life: every cell has exactly 3 neighbors.
    let block = [(4, 4), (6, 4), (4, 5), (6, 5)];
    let s = mk(&block);
    let next = advance(&s, W, H);
    assert!(same(&next, &block));
}

#[test]
fn cell_with_four_neighbors_dies() {
    // Plus shape: the center has 4 neighbors and dies.
    let s = mk(&[(6, 6), (4, 6), (8, 6), (6, 5), (6, 7)]);
    let next = advance(&s, W, H);
    assert!(!next.contains((6, 6)));
}

#[test]
fn dead_cell_with_three_neighbors_is_born() {
    let s = mk(&[(4, 6), (6, 6), (6, 5)]);
    let next = advance(&s, W, H);
    assert!(next.contains((4, 5)));
}

#[test]
fn dead_cell_with_two_neighbors_stays_dead() {
    let s = mk(&[(4, 6), (6, 6)]);
    let next = advance(&s, W, H);
    assert!(!next.contains((4, 5)));
    assert!(!next.contains((6, 5)));
}

#[test]
fn blinker_oscillates_with_period_two() {
    // Vertical blinker away from every border.
    let vertical = [(6, 5), (6, 6), (6, 7)];
    let horizontal = [(4, 6), (6, 6), (8, 6)];
    let s = mk(&vertical);
    let g1 = advance(&s, W, H);
    assert!(same(&g1, &horizontal));
    let g2 = advance(&g1, W, H);
    assert!(same(&g2, &vertical));
}

#[test]
fn five_cell_line_updates_synchronously() {
    // A horizontal line of five. The synchronous rule keeps the three
    // interior cells and fills a full 3x3 block above and below them;
    // an in-place sequential sweep would kill cells before their
    // neighbors were counted and diverge from this.
    let line = [(2, 5), (4, 5), (6, 5), (8, 5), (10, 5)];
    let block = [
        (4, 4),
        (6, 4),
        (8, 4),
        (4, 5),
        (6, 5),
        (8, 5),
        (4, 6),
        (6, 6),
        (8, 6),
    ];
    let s = mk(&line);
    let g1 = advance(&s, W, H);
    assert!(same(&g1, &block));
    // One more step: the block collapses to its corners plus the four
    // cells beyond its edge midpoints.
    let ring = [
        (4, 4),
        (8, 4),
        (4, 6),
        (8, 6),
        (6, 3),
        (6, 7),
        (2, 5),
        (10, 5),
    ];
    let g2 = advance(&g1, W, H);
    assert!(same(&g2, &ring));
}

#[test]
fn corner_cell_counts_only_in_bounds_neighbors() {
    // (0,0) with its three in-bounds neighbors live survives ...
    let s = mk(&[(0, 0), (2, 0), (0, 1), (2, 1)]);
    let next = advance(&s, 10, 5);
    assert!(next.contains((0, 0)));
    // ... and cells on the far edges never count for it: a lone (0,0)
    // dies no matter what sits across the viewport.
    let far = mk(&[(0, 0), (8, 0), (0, 4), (8, 4)]);
    let next_far = advance(&far, 10, 5);
    assert!(!next_far.contains((0, 0)));
}

#[test]
fn cells_out_of_play_are_left_untouched() {
    // A cell beyond the viewport and one at an odd column are out of
    // play: a step neither kills them nor counts them as neighbors.
    let s = mk(&[(12, 3), (5, 2)]);
    let next = advance(&s, 10, 5);
    assert!(next.contains((12, 3)));
    assert!(next.contains((5, 2)));
    assert_eq!(next.len(), 2);
}

#[test]
fn no_out_of_range_cell_is_ever_inserted() {
    // Fill a band across the whole small viewport and step it a few
    // times: every live cell stays at an even column inside bounds.
    let w: u16 = 10;
    let h: u16 = 6;
    let mut s = CellSet::new();
    for col in [0u16, 2, 4, 6, 8] {
        for row in 0..h {
            if (col + row) % 3 != 0 {
                s.insert((col, row));
            }
        }
    }
    for _ in 0..4 {
        s = advance(&s, w, h);
        for i in 0..s.len() {
            let (c, r) = s.get(i);
            assert!(c < w && r < h && c % 2 == 0);
        }
    }
}
