use game_of_life::Universe;

fn grid(width: u32, height: u32, live: &[(u32, u32)]) -> Universe {
    let mut cells = vec![0u8; (width * height) as usize];
    for &(row, column) in live {
        cells[(row * width + column) as usize] = 1;
    }
    Universe::from_cells(width, height, cells).expect("a valid layout")
}

fn live_cells(universe: &Universe) -> Vec<(u32, u32)> {
    let mut live = Vec::new();
    for row in 0..universe.height() {
        for column in 0..universe.width() {
            if universe.cell(row, column) == 1 {
                live.push((row, column));
            }
        }
    }
    live
}

#[test]
fn index_is_row_major() {
    let u = grid(5, 3, &[]);
    assert_eq!(u.get_index(0, 0), 0);
    assert_eq!(u.get_index(0, 4), 4);
    assert_eq!(u.get_index(1, 0), 5);
    assert_eq!(u.get_index(2, 3), 13);
    assert_eq!(u.get_index(2, 4), 14);
}

#[test]
fn index_round_trip() {
    let u = grid(7, 4, &[]);
    for row in 0..4u32 {
        for column in 0..7u32 {
            let index = u.get_index(row, column);
            assert!(index < 28);
            assert_eq!(index / 7, row as usize);
            assert_eq!(index % 7, column as usize);
        }
    }
}

#[test]
fn from_cells_keeps_the_layout() {
    let cells = vec![0, 1, 1, 0, 0, 1];
    let u = Universe::from_cells(3, 2, cells.clone()).unwrap();
    assert_eq!(u.width(), 3);
    assert_eq!(u.height(), 2);
    assert_eq!(u.cells(), &cells);
    assert_eq!(u.cell(0, 1), 1);
    assert_eq!(u.cell(1, 0), 0);
    assert_eq!(u.cell(1, 2), 1);
}

#[test]
fn from_cells_rejects_a_zero_dimension() {
    assert!(Universe::from_cells(0, 3, vec![]).is_none());
    assert!(Universe::from_cells(3, 0, vec![]).is_none());
    assert!(Universe::from_cells(0, 0, vec![]).is_none());
}

#[test]
fn from_cells_rejects_a_wrong_length() {
    assert!(Universe::from_cells(2, 2, vec![0, 1, 0]).is_none());
    assert!(Universe::from_cells(2, 2, vec![0, 1, 0, 1, 0]).is_none());
    assert!(Universe::from_cells(2, 2, vec![]).is_none());
}

#[test]
fn from_cells_rejects_a_state_above_one() {
    assert!(Universe::from_cells(2, 2, vec![0, 1, 2, 0]).is_none());
    assert!(Universe::from_cells(1, 1, vec![255]).is_none());
}

#[test]
fn from_cells_rejects_too_many_cells() {
    assert!(Universe::from_cells(65536, 65536, vec![0, 1]).is_none());
    assert!(Universe::from_cells(u32::MAX, u32::MAX, vec![]).is_none());
}

#[test]
fn new_has_the_dimensions_and_binary_cells() {
    let u = Universe::new(64, 48);
    assert_eq!(u.width(), 64);
    assert_eq!(u.height(), 48);
    assert_eq!(u.cells().len(), 64 * 48);
    assert!(u.cells().iter().all(|&c| c == 0 || c == 1));
}

#[test]
fn new_of_one_cell() {
    let u = Universe::new(1, 1);
    assert_eq!(u.cells().len(), 1);
    assert!(u.cell(0, 0) <= 1);
}

#[test]
fn new_seeds_about_half_of_the_cells_alive() {
    let mut alive: u64 = 0;
    let trials: u64 = 20;
    for _ in 0..trials {
        let u = Universe::new(100, 100);
        alive += u.cells().iter().filter(|&&c| c == 1).count() as u64;
    }
    let fraction = alive as f64 / (trials * 10_000) as f64;
    assert!(fraction > 0.45 && fraction < 0.55, "fraction alive: {}", fraction);
}

#[test]
fn all_alive_grid_has_eight_neighbours_everywhere() {
    for &(width, height) in &[(1u32, 1u32), (1, 4), (2, 2), (3, 3), (5, 4)] {
        let u = Universe::from_cells(width, height, vec![1; (width * height) as usize]).unwrap();
        for row in 0..height {
            for column in 0..width {
                assert_eq!(u.live_neighbours(row, column), 8);
            }
        }
    }
}

#[test]
fn all_dead_grid_has_no_neighbours() {
    let u = grid(4, 4, &[]);
    for row in 0..4 {
        for column in 0..4 {
            assert_eq!(u.live_neighbours(row, column), 0);
        }
    }
}

#[test]
fn neighbours_wrap_around_the_edges() {
    let u = grid(5, 4, &[(3, 4)]);
    assert_eq!(u.live_neighbours(0, 0), 1);
    assert_eq!(u.live_neighbours(3, 0), 1);
    assert_eq!(u.live_neighbours(0, 4), 1);
    assert_eq!(u.live_neighbours(2, 3), 1);
    assert_eq!(u.live_neighbours(3, 4), 0);
    assert_eq!(u.live_neighbours(1, 1), 0);
    assert_eq!(u.live_neighbours(0, 1), 0);
}

#[test]
fn neighbour_count_stays_within_eight() {
    let u = Universe::new(16, 16);
    for row in 0..16 {
        for column in 0..16 {
            assert!(u.live_neighbours(row, column) <= 8);
        }
    }
}

#[test]
fn neighbour_on_a_narrow_torus_counts_twice() {
    let u = grid(2, 4, &[(1, 1)]);
    assert_eq!(u.live_neighbours(1, 0), 2);
    assert_eq!(u.live_neighbours(0, 0), 2);
    assert_eq!(u.live_neighbours(1, 1), 0);
    assert_eq!(u.live_neighbours(3, 0), 0);
}

#[test]
fn block_is_a_still_life() {
    let mut u = grid(4, 4, &[(1, 1), (1, 2), (2, 1), (2, 2)]);
    let before = u.cells().clone();
    for &(row, column) in &[(1, 1), (1, 2), (2, 1), (2, 2)] {
        assert_eq!(u.live_neighbours(row, column), 3);
    }
    u.tick();
    assert_eq!(u.cells(), &before);
    assert_eq!(u.width(), 4);
    assert_eq!(u.height(), 4);
}

#[test]
fn block_across_the_seam_is_a_still_life() {
    let mut u = grid(6, 5, &[(4, 5), (4, 0), (0, 5), (0, 0)]);
    let before = u.cells().clone();
    u.tick();
    assert_eq!(u.cells(), &before);
}

#[test]
fn blinker_oscillates_with_period_two() {
    let mut u = grid(5, 5, &[(2, 1), (2, 2), (2, 3)]);
    let start = u.cells().clone();
    u.tick();
    assert_eq!(live_cells(&u), vec![(1, 2), (2, 2), (3, 2)]);
    u.tick();
    assert_eq!(live_cells(&u), vec![(2, 1), (2, 2), (2, 3)]);
    assert_eq!(u.cells(), &start);
}

#[test]
fn dead_cell_with_three_neighbours_is_born() {
    let mut u = grid(6, 6, &[(1, 1), (1, 3), (3, 2)]);
    assert_eq!(u.cell(2, 2), 0);
    assert_eq!(u.live_neighbours(2, 2), 3);
    u.tick();
    assert_eq!(u.cell(2, 2), 1);
}

#[test]
fn dead_cell_with_two_or_four_neighbours_stays_dead() {
    let mut two = grid(6, 6, &[(1, 1), (3, 3)]);
    assert_eq!(two.live_neighbours(2, 2), 2);
    two.tick();
    assert_eq!(two.cell(2, 2), 0);

    let mut four = grid(6, 6, &[(1, 1), (1, 3), (3, 1), (3, 3)]);
    assert_eq!(four.live_neighbours(2, 2), 4);
    four.tick();
    assert_eq!(four.cell(2, 2), 0);
}

#[test]
fn live_cell_survives_with_two_or_three_neighbours() {
    let mut two = grid(6, 6, &[(2, 2), (1, 1), (3, 3)]);
    assert_eq!(two.live_neighbours(2, 2), 2);
    two.tick();
    assert_eq!(two.cell(2, 2), 1);

    let mut three = grid(6, 6, &[(2, 2), (1, 1), (1, 3), (3, 2)]);
    assert_eq!(three.live_neighbours(2, 2), 3);
    three.tick();
    assert_eq!(three.cell(2, 2), 1);
}

#[test]
fn live_cell_dies_with_fewer_than_two_or_more_than_three_neighbours() {
    let mut lonely = grid(6, 6, &[(2, 2)]);
    assert_eq!(lonely.live_neighbours(2, 2), 0);
    lonely.tick();
    assert_eq!(lonely.cell(2, 2), 0);

    let mut one = grid(6, 6, &[(2, 2), (1, 1)]);
    assert_eq!(one.live_neighbours(2, 2), 1);
    one.tick();
    assert_eq!(one.cell(2, 2), 0);

    let mut four = grid(6, 6, &[(2, 2), (1, 1), (1, 3), (3, 1), (3, 3)]);
    assert_eq!(four.live_neighbours(2, 2), 4);
    four.tick();
    assert_eq!(four.cell(2, 2), 0);

    let mut eight = Universe::from_cells(6, 6, vec![1; 36]).unwrap();
    assert_eq!(eight.live_neighbours(2, 2), 8);
    eight.tick();
    assert_eq!(eight.cells(), &vec![0u8; 36]);
}

#[test]
fn tick_is_deterministic() {
    let seed = Universe::new(12, 9);
    let mut a = Universe::from_cells(12, 9, seed.cells().clone()).unwrap();
    let mut b = Universe::from_cells(12, 9, seed.cells().clone()).unwrap();
    for _ in 0..5 {
        a.tick();
        b.tick();
        assert_eq!(a.cells(), b.cells());
    }
}

#[test]
fn tick_keeps_dimensions_and_binary_cells() {
    let mut u = Universe::new(10, 7);
    for _ in 0..10 {
        u.tick();
        assert_eq!(u.width(), 10);
        assert_eq!(u.height(), 7);
        assert_eq!(u.cells().len(), 70);
        assert!(u.cells().iter().all(|&c| c <= 1));
    }
}

#[test]
fn tick_reads_only_the_present_generation() {
    let mut u = grid(5, 5, &[(0, 0), (0, 1), (0, 2)]);
    u.tick();
    assert_eq!(live_cells(&u), vec![(0, 1), (1, 1), (4, 1)]);
}

#[test]
fn single_cell_torus_dies_of_its_own_company() {
    let mut u = Universe::from_cells(1, 1, vec![1]).unwrap();
    assert_eq!(u.live_neighbours(0, 0), 8);
    u.tick();
    assert_eq!(u.cells(), &vec![0u8]);
}

#[test]
fn from_throws_seeds_cell_by_cell() {
    let u = Universe::from_throws(3, 2, &vec![1, 6, 3, 4, 2, 5]);
    assert_eq!(u.width(), 3);
    assert_eq!(u.height(), 2);
    assert_eq!(u.cells(), &vec![0u8, 1, 0, 1, 0, 1]);
    assert_eq!(u.cell(0, 1), 1);
    assert_eq!(u.cell(1, 2), 1);
    assert_eq!(u.cell(1, 1), 0);
}
