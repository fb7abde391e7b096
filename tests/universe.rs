use wasm_game_of_life::rules::next_cell;
use wasm_game_of_life::text::push_decimal;
use wasm_game_of_life::{Cell, Universe};

fn grid(width: u32, height: u32, alive: &[(u32, u32)]) -> Universe {
    let mut cells = vec![Cell::Dead; (width * height) as usize];
    for &(r, c) in alive {
        cells[(r * width + c) as usize] = Cell::Alive;
    }
    Universe::from_cells(width, height, cells).expect("valid grid")
}

fn alive_at(u: &Universe, row: u32, col: u32) -> bool {
    u.cells()[(row * u.width() + col) as usize] == Cell::Alive
}

#[test]
fn new_has_fixed_size_and_generation_zero() {
    let u = Universe::new();
    assert_eq!(u.width(), 64);
    assert_eq!(u.height(), 64);
    assert_eq!(u.generation(), 0);
    assert_eq!(u.cells().len(), 64 * 64);
}

#[test]
fn size_is_kept_by_tick() {
    let mut u = Universe::new();
    for _ in 0..3 {
        u.tick();
        assert_eq!(u.cells().len(), (u.width() * u.height()) as usize);
    }
    let mut v = Universe::with_size(5, 3).unwrap();
    v.tick();
    assert_eq!(v.cells().len(), 15);
    assert_eq!(v.width(), 5);
    assert_eq!(v.height(), 3);
}

#[test]
fn generation_increases_by_one_per_tick() {
    let mut u = Universe::new();
    for g in 1..=5u32 {
        u.tick();
        assert_eq!(u.generation(), g);
    }
}

#[test]
fn live_cells_matches_scan() {
    let mut u = Universe::new();
    for _ in 0..4 {
        let scanned = u.cells().iter().filter(|c| **c == Cell::Alive).count() as u32;
        assert_eq!(u.live_cells(), scanned);
        u.tick();
    }
}

#[test]
fn live_cells_of_seed() {
    // 2048 even indices and 293 odd multiples of 7 below 4096.
    assert_eq!(Universe::new().live_cells(), 2341);
}

#[test]
fn neighbor_count_wraps_round_the_torus() {
    let u = grid(3, 3, &[(2, 2)]);
    assert_eq!(u.live_neighbor_count(0, 0), 1);
    assert_eq!(u.live_neighbor_count(0, 2), 1);
    assert_eq!(u.live_neighbor_count(2, 0), 1);
    assert_eq!(u.live_neighbor_count(1, 1), 1);
    assert_eq!(u.live_neighbor_count(2, 2), 0);
}

#[test]
fn neighbor_count_on_a_wider_grid() {
    let u = grid(5, 5, &[(4, 4), (0, 1), (1, 0), (2, 2)]);
    assert_eq!(u.live_neighbor_count(0, 0), 3);
    assert_eq!(u.live_neighbor_count(3, 3), 2);
    assert_eq!(u.live_neighbor_count(4, 0), 2);
}

#[test]
fn neighbor_count_on_one_tall_grid_counts_repeats() {
    let u = grid(3, 1, &[(0, 0), (0, 1), (0, 2)]);
    assert_eq!(u.live_neighbor_count(0, 0), 7);
    let single = grid(1, 1, &[(0, 0)]);
    assert_eq!(single.live_neighbor_count(0, 0), 5);
}

#[test]
fn block_is_a_still_life() {
    let mut u = grid(4, 4, &[(1, 1), (1, 2), (2, 1), (2, 2)]);
    let start: Vec<Cell> = u.cells().to_vec();
    for _ in 0..3 {
        u.tick();
        assert_eq!(u.cells(), &start[..]);
    }
    assert_eq!(u.generation(), 3);
}

#[test]
fn isolated_cell_dies() {
    let mut u = grid(5, 5, &[(2, 2)]);
    u.tick();
    assert!(!alive_at(&u, 2, 2));
    assert_eq!(u.live_cells(), 0);
}

#[test]
fn dead_cell_with_three_neighbors_is_born() {
    let mut u = grid(6, 6, &[(1, 1), (1, 2), (2, 1)]);
    assert_eq!(u.live_neighbor_count(2, 2), 3);
    u.tick();
    assert!(alive_at(&u, 2, 2));
    assert!(alive_at(&u, 1, 1));
    assert!(alive_at(&u, 1, 2));
    assert!(alive_at(&u, 2, 1));
    assert_eq!(u.live_cells(), 4);
}

#[test]
fn blinker_oscillates() {
    let mut u = grid(5, 5, &[(2, 1), (2, 2), (2, 3)]);
    u.tick();
    let expected = grid(5, 5, &[(1, 2), (2, 2), (3, 2)]);
    assert_eq!(u.cells(), expected.cells());
    u.tick();
    let back = grid(5, 5, &[(2, 1), (2, 2), (2, 3)]);
    assert_eq!(u.cells(), back.cells());
}

#[test]
fn overcrowded_cell_dies() {
    let mut u = grid(5, 5, &[(2, 2), (1, 1), (1, 2), (1, 3), (2, 1)]);
    assert_eq!(u.live_neighbor_count(2, 2), 4);
    u.tick();
    assert!(!alive_at(&u, 2, 2));
}

#[test]
fn identical_universes_evolve_identically() {
    let mut a = Universe::new();
    let mut b = Universe::new();
    for _ in 0..5 {
        a.tick();
        b.tick();
    }
    assert_eq!(a.cells(), b.cells());
    assert_eq!(a.generation(), b.generation());
}

#[test]
fn render_twice_gives_same_text() {
    let mut u = Universe::new();
    u.tick();
    assert_eq!(u.render(), u.render());
}

#[test]
fn render_small_grid() {
    let mut u = grid(2, 2, &[(0, 0), (1, 1)]);
    assert_eq!(u.render(), "Generation: 0, live cells: 2\n\u{25FC}\u{25FB}\n\u{25FB}\u{25FC}\n");
    u.tick();
    assert_eq!(u.render(), "Generation: 1, live cells: 0\n\u{25FB}\u{25FB}\n\u{25FB}\u{25FB}\n");
}

#[test]
fn render_seed_layout() {
    let u = Universe::new();
    let text = u.render();
    let lines: Vec<&str> = text.split('\n').collect();
    assert_eq!(lines[0], "Generation: 0, live cells: 2341");
    assert_eq!(lines.len(), 64 + 2);
    assert_eq!(lines[65], "");
    for line in &lines[1..65] {
        assert_eq!(line.chars().count(), 64);
    }
    let first: String = lines[1].chars().take(8).collect();
    assert_eq!(first, "\u{25FC}\u{25FB}\u{25FC}\u{25FB}\u{25FC}\u{25FB}\u{25FC}\u{25FC}");
}

#[test]
fn seed_pattern_of_new() {
    let u = Universe::new();
    for i in 0..=20usize {
        let expected = if i % 2 == 0 || i % 7 == 0 { Cell::Alive } else { Cell::Dead };
        assert_eq!(u.cells()[i], expected, "index {}", i);
    }
    assert_eq!(u.cells()[21], Cell::Alive);
    assert_eq!(u.cells()[3], Cell::Dead);
}

#[test]
fn with_size_uses_the_seed_pattern() {
    let u = Universe::with_size(10, 3).unwrap();
    for i in 0..30usize {
        let expected = if i % 2 == 0 || i % 7 == 0 { Cell::Alive } else { Cell::Dead };
        assert_eq!(u.cells()[i], expected);
    }
    assert_eq!(u.generation(), 0);
}

#[test]
fn invalid_sizes_are_rejected() {
    assert!(Universe::with_size(0, 5).is_none());
    assert!(Universe::with_size(5, 0).is_none());
    assert!(Universe::with_size(70000, 70000).is_none());
    assert!(Universe::with_size(65536, 65536).is_none());
    assert!(Universe::from_cells(2, 2, vec![Cell::Dead; 3]).is_none());
    assert!(Universe::from_cells(0, 0, vec![]).is_none());
    assert!(Universe::from_cells(2, 2, vec![Cell::Dead; 4]).is_some());
}

#[test]
fn cell_values() {
    assert_eq!(Cell::Dead.value(), 0);
    assert_eq!(Cell::Alive.value(), 1);
}

#[test]
fn rule_table() {
    for n in 0..=8u8 {
        let alive_next = if n == 2 || n == 3 { Cell::Alive } else { Cell::Dead };
        assert_eq!(next_cell(Cell::Alive, n), alive_next);
        let dead_next = if n == 3 { Cell::Alive } else { Cell::Dead };
        assert_eq!(next_cell(Cell::Dead, n), dead_next);
    }
}

#[test]
fn decimal_text() {
    let mut s = String::from("n=");
    push_decimal(&mut s, 0);
    assert_eq!(s, "n=0");
    let mut t = String::new();
    push_decimal(&mut t, 4096);
    assert_eq!(t, "4096");
    let mut m = String::new();
    push_decimal(&mut m, u32::MAX);
    assert_eq!(m, "4294967295");
}

#[test]
fn greeting_names_the_caller() {
    assert_eq!(
        wasm_game_of_life::greeting::greeting("Ada"),
        "Hello, Ada, from wasm-game-of-life!"
    );
    assert_eq!(wasm_game_of_life::greeting::greeting(""), "Hello, , from wasm-game-of-life!");
}
