use estrella::art::attractor::AttractorType;
use estrella::art::automata::{CellularAutomaton, InitType};
use estrella::art::corrupt_barcode::barcode_value;
use estrella::art::hash;
use estrella::art::microfeed::{on_line, Microfeed, Params};
use estrella::art::voronoi::RenderMode;
use estrella::art::weave::{warp_on_top, WeaveType};

#[test]
fn hash_known_values() {
    assert_eq!(hash(0), 0);
    assert_eq!(hash(1), 824515495);
    assert_eq!(hash(42), 4147366645);
    assert_eq!(hash(0xFFFF_FFFF), 225035476);
}

#[test]
fn barcode_bars_follow_the_hash() {
    let bars: Vec<bool> = (0..8).map(|i| barcode_value(i, 7)).collect();
    assert_eq!(bars, vec![true, false, false, true, true, false, false, true]);
    assert!((0..8).all(|i| barcode_value(i, 0)));
}

#[test]
fn pattern_kinds_by_name() {
    assert_eq!(AttractorType::from_str("Lorenz"), Some(AttractorType::Lorenz));
    assert_eq!(AttractorType::from_str("CLIFFORD"), Some(AttractorType::Clifford));
    assert_eq!(AttractorType::from_str("henon"), None);
    assert_eq!(InitType::from_str("Alternating"), Some(InitType::Alternating));
    assert_eq!(RenderMode::from_str("CellsAndEdges"), Some(RenderMode::CellsAndEdges));
    assert_eq!(RenderMode::from_str("cells_and_edges"), Some(RenderMode::CellsAndEdges));
    assert_eq!(WeaveType::from_str("Herringbone"), Some(WeaveType::Herringbone));
    assert_eq!(WeaveType::from_name("Twill"), None);
}

#[test]
fn weave_cells() {
    assert!(warp_on_top(0, 0, WeaveType::Plain, 1));
    assert!(!warp_on_top(1, 0, WeaveType::Plain, 1));
    // Twill with shift 2: (x + 2y) % 3 == 0.
    assert!(warp_on_top(1, 1, WeaveType::Twill, 2));
    assert!(!warp_on_top(2, 1, WeaveType::Twill, 2));
    // Basket: groups of two.
    assert!(warp_on_top(1, 1, WeaveType::Basket, 1));
    assert!(!warp_on_top(2, 1, WeaveType::Basket, 1));
    // Satin with shift 1: pattern size 3, offset (2y) % 3.
    assert!(warp_on_top(1, 1, WeaveType::Satin, 1));
    // Herringbone with shift 1: period 4.
    assert!(warp_on_top(1, 1, WeaveType::Herringbone, 1));
    assert!(warp_on_top(1, 3, WeaveType::Herringbone, 1));
    assert!(!warp_on_top(0, 3, WeaveType::Herringbone, 1));
}

#[test]
fn microfeed_lines_spread_out() {
    let params = Params::default();
    let lines: Vec<usize> = (0..16).filter(|&y| on_line(y, &params)).collect();
    assert_eq!(lines, vec![0, 1, 3, 6, 10, 15]);
    let wide = Params { start_gap: 3, gap_increment: 0 };
    assert!(on_line(9, &wide));
    assert!(!on_line(10, &wide));
    assert_eq!(Microfeed {}.name(), "microfeed");
}

#[test]
fn rule_30_from_one_cell() {
    let first = vec![false, false, false, true, false, false, false];
    let ca = CellularAutomaton::evolve(first, 4, 30);
    let rows: Vec<String> =
        (0..4).map(|y| (0..7).map(|x| if ca.get(x, y) { '#' } else { '.' }).collect()).collect();
    assert_eq!(rows, vec!["...#...", "..###..", ".##..#.", "##.####"]);
    assert!(!ca.get(7, 0));
    assert!(!ca.get(0, 4));
}

#[test]
fn test_rule_30() {
    let ca = CellularAutomaton::new(11, 5, 30, InitType::Single, vec![]);
    assert!(ca.get(5, 0));
    assert!(!ca.get(4, 0));
    assert!(!ca.get(6, 0));
    assert!(ca.get(4, 1));
    assert!(ca.get(5, 1));
    assert!(ca.get(6, 1));
}

#[test]
fn automaton_seedings() {
    let alt = CellularAutomaton::new(6, 2, 204, InitType::Alternating, vec![]);
    let row0: Vec<bool> = (0..6).map(|x| alt.get(x, 0)).collect();
    assert_eq!(row0, vec![true, false, true, false, true, false]);
    // Rule 204 copies the centre cell.
    let row1: Vec<bool> = (0..6).map(|x| alt.get(x, 1)).collect();
    assert_eq!(row1, row0);
    let given = vec![false, true, true, false];
    let rnd = CellularAutomaton::new(4, 1, 30, InitType::Random, given.clone());
    let first: Vec<bool> = (0..4).map(|x| rnd.get(x, 0)).collect();
    assert_eq!(first, given);
}

#[test]
fn test_progressive_spacing() {
    let params = Params::default();
    for y in [0, 1, 3, 6, 10] {
        assert!(on_line(y, &params));
    }
    assert!(!on_line(2, &params));
    assert!(!on_line(5, &params));
}
