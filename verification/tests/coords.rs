use trek_core::Pos;
use trek_core::pos::course_step;

#[test]
fn index_is_row_major() {
    assert_eq!(Pos(0, 0).as_index(), 0);
    assert_eq!(Pos(2, 3).as_index(), 19);
    assert_eq!(Pos(7, 7).as_index(), 63);
}

#[test]
fn galactic_round_trip_everywhere() {
    for q0 in 0..8u8 {
        for q1 in 0..8u8 {
            for s0 in 0..8u8 {
                for s1 in 0..8u8 {
                    let quadrant = Pos(q0, q1);
                    let sector = Pos(s0, s1);
                    let galactic = sector.as_galactic_sector(quadrant);
                    let (back_q, back_s) = galactic.to_local_quadrant_sector();
                    assert_eq!(back_q, quadrant);
                    assert_eq!(back_s, sector);
                }
            }
        }
    }
}

#[test]
fn galactic_scaling_concrete() {
    let g = Pos(2, 5).as_galactic_sector(Pos(3, 1));
    assert_eq!(g, Pos(26, 13));
    assert_eq!(g.to_local_quadrant_sector(), (Pos(3, 1), Pos(2, 5)));
}

#[test]
fn manhattan_distance() {
    assert_eq!(Pos(0, 0).abs_diff(Pos(0, 1)), 1);
    assert_eq!(Pos(2, 3).abs_diff(Pos(5, 1)), 5);
    assert_eq!(Pos(63, 63).abs_diff(Pos(0, 0)), 126);
    assert_eq!(Pos(4, 4).abs_diff(Pos(4, 4)), 0);
}

#[test]
fn euclidean_distance_rounds_down() {
    assert_eq!(Pos(0, 0).dist(Pos(3, 4)), 5);
    assert_eq!(Pos(0, 0).dist(Pos(1, 1)), 1);
    assert_eq!(Pos(0, 0).dist(Pos(0, 0)), 0);
    assert_eq!(Pos(5, 5).dist(Pos(5, 12)), 7);
    assert_eq!(Pos(0, 0).dist(Pos(7, 7)), 9);
}

#[test]
fn direction_cardinals() {
    // Towards growing columns: course 1.
    let east = Pos(0, 0).direction(Pos(0, 1));
    assert_eq!((east.num, east.den), (1, 1));
    // Towards growing rows: course 7.
    let south = Pos(0, 0).direction(Pos(1, 0));
    assert_eq!((south.num, south.den), (7, 1));
    // Towards smaller rows: course 3.
    let north = Pos(5, 5).direction(Pos(2, 5));
    assert_eq!((north.num, north.den), (9, 3));
    // Towards smaller columns: course 5.
    let west = Pos(0, 3).direction(Pos(0, 0));
    assert_eq!((west.num, west.den), (15, 3));
}

#[test]
fn direction_fraction_and_wrap() {
    // Column axis dominates, fraction -1/2: 1 - 1/2 wraps to 8.5.
    let c = Pos(0, 0).direction(Pos(1, 2));
    assert_eq!((c.num, c.den), (17, 2));
    // Perfect diagonal towards smaller rows and columns: 5 - 1 = 4.
    let d = Pos(1, 1).direction(Pos(0, 0));
    assert_eq!((d.num, d.den), (4, 1));
}

#[test]
fn direction_never_below_one() {
    for a in 0..64usize {
        for b in 0..64usize {
            if a == b {
                continue;
            }
            let from = Pos((a / 8) as u8, (a % 8) as u8);
            let to = Pos((b / 8) as u8, (b % 8) as u8);
            let c = from.direction(to);
            assert!(c.den >= 1);
            assert!(c.num >= c.den, "bearing below 1 from {:?} to {:?}", from, to);
            assert!(c.num < 9 * c.den, "bearing at or past 9 from {:?} to {:?}", from, to);
        }
    }
}

#[test]
fn course_steps() {
    assert_eq!(course_step(1), (0, 1));
    assert_eq!(course_step(3), (-1, 0));
    assert_eq!(course_step(6), (1, -1));
    assert_eq!(course_step(9), (0, 1));
}
