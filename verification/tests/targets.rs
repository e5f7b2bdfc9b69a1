use ghost_maze::ghost::{blinky, clyde, inky, pinky, target_for, Personality, Snapshot};
use ghost_maze::grid::{Dir, GridLocation};
use ghost_maze::mode::Mode;

fn loc(x: isize, y: isize) -> GridLocation {
    GridLocation { x, y }
}

#[test]
fn scatter_corners() {
    assert_eq!(Personality::Blinky.scatter(), loc(25, 35));
    assert_eq!(Personality::Pinky.scatter(), loc(2, 35));
    assert_eq!(Personality::Inky.scatter(), loc(27, 0));
    assert_eq!(Personality::Clyde.scatter(), loc(0, 0));
}

#[test]
fn names() {
    assert_eq!(Personality::Blinky.name(), "Blinky");
    assert_eq!(Personality::Pinky.name(), "Pinky");
    assert_eq!(Personality::Inky.name(), "Inky");
    assert_eq!(Personality::Clyde.name(), "Clyde");
}

#[test]
fn blinky_targets_the_player() {
    assert_eq!(blinky::chase(loc(12, 9)), loc(12, 9));
}

#[test]
fn pinky_targets_four_tiles_ahead() {
    assert_eq!(pinky::chase(loc(12, 9), Dir::Left), loc(8, 9));
    assert_eq!(pinky::chase(loc(12, 9), Dir::Right), loc(16, 9));
    assert_eq!(pinky::chase(loc(12, 9), Dir::Up), loc(12, 13));
    assert_eq!(pinky::chase(loc(12, 9), Dir::Down), loc(12, 5));
}

#[test]
fn inky_mirror() {
    // Blinky at (0,0), player at (5,0) facing right: two ahead is (7,0),
    // mirrored through that point Blinky lands on (14,0).
    assert_eq!(inky::chase(loc(5, 0), Dir::Right, loc(0, 0)), loc(14, 0));
}

#[test]
fn inky_mirror_in_both_axes() {
    assert_eq!(inky::chase(loc(10, 10), Dir::Up, loc(13, 8)), loc(7, 16));
    assert_eq!(inky::chase(loc(10, 10), Dir::Down, loc(10, 8)), loc(10, 8));
}

#[test]
fn clyde_threshold() {
    // Exactly eight tiles away: squared distance 64, which does not
    // exceed the threshold, so Clyde heads for his corner.
    assert_eq!(clyde::chase(loc(10, 10), loc(18, 10)), loc(0, 0));
    assert_eq!(clyde::chase(loc(10, 10), loc(10, 2)), loc(0, 0));
}

#[test]
fn clyde_chases_from_afar() {
    // Squared distance 65.
    assert_eq!(clyde::chase(loc(10, 10), loc(18, 11)), loc(18, 11));
    assert_eq!(clyde::chase(loc(10, 10), loc(19, 10)), loc(19, 10));
}

#[test]
fn clyde_is_shy_when_close() {
    assert_eq!(clyde::chase(loc(10, 10), loc(11, 10)), loc(0, 0));
    assert_eq!(clyde::chase(loc(10, 10), loc(10, 10)), loc(0, 0));
}

#[test]
fn target_for_scatter_is_the_corner() {
    let world = Snapshot { player: loc(5, 0), player_dir: Dir::Right, blinky: Some(loc(0, 0)) };
    for p in [Personality::Blinky, Personality::Pinky, Personality::Inky, Personality::Clyde] {
        let target = target_for(p, Mode::Scatter, loc(20, 20), p.scatter(), &world);
        assert_eq!(target, p.scatter());
    }
}

#[test]
fn target_for_chase_follows_personality() {
    let world = Snapshot { player: loc(5, 0), player_dir: Dir::Right, blinky: Some(loc(0, 0)) };
    let corner = loc(1, 1);
    assert_eq!(target_for(Personality::Blinky, Mode::Chase, loc(20, 20), corner, &world), loc(5, 0));
    assert_eq!(target_for(Personality::Pinky, Mode::Chase, loc(20, 20), corner, &world), loc(9, 0));
    assert_eq!(target_for(Personality::Inky, Mode::Chase, loc(20, 20), corner, &world), loc(14, 0));
    assert_eq!(target_for(Personality::Clyde, Mode::Chase, loc(20, 20), corner, &world), loc(5, 0));
    // Close to the player Clyde heads for his own corner, whatever corner
    // the ghost was given for scatter mode.
    assert_eq!(target_for(Personality::Clyde, Mode::Chase, loc(6, 0), corner, &world), loc(0, 0));
}

#[test]
fn only_inky_needs_blinky() {
    let world = Snapshot { player: loc(5, 0), player_dir: Dir::Right, blinky: None };
    assert_eq!(Personality::Blinky.chase(loc(20, 20), &world), loc(5, 0));
    assert_eq!(Personality::Pinky.chase(loc(20, 20), &world), loc(9, 0));
    assert_eq!(Personality::Clyde.chase(loc(20, 20), &world), loc(5, 0));
    let corner = Personality::Inky.scatter();
    assert_eq!(target_for(Personality::Inky, Mode::Scatter, loc(20, 20), corner, &world), corner);
}
