use ghost_maze::grid::Dir;
use ghost_maze::sprite::{animate, set_sprite_direction, AnimationTimer, ANIMATION_PERIOD};

#[test]
fn each_direction_has_its_pair() {
    assert_eq!(set_sprite_direction(Dir::Right, 0), 0);
    assert_eq!(set_sprite_direction(Dir::Left, 0), 2);
    assert_eq!(set_sprite_direction(Dir::Up, 0), 4);
    assert_eq!(set_sprite_direction(Dir::Down, 0), 6);
}

#[test]
fn turning_keeps_the_place_in_the_pair() {
    assert_eq!(set_sprite_direction(Dir::Right, 7), 1);
    assert_eq!(set_sprite_direction(Dir::Left, 5), 3);
    assert_eq!(set_sprite_direction(Dir::Up, 1), 5);
    assert_eq!(set_sprite_direction(Dir::Down, 3), 7);
    assert_eq!(set_sprite_direction(Dir::Down, 4), 6);
    assert_eq!(set_sprite_direction(Dir::Left, usize::MAX), 3);
}

#[test]
fn pictures_alternate_every_period() {
    let mut timer = AnimationTimer::new();
    assert_eq!(ANIMATION_PERIOD, 200_000_000);
    let mut index = 4;
    index = animate(&mut timer, 150_000_000, index);
    assert_eq!(index, 4);
    index = animate(&mut timer, 50_000_000, index);
    assert_eq!(index, 5);
    assert_eq!(timer.timer().elapsed(), 0);
    index = animate(&mut timer, 199_999_999, index);
    assert_eq!(index, 5);
    index = animate(&mut timer, 1, index);
    assert_eq!(index, 4);
}

#[test]
fn a_long_step_alternates_once() {
    let mut timer = AnimationTimer::new();
    let index = animate(&mut timer, 5 * ANIMATION_PERIOD + 7, 2);
    assert_eq!(index, 3);
    assert_eq!(timer.timer().elapsed(), 7);
    let index = animate(&mut timer, 800_000_000_000_000_000, usize::MAX);
    assert_eq!(index, usize::MAX - 1);
}
