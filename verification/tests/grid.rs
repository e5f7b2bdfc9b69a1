use ghost_maze::grid::{Dir, GridLocation};

fn loc(x: isize, y: isize) -> GridLocation {
    GridLocation { x, y }
}

#[test]
fn shift_moves_one_tile() {
    assert_eq!(loc(3, 4).shift(Dir::Left), loc(2, 4));
    assert_eq!(loc(3, 4).shift(Dir::Right), loc(4, 4));
    assert_eq!(loc(3, 4).shift(Dir::Down), loc(3, 3));
    assert_eq!(loc(3, 4).shift(Dir::Up), loc(3, 5));
}

#[test]
fn shift_by_moves_many_tiles() {
    assert_eq!(loc(3, 4).shift_by(Dir::Left, 4), loc(-1, 4));
    assert_eq!(loc(3, 4).shift_by(Dir::Up, 2), loc(3, 6));
    assert_eq!(loc(3, 4).shift_by(Dir::Right, 0), loc(3, 4));
    assert_eq!(loc(3, 4).shift_by(Dir::Down, -2), loc(3, 6));
}

#[test]
fn reverse_is_the_opposite() {
    assert_eq!(Dir::Left.reverse(), Dir::Right);
    assert_eq!(Dir::Right.reverse(), Dir::Left);
    assert_eq!(Dir::Up.reverse(), Dir::Down);
    assert_eq!(Dir::Down.reverse(), Dir::Up);
    for dir in [Dir::Up, Dir::Left, Dir::Down, Dir::Right] {
        assert_eq!(dir.reverse().reverse(), dir);
        assert_eq!(loc(7, 7).shift(dir).shift(dir.reverse()), loc(7, 7));
    }
}

#[test]
fn distance_squared_is_euclidean() {
    assert_eq!(loc(0, 0).distance_squared(&loc(3, 4)), 25);
    assert_eq!(loc(3, 4).distance_squared(&loc(0, 0)), 25);
    assert_eq!(loc(-2, 5).distance_squared(&loc(-2, 5)), 0);
    assert_eq!(loc(-1, -1).distance_squared(&loc(1, 1)), 8);
}

#[test]
fn distance_squared_of_far_tiles() {
    let a = loc(-2_147_483_648, -2_147_483_648);
    let b = loc(2_147_483_647, 2_147_483_647);
    let side: u128 = 4_294_967_295;
    assert_eq!(a.distance_squared(&b), 2 * side * side);
}
