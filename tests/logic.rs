use battlesnake::{
    end, get_info, get_move, safe_moves, settle_move, start, valid_move, Battlesnake, Board,
    Coord, Direction, Game,
};

fn board(width: i32, height: i32) -> Board {
    Board {
        height,
        width,
        food: vec![],
        snakes: vec![],
        hazards: vec![],
    }
}

fn snake(head: Coord, neck: Coord) -> Battlesnake {
    Battlesnake {
        id: "me".to_string(),
        name: "me".to_string(),
        health: 100,
        body: vec![head, neck],
        head,
        length: 2,
        latency: "0".to_string(),
        shout: None,
    }
}

fn game() -> Game {
    Game {
        id: "g1".to_string(),
        timeout: 500,
    }
}

#[test]
fn head_will_not_hit_left_wall() {
    let board = Board {
        height: 10,
        width: 10,
        food: vec![],
        snakes: vec![],
        hazards: vec![],
    };
    let spot = Coord { x: 0, y: 5 };
    let valid_move = valid_move(&spot, &board);
    assert_eq!(valid_move, false);
}

#[test]
fn head_will_not_hit_right_wall() {
    let board = Board {
        height: 10,
        width: 10,
        food: vec![],
        snakes: vec![],
        hazards: vec![],
    };
    let spot = Coord { x: 10, y: 5 };
    let valid_move = valid_move(&spot, &board);
    assert_eq!(valid_move, false);
}

#[test]
fn head_will_not_hit_roof() {
    let board = Board {
        height: 10,
        width: 10,
        food: vec![],
        snakes: vec![],
        hazards: vec![],
    };
    let spot = Coord { x: 5, y: 10 };
    let valid_move = valid_move(&spot, &board);
    assert_eq!(valid_move, false);
}

#[test]
fn head_will_not_hit_floor() {
    let board = Board {
        height: 10,
        width: 10,
        food: vec![],
        snakes: vec![],
        hazards: vec![],
    };
    let spot = Coord { x: 5, y: 0 };
    let valid_move = valid_move(&spot, &board);
    assert_eq!(valid_move, false);
}

#[test]
fn head_will_travel() {
    let board = Board {
        height: 10,
        width: 10,
        food: vec![],
        snakes: vec![],
        hazards: vec![],
    };
    let spot = Coord { x: 5, y: 5 };
    let valid_move = valid_move(&spot, &board);
    assert_eq!(valid_move, true);
}

#[test]
fn non_square_board_uses_width_for_x_and_height_for_y() {
    let b = board(7, 12);
    assert!(valid_move(&Coord { x: 6, y: 11 }, &b));
    assert!(!valid_move(&Coord { x: 7, y: 5 }, &b));
    assert!(!valid_move(&Coord { x: 3, y: 12 }, &b));
    assert!(valid_move(&Coord { x: 3, y: 8 }, &b));
}

#[test]
fn cells_off_the_board_are_rejected() {
    let b = board(10, 10);
    assert!(!valid_move(&Coord { x: -1, y: 5 }, &b));
    assert!(!valid_move(&Coord { x: 5, y: -1 }, &b));
    assert!(!valid_move(&Coord { x: 11, y: 5 }, &b));
    assert!(!valid_move(&Coord { x: 5, y: 11 }, &b));
}

#[test]
fn neck_left_of_head_excludes_left() {
    let b = board(10, 10);
    let me = snake(Coord { x: 5, y: 5 }, Coord { x: 4, y: 5 });
    let moves = safe_moves(&b, &me);
    assert_eq!(moves, vec![Direction::Up, Direction::Down, Direction::Right]);
    let chosen = get_move(&game(), &3, &b, &me);
    assert!(chosen == "up" || chosen == "down" || chosen == "right");
}

#[test]
fn head_on_left_wall_with_neck_below() {
    let b = board(10, 10);
    let me = snake(Coord { x: 0, y: 5 }, Coord { x: 0, y: 4 });
    let moves = safe_moves(&b, &me);
    assert!(!moves.contains(&Direction::Down));
    assert!(!moves.contains(&Direction::Left));
    assert_eq!(moves, vec![Direction::Right]);
    assert_eq!(get_move(&game(), &3, &b, &me), "right");
}

#[test]
fn neck_in_each_direction_is_never_offered() {
    let b = board(10, 10);
    let head = Coord { x: 5, y: 5 };
    let cases = [
        (Coord { x: 5, y: 6 }, Direction::Up),
        (Coord { x: 5, y: 4 }, Direction::Down),
        (Coord { x: 4, y: 5 }, Direction::Left),
        (Coord { x: 6, y: 5 }, Direction::Right),
    ];
    for (neck, back) in cases {
        let moves = safe_moves(&b, &snake(head, neck));
        assert_eq!(moves.len(), 3);
        assert!(!moves.contains(&back));
    }
}

#[test]
fn cornered_snake_falls_back_to_up() {
    let b = board(2, 2);
    let me = snake(Coord { x: 1, y: 1 }, Coord { x: 1, y: 0 });
    assert_eq!(safe_moves(&b, &me), vec![]);
    assert_eq!(get_move(&game(), &7, &b, &me), "up");
}

#[test]
fn every_move_is_one_of_four_words() {
    let b = board(10, 10);
    for x in 0..11 {
        for y in 0..11 {
            let me = snake(Coord { x, y }, Coord { x, y: y - 1 });
            let chosen = get_move(&game(), &1, &b, &me);
            assert!(["up", "down", "left", "right"].contains(&chosen));
        }
    }
}

#[test]
fn choice_between_two_moves_is_even() {
    let b = board(10, 10);
    let me = snake(Coord { x: 1, y: 5 }, Coord { x: 1, y: 4 });
    assert_eq!(safe_moves(&b, &me), vec![Direction::Up, Direction::Right]);
    let mut ups: u32 = 0;
    let mut rights: u32 = 0;
    for _ in 0..1000 {
        match get_move(&game(), &1, &b, &me) {
            "up" => ups += 1,
            "right" => rights += 1,
            other => panic!("unexpected move {}", other),
        }
    }
    assert_eq!(ups + rights, 1000);
    assert!(ups > 400 && ups < 600);
    assert!(rights > 400 && rights < 600);
}

#[test]
fn filtering_twice_gives_the_same_moves() {
    let b = board(10, 10);
    let me = snake(Coord { x: 9, y: 1 }, Coord { x: 8, y: 1 });
    let first = safe_moves(&b, &me);
    let second = safe_moves(&b, &me);
    assert_eq!(first, second);
    assert_eq!(first, vec![Direction::Up]);
}

#[test]
fn head_at_extreme_coordinates_does_not_overflow() {
    let b = board(10, 10);
    let me = snake(Coord { x: i32::MAX, y: i32::MIN }, Coord { x: i32::MAX - 1, y: i32::MIN });
    assert_eq!(safe_moves(&b, &me), vec![]);
}

#[test]
fn settle_move_takes_the_pick_or_falls_back() {
    assert_eq!(settle_move(Some(Direction::Left)), Direction::Left);
    assert_eq!(settle_move(Some(Direction::Down)), Direction::Down);
    assert_eq!(settle_move(None), Direction::Up);
}

#[test]
fn directions_have_lowercase_words() {
    assert_eq!(Direction::Up.as_str(), "up");
    assert_eq!(Direction::Down.as_str(), "down");
    assert_eq!(Direction::Left.as_str(), "left");
    assert_eq!(Direction::Right.as_str(), "right");
}

#[test]
fn info_is_fixed() {
    let info = get_info();
    assert_eq!(info.apiversion, "1");
    assert_eq!(info.author, "nomad");
    assert_eq!(info.color, "#F09383");
    assert_eq!(info.head, "default");
    assert_eq!(info.tail, "default");
}

#[test]
fn lifecycle_hooks_accept_a_turn() {
    let b = board(10, 10);
    let me = snake(Coord { x: 5, y: 5 }, Coord { x: 4, y: 5 });
    start(&game(), &0, &b, &me);
    end(&game(), &42, &b, &me);
}
