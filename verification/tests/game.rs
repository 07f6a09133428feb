use snake::add_food_to_map;
use snake::add_snake_to_map;
use snake::can_move;
use snake::contains_pos;
use snake::control_snake;
use snake::create_food;
use snake::create_map;
use snake::create_snake;
use snake::food_in_bounds;
use snake::is_food_collide_with_snake;
use snake::is_game_over;
use snake::move_snake;
use snake::position_on_snake;
use snake::random_new_food;
use snake::render_map;
use snake::resolve_direction;
use snake::snake_in_bounds;
use snake::Direction;
use snake::Food;
use snake::Grid;
use snake::Snake;
use snake::BODY;
use snake::EMPTY;
use snake::FOOD;
use snake::HEAD;
use snake::HEIGHT;
use snake::WALL;
use snake::WIDTH;

fn border_all_wall(map: &Grid) {
    for i in 0..HEIGHT {
        for j in 0..WIDTH {
            if i == 0 || i == HEIGHT - 1 || j == 0 || j == WIDTH - 1 {
                assert_eq!(map.get_cell(i, j), WALL);
            }
        }
    }
}

#[test]
fn initial_snake() {
    let s = create_snake();
    assert_eq!(s.head, (5, 6));
    assert_eq!(s.body, vec![(4, 6), (3, 6)]);
    assert_eq!(s.speed, 300);
    assert!(snake_in_bounds(&s));
}

#[test]
fn initial_food() {
    let f = create_food();
    assert_eq!(f.position, (7, 8));
    assert!(!f.eated);
    assert!(food_in_bounds(&f));
}

#[test]
fn initial_map_cells() {
    let map = create_map();
    assert!(map.well_formed());
    border_all_wall(&map);
    for i in 1..HEIGHT - 1 {
        for j in 1..WIDTH - 1 {
            assert_eq!(map.get_cell(i, j), EMPTY);
        }
    }
}

#[test]
fn move_right_drops_tail() {
    let mut map = create_map();
    let mut snake = create_snake();
    let mut food = create_food();
    let len_before = snake.body.len();
    move_snake(&mut snake, Direction::Right, &mut food, &mut map);
    assert_eq!(snake.head, (5, 7));
    assert_eq!(snake.body, vec![(5, 6), (4, 6)]);
    assert_eq!(snake.body.len(), len_before);
    assert_eq!(food.position, (7, 8));
    assert!(!food.eated);
    assert_eq!(map.get_cell(5, 7), HEAD);
    assert_eq!(map.get_cell(5, 6), BODY);
    assert_eq!(map.get_cell(3, 6), EMPTY);
    assert!(is_game_over(&snake));
}

#[test]
fn move_onto_food_grows() {
    let mut map = create_map();
    let mut snake = Snake { head: (7, 7), body: vec![(7, 6), (7, 5)], speed: 300 };
    let mut food = create_food();
    let len_before = snake.body.len();
    move_snake(&mut snake, Direction::Right, &mut food, &mut map);
    assert_eq!(snake.head, (7, 8));
    assert!(food.eated);
    assert_eq!(food.position, (7, 8));
    assert_eq!(snake.body, vec![(7, 7), (7, 6), (7, 5)]);
    assert_eq!(snake.body.len(), len_before + 1);
    random_new_food(&mut food, &snake);
    assert!(!food.eated);
    let p = food.position;
    assert!(1 <= p.0 && p.0 < HEIGHT - 1);
    assert!(1 <= p.1 && p.1 < WIDTH - 1);
    assert!(p != snake.head);
    assert!(!snake.body.contains(&p));
}

#[test]
fn reversal_ends_game() {
    let mut map = create_map();
    let mut snake = Snake { head: (5, 6), body: vec![(5, 7), (5, 8)], speed: 300 };
    let mut food = create_food();
    move_snake(&mut snake, Direction::Right, &mut food, &mut map);
    assert_eq!(snake.head, (5, 7));
    assert_eq!(snake.body, vec![(5, 6), (5, 7)]);
    assert!(!is_game_over(&snake));
}

#[test]
fn moves_in_all_directions() {
    for (d, expected) in [
        (Direction::Up, (4, 6)),
        (Direction::Down, (6, 6)),
        (Direction::Left, (5, 5)),
        (Direction::Right, (5, 7)),
    ] {
        let mut map = create_map();
        let mut snake = create_snake();
        let mut food = create_food();
        move_snake(&mut snake, d, &mut food, &mut map);
        assert_eq!(snake.head, expected);
        assert_eq!(snake.body.len(), 2);
    }
}

#[test]
fn respawn_without_eaten_food_is_noop() {
    let snake = create_snake();
    let mut food = create_food();
    random_new_food(&mut food, &snake);
    assert_eq!(food.position, (7, 8));
    assert!(!food.eated);
}

#[test]
fn respawn_avoids_snake_repeatedly() {
    let snake = create_snake();
    for _ in 0..200 {
        let mut food = Food { position: (2, 2), eated: true };
        random_new_food(&mut food, &snake);
        assert!(!food.eated);
        let p = food.position;
        assert!(1 <= p.0 && p.0 < HEIGHT - 1);
        assert!(1 <= p.1 && p.1 < WIDTH - 1);
        assert!(p != snake.head);
        assert!(!snake.body.contains(&p));
    }
}

#[test]
fn border_survives_overlays_and_moves() {
    let mut map = create_map();
    let mut snake = create_snake();
    let mut food = create_food();
    add_snake_to_map(&snake, &mut map);
    add_food_to_map(&food, &mut map);
    border_all_wall(&map);
    move_snake(&mut snake, Direction::Down, &mut food, &mut map);
    border_all_wall(&map);
    move_snake(&mut snake, Direction::Right, &mut food, &mut map);
    border_all_wall(&map);
}

#[test]
fn snake_overlay_paints_head_and_body() {
    let mut map = create_map();
    let snake = create_snake();
    add_snake_to_map(&snake, &mut map);
    assert_eq!(map.get_cell(5, 6), HEAD);
    assert_eq!(map.get_cell(4, 6), BODY);
    assert_eq!(map.get_cell(3, 6), BODY);
    assert_eq!(map.get_cell(6, 6), EMPTY);
}

#[test]
fn food_overlay_paints_only_uneaten_food() {
    let mut map = create_map();
    let eaten = Food { position: (7, 8), eated: true };
    add_food_to_map(&eaten, &mut map);
    assert_eq!(map.get_cell(7, 8), EMPTY);
    let fresh = create_food();
    add_food_to_map(&fresh, &mut map);
    assert_eq!(map.get_cell(7, 8), FOOD);
}

#[test]
fn collision_checks() {
    let snake = create_snake();
    let on_head = Food { position: (5, 6), eated: false };
    let on_body = Food { position: (3, 6), eated: false };
    let free = Food { position: (7, 8), eated: false };
    assert!(is_food_collide_with_snake(&on_head, &snake));
    assert!(is_food_collide_with_snake(&on_body, &snake));
    assert!(!is_food_collide_with_snake(&free, &snake));
    assert!(position_on_snake((4, 6), &snake));
    assert!(!position_on_snake((4, 7), &snake));
}

#[test]
fn contains_pos_basics() {
    let v: Vec<(usize, usize)> = vec![(1, 2), (3, 4)];
    assert!(contains_pos(&v, (1, 2)));
    assert!(contains_pos(&v, (3, 4)));
    assert!(!contains_pos(&v, (2, 1)));
    let empty: Vec<(usize, usize)> = Vec::new();
    assert!(!contains_pos(&empty, (1, 2)));
}

#[test]
fn alive_iff_head_off_body() {
    let alive = Snake { head: (5, 6), body: vec![(4, 6), (3, 6)], speed: 300 };
    assert!(is_game_over(&alive));
    let dead = Snake { head: (4, 6), body: vec![(4, 6), (3, 6)], speed: 300 };
    assert!(!is_game_over(&dead));
    let headless = Snake { head: (4, 6), body: Vec::new(), speed: 300 };
    assert!(is_game_over(&headless));
}

#[test]
fn key_resolution() {
    assert_eq!(resolve_direction(Some('w'), Direction::Right), Direction::Up);
    assert_eq!(resolve_direction(Some('s'), Direction::Right), Direction::Down);
    assert_eq!(resolve_direction(Some('a'), Direction::Right), Direction::Left);
    assert_eq!(resolve_direction(Some('d'), Direction::Up), Direction::Right);
    assert_eq!(resolve_direction(Some('x'), Direction::Left), Direction::Left);
    assert_eq!(resolve_direction(None, Direction::Down), Direction::Down);
}

#[test]
fn control_resolves_then_moves() {
    let mut map = create_map();
    let mut snake = create_snake();
    let mut food = create_food();
    let d = control_snake(&mut snake, Direction::Right, Some('s'), &mut food, &mut map);
    assert_eq!(d, Direction::Down);
    assert_eq!(snake.head, (6, 6));
    assert_eq!(snake.body, vec![(5, 6), (4, 6)]);
}

#[test]
fn can_move_at_edges() {
    let top = Snake { head: (0, 6), body: vec![(1, 6)], speed: 300 };
    assert!(!can_move(&top, Direction::Up));
    assert!(can_move(&top, Direction::Down));
    let left = Snake { head: (5, 0), body: vec![(5, 1)], speed: 300 };
    assert!(!can_move(&left, Direction::Left));
    assert!(can_move(&left, Direction::Right));
    let bottom = Snake { head: (HEIGHT - 1, 6), body: vec![(HEIGHT - 2, 6)], speed: 300 };
    assert!(!can_move(&bottom, Direction::Down));
    assert!(can_move(&bottom, Direction::Up));
    let right = Snake { head: (5, WIDTH - 1), body: vec![(5, WIDTH - 2)], speed: 300 };
    assert!(!can_move(&right, Direction::Right));
    assert!(can_move(&right, Direction::Left));
    let mid = create_snake();
    assert!(can_move(&mid, Direction::Up));
    assert!(can_move(&mid, Direction::Down));
    assert!(can_move(&mid, Direction::Left));
    assert!(can_move(&mid, Direction::Right));
}

#[test]
fn set_and_get_cell() {
    let mut map = create_map();
    map.set_cell((3, 4), FOOD);
    assert_eq!(map.get_cell(3, 4), FOOD);
    assert_eq!(map.get_cell(3, 5), EMPTY);
    map.set_cell((3, 4), EMPTY);
    assert_eq!(map.get_cell(3, 4), EMPTY);
}

#[test]
fn rendered_frame_shape() {
    let map = create_map();
    let out = render_map(&map);
    assert_eq!(out.len(), HEIGHT * (WIDTH + 1));
    for j in 0..WIDTH {
        assert_eq!(out[j], WALL);
    }
    assert_eq!(out[WIDTH], '\n');
    assert_eq!(out[(WIDTH + 1) + 1], EMPTY);
    for i in 0..HEIGHT {
        assert_eq!(out[i * (WIDTH + 1) + WIDTH], '\n');
        assert_eq!(out[i * (WIDTH + 1)], WALL);
        assert_eq!(out[i * (WIDTH + 1) + WIDTH - 1], WALL);
    }
}

#[test]
fn rendered_frame_shows_overlays() {
    let mut map = create_map();
    let snake = create_snake();
    let food = create_food();
    add_snake_to_map(&snake, &mut map);
    add_food_to_map(&food, &mut map);
    let out = render_map(&map);
    assert_eq!(out[5 * (WIDTH + 1) + 6], HEAD);
    assert_eq!(out[4 * (WIDTH + 1) + 6], BODY);
    assert_eq!(out[7 * (WIDTH + 1) + 8], FOOD);
}
