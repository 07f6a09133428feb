//! Core of a terminal snake game: a bounded grid with a wall ring, a growing
//! snake, randomly respawning food, and the per-tick update rules.

pub mod food;
pub mod grid;
pub mod snake;

pub use food::add_food_to_map;
pub use food::create_food;
pub use food::is_food_collide_with_snake;
pub use food::food_in_bounds;
pub use food::position_on_snake;
pub use food::random_new_food;
pub use food::Food;
pub use grid::create_map;
pub use grid::render_map;
pub use grid::Grid;
pub use grid::EMPTY;
pub use grid::FOOD;
pub use grid::HEAD;
pub use grid::HEIGHT;
pub use grid::WALL;
pub use grid::WIDTH;
pub use grid::BODY;
pub use snake::add_snake_to_map;
pub use snake::can_move;
pub use snake::contains_pos;
pub use snake::control_snake;
pub use snake::create_snake;
pub use snake::is_game_over;
pub use snake::move_snake;
pub use snake::resolve_direction;
pub use snake::snake_in_bounds;
pub use snake::Direction;
pub use snake::Snake;
