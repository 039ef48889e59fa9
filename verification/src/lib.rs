pub mod collision;
pub mod entities;
pub mod game;
pub mod motion;
mod rng;

pub use entities::Board;
pub use entities::DrawCmd;
pub use entities::EnemySpaceShip;
pub use entities::GameResult;
pub use entities::Player;
pub use game::FrameOutput;
pub use game::Game;
pub use game::InputKey;
