//! Entity-interaction core of a small 2D side-scrolling game: a finite game
//! state machine, fixed-point movement integration, paired-obstacle collision
//! detection, and a cooldown/resource-gated combat skill pipeline.
//!
//! All scalar quantities (positions, velocities, durations, vitals) are
//! fixed-point integers with three decimal places: a stored value of `1000`
//! means `1.0` world units (or seconds). This keeps every computation exact.

mod body;
mod collision;
mod dispatch;
mod obstacles;
mod physics;
mod rng;
mod setup;
mod skills;
mod state;
mod toolkit;
mod vitals;

pub use body::Body;
pub use body::Rot;
pub use dispatch::CastOutcome;
pub use dispatch::Caster;
pub use dispatch::find_id;
pub use dispatch::use_tool;
pub use collision::collides;
pub use collision::first_collision;
pub use obstacles::Obstacle;
pub use obstacles::PairRole;
pub use obstacles::PairVariant;
pub use obstacles::place_pairs;
pub use obstacles::setup_obstacles;
pub use obstacles::side_scroll;
pub use obstacles::spawn_pair;
pub use obstacles::spawn_pair_bodies;
pub use physics::Avatar;
pub use physics::Walk;
pub use physics::avatar_system;
pub use physics::avatar_tick;
pub use physics::move_player;
pub use setup::HeroSetup;
pub use setup::setup_level;
pub use setup::spawn_avatar;
pub use skills::CombatSkill;
pub use skills::Cooldown;
pub use skills::FireBlastSpell;
pub use skills::FireBolt;
pub use skills::SkillEffect;
pub use skills::cooldown_system;
pub use state::GameState;
pub use state::StateEvent;
pub use state::StateFault;
pub use state::runs_gameplay;
pub use state::step;
pub use toolkit::KeyInput;
pub use toolkit::ToolKit;
pub use toolkit::TryTool;
pub use toolkit::player_change_kit;
pub use toolkit::player_use_kit;
pub use vitals::Cost;
pub use vitals::Vitals;
