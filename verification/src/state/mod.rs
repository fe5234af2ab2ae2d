pub mod admin;
pub mod attendance;
pub mod config;
pub mod monthly_counter;
pub mod schedule;
pub mod trainer;
pub mod workout_instance;

pub use admin::Admin;
pub use attendance::Attendance;
pub use config::Config;
pub use monthly_counter::MonthlyCounter;
pub use schedule::{DaySlot, Schedule};
pub use trainer::{Trainer, TrainerView};
pub use workout_instance::{WorkoutInstance, WorkoutInstanceView};
