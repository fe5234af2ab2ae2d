pub mod add_admin;
pub mod claim_nft;
pub mod close_workout_instance;
pub mod initialize_config;
pub mod open_workout_instance;
pub mod register_trainer;
pub mod remove_admin;
pub mod set_schedule;

pub use add_admin::{add_admin, AddAdmin, AddAdminBumps};
pub use claim_nft::{claim_nft, claim_with_digest, ClaimNft, ClaimNftBumps};
pub use close_workout_instance::{close_workout_instance, CloseWorkoutInstance};
pub use initialize_config::{initialize_config, InitializeConfig, InitializeConfigBumps};
pub use open_workout_instance::{
    open_workout_instance, opened_instance, opening_rejection, uri_text, OpenWorkoutInstance,
    OpenWorkoutInstanceBumps,
};
pub use register_trainer::{register_trainer, RegisterTrainer, RegisterTrainerBumps};
pub use remove_admin::{remove_admin, RemoveAdmin};
pub use set_schedule::{set_schedule, SetSchedule, SetScheduleBumps};
