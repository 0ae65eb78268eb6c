pub mod bet;
pub mod horses;
pub mod run;
pub mod statics;
pub mod users;
