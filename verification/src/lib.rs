//! The decisions of the RakuOS first-login welcome wizard: its page table, its
//! navigation, the state of a running setup script and what each front end shows.
pub mod pages;
pub mod launch;
pub mod setup_run;
pub mod backend;
pub mod wizard;
pub mod stack_wizard;
