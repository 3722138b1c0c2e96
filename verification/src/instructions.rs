pub mod add_tip;
pub mod initialize_tipper;
pub mod withdraw;
