pub mod grid_calc;
pub mod load;
pub mod load_confirm_discard;
pub mod save_as;
pub mod save_overwrite_confirm;
