pub mod app;
pub mod data_bind;
pub mod page;
pub mod save_load;
pub mod settings;
pub mod storage;
