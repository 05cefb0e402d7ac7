pub mod clock;
pub mod export;
pub mod fetchers;
pub mod models;
pub mod order;
pub mod paths;
pub mod storage;
pub mod text;
pub mod theme;
pub mod ui;
