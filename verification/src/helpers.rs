pub mod name_provider;
pub mod provider_num;
pub mod reqwests;
pub mod play_manager;
pub mod selection;
