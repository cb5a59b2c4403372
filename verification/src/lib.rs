pub mod laws;
pub mod record;
pub mod store;

pub use record::Info;
pub use store::UserInfo;
