pub mod channel;
pub mod commit;
pub mod oid;
pub mod reference;
pub mod repository;
pub mod schema;
pub mod store;

pub use commit::Commit;
pub use commit::File;
pub use oid::SqlOid;
pub use reference::Reference;
pub use repository::Repository;
