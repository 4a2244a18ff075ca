pub use crate::searchapp::dynamodb::posts_from_items;
pub use crate::searchapp::model::Post;
