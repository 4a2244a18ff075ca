pub mod dynamodb;
pub mod graphql;
pub mod index;
pub mod model;
pub mod search;
pub mod state;
