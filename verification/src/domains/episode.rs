pub mod graphql;
pub mod model;
pub mod service;
