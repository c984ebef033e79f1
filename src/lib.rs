pub mod bind;
pub mod columnar_api;
pub mod limits;
pub mod request;
pub mod resolve;
pub mod laws;
