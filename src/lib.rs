//! A single-administrator microblog: staging of uploaded images, publishing of
//! posts, the cursor-paged feed and the session guard of every mutating request.
pub mod text;
pub mod config;
pub mod drafts;
pub mod images;
pub mod clock;
pub mod feed;
pub mod session;
pub mod routes;
pub mod routes_api;
