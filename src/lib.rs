//! Client bindings for two REST services: endpoint builders that resolve paths and query
//! strings, a pager that walks continuation links, and the checks that sort a response into a
//! value or a failure.

pub mod encode;
pub mod url;
pub mod time;
pub mod client;
pub mod gists;
pub mod users;
pub mod pager;
pub mod response;
pub mod link;
