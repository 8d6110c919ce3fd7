//! The configuration surface the engine consumes: one value constructed at
//! process start and passed into each component, never an ambient global.

use vstd::prelude::*;

verus! {

/// Process configuration. The engine itself reads only the per-crawl-type
/// worker counts; the connection and path fields are handed through to the
/// external collaborators.
pub struct GlobalConfig {
    pub mongo_url: String,
    pub database: String,
    pub collection: String,
    pub proxy: String,
    pub pixiv_cookie: String,
    pub search_config_path: String,
    pub search_thread_num: u32,
    pub user_detail_thread_num: u32,
    pub update_artwork_thread_num: u32,
}

} // verus!
