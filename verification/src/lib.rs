//! Verified core of a local-first video aggregation player: request
//! normalisation for the Douban browsing pages, source selection and
//! playback bookkeeping, home-page assembly and cache policies.

pub mod text;
pub mod clock;
pub mod sorting;
pub mod numtext;
pub mod douban;
pub mod douban_fetch;
pub mod douban_page;
pub mod video;
pub mod player_open;
pub mod bangumi;
pub mod home;
pub mod remote;
pub mod subject;
pub mod subject_page;
pub mod recommendation;
pub mod page_cache;
pub mod image_cache;
pub mod picture;
pub mod shell;
