//! Fetch-and-cache core of a music browser: paginated, cached retrieval of
//! music, playlist and channel listings from a pool of interchangeable servers.

pub mod outcome;
pub mod decimal;
pub mod duration;
pub mod units;
pub mod window;
pub mod pool;
pub mod paths;
pub mod cache;
pub mod search;
pub mod fetcher;
pub mod ui;

pub use crate::cache::{Step, StepView};
pub use crate::duration::{from_string, to_string};
pub use crate::fetcher::{Fetcher, FetcherView};
pub use crate::outcome::ReturnAction;
pub use crate::paths::{Category, Listing};
pub use crate::pool::{Reply, ServerPool, REQUEST_PER_SERVER};
pub use crate::units::{ArtistUnit, MusicUnit, PlaylistUnit};
pub use crate::window::ITEM_PER_PAGE;
