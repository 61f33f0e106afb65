//! Content normalization and section navigation for a music catalog home feed.
//!
//! Catalog entries of six kinds are mapped to one renderable form
//! ([`SongInfo`]), whose text lines ([`TextInfo`]) split into runs that a
//! renderer lays out. Each feed section keeps its horizontal scroll state in a
//! [`SectionNavigator`].
pub mod content;
pub mod data;
pub mod section;
pub mod song;
pub mod textinfo;

pub use content::{
    get_best_thumbnail, AlbumContent, AlbumRef, ArtistContent, Author, HomeContent,
    PlaylistContent, SongContent, Thumbnail, VideoContent, WatchPlaylistContent,
};
pub use data::DataChannel;
pub use section::{ScrollAxis, Section, SectionNavigator, SCROLL_STEP_PX, VISIBLE_ITEMS};
pub use song::{normalize, SongInfo};
pub use textinfo::{TextAlign, TextFragment, TextInfo, TextInfoType};
