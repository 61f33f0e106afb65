use vstd::prelude::*;

use crate::content::{best_thumbnail_url, copy_authors, get_best_thumbnail, Author, HomeContent};
use crate::textinfo::{
    fragments_of, fragments_view, is_authors, is_clickable, is_none, is_plain, plain_span,
    FragmentView, TextAlign, TextFragment, TextInfo,
};

verus! {

/// The renderable form of one catalog entry.
#[derive(Debug)]
pub struct SongInfo {
    /// The entry's catalog id, used when the entry is activated.
    pub id: String,
    pub title: String,
    /// The primary line: the kind of entry or its authors.
    pub left: TextInfo,
    /// The secondary line: year, description, counts, or the song's album.
    pub details: Option<TextInfo>,
    /// Activating the entry plays the whole collection.
    pub is_album: bool,
    /// The entry is an artist: no play control, round picture, centered text.
    pub is_artist: bool,
    /// The entry is a video and is shown wider.
    pub is_video: bool,
    /// The url of the best thumbnail, or empty.
    pub thumbnail: String,
}

/// The flags `(is_album, is_artist, is_video)` that each kind of entry gets.
pub open spec fn kind_flags(c: HomeContent) -> (bool, bool, bool) {
    match c {
        HomeContent::Album(_) => (true, false, false),
        HomeContent::Playlist(_) => (false, false, false),
        HomeContent::WatchPlaylist(_) => (true, false, false),
        HomeContent::Artist(_) => (false, true, false),
        HomeContent::Song(_) => (false, false, false),
        HomeContent::Video(_) => (false, false, true),
    }
}

pub open spec fn flags_of(r: SongInfo) -> (bool, bool, bool) {
    (r.is_album, r.is_artist, r.is_video)
}

/// The primary line of an entry with these authors: the authors, or nothing.
pub open spec fn authors_line(t: TextInfo, a: Seq<Author>) -> bool {
    if a.len() > 0 {
        is_authors(t, a)
    } else {
        is_none(t)
    }
}

/// A plain secondary line holding `s` when it is present, and none otherwise.
pub open spec fn plain_details(d: Option<TextInfo>, s: Option<String>, align: TextAlign) -> bool {
    match s {
        Some(x) => d matches Some(t) && is_plain(t, x@, align),
        None => d is None,
    }
}

/// The secondary line of a playlist: its description, else its song count.
pub open spec fn playlist_details(
    d: Option<TextInfo>,
    description: Option<String>,
    count: Option<String>,
) -> bool {
    match description {
        Some(x) => d matches Some(t) && is_plain(t, x@, TextAlign::Start),
        None => match count {
            Some(c) => d matches Some(t) && is_plain(t, c@ + " songs"@, TextAlign::Start),
            None => d is None,
        },
    }
}

/// The secondary line of an artist: the subscriber count, centered.
pub open spec fn artist_details(d: Option<TextInfo>, subscribers: Option<String>) -> bool {
    match subscribers {
        Some(s) => d matches Some(t) && is_plain(
            t,
            s@ + " de suscriptores"@,
            TextAlign::Center,
        ),
        None => d is None,
    }
}

/// The secondary line of a song: its album, clickable when the album has an id.
pub open spec fn song_details(d: Option<TextInfo>, album: Option<crate::content::AlbumRef>) -> bool {
    match album {
        Some(a) => d matches Some(t) && if a.id@.len() > 0 {
            is_clickable(t, a.name@, a.id@)
        } else {
            is_plain(t, a.name@, TextAlign::Start)
        },
        None => d is None,
    }
}

/// `r` is the renderable form of `c`.
pub open spec fn normalizes_to(c: HomeContent, r: SongInfo) -> bool {
    &&& flags_of(r) == kind_flags(c)
    &&& match c {
        HomeContent::Album(v) => {
            &&& r.id@ == v.album_id@
            &&& r.title@ == v.title@
            &&& authors_line(r.left, v.artists@)
            &&& plain_details(r.details, v.year, TextAlign::Start)
            &&& r.thumbnail@ == best_thumbnail_url(v.thumbnails@)
        },
        HomeContent::Playlist(v) => {
            &&& r.id@ == v.playlist_id@
            &&& r.title@ == v.title@
            &&& authors_line(r.left, v.author@)
            &&& playlist_details(r.details, v.description, v.count)
            &&& r.thumbnail@ == best_thumbnail_url(v.thumbnails@)
        },
        HomeContent::WatchPlaylist(v) => {
            &&& r.id@ == v.playlist_id@
            &&& r.title@ == v.title@
            &&& is_plain(r.left, "Playlist"@, TextAlign::Start)
            &&& r.details is None
            &&& r.thumbnail@ == best_thumbnail_url(v.thumbnails@)
        },
        HomeContent::Artist(v) => {
            &&& r.id@ == v.channel_id@
            &&& r.title@ == v.title@
            &&& is_none(r.left)
            &&& artist_details(r.details, v.subscribers)
            &&& r.thumbnail@ == best_thumbnail_url(v.thumbnails@)
        },
        HomeContent::Song(v) => {
            &&& r.id@ == v.video_id@
            &&& r.title@ == v.title@
            &&& authors_line(r.left, v.artists@)
            &&& song_details(r.details, v.album)
            &&& r.thumbnail@ == best_thumbnail_url(v.thumbnails@)
        },
        HomeContent::Video(v) => {
            &&& r.id@ == v.video_id@
            &&& r.title@ == v.title@
            &&& authors_line(r.left, v.artists@)
            &&& r.details is None
            &&& r.thumbnail@ == best_thumbnail_url(v.thumbnails@)
        },
    }
}

/// Every normalized entry has exactly one shape: a collection, an artist, or a
/// single track; only a single track can be a video.
pub proof fn lemma_normalized_shape(c: HomeContent, r: SongInfo)
    requires
        normalizes_to(c, r),
    ensures
        flags_of(r) == kind_flags(c),
        !(r.is_album && r.is_artist),
        r.is_video ==> !r.is_album && !r.is_artist,
        c is Album || c is WatchPlaylist <==> r.is_album,
        c is Artist <==> r.is_artist,
        c is Video <==> r.is_video,
{
}

/// The runs of an entry's secondary line, if it has one.
pub open spec fn details_fragments(r: SongInfo) -> Seq<FragmentView> {
    match r.details {
        Some(d) => fragments_of(d),
        None => Seq::empty(),
    }
}

/// The combined line shown under an entry's title: for an artist its
/// secondary line alone; otherwise the primary line then the secondary one,
/// with " \u{2022} " between them when both hold runs.
pub open spec fn info_line(r: SongInfo) -> Seq<FragmentView> {
    let d = details_fragments(r);
    if r.is_artist {
        d
    } else {
        let l = fragments_of(r.left);
        if l.len() > 0 && d.len() > 0 {
            l + seq![plain_span(" \u{2022} "@)] + d
        } else {
            l + d
        }
    }
}

impl SongInfo {
    /// The runs of the line shown under the title, in reading order.
    pub fn info_fragments(&self) -> (r: Vec<TextFragment>)
        ensures
            fragments_view(r@) == info_line(*self),
    {
        let mut d = match &self.details {
            Some(t) => t.get_inline_elements(),
            None => Vec::new(),
        };
        assert(fragments_view(d@) =~= details_fragments(*self));
        if self.is_artist {
            return d;
        }
        let mut l = self.left.get_inline_elements();
        let ghost lv = l@;
        let ghost dv = d@;
        if l.len() > 0 && d.len() > 0 {
            l.push(TextFragment { text: String::from_str(" \u{2022} "), target: None });
        }
        let ghost mid = l@;
        l.append(&mut d);
        assert(l@ == mid + dv);
        proof {
            if lv.len() > 0 && dv.len() > 0 {
                assert(fragments_view(l@) =~= fragments_view(lv) + seq![plain_span(" \u{2022} "@)]
                    + fragments_view(dv));
            } else {
                assert(fragments_view(l@) =~= fragments_view(lv) + fragments_view(dv));
            }
        }
        l
    }

    /// The alignment of the line shown under the title: centered for an artist.
    pub fn info_align(&self) -> (r: TextAlign)
        ensures
            r == (if self.is_artist { TextAlign::Center } else { TextAlign::Left }),
    {
        if self.is_artist {
            TextAlign::Center
        } else {
            TextAlign::Left
        }
    }
}

fn authors_text(a: &Vec<Author>) -> (r: TextInfo)
    ensures
        authors_line(r, a@),
{
    if a.len() > 0 {
        TextInfo::authors(copy_authors(a))
    } else {
        TextInfo::none()
    }
}

fn with_suffix(s: &String, suffix: &str) -> (r: String)
    ensures
        r@ == s@ + suffix@,
{
    let mut r = s.clone();
    r.append(suffix);
    r
}

/// Maps one catalog entry to its renderable form. Every kind of entry maps;
/// missing optional data leaves the matching line empty or absent.
pub fn normalize(content: &HomeContent) -> (r: SongInfo)
    ensures
        normalizes_to(*content, r),
{
    match content {
        HomeContent::Album(v) => SongInfo {
            id: v.album_id.clone(),
            title: v.title.clone(),
            left: authors_text(&v.artists),
            details: match &v.year {
                Some(y) => Some(TextInfo::plain(y.clone(), None)),
                None => None,
            },
            is_album: true,
            is_artist: false,
            is_video: false,
            thumbnail: get_best_thumbnail(&v.thumbnails),
        },
        HomeContent::Playlist(v) => {
            let details = match &v.description {
                Some(d) => Some(TextInfo::plain(d.clone(), None)),
                None => match &v.count {
                    Some(c) => Some(TextInfo::plain(with_suffix(c, " songs"), None)),
                    None => None,
                },
            };
            SongInfo {
                id: v.playlist_id.clone(),
                title: v.title.clone(),
                left: authors_text(&v.author),
                details,
                is_album: false,
                is_artist: false,
                is_video: false,
                thumbnail: get_best_thumbnail(&v.thumbnails),
            }
        },
        HomeContent::WatchPlaylist(v) => SongInfo {
            id: v.playlist_id.clone(),
            title: v.title.clone(),
            left: TextInfo::plain(String::from_str("Playlist"), None),
            details: None,
            is_album: true,
            is_artist: false,
            is_video: false,
            thumbnail: get_best_thumbnail(&v.thumbnails),
        },
        HomeContent::Artist(v) => SongInfo {
            id: v.channel_id.clone(),
            title: v.title.clone(),
            left: TextInfo::none(),
            details: match &v.subscribers {
                Some(s) => Some(
                    TextInfo::plain(with_suffix(s, " de suscriptores"), Some(TextAlign::Center)),
                ),
                None => None,
            },
            is_album: false,
            is_artist: true,
            is_video: false,
            thumbnail: get_best_thumbnail(&v.thumbnails),
        },
        HomeContent::Song(v) => {
            let details = match &v.album {
                Some(album) => if !album.id.as_str().is_empty() {
                    Some(TextInfo::clickable(album.id.clone(), album.name.clone()))
                } else {
                    Some(TextInfo::plain(album.name.clone(), None))
                },
                None => None,
            };
            SongInfo {
                id: v.video_id.clone(),
                title: v.title.clone(),
                left: authors_text(&v.artists),
                details,
                is_album: false,
                is_artist: false,
                is_video: false,
                thumbnail: get_best_thumbnail(&v.thumbnails),
            }
        },
        HomeContent::Video(v) => SongInfo {
            id: v.video_id.clone(),
            title: v.title.clone(),
            left: authors_text(&v.artists),
            details: None,
            is_album: false,
            is_artist: false,
            is_video: true,
            thumbnail: get_best_thumbnail(&v.thumbnails),
        },
    }
}

} // verus!
