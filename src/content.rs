use vstd::prelude::*;

verus! {

/// One image offered for a catalog entry, with its pixel size.
#[derive(Debug)]
pub struct Thumbnail {
    pub width: u64,
    pub height: u64,
    pub url: String,
}

/// A named artist or author; `id` is present when the catalog links to them.
#[derive(Debug)]
pub struct Author {
    pub name: String,
    pub id: Option<String>,
}

/// The album that a song belongs to. An empty `id` means the album has no page.
#[derive(Debug)]
pub struct AlbumRef {
    pub id: String,
    pub name: String,
}

/// An album, with its artists and release year.
#[derive(Debug)]
pub struct AlbumContent {
    pub album_id: String,
    pub title: String,
    pub artists: Vec<Author>,
    pub year: Option<String>,
    pub thumbnails: Vec<Thumbnail>,
}

/// A user or editorial playlist.
#[derive(Debug)]
pub struct PlaylistContent {
    pub playlist_id: String,
    pub title: String,
    pub author: Vec<Author>,
    pub description: Option<String>,
    pub count: Option<String>,
    pub thumbnails: Vec<Thumbnail>,
}

/// A generated mix that plays as a whole.
#[derive(Debug)]
pub struct WatchPlaylistContent {
    pub playlist_id: String,
    pub title: String,
    pub thumbnails: Vec<Thumbnail>,
}

/// An artist channel.
#[derive(Debug)]
pub struct ArtistContent {
    pub channel_id: String,
    pub title: String,
    pub subscribers: Option<String>,
    pub thumbnails: Vec<Thumbnail>,
}

/// A single song, possibly from an album.
#[derive(Debug)]
pub struct SongContent {
    pub video_id: String,
    pub title: String,
    pub artists: Vec<Author>,
    pub album: Option<AlbumRef>,
    pub thumbnails: Vec<Thumbnail>,
}

/// A music video.
#[derive(Debug)]
pub struct VideoContent {
    pub video_id: String,
    pub title: String,
    pub artists: Vec<Author>,
    pub thumbnails: Vec<Thumbnail>,
}

/// One entry of a home feed section, in the shape the catalog delivers it.
#[derive(Debug)]
pub enum HomeContent {
    Album(AlbumContent),
    Playlist(PlaylistContent),
    WatchPlaylist(WatchPlaylistContent),
    Artist(ArtistContent),
    Song(SongContent),
    Video(VideoContent),
}

impl Author {
    /// A copy of this author.
    pub fn duplicate(&self) -> (r: Author)
        ensures
            r == *self,
    {
        Author {
            name: self.name.clone(),
            id: option_copy(&self.id),
        }
    }
}

/// A copy of a list of authors, in the same order.
pub fn copy_authors(v: &Vec<Author>) -> (r: Vec<Author>)
    ensures
        r@ == v@,
{
    let mut r: Vec<Author> = Vec::new();
    let mut i: usize = 0;
    while i < v.len()
        invariant
            i <= v@.len(),
            r@ == v@.subrange(0, i as int),
        decreases v@.len() - i,
    {
        r.push(v[i].duplicate());
        i = i + 1;
    }
    assert(r@ =~= v@);
    r
}

pub(crate) fn option_copy(o: &Option<String>) -> (r: Option<String>)
    ensures
        r == *o,
{
    match o {
        Some(s) => Some(s.clone()),
        None => None,
    }
}

/// The pixel area of a thumbnail.
pub open spec fn area(t: Thumbnail) -> int {
    t.width as int * t.height as int
}

/// `i` is the first index whose thumbnail has the largest area of the list.
pub open spec fn is_first_max(s: Seq<Thumbnail>, i: int) -> bool {
    &&& 0 <= i < s.len()
    &&& forall|j: int| 0 <= j < s.len() ==> area(#[trigger] s[j]) <= area(s[i])
    &&& forall|j: int| 0 <= j < i ==> area(#[trigger] s[j]) < area(s[i])
}

/// The url of the first thumbnail of largest area; empty when there is none.
pub open spec fn best_thumbnail_url(s: Seq<Thumbnail>) -> Seq<char> {
    if s.len() == 0 {
        Seq::empty()
    } else {
        s[choose|i: int| is_first_max(s, i)].url@
    }
}

/// At most one index of a list is the first of largest area, so the choice of
/// thumbnail is determined by the list alone.
pub proof fn lemma_first_max_unique(s: Seq<Thumbnail>, i: int, j: int)
    requires
        is_first_max(s, i),
        is_first_max(s, j),
    ensures
        i == j,
{
    if i < j {
        assert(area(s[i]) < area(s[j]));
    } else if j < i {
        assert(area(s[j]) < area(s[i]));
    }
}

/// The chosen thumbnail stays the same when thumbnails no larger than it are
/// appended after it: ties go to the earliest entry.
pub proof fn lemma_best_thumbnail_stable(s: Seq<Thumbnail>, t: Seq<Thumbnail>, i: int)
    requires
        is_first_max(s, i),
        forall|j: int| 0 <= j < t.len() ==> area(#[trigger] t[j]) <= area(s[i]),
    ensures
        is_first_max(s + t, i),
        best_thumbnail_url(s + t) == best_thumbnail_url(s),
{
    let u = s + t;
    assert forall|j: int| 0 <= j < u.len() implies area(#[trigger] u[j]) <= area(u[i]) by {
        if j >= s.len() {
            assert(u[j] == t[j - s.len()]);
        }
    }
    assert forall|j: int| 0 <= j < i implies area(#[trigger] u[j]) < area(u[i]) by {
        assert(u[j] == s[j]);
    }
    assert(is_first_max(u, i));
    let k = choose|k: int| is_first_max(u, k);
    lemma_first_max_unique(u, i, k);
    let m = choose|m: int| is_first_max(s, m);
    lemma_first_max_unique(s, i, m);
}

fn thumbnail_area(t: &Thumbnail) -> (a: u128)
    ensures
        a == area(*t),
{
    let w = t.width;
    let h = t.height;
    assert(w as int * h as int <= u64::MAX as int * u64::MAX as int) by (nonlinear_arith)
        requires
            w <= u64::MAX,
            h <= u64::MAX,
    ;
    w as u128 * h as u128
}

/// Picks the first thumbnail of largest area and returns its url, or an
/// empty string when the list is empty.
pub fn get_best_thumbnail(thumbnails: &Vec<Thumbnail>) -> (r: String)
    ensures
        r@ == best_thumbnail_url(thumbnails@),
{
    if thumbnails.len() == 0 {
        return String::new();
    }
    let mut best: usize = 0;
    let mut best_area = thumbnail_area(&thumbnails[0]);
    let mut k: usize = 1;
    while k < thumbnails.len()
        invariant
            1 <= k <= thumbnails@.len(),
            best < k,
            best_area == area(thumbnails@[best as int]),
            forall|j: int| 0 <= j < k ==> area(#[trigger] thumbnails@[j]) <= best_area,
            forall|j: int| 0 <= j < best ==> area(#[trigger] thumbnails@[j]) < best_area,
        decreases thumbnails@.len() - k,
    {
        let a = thumbnail_area(&thumbnails[k]);
        if a > best_area {
            best = k;
            best_area = a;
        }
        k = k + 1;
    }
    proof {
        let s = thumbnails@;
        assert(is_first_max(s, best as int));
        let c = choose|i: int| is_first_max(s, i);
        lemma_first_max_unique(s, best as int, c);
    }
    thumbnails[best].url.clone()
}

} // verus!
