use music_feed::{
    get_best_thumbnail, normalize, AlbumContent, AlbumRef, ArtistContent, Author, HomeContent,
    PlaylistContent, SongContent, SongInfo, TextAlign, TextFragment, TextInfo, TextInfoType,
    Thumbnail, VideoContent, WatchPlaylistContent,
};

fn thumb(width: u64, height: u64, url: &str) -> Thumbnail {
    Thumbnail { width, height, url: url.to_string() }
}

fn author(name: &str, id: Option<&str>) -> Author {
    Author { name: name.to_string(), id: id.map(|s| s.to_string()) }
}

fn names(list: &[&str]) -> Vec<Author> {
    list.iter().map(|n| author(n, None)).collect()
}

fn joined(fragments: &[TextFragment]) -> String {
    fragments.iter().map(|f| f.text.as_str()).collect()
}

fn flags(item: &SongInfo) -> (bool, bool, bool) {
    (item.is_album, item.is_artist, item.is_video)
}

fn plain_text(t: &TextInfo) -> Option<(&str, TextAlign)> {
    match &t.ty {
        TextInfoType::Plain(s) => Some((s.as_str(), t.align)),
        _ => None,
    }
}

fn song(artists: Vec<Author>, album: Option<AlbumRef>) -> HomeContent {
    HomeContent::Song(SongContent {
        video_id: "v1".to_string(),
        title: "Track".to_string(),
        artists,
        album,
        thumbnails: vec![],
    })
}

fn all_kinds() -> Vec<HomeContent> {
    vec![
        HomeContent::Album(AlbumContent {
            album_id: "al".to_string(),
            title: "An album".to_string(),
            artists: names(&["A"]),
            year: Some("2020".to_string()),
            thumbnails: vec![],
        }),
        HomeContent::Playlist(PlaylistContent {
            playlist_id: "pl".to_string(),
            title: "A playlist".to_string(),
            author: vec![],
            description: None,
            count: None,
            thumbnails: vec![],
        }),
        HomeContent::WatchPlaylist(WatchPlaylistContent {
            playlist_id: "wp".to_string(),
            title: "Mix".to_string(),
            thumbnails: vec![],
        }),
        HomeContent::Artist(ArtistContent {
            channel_id: "ch".to_string(),
            title: "Someone".to_string(),
            subscribers: None,
            thumbnails: vec![],
        }),
        song(vec![], None),
        HomeContent::Video(VideoContent {
            video_id: "vid".to_string(),
            title: "Clip".to_string(),
            artists: vec![],
            thumbnails: vec![],
        }),
    ]
}

#[test]
fn flags_follow_the_kind_of_entry() {
    let expected = [
        (true, false, false),
        (false, false, false),
        (true, false, false),
        (false, true, false),
        (false, false, false),
        (false, false, true),
    ];
    for (content, want) in all_kinds().iter().zip(expected.iter()) {
        let item = normalize(content);
        assert_eq!(flags(&item), *want);
        assert!(!(item.is_album && item.is_artist));
        assert!(!item.is_video || (!item.is_album && !item.is_artist));
    }
}

#[test]
fn ids_and_titles_are_copied() {
    let ids = ["al", "pl", "wp", "ch", "v1", "vid"];
    let titles = ["An album", "A playlist", "Mix", "Someone", "Track", "Clip"];
    for (i, content) in all_kinds().iter().enumerate() {
        let item = normalize(content);
        assert_eq!(item.id, ids[i]);
        assert_eq!(item.title, titles[i]);
    }
}

#[test]
fn first_largest_thumbnail_wins() {
    let thumbs = vec![thumb(100, 100, "a"), thumb(200, 200, "b"), thumb(200, 200, "c")];
    assert_eq!(get_best_thumbnail(&thumbs), "b");
    assert_eq!(get_best_thumbnail(&thumbs), "b");
}

#[test]
fn thumbnail_of_empty_list_is_empty() {
    assert_eq!(get_best_thumbnail(&vec![]), "");
}

#[test]
fn thumbnail_compares_areas_not_sides() {
    let thumbs = vec![thumb(1000, 1, "wide"), thumb(40, 30, "small"), thumb(10, 10, "tiny")];
    assert_eq!(get_best_thumbnail(&thumbs), "small");
    let huge = vec![thumb(u64::MAX, 2, "x"), thumb(u64::MAX, u64::MAX, "y")];
    assert_eq!(get_best_thumbnail(&huge), "y");
}

#[test]
fn normalized_entry_uses_best_thumbnail() {
    let content = HomeContent::WatchPlaylist(WatchPlaylistContent {
        playlist_id: "wp".to_string(),
        title: "Mix".to_string(),
        thumbnails: vec![thumb(60, 60, "small"), thumb(544, 544, "large")],
    });
    assert_eq!(normalize(&content).thumbnail, "large");
}

#[test]
fn no_authors_give_an_empty_line() {
    let item = normalize(&song(vec![], None));
    assert!(matches!(item.left.ty, TextInfoType::Empty));
    assert!(item.left.get_inline_elements().is_empty());
}

#[test]
fn one_author_has_no_separator() {
    let item = normalize(&song(names(&["A"]), None));
    assert_eq!(joined(&item.left.get_inline_elements()), "A");
}

#[test]
fn two_authors_are_joined_with_y() {
    let item = normalize(&song(names(&["A", "B"]), None));
    assert_eq!(joined(&item.left.get_inline_elements()), "A y B");
}

#[test]
fn three_authors_use_commas_then_y() {
    let item = normalize(&song(names(&["A", "B", "C"]), None));
    assert_eq!(joined(&item.left.get_inline_elements()), "A, B y C");
}

#[test]
fn linked_authors_carry_their_ids() {
    let text = TextInfo::authors(vec![author("A", Some("id-a")), author("B", None)]);
    let fragments = text.get_inline_elements();
    assert_eq!(
        fragments,
        vec![
            TextFragment { text: "A".to_string(), target: Some("id-a".to_string()) },
            TextFragment { text: " y ".to_string(), target: None },
            TextFragment { text: "B".to_string(), target: None },
        ]
    );
}

#[test]
fn album_without_id_is_plain() {
    let album = AlbumRef { id: String::new(), name: "X".to_string() };
    let item = normalize(&song(names(&["A"]), Some(album)));
    let details = item.details.expect("details");
    assert!(matches!(&details.ty, TextInfoType::Plain(s) if s == "X"));
}

#[test]
fn album_with_id_is_clickable() {
    let album = AlbumRef { id: "Z1".to_string(), name: "X".to_string() };
    let item = normalize(&song(names(&["A"]), Some(album)));
    let details = item.details.expect("details");
    assert!(matches!(&details.ty, TextInfoType::Clickable { text, id } if text == "X" && id == "Z1"));
    assert_eq!(
        details.get_inline_elements(),
        vec![TextFragment { text: "X".to_string(), target: Some("Z1".to_string()) }]
    );
}

#[test]
fn song_without_album_has_no_details() {
    assert!(normalize(&song(names(&["A"]), None)).details.is_none());
}

#[test]
fn album_shows_artists_and_year() {
    let item = normalize(&all_kinds()[0]);
    assert_eq!(joined(&item.left.get_inline_elements()), "A");
    assert_eq!(plain_text(item.details.as_ref().unwrap()), Some(("2020", TextAlign::Start)));
}

#[test]
fn album_without_artists_or_year() {
    let content = HomeContent::Album(AlbumContent {
        album_id: "al".to_string(),
        title: "t".to_string(),
        artists: vec![],
        year: None,
        thumbnails: vec![],
    });
    let item = normalize(&content);
    assert!(matches!(item.left.ty, TextInfoType::Empty));
    assert!(item.details.is_none());
}

fn playlist(description: Option<&str>, count: Option<&str>) -> HomeContent {
    HomeContent::Playlist(PlaylistContent {
        playlist_id: "pl".to_string(),
        title: "P".to_string(),
        author: names(&["DJ"]),
        description: description.map(|s| s.to_string()),
        count: count.map(|s| s.to_string()),
        thumbnails: vec![],
    })
}

#[test]
fn playlist_description_wins_over_count() {
    let item = normalize(&playlist(Some("Fresh hits"), Some("12")));
    assert_eq!(plain_text(item.details.as_ref().unwrap()), Some(("Fresh hits", TextAlign::Start)));
}

#[test]
fn playlist_count_is_a_fallback() {
    let item = normalize(&playlist(None, Some("12")));
    assert_eq!(plain_text(item.details.as_ref().unwrap()), Some(("12 songs", TextAlign::Start)));
    assert!(normalize(&playlist(None, None)).details.is_none());
}

#[test]
fn watch_playlist_is_labelled() {
    let item = normalize(&all_kinds()[2]);
    assert_eq!(plain_text(&item.left), Some(("Playlist", TextAlign::Start)));
    assert!(item.details.is_none());
}

#[test]
fn artist_shows_subscribers_centered() {
    let content = HomeContent::Artist(ArtistContent {
        channel_id: "ch".to_string(),
        title: "Someone".to_string(),
        subscribers: Some("1,2 M".to_string()),
        thumbnails: vec![],
    });
    let item = normalize(&content);
    assert!(matches!(item.left.ty, TextInfoType::Empty));
    assert_eq!(
        plain_text(item.details.as_ref().unwrap()),
        Some(("1,2 M de suscriptores", TextAlign::Center))
    );
    assert_eq!(item.info_align(), TextAlign::Center);
    assert_eq!(joined(&item.info_fragments()), "1,2 M de suscriptores");
}

#[test]
fn info_line_separates_both_parts() {
    let album = AlbumRef { id: "Z1".to_string(), name: "X".to_string() };
    let item = normalize(&song(names(&["A", "B"]), Some(album)));
    assert_eq!(item.info_align(), TextAlign::Left);
    let fragments = item.info_fragments();
    assert_eq!(joined(&fragments), "A y B \u{2022} X");
    assert_eq!(fragments.last().unwrap().target, Some("Z1".to_string()));
}

#[test]
fn info_line_without_details_has_no_separator() {
    let item = normalize(&song(names(&["A"]), None));
    assert_eq!(joined(&item.info_fragments()), "A");
    let album = AlbumRef { id: String::new(), name: "X".to_string() };
    let item = normalize(&song(vec![], Some(album)));
    assert_eq!(joined(&item.info_fragments()), "X");
}

#[test]
fn text_constructors() {
    assert!(matches!(TextInfo::none().ty, TextInfoType::Empty));
    assert_eq!(plain_text(&TextInfo::plain("p".to_string(), None)), Some(("p", TextAlign::Start)));
    assert_eq!(
        plain_text(&TextInfo::plain("p".to_string(), Some(TextAlign::Center))),
        Some(("p", TextAlign::Center))
    );
    assert_eq!(plain_text(&TextInfo::default()), Some(("", TextAlign::Left)));
    assert!(TextInfo::none().get_inline_elements().is_empty());
    assert_eq!(
        TextInfo::plain("p".to_string(), None).get_inline_elements(),
        vec![TextFragment { text: "p".to_string(), target: None }]
    );
}
