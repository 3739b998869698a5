use fetcher::{
    ArtistUnit, Category, Fetcher, MusicUnit, PlaylistUnit, Reply, ReturnAction, Step,
};

const SERVER: &str = "https://ytprivate.com/api/v1/";

fn get_fetcher_for_test() -> Fetcher {
    Fetcher::new(vec![String::from(SERVER)])
}

fn fetcher_of(n: usize) -> Fetcher {
    Fetcher::new((0..n).map(|i| format!("https://s{}.example", i)).collect())
}

fn music(tag: &str, n: u64) -> Vec<MusicUnit> {
    (0..n)
        .map(|i| {
            MusicUnit::new(format!("{}-id-{}", tag, i), format!("{} {}", tag, i), tag.to_string(), 60 + i)
        })
        .collect()
}

fn playlists(tag: &str, n: u64) -> Vec<PlaylistUnit> {
    (0..n)
        .map(|i| PlaylistUnit {
            id: format!("{}-pl-{}", tag, i),
            name: format!("{} list {}", tag, i),
            author: tag.to_string(),
            video_count: i,
        })
        .collect()
}

fn artists(tag: &str, n: u64) -> Vec<ArtistUnit> {
    (0..n)
        .map(|i| ArtistUnit { id: format!("{}-ch-{}", tag, i), name: format!("{} {}", tag, i), video_count: i })
        .collect()
}

fn address<T>(step: Step<T>) -> String {
    match step {
        Step::Fetch(address) => address,
        Step::Done(_) => panic!("the step is over where a fetch was expected"),
    }
}

fn page<T>(step: Step<T>) -> Result<Vec<T>, ReturnAction> {
    match step {
        Step::Done(page) => page,
        Step::Fetch(address) => panic!("a fetch of {} where a page was expected", address),
    }
}

#[test]
fn test_trending_extractor() {
    let mut fetcher = get_fetcher_for_test();
    assert_eq!(
        address(fetcher.get_trending_music(0, None)),
        "https://ytprivate.com/api/v1//trending?type=Music&region=NP&fields=videoId,title,author,lengthSeconds"
    );
    let listing = music("trend", 23);
    let mut page_no = 0;
    let mut reply = Some(Reply::Body(listing.clone()));
    let mut seen: Vec<MusicUnit> = Vec::new();
    while let Ok(data) = page(fetcher.get_trending_music(page_no, reply.take())) {
        println!("--------- Trending [{}] ----------", page_no);
        println!("{:#?}", data);
        seen.extend(data);
        page_no += 1;
    }
    assert_eq!(page_no, 3);
    assert_eq!(seen, listing);
    assert_eq!(fetcher.request_sent(), 1);
}

#[test]
fn check_format() {
    let sample_response = r#"{
                                    "title": "Some song title",
                                    "videoId": "WNgO6G7uERU",
                                    "author": "CHHEWANG",
                                    "lengthSeconds": 271
                                }"#;
    let raw: serde_json::Value = serde_json::from_str(sample_response).unwrap();
    let obj = MusicUnit::new(
        raw["videoId"].as_str().unwrap().to_string(),
        raw["title"].as_str().unwrap().to_string(),
        raw["author"].as_str().unwrap().to_string(),
        raw["lengthSeconds"].as_u64().unwrap(),
    );
    assert_eq!(
        obj,
        MusicUnit {
            artist: "CHHEWANG".to_string(),
            name: "Some song title".to_string(),
            duration: "4:31".to_string(),
            id: "WNgO6G7uERU".to_string(),
        },
    );
}

#[test]
fn check_music_search() {
    let mut fetcher = get_fetcher_for_test();
    let obj = fetcher.search_music("Bartika Eam Rai", 0, None);
    assert_eq!(
        address(obj),
        "https://ytprivate.com/api/v1//search?q=Bartika Eam Rai&type=music&region=NP&page=0&fields=videoId,title,author,lengthSeconds"
    );
    let found = music("Bartika", 10);
    let obj = page(fetcher.search_music("Bartika Eam Rai", 0, Some(Reply::Body(found.clone()))));
    println!("{:#?}", obj);
    assert_eq!(obj, Ok(found));
}

#[test]
fn check_playlist_search() {
    let mut fetcher = get_fetcher_for_test();
    let obj = fetcher.search_playlist("Spotify Chill mix", 0, None);
    assert_eq!(
        address(obj),
        "https://ytprivate.com/api/v1//search?q=Spotify Chill mix&type=playlist&region=NP&page=0&fields=title,playlistId,author,videoCount"
    );
    let found = playlists("chill", 4);
    let obj = page(fetcher.search_playlist("Spotify Chill mix", 0, Some(Reply::Body(found.clone()))));
    println!("{:#?}", obj);
    assert_eq!(obj, Ok(found));
}

#[test]
fn check_artist_search() {
    let mut fetcher = get_fetcher_for_test();
    let obj = fetcher.search_artist("Rachana Dahal", 0, None);
    assert_eq!(
        address(obj),
        "https://ytprivate.com/api/v1//search?q=Rachana Dahal&type=channel&region=NP&page=0&fields=author,authorId,videoCount"
    );
    let obj = page(fetcher.search_artist("Rachana Dahal", 0, Some(Reply::Body(artists("rd", 0)))));
    println!("{:#?}", obj);
    assert_eq!(obj, Err(ReturnAction::EOR));
}

#[test]
fn check_playlist_content() {
    let mut fetcher = get_fetcher_for_test();
    let obj = fetcher.get_playlist_content("PLN4UKncphTTE0cIHYDQy534mSToKtFlhA", 0, None);
    assert_eq!(
        address(obj),
        "https://ytprivate.com/api/v1//playlists/PLN4UKncphTTE0cIHYDQy534mSToKtFlhA?fields=videos"
    );
    let videos = music("pl", 12);
    let obj = page(fetcher.get_playlist_content(
        "PLN4UKncphTTE0cIHYDQy534mSToKtFlhA",
        0,
        Some(Reply::Body(videos.clone())),
    ));
    println!("{:#?}", obj);
    assert_eq!(obj, Ok(videos[0..10].to_vec()));
    let obj = page(fetcher.get_playlist_content("PLN4UKncphTTE0cIHYDQy534mSToKtFlhA", 1, None));
    assert_eq!(obj, Ok(videos[10..12].to_vec()));
}

#[test]
fn check_artist_content_music() {
    let mut fetcher = get_fetcher_for_test();
    for channel_id in ["UCJEog_sDzuGyLok8f4p0HRA", "UCIwFjwMjI0y7PDBVEO9-bkQ"] {
        let obj = fetcher.get_videos_of_channel(channel_id, 0, None);
        assert_eq!(
            address(obj),
            format!("https://ytprivate.com/api/v1//channels/{}/videos", channel_id)
        );
        let videos = music(channel_id, 3);
        let obj = page(fetcher.get_videos_of_channel(channel_id, 0, Some(Reply::Body(videos.clone()))));
        println!("{:#?}", obj);
        assert_eq!(obj, Ok(videos));
    }
}

#[test]
fn check_artist_content_playlist() {
    let mut fetcher = get_fetcher_for_test();
    let obj = fetcher.get_playlist_of_channel("UCJEog_sDzuGyLok8f4p0HRA", 0, None);
    assert_eq!(
        address(obj),
        "https://ytprivate.com/api/v1//channels/UCJEog_sDzuGyLok8f4p0HRA/playlists?fields=playlists"
    );
    let found = playlists("UCJEog", 11);
    let obj = page(fetcher.get_playlist_of_channel(
        "UCJEog_sDzuGyLok8f4p0HRA",
        1,
        Some(Reply::Body(found.clone())),
    ));
    println!("{:#?}", obj);
    assert_eq!(obj, Ok(found[10..11].to_vec()));
}

#[test]
fn a_new_fetcher_is_empty() {
    let fetcher = fetcher_of(3);
    assert_eq!(fetcher.active_server_index(), 0);
    assert_eq!(fetcher.request_sent(), 0);
}

#[test]
fn fetcher_change_server_goes_round() {
    let mut fetcher = fetcher_of(2);
    fetcher.change_server();
    assert_eq!(fetcher.active_server_index(), 1);
    assert_eq!(
        address(fetcher.get_videos_of_channel("c", 0, None)),
        "https://s1.example/channels/c/videos"
    );
    fetcher.change_server();
    assert_eq!(fetcher.active_server_index(), 0);
}

#[test]
fn trending_is_fetched_once() {
    let mut fetcher = fetcher_of(2);
    let listing = music("t", 15);
    assert_eq!(
        page(fetcher.get_trending_music(1, Some(Reply::Body(listing.clone())))),
        Ok(listing[10..15].to_vec())
    );
    assert_eq!(page(fetcher.get_trending_music(0, None)), Ok(listing[0..10].to_vec()));
    assert_eq!(page(fetcher.get_trending_music(2, None)), Err(ReturnAction::EOR));
    assert_eq!(
        page(fetcher.get_trending_music(0, Some(Reply::Body(music("other", 3))))),
        Ok(listing[0..10].to_vec())
    );
    assert_eq!(fetcher.request_sent(), 1);
}

#[test]
fn trending_failure_leaves_it_absent() {
    let mut fetcher = fetcher_of(2);
    assert_eq!(page(fetcher.get_trending_music(0, Some(Reply::Malformed))), Err(ReturnAction::Failed));
    assert_eq!(fetcher.active_server_index(), 0);
    assert_eq!(page(fetcher.get_trending_music(0, Some(Reply::Unreachable))), Err(ReturnAction::Retry));
    assert_eq!(fetcher.active_server_index(), 1);
    assert_eq!(
        address(fetcher.get_trending_music(0, None)),
        "https://s1.example/trending?type=Music&region=NP&fields=videoId,title,author,lengthSeconds"
    );
    assert_eq!(fetcher.request_sent(), 2);
}

#[test]
fn an_empty_trending_listing_is_kept() {
    let mut fetcher = fetcher_of(1);
    assert_eq!(page(fetcher.get_trending_music(0, Some(Reply::Body(Vec::new())))), Err(ReturnAction::EOR));
    assert_eq!(page(fetcher.get_trending_music(0, None)), Err(ReturnAction::EOR));
}

#[test]
fn channel_videos_are_replaced_by_another_channel() {
    let mut fetcher = fetcher_of(1);
    let of_x = music("X", 12);
    let of_y = music("Y", 4);
    assert_eq!(
        page(fetcher.get_videos_of_channel("X", 0, Some(Reply::Body(of_x.clone())))),
        Ok(of_x[0..10].to_vec())
    );
    assert_eq!(page(fetcher.get_videos_of_channel("X", 1, None)), Ok(of_x[10..12].to_vec()));
    assert_eq!(
        address(fetcher.get_videos_of_channel("Y", 0, None)),
        "https://s0.example/channels/Y/videos"
    );
    assert_eq!(
        page(fetcher.get_videos_of_channel("Y", 0, Some(Reply::Body(of_y.clone())))),
        Ok(of_y.clone())
    );
    assert_eq!(page(fetcher.get_videos_of_channel("Y", 1, None)), Err(ReturnAction::EOR));
    assert_eq!(
        address(fetcher.get_videos_of_channel("X", 0, None)),
        "https://s0.example/channels/X/videos"
    );
    assert_eq!(fetcher.request_sent(), 2);
}

#[test]
fn a_failed_listing_leaves_the_cache() {
    let mut fetcher = fetcher_of(2);
    let of_x = playlists("X", 3);
    assert_eq!(
        page(fetcher.get_playlist_of_channel("X", 0, Some(Reply::Body(of_x.clone())))),
        Ok(of_x.clone())
    );
    assert_eq!(
        page(fetcher.get_playlist_of_channel("Y", 0, Some(Reply::Malformed))),
        Err(ReturnAction::Failed)
    );
    assert_eq!(page(fetcher.get_playlist_of_channel("X", 0, None)), Ok(of_x.clone()));
    assert_eq!(
        page(fetcher.get_playlist_of_channel("Y", 0, Some(Reply::Unreachable))),
        Err(ReturnAction::Retry)
    );
    assert_eq!(page(fetcher.get_playlist_of_channel("X", 0, None)), Ok(of_x));
    assert_eq!(
        address(fetcher.get_playlist_of_channel("Y", 0, None)),
        "https://s1.example/channels/Y/playlists?fields=playlists"
    );
}

#[test]
fn an_empty_listing_is_fetched_again() {
    let mut fetcher = fetcher_of(1);
    assert_eq!(
        page(fetcher.get_playlist_content("P", 0, Some(Reply::Body(Vec::new())))),
        Err(ReturnAction::EOR)
    );
    assert_eq!(
        address(fetcher.get_playlist_content("P", 0, None)),
        "https://s0.example/playlists/P?fields=videos"
    );
}

#[test]
fn the_three_listings_are_kept_apart() {
    let mut fetcher = fetcher_of(1);
    let content = music("content", 2);
    let videos = music("videos", 3);
    let lists = playlists("lists", 4);
    assert_eq!(page(fetcher.get_playlist_content("K", 0, Some(Reply::Body(content.clone())))), Ok(content.clone()));
    assert_eq!(page(fetcher.get_videos_of_channel("K", 0, Some(Reply::Body(videos.clone())))), Ok(videos.clone()));
    assert_eq!(page(fetcher.get_playlist_of_channel("K", 0, Some(Reply::Body(lists.clone())))), Ok(lists.clone()));
    assert_eq!(page(fetcher.get_playlist_content("K", 0, None)), Ok(content));
    assert_eq!(page(fetcher.get_videos_of_channel("K", 0, None)), Ok(videos));
    assert_eq!(page(fetcher.get_playlist_of_channel("K", 0, None)), Ok(lists));
}

#[test]
fn search_end_to_end() {
    let mut fetcher = fetcher_of(1);
    assert_eq!(
        address(fetcher.search_music("chill", 0, None)),
        "https://s0.example/search?q=chill&type=music&region=NP&page=0&fields=videoId,title,author,lengthSeconds"
    );
    let found = music("chill", 10);
    assert_eq!(page(fetcher.search_music("chill", 0, Some(Reply::Body(found.clone())))), Ok(found.clone()));
    assert_eq!(page(fetcher.search_music("chill", 0, None)), Ok(found));
    assert_eq!(
        address(fetcher.search_music("chill", 1, None)),
        "https://s0.example/search?q=chill&type=music&region=NP&page=1&fields=videoId,title,author,lengthSeconds"
    );
    assert_eq!(
        page(fetcher.search_music("chill", 1, Some(Reply::Body(Vec::new())))),
        Err(ReturnAction::EOR)
    );
    assert_eq!(fetcher.request_sent(), 2);
}

#[test]
fn search_pages_are_added_at_the_end() {
    let mut fetcher = fetcher_of(1);
    let first = music("one", 10);
    let second = music("two", 7);
    assert_eq!(page(fetcher.search_music("q", 0, Some(Reply::Body(first.clone())))), Ok(first.clone()));
    assert_eq!(page(fetcher.search_music("q", 1, Some(Reply::Body(second.clone())))), Ok(second.clone()));
    assert_eq!(page(fetcher.search_music("q", 0, None)), Ok(first));
    let more = music("three", 2);
    let mut third = second[0..7].to_vec();
    third.extend(more.clone());
    assert_eq!(page(fetcher.search_music("q", 1, Some(Reply::Body(more)))), Ok(third));
}

#[test]
fn a_new_query_clears_and_refills() {
    let mut fetcher = fetcher_of(1);
    let of_a = music("A", 10);
    let of_b = music("B", 10);
    assert_eq!(page(fetcher.search_music("A", 0, Some(Reply::Body(of_a.clone())))), Ok(of_a.clone()));
    assert_eq!(
        address(fetcher.search_music("B", 0, None)),
        "https://s0.example/search?q=B&type=music&region=NP&page=0&fields=videoId,title,author,lengthSeconds"
    );
    let got = page(fetcher.search_music("B", 0, Some(Reply::Body(of_b.clone())))).unwrap();
    assert_eq!(got, of_b);
    for unit in &got {
        assert!(!of_a.contains(unit));
    }
    assert_eq!(
        address(fetcher.search_music("A", 0, None)),
        "https://s0.example/search?q=A&type=music&region=NP&page=0&fields=videoId,title,author,lengthSeconds"
    );
}

#[test]
fn a_category_switch_keeps_the_other_stores() {
    let mut fetcher = fetcher_of(1);
    let of_music = music("A", 10);
    let of_lists = playlists("A", 10);
    assert_eq!(page(fetcher.search_music("A", 0, Some(Reply::Body(of_music.clone())))), Ok(of_music.clone()));
    assert_eq!(
        address(fetcher.search_playlist("A", 0, None)),
        "https://s0.example/search?q=A&type=playlist&region=NP&page=0&fields=title,playlistId,author,videoCount"
    );
    assert_eq!(page(fetcher.search_playlist("A", 0, Some(Reply::Body(of_lists.clone())))), Ok(of_lists));
    assert_eq!(fetcher.search_cached(Category::Music), 10);
    assert_eq!(fetcher.search_cached(Category::Playlist), 10);
    assert_eq!(fetcher.search_cached(Category::Artist), 0);
    assert_eq!(page(fetcher.search_artist("A", 3, Some(Reply::Malformed))), Err(ReturnAction::Failed));
    assert_eq!(page(fetcher.search_artist("other", 0, Some(Reply::Body(artists("o", 2))))).map(|v| v.len()), Ok(2));
    assert_eq!(fetcher.search_cached(Category::Music), 10);
    assert_eq!(fetcher.search_cached(Category::Playlist), 10);
    assert_eq!(fetcher.search_cached(Category::Artist), 2);
    // Coming back to the music asks for a fetch, and asking clears nothing.
    assert_eq!(
        address(fetcher.search_music("A", 0, None)),
        "https://s0.example/search?q=A&type=music&region=NP&page=0&fields=videoId,title,author,lengthSeconds"
    );
    assert_eq!(fetcher.search_cached(Category::Music), 10);
    let again = music("A again", 3);
    assert_eq!(page(fetcher.search_music("A", 0, Some(Reply::Body(again.clone())))), Ok(again));
    assert_eq!(fetcher.search_cached(Category::Music), 3);
}

#[test]
fn a_failed_search_after_a_switch_shows_nothing_stale() {
    let mut fetcher = fetcher_of(2);
    let of_a = music("A", 10);
    assert_eq!(page(fetcher.search_music("A", 0, Some(Reply::Body(of_a.clone())))), Ok(of_a));
    assert_eq!(
        page(fetcher.search_playlist("B", 0, Some(Reply::Body(playlists("B", 10))))).map(|v| v.len()),
        Ok(10)
    );
    assert_eq!(fetcher.search_cached(Category::Music), 10);
    assert_eq!(page(fetcher.search_music("B", 0, Some(Reply::Unreachable))), Err(ReturnAction::Retry));
    assert_eq!(fetcher.search_cached(Category::Music), 0);
    assert_eq!(fetcher.active_server_index(), 1);
    assert_eq!(
        address(fetcher.search_music("B", 0, None)),
        "https://s1.example/search?q=B&type=music&region=NP&page=0&fields=videoId,title,author,lengthSeconds"
    );
    assert_eq!(
        page(fetcher.search_music("B", 0, Some(Reply::Body(Vec::new())))),
        Err(ReturnAction::EOR)
    );
}

#[test]
fn a_failed_search_keeps_what_the_query_had() {
    let mut fetcher = fetcher_of(1);
    let first = music("q", 10);
    assert_eq!(page(fetcher.search_music("q", 0, Some(Reply::Body(first.clone())))), Ok(first.clone()));
    assert_eq!(page(fetcher.search_music("q", 1, Some(Reply::Malformed))), Err(ReturnAction::Failed));
    assert_eq!(fetcher.search_cached(Category::Music), 10);
    assert_eq!(page(fetcher.search_music("q", 0, None)), Ok(first));
}

#[test]
fn a_search_page_far_out_asks_for_that_page() {
    let mut fetcher = fetcher_of(1);
    assert_eq!(
        address(fetcher.search_artist("far", usize::MAX, None)),
        format!(
            "https://s0.example/search?q=far&type=channel&region=NP&page={}&fields=author,authorId,videoCount",
            usize::MAX
        )
    );
    assert_eq!(
        page(fetcher.search_artist("far", usize::MAX, Some(Reply::Body(artists("far", 10))))),
        Err(ReturnAction::EOR)
    );
}

#[test]
fn the_fetcher_rotates_after_eleven_requests() {
    let mut fetcher = fetcher_of(3);
    for i in 0..11u64 {
        assert_eq!(fetcher.active_server_index(), 0);
        let query = format!("q{}", i);
        let _ = fetcher.search_music(&query, 0, Some(Reply::Body(music("m", 1))));
    }
    assert_eq!(fetcher.request_sent(), 11);
    assert_eq!(fetcher.active_server_index(), 1);
}

#[test]
fn a_cache_hit_counts_no_request() {
    let mut fetcher = fetcher_of(3);
    let of_x = music("X", 10);
    let _ = fetcher.get_videos_of_channel("X", 0, Some(Reply::Body(of_x)));
    for _ in 0..20 {
        let _ = fetcher.get_videos_of_channel("X", 0, Some(Reply::Unreachable));
        let _ = fetcher.get_videos_of_channel("X", 0, None);
    }
    assert_eq!(fetcher.request_sent(), 1);
    assert_eq!(fetcher.active_server_index(), 0);
}

#[test]
fn asking_for_a_fetch_changes_nothing() {
    let mut fetcher = fetcher_of(2);
    for _ in 0..3 {
        assert_eq!(
            address(fetcher.search_playlist("q", 2, None)),
            "https://s0.example/search?q=q&type=playlist&region=NP&page=2&fields=title,playlistId,author,videoCount"
        );
    }
    assert_eq!(fetcher.request_sent(), 0);
    assert_eq!(fetcher.active_server_index(), 0);
}
