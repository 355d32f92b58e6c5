use movie_db::yify::movie_list_url;

#[test]
fn listing_url_asks_for_preferred_quality() {
    assert_eq!(
        movie_list_url(),
        Some(String::from("https://yts.mx/api/v2/list_movies.json?quality=1080p"))
    );
}
