//! The listing of movies that the catalogue follows: where it is fetched
//! from and the values it holds.
use vstd::prelude::*;

verus! {

/// The endpoint that lists the movies.
pub const MOVIE_LIST_ENDPOINT: &'static str = "https://yts.mx/api/v2/list_movies.json";

/// The query parameter that selects the quality of the listed torrents.
pub const QUALITY_PARAMETER: &'static str = "quality";

/// The quality that the catalogue asks for.
pub const PREFERRED_QUALITY: &'static str = "1080p";

/// One torrent of a listed movie.
#[derive(Debug, Clone)]
pub struct Torrents {
    pub url: String,
    pub hash: String,
    pub quality: String,
}

/// One listed movie. Its rating, a floating-point number, is carried beside
/// this value by the code that reads the listing.
#[derive(Debug, Clone)]
pub struct Movies {
    pub id: i32,
    pub url: String,
    pub imdb_code: String,
    pub title: String,
    pub year: i32,
    pub genres: Vec<String>,
    pub description_full: String,
    pub yt_trailer_code: String,
    pub medium_cover_image: String,
    pub torrents: Vec<Torrents>,
}

/// The payload of a listing.
#[derive(Debug, Clone)]
pub struct Data {
    pub movie_count: i32,
    pub movies: Vec<Movies>,
}

/// A whole listing response.
#[derive(Debug, Clone)]
pub struct Yify {
    pub status: String,
    pub data: Data,
}

/// The text of the URL that `reqwest::Url::parse_with_params` makes of `base`
/// with the single query pair (`key`, `value`), or `None` where `base` does
/// not parse as a URL.
pub uninterp spec fn url_with_query_pair(base: Seq<char>, key: Seq<char>, value: Seq<char>) -> Option<Seq<char>>;

/// Calls `reqwest::Url::parse_with_params` with one query pair and gives the
/// serialized URL back as text. Trusted: the result is the named value
/// `url_with_query_pair` of the three texts, and `None` exactly where the
/// parse fails; what that URL is, the contract leaves to the url crate.
#[verifier::external_body]
fn parse_url_with_pair(base: &str, key: &str, value: &str) -> (url: Option<String>)
    ensures
        match url {
            Some(text) => url_with_query_pair(base@, key@, value@) == Some(text@),
            None => url_with_query_pair(base@, key@, value@) is None,
        },
{
    match reqwest::Url::parse_with_params(base, &[(key, value)]) {
        Ok(parsed) => Some(parsed.as_str().to_string()),
        Err(_) => None,
    }
}

/// The URL of the listing of movies in the preferred quality.
pub fn movie_list_url() -> (url: Option<String>)
    ensures
        match url {
            Some(text) => url_with_query_pair(MOVIE_LIST_ENDPOINT@, QUALITY_PARAMETER@, PREFERRED_QUALITY@)
                == Some(text@),
            None => url_with_query_pair(MOVIE_LIST_ENDPOINT@, QUALITY_PARAMETER@, PREFERRED_QUALITY@) is None,
        },
{
    parse_url_with_pair(MOVIE_LIST_ENDPOINT, QUALITY_PARAMETER, PREFERRED_QUALITY)
}

} // verus!
