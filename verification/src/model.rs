//! The catalog's data: games, their tags, and the envelopes the remote
//! service wraps its answers in.
//!
//! Every optional field may be absent, because the remote source is filled
//! in unevenly. An absent field stays absent: nothing here turns it into an
//! empty text or a zero.

use vstd::prelude::*;

verus! {

/// The picture of a game, as addresses of the same image at several sizes.
#[derive(Debug, PartialEq)]
pub struct GameImage {
    pub original_url: Option<String>,
    pub super_url: Option<String>,
    pub screen_url: Option<String>,
    pub screen_large_url: Option<String>,
    pub medium_url: Option<String>,
    pub small_url: Option<String>,
    pub thumb_url: Option<String>,
    pub icon_url: Option<String>,
    pub tiny_url: Option<String>,
}

/// A cross-referenced tag of a game: a platform, concept, developer,
/// character or theme.
#[derive(Debug, PartialEq)]
pub struct Characteristic {
    pub api_detail_url: String,
    pub id: i32,
    pub name: String,
    pub site_detail_url: String,
    pub abbreviation: Option<String>,
}

/// A game of the catalog.
#[derive(Debug, PartialEq)]
pub struct Game {
    pub id: i32,
    pub guid: String,
    pub image: Option<GameImage>,
    pub name: String,
    pub deck: Option<String>,
    pub description: Option<String>,
    pub original_release_date: Option<String>,
    pub site_detail_url: Option<String>,
    pub expected_release_day: Option<i32>,
    pub expected_release_month: Option<i32>,
    pub expected_release_year: Option<i32>,
    pub expected_release_quarter: Option<i32>,
    pub platforms: Option<Vec<Characteristic>>,
    pub concepts: Option<Vec<Characteristic>>,
    pub developers: Option<Vec<Characteristic>>,
    pub characters: Option<Vec<Characteristic>>,
    pub themes: Option<Vec<Characteristic>>,
}

impl Game {
    /// Whether the game carries nothing but its identifier, its guid and its
    /// name: every optional field is absent.
    pub open spec fn is_minimal(&self) -> bool {
        &&& self.image is None
        &&& self.deck is None
        &&& self.description is None
        &&& self.original_release_date is None
        &&& self.site_detail_url is None
        &&& self.expected_release_day is None
        &&& self.expected_release_month is None
        &&& self.expected_release_year is None
        &&& self.expected_release_quarter is None
        &&& self.platforms is None
        &&& self.concepts is None
        &&& self.developers is None
        &&& self.characters is None
        &&& self.themes is None
    }

    /// A game with the given identity and every optional field absent.
    pub fn minimal(id: i32, guid: String, name: String) -> (game: Game)
        ensures
            game.id == id,
            game.guid == guid,
            game.name == name,
            game.is_minimal(),
    {
        Game {
            id,
            guid,
            image: None,
            name,
            deck: None,
            description: None,
            original_release_date: None,
            site_detail_url: None,
            expected_release_day: None,
            expected_release_month: None,
            expected_release_year: None,
            expected_release_quarter: None,
            platforms: None,
            concepts: None,
            developers: None,
            characters: None,
            themes: None,
        }
    }
}

impl Default for Game {
    /// The game with identifier zero, empty guid and name, and every
    /// optional field absent.
    fn default() -> (game: Game)
        ensures
            game.id == 0,
            game.guid@ == Seq::<char>::empty(),
            game.name@ == Seq::<char>::empty(),
            game.is_minimal(),
    {
        Game::minimal(0, String::new(), String::new())
    }
}

/// The projection of a game that a list query is asked for: only the
/// address at which the game's details can be fetched.
#[derive(Debug, PartialEq)]
pub struct DetailUrl {
    pub api_detail_url: String,
}

/// The envelope of a list query.
#[derive(Debug, PartialEq)]
pub struct GiantBombResponse {
    pub error: String,
    pub version: String,
    pub limit: i32,
    pub offset: i32,
    pub number_of_page_results: i64,
    pub number_of_total_results: i64,
    pub status_code: i32,
    pub results: Vec<DetailUrl>,
}

/// The envelope of a detail query.
#[derive(Debug, PartialEq)]
pub struct GiantBombGameResponse {
    pub error: String,
    pub version: String,
    pub limit: i32,
    pub offset: i32,
    pub number_of_page_results: i64,
    pub number_of_total_results: i64,
    pub status_code: i32,
    pub results: Game,
}

/// The envelope of a search query.
#[derive(Debug, PartialEq)]
pub struct GiantBombSearchResponse {
    pub error: String,
    pub version: String,
    pub limit: i32,
    pub offset: i32,
    pub number_of_page_results: i64,
    pub number_of_total_results: i64,
    pub status_code: i32,
    pub results: Vec<Game>,
}

impl GiantBombResponse {
    /// The address of the first record, or the empty text where the list
    /// holds none.
    pub open spec fn first_uri(&self) -> Seq<char> {
        if self.results@.len() > 0 {
            self.results@[0].api_detail_url@
        } else {
            Seq::empty()
        }
    }

    /// The size of the whole catalog, as this answer reports it.
    pub fn total(&self) -> (n: i64)
        ensures
            n == self.number_of_total_results,
    {
        self.number_of_total_results
    }

    /// The address at which the details of the listed game can be fetched.
    /// An empty list gives the empty text: the catalog may have shrunk
    /// since it was counted, and a fetch at the empty address fails by
    /// itself.
    pub fn detail_uri(&self) -> (uri: String)
        ensures
            uri@ == self.first_uri(),
    {
        if self.results.len() > 0 {
            self.results[0].api_detail_url.clone()
        } else {
            String::new()
        }
    }
}

} // verus!
