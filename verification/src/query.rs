//! The addresses of the three calls that the catalog answers: a list of
//! games, the details of one game, and a search by name.

use crate::escape::{
    law_query_keeps_the_text, percent_decoded, push_query_encoded, query_encoded, query_safe,
};
use crate::text::{decimal, joined, push_decimal, push_joined, views};
use vstd::prelude::*;
use vstd::string::*;
use vstd::utf8::decode_utf8;

verus! {

/// Where the catalog lives.
pub const CATALOG: &'static str = "https://www.giantbomb.com";

/// How many games a search asks for.
pub const SEARCH_LIMIT: i64 = 5;

/// The fields asked for of a game, in the order in which they are named in
/// a query. The long free-text description is left out: it can make an
/// answer many times larger than all the rest.
pub open spec fn field_names() -> Seq<&'static str> {
    seq![
        "name",
        "site_detail_url",
        "themes",
        "platforms",
        "original_release_date",
        "image",
        "id",
        "guid",
        "expected_release_year",
        "expected_release_quarter",
        "expected_release_month",
        "expected_release_day",
        "developers",
        "deck",
        "concepts",
        "characters",
    ]
}

/// The field names in one text, separated by commas.
pub open spec fn field_list_text() -> Seq<char> {
    joined(views(field_names()), ","@)
}

/// The address of a list query for `limit` games from position `offset`
/// on, each reduced to the address of its details.
pub open spec fn list_url_text(api: Seq<char>, token: Seq<char>, limit: int, offset: int) -> Seq<
    char,
> {
    api + "/api/games/?api_key="@ + token + "&format=json&limit="@ + decimal(limit) + "&offset="@
        + decimal(offset) + "&field_list=api_detail_url"@
}

/// The address of a detail query at `uri`.
pub open spec fn detail_url_text(uri: Seq<char>, token: Seq<char>) -> Seq<char> {
    uri + "?api_key="@ + token + "&format=json&field_list="@ + field_list_text()
}

/// The address of a search up to the term: the fixed parameters, and the
/// name of the parameter that holds the term.
pub open spec fn search_head_text(api: Seq<char>, token: Seq<char>) -> Seq<char> {
    api + "/api/search?api_key="@ + token + "&format=json&resources=game&limit="@ + decimal(
        SEARCH_LIMIT as int,
    ) + "&field_list="@ + field_list_text() + "&query="@
}

/// The address of a search for games by `term`. The term is not changed
/// or cleaned; it goes into the address percent-encoded, as the last
/// parameter.
pub open spec fn search_url_text(api: Seq<char>, token: Seq<char>, term: Seq<char>) -> Seq<char> {
    search_head_text(api, token) + query_encoded(term)
}

/// Whatever the term of a search holds, it stays in its own parameter:
/// after the name of that parameter the address holds safe characters
/// only, so that nothing in the term can end the parameter, add another
/// or begin a fragment; and read back from the address, the parameter is
/// the term.
pub proof fn law_search_term_stays_in_its_parameter(
    api: Seq<char>,
    token: Seq<char>,
    term: Seq<char>,
)
    ensures
        search_url_text(api, token, term).len() == search_head_text(api, token).len()
            + query_encoded(term).len(),
        search_url_text(api, token, term).take(search_head_text(api, token).len() as int)
            == search_head_text(api, token),
        forall|i: int|
            search_head_text(api, token).len() <= i < search_url_text(api, token, term).len()
                ==> query_safe(#[trigger] search_url_text(api, token, term)[i]),
        decode_utf8(
            percent_decoded(
                search_url_text(api, token, term).skip(search_head_text(api, token).len() as int),
            ),
        ) == term,
{
    let head = search_head_text(api, token);
    let url = search_url_text(api, token, term);
    law_query_keeps_the_text(term);
    assert(url.take(head.len() as int) =~= head);
    assert(url.skip(head.len() as int) =~= query_encoded(term));
    assert forall|i: int| head.len() <= i < url.len() implies query_safe(#[trigger] url[i]) by {
        assert(url[i] == query_encoded(term)[i - head.len()]);
    }
}

/// The long description of a game is not among the fields asked for.
pub proof fn law_description_is_not_asked_for()
    ensures
        forall|i: int| 0 <= i < field_names().len() ==> field_names()[i]@ != "description"@,
{
    reveal_strlit("description");
    reveal_strlit("name");
    reveal_strlit("site_detail_url");
    reveal_strlit("themes");
    reveal_strlit("platforms");
    reveal_strlit("original_release_date");
    reveal_strlit("image");
    reveal_strlit("id");
    reveal_strlit("guid");
    reveal_strlit("expected_release_year");
    reveal_strlit("expected_release_quarter");
    reveal_strlit("expected_release_month");
    reveal_strlit("expected_release_day");
    reveal_strlit("developers");
    reveal_strlit("deck");
    reveal_strlit("concepts");
    reveal_strlit("characters");
    assert forall|i: int| 0 <= i < field_names().len() implies field_names()[i]@.len()
        != "description"@.len() by {}
}

/// The fields asked for of a game.
pub fn fields() -> (names: Vec<&'static str>)
    ensures
        names@ == field_names(),
{
    let mut names: Vec<&'static str> = Vec::new();
    names.push("name");
    names.push("site_detail_url");
    names.push("themes");
    names.push("platforms");
    names.push("original_release_date");
    names.push("image");
    names.push("id");
    names.push("guid");
    names.push("expected_release_year");
    names.push("expected_release_quarter");
    names.push("expected_release_month");
    names.push("expected_release_day");
    names.push("developers");
    names.push("deck");
    names.push("concepts");
    names.push("characters");
    assert(names@ =~= field_names());
    names
}

/// Appends the comma-separated field names to `out`.
fn push_field_list(out: &mut String)
    ensures
        final(out)@ == old(out)@ + field_list_text(),
{
    let names = fields();
    push_joined(out, &names, ",");
}

/// The address of a list query.
pub fn list_url(api: &str, token: &str, limit: i64, offset: i64) -> (url: String)
    ensures
        url@ == list_url_text(api@, token@, limit as int, offset as int),
{
    let mut url = String::from_str(api);
    url.append("/api/games/?api_key=");
    url.append(token);
    url.append("&format=json&limit=");
    push_decimal(&mut url, limit);
    url.append("&offset=");
    push_decimal(&mut url, offset);
    url.append("&field_list=api_detail_url");
    url
}

/// The address of a detail query.
pub fn detail_url(uri: &str, token: &str) -> (url: String)
    ensures
        url@ == detail_url_text(uri@, token@),
{
    let mut url = String::from_str(uri);
    url.append("?api_key=");
    url.append(token);
    url.append("&format=json&field_list=");
    push_field_list(&mut url);
    url
}

/// The address of a search by name.
pub fn search_url(api: &str, token: &str, term: &str) -> (url: String)
    ensures
        url@ == search_url_text(api@, token@, term@),
{
    let mut url = String::from_str(api);
    url.append("/api/search?api_key=");
    url.append(token);
    url.append("&format=json&resources=game&limit=");
    push_decimal(&mut url, SEARCH_LIMIT);
    url.append("&field_list=");
    push_field_list(&mut url);
    url.append("&query=");
    push_query_encoded(&mut url, term);
    url
}

} // verus!
