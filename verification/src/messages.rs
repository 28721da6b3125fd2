//! The chat messages that show search results: their text, embed, buttons
//! and rating menu, and how the bot tells the interactions on them apart.

use vstd::prelude::*;
use crate::query::{
    QueryHandler, QueryMessage, next_overflows, opt_view, spec_has_next, spec_has_previous,
    table_next, table_previous,
};
use crate::rating::{
    Rating, RatingError, law_rating_text_reads_back, spec_new_rating, spec_parse_rating, stars,
};
use crate::text::{decimal, law_decimal_parses_back, parse_u8, parse_unsigned, push_decimal, starts_with, str_equal};
use crate::tmdb::{Movie, PagedResponse, copy_opt_string, opt_string_view};

verus! {

/// The button that shows the next result.
pub const NEXT_MOVIE_ID: &'static str = "adv_next_movie";

/// The button that shows the previous result.
pub const PREVIOUS_MOVIE_ID: &'static str = "adv_prev_movie";

/// What the ids of the paging buttons begin with.
pub const PAGE_CHANGE_PREFIX: &'static str = "adv";

/// The menu that adds the movie on display with a rating.
pub const ADD_MOVIE_ID: &'static str = "add_movie";

/// The largest color value: 24 bits of red, green and blue.
pub const MAX_COLOR: u32 = 0xFFFFFF;

/// Draws a random 32-bit number.
///
/// Calls `rand::random::<u32>`, whose value depends on chance: nothing is
/// claimed of it.
#[verifier::external_body]
fn random_u32() -> (r: u32)
{
    rand::random::<u32>()
}

/// The color made of the low 24 bits of a number.
pub fn color_from_bits(bits: u32) -> (r: u32)
    ensures
        r == bits & 0xFFFFFFu32,
        r <= MAX_COLOR,
{
    assert(bits & 0xFFFFFFu32 <= 0xFFFFFFu32) by (bit_vector);
    bits & 0xFFFFFF
}

/// A random color.
pub fn random_color() -> (r: u32)
    ensures
        r <= MAX_COLOR,
{
    color_from_bits(random_u32())
}

/// The embed that shows a movie: title, overview, color, page footer and
/// poster.
pub struct Embed {
    pub title: String,
    pub description: String,
    pub color: u32,
    pub footer: String,
    pub image: Option<String>,
}

/// The footer of the embed of page `page` out of `max_page`.
pub open spec fn footer_text(page: nat, max_page: nat) -> Seq<char> {
    "Page: "@ + decimal(page) + " / "@ + decimal(max_page)
}

/// Whether an embed shows a movie on a page, whatever its color.
pub open spec fn embed_shows(e: Embed, movie: Movie, page: nat, max_page: nat) -> bool {
    &&& e.title@ == movie.title@
    &&& e.description@ == movie.overview@
    &&& e.footer@ == footer_text(page, max_page)
    &&& opt_string_view(e.image) == opt_string_view(movie.poster_path)
    &&& e.color <= MAX_COLOR
}

/// The embed of a movie on page `page` out of `max_page`, in a random color.
pub fn create_embed(movie: &Movie, page: usize, max_page: usize) -> (r: Embed)
    ensures
        embed_shows(r, *movie, page as nat, max_page as nat),
{
    let mut footer = String::new();
    footer.append("Page: ");
    push_decimal(&mut footer, page as u64);
    footer.append(" / ");
    push_decimal(&mut footer, max_page as u64);
    assert(footer@ =~= footer_text(page as nat, max_page as nat));
    Embed {
        title: movie.title.clone(),
        description: movie.overview.clone(),
        color: random_color(),
        footer,
        image: copy_opt_string(&movie.poster_path),
    }
}

/// A message that shows one search result.
pub struct MovieMessage {
    pub content: String,
    pub embed: Embed,
}

/// The text above the results of a search.
pub open spec fn showing_text(query: Seq<char>) -> Seq<char> {
    "Showing results for: "@ + query
}

fn showing(query: &str) -> (r: String)
    ensures
        r@ == showing_text(query@),
{
    let mut s = "Showing results for: ".to_owned();
    s.append(query);
    s
}

/// The first message of a search: its first result, as page one of `size`.
pub fn create_movie_message(movie: &Movie, query: &str, size: usize) -> (r: MovieMessage)
    ensures
        r.content@ == showing_text(query@),
        embed_shows(r.embed, *movie, 1, size as nat),
{
    MovieMessage { content: showing(query), embed: create_embed(movie, 1, size) }
}

/// The message of a search after paging: the result on display, as page
/// `current_index + 1` of `size`.
pub fn edit_movie_message(movie: &Movie, query: &QueryMessage) -> (r: MovieMessage)
    requires
        query.current_index < usize::MAX,
    ensures
        r.content@ == showing_text(query.query@),
        embed_shows(r.embed, *movie, query.current_index as nat + 1, query.size as nat),
{
    MovieMessage {
        content: showing(query.query.as_str()),
        embed: create_embed(movie, query.current_index + 1, query.size),
    }
}

/// A button of the primary style.
pub struct Button {
    pub label: String,
    pub custom_id: String,
}

impl View for Button {
    type V = (Seq<char>, Seq<char>);

    open spec fn view(&self) -> (Seq<char>, Seq<char>) {
        (self.label@, self.custom_id@)
    }
}

pub open spec fn next_button_view() -> (Seq<char>, Seq<char>) {
    ("Next"@, NEXT_MOVIE_ID@)
}

pub open spec fn previous_button_view() -> (Seq<char>, Seq<char>) {
    ("Previous"@, PREVIOUS_MOVIE_ID@)
}

fn next_button() -> (r: Button)
    ensures
        r@ == next_button_view(),
{
    Button { label: "Next".to_owned(), custom_id: NEXT_MOVIE_ID.to_owned() }
}

fn previous_button() -> (r: Button)
    ensures
        r@ == previous_button_view(),
{
    Button { label: "Previous".to_owned(), custom_id: PREVIOUS_MOVIE_ID.to_owned() }
}

pub open spec fn button_views(v: Seq<Button>) -> Seq<(Seq<char>, Seq<char>)> {
    v.map_values(|b: Button| b@)
}

/// The buttons of the first message of a search: `Next` where there is more
/// than one result.
pub open spec fn spec_creation_buttons(size: nat) -> Seq<(Seq<char>, Seq<char>)> {
    if size > 1 {
        seq![next_button_view()]
    } else {
        Seq::empty()
    }
}

/// The buttons of the first message of a search.
pub fn creation_buttons(size: usize) -> (r: Vec<Button>)
    ensures
        button_views(r@) == spec_creation_buttons(size as nat),
{
    let mut v: Vec<Button> = Vec::new();
    if size > 1 {
        v.push(next_button());
    }
    assert(button_views(v@) =~= spec_creation_buttons(size as nat));
    v
}

/// The buttons of a message after paging: `Previous` where a result comes
/// before, `Next` where one comes after.
pub open spec fn spec_page_change_buttons(m: (u64, Seq<char>, usize, usize)) -> Seq<(Seq<char>, Seq<char>)> {
    (if spec_has_previous(m) { seq![previous_button_view()] } else { Seq::empty() })
        + (if spec_has_next(m) { seq![next_button_view()] } else { Seq::empty() })
}

/// The buttons of a message after paging.
pub fn page_change_buttons(query: &QueryMessage) -> (r: Vec<Button>)
    ensures
        button_views(r@) == spec_page_change_buttons(query@),
{
    let mut v: Vec<Button> = Vec::new();
    if query.current_index > 0 {
        v.push(previous_button());
    }
    if query.has_next() {
        v.push(next_button());
    }
    assert(button_views(v@) =~= spec_page_change_buttons(query@));
    v
}

/// An entry of the rating menu: label, value and description.
pub struct RatingOption {
    pub label: String,
    pub value: String,
    pub description: String,
}

impl View for RatingOption {
    type V = (Seq<char>, Seq<char>, Seq<char>);

    open spec fn view(&self) -> (Seq<char>, Seq<char>, Seq<char>) {
        (self.label@, self.value@, self.description@)
    }
}

/// The entry of the rating menu for the value `i`.
pub open spec fn rating_option_view(i: nat) -> (Seq<char>, Seq<char>, Seq<char>) {
    ("Rating: "@ + decimal(i), decimal(i), stars(i))
}

/// The rating menu: one entry for each value from one to ten.
pub fn rating_options() -> (r: Vec<RatingOption>)
    ensures
        r@.len() == 10,
        forall|k: int| 0 <= k < 10 ==> #[trigger] r@[k]@ == rating_option_view((k + 1) as nat),
{
    let mut v: Vec<RatingOption> = Vec::new();
    let mut i: u8 = 1;
    while i <= 10
        invariant
            1 <= i <= 11,
            v@.len() == i - 1,
            forall|k: int| 0 <= k < i - 1 ==> #[trigger] v@[k]@ == rating_option_view((k + 1) as nat),
        decreases 11 - i,
    {
        let mut label = "Rating: ".to_owned();
        push_decimal(&mut label, i as u64);
        let mut value = String::new();
        push_decimal(&mut value, i as u64);
        let description = match Rating::new(i) {
            Ok(rating) => rating.to_stars(),
            Err(_) => String::new(),
        };
        assert(value@ =~= decimal(i as nat));
        v.push(RatingOption { label, value, description });
        i = i + 1;
    }
    v
}

/// The reply to a search without results.
pub open spec fn no_results_text(query: Seq<char>) -> Seq<char> {
    "No results found for: "@ + query
}

/// The reply to a search without results.
pub fn no_results_message(query: &str) -> (r: String)
    ensures
        r@ == no_results_text(query@),
{
    let mut s = "No results found for: ".to_owned();
    s.append(query);
    s
}

/// The notice that a movie was added to the list.
pub open spec fn added_text(title: Seq<char>) -> Seq<char> {
    "Added "@ + title + " to your list"@
}

/// The notice that a movie was added to the list.
pub fn added_message(title: &str) -> (r: String)
    ensures
        r@ == added_text(title@),
{
    let mut s = "Added ".to_owned();
    s.append(title);
    s.append(" to your list");
    s
}

/// The paging position of the first message of a search.
pub fn new_query_message(id: u64, query: &str, size: usize) -> (r: QueryMessage)
    ensures
        r@ == (id, query@, 0usize, size),
{
    QueryMessage { id, query: query.to_owned(), current_index: 0, size }
}

/// What an interaction on a message of search results asks for.
#[derive(Debug, Clone, Copy, PartialEq, Eq, Structural)]
pub enum InteractionKind {
    /// A paging button.
    PageChange,
    /// The rating menu.
    Rate,
    /// Anything else, which is left alone.
    Ignored,
}

/// What an interaction asks for, by the id of the component used: ids that
/// begin with `adv` page, the id of the rating menu rates.
pub open spec fn spec_classify_interaction(custom_id: Seq<char>) -> InteractionKind {
    if PAGE_CHANGE_PREFIX@.len() <= custom_id.len()
        && custom_id.take(PAGE_CHANGE_PREFIX@.len() as int) == PAGE_CHANGE_PREFIX@ {
        InteractionKind::PageChange
    } else if custom_id == ADD_MOVIE_ID@ {
        InteractionKind::Rate
    } else {
        InteractionKind::Ignored
    }
}

/// What an interaction asks for.
pub fn classify_interaction(custom_id: &str) -> (r: InteractionKind)
    ensures
        r == spec_classify_interaction(custom_id@),
{
    if starts_with(custom_id, PAGE_CHANGE_PREFIX) {
        InteractionKind::PageChange
    } else if str_equal(custom_id, ADD_MOVIE_ID) {
        InteractionKind::Rate
    } else {
        InteractionKind::Ignored
    }
}

/// Whether a paging interaction asks for the next result; any other paging
/// id asks for the previous one.
pub fn is_next_request(custom_id: &str) -> (r: bool)
    ensures
        r == (custom_id@ == NEXT_MOVIE_ID@),
{
    str_equal(custom_id, NEXT_MOVIE_ID)
}

/// Why a selection of the rating menu was refused.
#[derive(Debug)]
pub enum SelectionError {
    /// The value is not an unsigned 8-bit number.
    NotAU8(std::num::ParseIntError),
    /// The number is not a rating.
    Rating(RatingError),
}

/// What a selection of the rating menu gives: the rating, or the refusal,
/// where `None` stands for a value that is not an unsigned 8-bit number.
pub open spec fn selection_view(r: Result<Rating, SelectionError>) -> Result<u8, Option<RatingError>> {
    match r {
        Ok(v) => Ok(v@),
        Err(SelectionError::NotAU8(_)) => Err(None),
        Err(SelectionError::Rating(e)) => Err(Some(e)),
    }
}

/// The rating a selected value gives: the value read as an unsigned 8-bit
/// number, then made a rating.
pub open spec fn spec_selected_rating(value: Seq<char>) -> Result<u8, Option<RatingError>> {
    match parse_unsigned(value, 255) {
        None => Err(None),
        Some(v) => match spec_new_rating(v as u8) {
            Ok(x) => Ok(x),
            Err(e) => Err(Some(e)),
        },
    }
}

/// The rating chosen in the rating menu: its first selected value, read as
/// an unsigned 8-bit number and made a rating.
pub fn selected_rating(values: &Vec<String>) -> (r: Result<Rating, SelectionError>)
    requires
        values@.len() > 0,
    ensures
        selection_view(r) == spec_selected_rating(values@[0]@),
{
    match parse_u8(values[0].as_str()) {
        Err(e) => Err(SelectionError::NotAU8(e)),
        Ok(v) => match Rating::new(v) {
            Ok(rating) => Ok(rating),
            Err(e) => Err(SelectionError::Rating(e)),
        },
    }
}

/// Each value of the rating menu reads back as the rating it offers, both as
/// a selection and as text given to `Rating::parse`.
pub proof fn law_menu_values_read_back(k: int)
    requires
        0 <= k < 10,
    ensures
        spec_selected_rating(rating_option_view((k + 1) as nat).1) == Ok::<u8, Option<RatingError>>(
            (k + 1) as u8,
        ),
        spec_parse_rating(rating_option_view((k + 1) as nat).1) == Ok::<u8, RatingError>((k + 1) as u8),
{
    law_rating_text_reads_back((k + 1) as u8);
    law_decimal_parses_back((k + 1) as nat, 255);
}

/// The ids of the components are told apart as meant: both paging buttons
/// page, only `Next` asks for the next result, and the menu rates.
pub proof fn law_component_ids_are_told_apart()
    ensures
        spec_classify_interaction(NEXT_MOVIE_ID@) == InteractionKind::PageChange,
        spec_classify_interaction(PREVIOUS_MOVIE_ID@) == InteractionKind::PageChange,
        spec_classify_interaction(ADD_MOVIE_ID@) == InteractionKind::Rate,
        PREVIOUS_MOVIE_ID@ != NEXT_MOVIE_ID@,
{
    reveal_strlit("adv_next_movie");
    reveal_strlit("adv_prev_movie");
    reveal_strlit("adv");
    reveal_strlit("add_movie");
    assert(NEXT_MOVIE_ID@.take(3) =~= PAGE_CHANGE_PREFIX@);
    assert(PREVIOUS_MOVIE_ID@.take(3) =~= PAGE_CHANGE_PREFIX@);
    assert(ADD_MOVIE_ID@.take(3) != PAGE_CHANGE_PREFIX@) by {
        assert(ADD_MOVIE_ID@.take(3)[2] != PAGE_CHANGE_PREFIX@[2]);
    }
    assert(PREVIOUS_MOVIE_ID@[4] != NEXT_MOVIE_ID@[4]);
}

/// The first message of a search offers `Next` exactly when its paging
/// position has a next result.
pub proof fn law_creation_buttons_match_paging(id: u64, query: Seq<char>, size: usize)
    ensures
        spec_creation_buttons(size as nat) == spec_page_change_buttons((id, query, 0usize, size)),
{
    assert(spec_creation_buttons(size as nat) =~= spec_page_change_buttons((id, query, 0usize, size)));
}

/// A search result as it is shown: the message, its paging buttons and the
/// rating menu.
pub struct ResultView {
    pub message: MovieMessage,
    pub buttons: Vec<Button>,
    pub rating_options: Vec<RatingOption>,
}

/// Whether a rating menu holds the ten entries of `rating_options`.
pub open spec fn is_rating_menu(options: Seq<RatingOption>) -> bool {
    &&& options.len() == 10
    &&& forall|k: int| 0 <= k < 10 ==> #[trigger] options[k]@ == rating_option_view((k + 1) as nat)
}

/// The reply to a search.
pub enum SearchReply {
    /// Nothing was found: the text to send.
    NoResults(String),
    /// The first result, to show with the number of results.
    Show(ResultView, usize),
}

/// The reply to a search, once the database has answered: a notice when
/// nothing was found, else the first result as page one, with `Next` where
/// there are more and the rating menu.
pub fn search_reply(query: &str, page: &PagedResponse<Movie>) -> (r: SearchReply)
    ensures
        page.results@.len() == 0 <==> r is NoResults,
        r matches SearchReply::NoResults(text) ==> text@ == no_results_text(query@),
        r matches SearchReply::Show(view, size) ==> {
            &&& size == page.results@.len()
            &&& view.message.content@ == showing_text(query@)
            &&& embed_shows(view.message.embed, page.results@[0], 1, size as nat)
            &&& button_views(view.buttons@) == spec_creation_buttons(size as nat)
            &&& is_rating_menu(view.rating_options@)
        },
{
    let size = page.results.len();
    if size == 0 {
        return SearchReply::NoResults(no_results_message(query));
    }
    let movie = &page.results[0];
    let view = ResultView {
        message: create_movie_message(movie, query, size),
        buttons: creation_buttons(size),
        rating_options: rating_options(),
    };
    SearchReply::Show(view, size)
}

/// A search result after paging: the result on display as page
/// `current_index + 1`, `Previous` and `Next` where they lead somewhere, and
/// the rating menu.
pub fn page_change_view(movie: &Movie, query: &QueryMessage) -> (r: ResultView)
    requires
        query.current_index < usize::MAX,
    ensures
        r.message.content@ == showing_text(query.query@),
        embed_shows(r.message.embed, *movie, query.current_index as nat + 1, query.size as nat),
        button_views(r.buttons@) == spec_page_change_buttons(query@),
        is_rating_menu(r.rating_options@),
{
    ResultView {
        message: edit_movie_message(movie, query),
        buttons: page_change_buttons(query),
        rating_options: rating_options(),
    }
}

/// Pages a message as a paging button asks: forward for `Next`, back for any
/// other paging id.
pub fn turn_page(handler: &mut QueryHandler, message_id: u64, custom_id: &str) -> (r: Option<QueryMessage>)
    requires
        custom_id@ == NEXT_MOVIE_ID@ && old(handler)@.contains_key(message_id) ==> !next_overflows(
            old(handler)@[message_id],
        ),
    ensures
        (final(handler)@, opt_view(r)) == (if custom_id@ == NEXT_MOVIE_ID@ {
            table_next(old(handler)@, message_id)
        } else {
            table_previous(old(handler)@, message_id)
        }),
{
    if is_next_request(custom_id) {
        handler.next(message_id)
    } else {
        handler.previous(message_id)
    }
}

/// The footer shows the page and the whole result count: it reads
/// `Page: `, the page's numeral, ` / `, then a numeral that parses back to the
/// count; so footers of different counts differ.
pub proof fn law_footer_shows_page_and_count(page: nat, max_page: nat, other_max: nat)
    ensures
        footer_text(page, max_page) == "Page: "@ + decimal(page) + " / "@ + decimal(max_page),
        parse_unsigned(
            footer_text(page, max_page).skip(("Page: "@ + decimal(page) + " / "@).len() as int),
            max_page,
        ) == Some(max_page),
        footer_text(page, max_page) == footer_text(page, other_max) ==> max_page == other_max,
{
    let prefix = "Page: "@ + decimal(page) + " / "@;
    assert(footer_text(page, max_page).skip(prefix.len() as int) =~= decimal(max_page));
    assert(footer_text(page, other_max).skip(prefix.len() as int) =~= decimal(other_max));
    law_decimal_parses_back(max_page, max_page);
    law_decimal_parses_back(max_page, max_page + other_max);
    law_decimal_parses_back(other_max, max_page + other_max);
}

} // verus!
