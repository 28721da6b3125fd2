//! The list of rated movies, shown five per page.

use vstd::prelude::*;
use crate::rating::Rating;
use crate::text::{
    all_digits, decimal, digit_char, digit_value, digits_value, lemma_decimal_len, lemma_decimal_shape,
    lemma_digit_char, lemma_leading_zeros, join, parse_decimal, parse_unsigned, push_decimal,
    seq_join, string_views,
};
use crate::tmdb::{Movie, MovieView};

verus! {

/// How many movies a page of the list shows.
pub const PAGE_SIZE: usize = 5;

/// A movie that was rated, with the instant it was added to the list, in
/// milliseconds since the Unix epoch.
pub struct RatedMovie {
    pub rating: Rating,
    pub movie: Movie,
    pub date: i64,
}

/// What a rated movie holds: rating, movie and instant.
pub type RatedMovieView = (u8, MovieView, i64);

impl View for RatedMovie {
    type V = RatedMovieView;

    open spec fn view(&self) -> RatedMovieView {
        (self.rating@, self.movie@, self.date)
    }
}

/// The calendar date (year, month, day) in Mexico City of an instant given in
/// milliseconds since the Unix epoch, as a stored date converts to it.
pub uninterp spec fn mexico_city_date(millis: i64) -> (i32, u32, u32);

/// The date of an instant in Mexico City, as the list shows it.
///
/// Calls bson's `DateTime::to_chrono` (which saturates instants that chrono
/// cannot represent at its least or greatest one), then chrono-tz's
/// `with_timezone` with `America/Mexico_City`, and formats the local date with
/// chrono's `format("%d/%m/%Y")`. The calendar date is named by
/// `mexico_city_date`; the contract claims that the text is that date as
/// chrono's formatting code prints `%d/%m/%Y`: day and month as two digits,
/// the year as `year_text` says.
#[verifier::external_body]
fn mexico_city_date_text(millis: i64) -> (r: String)
    ensures
        r@ == date_text(
            mexico_city_date(millis).0 as int,
            mexico_city_date(millis).1 as nat,
            mexico_city_date(millis).2 as nat,
        ),
{
    let local = mongodb::bson::DateTime::from_millis(millis).to_chrono().with_timezone(
        &chrono_tz::America::Mexico_City,
    );
    local.format("%d/%m/%Y").to_string()
}

/// Two decimal digits of a value below one hundred.
pub open spec fn two_digits(n: nat) -> Seq<char> {
    seq![digit_char(n / 10), digit_char(n % 10)]
}

/// The decimal numeral of `n`, zero-padded to four digits.
pub open spec fn pad4(n: nat) -> Seq<char> {
    if n < 10 {
        "000"@ + decimal(n)
    } else if n < 100 {
        "00"@ + decimal(n)
    } else if n < 1000 {
        "0"@ + decimal(n)
    } else {
        decimal(n)
    }
}

/// A year as chrono's `%Y` prints it: four digits for years 0 to 9999, else a
/// sign and at least four digits.
pub open spec fn year_text(y: int) -> Seq<char> {
    if 0 <= y <= 9999 {
        pad4(y as nat)
    } else if y > 9999 {
        "+"@ + pad4(y as nat)
    } else {
        "-"@ + pad4((-y) as nat)
    }
}

/// A date as `%d/%m/%Y` prints it.
pub open spec fn date_text(year: int, month: nat, day: nat) -> Seq<char> {
    two_digits(day) + "/"@ + two_digits(month) + "/"@ + year_text(year)
}

/// The date shown for the instant a movie was added.
pub open spec fn seen_date_text(millis: i64) -> Seq<char> {
    let d = mexico_city_date(millis);
    date_text(d.0 as int, d.1 as nat, d.2 as nat)
}

/// The date in Mexico City, as the list shows it, of an instant.
pub fn seen_date(millis: i64) -> (r: String)
    ensures
        r@ == seen_date_text(millis),
{
    mexico_city_date_text(millis)
}

/// How one movie appears in the list.
pub open spec fn entry_text(title: Seq<char>, rating: nat, date: Seq<char>) -> Seq<char> {
    "**"@ + title + "**\nRate of "@ + decimal(rating) + "/10\nSeen at "@ + date + "\n"@
}

/// How one rated movie appears in the list.
pub open spec fn rated_entry_text(m: RatedMovieView) -> Seq<char> {
    entry_text(m.1.1, m.0 as nat, seen_date_text(m.2))
}

/// The text of one movie of the list, with its date already formatted.
pub fn format_entry(title: &str, rating: u8, date: &str) -> (r: String)
    ensures
        r@ == entry_text(title@, rating as nat, date@),
{
    let mut s = String::new();
    s.append("**");
    s.append(title);
    s.append("**\nRate of ");
    push_decimal(&mut s, rating as u64);
    s.append("/10\nSeen at ");
    s.append(date);
    s.append("\n");
    assert(s@ =~= entry_text(title@, rating as nat, date@));
    s
}

/// The text of one rated movie of the list.
pub fn movie_entry(m: &RatedMovie) -> (r: String)
    ensures
        r@ == rated_entry_text(m@),
{
    let date = seen_date(m.date);
    format_entry(m.movie.title.as_str(), m.rating.value(), date.as_str())
}

/// The number of pages that `count` movies fill.
pub open spec fn spec_total_pages(count: nat) -> nat {
    (count + 4) / 5
}

/// The number of pages that `count` movies fill: `count / 5`, rounded up.
pub fn total_pages(count: usize) -> (r: usize)
    ensures
        r == spec_total_pages(count as nat),
{
    if count % PAGE_SIZE == 0 {
        count / PAGE_SIZE
    } else {
        count / PAGE_SIZE + 1
    }
}

/// Where page `page` begins among `count` movies.
pub open spec fn page_start(count: nat, page: nat) -> nat {
    let skipped = (page - 1) * 5;
    if skipped < count { skipped as nat } else { count }
}

/// Where page `page` ends among `count` movies.
pub open spec fn page_end(count: nat, page: nat) -> nat {
    let e = page_start(count, page) + 5;
    if e < count { e } else { count }
}

/// The movies on a page: five after skipping those of the earlier pages.
pub open spec fn page_movies(movies: Seq<RatedMovieView>, page: nat) -> Seq<RatedMovieView> {
    movies.subrange(
        page_start(movies.len(), page) as int,
        page_end(movies.len(), page) as int,
    )
}

/// The text of a page of the list.
pub open spec fn page_text(movies: Seq<RatedMovieView>, page: nat) -> Seq<char> {
    "Page ("@ + decimal(page) + "/"@ + decimal(spec_total_pages(movies.len())) + ")\n\n"@
        + seq_join(page_movies(movies, page).map_values(|m: RatedMovieView| rated_entry_text(m)), "\n"@)
}

pub open spec fn rated_views(movies: Seq<RatedMovie>) -> Seq<RatedMovieView> {
    movies.map_values(|m: RatedMovie| m@)
}

/// A page of the list of rated movies, counted from one.
pub fn list_page_text(movies: &Vec<RatedMovie>, page: usize) -> (r: String)
    requires
        page >= 1,
        (page - 1) * 5 <= usize::MAX,
    ensures
        r@ == page_text(rated_views(movies@), page as nat),
{
    let n = movies.len();
    let skipped = (page - 1) * PAGE_SIZE;
    let start = if skipped < n { skipped } else { n };
    let end = if n - start > PAGE_SIZE { start + PAGE_SIZE } else { n };
    let ghost shown = page_movies(rated_views(movies@), page as nat);
    assert(shown.len() == end - start);
    let mut entries: Vec<String> = Vec::new();
    let mut i = start;
    while i < end
        invariant
            start <= i <= end <= n,
            n == movies@.len(),
            shown == rated_views(movies@).subrange(start as int, end as int),
            entries@.len() == i - start,
            forall|k: int| 0 <= k < i - start ==> #[trigger] entries@[k]@ == rated_entry_text(shown[k]),
        decreases end - i,
    {
        entries.push(movie_entry(&movies[i]));
        i = i + 1;
    }
    assert(string_views(entries@) =~= shown.map_values(|m: RatedMovieView| rated_entry_text(m)));
    let body = join(&entries, "\n");
    let mut s = String::new();
    s.append("Page (");
    push_decimal(&mut s, page as u64);
    s.append("/");
    push_decimal(&mut s, total_pages(n) as u64);
    s.append(")\n\n");
    s.append(body.as_str());
    assert(s@ =~= page_text(rated_views(movies@), page as nat));
    s
}

/// The reply to `!list` when nothing has been rated.
pub const NO_MOVIES_SAVED: &'static str = "No haz guardado ninguna pelicula.";

/// The reply to `!list` when its page is not a number.
pub const PAGE_NOT_A_NUMBER: &'static str = "La pagina debe ser un numero.";

/// The answer to `/list` when nothing has been rated.
pub const NO_MOVIES_FOUND: &'static str = "No movies found";

/// The error of `/list` for a page below one.
pub const PAGE_MUST_BE_POSITIVE: &'static str = "Page number must be greater than 0";

/// The page that the arguments of `!list` ask for: the first argument read as
/// an unsigned number, one where there is none, `None` where it is not a
/// number.
pub open spec fn spec_list_page_arg(args: Seq<Seq<char>>) -> Option<nat> {
    if args.len() == 0 {
        Some(1)
    } else {
        parse_unsigned(args[0], usize::MAX as nat)
    }
}

pub open spec fn opt_usize_nat(r: Option<usize>) -> Option<nat> {
    match r {
        Some(v) => Some(v as nat),
        None => None,
    }
}

/// The page that the arguments of `!list` ask for.
pub fn list_page_arg(args: &Vec<String>) -> (r: Option<usize>)
    ensures
        opt_usize_nat(r) == spec_list_page_arg(string_views(args@)),
{
    if args.len() == 0 {
        return Some(1);
    }
    match parse_decimal(args[0].as_str(), usize::MAX as u64) {
        Some(v) => Some(v as usize),
        None => None,
    }
}

/// The reply to `!list` once the rated movies are loaded.
pub open spec fn spec_list_reply(movies: Seq<RatedMovieView>, page: nat) -> Seq<char> {
    if movies.len() == 0 {
        NO_MOVIES_SAVED@
    } else {
        page_text(movies, page)
    }
}

/// The reply to `!list` once the rated movies are loaded: a notice when there
/// are none, else the page asked for.
pub fn list_reply(movies: &Vec<RatedMovie>, page: usize) -> (r: String)
    requires
        movies@.len() > 0 ==> page >= 1 && (page - 1) * 5 <= usize::MAX,
    ensures
        r@ == spec_list_reply(rated_views(movies@), page as nat),
{
    if movies.len() == 0 {
        return NO_MOVIES_SAVED.to_owned();
    }
    list_page_text(movies, page)
}

pub open spec fn text_result_view(r: Result<String, String>) -> Result<Seq<char>, Seq<char>> {
    match r {
        Ok(v) => Ok(v@),
        Err(e) => Err(e@),
    }
}

/// The page that `/list` asks for, from the integer value of its first
/// option where it has one: pages below one are refused, and without such a
/// value the page is one.
pub open spec fn spec_slash_list_page(first_integer: Option<i64>) -> Result<usize, Seq<char>> {
    match first_integer {
        Some(i) => if i < 1 {
            Err(PAGE_MUST_BE_POSITIVE@)
        } else {
            Ok(i as usize)
        },
        None => Ok(1),
    }
}

/// The page that `/list` asks for.
pub fn slash_list_page(first_integer: Option<i64>) -> (r: Result<usize, String>)
    ensures
        (match r {
            Ok(p) => Ok(p),
            Err(e) => Err(e@),
        }) == spec_slash_list_page(first_integer),
{
    match first_integer {
        Some(i) => {
            if i < 1 {
                Err(PAGE_MUST_BE_POSITIVE.to_owned())
            } else {
                Ok(i as usize)
            }
        },
        None => Ok(1),
    }
}

/// The answer of `/list` once loading the rated movies has succeeded or
/// failed with a message.
pub open spec fn spec_slash_list_reply(
    loaded: Result<Seq<RatedMovieView>, Seq<char>>,
    page: nat,
) -> Result<Seq<char>, Seq<char>> {
    match loaded {
        Err(e) => Err("Error loading movies: "@ + e),
        Ok(movies) => if movies.len() == 0 {
            Ok(NO_MOVIES_FOUND@)
        } else {
            Ok(page_text(movies, page))
        },
    }
}

pub open spec fn loaded_view(loaded: Result<Vec<RatedMovie>, String>) -> Result<Seq<RatedMovieView>, Seq<char>> {
    match loaded {
        Ok(v) => Ok(rated_views(v@)),
        Err(e) => Err(e@),
    }
}

/// The answer of `/list`: the loading error, a notice when nothing has been
/// rated, else the page asked for.
pub fn slash_list_reply(loaded: Result<Vec<RatedMovie>, String>, page: usize) -> (r: Result<String, String>)
    requires
        loaded matches Ok(movies) && movies@.len() > 0 ==> page >= 1 && (page - 1) * 5 <= usize::MAX,
    ensures
        text_result_view(r) == spec_slash_list_reply(loaded_view(loaded), page as nat),
{
    match loaded {
        Err(e) => {
            let mut s = "Error loading movies: ".to_owned();
            s.append(e.as_str());
            Err(s)
        },
        Ok(movies) => {
            if movies.len() == 0 {
                Ok(NO_MOVIES_FOUND.to_owned())
            } else {
                Ok(list_page_text(&movies, page))
            }
        },
    }
}

/// The pages tile the list: the first begins at the start, each begins where
/// the one before ends, none holds more than five movies, and the last page
/// ends at the end of the list.
pub proof fn law_pages_tile_the_list(count: nat, page: nat)
    requires
        page >= 1,
    ensures
        page_start(count, 1) == 0,
        page_start(count, page + 1) == page_end(count, page),
        page_start(count, page) <= page_end(count, page) <= count,
        page_end(count, page) <= page_start(count, page) + 5,
        count > 0 ==> page_end(count, spec_total_pages(count)) == count,
{
    assert(((page + 1) - 1) * 5 == (page - 1) * 5 + 5) by (nonlinear_arith);
    if count > 0 {
        let t = spec_total_pages(count);
        assert(t >= 1);
        assert((t - 1) * 5 < count && count <= (t - 1) * 5 + 5) by (nonlinear_arith)
            requires
                t == (count + 4) / 5,
                count > 0,
        ;
    }
}

/// A page holds movies exactly when it is one of the pages that the count
/// of `total_pages` names.
pub proof fn law_pages_up_to_the_total_hold_movies(count: nat, page: nat)
    requires
        page >= 1,
    ensures
        (page_start(count, page) < count) <==> page <= spec_total_pages(count),
{
    let t = spec_total_pages(count);
    assert((page - 1) * 5 < count <==> page <= t) by (nonlinear_arith)
        requires
            t == (count + 4) / 5,
            page >= 1,
    ;
}

/// The movies of pages `1` to `n`, in order.
pub open spec fn pages_up_to(movies: Seq<RatedMovieView>, n: nat) -> Seq<RatedMovieView>
    decreases n,
{
    if n == 0 {
        Seq::empty()
    } else {
        pages_up_to(movies, (n - 1) as nat) + page_movies(movies, n)
    }
}

/// Page `page` shows the movies at positions `(page - 1) * 5` up to
/// `page * 5` of the list, cut at its end: five movies, or what is left.
pub proof fn law_page_shows_its_positions(movies: Seq<RatedMovieView>, page: nat)
    requires
        page >= 1,
    ensures
        page_movies(movies, page) == movies.subrange(
            if (page - 1) * 5 < movies.len() { (page - 1) * 5 } else { movies.len() as int },
            if page * 5 < movies.len() { (page * 5) as int } else { movies.len() as int },
        ),
        page_movies(movies, page).len() == (if page * 5 <= movies.len() {
            5
        } else if (page - 1) * 5 < movies.len() {
            movies.len() - (page - 1) * 5
        } else {
            0
        }),
{
    assert((page - 1) * 5 + 5 == page * 5) by (nonlinear_arith)
        requires
            page >= 1,
    ;
}

proof fn lemma_pages_up_to(movies: Seq<RatedMovieView>, n: nat)
    ensures
        pages_up_to(movies, n) == movies.subrange(
            0,
            if n * 5 < movies.len() { (n * 5) as int } else { movies.len() as int },
        ),
    decreases n,
{
    if n > 0 {
        lemma_pages_up_to(movies, (n - 1) as nat);
        law_page_shows_its_positions(movies, n);
        assert(((n - 1) as nat) * 5 == (n - 1) * 5);
        let a = if (n - 1) * 5 < movies.len() { (n - 1) * 5 } else { movies.len() as int };
        let b = if n * 5 < movies.len() { (n * 5) as int } else { movies.len() as int };
        assert((n - 1) * 5 + 5 == n * 5) by (nonlinear_arith)
            requires
                n >= 1,
        ;
        assert(movies.subrange(0, a) + movies.subrange(a, b) =~= movies.subrange(0, b));
    } else {
        assert(movies.subrange(0, 0) =~= Seq::<RatedMovieView>::empty());
    }
}

/// Taken in order, the pages up to the count that `total_pages` gives show
/// every movie of the list once, in the order of the list.
pub proof fn law_pages_show_the_whole_list(movies: Seq<RatedMovieView>)
    ensures
        pages_up_to(movies, spec_total_pages(movies.len())) == movies,
        spec_total_pages(movies.len()) * 5 >= movies.len(),
        spec_total_pages(movies.len()) == 0 || (spec_total_pages(movies.len()) - 1) * 5
            < movies.len(),
{
    let t = spec_total_pages(movies.len());
    assert(t * 5 >= movies.len() && (t == 0 || (t - 1) * 5 < movies.len())) by (nonlinear_arith)
        requires
            t == (movies.len() + 4) / 5,
    ;
    lemma_pages_up_to(movies, t);
    assert(movies.subrange(0, movies.len() as int) =~= movies);
}

/// The text of a page is its header, then the entries of exactly the movies
/// at positions `(page - 1) * 5` up to `page * 5`, one after the other with a
/// line break between each two.
pub proof fn law_page_text_lists_its_movies(movies: Seq<RatedMovieView>, page: nat)
    requires
        page >= 1,
    ensures
        page_text(movies, page) == "Page ("@ + decimal(page) + "/"@ + decimal(
            (movies.len() + 4) / 5,
        ) + ")\n\n"@ + seq_join(
            movies.subrange(
                if (page - 1) * 5 < movies.len() { (page - 1) * 5 } else { movies.len() as int },
                if page * 5 < movies.len() { (page * 5) as int } else { movies.len() as int },
            ).map_values(|m: RatedMovieView| rated_entry_text(m)),
            "\n"@,
        ),
{
    law_page_shows_its_positions(movies, page);
}

proof fn lemma_two_digits_read_back(n: nat)
    requires
        n < 100,
    ensures
        two_digits(n).len() == 2,
        parse_unsigned(two_digits(n), 99) == Some(n),
{
    lemma_digit_char(n / 10);
    lemma_digit_char(n % 10);
    let t = two_digits(n);
    assert(t.drop_last() =~= seq![digit_char(n / 10)]);
    let first = seq![digit_char(n / 10)];
    assert(first.drop_last() =~= Seq::<char>::empty());
    assert(digits_value(Seq::<char>::empty()) == 0);
    assert(digits_value(first) == digits_value(first.drop_last()) * 10 + digit_value(first.last()));
    assert(digits_value(first) == n / 10);
    assert(t.last() == digit_char(n % 10));
    assert(digits_value(t) == (n / 10) * 10 + n % 10);
    assert(all_digits(t));
}

proof fn lemma_pad4_reads_back(y: nat)
    requires
        y <= 9999,
    ensures
        pad4(y).len() == 4,
        parse_unsigned(pad4(y), 9999) == Some(y),
{
    lemma_decimal_len(y);
    lemma_decimal_shape(y);
    reveal_strlit("000");
    reveal_strlit("00");
    reveal_strlit("0");
    if y < 10 {
        lemma_leading_zeros("000"@, decimal(y));
    } else if y < 100 {
        lemma_leading_zeros("00"@, decimal(y));
    } else if y < 1000 {
        lemma_leading_zeros("0"@, decimal(y));
    }
    assert(pad4(y)[0] != '+');
}

/// A date of the list reads back: for a day, a month and a year from 0 to
/// 9999, the text is ten characters, day and month as two digits and the year
/// as four, separated by `/`, and each part parses back to its number.
pub proof fn law_date_text_reads_back(year: nat, month: nat, day: nat)
    requires
        1 <= month <= 12,
        1 <= day <= 31,
        year <= 9999,
    ensures
        date_text(year as int, month, day).len() == 10,
        date_text(year as int, month, day)[2] == '/',
        date_text(year as int, month, day)[5] == '/',
        parse_unsigned(date_text(year as int, month, day).subrange(0, 2), 99) == Some(day),
        parse_unsigned(date_text(year as int, month, day).subrange(3, 5), 99) == Some(month),
        parse_unsigned(date_text(year as int, month, day).subrange(6, 10), 9999) == Some(year),
{
    lemma_two_digits_read_back(day);
    lemma_two_digits_read_back(month);
    lemma_pad4_reads_back(year);
    reveal_strlit("/");
    let t = date_text(year as int, month, day);
    assert(t.subrange(0, 2) =~= two_digits(day));
    assert(t.subrange(3, 5) =~= two_digits(month));
    assert(t.subrange(6, 10) =~= pad4(year));
}

} // verus!
