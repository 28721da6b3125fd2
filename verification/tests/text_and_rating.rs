use movie_bot::rating::{Rating, RatingError};
use movie_bot::text::{decimal_string, find_args, join, parse_decimal, split_whitespace, starts_with, str_equal};
use movie_bot::tmdb::{build_image_path, build_path};

#[test]
fn build_path_appends_a_leading_slash_path() {
    assert_eq!(build_path("/search/movie"), "https://api.themoviedb.org/3/search/movie");
}

#[test]
fn build_path_inserts_a_missing_slash() {
    assert_eq!(build_path("search/movie"), "https://api.themoviedb.org/3/search/movie");
    assert_eq!(build_path(""), "https://api.themoviedb.org/3/");
}

#[test]
fn build_image_path_builds_poster_urls() {
    assert_eq!(build_image_path("/abc.jpg"), "https://image.tmdb.org/t/p/w500/abc.jpg");
    assert_eq!(build_image_path("abc.jpg"), "https://image.tmdb.org/t/p/w500/abc.jpg");
}

#[test]
fn rating_new_accepts_zero_to_ten() {
    assert_eq!(Rating::new(0).unwrap().value(), 0);
    assert_eq!(Rating::new(10).unwrap().value(), 10);
    assert_eq!(Rating::new(11), Err(RatingError::OutOfRange));
    assert_eq!(Rating::new(255), Err(RatingError::OutOfRange));
}

#[test]
fn rating_error_messages() {
    assert_eq!(RatingError::OutOfRange.message(), "El rating debe ser entre 0 y 10");
    assert_eq!(RatingError::NotANumber.message(), "El rating solo puede ser un numero.");
}

#[test]
fn rating_to_stars_repeats_the_star() {
    assert_eq!(Rating::new(3).unwrap().to_stars(), "⭐⭐⭐");
    assert_eq!(Rating::new(0).unwrap().to_stars(), "");
    assert_eq!(Rating::new(10).unwrap().to_stars().chars().count(), 10);
}

#[test]
fn rating_displays_out_of_ten() {
    assert_eq!(Rating::new(7).unwrap().to_display_string(), "7 / 10");
    assert_eq!(Rating::new(10).unwrap().to_display_string(), "10 / 10");
}

#[test]
fn rating_parse_follows_u8_parsing() {
    assert_eq!(Rating::parse("5").unwrap().value(), 5);
    assert_eq!(Rating::parse("+5").unwrap().value(), 5);
    assert_eq!(Rating::parse("007").unwrap().value(), 7);
    assert_eq!(Rating::parse("-5"), Err(RatingError::NotANumber));
    assert_eq!(Rating::parse(""), Err(RatingError::NotANumber));
    assert_eq!(Rating::parse("+"), Err(RatingError::NotANumber));
    assert_eq!(Rating::parse(" 5"), Err(RatingError::NotANumber));
    assert_eq!(Rating::parse("256"), Err(RatingError::NotANumber));
    assert_eq!(Rating::parse("11"), Err(RatingError::OutOfRange));
    assert_eq!(Rating::parse("255"), Err(RatingError::OutOfRange));
}

#[test]
fn rating_from_str_matches_parse() {
    let r: Rating = "9".parse().unwrap();
    assert_eq!(r.value(), 9);
    assert_eq!("x".parse::<Rating>(), Err(RatingError::NotANumber));
}

#[test]
fn rating_from_stored_keeps_any_value() {
    assert_eq!(Rating::from_stored(42).value(), 42);
}

#[test]
fn decimal_strings() {
    assert_eq!(decimal_string(0), "0");
    assert_eq!(decimal_string(1234), "1234");
    assert_eq!(decimal_string(u64::MAX), "18446744073709551615");
}

#[test]
fn decimal_text_parses_back() {
    for n in [0u64, 7, 10, 255, 65535, 1234567890] {
        assert_eq!(parse_decimal(&decimal_string(n), u64::MAX), Some(n));
    }
    for v in 0u8..=10 {
        assert_eq!(Rating::parse(&decimal_string(v as u64)).unwrap().value(), v);
    }
}

#[test]
fn parse_decimal_limits() {
    assert_eq!(parse_decimal("18446744073709551615", u64::MAX), Some(u64::MAX));
    assert_eq!(parse_decimal("18446744073709551616", u64::MAX), None);
    assert_eq!(parse_decimal("99999999999999999999999x", u64::MAX), None);
    assert_eq!(parse_decimal("12a", u64::MAX), None);
    assert_eq!(parse_decimal("٣", u64::MAX), None);
}

#[test]
fn split_whitespace_matches_std() {
    let texts = ["  a b\tc\n", "", "   ", "one", "x\u{a0}y\u{3000}z", "a\u{200b}b", "!add  The   Matrix"];
    for t in texts {
        let ours = split_whitespace(t);
        let std_words: Vec<String> = t.split_whitespace().map(|s| s.to_string()).collect();
        assert_eq!(ours, std_words);
    }
}

#[test]
fn find_args_skips_the_command() {
    assert_eq!(find_args("!add The Matrix  Reloaded"), vec!["The", "Matrix", "Reloaded"]);
    assert_eq!(find_args("!list"), Vec::<String>::new());
    assert_eq!(find_args(""), Vec::<String>::new());
    assert_eq!(find_args("  !list   2 "), vec!["2"]);
}

#[test]
fn join_puts_the_separator_between() {
    let parts = vec!["a".to_string(), "b".to_string(), "c".to_string()];
    assert_eq!(join(&parts, ", "), "a, b, c");
    assert_eq!(join(&Vec::new(), " "), "");
    assert_eq!(join(&vec!["solo".to_string()], " "), "solo");
}

#[test]
fn string_tests() {
    assert!(str_equal("list", "list"));
    assert!(!str_equal("list", "lists"));
    assert!(starts_with("adv_next_movie", "adv"));
    assert!(!starts_with("ad", "adv"));
    assert!(starts_with("anything", ""));
}
