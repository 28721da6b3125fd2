use movie_bot::listing::{
    format_entry, list_page_arg, list_page_text, list_reply, seen_date,
    slash_list_page, slash_list_reply, total_pages, RatedMovie,
};
use movie_bot::query::{QueryHandler, QueryMessage};
use movie_bot::rating::Rating;
use movie_bot::tmdb::Movie;

fn message(id: u64, index: usize, size: usize) -> QueryMessage {
    QueryMessage { id, query: "matrix".to_string(), current_index: index, size }
}

#[test]
fn query_handler_registers_and_reads() {
    let mut h = QueryHandler::default();
    assert!(h.current(1).is_none());
    h.create_query(1, message(1, 0, 3));
    let m = h.current(1).unwrap();
    assert_eq!((m.id, m.query.as_str(), m.current_index, m.size), (1, "matrix", 0, 3));
    assert!(h.current(2).is_none());
}

#[test]
fn query_handler_pages_forward_and_back() {
    let mut h = QueryHandler::default();
    h.create_query(7, message(7, 0, 2));
    assert!(h.previous(7).is_none());
    assert_eq!(h.next(7).unwrap().current_index, 1);
    assert_eq!(h.next(7).unwrap().current_index, 2);
    assert!(h.next(7).is_none());
    assert_eq!(h.current(7).unwrap().current_index, 2);
    assert_eq!(h.previous(7).unwrap().current_index, 1);
    assert_eq!(h.current(7).unwrap().current_index, 1);
    assert!(h.next(8).is_none());
    assert!(h.previous(8).is_none());
}

#[test]
fn previous_undoes_next() {
    let mut h = QueryHandler::default();
    h.create_query(1, message(1, 1, 5));
    h.create_query(2, message(2, 4, 5));
    h.next(1).unwrap();
    let back = h.previous(1).unwrap();
    assert_eq!(back.current_index, 1);
    assert_eq!(h.current(2).unwrap().current_index, 4);
}

#[test]
fn has_next_and_previous() {
    assert!(message(1, 0, 2).has_next());
    assert!(!message(1, 1, 2).has_next());
    assert!(!message(1, 0, 0).has_next());
    assert!(!message(1, 0, 1).has_previous());
    assert!(message(1, 1, 2).has_previous());
}

#[test]
fn total_pages_rounds_up() {
    assert_eq!(total_pages(0), 0);
    assert_eq!(total_pages(1), 1);
    assert_eq!(total_pages(5), 1);
    assert_eq!(total_pages(6), 2);
    assert_eq!(total_pages(10), 2);
    assert_eq!(total_pages(11), 3);
}

#[test]
fn dates_print_as_day_month_year() {
    // 2023-03-07T12:00:00Z
    assert_eq!(seen_date(1678190400000), "07/03/2023");
    // 1000-06-15T12:00:00Z
    assert_eq!(seen_date(-30595924800000), "15/06/1000");
    // 0500-06-15T12:00:00Z, a year below 1000 is padded to four digits
    assert_eq!(seen_date(-46374379200000), "15/06/0500");
}

#[test]
fn seen_dates_are_in_mexico_city() {
    assert_eq!(seen_date(0), "31/12/1969");
    assert_eq!(seen_date(1704110400000), "01/01/2024");
    assert_eq!(seen_date(1704088799000), "31/12/2023");
    assert_eq!(seen_date(1704088800000), "01/01/2024");
}

#[test]
fn entries_show_title_rating_and_date() {
    assert_eq!(
        format_entry("Alien", 9, "01/02/2020"),
        "**Alien**\nRate of 9/10\nSeen at 01/02/2020\n"
    );
}

fn rated(title: &str, rating: u8) -> RatedMovie {
    RatedMovie {
        rating: Rating::new(rating).unwrap(),
        movie: Movie { id: 1, title: title.to_string(), overview: String::new(), poster_path: None },
        date: 1704110400000,
    }
}

#[test]
fn list_pages_show_five_movies() {
    let movies: Vec<RatedMovie> = (0..7).map(|i| rated(&format!("M{}", i), i as u8)).collect();
    let page2 = list_page_text(&movies, 2);
    assert_eq!(
        page2,
        "Page (2/2)\n\n**M5**\nRate of 5/10\nSeen at 01/01/2024\n\n**M6**\nRate of 6/10\nSeen at 01/01/2024\n"
    );
    let page1 = list_page_text(&movies, 1);
    assert!(page1.starts_with("Page (1/2)\n\n**M0**"));
    assert_eq!(page1.matches("Rate of").count(), 5);
    assert_eq!(list_page_text(&movies, 3), "Page (3/2)\n\n");
}

#[test]
fn list_reply_without_movies() {
    assert_eq!(list_reply(&Vec::new(), 0), "No haz guardado ninguna pelicula.");
    assert_eq!(list_reply(&vec![rated("X", 1)], 1), "Page (1/1)\n\n**X**\nRate of 1/10\nSeen at 01/01/2024\n");
}

#[test]
fn list_page_argument() {
    assert_eq!(list_page_arg(&vec![]), Some(1));
    assert_eq!(list_page_arg(&vec!["3".to_string(), "x".to_string()]), Some(3));
    assert_eq!(list_page_arg(&vec!["x".to_string()]), None);
    assert_eq!(list_page_arg(&vec!["-1".to_string()]), None);
}

#[test]
fn slash_list_page_option() {
    assert_eq!(slash_list_page(None), Ok(1));
    assert_eq!(slash_list_page(Some(4)), Ok(4));
    assert_eq!(slash_list_page(Some(0)), Err("Page number must be greater than 0".to_string()));
    assert_eq!(slash_list_page(Some(-3)), Err("Page number must be greater than 0".to_string()));
}

#[test]
fn slash_list_replies() {
    assert_eq!(slash_list_reply(Err("boom".to_string()), 1), Err("Error loading movies: boom".to_string()));
    assert_eq!(slash_list_reply(Ok(Vec::new()), 1), Ok("No movies found".to_string()));
    assert_eq!(
        slash_list_reply(Ok(vec![rated("Y", 10)]), 1),
        Ok("Page (1/1)\n\n**Y**\nRate of 10/10\nSeen at 01/01/2024\n".to_string())
    );
}

#[test]
fn next_undoes_previous() {
    let mut h = QueryHandler::default();
    h.create_query(3, message(3, 2, 4));
    assert_eq!(h.previous(3).unwrap().current_index, 1);
    let again = h.next(3).unwrap();
    assert_eq!((again.current_index, again.size), (2, 4));
    assert_eq!(h.current(3).unwrap().current_index, 2);
}

#[test]
fn paging_keeps_indices_within_results() {
    let mut h = QueryHandler::default();
    h.create_query(1, message(1, 0, 3));
    for _ in 0..10 {
        h.next(1);
        let m = h.current(1).unwrap();
        assert!(m.current_index <= m.size);
    }
    for _ in 0..10 {
        h.previous(1);
        let m = h.current(1).unwrap();
        assert!(m.current_index <= m.size);
    }
    assert_eq!(h.current(1).unwrap().current_index, 0);
}

#[test]
fn pages_tile_the_list() {
    let movies: Vec<RatedMovie> = (0..12).map(|i| rated(&format!("T{}", i), (i % 11) as u8)).collect();
    let mut seen = Vec::new();
    for p in 1..=total_pages(movies.len()) {
        let text = list_page_text(&movies, p);
        let count = text.matches("Rate of").count();
        assert!(count <= 5);
        for i in 0..12 {
            if text.contains(&format!("**T{}**", i)) {
                seen.push(i);
            }
        }
    }
    assert_eq!(seen, (0..12).collect::<Vec<_>>());
}
