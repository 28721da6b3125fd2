use movie_bot::commands::{
    add_query, check_owner, classify_command, interaction_reply, list_command_definition,
    unknown_command_reply, SlashCommand,
};
use movie_bot::messages::{
    classify_interaction, color_from_bits, create_embed, creation_buttons, is_next_request,
    page_change_buttons, page_change_view, random_color, rating_options, search_reply,
    selected_rating, turn_page, InteractionKind, SearchReply, SelectionError, MAX_COLOR,
};
use movie_bot::query::{QueryHandler, QueryMessage};
use movie_bot::rating::RatingError;
use movie_bot::tmdb::{poster_url, results_or_empty, Movie, PagedResponse, SearchStep, TmDb};

fn movie(title: &str) -> Movie {
    Movie {
        id: 3,
        title: title.to_string(),
        overview: "About".to_string(),
        poster_path: Some("https://image.tmdb.org/t/p/w500/p.jpg".to_string()),
    }
}

fn page(movies: Vec<Movie>) -> PagedResponse<Movie> {
    PagedResponse { page: Some(1), total_results: Some(movies.len() as u32), total_pages: Some(1), results: movies }
}

#[test]
fn colors_keep_24_bits() {
    assert_eq!(color_from_bits(0xFFFF_FFFF), 0xFF_FFFF);
    assert_eq!(color_from_bits(0x1234_5678), 0x34_5678);
    for _ in 0..20 {
        assert!(random_color() <= MAX_COLOR);
    }
}

#[test]
fn embeds_show_the_movie() {
    let e = create_embed(&movie("Heat"), 2, 7);
    assert_eq!(e.title, "Heat");
    assert_eq!(e.description, "About");
    assert_eq!(e.footer, "Page: 2 / 7");
    assert_eq!(e.image.as_deref(), Some("https://image.tmdb.org/t/p/w500/p.jpg"));
    assert!(e.color <= MAX_COLOR);
}

#[test]
fn buttons_follow_the_position() {
    assert!(creation_buttons(1).is_empty());
    let b = creation_buttons(2);
    assert_eq!((b[0].label.as_str(), b[0].custom_id.as_str()), ("Next", "adv_next_movie"));
    let mid = QueryMessage { id: 1, query: "q".to_string(), current_index: 1, size: 3 };
    let labels: Vec<String> = page_change_buttons(&mid).into_iter().map(|b| b.custom_id).collect();
    assert_eq!(labels, vec!["adv_prev_movie", "adv_next_movie"]);
    let last = QueryMessage { id: 1, query: "q".to_string(), current_index: 2, size: 3 };
    let labels: Vec<String> = page_change_buttons(&last).into_iter().map(|b| b.label).collect();
    assert_eq!(labels, vec!["Previous"]);
}

#[test]
fn rating_menu_offers_one_to_ten() {
    let options = rating_options();
    assert_eq!(options.len(), 10);
    assert_eq!(options[0].label, "Rating: 1");
    assert_eq!(options[0].value, "1");
    assert_eq!(options[0].description, "⭐");
    assert_eq!(options[9].label, "Rating: 10");
    assert_eq!(options[9].value, "10");
    for (k, o) in options.iter().enumerate() {
        let chosen = selected_rating(&vec![o.value.clone()]).unwrap();
        assert_eq!(chosen.value() as usize, k + 1);
    }
}

#[test]
fn selected_rating_errors() {
    assert!(matches!(
        selected_rating(&vec!["12".to_string()]),
        Err(SelectionError::Rating(RatingError::OutOfRange))
    ));
    match selected_rating(&vec!["ten".to_string()]) {
        Err(SelectionError::NotAU8(e)) => assert_eq!(e, "ten".parse::<u8>().unwrap_err()),
        _ => panic!("expected a parse error"),
    }
    assert!(matches!(selected_rating(&vec!["256".to_string()]), Err(SelectionError::NotAU8(_))));
    assert_eq!(selected_rating(&vec!["+7".to_string(), "x".to_string()]).unwrap().value(), 7);
}

#[test]
fn search_replies() {
    match search_reply("nothing", &page(vec![])) {
        SearchReply::NoResults(text) => assert_eq!(text, "No results found for: nothing"),
        SearchReply::Show(..) => panic!("expected no results"),
    }
    match search_reply("heat", &page(vec![movie("Heat"), movie("Heat 2")])) {
        SearchReply::Show(view, size) => {
            assert_eq!(size, 2);
            assert_eq!(view.message.content, "Showing results for: heat");
            assert_eq!(view.message.embed.footer, "Page: 1 / 2");
            assert_eq!(view.buttons.len(), 1);
            assert_eq!(view.rating_options.len(), 10);
        }
        SearchReply::NoResults(_) => panic!("expected a result"),
    }
}

#[test]
fn page_change_views() {
    let q = QueryMessage { id: 9, query: "heat".to_string(), current_index: 1, size: 2 };
    let view = page_change_view(&movie("Heat 2"), &q);
    assert_eq!(view.message.content, "Showing results for: heat");
    assert_eq!(view.message.embed.footer, "Page: 2 / 2");
    assert_eq!(view.buttons.len(), 1);
    assert_eq!(view.buttons[0].custom_id, "adv_prev_movie");
}

#[test]
fn interactions_are_told_apart() {
    assert_eq!(classify_interaction("adv_next_movie"), InteractionKind::PageChange);
    assert_eq!(classify_interaction("adv_prev_movie"), InteractionKind::PageChange);
    assert_eq!(classify_interaction("advance"), InteractionKind::PageChange);
    assert_eq!(classify_interaction("add_movie"), InteractionKind::Rate);
    assert_eq!(classify_interaction("other"), InteractionKind::Ignored);
    assert!(is_next_request("adv_next_movie"));
    assert!(!is_next_request("adv_prev_movie"));
}

#[test]
fn turning_pages() {
    let mut h = QueryHandler::default();
    h.create_query(5, QueryMessage { id: 5, query: "q".to_string(), current_index: 0, size: 3 });
    assert_eq!(turn_page(&mut h, 5, "adv_next_movie").unwrap().current_index, 1);
    assert_eq!(turn_page(&mut h, 5, "adv_prev_movie").unwrap().current_index, 0);
    assert!(turn_page(&mut h, 5, "adv_prev_movie").is_none());
}

#[test]
fn owners_and_commands() {
    assert!(check_owner(452644418995093526));
    assert!(check_owner(894381937651765279));
    assert!(!check_owner(1));
    assert_eq!(classify_command("list"), SlashCommand::List);
    assert_eq!(classify_command("ping"), SlashCommand::Unknown);
    assert_eq!(unknown_command_reply(), Ok("Unknown command".to_string()));
    assert_eq!(interaction_reply(Ok("hi".to_string())), "hi");
    assert_eq!(interaction_reply(Err("bad".to_string())), "Error: bad");
    assert_eq!(add_query(&vec!["The".to_string(), "Matrix".to_string()]), "The Matrix");
    let def = list_command_definition();
    assert_eq!(def.name, "list");
    assert_eq!(def.options[0].name, "page");
    assert!(!def.options[0].required);
}

#[test]
fn response_fields() {
    assert!(results_or_empty::<Movie>(None).is_empty());
    assert_eq!(results_or_empty(Some(vec![movie("A")])).len(), 1);
    assert_eq!(poster_url(Some("/p.jpg".to_string())), Some("https://image.tmdb.org/t/p/w500/p.jpg".to_string()));
    assert_eq!(poster_url(None), None);
}

#[test]
fn searches_are_cached() {
    let mut db = TmDb::new("KEY".to_string());
    match db.find_movies("heat") {
        SearchStep::Fetch(req) => {
            assert_eq!(req.url, "https://api.themoviedb.org/3/search/movie");
            assert_eq!(req.bearer_token, "KEY");
            assert_eq!(
                req.params,
                vec![
                    ("query".to_string(), "heat".to_string()),
                    ("include_adult".to_string(), "true".to_string())
                ]
            );
        }
        SearchStep::Cached(_) => panic!("an empty cache holds nothing"),
    }
    let answered = db.remember_search("heat", page(vec![movie("Heat")]));
    assert_eq!(answered.results[0].title, "Heat");
    match db.find_movies("heat") {
        SearchStep::Cached(p) => assert_eq!(p.results[0].title, "Heat"),
        SearchStep::Fetch(_) => panic!("the search was just stored"),
    }
    let second = db.remember_search("alien", page(vec![movie("Alien")]));
    assert_eq!(second.results[0].title, "Alien");
    match db.find_movies("heat") {
        SearchStep::Cached(p) => assert_eq!(p.results[0].title, "Heat"),
        SearchStep::Fetch(_) => panic!("the cache has room for both searches"),
    }
    match db.find_movies("matrix") {
        SearchStep::Fetch(req) => assert_eq!(req.params[0].1, "matrix"),
        SearchStep::Cached(_) => panic!("never searched"),
    }
}

#[test]
fn creation_buttons_match_paging_buttons() {
    for size in 0..4usize {
        let first = QueryMessage { id: 1, query: "q".to_string(), current_index: 0, size };
        let a: Vec<String> = creation_buttons(size).into_iter().map(|b| b.custom_id).collect();
        let b: Vec<String> = page_change_buttons(&first).into_iter().map(|b| b.custom_id).collect();
        assert_eq!(a, b);
    }
}
