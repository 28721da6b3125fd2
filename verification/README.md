# movie_bot

A Discord bot that searches The Movie Database and keeps a list of the movies
its owners have rated. The logic is a library verified with Verus; the bot
itself, which talks to Discord, MongoDB and the movie database, is in `app/`.

- `src/text.rs`: decimal numerals, number parsing, white-space splitting, joining.
- `src/rating.rs`: ratings from zero to ten, their stars and their parsing.
- `src/tmdb.rs`: API and image URLs, movies, pages of results, the search cache.
- `src/query.rs`: the paging position of each message that shows results.
- `src/messages.rs`: the messages, buttons and menus of a search, and the interactions on them.
- `src/listing.rs`: the pages of the list of rated movies and their dates.
- `src/commands.rs`: who may use the commands and what they answer.
