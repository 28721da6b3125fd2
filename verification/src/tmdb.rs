//! The movie database: URLs of its API and of its images, the search
//! results it answers with, and the cache of searches.

use vstd::prelude::*;
use moka::sync::Cache;
use crate::text::starts_with;

verus! {

/// Where the API of the movie database is served.
pub const BASE_URL: &'static str = "https://api.themoviedb.org/3";

/// Where the movie database serves its posters.
pub const BASE_IMAGE_URL: &'static str = "https://image.tmdb.org/t/p/w500";

/// How many searches the cache holds.
pub const SEARCH_CACHE_CAPACITY: u64 = 100;

/// `path` under `base`: a path that begins with `/` is appended as it is,
/// any other path after a `/`.
pub open spec fn join_url(base: Seq<char>, path: Seq<char>) -> Seq<char> {
    if path.len() > 0 && path[0] == '/' {
        base + path
    } else {
        base + "/"@ + path
    }
}

pub open spec fn spec_build_path(path: Seq<char>) -> Seq<char> {
    join_url(BASE_URL@, path)
}

pub open spec fn spec_build_image_path(path: Seq<char>) -> Seq<char> {
    join_url(BASE_IMAGE_URL@, path)
}

fn join_url_exec(base: &str, path: &str) -> (r: String)
    ensures
        r@ == join_url(base@, path@),
{
    proof {
        reveal_strlit("/");
    }
    let mut url = base.to_owned();
    if starts_with(path, "/") {
        assert(path@[0] == path@.take(1)[0]);
        url.append(path);
    } else {
        proof {
            if path@.len() > 0 && path@[0] == '/' {
                assert(path@.take(1) =~= "/"@);
            }
        }
        url.append("/");
        url.append(path);
    }
    url
}

/// The URL of an API path.
pub fn build_path(path: &str) -> (r: String)
    ensures
        r@ == spec_build_path(path@),
{
    join_url_exec(BASE_URL, path)
}

/// The URL of an image path.
pub fn build_image_path(path: &str) -> (r: String)
    ensures
        r@ == spec_build_image_path(path@),
{
    join_url_exec(BASE_IMAGE_URL, path)
}

/// A leading `/` makes no difference to an API URL, nor to an image URL.
pub proof fn law_leading_slash_is_optional(path: Seq<char>)
    requires
        !(path.len() > 0 && path[0] == '/'),
    ensures
        spec_build_path("/"@ + path) == spec_build_path(path),
        spec_build_image_path("/"@ + path) == spec_build_image_path(path),
{
    reveal_strlit("/");
    assert(("/"@ + path)[0] == '/');
    assert(BASE_URL@ + ("/"@ + path) =~= BASE_URL@ + "/"@ + path);
    assert(BASE_IMAGE_URL@ + ("/"@ + path) =~= BASE_IMAGE_URL@ + "/"@ + path);
}

/// Every API URL lies under the API's base URL, and ends with the path.
pub proof fn law_api_urls_extend_the_base(path: Seq<char>)
    ensures
        spec_build_path(path).take(BASE_URL@.len() as int) == BASE_URL@,
        spec_build_path(path).skip(spec_build_path(path).len() - path.len()) == path,
{
    let u = spec_build_path(path);
    assert(u.take(BASE_URL@.len() as int) =~= BASE_URL@);
    assert(u.skip(u.len() - path.len()) =~= path);
}

/// What a movie holds: id, title, overview and poster URL.
pub type MovieView = (u32, Seq<char>, Seq<char>, Option<Seq<char>>);

/// A movie as the database describes it.
#[derive(Debug, Clone)]
pub struct Movie {
    pub id: u32,
    pub title: String,
    pub overview: String,
    pub poster_path: Option<String>,
}

pub open spec fn opt_string_view(s: Option<String>) -> Option<Seq<char>> {
    match s {
        Some(v) => Some(v@),
        None => None,
    }
}

impl View for Movie {
    type V = MovieView;

    open spec fn view(&self) -> MovieView {
        (self.id, self.title@, self.overview@, opt_string_view(self.poster_path))
    }
}

pub fn copy_opt_string(s: &Option<String>) -> (r: Option<String>)
    ensures
        opt_string_view(r) == opt_string_view(*s),
{
    match s {
        Some(v) => Some(v.clone()),
        None => None,
    }
}

impl Movie {
    /// A movie equal to this one.
    pub fn duplicate(&self) -> (r: Movie)
        ensures
            r@ == self@,
    {
        Movie {
            id: self.id,
            title: self.title.clone(),
            overview: self.overview.clone(),
            poster_path: copy_opt_string(&self.poster_path),
        }
    }
}

/// One page of results of the database.
#[derive(Debug, Clone)]
pub struct PagedResponse<T> {
    pub page: Option<u32>,
    pub total_results: Option<u32>,
    pub total_pages: Option<u32>,
    pub results: Vec<T>,
}

impl<T: View> View for PagedResponse<T> {
    type V = (Option<u32>, Option<u32>, Option<u32>, Seq<T::V>);

    open spec fn view(&self) -> (Option<u32>, Option<u32>, Option<u32>, Seq<T::V>) {
        (self.page, self.total_results, self.total_pages, self.results@.map_values(|m: T| m@))
    }
}

/// What a page of movies holds.
pub type MoviePageView = (Option<u32>, Option<u32>, Option<u32>, Seq<MovieView>);

impl PagedResponse<Movie> {
    /// A page equal to this one.
    pub fn duplicate(&self) -> (r: PagedResponse<Movie>)
        ensures
            r@ == self@,
    {
        let mut results: Vec<Movie> = Vec::new();
        let mut i: usize = 0;
        while i < self.results.len()
            invariant
                i <= self.results@.len(),
                results@.len() == i,
                forall|k: int| 0 <= k < i ==> #[trigger] results@[k]@ == self.results@[k]@,
            decreases self.results@.len() - i,
        {
            results.push(self.results[i].duplicate());
            i = i + 1;
        }
        assert(results@.map_values(|m: Movie| m@) =~= self.results@.map_values(|m: Movie| m@));
        PagedResponse {
            page: self.page,
            total_results: self.total_results,
            total_pages: self.total_pages,
            results,
        }
    }
}

/// The results of a response, where a missing list counts as empty.
pub fn results_or_empty<T>(results: Option<Vec<T>>) -> (r: Vec<T>)
    ensures
        r@ == (match results {
            Some(v) => v@,
            None => Seq::<T>::empty(),
        }),
{
    match results {
        Some(v) => v,
        None => Vec::new(),
    }
}

/// The URL of a poster, where the database gives its path.
pub fn poster_url(path: Option<String>) -> (r: Option<String>)
    ensures
        opt_string_view(r) == (match path {
            Some(p) => Some(spec_build_image_path(p@)),
            None => None::<Seq<char>>,
        }),
{
    match path {
        Some(p) => Some(build_image_path(p.as_str())),
        None => None,
    }
}

#[verifier::external_type_specification]
#[verifier::external_body]
#[verifier::reject_recursive_types(K)]
#[verifier::reject_recursive_types(V)]
#[verifier::reject_recursive_types(S)]
pub struct ExCache<K, V, S>(Cache<K, V, S>);

/// The cache of searches: each query with the page of movies it answered.
pub type SearchCache = Cache<String, PagedResponse<Movie>>;

/// What the search cache holds: each query with its page of movies.
pub uninterp spec fn cached_searches(cache: SearchCache) -> Map<Seq<char>, MoviePageView>;

/// The largest number of entries the search cache was made to hold.
pub uninterp spec fn cache_capacity(cache: SearchCache) -> nat;

/// Makes an empty search cache.
///
/// Calls `moka::sync::Cache::new`, which builds a cache with no entries that
/// holds up to `max_capacity` of them.
#[verifier::external_body]
fn cache_new(max_capacity: u64) -> (r: SearchCache)
    ensures
        cached_searches(r) =~= Map::empty(),
        cache_capacity(r) == max_capacity,
{
    Cache::new(max_capacity)
}

/// Looks a query up in the cache.
///
/// Calls `moka::sync::Cache::get`, which looks the key up in the cache's map
/// before any housekeeping: it answers a clone of the value stored under the
/// key where there is one (no entry of this cache expires), else `None`. The
/// housekeeping that may run during the call only drops entries, and drops
/// none while the cache holds no more entries than its capacity. Nothing is
/// claimed of which entries the eviction policy drops from a fuller cache.
#[verifier::external_body]
fn cache_get(cache: &mut SearchCache, query: &str) -> (r: Option<PagedResponse<Movie>>)
    ensures
        cached_searches(*final(cache)).submap_of(cached_searches(*old(cache))),
        cache_capacity(*final(cache)) == cache_capacity(*old(cache)),
        r matches Some(page) ==> cached_searches(*old(cache)).contains_key(query@)
            && page@ == cached_searches(*old(cache))[query@],
        r is None ==> !cached_searches(*old(cache)).contains_key(query@),
        cached_searches(*old(cache)).dom().len() <= cache_capacity(*old(cache))
            ==> cached_searches(*final(cache)) == cached_searches(*old(cache)),
{
    cache.get(query)
}

/// Stores the page a query answered.
///
/// Calls `moka::sync::Cache::insert`, which writes the value into the cache's
/// map at once under the key, replacing an older one. The eviction policy may
/// then refuse or drop entries, the new one too, so what is left is a part of
/// the old entries with the new one put in; but while there is room for the
/// new entry (fewer entries than the capacity), it is admitted and nothing is
/// dropped. Nothing is claimed of which entries it drops from a full cache.
#[verifier::external_body]
fn cache_insert(cache: &mut SearchCache, query: String, page: PagedResponse<Movie>)
    ensures
        cached_searches(*final(cache)).submap_of(cached_searches(*old(cache)).insert(query@, page@)),
        cache_capacity(*final(cache)) == cache_capacity(*old(cache)),
        cached_searches(*old(cache)).dom().len() < cache_capacity(*old(cache))
            ==> cached_searches(*final(cache)) == cached_searches(*old(cache)).insert(query@, page@),
{
    cache.insert(query, page);
}

/// A search request for the API: URL, bearer token and query parameters.
pub struct SearchRequest {
    pub url: String,
    pub bearer_token: String,
    pub params: Vec<(String, String)>,
}

impl View for SearchRequest {
    type V = (Seq<char>, Seq<char>, Seq<(Seq<char>, Seq<char>)>);

    open spec fn view(&self) -> (Seq<char>, Seq<char>, Seq<(Seq<char>, Seq<char>)>) {
        (self.url@, self.bearer_token@, self.params@.map_values(|p: (String, String)| (p.0@, p.1@)))
    }
}

/// The API path of the movie search.
pub const SEARCH_PATH: &'static str = "/search/movie";

/// The request that searches movies: `GET` on the search path, authorized by
/// the API key, with the query and adult titles included.
pub open spec fn spec_search_request(api_key: Seq<char>, query: Seq<char>) -> (
    Seq<char>,
    Seq<char>,
    Seq<(Seq<char>, Seq<char>)>,
) {
    (
        spec_build_path(SEARCH_PATH@),
        api_key,
        seq![("query"@, query), ("include_adult"@, "true"@)],
    )
}

/// What a search turns into: a page found in the cache, or a request to send.
pub enum SearchStep {
    Cached(PagedResponse<Movie>),
    Fetch(SearchRequest),
}

/// The client of the movie database: its API key and its cache of searches.
pub struct TmDb {
    api_key: String,
    search_cache: SearchCache,
}

impl TmDb {
    /// The API key the client sends.
    pub closed spec fn key(&self) -> Seq<char> {
        self.api_key@
    }

    /// What the cache of the client holds.
    pub closed spec fn cached(&self) -> Map<Seq<char>, MoviePageView> {
        cached_searches(self.search_cache)
    }

    /// How many searches the cache of the client was made to hold.
    pub closed spec fn capacity(&self) -> nat {
        cache_capacity(self.search_cache)
    }

    /// A client with an API key and an empty cache of 100 searches.
    pub fn new(api_key: String) -> (r: TmDb)
        ensures
            r.key() == api_key@,
            r.cached() =~= Map::empty(),
            r.capacity() == 100,
    {
        TmDb { api_key, search_cache: cache_new(SEARCH_CACHE_CAPACITY) }
    }

    /// The request that searches a query.
    pub fn search_request(&self, query: &str) -> (r: SearchRequest)
        ensures
            r@ == spec_search_request(self.key(), query@),
    {
        let mut params: Vec<(String, String)> = Vec::new();
        params.push(("query".to_owned(), query.to_owned()));
        params.push(("include_adult".to_owned(), "true".to_owned()));
        let r = SearchRequest { url: build_path(SEARCH_PATH), bearer_token: self.api_key.clone(), params };
        assert(r@.2 =~= seq![("query"@, query@), ("include_adult"@, "true"@)]);
        r
    }

    /// Starts a search: a query whose page is in the cache is answered from
    /// it, any other turns into the request to send. A lookup drops nothing
    /// from a cache that holds no more than its capacity.
    pub fn find_movies(&mut self, query: &str) -> (r: SearchStep)
        ensures
            final(self).key() == old(self).key(),
            final(self).capacity() == old(self).capacity(),
            final(self).cached().submap_of(old(self).cached()),
            old(self).cached().dom().len() <= old(self).capacity() ==> final(self).cached()
                == old(self).cached(),
            old(self).cached().contains_key(query@) <==> r is Cached,
            match r {
                SearchStep::Cached(page) => old(self).cached().contains_key(query@)
                    && page@ == old(self).cached()[query@],
                SearchStep::Fetch(request) => request@ == spec_search_request(old(self).key(), query@)
                    && !final(self).cached().contains_key(query@),
            },
    {
        match cache_get(&mut self.search_cache, query) {
            Some(page) => SearchStep::Cached(page),
            None => SearchStep::Fetch(self.search_request(query)),
        }
    }

    /// Ends a search with the page the database answered: the page is stored
    /// in the cache under the query and handed back. While the cache has room
    /// the page is kept and nothing else is dropped.
    pub fn remember_search(&mut self, query: &str, page: PagedResponse<Movie>) -> (r: PagedResponse<Movie>)
        ensures
            r@ == page@,
            final(self).key() == old(self).key(),
            final(self).capacity() == old(self).capacity(),
            final(self).cached().submap_of(old(self).cached().insert(query@, page@)),
            old(self).cached().dom().len() < old(self).capacity() ==> final(self).cached()
                == old(self).cached().insert(query@, page@),
    {
        let stored = page.duplicate();
        cache_insert(&mut self.search_cache, query.to_owned(), stored);
        page
    }
}

/// A page the cache answers for a query is the page last stored for it:
/// once `remember_search` has stored a page, whatever the cache still holds
/// for that query is that page.
pub proof fn law_cache_answers_the_stored_page(
    before: Map<Seq<char>, MoviePageView>,
    after: Map<Seq<char>, MoviePageView>,
    query: Seq<char>,
    page: MoviePageView,
)
    requires
        after.submap_of(before.insert(query, page)),
        after.contains_key(query),
    ensures
        after[query] == page,
{
    assert(after.dom().contains(query));
    assert(before.insert(query, page).dom().contains(query));
    assert(before.insert(query, page)[query] == page);
}

/// Looking a query up never adds to the cache, and storing a page adds at
/// most that page: the cache holds only pages that the database answered.
pub proof fn law_cache_only_holds_stored_pages(
    before: Map<Seq<char>, MoviePageView>,
    after_lookup: Map<Seq<char>, MoviePageView>,
    after_store: Map<Seq<char>, MoviePageView>,
    query: Seq<char>,
    page: MoviePageView,
    other: Seq<char>,
)
    requires
        after_lookup.submap_of(before),
        after_store.submap_of(after_lookup.insert(query, page)),
        other != query,
        after_store.contains_key(other),
    ensures
        before.contains_key(other),
        after_store[other] == before[other],
{
    assert(after_store.dom().contains(other));
    assert(after_lookup.insert(query, page).dom().contains(other));
    assert(after_lookup.dom().contains(other));
}

/// A search stored while the cache had room is answered from the cache: after
/// `remember_search`, the cache holds the page under the query, so the next
/// `find_movies` of that query answers it without a request.
pub proof fn law_stored_search_is_answered_from_the_cache(
    before: Map<Seq<char>, MoviePageView>,
    query: Seq<char>,
    page: MoviePageView,
)
    ensures
        before.insert(query, page).contains_key(query),
        before.insert(query, page)[query] == page,
{
}

/// A search request asks the search endpoint of the API, authorized by the
/// key, for the query text exactly as it was given, with adult titles
/// included: different queries make requests with different query parameters.
pub proof fn law_search_request_sends_the_whole_query(
    api_key: Seq<char>,
    query: Seq<char>,
    other: Seq<char>,
)
    ensures
        spec_search_request(api_key, query).0 == BASE_URL@ + "/search/movie"@,
        spec_search_request(api_key, query).1 == api_key,
        spec_search_request(api_key, query).2.len() == 2,
        spec_search_request(api_key, query).2[0] == ("query"@, query),
        spec_search_request(api_key, query).2[1] == ("include_adult"@, "true"@),
        query != other ==> spec_search_request(api_key, query).2 != spec_search_request(api_key, other).2,
{
    reveal_strlit("/search/movie");
    assert(SEARCH_PATH@[0] == '/');
    if query != other {
        assert(spec_search_request(api_key, query).2[0] != spec_search_request(api_key, other).2[0]);
    }
}

} // verus!
