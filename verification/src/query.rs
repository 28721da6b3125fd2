//! Paging state of the search results shown in chat messages.
//!
//! Every message that shows search results has a `QueryMessage`: the query,
//! the index of the movie on display and the number of results. The
//! `QueryHandler` keeps them in a concurrent hash map, keyed by the message id.

use vstd::prelude::*;
use chashmap::CHashMap;

verus! {

/// What a `QueryMessage` holds: message id, query, current index, result count.
pub type QueryMessageView = (u64, Seq<char>, usize, usize);

/// The paging position of one message of search results.
#[derive(Clone, Debug)]
pub struct QueryMessage {
    pub id: u64,
    pub query: String,
    pub current_index: usize,
    pub size: usize,
}

impl View for QueryMessage {
    type V = QueryMessageView;

    open spec fn view(&self) -> QueryMessageView {
        (self.id, self.query@, self.current_index, self.size)
    }
}

/// Whether a message has a result after the current one.
pub open spec fn spec_has_next(m: QueryMessageView) -> bool {
    m.2 + 1 < m.3
}

/// Whether a message has a result before the current one.
pub open spec fn spec_has_previous(m: QueryMessageView) -> bool {
    m.2 > 0
}

/// The message after a step forward: `None` when the index already equals the
/// result count, else the index moves up by one.
pub open spec fn step_next(m: QueryMessageView) -> Option<QueryMessageView> {
    if m.2 == m.3 {
        None
    } else {
        Some((m.0, m.1, (m.2 + 1) as usize, m.3))
    }
}

/// The message after a step back: `None` at index zero, else the index moves
/// down by one.
pub open spec fn step_previous(m: QueryMessageView) -> Option<QueryMessageView> {
    if m.2 == 0 {
        None
    } else {
        Some((m.0, m.1, (m.2 - 1) as usize, m.3))
    }
}

/// A step forward that the index type cannot hold: the index is at its
/// largest value and differs from the result count.
pub open spec fn next_overflows(m: QueryMessageView) -> bool {
    m.2 == usize::MAX && m.2 != m.3
}

/// The table after a step in one direction, and the message it answers.
pub open spec fn apply_step(
    table: Map<u64, QueryMessageView>,
    id: u64,
    step: Option<QueryMessageView>,
) -> (Map<u64, QueryMessageView>, Option<QueryMessageView>) {
    match step {
        Some(m) => (table.insert(id, m), Some(m)),
        None => (table, None),
    }
}

/// `next` on the table: a message that is not there, or whose index equals its
/// result count, is answered `None` and nothing changes.
pub open spec fn table_next(table: Map<u64, QueryMessageView>, id: u64) -> (
    Map<u64, QueryMessageView>,
    Option<QueryMessageView>,
) {
    if table.contains_key(id) {
        apply_step(table, id, step_next(table[id]))
    } else {
        (table, None)
    }
}

/// `previous` on the table: a message that is not there, or whose index is
/// zero, is answered `None` and nothing changes.
pub open spec fn table_previous(table: Map<u64, QueryMessageView>, id: u64) -> (
    Map<u64, QueryMessageView>,
    Option<QueryMessageView>,
) {
    if table.contains_key(id) {
        apply_step(table, id, step_previous(table[id]))
    } else {
        (table, None)
    }
}


/// Every stored index lies within its result count.
pub open spec fn indices_within_results(table: Map<u64, QueryMessageView>) -> bool {
    forall|k: u64| #[trigger] table.contains_key(k) ==> table[k].2 <= table[k].3
}

/// A step back undoes a step forward: after `next` has moved a message,
/// `previous` answers the message as it was and the table is as it was.
pub proof fn law_previous_undoes_next(table: Map<u64, QueryMessageView>, id: u64)
    requires
        table.contains_key(id),
        !next_overflows(table[id]),
        table_next(table, id).1 is Some,
    ensures
        table_previous(table_next(table, id).0, id) == (table, Some(table[id])),
{
    let moved = table_next(table, id).0;
    assert(moved[id] == (table[id].0, table[id].1, (table[id].2 + 1) as usize, table[id].3));
    assert(moved.insert(id, table[id]) =~= table);
}

/// A step forward undoes a step back: after `previous` has moved a message
/// whose index lies within its result count, `next` answers the message as it
/// was and the table is as it was.
pub proof fn law_next_undoes_previous(table: Map<u64, QueryMessageView>, id: u64)
    requires
        table.contains_key(id),
        table[id].2 <= table[id].3,
        table_previous(table, id).1 is Some,
    ensures
        table_next(table_previous(table, id).0, id) == (table, Some(table[id])),
{
    let moved = table_previous(table, id).0;
    assert(moved[id] == (table[id].0, table[id].1, (table[id].2 - 1) as usize, table[id].3));
    assert(moved.insert(id, table[id]) =~= table);
}

/// Paging keeps every index within its result count.
pub proof fn law_paging_keeps_indices_within_results(table: Map<u64, QueryMessageView>, id: u64)
    requires
        indices_within_results(table),
    ensures
        indices_within_results(table_next(table, id).0),
        indices_within_results(table_previous(table, id).0),
{
}

/// Paging one message leaves every other message as it was.
pub proof fn law_paging_touches_only_its_message(
    table: Map<u64, QueryMessageView>,
    id: u64,
    other: u64,
)
    requires
        other != id,
    ensures
        table_next(table, id).0.contains_key(other) == table.contains_key(other),
        table_previous(table, id).0.contains_key(other) == table.contains_key(other),
        table.contains_key(other) ==> table_next(table, id).0[other] == table[other],
        table.contains_key(other) ==> table_previous(table, id).0[other] == table[other],
{
}

/// Where a message offers a next result, a step forward lands on a result
/// that exists.
pub proof fn law_has_next_lands_on_a_result(m: QueryMessageView)
    requires
        spec_has_next(m),
    ensures
        step_next(m) == Some((m.0, m.1, (m.2 + 1) as usize, m.3)),
        m.2 + 1 < m.3,
{
}

/// A message offers a next result exactly when a result follows the one on
/// display, that is, exactly when a step forward (one the index type can
/// hold) lands on a result that exists; and it offers a previous result exactly when its index is above
/// zero.
pub proof fn law_has_next_iff_a_result_follows(m: QueryMessageView)
    ensures
        spec_has_next(m) <==> m.2 + 1 < m.3,
        !next_overflows(m) ==> (spec_has_next(m) <==> (step_next(m) matches Some(n) && n.2 < n.3)),
        spec_has_previous(m) <==> m.2 > 0,
{
}

/// A message offers a previous result exactly when a step back succeeds.
pub proof fn law_has_previous_iff_step_back(m: QueryMessageView)
    ensures
        spec_has_previous(m) <==> step_previous(m) is Some,
{
}

/// A registered message is what `current` answers for its id until it is paged.
pub proof fn law_created_query_is_current(
    table: Map<u64, QueryMessageView>,
    id: u64,
    m: QueryMessageView,
)
    ensures
        table.insert(id, m).contains_key(id),
        table.insert(id, m)[id] == m,
{
}

pub open spec fn opt_view(m: Option<QueryMessage>) -> Option<QueryMessageView> {
    match m {
        Some(q) => Some(q@),
        None => None,
    }
}

impl QueryMessage {
    /// Whether there is a result after the one on display.
    pub fn has_next(&self) -> (r: bool)
        ensures
            r == spec_has_next(self@),
    {
        self.size > 0 && self.current_index < self.size - 1
    }

    /// Whether there is a result before the one on display.
    pub fn has_previous(&self) -> (r: bool)
        ensures
            r == spec_has_previous(self@),
    {
        self.current_index > 0
    }

    /// Whether a step forward would take the index past the largest value its
    /// type holds.
    pub fn next_would_overflow(&self) -> (r: bool)
        ensures
            r == next_overflows(self@),
    {
        self.current_index == usize::MAX && self.current_index != self.size
    }

    /// A copy of this message with another index.
    pub fn with_index(&self, index: usize) -> (r: QueryMessage)
        ensures
            r@ == (self@.0, self@.1, index, self@.3),
    {
        QueryMessage { id: self.id, query: self.query.clone(), current_index: index, size: self.size }
    }
}

#[verifier::external_type_specification]
#[verifier::external_body]
#[verifier::reject_recursive_types(K)]
#[verifier::reject_recursive_types(V)]
pub struct ExCHashMap<K, V>(CHashMap<K, V>);

/// The map type that holds the paging positions, keyed by message id.
pub type QueryTable = CHashMap<u64, QueryMessage>;

/// What a table of query messages holds: each key with its message.
pub uninterp spec fn query_table(map: QueryTable) -> Map<u64, QueryMessageView>;

/// Makes an empty table.
///
/// Calls `CHashMap::new`, which builds a table with no entries.
#[verifier::external_body]
fn table_new() -> (r: QueryTable)
    ensures
        query_table(r) =~= Map::empty(),
{
    CHashMap::new()
}

/// Reads the message stored under a key.
///
/// Calls `CHashMap::get`, which finds the entry of the key, and clones the
/// stored message out of the read guard: `None` where the key has no entry,
/// else a message equal to the stored one. The table is left as it was.
#[verifier::external_body]
fn table_get(map: &QueryTable, id: u64) -> (r: Option<QueryMessage>)
    ensures
        opt_view(r) == (if query_table(*map).contains_key(id) {
            Some(query_table(*map)[id])
        } else {
            None
        }),
{
    match map.get(&id) {
        Some(guard) => Some((*guard).clone()),
        None => None,
    }
}

/// Adds an entry for a key that has none.
///
/// Calls `CHashMap::insert_new`. Its source puts the pair into a free bucket
/// without looking for an older entry of the key, and a debug assertion panics
/// where one exists; so the key must be new, and then the table gains exactly
/// that entry.
#[verifier::external_body]
fn table_insert_new(map: &mut QueryTable, id: u64, m: QueryMessage)
    requires
        !query_table(*old(map)).contains_key(id),
    ensures
        query_table(*final(map)) == query_table(*old(map)).insert(id, m@),
{
    map.insert_new(id, m);
}

/// Stores a message under a key, replacing the entry that was there.
///
/// Calls `CHashMap::insert`, which replaces the value of an existing entry or
/// adds a new one, and hands back the replaced value.
#[verifier::external_body]
fn table_insert(map: &mut QueryTable, id: u64, m: QueryMessage) -> (r: Option<QueryMessage>)
    ensures
        query_table(*final(map)) == query_table(*old(map)).insert(id, m@),
        opt_view(r) == (if query_table(*old(map)).contains_key(id) {
            Some(query_table(*old(map))[id])
        } else {
            None
        }),
{
    map.insert(id, m)
}

/// The paging positions of all messages that show search results.
pub struct QueryHandler {
    messages: QueryTable,
}

impl View for QueryHandler {
    type V = Map<u64, QueryMessageView>;

    closed spec fn view(&self) -> Map<u64, QueryMessageView> {
        query_table(self.messages)
    }
}

impl Default for QueryHandler {
    fn default() -> (r: QueryHandler)
        ensures
            r@ == Map::<u64, QueryMessageView>::empty(),
    {
        QueryHandler { messages: table_new() }
    }
}

impl QueryHandler {
    /// Registers the paging position of a new message.
    pub fn create_query(&mut self, id: u64, query: QueryMessage)
        requires
            !old(self)@.contains_key(id),
        ensures
            final(self)@ == old(self)@.insert(id, query@),
    {
        table_insert_new(&mut self.messages, id, query);
    }

    /// The paging position of a message, if it has one.
    pub fn current(&self, id: u64) -> (r: Option<QueryMessage>)
        ensures
            opt_view(r) == (if self@.contains_key(id) { Some(self@[id]) } else { None }),
    {
        table_get(&self.messages, id)
    }

    /// Moves a message one result forward and returns its new position.
    pub fn next(&mut self, id: u64) -> (r: Option<QueryMessage>)
        requires
            old(self)@.contains_key(id) ==> !next_overflows(old(self)@[id]),
        ensures
            (final(self)@, opt_view(r)) == table_next(old(self)@, id),
    {
        match table_get(&self.messages, id) {
            Some(msg) => {
                if msg.current_index == msg.size {
                    return None;
                }
                let index = msg.current_index + 1;
                let _ = table_insert(&mut self.messages, id, msg.with_index(index));
                Some(msg.with_index(index))
            },
            None => None,
        }
    }

    /// Moves a message one result back and returns its new position.
    pub fn previous(&mut self, id: u64) -> (r: Option<QueryMessage>)
        ensures
            (final(self)@, opt_view(r)) == table_previous(old(self)@, id),
    {
        match table_get(&self.messages, id) {
            Some(msg) => {
                if msg.current_index == 0 {
                    return None;
                }
                let index = msg.current_index - 1;
                let _ = table_insert(&mut self.messages, id, msg.with_index(index));
                Some(msg.with_index(index))
            },
            None => None,
        }
    }
}

} // verus!
