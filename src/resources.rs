//! Resource items, the filterable collections that hold them, and the
//! cursor arithmetic shared by every collection.

use vstd::prelude::*;

use crate::text::{contains_seq, str_contains, str_eq};

verus! {

/// An item that carries a display name; collections filter on it.
pub trait Named: Sized {
    spec fn name_view(&self) -> Seq<char>;

    fn name(&self) -> (r: &str)
        ensures
            r@ == self.name_view(),
    ;

    /// A field-by-field copy of the item.
    fn copied(&self) -> (r: Self)
        ensures
            r == *self,
    ;
}

#[derive(Clone, Debug)]
pub struct Tenant {
    pub name: String,
}

#[derive(Clone, Debug)]
pub struct Namespace {
    pub name: String,
}

#[derive(Clone, Debug)]
pub struct Topic {
    pub name: String,
    pub fqn: String,
}

#[derive(Clone, Debug)]
pub struct Subscription {
    pub name: String,
    pub sub_type: String,
    pub backlog_size: i64,
    pub consumer_count: usize,
}

#[derive(Clone, Debug)]
pub struct Consumer {
    pub name: String,
    pub unacked_messages: i32,
    pub connected_since: String,
}

impl Named for Tenant {
    open spec fn name_view(&self) -> Seq<char> {
        self.name@
    }

    fn name(&self) -> (r: &str) {
        self.name.as_str()
    }

    fn copied(&self) -> (r: Self) {
        Tenant { name: self.name.clone() }
    }
}

impl Named for Namespace {
    open spec fn name_view(&self) -> Seq<char> {
        self.name@
    }

    fn name(&self) -> (r: &str) {
        self.name.as_str()
    }

    fn copied(&self) -> (r: Self) {
        Namespace { name: self.name.clone() }
    }
}

impl Named for Topic {
    open spec fn name_view(&self) -> Seq<char> {
        self.name@
    }

    fn name(&self) -> (r: &str) {
        self.name.as_str()
    }

    fn copied(&self) -> (r: Self) {
        Topic { name: self.name.clone(), fqn: self.fqn.clone() }
    }
}

impl Named for Subscription {
    open spec fn name_view(&self) -> Seq<char> {
        self.name@
    }

    fn name(&self) -> (r: &str) {
        self.name.as_str()
    }

    fn copied(&self) -> (r: Self) {
        Subscription {
            name: self.name.clone(),
            sub_type: self.sub_type.clone(),
            backlog_size: self.backlog_size,
            consumer_count: self.consumer_count,
        }
    }
}

impl Named for Consumer {
    open spec fn name_view(&self) -> Seq<char> {
        self.name@
    }

    fn name(&self) -> (r: &str) {
        self.name.as_str()
    }

    fn copied(&self) -> (r: Self) {
        Consumer {
            name: self.name.clone(),
            unacked_messages: self.unacked_messages,
            connected_since: self.connected_since.clone(),
        }
    }
}

/// An incremental search over a collection. While `expecting_input` holds,
/// typed characters extend `value`.
#[derive(Clone)]
pub struct Search {
    pub value: String,
    pub expecting_input: bool,
}

impl Search {
    pub fn new() -> (r: Search)
        ensures
            r.value@ == Seq::<char>::empty(),
            r.expecting_input,
    {
        Search { value: String::new(), expecting_input: true }
    }
}

/// The text a search filters by, if a search is active.
pub open spec fn query(search: Option<Search>) -> Option<Seq<char>> {
    match search {
        Some(s) => Some(s.value@),
        None => None,
    }
}

/// The items of `s` whose name contains `q`, in their order.
pub open spec fn keep_named<T: Named>(s: Seq<T>, q: Seq<char>) -> Seq<T>
    decreases s.len(),
{
    if s.len() == 0 {
        Seq::empty()
    } else if contains_seq(s.last().name_view(), q) {
        keep_named(s.drop_last(), q).push(s.last())
    } else {
        keep_named(s.drop_last(), q)
    }
}

/// What a collection shows of `all` under an optional search text.
pub open spec fn view_of<T: Named>(all: Seq<T>, q: Option<Seq<char>>) -> Seq<T> {
    match q {
        Some(q) => keep_named(all, q),
        None => all,
    }
}

/// A cursor is well placed over a list of `len` items: absent exactly when
/// the list is empty, and otherwise an index into it.
pub open spec fn cursor_ok(cursor: Option<usize>, len: nat) -> bool {
    &&& (cursor is None <==> len == 0)
    &&& (cursor matches Some(c) ==> c < len)
}

/// The cursor kept when still in range, else the first item, else none.
pub open spec fn clamp_cursor(cursor: Option<usize>, len: nat) -> Option<usize> {
    if len == 0 {
        None
    } else if cursor matches Some(c) && c < len {
        cursor
    } else {
        Some(0)
    }
}

pub proof fn lemma_clamp_cursor_ok(cursor: Option<usize>, len: nat)
    ensures
        cursor_ok(clamp_cursor(cursor, len), len),
{
}

/// Cursor after moving one step up in a list of `len` items, wrapping from
/// the first item to the last.
pub open spec fn up_of(cursor: Option<usize>, len: nat) -> Option<usize> {
    if len == 0 {
        None
    } else {
        match cursor {
            Some(c) => if c == 0 || c >= len {
                Some((len - 1) as usize)
            } else {
                Some((c - 1) as usize)
            },
            None => Some(0),
        }
    }
}

/// Cursor after moving one step down in a list of `len` items, wrapping
/// from the last item to the first.
pub open spec fn down_of(cursor: Option<usize>, len: nat) -> Option<usize> {
    if len == 0 {
        None
    } else {
        match cursor {
            Some(c) => if c + 1 >= len {
                Some(0)
            } else {
                Some((c + 1) as usize)
            },
            None => Some(0),
        }
    }
}

/// The cursor for a freshly derived list: the old one while it still points
/// into `col`, else the first item, else none.
pub fn get_new_cursor<A>(col: &[A], old_cursor: Option<usize>) -> (r: Option<usize>)
    ensures
        r == clamp_cursor(old_cursor, col@.len()),
        cursor_ok(r, col@.len()),
{
    if col.len() == 0 {
        None
    } else {
        match old_cursor {
            Some(c) => if c < col.len() {
                Some(c)
            } else {
                Some(0)
            },
            None => Some(0),
        }
    }
}

/// Re-derives `maybe_cursor` for the list `coll`.
pub fn reset_cursor<A>(coll: &[A], maybe_cursor: &mut Option<usize>)
    ensures
        *final(maybe_cursor) == clamp_cursor(*old(maybe_cursor), coll@.len()),
        cursor_ok(*final(maybe_cursor), coll@.len()),
{
    *maybe_cursor = get_new_cursor(coll, *maybe_cursor);
}

/// One step up, circular.
pub fn cursor_up(current: Option<usize>, col_size: usize) -> (r: Option<usize>)
    ensures
        r == up_of(current, col_size as nat),
        cursor_ok(r, col_size as nat),
{
    if col_size == 0 {
        None
    } else {
        match current {
            Some(c) => if c == 0 || c >= col_size {
                Some(col_size - 1)
            } else {
                Some(c - 1)
            },
            None => Some(0),
        }
    }
}

/// One step down, circular.
pub fn cursor_down(current: Option<usize>, col_size: usize) -> (r: Option<usize>)
    ensures
        r == down_of(current, col_size as nat),
        cursor_ok(r, col_size as nat),
{
    if col_size == 0 {
        None
    } else {
        match current {
            Some(c) => if c >= col_size - 1 {
                Some(0)
            } else {
                Some(c + 1)
            },
            None => Some(0),
        }
    }
}

/// The items of `all` that a search keeps, copied in order.
pub fn filter_items<T: Named>(all: &Vec<T>, search: &Option<Search>) -> (r: Vec<T>)
    ensures
        r@ == view_of(all@, query(*search)),
{
    let mut r: Vec<T> = Vec::new();
    let mut i: usize = 0;
    while i < all.len()
        invariant
            i <= all@.len(),
            match *search {
                Some(s) => r@ == keep_named(all@.subrange(0, i as int), s.value@),
                None => r@ == all@.subrange(0, i as int),
            },
        decreases all@.len() - i,
    {
        proof {
            assert(all@.subrange(0, i + 1).drop_last() == all@.subrange(0, i as int));
            assert(all@.subrange(0, i + 1).last() == all@[i as int]);
        }
        let keep = match search {
            Some(s) => str_contains(all[i].name(), s.value.as_str()),
            None => true,
        };
        if keep {
            r.push(all[i].copied());
        }
        i = i + 1;
    }
    proof {
        assert(all@.subrange(0, all@.len() as int) == all@);
    }
    r
}


/// `a` comes before `b`, or equals it, in the order of character codes.
pub open spec fn chars_le(a: Seq<char>, b: Seq<char>) -> bool
    decreases a.len(),
{
    if a.len() == 0 {
        true
    } else if b.len() == 0 {
        false
    } else if a[0] != b[0] {
        (a[0] as u32) < (b[0] as u32)
    } else {
        chars_le(a.drop_first(), b.drop_first())
    }
}

/// Names never decrease along `s`.
pub open spec fn sorted_by_name<T: Named>(s: Seq<T>) -> bool {
    forall|i: int, j: int| 0 <= i < j < s.len() ==> chars_le(s[i].name_view(), s[j].name_view())
}

/// The name under the cursor, if the cursor points into `filtered`.
pub open spec fn selected_name<T: Named>(filtered: Seq<T>, cursor: Option<usize>) -> Option<
    Seq<char>,
> {
    match cursor {
        Some(c) => if c < filtered.len() {
            Some(filtered[c as int].name_view())
        } else {
            None
        },
        None => None,
    }
}

/// `cursor` is where a refreshed list `f` selects: the first item named like
/// the one selected before, when there is one; otherwise the first item, or
/// none for an empty list.
pub open spec fn sticky_cursor<T: Named>(
    f: Seq<T>,
    prev: Option<Seq<char>>,
    cursor: Option<usize>,
) -> bool {
    if prev matches Some(n) && exists|i: int| 0 <= i < f.len() && #[trigger] f[i].name_view() == n {
        &&& cursor matches Some(k)
        &&& k < f.len()
        &&& f[k as int].name_view() == prev->0
        &&& forall|j: int| 0 <= j < k ==> #[trigger] f[j].name_view() != prev->0
    } else {
        cursor == clamp_cursor(None, f.len())
    }
}

/// Relies on `slice::sort_by` ordering by `str::cmp` of the names: the
/// result is a permutation in which names never decrease. `str` compares
/// UTF-8 bytes, which orders as the characters' code points do.
#[verifier::external_body]
fn sort_by_name<T: Named>(v: &mut Vec<T>)
    ensures
        final(v)@.to_multiset() == old(v)@.to_multiset(),
        sorted_by_name(final(v)@),
{
    v.sort_by(|a, b| a.name().cmp(b.name()))
}

/// Index of the first item of `v` named `n`.
pub fn position_named<T: Named>(v: &Vec<T>, n: &str) -> (r: Option<usize>)
    ensures
        r matches Some(k) ==> k < v@.len() && v@[k as int].name_view() == n@ && forall|j: int|
            0 <= j < k ==> #[trigger] v@[j].name_view() != n@,
        r is None ==> forall|j: int| 0 <= j < v@.len() ==> #[trigger] v@[j].name_view() != n@,
{
    let mut i: usize = 0;
    while i < v.len()
        invariant
            i <= v@.len(),
            forall|j: int| 0 <= j < i ==> #[trigger] v@[j].name_view() != n@,
        decreases v@.len() - i,
    {
        if str_eq(v[i].name(), n) {
            return Some(i);
        }
        i = i + 1;
    }
    None
}

/// Facts that hold after a collection re-derives its view from `all` and
/// its search, keeping the cursor where it still fits.
pub open spec fn refiltered<T: Named, F: Filterable<T>>(old: F, new: F) -> bool {
    &&& new.all_view() == old.all_view()
    &&& new.search_view() == old.search_view()
    &&& new.filtered_view() == view_of(old.all_view(), query(old.search_view()))
    &&& new.cursor_view() == clamp_cursor(old.cursor_view(), new.filtered_view().len())
}

/// A collection of named items with a derived, searchable view and a cursor.
pub trait Filterable<T: Named>: Sized {
    spec fn all_view(&self) -> Seq<T>;

    spec fn filtered_view(&self) -> Seq<T>;

    spec fn cursor_view(&self) -> Option<usize>;

    spec fn search_view(&self) -> Option<Search>;

    fn all_items(&self) -> (r: &Vec<T>)
        ensures
            r@ == self.all_view(),
    ;

    fn filtered_items(&self) -> (r: &Vec<T>)
        ensures
            r@ == self.filtered_view(),
    ;

    fn cursor(&self) -> (r: Option<usize>)
        ensures
            r == self.cursor_view(),
    ;

    fn search(&self) -> (r: &Option<Search>)
        ensures
            *r == self.search_view(),
    ;

    /// Replaces the full list, leaving the view, cursor and search as they are.
    fn replace_all(&mut self, items: Vec<T>)
        ensures
            final(self).all_view() == items@,
            final(self).filtered_view() == old(self).filtered_view(),
            final(self).cursor_view() == old(self).cursor_view(),
            final(self).search_view() == old(self).search_view(),
    ;

    /// Replaces the view and the cursor, leaving the full list and search.
    fn replace_view(&mut self, items: Vec<T>, cursor: Option<usize>)
        ensures
            final(self).filtered_view() == items@,
            final(self).cursor_view() == cursor,
            final(self).all_view() == old(self).all_view(),
            final(self).search_view() == old(self).search_view(),
    ;

    /// Re-derives the view from the full list and the search, and keeps the
    /// cursor while it still points into the view.
    fn filter(&mut self)
        ensures
            final(self).all_view() == old(self).all_view(),
            final(self).search_view() == old(self).search_view(),
            final(self).filtered_view() == view_of(
                old(self).all_view(),
                query(old(self).search_view()),
            ),
            final(self).cursor_view() == clamp_cursor(
                old(self).cursor_view(),
                final(self).filtered_view().len(),
            ),
            cursor_ok(final(self).cursor_view(), final(self).filtered_view().len()),
    {
        let filtered = filter_items(self.all_items(), self.search());
        let mut cursor = self.cursor();
        reset_cursor(filtered.as_slice(), &mut cursor);
        self.replace_view(filtered, cursor);
    }

    /// Replaces the full list with `items` sorted by name, re-derives the
    /// view, and selects again the item that was selected before, by name.
    fn set_all(&mut self, items: Vec<T>)
        ensures
            final(self).all_view().to_multiset() == items@.to_multiset(),
            sorted_by_name(final(self).all_view()),
            final(self).search_view() == old(self).search_view(),
            final(self).filtered_view() == view_of(
                final(self).all_view(),
                query(old(self).search_view()),
            ),
            sticky_cursor(
                final(self).filtered_view(),
                selected_name(old(self).filtered_view(), old(self).cursor_view()),
                final(self).cursor_view(),
            ),
            cursor_ok(final(self).cursor_view(), final(self).filtered_view().len()),
    {
        let prev: Option<String> = match self.cursor() {
            Some(c) => if c < self.filtered_items().len() {
                Some(self.filtered_items()[c].name().to_owned())
            } else {
                None
            },
            None => None,
        };
        let mut sorted = items;
        sort_by_name(&mut sorted);
        self.replace_all(sorted);
        let filtered = filter_items(self.all_items(), self.search());
        let found = match &prev {
            Some(n) => position_named(&filtered, n.as_str()),
            None => None,
        };
        let cursor = match found {
            Some(k) => Some(k),
            None => get_new_cursor(filtered.as_slice(), None),
        };
        proof {
            if found is None && prev is Some {
                let n = prev->0@;
                assert(!exists|i: int|
                    0 <= i < filtered@.len() && #[trigger] filtered@[i].name_view() == n);
            }
        }
        self.replace_view(filtered, cursor);
    }
}

/// `new` is `old` after `set_all(items)`: the items sorted by name, the
/// view re-derived under the same search, the selection kept by name.
pub open spec fn replaced<T: Named, F: Filterable<T>>(old: F, new: F, items: Seq<T>) -> bool {
    &&& new.all_view().to_multiset() == items.to_multiset()
    &&& sorted_by_name(new.all_view())
    &&& new.search_view() == old.search_view()
    &&& new.filtered_view() == view_of(new.all_view(), query(old.search_view()))
    &&& sticky_cursor(
        new.filtered_view(),
        selected_name(old.filtered_view(), old.cursor_view()),
        new.cursor_view(),
    )
    &&& cursor_ok(new.cursor_view(), new.filtered_view().len())
}

/// Filtering a collection twice with the same search gives the same view and
/// the same cursor both times.
pub proof fn lemma_filter_idempotent<T: Named, F: Filterable<T>>(a: F, b: F, c: F)
    requires
        refiltered(a, b),
        refiltered(b, c),
        cursor_ok(b.cursor_view(), b.filtered_view().len()),
    ensures
        c.filtered_view() == b.filtered_view(),
        c.cursor_view() == b.cursor_view(),
{
}

#[derive(Clone)]
pub struct Tenants {
    pub tenants: Vec<Tenant>,
    pub filtered_tenants: Vec<Tenant>,
    pub cursor: Option<usize>,
    pub search: Option<Search>,
}

impl Filterable<Tenant> for Tenants {
    open spec fn all_view(&self) -> Seq<Tenant> {
        self.tenants@
    }

    open spec fn filtered_view(&self) -> Seq<Tenant> {
        self.filtered_tenants@
    }

    open spec fn cursor_view(&self) -> Option<usize> {
        self.cursor
    }

    open spec fn search_view(&self) -> Option<Search> {
        self.search
    }

    fn all_items(&self) -> (r: &Vec<Tenant>) {
        &self.tenants
    }

    fn filtered_items(&self) -> (r: &Vec<Tenant>) {
        &self.filtered_tenants
    }

    fn cursor(&self) -> (r: Option<usize>) {
        self.cursor
    }

    fn search(&self) -> (r: &Option<Search>) {
        &self.search
    }

    fn replace_all(&mut self, items: Vec<Tenant>) {
        self.tenants = items;
    }

    fn replace_view(&mut self, items: Vec<Tenant>, cursor: Option<usize>) {
        self.filtered_tenants = items;
        self.cursor = cursor;
    }
}

impl Tenants {
    /// An empty collection with no search.
    pub fn new() -> (r: Tenants)
        ensures
            r.tenants@.len() == 0,
            r.filtered_tenants@.len() == 0,
            r.cursor is None,
            r.search is None,
    {
        Tenants { tenants: Vec::new(), filtered_tenants: Vec::new(), cursor: None, search: None }
    }

    /// Drops the search and shows every item again.
    pub fn reset_search(&mut self)
        ensures
            final(self).search is None,
            final(self).tenants@ == old(self).tenants@,
            final(self).filtered_tenants@ == old(self).tenants@,
            final(self).cursor == clamp_cursor(old(self).cursor, old(self).tenants@.len()),
            cursor_ok(final(self).cursor, final(self).filtered_tenants@.len()),
    {
        self.search = None;
        self.filter();
    }

    /// Starts an empty search that takes typed characters.
    pub fn init_search(&mut self)
        ensures
            final(self).search matches Some(s) && s.value@.len() == 0 && s.expecting_input,
            final(self).tenants == old(self).tenants,
            final(self).filtered_tenants == old(self).filtered_tenants,
            final(self).cursor == old(self).cursor,
    {
        self.search = Some(Search::new());
    }
}

#[derive(Clone)]
pub struct Namespaces {
    pub namespaces: Vec<Namespace>,
    pub filtered_namespaces: Vec<Namespace>,
    pub cursor: Option<usize>,
    pub search: Option<Search>,
}

impl Filterable<Namespace> for Namespaces {
    open spec fn all_view(&self) -> Seq<Namespace> {
        self.namespaces@
    }

    open spec fn filtered_view(&self) -> Seq<Namespace> {
        self.filtered_namespaces@
    }

    open spec fn cursor_view(&self) -> Option<usize> {
        self.cursor
    }

    open spec fn search_view(&self) -> Option<Search> {
        self.search
    }

    fn all_items(&self) -> (r: &Vec<Namespace>) {
        &self.namespaces
    }

    fn filtered_items(&self) -> (r: &Vec<Namespace>) {
        &self.filtered_namespaces
    }

    fn cursor(&self) -> (r: Option<usize>) {
        self.cursor
    }

    fn search(&self) -> (r: &Option<Search>) {
        &self.search
    }

    fn replace_all(&mut self, items: Vec<Namespace>) {
        self.namespaces = items;
    }

    fn replace_view(&mut self, items: Vec<Namespace>, cursor: Option<usize>) {
        self.filtered_namespaces = items;
        self.cursor = cursor;
    }
}

impl Namespaces {
    /// An empty collection with no search.
    pub fn new() -> (r: Namespaces)
        ensures
            r.namespaces@.len() == 0,
            r.filtered_namespaces@.len() == 0,
            r.cursor is None,
            r.search is None,
    {
        Namespaces { namespaces: Vec::new(), filtered_namespaces: Vec::new(), cursor: None, search: None }
    }

    /// Drops the search and shows every item again.
    pub fn reset_search(&mut self)
        ensures
            final(self).search is None,
            final(self).namespaces@ == old(self).namespaces@,
            final(self).filtered_namespaces@ == old(self).namespaces@,
            final(self).cursor == clamp_cursor(old(self).cursor, old(self).namespaces@.len()),
            cursor_ok(final(self).cursor, final(self).filtered_namespaces@.len()),
    {
        self.search = None;
        self.filter();
    }

    /// Starts an empty search that takes typed characters.
    pub fn init_search(&mut self)
        ensures
            final(self).search matches Some(s) && s.value@.len() == 0 && s.expecting_input,
            final(self).namespaces == old(self).namespaces,
            final(self).filtered_namespaces == old(self).filtered_namespaces,
            final(self).cursor == old(self).cursor,
    {
        self.search = Some(Search::new());
    }
}

#[derive(Clone)]
pub struct Topics {
    pub topics: Vec<Topic>,
    pub filtered_topics: Vec<Topic>,
    pub cursor: Option<usize>,
    pub search: Option<Search>,
}

impl Filterable<Topic> for Topics {
    open spec fn all_view(&self) -> Seq<Topic> {
        self.topics@
    }

    open spec fn filtered_view(&self) -> Seq<Topic> {
        self.filtered_topics@
    }

    open spec fn cursor_view(&self) -> Option<usize> {
        self.cursor
    }

    open spec fn search_view(&self) -> Option<Search> {
        self.search
    }

    fn all_items(&self) -> (r: &Vec<Topic>) {
        &self.topics
    }

    fn filtered_items(&self) -> (r: &Vec<Topic>) {
        &self.filtered_topics
    }

    fn cursor(&self) -> (r: Option<usize>) {
        self.cursor
    }

    fn search(&self) -> (r: &Option<Search>) {
        &self.search
    }

    fn replace_all(&mut self, items: Vec<Topic>) {
        self.topics = items;
    }

    fn replace_view(&mut self, items: Vec<Topic>, cursor: Option<usize>) {
        self.filtered_topics = items;
        self.cursor = cursor;
    }
}

impl Topics {
    /// An empty collection with no search.
    pub fn new() -> (r: Topics)
        ensures
            r.topics@.len() == 0,
            r.filtered_topics@.len() == 0,
            r.cursor is None,
            r.search is None,
    {
        Topics { topics: Vec::new(), filtered_topics: Vec::new(), cursor: None, search: None }
    }

    /// Drops the search and shows every item again.
    pub fn reset_search(&mut self)
        ensures
            final(self).search is None,
            final(self).topics@ == old(self).topics@,
            final(self).filtered_topics@ == old(self).topics@,
            final(self).cursor == clamp_cursor(old(self).cursor, old(self).topics@.len()),
            cursor_ok(final(self).cursor, final(self).filtered_topics@.len()),
    {
        self.search = None;
        self.filter();
    }

    /// Starts an empty search that takes typed characters.
    pub fn init_search(&mut self)
        ensures
            final(self).search matches Some(s) && s.value@.len() == 0 && s.expecting_input,
            final(self).topics == old(self).topics,
            final(self).filtered_topics == old(self).filtered_topics,
            final(self).cursor == old(self).cursor,
    {
        self.search = Some(Search::new());
    }
}

#[derive(Clone)]
pub struct Subscriptions {
    pub subscriptions: Vec<Subscription>,
    pub filtered_subscriptions: Vec<Subscription>,
    pub cursor: Option<usize>,
    pub search: Option<Search>,
}

impl Filterable<Subscription> for Subscriptions {
    open spec fn all_view(&self) -> Seq<Subscription> {
        self.subscriptions@
    }

    open spec fn filtered_view(&self) -> Seq<Subscription> {
        self.filtered_subscriptions@
    }

    open spec fn cursor_view(&self) -> Option<usize> {
        self.cursor
    }

    open spec fn search_view(&self) -> Option<Search> {
        self.search
    }

    fn all_items(&self) -> (r: &Vec<Subscription>) {
        &self.subscriptions
    }

    fn filtered_items(&self) -> (r: &Vec<Subscription>) {
        &self.filtered_subscriptions
    }

    fn cursor(&self) -> (r: Option<usize>) {
        self.cursor
    }

    fn search(&self) -> (r: &Option<Search>) {
        &self.search
    }

    fn replace_all(&mut self, items: Vec<Subscription>) {
        self.subscriptions = items;
    }

    fn replace_view(&mut self, items: Vec<Subscription>, cursor: Option<usize>) {
        self.filtered_subscriptions = items;
        self.cursor = cursor;
    }
}

impl Subscriptions {
    /// An empty collection with no search.
    pub fn new() -> (r: Subscriptions)
        ensures
            r.subscriptions@.len() == 0,
            r.filtered_subscriptions@.len() == 0,
            r.cursor is None,
            r.search is None,
    {
        Subscriptions { subscriptions: Vec::new(), filtered_subscriptions: Vec::new(), cursor: None, search: None }
    }

    /// Drops the search and shows every item again.
    pub fn reset_search(&mut self)
        ensures
            final(self).search is None,
            final(self).subscriptions@ == old(self).subscriptions@,
            final(self).filtered_subscriptions@ == old(self).subscriptions@,
            final(self).cursor == clamp_cursor(old(self).cursor, old(self).subscriptions@.len()),
            cursor_ok(final(self).cursor, final(self).filtered_subscriptions@.len()),
    {
        self.search = None;
        self.filter();
    }

    /// Starts an empty search that takes typed characters.
    pub fn init_search(&mut self)
        ensures
            final(self).search matches Some(s) && s.value@.len() == 0 && s.expecting_input,
            final(self).subscriptions == old(self).subscriptions,
            final(self).filtered_subscriptions == old(self).filtered_subscriptions,
            final(self).cursor == old(self).cursor,
    {
        self.search = Some(Search::new());
    }
}

#[derive(Clone)]
pub struct Consumers {
    pub consumers: Vec<Consumer>,
    pub filtered_consumers: Vec<Consumer>,
    pub cursor: Option<usize>,
    pub search: Option<Search>,
}

impl Filterable<Consumer> for Consumers {
    open spec fn all_view(&self) -> Seq<Consumer> {
        self.consumers@
    }

    open spec fn filtered_view(&self) -> Seq<Consumer> {
        self.filtered_consumers@
    }

    open spec fn cursor_view(&self) -> Option<usize> {
        self.cursor
    }

    open spec fn search_view(&self) -> Option<Search> {
        self.search
    }

    fn all_items(&self) -> (r: &Vec<Consumer>) {
        &self.consumers
    }

    fn filtered_items(&self) -> (r: &Vec<Consumer>) {
        &self.filtered_consumers
    }

    fn cursor(&self) -> (r: Option<usize>) {
        self.cursor
    }

    fn search(&self) -> (r: &Option<Search>) {
        &self.search
    }

    fn replace_all(&mut self, items: Vec<Consumer>) {
        self.consumers = items;
    }

    fn replace_view(&mut self, items: Vec<Consumer>, cursor: Option<usize>) {
        self.filtered_consumers = items;
        self.cursor = cursor;
    }
}

impl Consumers {
    /// An empty collection with no search.
    pub fn new() -> (r: Consumers)
        ensures
            r.consumers@.len() == 0,
            r.filtered_consumers@.len() == 0,
            r.cursor is None,
            r.search is None,
    {
        Consumers { consumers: Vec::new(), filtered_consumers: Vec::new(), cursor: None, search: None }
    }

    /// Drops the search and shows every item again.
    pub fn reset_search(&mut self)
        ensures
            final(self).search is None,
            final(self).consumers@ == old(self).consumers@,
            final(self).filtered_consumers@ == old(self).consumers@,
            final(self).cursor == clamp_cursor(old(self).cursor, old(self).consumers@.len()),
            cursor_ok(final(self).cursor, final(self).filtered_consumers@.len()),
    {
        self.search = None;
        self.filter();
    }

    /// Starts an empty search that takes typed characters.
    pub fn init_search(&mut self)
        ensures
            final(self).search matches Some(s) && s.value@.len() == 0 && s.expecting_input,
            final(self).consumers == old(self).consumers,
            final(self).filtered_consumers == old(self).filtered_consumers,
            final(self).cursor == old(self).cursor,
    {
        self.search = Some(Search::new());
    }
}


/// The cursor after `k` steps down in a list of `len` items.
pub open spec fn downs(cursor: Option<usize>, len: nat, k: nat) -> Option<usize>
    decreases k,
{
    if k == 0 {
        cursor
    } else {
        down_of(downs(cursor, len, (k - 1) as nat), len)
    }
}

/// The cursor after `k` steps up in a list of `len` items.
pub open spec fn ups(cursor: Option<usize>, len: nat, k: nat) -> Option<usize>
    decreases k,
{
    if k == 0 {
        cursor
    } else {
        up_of(ups(cursor, len, (k - 1) as nat), len)
    }
}

proof fn lemma_downs_from_first(len: nat, k: nat)
    requires
        0 < len,
        k < len,
        len <= usize::MAX,
    ensures
        downs(Some(0), len, k) == Some(k as usize),
    decreases k,
{
    if k > 0 {
        lemma_downs_from_first(len, (k - 1) as nat);
    }
}

proof fn lemma_ups_from_first(len: nat, k: nat)
    requires
        0 < k <= len,
        len <= usize::MAX,
    ensures
        ups(Some(0), len, k) == Some((len - k) as usize),
    decreases k,
{
    if k > 1 {
        lemma_ups_from_first(len, (k - 1) as nat);
    } else {
        assert(ups(Some(0usize), len, 0) == Some(0usize));
    }
}

/// In a list of `len > 0` items, `len` steps down from the first item come
/// back to it, and so do `len` steps up.
pub proof fn lemma_circular_navigation(len: usize)
    requires
        len > 0,
    ensures
        downs(Some(0), len as nat, len as nat) == Some(0usize),
        ups(Some(0), len as nat, len as nat) == Some(0usize),
{
    lemma_downs_from_first(len as nat, (len - 1) as nat);
    lemma_ups_from_first(len as nat, len as nat);
}

} // verus!
