//! The six collections of the dashboard, which of them is active, and the
//! operations that act on the active one.

use vstd::prelude::*;

use crate::message::{message_query, messages_shown, messages_view, Listening, SubMessage};
use crate::resources::{
    clamp_cursor, cursor_down, cursor_ok, cursor_up, down_of, query, up_of, view_of, Consumer,
    Consumers, Filterable, Named, Namespace, Namespaces, Search, Subscription, Subscriptions,
    Tenant, Tenants, Topic, Topics,
};
use crate::text::{pop_char, push_char};

verus! {

/// The collection that has the focus; live-tailing carries the name of the
/// subscription it reads through.
#[derive(Clone, Debug)]
pub enum Resource {
    Tenants,
    Namespaces,
    Topics,
    Subscriptions,
    Consumers,
    Listening { sub_name: String },
}

/// The item under `cursor`, when the cursor points into `f`.
pub open spec fn selected_of<T>(f: Seq<T>, cursor: Option<usize>) -> Option<T> {
    match cursor {
        Some(c) => if c < f.len() {
            Some(f[c as int])
        } else {
            None
        },
        None => None,
    }
}

/// `new` holds the same items as `old`, shows what its search keeps, and
/// keeps the cursor where it still fits.
pub open spec fn rederived<T: Named, F: Filterable<T>>(old: F, new: F) -> bool {
    &&& new.all_view() == old.all_view()
    &&& new.filtered_view() == view_of(new.all_view(), query(new.search_view()))
    &&& new.cursor_view() == clamp_cursor(old.cursor_view(), new.filtered_view().len())
}

/// `new` holds the same messages as `old` and shows what its search keeps;
/// the cursor goes to the first shown message when `reset`, and otherwise
/// stays where it still fits.
pub open spec fn listening_rederived(old: Listening, new: Listening, reset: bool) -> bool {
    &&& new.messages == old.messages
    &&& new.panel == old.panel
    &&& messages_view(new.filtered_messages@) == messages_shown(
        messages_view(new.messages@),
        message_query(new.search),
    )
    &&& new.cursor == clamp_cursor(
        if reset {
            None
        } else {
            old.cursor
        },
        new.filtered_messages@.len(),
    )
}

#[derive(Clone)]
pub struct Resources {
    pub tenants: Tenants,
    pub namespaces: Namespaces,
    pub topics: Topics,
    pub subscriptions: Subscriptions,
    pub consumers: Consumers,
    pub listening: Listening,
}

impl Resources {
    /// Every collection's cursor is well placed.
    pub open spec fn wf(self) -> bool {
        &&& cursor_ok(self.tenants.cursor, self.tenants.filtered_tenants@.len())
        &&& cursor_ok(self.namespaces.cursor, self.namespaces.filtered_namespaces@.len())
        &&& cursor_ok(self.topics.cursor, self.topics.filtered_topics@.len())
        &&& cursor_ok(self.subscriptions.cursor, self.subscriptions.filtered_subscriptions@.len())
        &&& cursor_ok(self.consumers.cursor, self.consumers.filtered_consumers@.len())
        &&& cursor_ok(self.listening.cursor, self.listening.filtered_messages@.len())
    }

    pub open spec fn search_at(self, r: Resource) -> Option<Search> {
        match r {
            Resource::Tenants => self.tenants.search,
            Resource::Namespaces => self.namespaces.search,
            Resource::Topics => self.topics.search,
            Resource::Subscriptions => self.subscriptions.search,
            Resource::Consumers => self.consumers.search,
            Resource::Listening { .. } => self.listening.search,
        }
    }

    /// The active search takes typed characters.
    pub open spec fn expecting_at(self, r: Resource) -> bool {
        self.search_at(r) matches Some(s) && s.expecting_input
    }

    pub open spec fn cursor_at(self, r: Resource) -> Option<usize> {
        match r {
            Resource::Tenants => self.tenants.cursor,
            Resource::Namespaces => self.namespaces.cursor,
            Resource::Topics => self.topics.cursor,
            Resource::Subscriptions => self.subscriptions.cursor,
            Resource::Consumers => self.consumers.cursor,
            Resource::Listening { .. } => self.listening.cursor,
        }
    }

    /// How many items the collection of `r` shows.
    pub open spec fn len_at(self, r: Resource) -> nat {
        match r {
            Resource::Tenants => self.tenants.filtered_tenants@.len(),
            Resource::Namespaces => self.namespaces.filtered_namespaces@.len(),
            Resource::Topics => self.topics.filtered_topics@.len(),
            Resource::Subscriptions => self.subscriptions.filtered_subscriptions@.len(),
            Resource::Consumers => self.consumers.filtered_consumers@.len(),
            Resource::Listening { .. } => self.listening.filtered_messages@.len(),
        }
    }

    /// `self` with the cursor of `r`'s collection set to `c`.
    pub open spec fn with_cursor(self, r: Resource, c: Option<usize>) -> Resources {
        match r {
            Resource::Tenants => Resources { tenants: Tenants { cursor: c, ..self.tenants }, ..self },
            Resource::Namespaces => Resources { namespaces: Namespaces { cursor: c, ..self.namespaces }, ..self },
            Resource::Topics => Resources { topics: Topics { cursor: c, ..self.topics }, ..self },
            Resource::Subscriptions => Resources { subscriptions: Subscriptions { cursor: c, ..self.subscriptions }, ..self },
            Resource::Consumers => Resources { consumers: Consumers { cursor: c, ..self.consumers }, ..self },
            Resource::Listening { .. } => Resources { listening: Listening { cursor: c, ..self.listening }, ..self },
        }
    }

    /// `self` with the search of `r`'s collection set to `s`.
    pub open spec fn with_search(self, r: Resource, s: Option<Search>) -> Resources {
        match r {
            Resource::Tenants => Resources { tenants: Tenants { search: s, ..self.tenants }, ..self },
            Resource::Namespaces => Resources { namespaces: Namespaces { search: s, ..self.namespaces }, ..self },
            Resource::Topics => Resources { topics: Topics { search: s, ..self.topics }, ..self },
            Resource::Subscriptions => Resources { subscriptions: Subscriptions { search: s, ..self.subscriptions }, ..self },
            Resource::Consumers => Resources { consumers: Consumers { search: s, ..self.consumers }, ..self },
            Resource::Listening { .. } => Resources { listening: Listening { search: s, ..self.listening }, ..self },
        }
    }

    /// The collections other than `r`'s are those of `old`.
    pub open spec fn others_same(self, old: Resources, r: Resource) -> bool {
        &&& (!(r is Tenants) ==> self.tenants == old.tenants)
        &&& (!(r is Namespaces) ==> self.namespaces == old.namespaces)
        &&& (!(r is Topics) ==> self.topics == old.topics)
        &&& (!(r is Subscriptions) ==> self.subscriptions == old.subscriptions)
        &&& (!(r is Consumers) ==> self.consumers == old.consumers)
        &&& (!(r is Listening) ==> self.listening == old.listening)
    }

    /// The collection of `r` re-derived its view from its (possibly new)
    /// search; `reset` says whether the live-tail cursor starts over.
    pub open spec fn rederived_at(self, old: Resources, r: Resource, reset: bool) -> bool {
        match r {
            Resource::Tenants => rederived(old.tenants, self.tenants),
            Resource::Namespaces => rederived(old.namespaces, self.namespaces),
            Resource::Topics => rederived(old.topics, self.topics),
            Resource::Subscriptions => rederived(old.subscriptions, self.subscriptions),
            Resource::Consumers => rederived(old.consumers, self.consumers),
            Resource::Listening { .. } => listening_rederived(old.listening, self.listening, reset),
        }
    }

    /// `self` is `old` after typing `c` into the search of `r`, which
    /// happens only while that search takes input.
    pub open spec fn typed(self, old: Resources, r: Resource, c: char) -> bool {
        if old.expecting_at(r) {
            &&& self.others_same(old, r)
            &&& self.rederived_at(old, r, true)
            &&& self.search_at(r) matches Some(s) && s.expecting_input && s.value@ == old.search_at(
                r,
            )->0.value@.push(c)
        } else {
            self == old
        }
    }

    /// `self` is `old` after removing the last character of the search of
    /// `r`, which happens only while that search takes input.
    pub open spec fn backspaced(self, old: Resources, r: Resource) -> bool {
        if old.expecting_at(r) {
            let v = old.search_at(r)->0.value@;
            &&& self.others_same(old, r)
            &&& self.rederived_at(old, r, true)
            &&& self.search_at(r) matches Some(s) && s.expecting_input && s.value@ == (if v.len()
                == 0 {
                v
            } else {
                v.drop_last()
            })
        } else {
            self == old
        }
    }

    /// `self` is `old` after emptying the search of `r`, which happens only
    /// while that search takes input.
    pub open spec fn cleared(self, old: Resources, r: Resource) -> bool {
        if old.expecting_at(r) {
            &&& self.others_same(old, r)
            &&& self.rederived_at(old, r, true)
            &&& self.search_at(r) matches Some(s) && s.expecting_input && s.value@.len() == 0
        } else {
            self == old
        }
    }

    /// `self` is `old` with the search of `r` dropped and its view re-derived.
    pub open spec fn search_dropped(self, old: Resources, r: Resource) -> bool {
        &&& self.others_same(old, r)
        &&& self.rederived_at(old, r, false)
        &&& self.search_at(r) is None
    }

    /// `self` is `old` with an empty search started on `r`.
    pub open spec fn search_started(self, old: Resources, r: Resource) -> bool {
        &&& self == old.with_search(r, self.search_at(r))
        &&& self.search_at(r) matches Some(s) && s.value@.len() == 0 && s.expecting_input
    }

    /// `self` is `old` with the search of `r`, if any, taking input or not.
    pub open spec fn search_expecting(self, old: Resources, r: Resource, expecting: bool) -> bool {
        match old.search_at(r) {
            Some(s) => self == old.with_search(
                r,
                Some(Search { value: s.value, expecting_input: expecting }),
            ),
            None => self == old,
        }
    }

    pub fn get_active_resource_search(&self, active_resource: &Resource) -> (r: &Option<Search>)
        ensures
            *r == self.search_at(*active_resource),
    {
        match active_resource {
            Resource::Tenants => &self.tenants.search,
            Resource::Namespaces => &self.namespaces.search,
            Resource::Topics => &self.topics.search,
            Resource::Subscriptions => &self.subscriptions.search,
            Resource::Consumers => &self.consumers.search,
            Resource::Listening { .. } => &self.listening.search,
        }
    }

    pub fn is_search_expecting_input(&self, active_resource: &Resource) -> (r: bool)
        ensures
            r == self.expecting_at(*active_resource),
    {
        match self.get_active_resource_search(active_resource) {
            Some(s) => s.expecting_input,
            None => false,
        }
    }

    /// Re-derives the view of the active collection from its search; the
    /// live-tail cursor starts over at the first shown message.
    pub fn apply_search(&mut self, active_resource: &Resource)
        ensures
            final(self).others_same(*old(self), *active_resource),
            final(self).rederived_at(*old(self), *active_resource, true),
            final(self).search_at(*active_resource) == old(self).search_at(*active_resource),
            old(self).wf() ==> final(self).wf(),
    {
        match active_resource {
            Resource::Tenants => self.tenants.filter(),
            Resource::Namespaces => self.namespaces.filter(),
            Resource::Topics => self.topics.filter(),
            Resource::Subscriptions => self.subscriptions.filter(),
            Resource::Consumers => self.consumers.filter(),
            Resource::Listening { .. } => self.listening.filter(true),
        }
    }

    /// Drops the active collection's search and shows all of it again.
    pub fn reset_search(&mut self, active_resource: &Resource)
        ensures
            final(self).search_dropped(*old(self), *active_resource),
            old(self).wf() ==> final(self).wf(),
    {
        match active_resource {
            Resource::Tenants => {
                self.tenants.reset_search();
                assert(self.tenants.filtered_tenants@ == view_of(self.tenants.tenants@, query(self.tenants.search)));
            },
            Resource::Namespaces => {
                self.namespaces.reset_search();
                assert(self.namespaces.filtered_namespaces@ == view_of(self.namespaces.namespaces@, query(self.namespaces.search)));
            },
            Resource::Topics => {
                self.topics.reset_search();
                assert(self.topics.filtered_topics@ == view_of(self.topics.topics@, query(self.topics.search)));
            },
            Resource::Subscriptions => {
                self.subscriptions.reset_search();
                assert(self.subscriptions.filtered_subscriptions@ == view_of(self.subscriptions.subscriptions@, query(self.subscriptions.search)));
            },
            Resource::Consumers => {
                self.consumers.reset_search();
                assert(self.consumers.filtered_consumers@ == view_of(self.consumers.consumers@, query(self.consumers.search)));
            },
            Resource::Listening { .. } => {
                self.listening.reset_search();
            },
        }
    }

    /// Starts an empty search on the active collection.
    pub fn init_search(&mut self, active_resource: &Resource)
        ensures
            final(self).search_started(*old(self), *active_resource),
            old(self).wf() ==> final(self).wf(),
    {
        match active_resource {
            Resource::Tenants => self.tenants.init_search(),
            Resource::Namespaces => self.namespaces.init_search(),
            Resource::Topics => self.topics.init_search(),
            Resource::Subscriptions => self.subscriptions.init_search(),
            Resource::Consumers => self.consumers.init_search(),
            Resource::Listening { .. } => self.listening.init_search(),
        }
    }

    /// Sets whether the active search takes typed characters, if there is
    /// a search.
    pub fn set_search_expecting(&mut self, active_resource: &Resource, expecting: bool)
        ensures
            final(self).search_expecting(*old(self), *active_resource, expecting),
            old(self).wf() ==> final(self).wf(),
    {
        match active_resource {
            Resource::Tenants => {
                if let Some(s) = &mut self.tenants.search {
                    s.expecting_input = expecting;
                }
            },
            Resource::Namespaces => {
                if let Some(s) = &mut self.namespaces.search {
                    s.expecting_input = expecting;
                }
            },
            Resource::Topics => {
                if let Some(s) = &mut self.topics.search {
                    s.expecting_input = expecting;
                }
            },
            Resource::Subscriptions => {
                if let Some(s) = &mut self.subscriptions.search {
                    s.expecting_input = expecting;
                }
            },
            Resource::Consumers => {
                if let Some(s) = &mut self.consumers.search {
                    s.expecting_input = expecting;
                }
            },
            Resource::Listening { .. } => {
                if let Some(s) = &mut self.listening.search {
                    s.expecting_input = expecting;
                }
            },
        }
    }

    /// Types `c` into the active search, when it takes input, and
    /// re-derives the view.
    pub fn update_search(&mut self, active_resource: &Resource, c: char)
        ensures
            final(self).typed(*old(self), *active_resource, c),
            old(self).wf() ==> final(self).wf(),
    {
        match active_resource {
            Resource::Tenants => {
                if let Some(s) = &mut self.tenants.search {
                    if s.expecting_input {
                        push_char(&mut s.value, c);
                    } else {
                        return;
                    }
                } else {
                    return;
                }
                self.tenants.filter();
            },
            Resource::Namespaces => {
                if let Some(s) = &mut self.namespaces.search {
                    if s.expecting_input {
                        push_char(&mut s.value, c);
                    } else {
                        return;
                    }
                } else {
                    return;
                }
                self.namespaces.filter();
            },
            Resource::Topics => {
                if let Some(s) = &mut self.topics.search {
                    if s.expecting_input {
                        push_char(&mut s.value, c);
                    } else {
                        return;
                    }
                } else {
                    return;
                }
                self.topics.filter();
            },
            Resource::Subscriptions => {
                if let Some(s) = &mut self.subscriptions.search {
                    if s.expecting_input {
                        push_char(&mut s.value, c);
                    } else {
                        return;
                    }
                } else {
                    return;
                }
                self.subscriptions.filter();
            },
            Resource::Consumers => {
                if let Some(s) = &mut self.consumers.search {
                    if s.expecting_input {
                        push_char(&mut s.value, c);
                    } else {
                        return;
                    }
                } else {
                    return;
                }
                self.consumers.filter();
            },
            Resource::Listening { .. } => {
                if let Some(s) = &mut self.listening.search {
                    if s.expecting_input {
                        push_char(&mut s.value, c);
                    } else {
                        return;
                    }
                } else {
                    return;
                }
                self.listening.filter(true);
            },
        }
    }

    /// Removes the last character of the active search, when it takes
    /// input, and re-derives the view.
    pub fn backspace_search(&mut self, active_resource: &Resource)
        ensures
            final(self).backspaced(*old(self), *active_resource),
            old(self).wf() ==> final(self).wf(),
    {
        match active_resource {
            Resource::Tenants => {
                if let Some(s) = &mut self.tenants.search {
                    if s.expecting_input {
                        pop_char(&mut s.value);
                    } else {
                        return;
                    }
                } else {
                    return;
                }
                self.tenants.filter();
            },
            Resource::Namespaces => {
                if let Some(s) = &mut self.namespaces.search {
                    if s.expecting_input {
                        pop_char(&mut s.value);
                    } else {
                        return;
                    }
                } else {
                    return;
                }
                self.namespaces.filter();
            },
            Resource::Topics => {
                if let Some(s) = &mut self.topics.search {
                    if s.expecting_input {
                        pop_char(&mut s.value);
                    } else {
                        return;
                    }
                } else {
                    return;
                }
                self.topics.filter();
            },
            Resource::Subscriptions => {
                if let Some(s) = &mut self.subscriptions.search {
                    if s.expecting_input {
                        pop_char(&mut s.value);
                    } else {
                        return;
                    }
                } else {
                    return;
                }
                self.subscriptions.filter();
            },
            Resource::Consumers => {
                if let Some(s) = &mut self.consumers.search {
                    if s.expecting_input {
                        pop_char(&mut s.value);
                    } else {
                        return;
                    }
                } else {
                    return;
                }
                self.consumers.filter();
            },
            Resource::Listening { .. } => {
                if let Some(s) = &mut self.listening.search {
                    if s.expecting_input {
                        pop_char(&mut s.value);
                    } else {
                        return;
                    }
                } else {
                    return;
                }
                self.listening.filter(true);
            },
        }
    }

    /// Empties the active search, when it takes input, and re-derives the
    /// view.
    pub fn clear_search(&mut self, active_resource: &Resource)
        ensures
            final(self).cleared(*old(self), *active_resource),
            old(self).wf() ==> final(self).wf(),
    {
        match active_resource {
            Resource::Tenants => {
                if let Some(s) = &mut self.tenants.search {
                    if s.expecting_input {
                        s.value = String::new();
                    } else {
                        return;
                    }
                } else {
                    return;
                }
                self.tenants.filter();
            },
            Resource::Namespaces => {
                if let Some(s) = &mut self.namespaces.search {
                    if s.expecting_input {
                        s.value = String::new();
                    } else {
                        return;
                    }
                } else {
                    return;
                }
                self.namespaces.filter();
            },
            Resource::Topics => {
                if let Some(s) = &mut self.topics.search {
                    if s.expecting_input {
                        s.value = String::new();
                    } else {
                        return;
                    }
                } else {
                    return;
                }
                self.topics.filter();
            },
            Resource::Subscriptions => {
                if let Some(s) = &mut self.subscriptions.search {
                    if s.expecting_input {
                        s.value = String::new();
                    } else {
                        return;
                    }
                } else {
                    return;
                }
                self.subscriptions.filter();
            },
            Resource::Consumers => {
                if let Some(s) = &mut self.consumers.search {
                    if s.expecting_input {
                        s.value = String::new();
                    } else {
                        return;
                    }
                } else {
                    return;
                }
                self.consumers.filter();
            },
            Resource::Listening { .. } => {
                if let Some(s) = &mut self.listening.search {
                    if s.expecting_input {
                        s.value = String::new();
                    } else {
                        return;
                    }
                } else {
                    return;
                }
                self.listening.filter(true);
            },
        }
    }

    /// Moves the active collection's cursor one step up, circularly.
    pub fn cursor_up(&mut self, active_resource: &Resource)
        ensures
            *final(self) == old(self).with_cursor(
                *active_resource,
                up_of(old(self).cursor_at(*active_resource), old(self).len_at(*active_resource)),
            ),
            cursor_ok(
                final(self).cursor_at(*active_resource),
                final(self).len_at(*active_resource),
            ),
            old(self).wf() ==> final(self).wf(),
    {
        match active_resource {
            Resource::Tenants => {
                self.tenants.cursor = cursor_up(self.tenants.cursor, self.tenants.filtered_tenants.len());
            },
            Resource::Namespaces => {
                self.namespaces.cursor = cursor_up(self.namespaces.cursor, self.namespaces.filtered_namespaces.len());
            },
            Resource::Topics => {
                self.topics.cursor = cursor_up(self.topics.cursor, self.topics.filtered_topics.len());
            },
            Resource::Subscriptions => {
                self.subscriptions.cursor = cursor_up(self.subscriptions.cursor, self.subscriptions.filtered_subscriptions.len());
            },
            Resource::Consumers => {
                self.consumers.cursor = cursor_up(self.consumers.cursor, self.consumers.filtered_consumers.len());
            },
            Resource::Listening { .. } => {
                self.listening.cursor = cursor_up(
                    self.listening.cursor,
                    self.listening.filtered_messages.len(),
                );
            },
        }
    }

    /// Moves the active collection's cursor one step down, circularly.
    pub fn cursor_down(&mut self, active_resource: &Resource)
        ensures
            *final(self) == old(self).with_cursor(
                *active_resource,
                down_of(old(self).cursor_at(*active_resource), old(self).len_at(*active_resource)),
            ),
            cursor_ok(
                final(self).cursor_at(*active_resource),
                final(self).len_at(*active_resource),
            ),
            old(self).wf() ==> final(self).wf(),
    {
        match active_resource {
            Resource::Tenants => {
                self.tenants.cursor = cursor_down(self.tenants.cursor, self.tenants.filtered_tenants.len());
            },
            Resource::Namespaces => {
                self.namespaces.cursor = cursor_down(self.namespaces.cursor, self.namespaces.filtered_namespaces.len());
            },
            Resource::Topics => {
                self.topics.cursor = cursor_down(self.topics.cursor, self.topics.filtered_topics.len());
            },
            Resource::Subscriptions => {
                self.subscriptions.cursor = cursor_down(self.subscriptions.cursor, self.subscriptions.filtered_subscriptions.len());
            },
            Resource::Consumers => {
                self.consumers.cursor = cursor_down(self.consumers.cursor, self.consumers.filtered_consumers.len());
            },
            Resource::Listening { .. } => {
                self.listening.cursor = cursor_down(
                    self.listening.cursor,
                    self.listening.filtered_messages.len(),
                );
            },
        }
    }

    pub fn selected_tenant(&self) -> (r: Option<&Tenant>)
        ensures
            match selected_of(self.tenants.filtered_tenants@, self.tenants.cursor) {
                Some(x) => r matches Some(y) && *y == x,
                None => r is None,
            },
    {
        match self.tenants.cursor {
            Some(c) => if c < self.tenants.filtered_tenants.len() {
                Some(&self.tenants.filtered_tenants[c])
            } else {
                None
            },
            None => None,
        }
    }

    pub fn selected_tenant_name(&self) -> (r: Option<&str>)
        ensures
            match selected_of(self.tenants.filtered_tenants@, self.tenants.cursor) {
                Some(x) => r matches Some(n) && n@ == x.name@,
                None => r is None,
            },
    {
        match self.selected_tenant() {
            Some(x) => Some(x.name.as_str()),
            None => None,
        }
    }

    pub fn selected_namespace(&self) -> (r: Option<&Namespace>)
        ensures
            match selected_of(self.namespaces.filtered_namespaces@, self.namespaces.cursor) {
                Some(x) => r matches Some(y) && *y == x,
                None => r is None,
            },
    {
        match self.namespaces.cursor {
            Some(c) => if c < self.namespaces.filtered_namespaces.len() {
                Some(&self.namespaces.filtered_namespaces[c])
            } else {
                None
            },
            None => None,
        }
    }

    pub fn selected_namespace_name(&self) -> (r: Option<&str>)
        ensures
            match selected_of(self.namespaces.filtered_namespaces@, self.namespaces.cursor) {
                Some(x) => r matches Some(n) && n@ == x.name@,
                None => r is None,
            },
    {
        match self.selected_namespace() {
            Some(x) => Some(x.name.as_str()),
            None => None,
        }
    }

    pub fn selected_topic(&self) -> (r: Option<&Topic>)
        ensures
            match selected_of(self.topics.filtered_topics@, self.topics.cursor) {
                Some(x) => r matches Some(y) && *y == x,
                None => r is None,
            },
    {
        match self.topics.cursor {
            Some(c) => if c < self.topics.filtered_topics.len() {
                Some(&self.topics.filtered_topics[c])
            } else {
                None
            },
            None => None,
        }
    }

    pub fn selected_topic_name(&self) -> (r: Option<&str>)
        ensures
            match selected_of(self.topics.filtered_topics@, self.topics.cursor) {
                Some(x) => r matches Some(n) && n@ == x.name@,
                None => r is None,
            },
    {
        match self.selected_topic() {
            Some(x) => Some(x.name.as_str()),
            None => None,
        }
    }

    pub fn selected_subscription(&self) -> (r: Option<&Subscription>)
        ensures
            match selected_of(self.subscriptions.filtered_subscriptions@, self.subscriptions.cursor) {
                Some(x) => r matches Some(y) && *y == x,
                None => r is None,
            },
    {
        match self.subscriptions.cursor {
            Some(c) => if c < self.subscriptions.filtered_subscriptions.len() {
                Some(&self.subscriptions.filtered_subscriptions[c])
            } else {
                None
            },
            None => None,
        }
    }

    pub fn selected_subscription_name(&self) -> (r: Option<&str>)
        ensures
            match selected_of(self.subscriptions.filtered_subscriptions@, self.subscriptions.cursor) {
                Some(x) => r matches Some(n) && n@ == x.name@,
                None => r is None,
            },
    {
        match self.selected_subscription() {
            Some(x) => Some(x.name.as_str()),
            None => None,
        }
    }

    pub fn selected_consumer(&self) -> (r: Option<&Consumer>)
        ensures
            match selected_of(self.consumers.filtered_consumers@, self.consumers.cursor) {
                Some(x) => r matches Some(y) && *y == x,
                None => r is None,
            },
    {
        match self.consumers.cursor {
            Some(c) => if c < self.consumers.filtered_consumers.len() {
                Some(&self.consumers.filtered_consumers[c])
            } else {
                None
            },
            None => None,
        }
    }

    pub fn selected_message(&self) -> (r: Option<&SubMessage>)
        ensures
            match selected_of(self.listening.filtered_messages@, self.listening.cursor) {
                Some(x) => r matches Some(y) && *y == x,
                None => r is None,
            },
    {
        match self.listening.cursor {
            Some(c) => if c < self.listening.filtered_messages.len() {
                Some(&self.listening.filtered_messages[c])
            } else {
                None
            },
            None => None,
        }
    }
}

/// A copy of the selected topic.
pub fn selected_topic(resources: &Resources) -> (r: Option<Topic>)
    ensures
        r == selected_of(resources.topics.filtered_topics@, resources.topics.cursor),
{
    match resources.selected_topic() {
        Some(t) => Some(t.copied()),
        None => None,
    }
}


/// Locking a search and then letting it take input again keeps its text.
pub proof fn lemma_search_lock_round_trip(a: Resources, b: Resources, c: Resources, r: Resource)
    requires
        b.search_expecting(a, r, false),
        c.search_expecting(b, r, true),
    ensures
        c.search_at(r) == (match a.search_at(r) {
            Some(s) => Some(Search { value: s.value, expecting_input: true }),
            None => None,
        }),
{
}

} // verus!
