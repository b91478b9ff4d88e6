//! The decision step of the dashboard: from the current state and one event
//! to the next state and the effects the surrounding loop must carry out.

use vstd::prelude::*;

use crate::message::{
    body_display, json_pretty_of, message_display, message_query, messages_shown, messages_view,
    strings_view, Listening, SelectedPanel, SubMessage,
};
use crate::modal::{
    decimal, decimal_of, hours_of, max_delta_seconds, seek_hours, suffix_for, ConfirmationModal,
    ConfirmedCommand, InfoToShow, InputModal,
};
use crate::resources::{
    clamp_cursor, down_of, replaced, up_of, Consumer, Filterable, Named, Namespace,
    Subscription, Tenant, Topic,
};
use crate::store::{selected_of, Resource, Resources};

verus! {

/// The logical controls the input source emits.
#[derive(Clone, Copy, Debug, PartialEq, Eq, Structural)]
pub enum ControlEvent {
    Enter,
    CycleSide,
    Yank,
    Back,
    Esc,
    BackSpace,
    ClearInput,
    Up,
    Search,
    Down,
    Terminate,
    Delete,
    Subscribe,
    Skip,
    Accept,
    Refuse,
    Seek,
}

/// Preset spans a subscription can be sought back by.
#[derive(Clone, Copy, Debug, PartialEq, Eq, Structural)]
pub enum ResetLength {
    OneHour,
    TwentyFourHours,
    Week,
}

/// The answer of a list fetch: the items, or the error's text.
#[derive(Debug)]
pub enum Fetched {
    Tenants(Result<Vec<Tenant>, String>),
    Namespaces(Result<Vec<Namespace>, String>),
    Topics(Result<Vec<Topic>, String>),
    Subscriptions(Result<Vec<Subscription>, String>),
    Consumers(Result<Vec<Consumer>, String>),
}

/// Everything the decision step reacts to.
#[derive(Debug)]
pub enum AppEvent {
    /// A typed character.
    Input(char),
    Control(ControlEvent),
    /// A confirmed command, handed back to be run.
    Command(ConfirmedCommand),
    /// A message from the live-tail task.
    SubscriptionEvent(SubMessage),
    LatestVersion(String),
    Fetched(Fetched),
    /// An admin command finished; `error` holds the failure's text.
    CommandFinished { command: ConfirmedCommand, error: Option<String> },
    /// A copy to the clipboard finished; `error` holds the failure's text.
    ClipboardFinished { error: Option<String> },
}

/// What the surrounding loop must do after a step.
#[derive(Clone, Debug)]
pub enum Effect {
    FetchTenants,
    FetchNamespaces { tenant: String },
    FetchTopics { tenant: String, namespace: String },
    FetchSubscriptions { tenant: String, namespace: String, topic: String },
    FetchConsumers { tenant: String, namespace: String, topic: String, subscription: String },
    /// Run the admin command and report with `CommandFinished`.
    Run(ConfirmedCommand),
    /// Put `Command(..)` of this command on the event channel.
    Emit(ConfirmedCommand),
    /// After this many seconds, put `Command(CloseInfoMessage)` on the channel.
    DismissAfter { seconds: u64 },
    /// Start the live-tail task on the topic through the subscription.
    StartListening { topic_fqn: String, sub_name: String },
    /// Send the live-tail task its cancellation signal.
    StopListening,
    /// Copy the text to the clipboard and report with `ClipboardFinished`.
    CopyToClipboard { text: String },
    Terminate,
}

/// The state the decision step owns.
#[derive(Clone)]
pub struct App {
    pub info_to_show: Option<InfoToShow>,
    pub confirmation_modal: Option<ConfirmationModal>,
    pub input_modal: Option<InputModal>,
    pub active_resource: Resource,
    pub resources: Resources,
    pub cluster_name: String,
    pub lgm_version: String,
    pub latest_lgm_version: Option<String>,
    /// The subscription of the running live-tail task, if one runs.
    pub listen_session: Option<String>,
}

/// A name for what `char::is_numeric` says of a character.
pub uninterp spec fn numeric_char(c: char) -> bool;

/// An ASCII digit, `0` to `9`.
pub open spec fn ascii_digit(c: char) -> bool {
    48 <= (c as u32) <= 57
}

/// An ASCII letter, `A` to `Z` or `a` to `z`.
pub open spec fn ascii_letter(c: char) -> bool {
    (65 <= (c as u32) <= 90) || (97 <= (c as u32) <= 122)
}

/// Relies on `char::is_numeric`: true for characters of the Unicode number
/// categories, which include the ASCII digits and no ASCII letter.
#[verifier::external_body]
fn is_numeric(c: char) -> (r: bool)
    ensures
        r == numeric_char(c),
        ascii_digit(c) ==> r,
        ascii_letter(c) ==> !r,
{
    c.is_numeric()
}

/// Relies on `uuid::Uuid::new_v4` and `Uuid`'s `Display`: a random UUID in
/// its hyphenated form, 36 characters long.
#[verifier::external_body]
fn fresh_uuid() -> (r: String)
    ensures
        r@.len() == 36,
{
    uuid::Uuid::new_v4().to_string()
}

/// The scheduled dismissal of a notification: five seconds for an error,
/// two otherwise.
pub open spec fn dismissal(is_error: bool) -> Effect {
    Effect::DismissAfter { seconds: if is_error { 5 } else { 2 } }
}

/// The panel focus after switching sides; the preview starts unscrolled.
pub open spec fn toggled(p: SelectedPanel) -> SelectedPanel {
    match p {
        SelectedPanel::Left => SelectedPanel::Right { scroll_offset: 0 },
        SelectedPanel::Right { .. } => SelectedPanel::Left,
    }
}

/// Fetch of the namespaces of the selected tenant, if one is selected.
pub open spec fn fetch_namespaces_for(r: Resources) -> Seq<Effect> {
    match selected_of(r.tenants.filtered_tenants@, r.tenants.cursor) {
        Some(t) => seq![Effect::FetchNamespaces { tenant: t.name }],
        None => seq![],
    }
}

/// Fetch of the topics of the selected namespace, if one is selected.
pub open spec fn fetch_topics_for(r: Resources) -> Seq<Effect> {
    match (
        selected_of(r.tenants.filtered_tenants@, r.tenants.cursor),
        selected_of(r.namespaces.filtered_namespaces@, r.namespaces.cursor),
    ) {
        (Some(t), Some(n)) => seq![Effect::FetchTopics { tenant: t.name, namespace: n.name }],
        _ => seq![],
    }
}

/// Fetch of the subscriptions of the selected topic, if one is selected.
pub open spec fn fetch_subscriptions_for(r: Resources) -> Seq<Effect> {
    match (
        selected_of(r.tenants.filtered_tenants@, r.tenants.cursor),
        selected_of(r.namespaces.filtered_namespaces@, r.namespaces.cursor),
        selected_of(r.topics.filtered_topics@, r.topics.cursor),
    ) {
        (Some(t), Some(n), Some(p)) => seq![
            Effect::FetchSubscriptions { tenant: t.name, namespace: n.name, topic: p.name },
        ],
        _ => seq![],
    }
}

/// Fetch of the consumers of the selected subscription, if one is selected.
pub open spec fn fetch_consumers_for(r: Resources) -> Seq<Effect> {
    match (
        selected_of(r.tenants.filtered_tenants@, r.tenants.cursor),
        selected_of(r.namespaces.filtered_namespaces@, r.namespaces.cursor),
        selected_of(r.topics.filtered_topics@, r.topics.cursor),
        selected_of(r.subscriptions.filtered_subscriptions@, r.subscriptions.cursor),
    ) {
        (Some(t), Some(n), Some(p), Some(s)) => seq![
            Effect::FetchConsumers {
                tenant: t.name,
                namespace: n.name,
                topic: p.name,
                subscription: s.name,
            },
        ],
        _ => seq![],
    }
}

impl App {
    /// The state at start-up: the default tenant, its namespaces shown,
    /// every other collection empty, nothing pending.
    pub fn new(
        cluster_name: String,
        lgm_version: String,
        default_tenant: String,
        namespaces: Vec<Namespace>,
    ) -> (r: App)
        ensures
            r.wf(),
            r.active_resource is Namespaces,
            r.resources.tenants.tenants@.len() == 1,
            r.resources.tenants.tenants@[0].name == default_tenant,
            r.resources.tenants.cursor == Some(0usize),
            r.resources.tenants.filtered_tenants@ == r.resources.tenants.tenants@,
            r.resources.tenants.search is None,
            r.resources.namespaces.search is None,
            r.resources.topics.topics@.len() == 0,
            r.resources.topics.filtered_topics@.len() == 0,
            r.resources.topics.cursor is None,
            r.resources.topics.search is None,
            r.resources.subscriptions.subscriptions@.len() == 0,
            r.resources.subscriptions.filtered_subscriptions@.len() == 0,
            r.resources.subscriptions.cursor is None,
            r.resources.subscriptions.search is None,
            r.resources.consumers.consumers@.len() == 0,
            r.resources.consumers.filtered_consumers@.len() == 0,
            r.resources.consumers.cursor is None,
            r.resources.consumers.search is None,
            r.resources.listening.messages@.len() == 0,
            r.resources.listening.filtered_messages@.len() == 0,
            r.resources.listening.cursor is None,
            r.resources.listening.search is None,
            r.resources.listening.panel == SelectedPanel::Left,
            r.resources.namespaces.namespaces@.to_multiset() == namespaces@.to_multiset(),
            r.resources.namespaces.filtered_namespaces@ == r.resources.namespaces.namespaces@,
            r.resources.namespaces.cursor == clamp_cursor(
                None,
                r.resources.namespaces.filtered_namespaces@.len(),
            ),
            r.info_to_show is None,
            r.confirmation_modal is None,
            r.input_modal is None,
            r.listen_session is None,
            r.latest_lgm_version is None,
            r.cluster_name == cluster_name,
            r.lgm_version == lgm_version,
    {
        let tenant = Tenant { name: default_tenant };
        let mut all: Vec<Tenant> = Vec::new();
        let mut shown: Vec<Tenant> = Vec::new();
        shown.push(tenant.copied());
        all.push(tenant);
        let tenants = crate::resources::Tenants {
            tenants: all,
            filtered_tenants: shown,
            cursor: Some(0),
            search: None,
        };
        let mut ns = crate::resources::Namespaces::new();
        ns.set_all(namespaces);
        App {
            info_to_show: None,
            confirmation_modal: None,
            input_modal: None,
            active_resource: Resource::Namespaces,
            resources: Resources {
                tenants,
                namespaces: ns,
                topics: crate::resources::Topics::new(),
                subscriptions: crate::resources::Subscriptions::new(),
                consumers: crate::resources::Consumers::new(),
                listening: Listening::new(),
            },
            cluster_name,
            lgm_version,
            latest_lgm_version: None,
            listen_session: None,
        }
    }

    /// The state holds together: every cursor is well placed.
    pub open spec fn wf(self) -> bool {
        self.resources.wf()
    }

    /// `self` shows a notification with this text.
    pub open spec fn shows(self, text: Seq<char>, is_error: bool) -> bool {
        self.info_to_show matches Some(i) && i.message@ == text && i.is_error == is_error
    }

    /// Controls that an open input dialog or a search taking input swallow,
    /// so that their keys are not taken for commands.
    pub open spec fn masks(self, c: ControlEvent) -> bool {
        &&& (self.input_modal is Some || self.resources.expecting_at(self.active_resource))
        &&& (c is Yank || c is Back || c is Up || c is Down || c is Delete || c is Seek)
    }

    /// Shows a notification and schedules its dismissal.
    fn notify(&mut self, text: String, is_error: bool) -> (r: Vec<Effect>)
        ensures
            *final(self) == (App {
                info_to_show: Some(InfoToShow { message: text, is_error }),
                ..*old(self)
            }),
            r@ == seq![dismissal(is_error)],
    {
        self.info_to_show = Some(InfoToShow { message: text, is_error });
        let mut r: Vec<Effect> = Vec::new();
        r.push(Effect::DismissAfter { seconds: if is_error { 5 } else { 2 } });
        r
    }

    /// Typed character: goes to an open numeric dialog when it is numeric,
    /// else to the active search when that takes input. ASCII digits count
    /// as numeric and ASCII letters do not.
    pub open spec fn input_post(old: App, new: App, c: char, e: Seq<Effect>) -> bool {
        &&& e.len() == 0
        &&& (ascii_digit(c) ==> numeric_char(c))
        &&& (ascii_letter(c) ==> !numeric_char(c))
        &&& if old.input_modal matches Some(m) && m.is_input_numeric && numeric_char(c) {
            &&& new == (App { input_modal: new.input_modal, ..old })
            &&& new.input_modal matches Some(n) && n.input@ == old.input_modal->0.input@.push(c)
                && n.input_suffix@ == suffix_for(n.input@) && n.message
                == old.input_modal->0.message && n.is_input_numeric
        } else {
            &&& new == (App { resources: new.resources, ..old })
            &&& new.resources.typed(old.resources, old.active_resource, c)
        }
    }

    pub fn on_input(&mut self, c: char) -> (r: Vec<Effect>)
        ensures
            App::input_post(*old(self), *final(self), c, r@),
            old(self).wf() ==> final(self).wf(),
    {
        let numeric = is_numeric(c);
        let mut taken = false;
        if let Some(m) = &mut self.input_modal {
            if m.is_input_numeric && numeric {
                m.push_input(c);
                taken = true;
            }
        }
        if !taken {
            self.resources.update_search(&self.active_resource, c);
        }
        Vec::new()
    }

    /// Backspace: edits an open dialog, else the active search.
    pub open spec fn backspace_post(old: App, new: App, e: Seq<Effect>) -> bool {
        &&& e.len() == 0
        &&& match old.input_modal {
            Some(m) => {
                &&& new == (App { input_modal: new.input_modal, ..old })
                &&& new.input_modal matches Some(n) && n.input@ == (if m.input@.len() == 0 {
                    m.input@
                } else {
                    m.input@.drop_last()
                }) && n.input_suffix@ == suffix_for(n.input@) && n.message == m.message
                    && n.is_input_numeric == m.is_input_numeric
            },
            None => {
                &&& new == (App { resources: new.resources, ..old })
                &&& new.resources.backspaced(old.resources, old.active_resource)
            },
        }
    }

    pub fn on_backspace(&mut self) -> (r: Vec<Effect>)
        ensures
            App::backspace_post(*old(self), *final(self), r@),
            old(self).wf() ==> final(self).wf(),
    {
        match &mut self.input_modal {
            Some(m) => m.pop_input(),
            None => self.resources.backspace_search(&self.active_resource),
        }
        Vec::new()
    }

    /// Search key: starts a search, drops one that takes input, or lets a
    /// locked one take input again.
    pub open spec fn search_post(old: App, new: App, e: Seq<Effect>) -> bool {
        let r = old.active_resource;
        &&& e.len() == 0
        &&& new == (App { resources: new.resources, ..old })
        &&& match old.resources.search_at(r) {
            Some(s) => if s.expecting_input {
                new.resources.search_dropped(old.resources, r)
            } else {
                new.resources.search_expecting(old.resources, r, true)
            },
            None => new.resources.search_started(old.resources, r),
        }
    }

    pub fn on_search(&mut self) -> (r: Vec<Effect>)
        ensures
            App::search_post(*old(self), *final(self), r@),
            old(self).wf() ==> final(self).wf(),
    {
        let state = match self.resources.get_active_resource_search(&self.active_resource) {
            Some(s) => if s.expecting_input {
                2u8
            } else {
                1u8
            },
            None => 0u8,
        };
        if state == 2 {
            self.resources.reset_search(&self.active_resource);
        } else if state == 1 {
            self.resources.set_search_expecting(&self.active_resource, true);
        } else {
            self.resources.init_search(&self.active_resource);
        }
        Vec::new()
    }

    /// Up or down: drops a pending confirmation, then scrolls the preview
    /// when it has the focus while live-tailing, else moves the cursor.
    pub open spec fn move_post(old: App, new: App, down: bool, e: Seq<Effect>) -> bool {
        let r = old.active_resource;
        let l = old.resources.listening;
        &&& e.len() == 0
        &&& if r is Listening && l.panel is Right {
            let o = l.panel->scroll_offset;
            let p = if down {
                if o == u16::MAX {
                    o
                } else {
                    (o + 1) as u16
                }
            } else {
                if o == 0 {
                    o
                } else {
                    (o - 1) as u16
                }
            };
            new == (App {
                confirmation_modal: None,
                resources: Resources {
                    listening: Listening { panel: SelectedPanel::Right { scroll_offset: p }, ..l },
                    ..old.resources
                },
                ..old
            })
        } else {
            let c = old.resources.cursor_at(r);
            let n = old.resources.len_at(r);
            new == (App {
                confirmation_modal: None,
                resources: old.resources.with_cursor(
                    r,
                    if down {
                        down_of(c, n)
                    } else {
                        up_of(c, n)
                    },
                ),
                ..old
            })
        }
    }

    pub fn on_move(&mut self, down: bool) -> (r: Vec<Effect>)
        ensures
            App::move_post(*old(self), *final(self), down, r@),
            old(self).wf() ==> final(self).wf(),
    {
        self.confirmation_modal = None;
        let listening = match &self.active_resource {
            Resource::Listening { .. } => true,
            _ => false,
        };
        let offset = match self.resources.listening.panel {
            SelectedPanel::Right { scroll_offset } => Some(scroll_offset),
            SelectedPanel::Left => None,
        };
        match offset {
            Some(o) if listening => {
                let p = if down {
                    o.saturating_add(1)
                } else {
                    o.saturating_sub(1)
                };
                self.resources.listening.panel = SelectedPanel::Right { scroll_offset: p };
            },
            _ => {
                if down {
                    self.resources.cursor_down(&self.active_resource);
                } else {
                    self.resources.cursor_up(&self.active_resource);
                }
            },
        }
        Vec::new()
    }

    /// Switches the focus between the message list and the preview.
    pub open spec fn cycle_post(old: App, new: App, e: Seq<Effect>) -> bool {
        &&& e.len() == 0
        &&& if old.active_resource is Listening {
            new == (App {
                resources: Resources {
                    listening: Listening {
                        panel: toggled(old.resources.listening.panel),
                        ..old.resources.listening
                    },
                    ..old.resources
                },
                ..old
            })
        } else {
            new == old
        }
    }

    pub fn on_cycle_side(&mut self) -> (r: Vec<Effect>)
        ensures
            App::cycle_post(*old(self), *final(self), r@),
            old(self).wf() ==> final(self).wf(),
    {
        if let Resource::Listening { .. } = &self.active_resource {
            self.resources.listening.panel = match self.resources.listening.panel {
                SelectedPanel::Left => SelectedPanel::Right { scroll_offset: 0 },
                SelectedPanel::Right { .. } => SelectedPanel::Left,
            };
        }
        Vec::new()
    }

    /// A message from the live-tail task joins the collection only while a
    /// session runs and its view is active.
    pub open spec fn message_post(old: App, new: App, m: SubMessage, e: Seq<Effect>) -> bool {
        let l = old.resources.listening;
        let n = new.resources.listening;
        &&& e.len() == 0
        &&& if old.active_resource is Listening && old.listen_session is Some {
            &&& new == (App {
                resources: Resources { listening: n, ..old.resources },
                ..old
            })
            &&& messages_view(n.messages@) == messages_view(l.messages@).push(m@)
            &&& messages_view(n.filtered_messages@) == messages_shown(
                messages_view(n.messages@),
                message_query(l.search),
            )
            &&& n.search == l.search
            &&& n.panel == l.panel
            &&& n.cursor == clamp_cursor(l.cursor, n.filtered_messages@.len())
        } else {
            new == old
        }
    }

    pub fn on_message(&mut self, m: SubMessage) -> (r: Vec<Effect>)
        ensures
            App::message_post(*old(self), *final(self), m, r@),
            old(self).wf() ==> final(self).wf(),
    {
        if let Resource::Listening { .. } = &self.active_resource {
            if self.listen_session.is_some() {
                self.resources.listening.push_message(m);
            }
        }
        Vec::new()
    }

    /// Skip or Delete on a selected subscription opens a confirmation that
    /// captures the tenant, namespace, topic and subscription.
    pub open spec fn prompt_post(old: App, new: App, delete: bool, e: Seq<Effect>) -> bool {
        let r = old.resources;
        &&& e.len() == 0
        &&& match (
            old.active_resource is Subscriptions,
            selected_of(r.tenants.filtered_tenants@, r.tenants.cursor),
            selected_of(r.namespaces.filtered_namespaces@, r.namespaces.cursor),
            selected_of(r.topics.filtered_topics@, r.topics.cursor),
            selected_of(r.subscriptions.filtered_subscriptions@, r.subscriptions.cursor),
        ) {
            (true, Some(t), Some(n), Some(p), Some(s)) => {
                &&& new == (App { confirmation_modal: new.confirmation_modal, ..old })
                &&& new.confirmation_modal matches Some(m) && m.message@ == (if delete {
                    "Delete '"@ + s.name@ + "' subscription?"@
                } else {
                    "Skip all '"@ + s.name@ + "' messages?"@
                }) && m.command == (if delete {
                    ConfirmedCommand::DeleteSubscription {
                        tenant: t.name,
                        namespace: n.name,
                        topic: p.name,
                        sub_name: s.name,
                    }
                } else {
                    ConfirmedCommand::SkipAllMessages {
                        tenant: t.name,
                        namespace: n.name,
                        topic: p.name,
                        sub_name: s.name,
                    }
                })
            },
            _ => new == old,
        }
    }

    /// Clones of the selected tenant, namespace and topic names.
    fn selected_path(&self) -> (r: Option<(String, String, String)>)
        ensures
            match (
                selected_of(self.resources.tenants.filtered_tenants@, self.resources.tenants.cursor),
                selected_of(
                    self.resources.namespaces.filtered_namespaces@,
                    self.resources.namespaces.cursor,
                ),
                selected_of(self.resources.topics.filtered_topics@, self.resources.topics.cursor),
            ) {
                (Some(t), Some(n), Some(p)) => r == Some((t.name, n.name, p.name)),
                _ => r is None,
            },
    {
        match (
            self.resources.selected_tenant(),
            self.resources.selected_namespace(),
            self.resources.selected_topic(),
        ) {
            (Some(t), Some(n), Some(p)) => Some((t.name.clone(), n.name.clone(), p.name.clone())),
            _ => None,
        }
    }

    pub fn on_prompt(&mut self, delete: bool) -> (r: Vec<Effect>)
        ensures
            App::prompt_post(*old(self), *final(self), delete, r@),
            old(self).wf() ==> final(self).wf(),
    {
        let on_subscriptions = match &self.active_resource {
            Resource::Subscriptions => true,
            _ => false,
        };
        if !on_subscriptions {
            return Vec::new();
        }
        let path = self.selected_path();
        let sub = match self.resources.selected_subscription() {
            Some(s) => Some(s.name.clone()),
            None => None,
        };
        match (path, sub) {
            (Some((tenant, namespace, topic)), Some(sub_name)) => {
                let message = if delete {
                    let mut m = "Delete '".to_owned();
                    m.append(sub_name.as_str());
                    m.append("' subscription?");
                    m
                } else {
                    let mut m = "Skip all '".to_owned();
                    m.append(sub_name.as_str());
                    m.append("' messages?");
                    m
                };
                let command = if delete {
                    ConfirmedCommand::DeleteSubscription { tenant, namespace, topic, sub_name }
                } else {
                    ConfirmedCommand::SkipAllMessages { tenant, namespace, topic, sub_name }
                };
                self.confirmation_modal = Some(ConfirmationModal { message, command });
            },
            _ => {},
        }
        Vec::new()
    }

    /// Seek opens the hour-count dialog, prefilled with 24, while
    /// live-tailing or on a selected subscription.
    pub open spec fn seek_dialog_post(old: App, new: App, e: Seq<Effect>) -> bool {
        let r = old.resources;
        let s = selected_of(r.subscriptions.filtered_subscriptions@, r.subscriptions.cursor);
        &&& e.len() == 0
        &&& if old.active_resource is Listening || (old.active_resource is Subscriptions
            && s is Some) {
            &&& new == (App { input_modal: new.input_modal, ..old })
            &&& new.input_modal matches Some(m) && m.message@ == (if old.active_resource
                is Listening {
                "Seek subscription for:"@
            } else {
                "Seek "@ + s->0.name@ + " subscription for:"@
            }) && m.input@ == "24"@ && m.input_suffix@ == " hours"@ && m.is_input_numeric
        } else {
            new == old
        }
    }

    pub fn on_seek_dialog(&mut self) -> (r: Vec<Effect>)
        ensures
            App::seek_dialog_post(*old(self), *final(self), r@),
            old(self).wf() ==> final(self).wf(),
    {
        let message = match &self.active_resource {
            Resource::Listening { .. } => Some("Seek subscription for:".to_owned()),
            Resource::Subscriptions => match self.resources.selected_subscription() {
                Some(s) => {
                    let mut m = "Seek ".to_owned();
                    m.append(s.name.as_str());
                    m.append(" subscription for:");
                    Some(m)
                },
                None => None,
            },
            _ => None,
        };
        if let Some(message) = message {
            self.input_modal = Some(
                InputModal {
                    message,
                    input: "24".to_owned(),
                    input_suffix: " hours".to_owned(),
                    is_input_numeric: true,
                },
            );
        }
        Vec::new()
    }

    /// Yank asks for the selected message, as shown in full, to be copied.
    pub open spec fn yank_post(old: App, new: App, e: Seq<Effect>) -> bool {
        let l = old.resources.listening;
        &&& new == old
        &&& match selected_of(l.filtered_messages@, l.cursor) {
            Some(m) if old.active_resource is Listening => {
                &&& e.len() == 1
                &&& e[0] matches Effect::CopyToClipboard { text } && text@ == message_display(
                    strings_view(m.properties@),
                    body_display(json_pretty_of(m.body@), m.body@),
                )
            },
            _ => e.len() == 0,
        }
    }

    pub fn on_yank(&self) -> (r: Vec<Effect>)
        ensures
            App::yank_post(*self, *self, r@),
    {
        let mut r: Vec<Effect> = Vec::new();
        if let Resource::Listening { .. } = &self.active_resource {
            if let Some(m) = self.resources.selected_message() {
                r.push(Effect::CopyToClipboard { text: m.as_pretty_str() });
            }
        }
        r
    }

    /// The copy to the clipboard is reported to the user.
    pub open spec fn clipboard_post(old: App, new: App, error: Option<String>, e: Seq<Effect>) -> bool {
        &&& new == (App { info_to_show: new.info_to_show, ..old })
        &&& match error {
            Some(err) => new.shows(err@, true) && e == seq![dismissal(true)],
            None => new.shows("Message copied to clipboard."@, false) && e == seq![dismissal(false)],
        }
    }

    pub fn on_clipboard_finished(&mut self, error: Option<String>) -> (r: Vec<Effect>)
        ensures
            App::clipboard_post(*old(self), *final(self), error, r@),
            old(self).wf() ==> final(self).wf(),
    {
        match error {
            Some(err) => self.notify(err, true),
            None => self.notify("Message copied to clipboard.".to_owned(), false),
        }
    }

    /// A listen session on `topic` through `sub_name` has started: its view
    /// is active and empty, and the loop is asked to start the task, after
    /// stopping one that still runs.
    pub open spec fn listen_started(
        old: App,
        new: App,
        topic: Topic,
        sub_name: String,
        e: Seq<Effect>,
    ) -> bool {
        let n = new.resources.listening;
        &&& new == (App {
            active_resource: Resource::Listening { sub_name },
            listen_session: Some(sub_name),
            resources: Resources { listening: n, ..old.resources },
            ..old
        })
        &&& n.messages@.len() == 0
        &&& n.filtered_messages@.len() == 0
        &&& n.cursor is None
        &&& n.search is None
        &&& n.panel == SelectedPanel::Left
        &&& e == (if old.listen_session is Some {
            seq![Effect::StopListening]
        } else {
            seq![]
        }).push(Effect::StartListening { topic_fqn: topic.fqn, sub_name })
    }

    /// Starts a listen session on `topic` through the subscription `sub_name`.
    pub fn start_listening(&mut self, topic: &Topic, sub_name: String) -> (r: Vec<Effect>)
        ensures
            App::listen_started(*old(self), *final(self), *topic, sub_name, r@),
            old(self).wf() ==> final(self).wf(),
    {
        let mut r: Vec<Effect> = Vec::new();
        if self.listen_session.is_some() {
            r.push(Effect::StopListening);
        }
        self.active_resource = Resource::Listening { sub_name: sub_name.clone() };
        self.listen_session = Some(sub_name.clone());
        self.resources.listening = Listening::new();
        r.push(Effect::StartListening { topic_fqn: topic.fqn.clone(), sub_name });
        r
    }

    /// The name every listen session's subscription starts with.
    pub open spec fn session_prefix() -> Seq<char> {
        "lgm_subscription_"@
    }

    /// Subscribe on a selected topic starts a listen session through a
    /// fresh subscription named by the prefix and a random UUID.
    pub open spec fn subscribe_post(old: App, new: App, e: Seq<Effect>) -> bool {
        match selected_of(old.resources.topics.filtered_topics@, old.resources.topics.cursor) {
            Some(t) if old.active_resource is Topics => exists|name: String|
                #![trigger App::listen_started(old, new, t, name, e)]
                name@.len() == App::session_prefix().len() + 36 && name@.subrange(
                    0,
                    App::session_prefix().len() as int,
                ) == App::session_prefix() && App::listen_started(old, new, t, name, e),
            _ => new == old && e.len() == 0,
        }
    }

    pub fn on_subscribe(&mut self) -> (r: Vec<Effect>)
        ensures
            App::subscribe_post(*old(self), *final(self), r@),
            old(self).wf() ==> final(self).wf(),
    {
        let on_topics = match &self.active_resource {
            Resource::Topics => true,
            _ => false,
        };
        if !on_topics {
            return Vec::new();
        }
        match crate::store::selected_topic(&self.resources) {
            Some(topic) => {
                let mut sub_name = "lgm_subscription_".to_owned();
                let id = fresh_uuid();
                sub_name.append(id.as_str());
                proof {
                    assert(sub_name@.subrange(0, App::session_prefix().len() as int)
                        =~= App::session_prefix());
                }
                self.start_listening(&topic, sub_name)
            },
            None => Vec::new(),
        }
    }

    /// A confirmed command is run, except closing the notification, which
    /// happens at once.
    pub open spec fn command_post(old: App, new: App, cmd: ConfirmedCommand, e: Seq<Effect>) -> bool {
        match cmd {
            ConfirmedCommand::CloseInfoMessage => new == (App { info_to_show: None, ..old })
                && e.len() == 0,
            _ => new == old && e == seq![Effect::Run(cmd)],
        }
    }

    pub fn on_command(&mut self, cmd: ConfirmedCommand) -> (r: Vec<Effect>)
        ensures
            App::command_post(*old(self), *final(self), cmd, r@),
            old(self).wf() ==> final(self).wf(),
    {
        let mut r: Vec<Effect> = Vec::new();
        match cmd {
            ConfirmedCommand::CloseInfoMessage => {
                self.info_to_show = None;
            },
            _ => {
                r.push(Effect::Run(cmd));
            },
        }
        r
    }

    /// What the user is told when a command succeeded.
    pub open spec fn success_text(cmd: ConfirmedCommand) -> Seq<char> {
        match cmd {
            ConfirmedCommand::DeleteSubscription { .. } => "Subscription deleted."@,
            ConfirmedCommand::SkipAllMessages { .. } => "All messages skipped successfully."@,
            ConfirmedCommand::SeekSubscription { hours, .. } => decimal_of(hours as int)
                + " hours seeked"@,
            ConfirmedCommand::CloseInfoMessage => Seq::empty(),
        }
    }

    /// What the user is told when a command failed with `err`.
    pub open spec fn failure_text(cmd: ConfirmedCommand, err: Seq<char>) -> Seq<char> {
        match cmd {
            ConfirmedCommand::DeleteSubscription { .. } => "Failed to delete subscription :[ "@
                + err,
            _ => err,
        }
    }

    /// The refetch of subscriptions that follows a successful command; a
    /// seek refetches only when the subscriptions are shown.
    pub open spec fn refresh_after(cmd: ConfirmedCommand, active: Resource) -> Seq<Effect> {
        match cmd {
            ConfirmedCommand::DeleteSubscription { tenant, namespace, topic, .. } => seq![
                Effect::FetchSubscriptions { tenant, namespace, topic },
            ],
            ConfirmedCommand::SkipAllMessages { tenant, namespace, topic, .. } => seq![
                Effect::FetchSubscriptions { tenant, namespace, topic },
            ],
            ConfirmedCommand::SeekSubscription { tenant, namespace, topic, .. } => if active
                is Subscriptions {
                seq![Effect::FetchSubscriptions { tenant, namespace, topic }]
            } else {
                seq![]
            },
            ConfirmedCommand::CloseInfoMessage => seq![],
        }
    }

    /// A finished command closes the confirmation and tells the outcome;
    /// success refetches the subscriptions.
    pub open spec fn finished_post(
        old: App,
        new: App,
        cmd: ConfirmedCommand,
        error: Option<String>,
        e: Seq<Effect>,
    ) -> bool {
        if cmd is CloseInfoMessage {
            new == old && e.len() == 0
        } else {
            &&& new == (App { confirmation_modal: None, info_to_show: new.info_to_show, ..old })
            &&& match error {
                Some(err) => new.shows(App::failure_text(cmd, err@), true) && e == seq![
                    dismissal(true),
                ],
                None => new.shows(App::success_text(cmd), false) && e == seq![dismissal(false)]
                    + App::refresh_after(cmd, old.active_resource),
            }
        }
    }

    pub fn on_command_finished(&mut self, cmd: ConfirmedCommand, error: Option<String>) -> (r: Vec<
        Effect,
    >)
        ensures
            App::finished_post(*old(self), *final(self), cmd, error, r@),
            old(self).wf() ==> final(self).wf(),
    {
        let ghost c = cmd;
        let failed = error.is_some();
        let on_subscriptions = match &self.active_resource {
            Resource::Subscriptions => true,
            _ => false,
        };
        let (text, refresh) = match cmd {
            ConfirmedCommand::CloseInfoMessage => {
                return Vec::new();
            },
            ConfirmedCommand::DeleteSubscription { tenant, namespace, topic, .. } => {
                let text = match error {
                    Some(err) => {
                        let mut t = "Failed to delete subscription :[ ".to_owned();
                        t.append(err.as_str());
                        t
                    },
                    None => "Subscription deleted.".to_owned(),
                };
                (text, Some(Effect::FetchSubscriptions { tenant, namespace, topic }))
            },
            ConfirmedCommand::SkipAllMessages { tenant, namespace, topic, .. } => {
                let text = match error {
                    Some(err) => err,
                    None => "All messages skipped successfully.".to_owned(),
                };
                (text, Some(Effect::FetchSubscriptions { tenant, namespace, topic }))
            },
            ConfirmedCommand::SeekSubscription { tenant, namespace, topic, hours, .. } => {
                let text = match error {
                    Some(err) => err,
                    None => {
                        let mut t = decimal(hours);
                        t.append(" hours seeked");
                        t
                    },
                };
                let refresh = if on_subscriptions {
                    Some(Effect::FetchSubscriptions { tenant, namespace, topic })
                } else {
                    None
                };
                (text, refresh)
            },
        };
        self.confirmation_modal = None;
        let mut r = self.notify(text, failed);
        if !failed {
            if let Some(f) = refresh {
                r.push(f);
            }
        }
        proof {
            if !failed {
                assert(r@ =~= seq![dismissal(false)] + App::refresh_after(c, old(self).active_resource));
            }
        }
        r
    }

    /// Accept hands the pending command back to the event channel.
    pub open spec fn accept_post(old: App, new: App, e: Seq<Effect>) -> bool {
        match old.confirmation_modal {
            Some(m) => new == (App { confirmation_modal: None, ..old }) && e == seq![
                Effect::Emit(m.command),
            ],
            None => new == old && e.len() == 0,
        }
    }

    pub fn on_accept(&mut self) -> (r: Vec<Effect>)
        ensures
            App::accept_post(*old(self), *final(self), r@),
            old(self).wf() ==> final(self).wf(),
    {
        let mut r: Vec<Effect> = Vec::new();
        match self.confirmation_modal.take() {
            Some(m) => r.push(Effect::Emit(m.command)),
            None => {},
        }
        r
    }

    /// Closing the hour-count dialog with `input`: a usable count asks for
    /// the seek of `sub` under the selected topic; anything else is
    /// reported.
    pub open spec fn seek_post(
        old: App,
        new: App,
        input: Seq<char>,
        sub: Option<String>,
        e: Seq<Effect>,
    ) -> bool {
        let r = old.resources;
        let closed = App { input_modal: None, ..old };
        match hours_of(input) {
            Some(h) if h * 3600 <= max_delta_seconds() => match (
                selected_of(r.tenants.filtered_tenants@, r.tenants.cursor),
                selected_of(r.namespaces.filtered_namespaces@, r.namespaces.cursor),
                selected_of(r.topics.filtered_topics@, r.topics.cursor),
                sub,
            ) {
                (Some(t), Some(n), Some(p), Some(s)) => {
                    &&& new == closed
                    &&& e.len() == 1
                    &&& e[0] matches Effect::Run(
                        ConfirmedCommand::SeekSubscription {
                            tenant,
                            namespace,
                            topic,
                            sub_name,
                            hours,
                            ..
                        },
                    ) && tenant == t.name && namespace == n.name && topic == p.name && sub_name
                        == s && hours == h
                },
                _ => new == closed && e.len() == 0,
            },
            _ => {
                &&& new == (App { info_to_show: new.info_to_show, ..closed })
                &&& new.shows("Invalid number of hours: "@ + input, true)
                &&& e == seq![dismissal(true)]
            },
        }
    }

    fn seek_from_dialog(&mut self, sub: Option<String>) -> (r: Vec<Effect>)
        requires
            old(self).input_modal is Some,
        ensures
            old(self).input_modal->0.input@.len() == 0 ==> *final(self) == *old(self) && r@.len()
                == 0,
            old(self).input_modal->0.input@.len() > 0 ==> App::seek_post(
                *old(self),
                *final(self),
                old(self).input_modal->0.input@,
                sub,
                r@,
            ),
            old(self).wf() ==> final(self).wf(),
    {
        let delta = match &self.input_modal {
            Some(m) => {
                if m.input.as_str().is_empty() {
                    return Vec::new();
                }
                match seek_hours(m.input.as_str()) {
                    Some(hours) => Ok(hours),
                    None => {
                        let mut t = "Invalid number of hours: ".to_owned();
                        t.append(m.input.as_str());
                        Err(t)
                    },
                }
            },
            None => {
                return Vec::new();
            },
        };
        self.input_modal = None;
        match delta {
            Ok(hours) => {
                let mut r: Vec<Effect> = Vec::new();
                match (self.selected_path(), sub) {
                    (Some((tenant, namespace, topic)), Some(sub_name)) => {
                        r.push(
                            Effect::Run(
                                ConfirmedCommand::SeekSubscription {
                                    tenant,
                                    namespace,
                                    topic,
                                    sub_name,
                                    hours,
                                },
                            ),
                        );
                    },
                    _ => {},
                }
                r
            },
            Err(t) => self.notify(t, true),
        }
    }

    /// Enter: locks a search that takes input; otherwise drills into the
    /// selected item, or, with the hour-count dialog open, seeks.
    pub open spec fn enter_post(old: App, new: App, e: Seq<Effect>) -> bool {
        let r = old.active_resource;
        let mid = App { confirmation_modal: None, ..old };
        if old.resources.expecting_at(r) {
            &&& new == (App { resources: new.resources, ..mid })
            &&& new.resources.search_expecting(old.resources, r, false)
            &&& e.len() == 0
        } else {
            match r {
                Resource::Tenants => new == mid && e == fetch_namespaces_for(old.resources),
                Resource::Namespaces => new == mid && e == fetch_topics_for(old.resources),
                Resource::Topics => new == mid && e == fetch_subscriptions_for(old.resources),
                Resource::Subscriptions => match old.input_modal {
                    Some(m) => if m.input@.len() == 0 {
                        new == mid && e.len() == 0
                    } else {
                        App::seek_post(
                            mid,
                            new,
                            m.input@,
                            match selected_of(
                                old.resources.subscriptions.filtered_subscriptions@,
                                old.resources.subscriptions.cursor,
                            ) {
                                Some(s) => Some(s.name),
                                None => None,
                            },
                            e,
                        )
                    },
                    None => new == mid && e == fetch_consumers_for(old.resources),
                },
                Resource::Listening { sub_name } => match old.input_modal {
                    Some(m) => if m.input@.len() == 0 {
                        new == mid && e.len() == 0
                    } else {
                        App::seek_post(mid, new, m.input@, Some(sub_name), e)
                    },
                    None => new == mid && e.len() == 0,
                },
                Resource::Consumers => new == mid && e.len() == 0,
            }
        }
    }

    pub fn on_enter(&mut self) -> (r: Vec<Effect>)
        ensures
            App::enter_post(*old(self), *final(self), r@),
            old(self).wf() ==> final(self).wf(),
    {
        self.confirmation_modal = None;
        if self.resources.is_search_expecting_input(&self.active_resource) {
            self.resources.set_search_expecting(&self.active_resource, false);
            return Vec::new();
        }
        let mut r: Vec<Effect> = Vec::new();
        match &self.active_resource {
            Resource::Tenants => {
                if let Some(t) = self.resources.selected_tenant() {
                    r.push(Effect::FetchNamespaces { tenant: t.name.clone() });
                }
            },
            Resource::Namespaces => {
                match (self.resources.selected_tenant(), self.resources.selected_namespace()) {
                    (Some(t), Some(n)) => {
                        r.push(
                            Effect::FetchTopics { tenant: t.name.clone(), namespace: n.name.clone() },
                        );
                    },
                    _ => {},
                }
            },
            Resource::Topics => {
                if let Some((tenant, namespace, topic)) = self.selected_path() {
                    r.push(Effect::FetchSubscriptions { tenant, namespace, topic });
                }
            },
            Resource::Subscriptions => {
                let sub = match self.resources.selected_subscription() {
                    Some(s) => Some(s.name.clone()),
                    None => None,
                };
                if self.input_modal.is_some() {
                    return self.seek_from_dialog(sub);
                }
                match (self.selected_path(), sub) {
                    (Some((tenant, namespace, topic)), Some(subscription)) => {
                        r.push(Effect::FetchConsumers { tenant, namespace, topic, subscription });
                    },
                    _ => {},
                }
            },
            Resource::Listening { sub_name } => {
                let sub = Some(sub_name.clone());
                if self.input_modal.is_some() {
                    return self.seek_from_dialog(sub);
                }
            },
            Resource::Consumers => {},
        }
        r
    }

    /// Back or Esc: drops a search that takes input; else closes an open
    /// dialog; else asks for the parent list, stopping a live-tail on the
    /// way out of it.
    pub open spec fn back_post(old: App, new: App, e: Seq<Effect>) -> bool {
        let r = old.active_resource;
        if old.resources.expecting_at(r) {
            &&& new == (App { resources: new.resources, ..old })
            &&& new.resources.search_dropped(old.resources, r)
            &&& e.len() == 0
        } else if old.input_modal is Some {
            new == (App { input_modal: None, ..old }) && e.len() == 0
        } else if old.confirmation_modal is Some {
            new == (App { confirmation_modal: None, ..old }) && e.len() == 0
        } else {
            match r {
                Resource::Tenants => new == old && e.len() == 0,
                Resource::Namespaces => new == old && e == seq![Effect::FetchTenants],
                Resource::Topics => new == old && e == fetch_namespaces_for(old.resources),
                Resource::Subscriptions => new == old && e == fetch_topics_for(old.resources),
                Resource::Consumers => new == old && e == fetch_subscriptions_for(old.resources),
                Resource::Listening { .. } => {
                    let l = old.resources.listening;
                    let n = new.resources.listening;
                    &&& new == (App {
                        listen_session: None,
                        resources: Resources { listening: n, ..old.resources },
                        ..old
                    })
                    &&& n.search is None
                    &&& n.panel == SelectedPanel::Left
                    &&& n.messages == l.messages
                    &&& messages_view(n.filtered_messages@) == messages_view(l.messages@)
                    &&& n.cursor == clamp_cursor(l.cursor, n.filtered_messages@.len())
                    &&& e == (if old.listen_session is Some {
                        seq![Effect::StopListening]
                    } else {
                        seq![]
                    }) + fetch_topics_for(old.resources)
                },
            }
        }
    }

    pub fn on_back(&mut self) -> (r: Vec<Effect>)
        ensures
            App::back_post(*old(self), *final(self), r@),
            old(self).wf() ==> final(self).wf(),
    {
        let mut r: Vec<Effect> = Vec::new();
        if self.resources.is_search_expecting_input(&self.active_resource) {
            self.resources.reset_search(&self.active_resource);
            return r;
        }
        if self.input_modal.is_some() {
            self.input_modal = None;
            return r;
        }
        if self.confirmation_modal.is_some() {
            self.confirmation_modal = None;
            return r;
        }
        let ghost r0 = r@;
        match &self.active_resource {
            Resource::Tenants => {},
            Resource::Namespaces => {
                r.push(Effect::FetchTenants);
            },
            Resource::Topics => {
                if let Some(t) = self.resources.selected_tenant() {
                    r.push(Effect::FetchNamespaces { tenant: t.name.clone() });
                }
            },
            Resource::Subscriptions => {
                match (self.resources.selected_tenant(), self.resources.selected_namespace()) {
                    (Some(t), Some(n)) => {
                        r.push(
                            Effect::FetchTopics { tenant: t.name.clone(), namespace: n.name.clone() },
                        );
                    },
                    _ => {},
                }
            },
            Resource::Consumers => {
                if let Some((tenant, namespace, topic)) = self.selected_path() {
                    r.push(Effect::FetchSubscriptions { tenant, namespace, topic });
                }
            },
            Resource::Listening { .. } => {
                if self.listen_session.is_some() {
                    r.push(Effect::StopListening);
                }
                let ghost stop = r@;
                self.listen_session = None;
                self.resources.listening.reset_search();
                self.resources.listening.panel = SelectedPanel::Left;
                match (self.resources.selected_tenant(), self.resources.selected_namespace()) {
                    (Some(t), Some(n)) => {
                        r.push(
                            Effect::FetchTopics { tenant: t.name.clone(), namespace: n.name.clone() },
                        );
                    },
                    _ => {},
                }
                assert(r@ =~= stop + fetch_topics_for(old(self).resources));
            },
        }
        r
    }

    /// A fetched list became the active view; a live-tail still running is
    /// stopped.
    pub open spec fn arrived(old: App, new: App, target: Resource, e: Seq<Effect>) -> bool {
        &&& new == (App {
            active_resource: target,
            resources: new.resources,
            listen_session: None,
            ..old
        })
        &&& e == (if old.listen_session is Some {
            seq![Effect::StopListening]
        } else {
            seq![]
        })
    }

    /// A fetch failure is reported and changes nothing else.
    pub open spec fn fetch_failed(old: App, new: App, text: Seq<char>, e: Seq<Effect>) -> bool {
        &&& new == (App { info_to_show: new.info_to_show, ..old })
        &&& new.shows(text, true)
        &&& e == seq![dismissal(true)]
    }

    /// A fetched list replaces its collection, sorted and with the
    /// selection kept by name, and its view becomes active; a failure is
    /// reported.
    pub open spec fn fetched_post(old: App, new: App, f: Fetched, e: Seq<Effect>) -> bool {
        match f {
            Fetched::Tenants(Ok(v)) => {
                &&& App::arrived(old, new, Resource::Tenants, e)
                &&& new.resources == (Resources { tenants: new.resources.tenants, ..old.resources })
                &&& replaced(old.resources.tenants, new.resources.tenants, v@)
            },
            Fetched::Tenants(Err(err)) => App::fetch_failed(
                old,
                new,
                "Failed to fetch tenants :[ "@ + err@,
                e,
            ),
            Fetched::Namespaces(Ok(v)) => {
                &&& App::arrived(old, new, Resource::Namespaces, e)
                &&& new.resources == (Resources { namespaces: new.resources.namespaces, ..old.resources })
                &&& replaced(old.resources.namespaces, new.resources.namespaces, v@)
            },
            Fetched::Namespaces(Err(err)) => App::fetch_failed(
                old,
                new,
                "Failed to fetch namespaces :[ "@ + err@,
                e,
            ),
            Fetched::Topics(Ok(v)) => {
                &&& App::arrived(old, new, Resource::Topics, e)
                &&& new.resources == (Resources { topics: new.resources.topics, ..old.resources })
                &&& replaced(old.resources.topics, new.resources.topics, v@)
            },
            Fetched::Topics(Err(err)) => App::fetch_failed(
                old,
                new,
                "Failed to fetch topics :[ "@ + err@,
                e,
            ),
            Fetched::Subscriptions(Ok(v)) => {
                &&& App::arrived(old, new, Resource::Subscriptions, e)
                &&& new.resources == (Resources { subscriptions: new.resources.subscriptions, ..old.resources })
                &&& replaced(old.resources.subscriptions, new.resources.subscriptions, v@)
            },
            Fetched::Subscriptions(Err(err)) => App::fetch_failed(
                old,
                new,
                "Failed to fetch subscriptions :[ "@ + err@,
                e,
            ),
            Fetched::Consumers(Ok(v)) => {
                &&& App::arrived(old, new, Resource::Consumers, e)
                &&& new.resources == (Resources { consumers: new.resources.consumers, ..old.resources })
                &&& replaced(old.resources.consumers, new.resources.consumers, v@)
            },
            Fetched::Consumers(Err(err)) => App::fetch_failed(
                old,
                new,
                "Failed to fetch consumers :[ "@ + err@,
                e,
            ),
        }
    }

    fn leave_for(&mut self, target: Resource) -> (r: Vec<Effect>)
        ensures
            App::arrived(*old(self), *final(self), target, r@),
            final(self).resources == old(self).resources,
    {
        let mut r: Vec<Effect> = Vec::new();
        if self.listen_session.is_some() {
            r.push(Effect::StopListening);
        }
        self.listen_session = None;
        self.active_resource = target;
        r
    }

    pub fn on_fetched(&mut self, f: Fetched) -> (r: Vec<Effect>)
        ensures
            App::fetched_post(*old(self), *final(self), f, r@),
            old(self).wf() ==> final(self).wf(),
    {
        match f {
            Fetched::Tenants(Ok(v)) => {
                self.resources.tenants.set_all(v);
                self.leave_for(Resource::Tenants)
            },
            Fetched::Tenants(Err(err)) => {
                let mut t = "Failed to fetch tenants :[ ".to_owned();
                t.append(err.as_str());
                self.notify(t, true)
            },
            Fetched::Namespaces(Ok(v)) => {
                self.resources.namespaces.set_all(v);
                self.leave_for(Resource::Namespaces)
            },
            Fetched::Namespaces(Err(err)) => {
                let mut t = "Failed to fetch namespaces :[ ".to_owned();
                t.append(err.as_str());
                self.notify(t, true)
            },
            Fetched::Topics(Ok(v)) => {
                self.resources.topics.set_all(v);
                self.leave_for(Resource::Topics)
            },
            Fetched::Topics(Err(err)) => {
                let mut t = "Failed to fetch topics :[ ".to_owned();
                t.append(err.as_str());
                self.notify(t, true)
            },
            Fetched::Subscriptions(Ok(v)) => {
                self.resources.subscriptions.set_all(v);
                self.leave_for(Resource::Subscriptions)
            },
            Fetched::Subscriptions(Err(err)) => {
                let mut t = "Failed to fetch subscriptions :[ ".to_owned();
                t.append(err.as_str());
                self.notify(t, true)
            },
            Fetched::Consumers(Ok(v)) => {
                self.resources.consumers.set_all(v);
                self.leave_for(Resource::Consumers)
            },
            Fetched::Consumers(Err(err)) => {
                let mut t = "Failed to fetch consumers :[ ".to_owned();
                t.append(err.as_str());
                self.notify(t, true)
            },
        }
    }

    /// The next state and effects for each event.
    pub open spec fn step(old: App, event: AppEvent, new: App, e: Seq<Effect>) -> bool {
        match event {
            AppEvent::Input(c) => App::input_post(old, new, c, e),
            AppEvent::Control(c) => if old.masks(c) {
                new == old && e.len() == 0
            } else {
                match c {
                    ControlEvent::Enter => App::enter_post(old, new, e),
                    ControlEvent::CycleSide => App::cycle_post(old, new, e),
                    ControlEvent::Yank => App::yank_post(old, new, e),
                    ControlEvent::Back => App::back_post(old, new, e),
                    ControlEvent::Esc => App::back_post(old, new, e),
                    ControlEvent::BackSpace => App::backspace_post(old, new, e),
                    ControlEvent::ClearInput => {
                        &&& new == (App { resources: new.resources, ..old })
                        &&& new.resources.cleared(old.resources, old.active_resource)
                        &&& e.len() == 0
                    },
                    ControlEvent::Up => App::move_post(old, new, false, e),
                    ControlEvent::Down => App::move_post(old, new, true, e),
                    ControlEvent::Search => App::search_post(old, new, e),
                    ControlEvent::Terminate => new == old && e == seq![Effect::Terminate],
                    ControlEvent::Delete => App::prompt_post(old, new, true, e),
                    ControlEvent::Skip => App::prompt_post(old, new, false, e),
                    ControlEvent::Subscribe => App::subscribe_post(old, new, e),
                    ControlEvent::Accept => App::accept_post(old, new, e),
                    ControlEvent::Refuse => new == (App { confirmation_modal: None, ..old })
                        && e.len() == 0,
                    ControlEvent::Seek => App::seek_dialog_post(old, new, e),
                }
            },
            AppEvent::Command(cmd) => App::command_post(old, new, cmd, e),
            AppEvent::SubscriptionEvent(m) => App::message_post(old, new, m, e),
            AppEvent::LatestVersion(v) => new == (App { latest_lgm_version: Some(v), ..old })
                && e.len() == 0,
            AppEvent::Fetched(f) => App::fetched_post(old, new, f, e),
            AppEvent::CommandFinished { command, error } => App::finished_post(
                old,
                new,
                command,
                error,
                e,
            ),
            AppEvent::ClipboardFinished { error } => App::clipboard_post(old, new, error, e),
        }
    }
}

/// Takes one event: moves `app` as `App::step` says and returns the effects
/// the loop must carry out.
pub fn update(app: &mut App, event: AppEvent) -> (r: Vec<Effect>)
    ensures
        App::step(*old(app), event, *final(app), r@),
        old(app).wf() ==> final(app).wf(),
{
    match event {
        AppEvent::Input(c) => app.on_input(c),
        AppEvent::Control(c) => {
            let masked = (app.input_modal.is_some() || app.resources.is_search_expecting_input(
                &app.active_resource,
            )) && match c {
                ControlEvent::Yank | ControlEvent::Back | ControlEvent::Up | ControlEvent::Down
                | ControlEvent::Delete | ControlEvent::Seek => true,
                _ => false,
            };
            if masked {
                return Vec::new();
            }
            match c {
                ControlEvent::Enter => app.on_enter(),
                ControlEvent::CycleSide => app.on_cycle_side(),
                ControlEvent::Yank => app.on_yank(),
                ControlEvent::Back | ControlEvent::Esc => app.on_back(),
                ControlEvent::BackSpace => app.on_backspace(),
                ControlEvent::ClearInput => {
                    app.resources.clear_search(&app.active_resource);
                    Vec::new()
                },
                ControlEvent::Up => app.on_move(false),
                ControlEvent::Down => app.on_move(true),
                ControlEvent::Search => app.on_search(),
                ControlEvent::Terminate => {
                    let mut r: Vec<Effect> = Vec::new();
                    r.push(Effect::Terminate);
                    r
                },
                ControlEvent::Delete => app.on_prompt(true),
                ControlEvent::Skip => app.on_prompt(false),
                ControlEvent::Subscribe => app.on_subscribe(),
                ControlEvent::Accept => app.on_accept(),
                ControlEvent::Refuse => {
                    app.confirmation_modal = None;
                    Vec::new()
                },
                ControlEvent::Seek => app.on_seek_dialog(),
            }
        },
        AppEvent::Command(cmd) => app.on_command(cmd),
        AppEvent::SubscriptionEvent(m) => app.on_message(m),
        AppEvent::LatestVersion(v) => {
            app.latest_lgm_version = Some(v);
            Vec::new()
        },
        AppEvent::Fetched(f) => app.on_fetched(f),
        AppEvent::CommandFinished { command, error } => app.on_command_finished(command, error),
        AppEvent::ClipboardFinished { error } => app.on_clipboard_finished(error),
    }
}

/// Once no listen session runs, a message that still arrives from the
/// stopped task changes nothing and asks for nothing.
pub proof fn lemma_stray_message_ignored(old: App, m: SubMessage, new: App, e: Seq<Effect>)
    requires
        old.listen_session is None,
        App::step(old, AppEvent::SubscriptionEvent(m), new, e),
    ensures
        new == old,
        e.len() == 0,
{
}

/// While an input dialog is open, the keys bound to Yank, Back, Up, Down,
/// Delete and Seek change nothing and ask for nothing.
pub proof fn lemma_dialog_masks_commands(old: App, c: ControlEvent, new: App, e: Seq<Effect>)
    requires
        old.input_modal is Some,
        c is Yank || c is Back || c is Up || c is Down || c is Delete || c is Seek,
        App::step(old, AppEvent::Control(c), new, e),
    ensures
        new == old,
        e.len() == 0,
        new.confirmation_modal == old.confirmation_modal,
{
}

/// While a numeric input dialog is open, a typed ASCII digit is appended
/// to its input and nothing else changes; a typed ASCII letter leaves the
/// dialog as it is.
pub proof fn lemma_dialog_takes_digits(old: App, c: char, new: App, e: Seq<Effect>)
    requires
        old.input_modal matches Some(m) && m.is_input_numeric,
        App::step(old, AppEvent::Input(c), new, e),
    ensures
        ascii_digit(c) ==> {
            &&& new == (App { input_modal: new.input_modal, ..old })
            &&& new.input_modal matches Some(n) && n.input@ == old.input_modal->0.input@.push(c)
                && n.message == old.input_modal->0.message && n.is_input_numeric
        },
        ascii_letter(c) ==> new.input_modal == old.input_modal && new.confirmation_modal
            == old.confirmation_modal,
        e.len() == 0,
{
}

} // verus!
