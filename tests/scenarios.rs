use lgm::admin::topic_from;
use lgm::message::{SelectedPanel, SubMessage};
use lgm::modal::ConfirmedCommand;
use lgm::resources::{Namespace, Subscription, Tenant, Topic};
use lgm::store::Resource;
use lgm::update::{update, App, AppEvent, ControlEvent, Effect, Fetched};

fn ns(name: &str) -> Namespace {
    Namespace { name: name.to_string() }
}

fn sub(name: &str) -> Subscription {
    Subscription {
        name: name.to_string(),
        sub_type: "Exclusive".to_string(),
        backlog_size: 0,
        consumer_count: 0,
    }
}

fn message(body: &str) -> SubMessage {
    SubMessage { body: body.as_bytes().to_vec(), properties: vec![] }
}

fn control(app: &mut App, c: ControlEvent) -> Vec<Effect> {
    update(app, AppEvent::Control(c))
}

fn start_app() -> App {
    App::new("cluster".to_string(), "0.1.0".to_string(), "public".to_string(), vec![ns("default")])
}

/// An app showing the topics of public/default, the first one selected.
fn on_topics() -> App {
    let mut app = start_app();
    let effects = update(
        &mut app,
        AppEvent::Fetched(Fetched::Topics(Ok(vec![
            topic_from("persistent://public/default/t"),
            topic_from("persistent://public/default/u"),
        ]))),
    );
    assert!(effects.is_empty());
    assert!(matches!(app.active_resource, Resource::Topics));
    app
}

/// An app showing subscriptions A, B, C of topic t, with B selected.
fn on_subscriptions_at_b() -> App {
    let mut app = on_topics();
    update(
        &mut app,
        AppEvent::Fetched(Fetched::Subscriptions(Ok(vec![sub("C"), sub("A"), sub("B")]))),
    );
    assert!(matches!(app.active_resource, Resource::Subscriptions));
    assert_eq!(app.resources.subscriptions.cursor, Some(0));
    control(&mut app, ControlEvent::Down);
    assert_eq!(app.resources.selected_subscription_name(), Some("B"));
    app
}

#[test]
fn search_lock_round_trip() {
    let mut app = start_app();
    control(&mut app, ControlEvent::Search);
    for c in "abc".chars() {
        update(&mut app, AppEvent::Input(c));
    }
    let effects = control(&mut app, ControlEvent::Enter);
    assert!(effects.is_empty());
    let s = app.resources.namespaces.search.clone().unwrap();
    assert_eq!(s.value, "abc");
    assert!(!s.expecting_input);
    control(&mut app, ControlEvent::Search);
    let s = app.resources.namespaces.search.clone().unwrap();
    assert_eq!(s.value, "abc");
    assert!(s.expecting_input);
}

#[test]
fn listen_session_scenario() {
    let mut app = on_topics();
    let effects = control(&mut app, ControlEvent::Subscribe);
    assert_eq!(effects.len(), 1);
    let sub_name = match &effects[0] {
        Effect::StartListening { topic_fqn, sub_name } => {
            assert_eq!(topic_fqn, "persistent://public/default/t");
            sub_name.clone()
        }
        other => panic!("unexpected effect {:?}", other),
    };
    assert!(sub_name.starts_with("lgm_subscription_"));
    assert_eq!(sub_name.len(), "lgm_subscription_".len() + 36);
    assert!(matches!(&app.active_resource, Resource::Listening { sub_name: s } if *s == sub_name));
    for body in [r#"{"a":1}"#, r#"{"a":2}"#, r#"{"a":3}"#] {
        let effects = update(&mut app, AppEvent::SubscriptionEvent(message(body)));
        assert!(effects.is_empty());
    }
    assert_eq!(app.resources.listening.messages.len(), 3);
    assert_eq!(app.resources.listening.cursor, Some(0));
    assert_eq!(app.resources.listening.filtered_messages.len(), 3);
}

#[test]
fn cancellation_scenario() {
    let mut app = on_topics();
    control(&mut app, ControlEvent::Subscribe);
    update(&mut app, AppEvent::SubscriptionEvent(message("x")));
    let effects = control(&mut app, ControlEvent::Back);
    let stops = effects.iter().filter(|e| matches!(e, Effect::StopListening)).count();
    assert_eq!(stops, 1);
    assert!(matches!(
        &effects[1],
        Effect::FetchTopics { tenant, namespace } if tenant == "public" && namespace == "default"
    ));
    assert!(app.listen_session.is_none());
    let effects = update(
        &mut app,
        AppEvent::Fetched(Fetched::Topics(Ok(vec![topic_from("persistent://public/default/t")]))),
    );
    assert!(effects.is_empty());
    assert!(matches!(app.active_resource, Resource::Topics));
    let effects = update(&mut app, AppEvent::SubscriptionEvent(message("late")));
    assert!(effects.is_empty());
    assert!(matches!(app.active_resource, Resource::Topics));
    assert_eq!(app.resources.listening.messages.len(), 1);
}

#[test]
fn sticky_selection_scenario() {
    let mut app = on_subscriptions_at_b();
    let command = ConfirmedCommand::SeekSubscription {
        tenant: "public".to_string(),
        namespace: "default".to_string(),
        topic: "t".to_string(),
        sub_name: "B".to_string(),
        hours: 3,
    };
    let effects = update(&mut app, AppEvent::CommandFinished { command, error: None });
    assert_eq!(effects.len(), 2);
    assert!(matches!(effects[0], Effect::DismissAfter { seconds: 2 }));
    assert!(matches!(
        &effects[1],
        Effect::FetchSubscriptions { tenant, namespace, topic }
            if tenant == "public" && namespace == "default" && topic == "t"
    ));
    let info = app.info_to_show.clone().unwrap();
    assert_eq!(info.message, "3 hours seeked");
    assert!(!info.is_error);
    update(&mut app, AppEvent::Fetched(Fetched::Subscriptions(Ok(vec![sub("A"), sub("C")]))));
    assert_eq!(app.resources.subscriptions.cursor, Some(0));
    assert_eq!(app.resources.subscriptions.filtered_subscriptions.len(), 2);
}

#[test]
fn sticky_selection_follows_name() {
    let mut app = on_subscriptions_at_b();
    update(
        &mut app,
        AppEvent::Fetched(Fetched::Subscriptions(Ok(vec![sub("C"), sub("B"), sub("0")]))),
    );
    assert_eq!(app.resources.subscriptions.cursor, Some(1));
    assert_eq!(app.resources.selected_subscription_name(), Some("B"));
    let names: Vec<&str> = app
        .resources
        .subscriptions
        .subscriptions
        .iter()
        .map(|s| s.name.as_str())
        .collect();
    assert_eq!(names, vec!["0", "B", "C"]);
}

#[test]
fn sticky_selection_empty_list() {
    let mut app = on_subscriptions_at_b();
    update(&mut app, AppEvent::Fetched(Fetched::Subscriptions(Ok(vec![]))));
    assert_eq!(app.resources.subscriptions.cursor, None);
}

#[test]
fn modal_gating_scenario() {
    let mut app = on_subscriptions_at_b();
    control(&mut app, ControlEvent::Seek);
    let modal = app.input_modal.clone().unwrap();
    assert_eq!(modal.message, "Seek B subscription for:");
    assert_eq!(modal.input, "24");
    let effects = control(&mut app, ControlEvent::Delete);
    assert!(effects.is_empty());
    assert!(app.confirmation_modal.is_none());
    update(&mut app, AppEvent::Input('5'));
    assert_eq!(app.input_modal.clone().unwrap().input, "245");
    update(&mut app, AppEvent::Input('x'));
    assert_eq!(app.input_modal.clone().unwrap().input, "245");
    update(&mut app, AppEvent::Input('d'));
    control(&mut app, ControlEvent::Delete);
    assert_eq!(app.input_modal.clone().unwrap().input, "245");
    assert!(app.confirmation_modal.is_none());
}

#[test]
fn seek_from_dialog_runs_command() {
    let mut app = on_subscriptions_at_b();
    control(&mut app, ControlEvent::Seek);
    let effects = control(&mut app, ControlEvent::Enter);
    assert!(app.input_modal.is_none());
    assert_eq!(effects.len(), 1);
    match &effects[0] {
        Effect::Run(ConfirmedCommand::SeekSubscription {
            tenant,
            namespace,
            topic,
            sub_name,
            hours,
        }) => {
            assert_eq!(tenant, "public");
            assert_eq!(namespace, "default");
            assert_eq!(topic, "t");
            assert_eq!(sub_name, "B");
            assert_eq!(*hours, 24);
        }
        other => panic!("unexpected effect {:?}", other),
    }
}

#[test]
fn seek_dialog_backspace_and_empty_enter() {
    let mut app = on_subscriptions_at_b();
    control(&mut app, ControlEvent::Seek);
    control(&mut app, ControlEvent::BackSpace);
    let modal = app.input_modal.clone().unwrap();
    assert_eq!(modal.input, "2");
    assert_eq!(modal.input_suffix, " hours");
    control(&mut app, ControlEvent::BackSpace);
    let effects = control(&mut app, ControlEvent::Enter);
    assert!(effects.is_empty());
    assert!(app.input_modal.is_some());
    update(&mut app, AppEvent::Input('1'));
    assert_eq!(app.input_modal.clone().unwrap().input_suffix, " hour");
    control(&mut app, ControlEvent::Esc);
    assert!(app.input_modal.is_none());
}

#[test]
fn delete_confirm_and_run() {
    let mut app = on_subscriptions_at_b();
    control(&mut app, ControlEvent::Delete);
    let modal = app.confirmation_modal.clone().unwrap();
    assert_eq!(modal.message, "Delete 'B' subscription?");
    let effects = control(&mut app, ControlEvent::Accept);
    assert!(app.confirmation_modal.is_none());
    let command = match &effects[..] {
        [Effect::Emit(c)] => c.clone(),
        other => panic!("unexpected effects {:?}", other),
    };
    assert!(matches!(
        &command,
        ConfirmedCommand::DeleteSubscription { tenant, namespace, topic, sub_name }
            if tenant == "public" && namespace == "default" && topic == "t" && sub_name == "B"
    ));
    let effects = update(&mut app, AppEvent::Command(command.clone()));
    assert!(matches!(&effects[..], [Effect::Run(ConfirmedCommand::DeleteSubscription { .. })]));
    let effects = update(
        &mut app,
        AppEvent::CommandFinished { command, error: Some("boom".to_string()) },
    );
    assert!(matches!(&effects[..], [Effect::DismissAfter { seconds: 5 }]));
    let info = app.info_to_show.clone().unwrap();
    assert_eq!(info.message, "Failed to delete subscription :[ boom");
    assert!(info.is_error);
    update(&mut app, AppEvent::Command(ConfirmedCommand::CloseInfoMessage));
    assert!(app.info_to_show.is_none());
}

#[test]
fn skip_prompt_and_refuse() {
    let mut app = on_subscriptions_at_b();
    control(&mut app, ControlEvent::Skip);
    let modal = app.confirmation_modal.clone().unwrap();
    assert_eq!(modal.message, "Skip all 'B' messages?");
    control(&mut app, ControlEvent::Refuse);
    assert!(app.confirmation_modal.is_none());
    control(&mut app, ControlEvent::Skip);
    control(&mut app, ControlEvent::Up);
    assert!(app.confirmation_modal.is_none());
    assert_eq!(app.resources.selected_subscription_name(), Some("A"));
}

#[test]
fn skip_success_refreshes() {
    let mut app = on_subscriptions_at_b();
    let command = ConfirmedCommand::SkipAllMessages {
        tenant: "public".to_string(),
        namespace: "default".to_string(),
        topic: "t".to_string(),
        sub_name: "B".to_string(),
    };
    let effects = update(&mut app, AppEvent::CommandFinished { command, error: None });
    assert_eq!(effects.len(), 2);
    assert!(matches!(&effects[1], Effect::FetchSubscriptions { .. }));
    assert_eq!(app.info_to_show.clone().unwrap().message, "All messages skipped successfully.");
}

#[test]
fn fetch_failure_is_reported() {
    let mut app = start_app();
    let effects =
        update(&mut app, AppEvent::Fetched(Fetched::Tenants(Err("timed out".to_string()))));
    assert!(matches!(&effects[..], [Effect::DismissAfter { seconds: 5 }]));
    let info = app.info_to_show.clone().unwrap();
    assert_eq!(info.message, "Failed to fetch tenants :[ timed out");
    assert!(info.is_error);
    assert!(matches!(app.active_resource, Resource::Namespaces));
}

#[test]
fn navigation_requests_children_and_parents() {
    let mut app = start_app();
    let effects = control(&mut app, ControlEvent::Enter);
    assert!(matches!(
        &effects[..],
        [Effect::FetchTopics { tenant, namespace }] if tenant == "public" && namespace == "default"
    ));
    let effects = control(&mut app, ControlEvent::Back);
    assert!(matches!(&effects[..], [Effect::FetchTenants]));
    update(
        &mut app,
        AppEvent::Fetched(Fetched::Tenants(Ok(vec![
            Tenant { name: "zeta".to_string() },
            Tenant { name: "public".to_string() },
        ]))),
    );
    assert!(matches!(app.active_resource, Resource::Tenants));
    assert_eq!(app.resources.selected_tenant_name(), Some("public"));
    let effects = control(&mut app, ControlEvent::Enter);
    assert!(matches!(
        &effects[..],
        [Effect::FetchNamespaces { tenant }] if tenant == "public"
    ));
    let effects = control(&mut app, ControlEvent::Back);
    assert!(effects.is_empty());
}

#[test]
fn topics_enter_and_consumers() {
    let mut app = on_topics();
    let effects = control(&mut app, ControlEvent::Enter);
    assert!(matches!(
        &effects[..],
        [Effect::FetchSubscriptions { topic, .. }] if topic == "t"
    ));
    let mut app = on_subscriptions_at_b();
    let effects = control(&mut app, ControlEvent::Enter);
    assert!(matches!(
        &effects[..],
        [Effect::FetchConsumers { subscription, .. }] if subscription == "B"
    ));
    let effects = control(&mut app, ControlEvent::Back);
    assert!(matches!(&effects[..], [Effect::FetchTopics { .. }]));
}

#[test]
fn esc_drops_search_that_takes_input() {
    let mut app = start_app();
    control(&mut app, ControlEvent::Search);
    update(&mut app, AppEvent::Input('z'));
    assert_eq!(app.resources.namespaces.filtered_namespaces.len(), 0);
    assert_eq!(app.resources.namespaces.cursor, None);
    let effects = control(&mut app, ControlEvent::Back);
    assert!(effects.is_empty());
    assert!(app.resources.namespaces.search.is_some());
    let effects = control(&mut app, ControlEvent::Esc);
    assert!(effects.is_empty());
    assert!(app.resources.namespaces.search.is_none());
    assert_eq!(app.resources.namespaces.filtered_namespaces.len(), 1);
    assert_eq!(app.resources.namespaces.cursor, Some(0));
}

#[test]
fn search_clear_and_backspace() {
    let mut app = start_app();
    control(&mut app, ControlEvent::Search);
    update(&mut app, AppEvent::Input('d'));
    update(&mut app, AppEvent::Input('x'));
    assert_eq!(app.resources.namespaces.filtered_namespaces.len(), 0);
    control(&mut app, ControlEvent::BackSpace);
    assert_eq!(app.resources.namespaces.search.clone().unwrap().value, "d");
    assert_eq!(app.resources.namespaces.filtered_namespaces.len(), 1);
    control(&mut app, ControlEvent::ClearInput);
    assert_eq!(app.resources.namespaces.search.clone().unwrap().value, "");
    control(&mut app, ControlEvent::Search);
    assert!(app.resources.namespaces.search.is_none());
}

#[test]
fn preview_panel_scrolls() {
    let mut app = on_topics();
    control(&mut app, ControlEvent::Subscribe);
    update(&mut app, AppEvent::SubscriptionEvent(message("one")));
    update(&mut app, AppEvent::SubscriptionEvent(message("two")));
    control(&mut app, ControlEvent::CycleSide);
    assert_eq!(app.resources.listening.panel, SelectedPanel::Right { scroll_offset: 0 });
    control(&mut app, ControlEvent::Up);
    assert_eq!(app.resources.listening.panel, SelectedPanel::Right { scroll_offset: 0 });
    control(&mut app, ControlEvent::Down);
    control(&mut app, ControlEvent::Down);
    assert_eq!(app.resources.listening.panel, SelectedPanel::Right { scroll_offset: 2 });
    assert_eq!(app.resources.listening.cursor, Some(0));
    control(&mut app, ControlEvent::CycleSide);
    control(&mut app, ControlEvent::Down);
    assert_eq!(app.resources.listening.cursor, Some(1));
}

#[test]
fn yank_copies_selected_message() {
    let mut app = on_topics();
    control(&mut app, ControlEvent::Subscribe);
    update(
        &mut app,
        AppEvent::SubscriptionEvent(SubMessage {
            body: br#"{"a":1}"#.to_vec(),
            properties: vec!["k:v".to_string()],
        }),
    );
    let effects = control(&mut app, ControlEvent::Yank);
    assert!(matches!(
        &effects[..],
        [Effect::CopyToClipboard { text }] if text == "k:v\n\n{\n  \"a\": 1\n}"
    ));
    let effects = update(&mut app, AppEvent::ClipboardFinished { error: None });
    assert!(matches!(&effects[..], [Effect::DismissAfter { seconds: 2 }]));
    assert_eq!(app.info_to_show.clone().unwrap().message, "Message copied to clipboard.");
}

#[test]
fn listening_search_filters_messages() {
    let mut app = on_topics();
    control(&mut app, ControlEvent::Subscribe);
    update(
        &mut app,
        AppEvent::SubscriptionEvent(SubMessage {
            body: b"plain".to_vec(),
            properties: vec!["key:value".to_string()],
        }),
    );
    update(&mut app, AppEvent::SubscriptionEvent(message("other")));
    control(&mut app, ControlEvent::Search);
    for c in "key : val".chars() {
        update(&mut app, AppEvent::Input(c));
    }
    assert_eq!(app.resources.listening.filtered_messages.len(), 1);
    assert_eq!(app.resources.listening.cursor, Some(0));
    update(&mut app, AppEvent::SubscriptionEvent(message("no match")));
    assert_eq!(app.resources.listening.messages.len(), 3);
    assert_eq!(app.resources.listening.filtered_messages.len(), 1);
}

#[test]
fn terminate_and_latest_version() {
    let mut app = start_app();
    let effects = control(&mut app, ControlEvent::Terminate);
    assert!(matches!(&effects[..], [Effect::Terminate]));
    update(&mut app, AppEvent::LatestVersion("v9".to_string()));
    assert_eq!(app.latest_lgm_version.as_deref(), Some("v9"));
}

#[test]
fn subscribe_only_on_topics() {
    let mut app = start_app();
    let effects = control(&mut app, ControlEvent::Subscribe);
    assert!(effects.is_empty());
    assert!(matches!(app.active_resource, Resource::Namespaces));
    let topic = Topic { name: "t".to_string(), fqn: "persistent://p/d/t".to_string() };
    let effects = app.start_listening(&topic, "s".to_string());
    assert!(matches!(
        &effects[..],
        [Effect::StartListening { topic_fqn, sub_name }] if topic_fqn == "persistent://p/d/t" && sub_name == "s"
    ));
    let effects = app.start_listening(&topic, "s2".to_string());
    assert!(matches!(&effects[0], Effect::StopListening));
    assert_eq!(app.listen_session.as_deref(), Some("s2"));
}

#[test]
fn seek_with_unusable_hours_is_reported() {
    let mut app = on_subscriptions_at_b();
    control(&mut app, ControlEvent::Seek);
    update(&mut app, AppEvent::Input('٣'));
    assert_eq!(app.input_modal.clone().unwrap().input, "24٣");
    let effects = control(&mut app, ControlEvent::Enter);
    assert!(matches!(&effects[..], [Effect::DismissAfter { seconds: 5 }]));
    assert!(app.input_modal.is_none());
    let info = app.info_to_show.clone().unwrap();
    assert_eq!(info.message, "Invalid number of hours: 24٣");
    assert!(info.is_error);

    control(&mut app, ControlEvent::Seek);
    control(&mut app, ControlEvent::BackSpace);
    control(&mut app, ControlEvent::BackSpace);
    for c in "2562047788016".chars() {
        update(&mut app, AppEvent::Input(c));
    }
    let effects = control(&mut app, ControlEvent::Enter);
    assert!(matches!(&effects[..], [Effect::DismissAfter { seconds: 5 }]));
    assert_eq!(app.info_to_show.clone().unwrap().message, "Invalid number of hours: 2562047788016");
}

#[test]
fn seek_while_listening_uses_session_subscription() {
    let mut app = on_topics();
    control(&mut app, ControlEvent::Subscribe);
    let sub_name = app.listen_session.clone().unwrap();
    control(&mut app, ControlEvent::Seek);
    assert_eq!(app.input_modal.clone().unwrap().message, "Seek subscription for:");
    let effects = control(&mut app, ControlEvent::Enter);
    let command = match &effects[..] {
        [Effect::Run(c)] => c.clone(),
        other => panic!("unexpected effects {:?}", other),
    };
    assert!(matches!(
        &command,
        ConfirmedCommand::SeekSubscription { sub_name: s, hours: 24, topic, .. } if *s == sub_name && topic == "t"
    ));
    let effects = update(&mut app, AppEvent::CommandFinished { command, error: None });
    assert!(matches!(&effects[..], [Effect::DismissAfter { seconds: 2 }]));
    assert_eq!(app.info_to_show.clone().unwrap().message, "24 hours seeked");
    assert!(matches!(app.active_resource, Resource::Listening { .. }));
}

#[test]
fn every_fetch_failure_is_reported() {
    let cases: Vec<(Fetched, &str)> = vec![
        (Fetched::Namespaces(Err("e".to_string())), "Failed to fetch namespaces :[ e"),
        (Fetched::Topics(Err("e".to_string())), "Failed to fetch topics :[ e"),
        (Fetched::Subscriptions(Err("e".to_string())), "Failed to fetch subscriptions :[ e"),
        (Fetched::Consumers(Err("e".to_string())), "Failed to fetch consumers :[ e"),
    ];
    for (fetched, text) in cases {
        let mut app = start_app();
        update(&mut app, AppEvent::Fetched(fetched));
        assert_eq!(app.info_to_show.clone().unwrap().message, text);
        assert!(matches!(app.active_resource, Resource::Namespaces));
    }
}

#[test]
fn fetched_consumers_become_active() {
    let mut app = on_subscriptions_at_b();
    update(
        &mut app,
        AppEvent::Fetched(Fetched::Consumers(Ok(vec![lgm::resources::Consumer {
            name: "c1".to_string(),
            unacked_messages: 0,
            connected_since: "now".to_string(),
        }]))),
    );
    assert!(matches!(app.active_resource, Resource::Consumers));
    assert_eq!(app.resources.consumers.cursor, Some(0));
    let effects = control(&mut app, ControlEvent::Enter);
    assert!(effects.is_empty());
    let effects = control(&mut app, ControlEvent::Back);
    assert!(matches!(&effects[..], [Effect::FetchSubscriptions { topic, .. }] if topic == "t"));
}

#[test]
fn scroll_offset_saturates() {
    let mut app = on_topics();
    control(&mut app, ControlEvent::Subscribe);
    control(&mut app, ControlEvent::CycleSide);
    for _ in 0..(u16::MAX as u32 + 5) {
        control(&mut app, ControlEvent::Down);
    }
    assert_eq!(app.resources.listening.panel, SelectedPanel::Right { scroll_offset: u16::MAX });
}

#[test]
fn leaving_listening_through_a_fetch_stops_the_task() {
    let mut app = on_topics();
    control(&mut app, ControlEvent::Subscribe);
    let effects = update(
        &mut app,
        AppEvent::Fetched(Fetched::Subscriptions(Ok(vec![sub("A")]))),
    );
    assert!(matches!(&effects[..], [Effect::StopListening]));
    assert!(app.listen_session.is_none());
    assert!(matches!(app.active_resource, Resource::Subscriptions));
}
