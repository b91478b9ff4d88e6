use lgm::admin::{consumer_from, namespace_from, subscription_from, topic_from};
use lgm::config::{admin_base_path, cluster_label, token_form, token_url, Auth};
use lgm::message::{format_property, message_is_kept, render_body, Listening, SubMessage};
use lgm::modal::{parse_hours, seek_hours, InfoToShow, InputModal};
use lgm::tail::{tail_step, TailAction, TailEvent};
use lgm::resources::{
    cursor_down, cursor_up, filter_items, get_new_cursor, position_named, reset_cursor,
    Filterable, Search, Tenant, Tenants,
};
use lgm::store::{selected_topic, Resource, Resources};
use lgm::text::remove_spaces;
use lgm::update::App;

fn tenant(name: &str) -> Tenant {
    Tenant { name: name.to_string() }
}

fn tenants(names: &[&str]) -> Tenants {
    let mut t = Tenants::new();
    t.tenants = names.iter().map(|n| tenant(n)).collect();
    t.filter();
    t
}

fn shown(t: &Tenants) -> Vec<String> {
    t.filtered_tenants.iter().map(|x| x.name.clone()).collect()
}

#[test]
fn cursor_wraps_down_and_up() {
    let n = 3;
    let mut c = Some(0);
    for _ in 0..n {
        c = cursor_down(c, n);
    }
    assert_eq!(c, Some(0));
    for _ in 0..n {
        c = cursor_up(c, n);
    }
    assert_eq!(c, Some(0));
    assert_eq!(cursor_up(Some(0), 3), Some(2));
    assert_eq!(cursor_down(Some(2), 3), Some(0));
    assert_eq!(cursor_down(None, 3), Some(0));
    assert_eq!(cursor_up(None, 0), None);
    assert_eq!(cursor_down(Some(1), 0), None);
    assert_eq!(cursor_up(Some(7), 3), Some(2));
}

#[test]
fn cursor_is_re_derived() {
    let items = [1, 2, 3];
    assert_eq!(get_new_cursor(&items, Some(2)), Some(2));
    assert_eq!(get_new_cursor(&items, Some(3)), Some(0));
    assert_eq!(get_new_cursor(&items, None), Some(0));
    let empty: [u8; 0] = [];
    assert_eq!(get_new_cursor(&empty, Some(0)), None);
    let mut c = Some(5);
    reset_cursor(&items, &mut c);
    assert_eq!(c, Some(0));
}

#[test]
fn filter_keeps_matching_names() {
    let mut t = tenants(&["alpha", "beta", "gamma"]);
    assert_eq!(t.cursor, Some(0));
    t.search = Some(Search { value: "mm".to_string(), expecting_input: true });
    t.filter();
    assert_eq!(shown(&t), vec!["gamma"]);
    assert_eq!(t.cursor, Some(0));
    t.search = Some(Search { value: "zz".to_string(), expecting_input: true });
    t.filter();
    assert!(t.filtered_tenants.is_empty());
    assert_eq!(t.cursor, None);
}

#[test]
fn filter_twice_is_the_same() {
    let mut t = tenants(&["alpha", "beta", "gamma", "delta"]);
    t.cursor = Some(3);
    t.search = Some(Search { value: "ta".to_string(), expecting_input: false });
    t.filter();
    let first = shown(&t);
    let first_cursor = t.cursor;
    t.filter();
    assert_eq!(shown(&t), first);
    assert_eq!(t.cursor, first_cursor);
    assert_eq!(first, vec!["beta", "delta"]);
    assert_eq!(first_cursor, Some(0));
}

#[test]
fn reset_and_init_search() {
    let mut t = tenants(&["a", "b"]);
    t.init_search();
    assert_eq!(t.search.clone().unwrap().value, "");
    t.search = Some(Search { value: "b".to_string(), expecting_input: true });
    t.filter();
    assert_eq!(shown(&t), vec!["b"]);
    t.reset_search();
    assert!(t.search.is_none());
    assert_eq!(shown(&t), vec!["a", "b"]);
}

#[test]
fn set_all_sorts_and_keeps_selection() {
    let mut t = tenants(&["b", "c"]);
    t.cursor = Some(1);
    t.set_all(vec![tenant("d"), tenant("c"), tenant("a")]);
    let all: Vec<&str> = t.tenants.iter().map(|x| x.name.as_str()).collect();
    assert_eq!(all, vec!["a", "c", "d"]);
    assert_eq!(t.cursor, Some(1));
    t.set_all(vec![]);
    assert_eq!(t.cursor, None);
    t.set_all(vec![tenant("x")]);
    assert_eq!(t.cursor, Some(0));
}

#[test]
fn position_by_name() {
    let v = vec![tenant("a"), tenant("b"), tenant("b")];
    assert_eq!(position_named(&v, "b"), Some(1));
    assert_eq!(position_named(&v, "c"), None);
}

#[test]
fn filter_items_without_search_copies_all() {
    let v = vec![tenant("a"), tenant("b")];
    let r = filter_items(&v, &None);
    assert_eq!(r.len(), 2);
    let r = filter_items(&v, &Some(Search { value: "a".to_string(), expecting_input: true }));
    assert_eq!(r.len(), 1);
    assert_eq!(r[0].name, "a");
}

#[test]
fn hours_are_parsed() {
    assert_eq!(parse_hours("24"), Some(24));
    assert_eq!(parse_hours("007"), Some(7));
    assert_eq!(parse_hours(""), None);
    assert_eq!(parse_hours("1a"), None);
    assert_eq!(parse_hours("-1"), None);
    assert_eq!(parse_hours("9223372036854775807"), Some(i64::MAX));
    assert_eq!(parse_hours("9223372036854775808"), None);
    assert_eq!(parse_hours("٣"), None);
}

#[test]
fn seek_hours_bounds() {
    assert_eq!(seek_hours("2562047788015"), Some(2562047788015));
    assert_eq!(seek_hours("2562047788016"), None);
    assert_eq!(seek_hours("x"), None);
    assert_eq!(seek_hours(""), None);
    assert_eq!(seek_hours("0"), Some(0));
    assert_eq!(seek_hours("24"), Some(24));
}

#[test]
fn input_modal_suffix() {
    let mut m = InputModal {
        message: "Seek".to_string(),
        input: String::new(),
        input_suffix: " hours".to_string(),
        is_input_numeric: true,
    };
    m.push_input('1');
    assert_eq!(m.input, "1");
    assert_eq!(m.input_suffix, " hour");
    m.push_input('2');
    assert_eq!(m.input_suffix, " hours");
    m.pop_input();
    assert_eq!(m.input, "1");
    assert_eq!(m.input_suffix, " hour");
    m.pop_input();
    m.pop_input();
    assert_eq!(m.input, "");
    assert_eq!(m.input_suffix, " hours");
}

#[test]
fn info_constructors() {
    assert!(InfoToShow::error("x".to_string()).is_error);
    assert!(!InfoToShow::info("x".to_string()).is_error);
}

#[test]
fn names_from_admin_listings() {
    assert_eq!(namespace_from("public", "public/default").name, "default");
    assert_eq!(namespace_from("public", "other/default").name, "other/default");
    assert_eq!(namespace_from("pub", "public/default").name, "public/default");
    let t = topic_from("persistent://public/default/my-topic");
    assert_eq!(t.name, "my-topic");
    assert_eq!(t.fqn, "persistent://public/default/my-topic");
    assert_eq!(topic_from("plain").name, "plain");
    assert_eq!(topic_from("ends/").name, "");
}

#[test]
fn bodies_are_rendered() {
    let json = SubMessage { body: br#"{"a":1}"#.to_vec(), properties: vec![] };
    assert_eq!(json.body_as_pretty_str(), "{\n  \"a\": 1\n}");
    assert_eq!(json.body_as_str(), "{\"a\":1}");
    let spaced = SubMessage { body: br#"{ "a" : [1, 2] }"#.to_vec(), properties: vec![] };
    assert_eq!(spaced.body_as_str(), "{\"a\":[1,2]}");
    let text = SubMessage { body: b"hello".to_vec(), properties: vec![] };
    assert_eq!(text.body_as_pretty_str(), "hello");
    let bad = SubMessage { body: vec![0xff, 0xfe], properties: vec![] };
    assert_eq!(bad.body_as_str(), "can't decode the body");
    assert_eq!(render_body(Some("given".to_string()), b"x"), "given");
    assert_eq!(render_body(None, b"x"), "x");
}

#[test]
fn message_shown_in_full() {
    let m = SubMessage {
        body: b"hi".to_vec(),
        properties: vec!["k:v".to_string(), "x:y".to_string()],
    };
    assert_eq!(m.as_pretty_str(), "k:v\nx:y\n\nhi");
    let bare = SubMessage { body: b"hi".to_vec(), properties: vec![] };
    assert_eq!(bare.as_pretty_str(), "\n\nhi");
    let copy = m.copied();
    assert_eq!(copy.body, m.body);
    assert_eq!(copy.properties, m.properties);
}

#[test]
fn properties_are_formatted() {
    assert_eq!(format_property("key", "value"), "key:value");
    assert_eq!(format_property("", ""), ":");
}

#[test]
fn messages_match_body_or_properties() {
    let m = SubMessage { body: b"hello world".to_vec(), properties: vec!["k:v".to_string()] };
    assert!(message_is_kept(&m, "lo w"));
    assert!(message_is_kept(&m, "k:v"));
    assert!(!message_is_kept(&m, "zzz"));
    let bad = SubMessage { body: vec![0xff], properties: vec!["k:v".to_string()] };
    assert!(message_is_kept(&bad, "k"));
    assert!(!message_is_kept(&bad, "z"));
}

#[test]
fn listening_filter_resets_or_keeps_cursor() {
    let mut l = Listening::new();
    for body in ["a1", "b2", "a3"] {
        l.push_message(SubMessage { body: body.as_bytes().to_vec(), properties: vec![] });
    }
    assert_eq!(l.cursor, Some(0));
    l.cursor = Some(2);
    l.search = Some(Search { value: "a".to_string(), expecting_input: true });
    l.filter(false);
    assert_eq!(l.filtered_messages.len(), 2);
    assert_eq!(l.cursor, Some(0));
    l.cursor = Some(1);
    l.filter(false);
    assert_eq!(l.cursor, Some(1));
    l.filter(true);
    assert_eq!(l.cursor, Some(0));
    l.reset_search();
    assert_eq!(l.filtered_messages.len(), 3);
    assert_eq!(l.cursor, Some(0));
}

#[test]
fn spaces_are_removed() {
    assert_eq!(remove_spaces(" a b  c "), "abc");
    assert_eq!(remove_spaces(""), "");
}

#[test]
fn resources_selection_and_search_state() {
    let app = App::new("c".to_string(), "v".to_string(), "public".to_string(), vec![]);
    let r: &Resources = &app.resources;
    assert_eq!(r.selected_tenant_name(), Some("public"));
    assert!(r.selected_namespace().is_none());
    assert!(r.selected_namespace_name().is_none());
    assert!(r.selected_topic().is_none());
    assert!(selected_topic(r).is_none());
    assert!(r.selected_subscription().is_none());
    assert!(r.selected_consumer().is_none());
    assert!(r.selected_message().is_none());
    assert!(r.get_active_resource_search(&Resource::Tenants).is_none());
    assert!(!r.is_search_expecting_input(&Resource::Listening { sub_name: "s".to_string() }));
}

#[test]
fn resources_cursor_moves_on_active_only() {
    let mut app = App::new(
        "c".to_string(),
        "v".to_string(),
        "public".to_string(),
        vec![
            lgm::resources::Namespace { name: "n2".to_string() },
            lgm::resources::Namespace { name: "n1".to_string() },
        ],
    );
    let active = app.active_resource.clone();
    assert_eq!(app.resources.selected_namespace_name(), Some("n1"));
    app.resources.cursor_down(&active);
    assert_eq!(app.resources.selected_namespace_name(), Some("n2"));
    app.resources.cursor_down(&active);
    assert_eq!(app.resources.selected_namespace_name(), Some("n1"));
    app.resources.cursor_up(&active);
    assert_eq!(app.resources.selected_namespace_name(), Some("n2"));
    assert_eq!(app.resources.tenants.cursor, Some(0));
    app.resources.init_search(&active);
    app.resources.update_search(&active, '1');
    assert_eq!(app.resources.namespaces.filtered_namespaces.len(), 1);
    app.resources.set_search_expecting(&active, false);
    app.resources.update_search(&active, '2');
    assert_eq!(app.resources.namespaces.search.clone().unwrap().value, "1");
    app.resources.reset_search(&active);
    assert_eq!(app.resources.namespaces.filtered_namespaces.len(), 2);
    app.resources.apply_search(&active);
    assert_eq!(app.resources.namespaces.filtered_namespaces.len(), 2);
}

#[test]
fn config_paths_and_tokens() {
    assert_eq!(admin_base_path("http://localhost:8080"), "http://localhost:8080/admin/v2");
    assert_eq!(token_url("https://issuer"), "https://issuer/oauth/token");
    let given = Auth::Token { token: "abc".to_string() };
    assert_eq!(given.given_token().unwrap().access_token, "abc");
    let oauth = Auth::OAuth {
        issuer_url: "https://issuer".to_string(),
        audience: "aud".to_string(),
        credentials_file_url: "file:///tmp/creds.json".to_string(),
    };
    assert!(oauth.given_token().is_none());
    assert_eq!(
        token_form("id", "se cret&", "urn:a").unwrap(),
        "grant_type=client_credentials&client_id=id&client_secret=se+cret%26&audience=urn%3Aa"
    );
    assert_eq!(cluster_label(&vec!["east".to_string(), "west".to_string()]), "east");
    assert_eq!(cluster_label(&vec![]), "unknown cluster");
}

#[test]
fn statistics_defaults() {
    let s = subscription_from("s".to_string(), None, None, None);
    assert_eq!(s.sub_type, "no_type");
    assert_eq!(s.backlog_size, 0);
    assert_eq!(s.consumer_count, 0);
    let s = subscription_from("s".to_string(), Some("Shared".to_string()), Some(7), Some(2));
    assert_eq!((s.sub_type.as_str(), s.backlog_size, s.consumer_count), ("Shared", 7, 2));
    let c = consumer_from(None, None, None);
    assert_eq!((c.name.as_str(), c.unacked_messages, c.connected_since.as_str()), ("Unknown name", -1, "Unknown"));
    let c = consumer_from(Some("c".to_string()), Some(3), Some("today".to_string()));
    assert_eq!((c.name.as_str(), c.unacked_messages, c.connected_since.as_str()), ("c", 3, "today"));
}

#[test]
fn cursor_at_largest_size() {
    assert_eq!(cursor_up(Some(0), usize::MAX), Some(usize::MAX - 1));
    assert_eq!(cursor_down(Some(usize::MAX - 1), usize::MAX), Some(0));
    assert_eq!(cursor_down(Some(usize::MAX - 2), usize::MAX), Some(usize::MAX - 1));
}

#[test]
fn undecodable_body_kept_by_property() {
    let mut l = Listening::new();
    l.push_message(SubMessage { body: vec![0xff, 0xfe], properties: vec!["key:value".to_string()] });
    l.push_message(SubMessage { body: vec![0xff], properties: vec![] });
    l.push_message(SubMessage { body: b"value here".to_vec(), properties: vec![] });
    l.search = Some(Search { value: "val ue".to_string(), expecting_input: true });
    l.filter(true);
    assert_eq!(l.filtered_messages.len(), 2);
    assert_eq!(l.filtered_messages[0].body, vec![0xff, 0xfe]);
    assert_eq!(l.filtered_messages[1].body, b"value here".to_vec());
}

#[test]
fn tail_decisions() {
    let m = SubMessage { body: b"x".to_vec(), properties: vec!["k:v".to_string()] };
    match tail_step(TailEvent::Message(m)) {
        TailAction::Forward(n) => {
            assert_eq!(n.body, b"x".to_vec());
            assert_eq!(n.properties, vec!["k:v".to_string()]);
        }
        other => panic!("unexpected action {:?}", other),
    }
    assert!(matches!(tail_step(TailEvent::AckFailed), TailAction::Continue));
    assert!(matches!(tail_step(TailEvent::End), TailAction::Close));
    assert!(matches!(tail_step(TailEvent::Failed), TailAction::Close));
    assert!(matches!(tail_step(TailEvent::Cancelled), TailAction::Close));
}

#[test]
fn start_state_is_complete() {
    let app = App::new("c".to_string(), "v".to_string(), "public".to_string(), vec![]);
    let r = &app.resources;
    assert_eq!(r.tenants.filtered_tenants.len(), 1);
    assert!(r.tenants.search.is_none() && r.namespaces.search.is_none());
    assert!(r.namespaces.filtered_namespaces.is_empty());
    assert_eq!(r.namespaces.cursor, None);
    assert!(r.topics.topics.is_empty() && r.topics.cursor.is_none());
    assert!(r.subscriptions.subscriptions.is_empty() && r.consumers.consumers.is_empty());
    assert!(r.listening.messages.is_empty() && r.listening.cursor.is_none());
    assert!(app.info_to_show.is_none() && app.listen_session.is_none());
}

#[test]
fn decimals_are_written() {
    use_decimal(0, "0");
    use_decimal(7, "7");
    use_decimal(1234, "1234");
    use_decimal(-56, "-56");
    use_decimal(i64::MAX, "9223372036854775807");
    use_decimal(i64::MIN, "-9223372036854775808");
}

fn use_decimal(n: i64, expected: &str) {
    assert_eq!(lgm::modal::decimal(n), expected);
}

#[test]
fn character_helpers() {
    assert_eq!(lgm::text::chars_of("añb"), vec!['a', 'ñ', 'b']);
    assert!(lgm::text::str_eq("ab", "ab"));
    assert!(!lgm::text::str_eq("ab", "abc"));
    assert!(!lgm::text::str_eq("ab", "ac"));
    assert_eq!(lgm::admin::rest_after("public/x", "public/"), Some("x".to_string()));
    assert_eq!(lgm::admin::rest_after("pub", "public/"), None);
    assert_eq!(lgm::admin::rest_after("ñx", "ñ"), Some("x".to_string()));
}
