use esticli::actions::Action;
use esticli::app::App;
use esticli::details::{DetailsEvent, DetailsState};
use esticli::input::{map_key_to_action, KeyCode, KeyPress};
use esticli::models::IndexDetails;
use esticli::view_types::Colormap;

fn key(code: KeyCode) -> KeyPress {
    KeyPress { code, ctrl: false }
}

fn ctrl(c: char) -> KeyPress {
    KeyPress { code: KeyCode::Char(c), ctrl: true }
}

fn fresh_app() -> App {
    App::new("http://localhost:9200".to_string(), 5, Colormap::Turbo, 10)
}

#[test]
fn test_normal_mode_key_table() {
    let app = fresh_app();
    assert_eq!(map_key_to_action(&app, key(KeyCode::Char('q'))), Some(Action::Quit));
    assert_eq!(map_key_to_action(&app, key(KeyCode::Char('?'))), Some(Action::ToggleHelp));
    assert_eq!(map_key_to_action(&app, key(KeyCode::Char(' '))), Some(Action::TogglePause));
    assert_eq!(map_key_to_action(&app, key(KeyCode::Char('/'))), Some(Action::EnterFilterMode));
    assert_eq!(map_key_to_action(&app, key(KeyCode::Enter)), Some(Action::ShowDetails));
    assert_eq!(map_key_to_action(&app, key(KeyCode::Char('x'))), Some(Action::ToggleExclude));
    assert_eq!(map_key_to_action(&app, key(KeyCode::Char('X'))), Some(Action::ClearExclusions));
    assert_eq!(map_key_to_action(&app, key(KeyCode::Char('.'))), Some(Action::ToggleSystemIndices));
    assert_eq!(map_key_to_action(&app, key(KeyCode::Up)), Some(Action::SelectUp));
    assert_eq!(map_key_to_action(&app, key(KeyCode::Down)), Some(Action::SelectDown));
    assert_eq!(map_key_to_action(&app, key(KeyCode::Home)), Some(Action::SelectFirst));
    assert_eq!(map_key_to_action(&app, key(KeyCode::End)), Some(Action::SelectLast));
    assert_eq!(map_key_to_action(&app, ctrl('f')), Some(Action::SelectPageDown));
    assert_eq!(map_key_to_action(&app, ctrl('b')), Some(Action::SelectPageUp));
    assert_eq!(map_key_to_action(&app, key(KeyCode::Char('z'))), None);
}

#[test]
fn test_overlay_priority_routing() {
    let mut app = fresh_app();

    // Filter editing intercepts only the explicit clear binding.
    app.filter.active = true;
    assert_eq!(map_key_to_action(&app, ctrl('u')), Some(Action::ClearFilter));
    assert_eq!(map_key_to_action(&app, key(KeyCode::Char('q'))), None);

    // An open detail overlay outranks filter editing.
    app.details.show_popup = true;
    assert_eq!(map_key_to_action(&app, key(KeyCode::Esc)), Some(Action::CloseDetails));
    assert_eq!(map_key_to_action(&app, key(KeyCode::Up)), Some(Action::DetailsScrollUp));
    assert_eq!(map_key_to_action(&app, key(KeyCode::PageDown)), Some(Action::DetailsScrollPageDown));

    // An open help overlay outranks everything.
    app.show_help_popup = true;
    assert_eq!(map_key_to_action(&app, key(KeyCode::Char('q'))), Some(Action::ToggleHelp));
    assert_eq!(map_key_to_action(&app, key(KeyCode::Char('j'))), Some(Action::HelpScrollDown));
    assert_eq!(map_key_to_action(&app, key(KeyCode::Char('x'))), None);
}

fn dummy_details(name: &str) -> IndexDetails {
    IndexDetails {
        name: name.to_string(),
        provided_name: None,
        creation_date: None,
        primary_shards: 1,
        replica_shards: 0,
        is_frozen: false,
        is_partial: false,
        ilm_policy: None,
        ilm_phase: None,
        total_segments: 0,
        shard_allocation: Vec::new(),
        templates: Vec::new(),
        uuid: None,
        health: None,
        status: None,
        doc_count: 0,
        rate_milli: 0,
        size_bytes: 0,
        data_stream: None,
    }
}

#[test]
fn test_details_overlay_lifecycle() {
    let mut d = DetailsState::new();
    assert!(!d.show_popup);

    d.fetch();
    assert!(d.show_popup && d.loading);

    d.poll(DetailsEvent::Empty);
    assert!(d.loading);

    d.poll(DetailsEvent::Ready(Ok(dummy_details("a"))));
    assert!(!d.loading);
    assert!(d.data.is_some());
    assert!(d.error.is_none());

    d.scroll_down();
    d.scroll_page_down(10);
    assert_eq!(d.scroll, 11);
    d.scroll_page_up(5);
    assert_eq!(d.scroll, 6);
    d.scroll_page_up(100);
    assert_eq!(d.scroll, 0);
    d.scroll_up();
    assert_eq!(d.scroll, 0);

    d.close();
    assert!(!d.show_popup && d.data.is_none() && !d.loading);

    // A result that arrives after close finds no consumer and is dropped.
    d.poll(DetailsEvent::Ready(Ok(dummy_details("late"))));
    assert!(d.data.is_none());
    assert!(!d.show_popup);
}

#[test]
fn test_details_error_events() {
    let mut d = DetailsState::new();
    d.fetch();
    d.poll(DetailsEvent::Ready(Err("cannot reach endpoint".to_string())));
    assert!(!d.loading);
    assert_eq!(d.error, Some("cannot reach endpoint".to_string()));

    d.fetch();
    d.poll(DetailsEvent::Disconnected);
    assert_eq!(d.error, Some("Details fetch disconnected".to_string()));
}

#[test]
fn test_colormap_cycle_inverse() {
    let mut c = Colormap::Turbo;
    for _ in 0..10 {
        let n = c.next();
        assert_eq!(n.prev(), c);
        c = n;
    }
    assert_eq!(c, Colormap::Turbo);
}
