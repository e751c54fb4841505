use hn_tui::app::{App, AppState};
use hn_tui::story::{Story, StoryType};

fn story(id: i64) -> Story {
    Story {
        id,
        title: None,
        url: Some(format!("https://example.com/item/{}", id)),
        score: 1,
        by: String::from("author"),
        time: 0,
        descendant: Some(0),
        kids: None,
        kind: String::from("story"),
        text: None,
    }
}

fn stories(ids: &[i64]) -> Vec<Story> {
    ids.iter().map(|&id| story(id)).collect()
}

#[test]
fn fresh_session_is_loading_and_empty() {
    let app = App::new();
    assert!(matches!(app.state, AppState::Loading));
    assert!(app.stories.is_empty());
    assert!(app.all_story_ids.is_empty());
    assert_eq!(app.loaded_count, 0);
    assert_eq!(app.selected_index, 0);
    assert_eq!(app.scroll_offset, 0);
    assert_eq!(app.batch_size, 30);
    assert!(!app.show_details);
    assert!(matches!(app.story_type, StoryType::Top));
}

#[test]
fn default_session_matches_a_fresh_one() {
    let app: App = Default::default();
    assert!(matches!(app.state, AppState::Loading));
    assert!(app.stories.is_empty());
    assert_eq!(app.batch_size, 30);
    assert!(matches!(app.story_type, StoryType::Top));
}

#[test]
fn short_list_resolves_in_one_batch() {
    // 25 identifiers against a batch of 30: everything in the first batch.
    let mut app = App::new();
    app.begin_load();
    let ids: Vec<i64> = (1..=25).collect();
    let first = app.ids_loaded(ids.clone());
    assert_eq!(first, ids);
    app.first_batch_loaded(stories(&first));
    assert!(matches!(app.state, AppState::Ready));
    assert_eq!(app.stories.len(), 25);
    assert_eq!(app.loaded_count, 25);
    assert!(!app.can_load_more());
}

#[test]
fn long_list_paginates_in_three_steps() {
    // 70 identifiers, batch 30: 30 / 60 / 70, then a no-op.
    let mut app = App::new();
    app.begin_load();
    let ids: Vec<i64> = (1..=70).collect();
    let first = app.ids_loaded(ids.clone());
    assert_eq!(first, (1..=30).collect::<Vec<i64>>());
    app.first_batch_loaded(stories(&first));
    assert_eq!(app.stories.len(), 30);
    assert_eq!(app.loaded_count, 30);
    assert!(app.can_load_more());

    let second = app.begin_load_more().expect("a second batch is due");
    assert!(matches!(app.state, AppState::LoadingMore));
    assert_eq!(second, (31..=60).collect::<Vec<i64>>());
    app.more_loaded(stories(&second));
    assert!(matches!(app.state, AppState::Ready));
    assert_eq!(app.stories.len(), 60);
    assert_eq!(app.loaded_count, 60);
    assert!(app.can_load_more());

    let third = app.begin_load_more().expect("a third batch is due");
    assert_eq!(third, (61..=70).collect::<Vec<i64>>());
    app.more_loaded(stories(&third));
    assert_eq!(app.stories.len(), 70);
    assert_eq!(app.loaded_count, 70);
    assert!(!app.can_load_more());

    let exhausted = app.begin_load_more();
    assert!(exhausted.is_none());
    assert!(matches!(app.state, AppState::Ready));
    assert_eq!(app.stories.len(), 70);
    assert_eq!(app.loaded_count, 70);
}

#[test]
fn resolved_count_advances_even_when_fetches_fail() {
    // Failures inside a batch are dropped: the collection stays shorter
    // than the resolved count, and the next slice is never re-requested.
    let mut app = App::new();
    app.begin_load();
    let ids: Vec<i64> = (1..=40).collect();
    let first = app.ids_loaded(ids);
    assert_eq!(first.len(), 30);
    app.first_batch_loaded(stories(&first[..28]));
    assert_eq!(app.stories.len(), 28);
    assert_eq!(app.loaded_count, 30);
    let second = app.begin_load_more().expect("a second batch is due");
    assert_eq!(second, (31..=40).collect::<Vec<i64>>());
}

#[test]
fn listing_failure_enters_error_and_navigation_halts() {
    let mut app = App::new();
    app.begin_load();
    app.load_failed(String::from("connection refused"));
    assert!(matches!(app.state, AppState::Error(ref m) if m == "connection refused"));
    assert_eq!(app.error_message.as_deref(), Some("connection refused"));

    app.next_story();
    app.prev_story();
    app.page_down();
    app.page_up();
    app.jump_to_start();
    app.jump_to_end();
    app.toggle_details();
    app.next_story_type();
    assert_eq!(app.selected_index, 0);
    assert_eq!(app.scroll_offset, 0);
    assert!(!app.show_details);
    assert!(matches!(app.story_type, StoryType::Top));
    assert!(app.begin_load_more().is_none());
    assert!(matches!(app.state, AppState::Error(_)));

    // Retry re-runs the load for the same category and clears the error.
    app.begin_load();
    assert!(matches!(app.state, AppState::Loading));
    assert!(app.error_message.is_none());
    assert!(matches!(app.story_type, StoryType::Top));
}

#[test]
fn batch_failure_keeps_earlier_batches() {
    let mut app = App::new();
    app.begin_load();
    let ids: Vec<i64> = (1..=40).collect();
    let first = app.ids_loaded(ids);
    app.first_batch_loaded(stories(&first));
    let _ = app.begin_load_more();
    app.load_failed(String::from("timed out"));
    assert!(matches!(app.state, AppState::Error(_)));
    assert_eq!(app.stories.len(), 30);
    assert_eq!(app.loaded_count, 30);
}

#[test]
fn category_switch_discards_old_collection() {
    let mut app = App::new();
    app.begin_load();
    let first = app.ids_loaded(vec![1, 2, 3]);
    app.first_batch_loaded(stories(&first));
    app.next_story();
    assert_eq!(app.selected_index, 1);

    app.next_story_type();
    assert!(matches!(app.story_type, StoryType::New));
    app.begin_load();
    let first = app.ids_loaded(vec![7, 8]);
    assert_eq!(first, vec![7, 8]);
    assert!(app.stories.is_empty());
    assert_eq!(app.loaded_count, 0);
    assert_eq!(app.selected_index, 0);
    assert_eq!(app.scroll_offset, 0);
}

#[test]
fn cursor_clamps_at_both_ends() {
    let mut app = App::new();
    app.begin_load();
    let first = app.ids_loaded(vec![1, 2, 3]);
    app.first_batch_loaded(stories(&first));

    for _ in 0..5 {
        app.next_story();
    }
    assert_eq!(app.selected_index, 2);
    for _ in 0..7 {
        app.prev_story();
    }
    assert_eq!(app.selected_index, 0);
}

#[test]
fn cursor_is_a_no_op_on_empty_collection() {
    let mut app = App::new();
    app.begin_load();
    let first = app.ids_loaded(Vec::new());
    app.first_batch_loaded(stories(&first));
    app.next_story();
    app.page_down();
    app.jump_to_end();
    assert_eq!(app.selected_index, 0);
    assert_eq!(app.scroll_offset, 0);
}

#[test]
fn paging_moves_by_ten() {
    let mut app = App::new();
    app.begin_load();
    let ids: Vec<i64> = (1..=25).collect();
    let first = app.ids_loaded(ids);
    app.first_batch_loaded(stories(&first));

    app.page_down();
    assert_eq!(app.selected_index, 10);
    app.page_down();
    assert_eq!(app.selected_index, 20);
    app.page_down();
    assert_eq!(app.selected_index, 24);
    app.page_up();
    assert_eq!(app.selected_index, 14);
    app.page_up();
    app.page_up();
    assert_eq!(app.selected_index, 0);
}

#[test]
fn scroll_follows_cursor_through_the_window() {
    let mut app = App::new();
    app.begin_load();
    let ids: Vec<i64> = (1..=30).collect();
    let first = app.ids_loaded(ids);
    app.first_batch_loaded(stories(&first));

    // 20 visible rows: moving to index 24 scrolls down to 24 - 20 + 1.
    app.jump_to_end();
    assert_eq!(app.selected_index, 29);
    assert_eq!(app.scroll_offset, 10);
    app.jump_to_start();
    assert_eq!(app.selected_index, 0);
    assert_eq!(app.scroll_offset, 0);
    for _ in 0..20 {
        app.next_story();
    }
    assert_eq!(app.selected_index, 20);
    assert_eq!(app.scroll_offset, 1);
}

#[test]
fn categories_cycle_in_fixed_order() {
    let mut app = App::new();
    let mut labels = Vec::new();
    for _ in 0..6 {
        labels.push(app.story_type_name().to_string());
        app.next_story_type();
    }
    assert_eq!(labels, vec!["Top", "New", "Best", "Show", "Ask", "Top"]);
}

#[test]
fn selected_story_queries_follow_the_cursor() {
    let mut app = App::new();
    app.begin_load();
    let first = app.ids_loaded(vec![1, 2]);
    let mut batch = stories(&first);
    batch[1].url = None;
    app.first_batch_loaded(batch);

    assert_eq!(app.selected_story().map(|s| s.id), Some(1));
    assert!(app.has_selected_story_url());
    assert_eq!(
        app.selected_story_url().map(String::as_str),
        Some("https://example.com/item/1")
    );
    app.next_story();
    assert_eq!(app.selected_story().map(|s| s.id), Some(2));
    assert!(!app.has_selected_story_url());
    assert!(app.selected_story_url().is_none());
}

#[test]
fn details_toggle_flips() {
    let mut app = App::new();
    assert!(!app.show_details);
    app.toggle_details();
    assert!(app.show_details);
    app.toggle_details();
    assert!(!app.show_details);
}

#[test]
fn empty_batch_size_flips_back_to_ready() {
    let mut app2 = App::new();
    app2.begin_load();
    app2.batch_size = 0;
    let first2 = app2.ids_loaded(vec![1, 2, 3]);
    assert!(first2.is_empty());
    app2.first_batch_loaded(Vec::new());
    assert_eq!(app2.loaded_count, 0);
    assert!(app2.can_load_more());
    let next = app2.begin_load_more();
    assert!(next.is_none());
    assert!(matches!(app2.state, AppState::Ready));
}
