use hn_tui::resolver::{chunk_bounds, merge_results};
use hn_tui::story::Story;

fn story(id: i64) -> Story {
    Story {
        id,
        title: Some(format!("story {}", id)),
        url: None,
        score: 10,
        by: String::from("author"),
        time: 0,
        descendant: None,
        kids: None,
        kind: String::from("story"),
        text: None,
    }
}

#[test]
fn waves_of_25_by_10_are_3() {
    let waves = chunk_bounds(25, 10);
    assert_eq!(waves, vec![(0, 10), (10, 20), (20, 25)]);
}

#[test]
fn waves_cover_input_in_order() {
    let n = 70;
    let c = 30;
    let waves = chunk_bounds(n, c);
    assert_eq!(waves.len(), (n + c - 1) / c);
    assert_eq!(waves[0].0, 0);
    for i in 0..waves.len() {
        assert!(waves[i].0 < waves[i].1);
        assert!(waves[i].1 - waves[i].0 <= c);
        if i + 1 < waves.len() {
            assert_eq!(waves[i].1, waves[i + 1].0);
            assert_eq!(waves[i].1 - waves[i].0, c);
        }
    }
    assert_eq!(waves[waves.len() - 1].1, n);
}

#[test]
fn waves_of_empty_input() {
    let waves = chunk_bounds(0, 10);
    assert!(waves.is_empty());
}

#[test]
fn wave_exactly_full() {
    let waves = chunk_bounds(30, 10);
    assert_eq!(waves, vec![(0, 10), (10, 20), (20, 30)]);
}

#[test]
fn merge_keeps_submission_order_when_all_succeed() {
    let results = vec![Some(story(1)), Some(story(2)), Some(story(3))];
    let mut out = Vec::new();
    merge_results(results, &mut out);
    let ids: Vec<i64> = out.iter().map(|s| s.id).collect();
    assert_eq!(ids, vec![1, 2, 3]);
}

#[test]
fn merge_drops_failure_and_keeps_relative_order() {
    let results = vec![Some(story(1)), None, Some(story(3)), Some(story(4))];
    let mut out = Vec::new();
    merge_results(results, &mut out);
    let ids: Vec<i64> = out.iter().map(|s| s.id).collect();
    assert_eq!(ids, vec![1, 3, 4]);
}

#[test]
fn merge_appends_to_existing_collection() {
    let mut out = vec![story(9)];
    merge_results(vec![Some(story(10)), None], &mut out);
    let ids: Vec<i64> = out.iter().map(|s| s.id).collect();
    assert_eq!(ids, vec![9, 10]);
}

#[test]
fn merge_of_all_failures_is_empty() {
    let mut out: Vec<Story> = Vec::new();
    merge_results(vec![None, None, None], &mut out);
    assert!(out.is_empty());
}
