use stream_plays_emerald::admin::bearer_matches;
use stream_plays_emerald::chat::{accepts_chat_event, next_backoff_secs, INITIAL_BACKOFF_SECS};
use stream_plays_emerald::save::{find_latest_save, rotation_victims, MAX_SAVES};

fn names(list: &[&str]) -> Vec<String> {
    list.iter().map(|s| s.to_string()).collect()
}

#[test]
fn test_find_latest_save_empty_dir() {
    assert!(find_latest_save(&Vec::new()).is_none());
}

#[test]
fn test_find_latest_save_returns_newest_alphabetically() {
    let files = names(&[
        "save_20240101_000000.state",
        "save_20240102_000000.state",
        "save_20231231_235959.state",
    ]);
    let latest = find_latest_save(&files).unwrap();
    assert_eq!(files[latest], "save_20240102_000000.state");
}

#[test]
fn test_find_latest_save_ignores_non_state_files() {
    let files = names(&["readme.txt", ".clean_shutdown", "save_20240101_120000.state"]);
    let latest = find_latest_save(&files).unwrap();
    assert_eq!(files[latest], "save_20240101_120000.state");
}

#[test]
fn only_save_names_count() {
    let files = names(&["save_9.txt", "zzz.state", "save.state", "save_.state", "Save_1.state"]);
    assert_eq!(find_latest_save(&files), Some(3));
    assert_eq!(find_latest_save(&names(&["save_x.stat", "state"])), None);
    let files = names(&["save_2.state", "save_10.state"]);
    assert_eq!(find_latest_save(&files), Some(0));
}

fn remaining(files: &[String]) -> usize {
    let victims = rotation_victims(&files.to_vec());
    files.iter().zip(victims.iter()).filter(|(_, v)| !**v).count()
}

#[test]
fn test_rotate_saves_keeps_max() {
    let files: Vec<String> = (0..MAX_SAVES + 5).map(|i| format!("save_20240101_{:06}.state", i * 60)).collect();
    assert_eq!(files.len(), MAX_SAVES + 5);
    let left = remaining(&files);
    assert!(left < MAX_SAVES, "expected fewer than {MAX_SAVES} saves after rotation, got {left}");
}

#[test]
fn test_rotate_saves_deletes_oldest() {
    let files: Vec<String> = (0..MAX_SAVES + 3).map(|i| format!("save_202401_{:02}_000000.state", i + 1)).collect();
    let victims = rotation_victims(&files);
    let gone = |name: &str| victims[files.iter().position(|f| f == name).unwrap()];
    assert!(gone("save_202401_01_000000.state"));
    assert!(gone("save_202401_02_000000.state"));
    assert!(gone("save_202401_03_000000.state"));
    assert!(!gone(&format!("save_202401_{:02}_000000.state", MAX_SAVES + 3)));
}

#[test]
fn test_rotate_saves_noop_when_under_limit() {
    let files: Vec<String> = (0..10).map(|i| format!("save_20240101_{:06}.state", i)).collect();
    assert_eq!(remaining(&files), 10);
}

#[test]
fn rotation_leaves_one_less_than_the_maximum_and_spares_other_files() {
    let mut files: Vec<String> = (0..MAX_SAVES).rev().map(|i| format!("save_{:03}.state", i)).collect();
    files.push("notes.txt".to_string());
    let victims = rotation_victims(&files);
    assert_eq!(victims.iter().filter(|v| **v).count(), 1);
    let gone = files.iter().zip(victims.iter()).find(|(_, v)| **v).unwrap().0;
    assert_eq!(gone, "save_000.state");
    assert!(!victims[MAX_SAVES]);
    assert_eq!(rotation_victims(&files[..MAX_SAVES - 1].to_vec()).iter().filter(|v| **v).count(), 0);
}

#[test]
fn backoff_doubles_up_to_thirty_seconds() {
    let mut b = INITIAL_BACKOFF_SECS;
    let mut seen = Vec::new();
    for _ in 0..7 {
        seen.push(b);
        b = next_backoff_secs(b);
    }
    assert_eq!(seen, vec![1, 2, 4, 8, 16, 30, 30]);
    assert_eq!(next_backoff_secs(15), 30);
    assert_eq!(next_backoff_secs(u64::MAX), 30);
}

#[test]
fn chat_records_after_backfill_window_only() {
    let kind = "place.stream.chat.defs#messageView";
    assert!(accepts_chat_event(1000, kind));
    assert!(!accepts_chat_event(999, kind));
    assert!(!accepts_chat_event(5000, "place.stream.chat.defs#other"));
}

#[test]
fn bearer_token_must_match_exactly() {
    assert!(bearer_matches("Bearer secret", "secret"));
    assert!(!bearer_matches("Bearer wrongtoken", "secret"));
    assert!(!bearer_matches("bearer secret", "secret"));
    assert!(!bearer_matches("Bearer secret ", "secret"));
    assert!(!bearer_matches("Bearer", ""));
    assert!(bearer_matches("Bearer ", ""));
}
