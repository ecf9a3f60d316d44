use pastebot::replies::{MessageReplies, MAX_REFERENCES};

#[test]
fn new_cache_is_empty() {
    let cache = MessageReplies::new();
    assert_eq!(cache.get(1), None);
    let cache = MessageReplies::default();
    assert_eq!(cache.get(7), None);
}

#[test]
fn get_after_insert_finds_reply() {
    let mut cache = MessageReplies::new();
    cache.insert(10, 20);
    assert_eq!(cache.get(10), Some(20));
    assert_eq!(cache.get(11), None);
}

#[test]
fn insert_overwrites_and_keeps_others() {
    let mut cache = MessageReplies::new();
    cache.insert(10, 20);
    cache.insert(11, 21);
    cache.insert(10, 30);
    assert_eq!(cache.get(10), Some(30));
    assert_eq!(cache.get(11), Some(21));
}

#[test]
fn remove_returns_reply_once() {
    let mut cache = MessageReplies::new();
    cache.insert(10, 20);
    cache.insert(11, 21);
    assert_eq!(cache.remove(10), Some(20));
    assert_eq!(cache.remove(10), None);
    assert_eq!(cache.get(10), None);
    assert_eq!(cache.get(11), Some(21));
}

#[test]
fn oldest_reply_is_forgotten_past_the_limit() {
    let mut cache = MessageReplies::new();
    for k in 1..=(MAX_REFERENCES as u64) {
        cache.insert(k, k + 1);
    }
    assert_eq!(cache.get(1), Some(2));
    cache.insert(0, 5);
    assert_eq!(cache.get(1), None);
    assert_eq!(cache.get(2), Some(3));
    assert_eq!(cache.get(0), Some(5));
    assert_eq!(cache.get(MAX_REFERENCES as u64), Some(MAX_REFERENCES as u64 + 1));
}

#[test]
fn reinserting_the_front_id_of_a_full_queue_forgets_it() {
    let mut cache = MessageReplies::new();
    for r in 0..(MAX_REFERENCES as u64) {
        cache.insert(9, r);
    }
    assert_eq!(cache.get(9), Some(MAX_REFERENCES as u64 - 1));
    cache.insert(9, 1);
    assert_eq!(cache.get(9), None);
}
