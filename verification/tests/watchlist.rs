use nixpkgs_track::cache::Cache;

#[test]
fn new_watchlist_is_empty() {
    let cache = Cache::new();
    assert!(cache.is_empty());
    assert_eq!(cache.len(), 0);
    assert_eq!(cache.list(), Vec::<u64>::new());
    assert!(!cache.contains(5));
}

#[test]
fn adding_twice_keeps_one() {
    let mut cache = Cache::new();
    cache.add(&vec![5]);
    cache.add(&vec![5]);
    assert_eq!(cache.list(), vec![5]);
    assert_eq!(cache.len(), 1);
}

#[test]
fn adding_sorts_and_removes_duplicates() {
    let mut cache = Cache::new();
    cache.add(&vec![3, 1]);
    cache.add(&vec![2]);
    assert_eq!(cache.list(), vec![1, 2, 3]);
}

#[test]
fn adding_duplicates_in_one_call_keeps_one_each() {
    let mut cache = Cache::new();
    cache.add(&vec![7, 7, 3, 7, 3, u64::MAX, 0]);
    assert_eq!(cache.list(), vec![0, 3, 7, u64::MAX]);
    cache.add(&vec![]);
    assert_eq!(cache.list(), vec![0, 3, 7, u64::MAX]);
}

#[test]
fn adding_is_idempotent() {
    let mut once = Cache::from_ids(&vec![10, 4]);
    once.add(&vec![9, 1, 4]);
    let mut twice = Cache::from_ids(&vec![10, 4]);
    twice.add(&vec![9, 1, 4]);
    twice.add(&vec![9, 1, 4]);
    assert_eq!(once.list(), vec![1, 4, 9, 10]);
    assert_eq!(twice.list(), once.list());
}

#[test]
fn stored_list_is_put_in_order_when_loaded() {
    let cache = Cache::from_ids(&vec![9, 2, 9, 5, 2]);
    assert_eq!(cache.list(), vec![2, 5, 9]);
    assert!(cache.contains(5));
    assert!(!cache.contains(3));
    assert_eq!(Cache::from_ids(&vec![]).list(), Vec::<u64>::new());
}

#[test]
fn removing_is_a_set_difference() {
    let mut cache = Cache::from_ids(&vec![1, 2, 3, 4, 5]);
    cache.remove(&vec![4, 2, 9, 2]);
    assert_eq!(cache.list(), vec![1, 3, 5]);
    cache.remove(&vec![]);
    assert_eq!(cache.list(), vec![1, 3, 5]);
    cache.remove(&vec![1, 3, 5]);
    assert!(cache.is_empty());
    cache.remove(&vec![1]);
    assert!(cache.is_empty());
}

#[test]
fn clearing_removes_everything() {
    let mut cache = Cache::from_ids(&vec![1, 2, 3]);
    cache.clear();
    assert!(cache.is_empty());
    cache.add(&vec![8]);
    assert_eq!(cache.list(), vec![8]);
}
