//! The registry as the display sees it: lookup, display ordering by
//! creation time, id assignment, and the environment set.

use ant_download::manager::DownloadManager;
use ant_download::state::Environment;

fn start_at(mgr: &mut DownloadManager, address: &str, created_at: u64) -> u64 {
    let task = mgr
        .start_download(
            address.to_string(),
            Environment::default(),
            format!("/downloads/{address}"),
            created_at,
        )
        .expect("start request should be accepted");
    task.id()
}

#[test]
fn ids_are_assigned_in_order_and_unique() {
    let mut mgr = DownloadManager::new();
    let a = start_at(&mut mgr, "one", 10);
    let b = start_at(&mut mgr, "two", 20);
    let c = start_at(&mut mgr, "three", 30);
    assert_eq!((a, b, c), (0, 1, 2));
    assert_eq!(mgr.registry().len(), 3);
}

#[test]
fn lookup_finds_the_right_item() {
    let mut mgr = DownloadManager::new();
    let a = start_at(&mut mgr, "one", 10);
    let b = start_at(&mut mgr, "two", 20);
    let item = mgr.registry().get(b).expect("item must exist");
    assert_eq!(item.address, "two");
    assert_eq!(item.save_path, "/downloads/two");
    assert_eq!(item.created_at, 20);
    let item = mgr.registry().get(a).expect("item must exist");
    assert_eq!(item.address, "one");
    assert!(mgr.registry().get(99).is_none());
}

#[test]
fn display_order_is_newest_first() {
    let mut mgr = DownloadManager::new();
    start_at(&mut mgr, "oldest", 5);
    start_at(&mut mgr, "newest", 9);
    start_at(&mut mgr, "middle", 7);
    let order = mgr.registry().display_order();
    assert_eq!(order, vec![1, 2, 0]);
    let registry = mgr.registry();
    let names: Vec<&str> = order
        .iter()
        .map(|&i| registry.item_at(i).address.as_str())
        .collect();
    assert_eq!(names, vec!["newest", "middle", "oldest"]);
}

#[test]
fn display_order_keeps_ties_stable() {
    let mut mgr = DownloadManager::new();
    start_at(&mut mgr, "first", 5);
    start_at(&mut mgr, "second", 5);
    let order = mgr.registry().display_order();
    assert_eq!(order.len(), 2);
    assert!(order.contains(&0) && order.contains(&1));
}

#[test]
fn environments_form_a_closed_set_with_a_default() {
    assert_eq!(Environment::default(), Environment::Mainnet);
    let all = Environment::all();
    assert_eq!(all, vec![Environment::Mainnet, Environment::Alpha, Environment::Local]);
    assert_eq!(Environment::Mainnet.name(), "mainnet");
    assert_eq!(Environment::Alpha.name(), "alpha");
    assert_eq!(Environment::Local.name(), "local");
}
