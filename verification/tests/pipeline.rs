use libtxc::stream::{input_stream, InputStream, Stream};
use libtxc::TCStr;
use std::sync::{Arc, Mutex};

fn collector<T: Send + 'static>() -> (Arc<Mutex<Vec<T>>>, impl Fn(T) + Sync + Send + 'static) {
    let seen = Arc::new(Mutex::new(Vec::new()));
    let sink = Arc::clone(&seen);
    (seen, move |x: T| sink.lock().unwrap().push(x))
}

#[test]
fn bare_stream_delivers_everything() {
    let (seen, handler) = collector::<u32>();
    let sub = InputStream::<u32>::new().subscribe(handler);
    assert!(sub.deliver(7));
    assert!(sub.deliver(8));
    assert_eq!(*seen.lock().unwrap(), vec![7, 8]);
}

#[test]
fn map_then_filter_delivers_what_the_predicate_approves() {
    let (seen, handler) = collector::<u32>();
    let sub = InputStream::<u32>::new().map(|x| x * 3).filter(|y: &u32| *y % 2 == 0).subscribe(handler);
    let handled = sub.deliver_all(vec![1, 2, 3, 4, 5, 6]);
    assert_eq!(handled, vec![false, true, false, true, false, true]);
    assert_eq!(*seen.lock().unwrap(), vec![6, 12, 18]);
}

#[test]
fn deliveries_keep_their_order() {
    let (seen, handler) = collector::<String>();
    let sub = InputStream::<u32>::new().map(|x| format!("#{}", x)).subscribe(handler);
    let handled = sub.deliver_all(vec![3, 1, 2, 1]);
    assert_eq!(handled, vec![true; 4]);
    assert_eq!(*seen.lock().unwrap(), vec!["#3", "#1", "#2", "#1"]);
    assert!(sub.deliver_all(Vec::new()).is_empty());
}

#[test]
fn filter_map_stops_what_it_maps_to_nothing() {
    let (seen, handler) = collector::<i64>();
    let (after, watch) = collector::<i64>();
    let sub = InputStream::<String>::new()
        .filter_map(|s: String| s.parse::<i64>().ok())
        .inspect(move |n: &i64| watch(*n))
        .map(|n| n + 1)
        .subscribe(handler);
    assert!(sub.deliver("41".to_string()));
    assert!(!sub.deliver("forty-one".to_string()));
    assert!(sub.deliver("-1".to_string()));
    assert_eq!(*after.lock().unwrap(), vec![41, -1]);
    assert_eq!(*seen.lock().unwrap(), vec![42, 0]);
}

#[test]
fn inspect_sees_every_value_and_changes_none() {
    let (before, watch) = collector::<u8>();
    let (seen, handler) = collector::<u8>();
    let sub = InputStream::<u8>::new()
        .inspect(move |x: &u8| watch(*x))
        .filter(|x: &u8| *x > 10)
        .subscribe(handler);
    assert_eq!(sub.deliver_all(vec![5, 50, 11, 10]), vec![false, true, true, false]);
    assert_eq!(*before.lock().unwrap(), vec![5, 50, 11, 10]);
    assert_eq!(*seen.lock().unwrap(), vec![50, 11]);
}

#[test]
fn feed_answers_with_what_leaves_the_chain() {
    let chain = InputStream::<u32>::new().map(|x| x + 1).filter(|y: &u32| *y != 3);
    assert_eq!(chain.feed(1), Some(2));
    assert_eq!(chain.feed(2), None);
    assert_eq!(InputStream::<u8>::new().feed(9), Some(9));
}

#[test]
fn deliveries_reach_the_handler_as_messages() {
    let (seen, handler) = collector::<String>();
    let sub = input_stream()
        .filter(|buf: &TCStr| !buf.is_empty())
        .map(|buf: TCStr| buf.to_string_lossy())
        .subscribe(handler);
    assert!(sub.deliver(b"<connector_version>1.2.3.4</connector_version>\0".to_vec()));
    assert!(!sub.deliver(b"\0".to_vec()));
    assert_eq!(*seen.lock().unwrap(), vec!["<connector_version>1.2.3.4</connector_version>"]);
}

#[test]
fn input_stream_takes_the_message_out_of_each_delivery() {
    let chain = input_stream();
    assert_eq!(chain.feed(b"abc\0def".to_vec()).map(|m| m.into_bytes()), Some(b"abc".to_vec()));
    assert_eq!(chain.feed(b"abc".to_vec()).map(|m| m.into_bytes()), Some(b"abc".to_vec()));
    assert_eq!(chain.feed(Vec::new()).map(|m| m.into_bytes()), Some(Vec::new()));
}
