use rustapi::{Container, Injectable};
use std::sync::Arc;

struct MockDatabase {
    connection_string: String,
}

impl Injectable for MockDatabase {}

impl MockDatabase {
    fn new(conn: &str) -> Self {
        Self {
            connection_string: conn.to_string(),
        }
    }
}

struct MockUserService {
    db: Arc<MockDatabase>,
}

impl Injectable for MockUserService {}

impl MockUserService {
    fn new(db: Arc<MockDatabase>) -> Self {
        Self { db }
    }
}

#[test]
fn test_register_and_resolve() {
    let mut container = Container::new();
    let db = Arc::new(MockDatabase::new("postgres://localhost"));

    container.register(db.clone());

    let resolved: Arc<MockDatabase> = container.resolve().unwrap();
    assert_eq!(resolved.connection_string, "postgres://localhost");
}

#[test]
fn test_register_factory() {
    let mut container = Container::new();

    container.register_factory(|| MockDatabase::new("sqlite::memory"));

    let resolved: Arc<MockDatabase> = container.resolve().unwrap();
    assert_eq!(resolved.connection_string, "sqlite::memory");
}

#[test]
fn test_resolve_missing_service() {
    let container = Container::new();
    let result: Option<Arc<MockDatabase>> = container.resolve();
    assert!(result.is_none());
}

#[test]
#[should_panic(expected = "Service")]
fn test_resolve_or_panic() {
    let container = Container::new();
    let _: Arc<MockDatabase> = container.resolve_or_panic();
}

#[test]
fn test_dependency_chain() {
    let mut container = Container::new();

    let db = Arc::new(MockDatabase::new("postgres://localhost"));
    container.register(db.clone());

    let user_service = Arc::new(MockUserService::new(db));
    container.register(user_service);

    let resolved_db: Arc<MockDatabase> = container.resolve().unwrap();
    let resolved_service: Arc<MockUserService> = container.resolve().unwrap();

    assert_eq!(resolved_db.connection_string, "postgres://localhost");
    assert_eq!(
        resolved_service.db.connection_string,
        "postgres://localhost"
    );
}

#[test]
fn test_contains() {
    let mut container = Container::new();
    assert!(!container.contains::<MockDatabase>());

    container.register_factory(|| MockDatabase::new("test"));
    assert!(container.contains::<MockDatabase>());
}

#[test]
fn test_len_and_clear() {
    let mut container = Container::new();
    assert_eq!(container.len(), 0);
    assert!(container.is_empty());

    container.register_factory(|| MockDatabase::new("test"));
    assert_eq!(container.len(), 1);
    assert!(!container.is_empty());

    container.clear();
    assert_eq!(container.len(), 0);
    assert!(container.is_empty());
}

struct Counter {
    made: std::sync::atomic::AtomicUsize,
}

#[test]
fn test_resolve_returns_the_registered_handle() {
    let mut container = Container::new();
    let db = Arc::new(MockDatabase::new("postgres://primary"));
    container.register(db.clone());

    let resolved: Arc<MockDatabase> = container.resolve().unwrap();
    assert!(Arc::ptr_eq(&resolved, &db));
    assert_eq!(resolved.connection_string, "postgres://primary");
}

#[test]
fn test_second_registration_replaces_the_first() {
    let mut container = Container::new();
    let first = Arc::new(MockDatabase::new("first"));
    let second = Arc::new(MockDatabase::new("second"));

    container.register(first.clone());
    container.register(second.clone());

    assert_eq!(container.len(), 1);
    let resolved: Arc<MockDatabase> = container.resolve().unwrap();
    assert!(Arc::ptr_eq(&resolved, &second));
    assert!(!Arc::ptr_eq(&resolved, &first));
    assert_eq!(resolved.connection_string, "second");
}

#[test]
fn test_replacing_keeps_the_other_services() {
    let mut container = Container::new();
    let db = Arc::new(MockDatabase::new("db"));
    container.register(db.clone());
    let users = Arc::new(MockUserService::new(db.clone()));
    container.register(users.clone());
    container.register(Arc::new(MockDatabase::new("replacement")));

    assert_eq!(container.len(), 2);
    let resolved: Arc<MockUserService> = container.resolve().unwrap();
    assert!(Arc::ptr_eq(&resolved, &users));
    let resolved_db: Arc<MockDatabase> = container.resolve().unwrap();
    assert_eq!(resolved_db.connection_string, "replacement");
}

#[test]
fn test_resolve_of_another_type_is_absent() {
    let mut container = Container::new();
    container.register(Arc::new(MockDatabase::new("only")));

    let missing: Option<Arc<MockUserService>> = container.resolve();
    assert!(missing.is_none());
    assert!(!container.contains::<MockUserService>());
    assert!(container.contains::<MockDatabase>());
}

#[test]
fn test_clear_forgets_every_type() {
    let mut container = Container::new();
    let db = Arc::new(MockDatabase::new("db"));
    container.register(db.clone());
    container.register(Arc::new(MockUserService::new(db)));
    assert_eq!(container.len(), 2);

    container.clear();

    assert_eq!(container.len(), 0);
    assert!(container.is_empty());
    assert!(!container.contains::<MockDatabase>());
    assert!(!container.contains::<MockUserService>());
    assert!(container.resolve::<MockDatabase>().is_none());
}

#[test]
fn test_factory_runs_once() {
    let counter = Arc::new(Counter {
        made: std::sync::atomic::AtomicUsize::new(0),
    });
    let seen = counter.clone();
    let mut container = Container::new();

    container.register_factory(move || {
        seen.made.fetch_add(1, std::sync::atomic::Ordering::SeqCst);
        MockDatabase::new("made")
    });

    assert_eq!(counter.made.load(std::sync::atomic::Ordering::SeqCst), 1);
    let _first: Arc<MockDatabase> = container.resolve().unwrap();
    let _second: Arc<MockDatabase> = container.resolve().unwrap();
    assert_eq!(counter.made.load(std::sync::atomic::Ordering::SeqCst), 1);
}

#[test]
fn test_resolve_or_panic_finds_a_registered_service() {
    let mut container = Container::new();
    let db = Arc::new(MockDatabase::new("here"));
    container.register(db.clone());

    let resolved: Arc<MockDatabase> = container.resolve_or_panic();
    assert!(Arc::ptr_eq(&resolved, &db));
}

#[test]
fn test_clone_shares_the_services() {
    let mut container = Container::new();
    let db = Arc::new(MockDatabase::new("shared"));
    container.register(db.clone());

    let mut copy = container.clone();
    let resolved: Arc<MockDatabase> = copy.resolve().unwrap();
    assert!(Arc::ptr_eq(&resolved, &db));

    copy.clear();
    assert!(copy.is_empty());
    assert_eq!(container.len(), 1);
    assert!(container.contains::<MockDatabase>());
}

#[test]
fn test_default_is_empty() {
    let container = Container::default();
    assert_eq!(container.len(), 0);
    assert!(container.is_empty());
}
