use std::sync::Arc;

use service_builder::builder::expand_builder;
use service_builder::decl::{FieldDecl, RecordDecl};
use service_builder::error::BuildError;
use service_builder::expansion::Expansion;
use service_builder::model::{BuilderModel, FieldValue};

// Mock traits and implementations

pub trait UserRepository: std::fmt::Debug {
    fn initialize(&self) -> Result<(), String> {
        Ok(())
    }
}

pub trait Cache: std::fmt::Debug {}

#[derive(Debug)]
pub struct MockRepository;

impl UserRepository for MockRepository {}

#[derive(Debug)]
pub struct MockCache {
    pub value: String,
}

impl Cache for MockCache {}

pub trait AsUserRepository {
    fn as_user_repository(&self) -> Option<&dyn UserRepository>;
}

impl AsUserRepository for Arc<dyn UserRepository> {
    fn as_user_repository(&self) -> Option<&dyn UserRepository> {
        Some(self.as_ref())
    }
}

impl<T: UserRepository> AsUserRepository for Arc<T> {
    fn as_user_repository(&self) -> Option<&dyn UserRepository> {
        Some(self.as_ref())
    }
}

/// What the fields of the services under test hold.
#[derive(Clone, Copy, Debug, PartialEq, Eq)]
enum Dependency {
    Text(&'static str),
    Repository,
    Cache(&'static str),
}

/// `struct MockCache { pub value: String }`
fn mock_cache_plan() -> Expansion {
    let decl = RecordDecl::named_struct(
        "MockCache",
        vec![],
        vec![FieldDecl::new("value", "String", vec![])],
    );
    expand_builder(&decl).unwrap()
}

/// `struct UserService { repository: Arc<MockRepository>, cache: Arc<MockCache> }`
fn user_service_plan() -> Expansion {
    let decl = RecordDecl::named_struct(
        "UserService",
        vec![],
        vec![
            FieldDecl::new("repository", "Arc<MockRepository>", vec![]),
            FieldDecl::new("cache", "Arc<MockCache>", vec![]),
        ],
    );
    expand_builder(&decl).unwrap()
}

/// `struct EmptyService {}`
fn empty_service_plan() -> Expansion {
    let decl = RecordDecl::named_struct("EmptyService", vec![], vec![]);
    expand_builder(&decl).unwrap()
}

/// Builds a `MockCache` through the builder that is emitted for it.
fn build_mock_cache(value: &'static str) -> Result<MockCache, BuildError> {
    let plan = mock_cache_plan();
    let fields = BuilderModel::new(&plan).set("value", Dependency::Text(value)).build()?;
    match fields[0] {
        FieldValue::Provided(Dependency::Text(text)) => Ok(MockCache { value: text.to_string() }),
        _ => panic!("the field was set"),
    }
}

#[test]
fn test_repository_builder() {
    let repository = Arc::new(MockRepository);
    assert!(repository.as_user_repository().is_some());
}

#[test]
fn test_cache_builder() {
    let cache = Arc::new(build_mock_cache("test").unwrap());
    assert!(!Arc::as_ptr(&cache).is_null());
    assert_eq!(cache.value, "test");
}

#[test]
fn test_repository_initialization() {
    let repository = Arc::new(MockRepository);
    let result = repository.initialize();
    assert!(result.is_ok());
}

#[test]
fn test_cache_initialization() {
    let cache = Arc::new(build_mock_cache("test").unwrap());
    assert!(!Arc::as_ptr(&cache).is_null());
}

#[test]
fn test_service_builder_success() {
    let cache = Arc::new(build_mock_cache("test").unwrap());
    assert_eq!(cache.value, "test");

    let plan = user_service_plan();
    let service = BuilderModel::new(&plan)
        .set("repository", Dependency::Repository)
        .set("cache", Dependency::Cache("test"))
        .build();
    assert!(service.is_ok());
    assert_eq!(
        service.unwrap(),
        vec![
            FieldValue::Provided(Dependency::Repository),
            FieldValue::Provided(Dependency::Cache("test")),
        ]
    );
}

#[test]
fn test_missing_dependency_error() {
    let plan = user_service_plan();
    let service = BuilderModel::new(&plan).set("cache", Dependency::Cache("test")).build();
    assert!(service.is_err());
    assert_eq!(service, Err(BuildError::MissingDependency("repository".to_string())));
}

#[test]
fn test_empty_service_builder() {
    let plan = empty_service_plan();
    let service = BuilderModel::<Dependency>::new(&plan).build();
    assert!(service.is_ok());
    assert_eq!(service.unwrap(), vec![]);
}

#[test]
fn test_as_user_repository() {
    let repo = Arc::new(MockRepository);
    assert!(repo.as_user_repository().is_some());
}
