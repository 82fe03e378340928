//! A minimal Kanban-style task tracker. Tasks move through a fixed
//! lifecycle (`Todo`, then `Doing`, then `Done`) guarded by validation
//! rules; an in-memory repository owns the collection, assigns ids in
//! insertion order and enforces case-insensitive name uniqueness; a thin
//! service layer validates before it delegates and is the entry point
//! external collaborators use.

pub mod domain;
pub mod names;
pub mod laws;
pub mod repository;
pub mod service;

pub use domain::Status;
pub use domain::Task;
pub use domain::TaskError;
pub use repository::InMemoryTaskRepository;
pub use repository::TaskRepository;
pub use service::TaskService;
