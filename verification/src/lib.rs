//! Persistence and reconciliation core of a teacher/course administration
//! service: the entity shapes, the error taxonomy, the partial-update merge
//! algorithm, and the repository operations, stated and verified over an
//! explicit model of the backing store.

pub mod course_table;
pub mod errors;
pub mod health;
pub mod models;
pub mod register;
pub mod reconcile;
pub mod teacher_table;
