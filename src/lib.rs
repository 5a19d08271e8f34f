//! Orchestration core of an image diff service: two fetched payloads are
//! decoded, compared, encoded as a PNG artifact under a fresh unique name, and
//! answered with the artifact's fully-qualified URL. Every failure is
//! classified into one of three caller-facing kinds.

pub mod error;
pub mod imaging;
pub mod artifact;
pub mod pipeline;
