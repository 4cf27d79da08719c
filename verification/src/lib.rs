//! Verified core of a thin binding to the Java Native Interface invocation API.
//!
//! The library decides everything that does not touch the JVM or the operating
//! system directly: the reader/writer protocol of the spin lock that guards the
//! process-wide dynamic link, the bookkeeping of that link, the steps of loading
//! the JVM shared object and of searching a Java installation for it, the error
//! values those steps produce, and the checks applied to what the JVM hands back
//! from `JNI_CreateJavaVM` and `JNI_GetCreatedJavaVMs`.
#![allow(non_snake_case)]

pub mod agent;
pub mod errors;
pub mod invocation;
pub mod java_home;
pub mod link;
pub mod loader;
pub mod lock;
pub mod lock_protocol;
