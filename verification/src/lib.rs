//! Lifecycle management for locally spawned, long-running development server
//! processes. Each managed service is named by a caller-assigned logical id and
//! bound to a TCP port. The library holds the decision logic: the registry of
//! last-spawned process ids, the escalating-signal termination protocol, the
//! launch pipeline with its reconstructed child environment, and the scanner
//! that discovers a service's port in a text file. The surrounding process
//! performs the operating-system calls (spawning, signalling, socket
//! introspection) and feeds their results back into these state machines.

pub mod detect;
pub mod envpath;
pub mod launch;
pub mod outcome;
pub mod registry;
pub mod restart;
pub mod stop;
pub mod supervisor;
