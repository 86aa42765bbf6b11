//! Branch derivation for lesson repositories: the decisions that drive `git`
//! when patches or upstream commits are carried onto a new branch.
//!
//! Every operation is a machine: given what has been run so far, it names the
//! next command to run, or the final result. The caller runs the commands.
pub mod command;
pub mod git;
pub mod text;
pub mod model;
