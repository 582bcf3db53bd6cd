//! The engine of a desktop Git client: structured diffs of one file, the
//! minimal patch of one selected hunk and where it is applied, and the
//! reduction of a version-control command's exit status and output to one
//! typed outcome. Around these stand the decisions of the higher-level
//! operations (branches, tags, stashes, merges, rebases, Git Flow), each
//! taking what a command printed and saying what the user is told.

pub mod text;
pub mod number;

pub mod diff;
pub mod patch;
pub mod classify;

pub mod ops;
pub mod steps;
pub mod options;
pub mod flow;
pub mod rebase;
pub mod stash;
pub mod repo;
pub mod image;
pub mod system;
pub mod watch;
