//! Decision logic of the "save changes" workflow: which changed paths look
//! dangerous to publish, what to show before asking for consent, and in which
//! order the repository is inspected, the user is asked, and history is
//! recorded and published.
//!
//! The library performs no I/O. A caller drives [`sync::step`] in a loop,
//! carrying out each requested [`sync::Action`] and feeding the answer back
//! as a [`sync::Event`].
//!
//! - [`risk`]: the classifier of changed paths.
//! - [`gate`]: what goes with the two prompts, and how their answers count.
//! - [`sync`]: the state machine that orders queries, prompts and mutations.
//! - [`report`]: the texts in which an outcome is told.
//! - [`trace`]: whole runs of the machine against given answers.
//! - [`guarantees`]: what is proved of every run.

pub mod gate;
pub mod guarantees;
pub mod report;
pub mod risk;
pub mod sync;
pub mod trace;
