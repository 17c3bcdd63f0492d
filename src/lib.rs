// A declarative pipeline runner: steps read data from a source, write it to
// a sink or run a process, passing one shared value along through a cache.
//
// `config` is the step model, `cache` the store that threads payloads from
// step to step, `connector` what each step asks for and how its outcome is
// judged, `dispatch` the state machine that runs the steps in order, and
// `template` the resolution of placeholders in configuration text.

pub mod cache;
pub mod config;
pub mod connector;
pub mod dispatch;
pub mod template;
