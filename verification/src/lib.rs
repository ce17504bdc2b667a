//! The verified core of a dictation application: its preferences, its shortcuts, the recognisers
//! that run on the machine, the selection that is polished, and how text gets back into the
//! application that was dictated to.
//!
//! What a platform or a service answers comes in as a plain value, and what is to be done goes out
//! as one.

use vstd::prelude::*;

pub mod capsule;
pub mod errors;
pub mod front_app;
pub mod host;
pub mod host_document;
pub mod hotkey_setup;
pub mod hotkeys;
pub mod insertion;
pub mod less_computer;
pub mod local_asr;
pub mod native_session;
pub mod platform;
pub mod preference_record;
pub mod preferences;
pub mod rebinding;
pub mod recording;
pub mod routing;
pub mod salvage;
pub mod selection;
pub mod selection_runtime;
pub mod selection_target;
pub mod simulated_copy;
pub mod style_pack_hotkeys;
pub mod supervision;
pub mod text;
pub mod types;

verus! {

} // verus!
