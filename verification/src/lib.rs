//! The lifecycle and callback layer between an application and the Zoom
//! meeting engine: which requests go to the engine, in which order, and which
//! of them must not be made once the engine tears itself down.
//!
//! The engine is a native library with threads of its own. It owns its
//! objects, calls the host back on its threads, and may begin to free what it
//! owns at any time. This crate decides; it does not call. A function that
//! decides on a request of the engine returns it as a value
//! ([`NativeCall`]), and a function that goes on from the engine's answer
//! takes that answer as an argument. Taking something down yields the steps
//! to perform, in their order ([`TeardownStep`]).
//!
//! Three things carry the rest. The [`TeardownCoordinator`] records that the
//! engine has begun its own teardown; from then on no step makes a request
//! of the engine. The [`bridge::CallbackBridge`] holds the host's handlers
//! under tokens, so that the engine is never given an address of the host and
//! a callback for a released handler finds nothing. The [`Instance`] owns the
//! services and is cleaned up once.
use vstd::prelude::*;

/// The table through which the engine reaches the host's handlers.
pub mod bridge;
/// The root that owns the services.
pub mod instance;
/// Allows obtaining a new JWT token.
pub mod jwt_helper;
/// Parse the meeting URL.
pub mod meeting_url;
/// What crosses the boundary to the engine.
pub mod native;
/// This module handles the raw audio and video data received by the SDK.
pub mod rawdata;
/// This module contains all the root services of the SDK.
pub mod services;
/// This module contains the types exported by the library.
pub mod public_types;
/// The record of whether the engine has begun its own teardown.
pub mod teardown;
/// Searching in text.
pub mod text;

pub use public_types::{
    check_status, SdkError, SdkInitParam, SdkLanguageId, SdkRawDataMemoryMode, SdkRawDataOptions,
    SdkResult, ZoomRsError, ZoomSdkResult, LAST_KNOWN_STATUS, UNDEFINED_STATUS,
};
pub use native::{CallbackContext, NativeCall, NativeHandle, TeardownStep};
pub use teardown::{perform_step, Performed, TeardownCoordinator, TeardownReport};
pub use instance::{cleanup_sdk, init_sdk, Instance, InstanceState};
pub use meeting_url::parse;
