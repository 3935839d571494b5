//! The features and parameters of a sound device, and the values they hold.
//!
//! A device exposes features; each feature exposes parameters; each
//! parameter holds one typed value. The driver lists them through indexed
//! enumeration and moves values as a kind and 32 bits.

pub mod cursor;
pub mod error;
pub mod event;
pub mod feature;
pub mod feature_iterator;
pub mod parameter;
pub mod parameter_iterator;
pub mod sound_core;

pub use self::error::SoundCoreError;
pub use self::event::{SoundCoreEvent, SoundCoreEvents};
pub use self::feature::SoundCoreFeature;
pub use self::feature_iterator::SoundCoreFeatureIterator;
pub use self::parameter::{SoundCoreParamValue, SoundCoreParameter};
pub use self::parameter_iterator::SoundCoreParameterIterator;
pub use self::sound_core::SoundCore;
