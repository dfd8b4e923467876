//! Making producers for a backend.

use vstd::prelude::*;
use crate::media_policy::capability::{BackendKind, Codec};

verus! {

/// Why a producer cannot be made.
#[derive(Debug)]
pub enum FactoryError {
    Unavailable(BackendKind, String),
    InvalidConfig(BackendKind, String),
}

impl FactoryError {
    pub open spec fn message(self) -> Seq<char> {
        match self {
            FactoryError::Unavailable(kind, why) => "backend "@ + kind.label() + " unavailable: "@
                + why@,
            FactoryError::InvalidConfig(kind, why) => "config invalid for backend "@ + kind.label()
                + ": "@ + why@,
        }
    }

    pub fn to_string(&self) -> (r: String)
        ensures
            r@ == self.message(),
    {
        match self {
            FactoryError::Unavailable(kind, why) => {
                let mut r: String = String::from_str("backend ");
                r.append(kind.as_label());
                r.append(" unavailable: ");
                r.append(why.as_str());
                r
            },
            FactoryError::InvalidConfig(kind, why) => {
                let mut r: String = String::from_str("config invalid for backend ");
                r.append(kind.as_label());
                r.append(": ");
                r.append(why.as_str());
                r
            },
        }
    }
}

/// What a producer is made for.
#[derive(Debug, Clone, Copy, PartialEq, Eq, Structural)]
pub struct ProducerConfig {
    pub width: u32,
    pub height: u32,
    pub fps: u32,
    pub initial_bitrate_bps: u32,
    pub codec: Codec,
}

/// The controls of a running producer.
pub trait VideoProducer: Sized {
    /// What being asked for a keyframe has made of the producer `before`. A producer
    /// of which nothing else is known may have become anything.
    open spec fn wants_keyframe(self, before: Self) -> bool {
        true
    }

    /// What being asked for a bitrate has made of the producer `before`.
    open spec fn wants_bitrate(self, before: Self, bps: u32) -> bool {
        true
    }

    /// Asks for a keyframe.
    fn request_idr(&mut self)
        ensures
            final(self).wants_keyframe(*old(self)),
    ;

    /// Asks for another bitrate, in bits per second.
    fn set_target_bitrate(&mut self, bps: u32)
        ensures
            final(self).wants_bitrate(*old(self), bps),
    ;

    /// The name of the producer in logs.
    fn backend_name(&self) -> &'static str;
}

/// Makes producers.
pub trait ProducerFactory {
    type Producer: VideoProducer;

    fn create(&self, kind: BackendKind, cfg: &ProducerConfig) -> Result<
        Self::Producer,
        FactoryError,
    >;
}

} // verus!
