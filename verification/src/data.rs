//! Named WebGL data bindings.
//!
//! The embedding graphics layer looks an attribute's location up in the
//! linked program and hands the raw signed result to this module, which
//! validates it: the graphics API reports a missing binding as a negative
//! location.

use crate::error::Error;
use vstd::prelude::*;

verus! {

/// The kind of a WebGL data binding.
#[derive(Clone, Copy, Debug, PartialEq, Eq, Structural)]
pub enum WebGlDataKind {
    Attribute,
    Varying,
}

/// A named, validated WebGL data binding.
pub struct WebGlData {
    id: &'static str,
    location: u32,
    kind: WebGlDataKind,
}

impl WebGlData {
    /// The binding's name in the shader source.
    pub closed spec fn spec_id(&self) -> &'static str {
        self.id
    }

    /// The binding's validated location.
    pub closed spec fn spec_location(&self) -> u32 {
        self.location
    }

    /// The binding's kind.
    pub closed spec fn spec_kind(&self) -> WebGlDataKind {
        self.kind
    }

    /// Validate a raw location as reported by the graphics layer: a
    /// negative location means the named binding was not found.
    pub fn new(id: &'static str, kind: WebGlDataKind, location: i32) -> (r: Result<
        Self,
        Error,
    >)
        ensures
            match r {
                Ok(d) => location >= 0 && d.spec_id() == id && d.spec_location()
                    == location as u32 && d.spec_kind() == kind,
                Err(e) => location < 0 && (e matches Error::NoDataLocation(s) && s@ == id@),
            },
    {
        if location >= 0 {
            Ok(WebGlData { id, location: location as u32, kind })
        } else {
            Err(Error::NoDataLocation(id.to_owned()))
        }
    }

    /// The binding's name in the shader source.
    pub fn id(&self) -> (r: &'static str)
        ensures
            r == self.spec_id(),
    {
        self.id
    }

    /// The binding's validated location.
    pub fn location(&self) -> (r: u32)
        ensures
            r == self.spec_location(),
    {
        self.location
    }

    /// The binding's kind.
    pub fn kind(&self) -> (r: WebGlDataKind)
        ensures
            r == self.spec_kind(),
    {
        self.kind
    }
}

} // verus!
