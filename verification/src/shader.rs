//! Shader stage kinds.
//!
//! The embedding graphics layer compiles one shader per stage; the core only
//! names the stages so that a compilation fault can say which stage failed.

use vstd::prelude::*;

verus! {

/// The stage a shader belongs to.
#[derive(Clone, Copy, Debug, PartialEq, Eq, Structural)]
pub enum ShaderKind {
    Vertex,
    Fragment,
}

impl ShaderKind {
    /// The lower-case name of the stage, as it appears in fault reports.
    pub fn name(&self) -> (r: &'static str)
        ensures
            *self is Vertex ==> r@ == "vertex"@,
            *self is Fragment ==> r@ == "fragment"@,
    {
        match self {
            ShaderKind::Vertex => "vertex",
            ShaderKind::Fragment => "fragment",
        }
    }
}

} // verus!
