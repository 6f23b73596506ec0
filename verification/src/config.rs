//! Configuration of portals and of bindings: kinds, limits, scopes and call whitelists.
use vstd::prelude::*;
use crate::scopes::{parents_view, LexParentScope, ParentModel};

verus! {

/// The kinds of portal.
#[derive(Debug, Clone, Copy, PartialEq, Eq, Structural)]
pub enum PortalKind {
    Mechtron,
    Portal,
}

impl PortalKind {
    pub fn to_string(&self) -> (r: String)
        ensures
            r@ == (match self {
                PortalKind::Mechtron => "Mechtron"@,
                PortalKind::Portal => "Portal"@,
            }),
    {
        match self {
            PortalKind::Mechtron => "Mechtron".to_string(),
            PortalKind::Portal => "Portal".to_string(),
        }
    }
}

/// The limits of a portal.
#[derive(Debug, Clone, Copy, PartialEq, Eq, Structural)]
pub struct PortalConfig {
    pub max_payload_size: u32,
    pub init_timeout: u64,
    pub frame_timeout: u64,
    pub response_timeout: u64,
}

impl PortalConfig {
    /// Payloads up to 128 KiB; 30 seconds to start, 5 per frame, 15 for a response.
    pub fn default() -> (r: Self)
        ensures
            r.max_payload_size == 128 * 1024,
            r.init_timeout == 30,
            r.frame_timeout == 5,
            r.response_timeout == 15,
    {
        Self { max_payload_size: 128 * 1024, init_timeout: 30, frame_timeout: 5, response_timeout: 15 }
    }
}

/// The direction of a wave through a pipeline: directed, or reflected back.
#[derive(Debug, Clone, Copy, PartialEq, Eq, Structural)]
pub enum WaveDirection {
    Direct,
    Reflect,
}

/// A step of a pipeline: the direction a wave enters it in, the direction it leaves in, and
/// the blocks (payload patterns) it passes.
pub struct PipelineStepDef<B> {
    pub entry: WaveDirection,
    pub exit: WaveDirection,
    pub blocks: Vec<B>,
}

impl<B> PipelineStepDef<B> {
    /// A step that enters and leaves directed, with no blocks.
    pub fn direct() -> (r: Self)
        ensures
            r.entry == WaveDirection::Direct,
            r.exit == WaveDirection::Direct,
            r.blocks@.len() == 0,
    {
        Self { entry: WaveDirection::Direct, exit: WaveDirection::Direct, blocks: Vec::new() }
    }

    /// A step that enters and leaves reflected, with no blocks.
    pub fn rtn() -> (r: Self)
        ensures
            r.entry == WaveDirection::Reflect,
            r.exit == WaveDirection::Reflect,
            r.blocks@.len() == 0,
    {
        Self { entry: WaveDirection::Reflect, exit: WaveDirection::Reflect, blocks: Vec::new() }
    }

    /// A step with these directions and no blocks.
    pub fn new(entry: WaveDirection, exit: WaveDirection) -> (r: Self)
        ensures
            r.entry == entry,
            r.exit == exit,
            r.blocks@.len() == 0,
    {
        Self { entry, exit, blocks: Vec::new() }
    }
}

/// A position in a configuration.
pub struct Cursor {}

/// A scope of a configuration: its type and its elements.
pub struct ConfigScope<T, E> {
    pub scope_type: T,
    pub elements: Vec<E>,
}

impl<T, E> ConfigScope<T, E> {
    pub fn new(scope_type: T, elements: Vec<E>) -> (r: Self)
        ensures
            r.scope_type == scope_type,
            r.elements == elements,
    {
        Self { scope_type, elements }
    }
}

/// Which calls are let through: any, none, or those listed.
pub enum Whitelist {
    Any,
    Nothing,
    Enumerated(Vec<CallPattern>),
}

/// A pattern over calls.
#[derive(Debug, Clone, Copy, PartialEq, Eq, Structural)]
pub enum CallPattern {
    Any,
    Call,
}

/// A Bind configuration: its route scopes, each with the child scopes its block holds.
pub struct BindConfig {
    scopes: Vec<LexParentScope>,
}

impl BindConfig {
    pub fn new(scopes: Vec<LexParentScope>) -> (r: Self)
        ensures
            r.scopes_model() == parents_view(scopes@),
    {
        BindConfig { scopes }
    }

    pub closed spec fn scopes_model(&self) -> Seq<ParentModel> {
        parents_view(self.scopes@)
    }

    /// The route scopes of the configuration.
    pub fn route_scopes(&self) -> (r: &Vec<LexParentScope>)
        ensures
            parents_view(r@) == self.scopes_model(),
    {
        &self.scopes
    }
}

/// A configuration document.
pub enum Document {
    BindConfig(BindConfig),
}

} // verus!
