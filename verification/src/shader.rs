//! Shader descriptors: the ordered binding declarations of one shader stage
//! and the layout entries derived from them.

use vstd::prelude::*;

verus! {

/// The kind of resource a shader expects at a binding slot.
#[derive(Clone, Copy, Debug, PartialEq, Eq, Structural)]
pub enum ShaderBindingType {
    UniformBuffer,
    Texture2D,
    Sampler,
}

/// The shader stage to which a layout entry is visible.
#[derive(Clone, Copy, Debug, PartialEq, Eq, Structural)]
pub enum ShaderStage {
    Vertex,
    Fragment,
}

/// One resource a shader expects: a name, a kind and a numeric slot.
#[derive(Clone, Copy, Debug, PartialEq, Eq)]
pub struct ShaderBindingDeclaration {
    pub name: &'static str,
    pub binding_type: ShaderBindingType,
    pub slot: u32,
}

/// One entry of a bind group layout: which slot holds which kind of resource,
/// and the stage that sees it.
#[derive(Clone, Copy, Debug, PartialEq, Eq, Structural)]
pub struct LayoutEntry {
    pub slot: u32,
    pub visibility: ShaderStage,
    pub kind: ShaderBindingType,
}

/// The layout entry that a declaration gives rise to in a stage.
pub open spec fn layout_entry(declaration: ShaderBindingDeclaration, stage: ShaderStage) -> LayoutEntry {
    LayoutEntry { slot: declaration.slot, visibility: stage, kind: declaration.binding_type }
}

/// The layout entries of a stage: one per declaration, in declared order.
pub open spec fn stage_layout(declarations: Seq<ShaderBindingDeclaration>, stage: ShaderStage) -> Seq<
    LayoutEntry,
> {
    Seq::new(declarations.len(), |i: int| layout_entry(declarations[i], stage))
}

/// The layout of a shader pair: the vertex stage's entries, then the fragment
/// stage's, each in declared order.
pub open spec fn merged_layout(
    vertex: Seq<ShaderBindingDeclaration>,
    fragment: Seq<ShaderBindingDeclaration>,
) -> Seq<LayoutEntry> {
    stage_layout(vertex, ShaderStage::Vertex) + stage_layout(fragment, ShaderStage::Fragment)
}

/// A shader stage as the binder sees it: its binding declarations, in the
/// order in which the shader declares them.
#[derive(Debug, PartialEq, Eq)]
pub struct Shader {
    pub bindings: Vec<ShaderBindingDeclaration>,
}

impl View for Shader {
    type V = Seq<ShaderBindingDeclaration>;

    open spec fn view(&self) -> Seq<ShaderBindingDeclaration> {
        self.bindings@
    }
}

impl Shader {
    /// A shader with the given declarations.
    pub fn new(bindings: Vec<ShaderBindingDeclaration>) -> (shader: Shader)
        ensures
            shader@ == bindings@,
    {
        Shader { bindings }
    }

    /// The layout entries of this shader for `stage`: slot and kind of each
    /// declaration, in declared order, all visible to `stage`.
    pub fn layout_entries(&self, stage: ShaderStage) -> (entries: Vec<LayoutEntry>)
        ensures
            entries@ == stage_layout(self@, stage),
    {
        let mut entries: Vec<LayoutEntry> = Vec::new();
        let mut i: usize = 0;
        while i < self.bindings.len()
            invariant
                i <= self.bindings.len(),
                entries@ == stage_layout(self@.take(i as int), stage),
            decreases self.bindings.len() - i,
        {
            let declaration = &self.bindings[i];
            entries.push(
                LayoutEntry { slot: declaration.slot, visibility: stage, kind: declaration.binding_type },
            );
            i += 1;
        }
        assert(self@.take(i as int) == self@);
        entries
    }
}

/// The layout entries of a shader pair, merged into one list: those of the
/// vertex shader first, then those of the fragment shader.
pub fn merged_layout_entries(vertex_shader: &Shader, fragment_shader: &Shader) -> (entries: Vec<LayoutEntry>)
    ensures
        entries@ == merged_layout(vertex_shader@, fragment_shader@),
{
    let mut entries = vertex_shader.layout_entries(ShaderStage::Vertex);
    let mut fragment_entries = fragment_shader.layout_entries(ShaderStage::Fragment);
    entries.append(&mut fragment_entries);
    entries
}

} // verus!
