//! The material: a shader pair together with the pipeline layout and the
//! bind group that its declarations resolve to.

use crate::binding::{
    all_resolvable, binding_table, resolve_all, resolve_bindings, Binding, BindingError, BindingResource,
};
use crate::resources::{table_entries, Renderer};
use crate::sampler::{default_sampler, SamplerDescriptor};
use crate::shader::{
    layout_entry, merged_layout, merged_layout_entries, LayoutEntry, Shader, ShaderBindingDeclaration,
    ShaderStage,
};
use hashbrown::HashMap;
use std::sync::Arc;
use vstd::prelude::*;

verus! {

/// The description of a pipeline layout with one bind group layout: its
/// entries, in binding order.
#[derive(Debug, PartialEq, Eq)]
pub struct PipelineLayout {
    pub entries: Vec<LayoutEntry>,
}

/// The description of a bind group: one binding per layout entry, in the same
/// order.
#[derive(Debug, PartialEq, Eq)]
pub struct BindGroup {
    pub bindings: Vec<Binding>,
}

/// A material as a mathematical value.
pub ghost struct MaterialView {
    pub vertex_declarations: Seq<ShaderBindingDeclaration>,
    pub fragment_declarations: Seq<ShaderBindingDeclaration>,
    pub pipeline_layout: Seq<LayoutEntry>,
    pub sampler: SamplerDescriptor,
    pub bind_group: Seq<Binding>,
    pub textures: Map<Seq<char>, u64>,
    pub uniforms: Map<Seq<char>, u64>,
}

impl MaterialView {
    /// Every declaration of the shader pair: the vertex shader's, then the
    /// fragment shader's.
    pub open spec fn declarations(self) -> Seq<ShaderBindingDeclaration> {
        self.vertex_declarations + self.fragment_declarations
    }

    /// Whether the bind group is what the declarations resolve to against
    /// the material's tables, with `mvp_buf` as the built-in transform.
    pub open spec fn bound_with(self, mvp_buf: u64) -> bool {
        resolve_all(self.declarations(), self.textures, self.uniforms, mvp_buf) == Ok::<
            Seq<Binding>,
            BindingError,
        >(self.bind_group)
    }

    /// The invariant of a material: the layout is that of its shader pair,
    /// the bind group is what the declarations of the pair resolve to
    /// against the tables that the material keeps, and the sampler is the
    /// default sampler.
    pub open spec fn wf(self) -> bool {
        &&& self.pipeline_layout == merged_layout(self.vertex_declarations, self.fragment_declarations)
        &&& exists|mvp_buf: u64| self.bound_with(mvp_buf)
        &&& self.sampler == default_sampler()
    }
}

/// A shader pair bound to its resources.
#[derive(Debug)]
pub struct Material {
    vertex_shader: Arc<Shader>,
    fragment_shader: Arc<Shader>,
    pipeline_layout: PipelineLayout,
    sampler: SamplerDescriptor,
    bind_group: BindGroup,
    textures: HashMap<&'static str, u64>,
    uniforms: HashMap<&'static str, u64>,
}

impl View for Material {
    type V = MaterialView;

    closed spec fn view(&self) -> MaterialView {
        MaterialView {
            vertex_declarations: self.vertex_shader@,
            fragment_declarations: self.fragment_shader@,
            pipeline_layout: self.pipeline_layout.entries@,
            sampler: self.sampler,
            bind_group: self.bind_group.bindings@,
            textures: table_entries(self.textures),
            uniforms: table_entries(self.uniforms),
        }
    }
}

impl Material {
    #[verifier::type_invariant]
    spec fn inv(self) -> bool {
        self@.wf()
    }

    /// Binds a shader pair to the named resources.
    ///
    /// The layout lists the vertex shader's declarations and then the
    /// fragment shader's, each in declared order; the bind group holds, at
    /// the same positions, the resource of each declaration. Both tables are
    /// kept whole, whether or not a declaration names their entries. Where a
    /// declaration has no resource, the first such declaration decides the
    /// error and no material is made.
    pub fn new(
        renderer: &Renderer,
        textures: HashMap<&'static str, u64>,
        uniforms: HashMap<&'static str, u64>,
        vertex_shader: Arc<Shader>,
        fragment_shader: Arc<Shader>,
    ) -> (result: Result<Material, BindingError>)
        ensures
            result is Ok <==> all_resolvable(
                vertex_shader@ + fragment_shader@,
                table_entries(textures),
                table_entries(uniforms),
            ),
            match result {
                Ok(material) => {
                    &&& material@.wf()
                    &&& material@.vertex_declarations == vertex_shader@
                    &&& material@.fragment_declarations == fragment_shader@
                    &&& material@.textures == table_entries(textures)
                    &&& material@.uniforms == table_entries(uniforms)
                    &&& material@.bound_with(renderer.mvp_buf)
                    &&& material@.bind_group.len() == vertex_shader@.len() + fragment_shader@.len()
                },
                Err(error) => resolve_all(
                    vertex_shader@ + fragment_shader@,
                    table_entries(textures),
                    table_entries(uniforms),
                    renderer.mvp_buf,
                ) == Err::<Seq<Binding>, BindingError>(error),
            },
    {
        let entries = merged_layout_entries(&vertex_shader, &fragment_shader);
        let sampler = SamplerDescriptor::new();
        let bindings = match resolve_bindings(renderer, &textures, &uniforms, &vertex_shader, &fragment_shader) {
            Ok(bindings) => bindings,
            Err(error) => {
                return Err(error);
            },
        };
        proof {
            let view = MaterialView {
                vertex_declarations: vertex_shader@,
                fragment_declarations: fragment_shader@,
                pipeline_layout: entries@,
                sampler,
                bind_group: bindings@,
                textures: table_entries(textures),
                uniforms: table_entries(uniforms),
            };
            assert(view.bound_with(renderer.mvp_buf));
        }
        let material = Material {
            vertex_shader,
            fragment_shader,
            pipeline_layout: PipelineLayout { entries },
            sampler,
            bind_group: BindGroup { bindings },
            textures,
            uniforms,
        };
        Ok(material)
    }

    /// The vertex shader.
    pub fn vertex_shader(&self) -> (shader: &Arc<Shader>)
        ensures
            shader@ == self@.vertex_declarations,
            self@.wf(),
    {
        proof {
            use_type_invariant(self);
        }
        &self.vertex_shader
    }

    /// The fragment shader.
    pub fn fragment_shader(&self) -> (shader: &Arc<Shader>)
        ensures
            shader@ == self@.fragment_declarations,
            self@.wf(),
    {
        proof {
            use_type_invariant(self);
        }
        &self.fragment_shader
    }

    /// The pipeline layout: one entry per declaration of the shader pair.
    pub fn pipeline_layout(&self) -> (layout: &PipelineLayout)
        ensures
            layout.entries@ == self@.pipeline_layout,
            self@.wf(),
    {
        proof {
            use_type_invariant(self);
        }
        &self.pipeline_layout
    }

    /// The bind group: one binding per entry of the pipeline layout.
    pub fn bind_group(&self) -> (group: &BindGroup)
        ensures
            group.bindings@ == self@.bind_group,
            self@.wf(),
    {
        proof {
            use_type_invariant(self);
        }
        &self.bind_group
    }

    /// The sampler that every sampler binding of the bind group stands for.
    pub fn sampler(&self) -> (sampler: &SamplerDescriptor)
        ensures
            *sampler == self@.sampler,
            self@.wf(),
    {
        proof {
            use_type_invariant(self);
        }
        &self.sampler
    }

    /// The texture table that the material was made with, whole.
    pub fn textures(&self) -> (table: &HashMap<&'static str, u64>)
        ensures
            table_entries(*table) == self@.textures,
            self@.wf(),
    {
        proof {
            use_type_invariant(self);
        }
        &self.textures
    }

    /// The uniform table that the material was made with, whole.
    pub fn uniforms(&self) -> (table: &HashMap<&'static str, u64>)
        ensures
            table_entries(*table) == self@.uniforms,
            self@.wf(),
    {
        proof {
            use_type_invariant(self);
        }
        &self.uniforms
    }
}

/// The layout of a shader pair has one entry per declaration: the vertex
/// shader's declarations come first, in declared order and visible to the
/// vertex stage, then the fragment shader's, in declared order and visible
/// to the fragment stage.
pub proof fn lemma_layout_order(
    vertex: Seq<ShaderBindingDeclaration>,
    fragment: Seq<ShaderBindingDeclaration>,
)
    ensures
        merged_layout(vertex, fragment).len() == vertex.len() + fragment.len(),
        forall|i: int|
            0 <= i < vertex.len() ==> #[trigger] merged_layout(vertex, fragment)[i] == layout_entry(
                vertex[i],
                ShaderStage::Vertex,
            ),
        forall|i: int|
            0 <= i < fragment.len() ==> #[trigger] merged_layout(vertex, fragment)[vertex.len() + i]
                == layout_entry(fragment[i], ShaderStage::Fragment),
{
}

/// Two materials of the same shader pair have the same pipeline layout,
/// entry for entry, whatever their tables hold.
pub proof fn lemma_layout_is_stable(a: MaterialView, b: MaterialView)
    requires
        a.wf(),
        b.wf(),
        a.vertex_declarations == b.vertex_declarations,
        a.fragment_declarations == b.fragment_declarations,
    ensures
        a.pipeline_layout == b.pipeline_layout,
{
}

/// Two materials of the same shader pair, made with tables of the same
/// entries and the same built-in transform, have the same bind group.
pub proof fn lemma_bind_group_is_stable(a: MaterialView, b: MaterialView, mvp_buf: u64)
    requires
        a.bound_with(mvp_buf),
        b.bound_with(mvp_buf),
        a.declarations() == b.declarations(),
        a.textures == b.textures,
        a.uniforms == b.uniforms,
    ensures
        a.bind_group == b.bind_group,
{
}

/// In a material the bind group and the pipeline layout agree position by
/// position: as many bindings as entries, each binding at its entry's slot.
pub proof fn lemma_bind_group_matches_layout(material: MaterialView, i: int)
    requires
        material.wf(),
        0 <= i < material.declarations().len(),
    ensures
        material.bind_group.len() == material.pipeline_layout.len(),
        material.bind_group.len() == material.declarations().len(),
        material.bind_group[i].slot == material.pipeline_layout[i].slot,
        material.pipeline_layout[i].kind == material.declarations()[i].binding_type,
{
    let mvp_buf = choose|mvp_buf: u64| material.bound_with(mvp_buf);
    assert(material.bind_group == binding_table(
        material.declarations(),
        material.textures,
        material.uniforms,
        mvp_buf,
    ));
    lemma_layout_order(material.vertex_declarations, material.fragment_declarations);
    if i >= material.vertex_declarations.len() {
        let j = i - material.vertex_declarations.len();
        assert(material.pipeline_layout[material.vertex_declarations.len() + j] == layout_entry(
            material.fragment_declarations[j],
            ShaderStage::Fragment,
        ));
    }
}

/// In a material every sampler declaration is bound to the one sampler of
/// the material: any two of them are bound to the same resource.
pub proof fn lemma_single_sampler(material: MaterialView, i: int, j: int)
    requires
        material.wf(),
        0 <= i < material.declarations().len(),
        0 <= j < material.declarations().len(),
        material.declarations()[i].binding_type is Sampler,
        material.declarations()[j].binding_type is Sampler,
    ensures
        material.bind_group[i].resource == BindingResource::Sampler,
        material.bind_group[i].resource == material.bind_group[j].resource,
{
    let mvp_buf = choose|mvp_buf: u64| material.bound_with(mvp_buf);
    assert(material.bind_group == binding_table(
        material.declarations(),
        material.textures,
        material.uniforms,
        mvp_buf,
    ));
}

} // verus!
