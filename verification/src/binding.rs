//! Resolution of binding declarations to concrete resources.

use crate::resources::{is_builtin_transform, lookup, same_name, table_entries, Renderer, BUILTIN_TRANSFORM};
use crate::shader::{Shader, ShaderBindingDeclaration, ShaderBindingType};
use hashbrown::HashMap;
use vstd::prelude::*;

verus! {

/// A resource that can be bound to a slot.
#[derive(Clone, Copy, Debug, PartialEq, Eq, Structural)]
pub enum BindingResource {
    /// The uniform buffer with this handle.
    Buffer(u64),
    /// The view of the texture with this handle.
    TextureView(u64),
    /// The material's one sampler.
    Sampler,
}

/// A bindable resource and the slot to bind it to.
#[derive(Clone, Copy, Debug, PartialEq, Eq, Structural)]
pub struct Binding {
    pub slot: u32,
    pub resource: BindingResource,
}

/// Why a declaration could not be resolved. Each variant carries the name
/// that no resource was supplied for.
#[derive(Clone, Copy, Debug, PartialEq, Eq)]
pub enum BindingError {
    /// A uniform declaration, other than the built-in transform, names no
    /// entry of the uniform table.
    UnresolvedUniformBinding { name: &'static str },
    /// A texture declaration names no entry of the texture table.
    UnresolvedTextureBinding { name: &'static str },
}

/// Whether a resource is at hand for `declaration`.
pub open spec fn resolvable(
    declaration: ShaderBindingDeclaration,
    textures: Map<Seq<char>, u64>,
    uniforms: Map<Seq<char>, u64>,
) -> bool {
    match declaration.binding_type {
        ShaderBindingType::UniformBuffer => is_builtin_transform(declaration.name@)
            || uniforms.contains_key(declaration.name@),
        ShaderBindingType::Texture2D => textures.contains_key(declaration.name@),
        ShaderBindingType::Sampler => true,
    }
}

/// The resource that a resolvable declaration is bound to.
pub open spec fn bound_resource(
    declaration: ShaderBindingDeclaration,
    textures: Map<Seq<char>, u64>,
    uniforms: Map<Seq<char>, u64>,
    mvp_buf: u64,
) -> BindingResource {
    match declaration.binding_type {
        ShaderBindingType::UniformBuffer => if is_builtin_transform(declaration.name@) {
            BindingResource::Buffer(mvp_buf)
        } else {
            BindingResource::Buffer(uniforms[declaration.name@])
        },
        ShaderBindingType::Texture2D => BindingResource::TextureView(textures[declaration.name@]),
        ShaderBindingType::Sampler => BindingResource::Sampler,
    }
}

/// The error that an unresolvable declaration gives rise to.
pub open spec fn unresolved_error(declaration: ShaderBindingDeclaration) -> BindingError {
    match declaration.binding_type {
        ShaderBindingType::Texture2D => BindingError::UnresolvedTextureBinding { name: declaration.name },
        _ => BindingError::UnresolvedUniformBinding { name: declaration.name },
    }
}

/// What resolving one declaration yields.
pub open spec fn resolution(
    declaration: ShaderBindingDeclaration,
    textures: Map<Seq<char>, u64>,
    uniforms: Map<Seq<char>, u64>,
    mvp_buf: u64,
) -> Result<Binding, BindingError> {
    if resolvable(declaration, textures, uniforms) {
        Ok(Binding { slot: declaration.slot, resource: bound_resource(declaration, textures, uniforms, mvp_buf) })
    } else {
        Err(unresolved_error(declaration))
    }
}

/// Resolves one declaration: a uniform buffer named as the built-in transform
/// to the renderer's, any other uniform buffer and any texture by name, a
/// sampler to the material's one sampler.
pub fn resolve_binding(
    renderer: &Renderer,
    textures: &HashMap<&'static str, u64>,
    uniforms: &HashMap<&'static str, u64>,
    declaration: &ShaderBindingDeclaration,
) -> (result: Result<Binding, BindingError>)
    ensures
        result == resolution(*declaration, table_entries(*textures), table_entries(*uniforms), renderer.mvp_buf),
{
    let resource = match declaration.binding_type {
        ShaderBindingType::UniformBuffer => {
            if same_name(declaration.name, BUILTIN_TRANSFORM) {
                BindingResource::Buffer(renderer.mvp_buf)
            } else {
                match lookup(uniforms, declaration.name) {
                    Some(buffer) => BindingResource::Buffer(buffer),
                    None => {
                        return Err(BindingError::UnresolvedUniformBinding { name: declaration.name });
                    },
                }
            }
        },
        ShaderBindingType::Texture2D => {
            match lookup(textures, declaration.name) {
                Some(texture) => BindingResource::TextureView(texture),
                None => {
                    return Err(BindingError::UnresolvedTextureBinding { name: declaration.name });
                },
            }
        },
        ShaderBindingType::Sampler => BindingResource::Sampler,
    };
    Ok(Binding { slot: declaration.slot, resource })
}

/// Whether a resource is at hand for every declaration.
pub open spec fn all_resolvable(
    declarations: Seq<ShaderBindingDeclaration>,
    textures: Map<Seq<char>, u64>,
    uniforms: Map<Seq<char>, u64>,
) -> bool {
    forall|i: int| 0 <= i < declarations.len() ==> resolvable(#[trigger] declarations[i], textures, uniforms)
}

/// Whether the declaration at `k` is the first for which no resource is at
/// hand.
pub open spec fn is_first_unresolved(
    declarations: Seq<ShaderBindingDeclaration>,
    textures: Map<Seq<char>, u64>,
    uniforms: Map<Seq<char>, u64>,
    k: int,
) -> bool {
    &&& 0 <= k < declarations.len()
    &&& !resolvable(declarations[k], textures, uniforms)
    &&& forall|j: int| 0 <= j < k ==> resolvable(#[trigger] declarations[j], textures, uniforms)
}

/// The index of the first declaration for which no resource is at hand, where
/// there is one.
pub open spec fn first_unresolved(
    declarations: Seq<ShaderBindingDeclaration>,
    textures: Map<Seq<char>, u64>,
    uniforms: Map<Seq<char>, u64>,
) -> int {
    choose|k: int| is_first_unresolved(declarations, textures, uniforms, k)
}

/// The binding table of resolvable declarations: one binding per declaration,
/// in declared order, each at its declaration's slot.
pub open spec fn binding_table(
    declarations: Seq<ShaderBindingDeclaration>,
    textures: Map<Seq<char>, u64>,
    uniforms: Map<Seq<char>, u64>,
    mvp_buf: u64,
) -> Seq<Binding> {
    Seq::new(
        declarations.len(),
        |i: int|
            Binding {
                slot: declarations[i].slot,
                resource: bound_resource(declarations[i], textures, uniforms, mvp_buf),
            },
    )
}

/// What resolving a list of declarations yields: the binding table where every
/// declaration is resolvable, else the error of the first that is not.
pub open spec fn resolve_all(
    declarations: Seq<ShaderBindingDeclaration>,
    textures: Map<Seq<char>, u64>,
    uniforms: Map<Seq<char>, u64>,
    mvp_buf: u64,
) -> Result<Seq<Binding>, BindingError> {
    if all_resolvable(declarations, textures, uniforms) {
        Ok(binding_table(declarations, textures, uniforms, mvp_buf))
    } else {
        Err(unresolved_error(declarations[first_unresolved(declarations, textures, uniforms)]))
    }
}

/// The outcome of a resolution with the table taken as a sequence.
pub open spec fn table_view(result: Result<Vec<Binding>, BindingError>) -> Result<Seq<Binding>, BindingError> {
    match result {
        Ok(table) => Ok(table@),
        Err(error) => Err(error),
    }
}

/// There is at most one first unresolved declaration, and it decides the
/// error.
pub proof fn lemma_first_unresolved_decides(
    declarations: Seq<ShaderBindingDeclaration>,
    textures: Map<Seq<char>, u64>,
    uniforms: Map<Seq<char>, u64>,
    mvp_buf: u64,
    k: int,
)
    requires
        is_first_unresolved(declarations, textures, uniforms, k),
    ensures
        first_unresolved(declarations, textures, uniforms) == k,
        resolve_all(declarations, textures, uniforms, mvp_buf) == Err::<Seq<Binding>, BindingError>(
            unresolved_error(declarations[k]),
        ),
{
    let chosen = first_unresolved(declarations, textures, uniforms);
    assert(is_first_unresolved(declarations, textures, uniforms, chosen));
    if chosen < k {
        assert(resolvable(declarations[chosen], textures, uniforms));
    } else if k < chosen {
        assert(resolvable(declarations[k], textures, uniforms));
    }
}

/// Where some declaration is unresolvable, one of them is the first.
pub proof fn lemma_some_unresolved_is_first(
    declarations: Seq<ShaderBindingDeclaration>,
    textures: Map<Seq<char>, u64>,
    uniforms: Map<Seq<char>, u64>,
    k: int,
) -> (first: int)
    requires
        0 <= k < declarations.len(),
        !resolvable(declarations[k], textures, uniforms),
    ensures
        0 <= first <= k,
        is_first_unresolved(declarations, textures, uniforms, first),
    decreases k,
{
    if forall|j: int| 0 <= j < k ==> resolvable(#[trigger] declarations[j], textures, uniforms) {
        k
    } else {
        let j = choose|j: int| 0 <= j < k && !resolvable(#[trigger] declarations[j], textures, uniforms);
        lemma_some_unresolved_is_first(declarations, textures, uniforms, j)
    }
}

/// Resolves the declarations of one list in declared order, and stops at the
/// first for which no resource is at hand.
pub fn resolve_declarations(
    renderer: &Renderer,
    textures: &HashMap<&'static str, u64>,
    uniforms: &HashMap<&'static str, u64>,
    declarations: &Vec<ShaderBindingDeclaration>,
) -> (result: Result<Vec<Binding>, BindingError>)
    ensures
        table_view(result) == resolve_all(
            declarations@,
            table_entries(*textures),
            table_entries(*uniforms),
            renderer.mvp_buf,
        ),
{
    let mut bindings: Vec<Binding> = Vec::new();
    let mut i: usize = 0;
    while i < declarations.len()
        invariant
            i <= declarations.len(),
            bindings@.len() == i,
            forall|j: int|
                0 <= j < i ==> resolvable(
                    #[trigger] declarations@[j],
                    table_entries(*textures),
                    table_entries(*uniforms),
                ),
            forall|j: int|
                0 <= j < i ==> #[trigger] bindings@[j] == (Binding {
                    slot: declarations@[j].slot,
                    resource: bound_resource(
                        declarations@[j],
                        table_entries(*textures),
                        table_entries(*uniforms),
                        renderer.mvp_buf,
                    ),
                }),
        decreases declarations.len() - i,
    {
        match resolve_binding(renderer, textures, uniforms, &declarations[i]) {
            Ok(binding) => {
                bindings.push(binding);
            },
            Err(error) => {
                proof {
                    lemma_first_unresolved_decides(
                        declarations@,
                        table_entries(*textures),
                        table_entries(*uniforms),
                        renderer.mvp_buf,
                        i as int,
                    );
                }
                return Err(error);
            },
        }
        i += 1;
    }
    assert(bindings@ =~= binding_table(
        declarations@,
        table_entries(*textures),
        table_entries(*uniforms),
        renderer.mvp_buf,
    ));
    Ok(bindings)
}

/// Resolving a list that is made of two parts is resolving the first part
/// and then the second: the first error stands, and the tables follow one
/// another.
pub proof fn lemma_resolve_all_concat(
    first: Seq<ShaderBindingDeclaration>,
    second: Seq<ShaderBindingDeclaration>,
    textures: Map<Seq<char>, u64>,
    uniforms: Map<Seq<char>, u64>,
    mvp_buf: u64,
)
    ensures
        resolve_all(first + second, textures, uniforms, mvp_buf) == (match resolve_all(
            first,
            textures,
            uniforms,
            mvp_buf,
        ) {
            Err(error) => Err::<Seq<Binding>, BindingError>(error),
            Ok(head) => match resolve_all(second, textures, uniforms, mvp_buf) {
                Err(error) => Err::<Seq<Binding>, BindingError>(error),
                Ok(tail) => Ok::<Seq<Binding>, BindingError>(head + tail),
            },
        }),
{
    let whole = first + second;
    if !all_resolvable(first, textures, uniforms) {
        let w = choose|i: int| 0 <= i < first.len() && !resolvable(#[trigger] first[i], textures, uniforms);
        let k = lemma_some_unresolved_is_first(first, textures, uniforms, w);
        lemma_first_unresolved_decides(first, textures, uniforms, mvp_buf, k);
        assert(is_first_unresolved(whole, textures, uniforms, k)) by {
            assert(whole[k] == first[k]);
            assert forall|j: int| 0 <= j < k implies resolvable(#[trigger] whole[j], textures, uniforms) by {
                assert(whole[j] == first[j]);
            }
        }
        lemma_first_unresolved_decides(whole, textures, uniforms, mvp_buf, k);
    } else if !all_resolvable(second, textures, uniforms) {
        let w = choose|i: int| 0 <= i < second.len() && !resolvable(#[trigger] second[i], textures, uniforms);
        let k = lemma_some_unresolved_is_first(second, textures, uniforms, w);
        lemma_first_unresolved_decides(second, textures, uniforms, mvp_buf, k);
        let at = first.len() + k;
        assert(is_first_unresolved(whole, textures, uniforms, at)) by {
            assert(whole[at] == second[k]);
            assert forall|j: int| 0 <= j < at implies resolvable(#[trigger] whole[j], textures, uniforms) by {
                if j < first.len() {
                    assert(whole[j] == first[j]);
                } else {
                    assert(whole[j] == second[j - first.len()]);
                }
            }
        }
        lemma_first_unresolved_decides(whole, textures, uniforms, mvp_buf, at);
    } else {
        assert(all_resolvable(whole, textures, uniforms)) by {
            assert forall|j: int| 0 <= j < whole.len() implies resolvable(
                #[trigger] whole[j],
                textures,
                uniforms,
            ) by {
                if j < first.len() {
                    assert(whole[j] == first[j]);
                } else {
                    assert(whole[j] == second[j - first.len()]);
                }
            }
        }
        assert(binding_table(whole, textures, uniforms, mvp_buf) =~= binding_table(
            first,
            textures,
            uniforms,
            mvp_buf,
        ) + binding_table(second, textures, uniforms, mvp_buf));
    }
}

/// Resolves every declaration of a shader pair: those of the vertex shader
/// first, then those of the fragment shader, each list in declared order.
pub fn resolve_bindings(
    renderer: &Renderer,
    textures: &HashMap<&'static str, u64>,
    uniforms: &HashMap<&'static str, u64>,
    vertex_shader: &Shader,
    fragment_shader: &Shader,
) -> (result: Result<Vec<Binding>, BindingError>)
    ensures
        table_view(result) == resolve_all(
            vertex_shader@ + fragment_shader@,
            table_entries(*textures),
            table_entries(*uniforms),
            renderer.mvp_buf,
        ),
{
    proof {
        lemma_resolve_all_concat(
            vertex_shader@,
            fragment_shader@,
            table_entries(*textures),
            table_entries(*uniforms),
            renderer.mvp_buf,
        );
    }
    let mut bindings = match resolve_declarations(renderer, textures, uniforms, &vertex_shader.bindings) {
        Ok(bindings) => bindings,
        Err(error) => {
            return Err(error);
        },
    };
    let mut fragment_bindings = match resolve_declarations(
        renderer,
        textures,
        uniforms,
        &fragment_shader.bindings,
    ) {
        Ok(bindings) => bindings,
        Err(error) => {
            return Err(error);
        },
    };
    bindings.append(&mut fragment_bindings);
    Ok(bindings)
}

/// Where every declared name is at hand, in its table or as the reserved
/// name, resolution succeeds, and the table has one binding for each
/// declaration of the two shaders.
pub proof fn lemma_present_names_resolve(
    vertex: Seq<ShaderBindingDeclaration>,
    fragment: Seq<ShaderBindingDeclaration>,
    textures: Map<Seq<char>, u64>,
    uniforms: Map<Seq<char>, u64>,
    mvp_buf: u64,
)
    requires
        all_resolvable(vertex, textures, uniforms),
        all_resolvable(fragment, textures, uniforms),
    ensures
        resolve_all(vertex + fragment, textures, uniforms, mvp_buf) is Ok,
        resolve_all(vertex + fragment, textures, uniforms, mvp_buf)->Ok_0.len() == vertex.len()
            + fragment.len(),
{
    lemma_resolve_all_concat(vertex, fragment, textures, uniforms, mvp_buf);
}

/// A declaration for which no resource is at hand makes resolution fail,
/// wherever it stands.
pub proof fn lemma_unresolved_fails(
    declarations: Seq<ShaderBindingDeclaration>,
    textures: Map<Seq<char>, u64>,
    uniforms: Map<Seq<char>, u64>,
    mvp_buf: u64,
    k: int,
)
    requires
        0 <= k < declarations.len(),
        !resolvable(declarations[k], textures, uniforms),
    ensures
        resolve_all(declarations, textures, uniforms, mvp_buf) is Err,
{
}

/// A uniform declaration under another name than the reserved one, whose
/// name the uniform table lacks, makes resolution fail with
/// `UnresolvedUniformBinding`, unless a texture declaration before it is
/// unresolved too.
pub proof fn lemma_missing_uniform_fails(
    declarations: Seq<ShaderBindingDeclaration>,
    textures: Map<Seq<char>, u64>,
    uniforms: Map<Seq<char>, u64>,
    mvp_buf: u64,
    k: int,
)
    requires
        0 <= k < declarations.len(),
        declarations[k].binding_type is UniformBuffer,
        !is_builtin_transform(declarations[k].name@),
        !uniforms.contains_key(declarations[k].name@),
        forall|j: int|
            0 <= j < k && (#[trigger] declarations[j]).binding_type is Texture2D ==> textures.contains_key(
                declarations[j].name@,
            ),
    ensures
        resolve_all(declarations, textures, uniforms, mvp_buf) is Err,
        resolve_all(declarations, textures, uniforms, mvp_buf)->Err_0 is UnresolvedUniformBinding,
        !uniforms.contains_key(
            resolve_all(declarations, textures, uniforms, mvp_buf)->Err_0->UnresolvedUniformBinding_name@,
        ),
{
    let first = lemma_some_unresolved_is_first(declarations, textures, uniforms, k);
    lemma_first_unresolved_decides(declarations, textures, uniforms, mvp_buf, first);
}

/// A texture declaration whose name the texture table lacks makes
/// resolution fail with `UnresolvedTextureBinding`, unless a uniform
/// declaration before it is unresolved too.
pub proof fn lemma_missing_texture_fails(
    declarations: Seq<ShaderBindingDeclaration>,
    textures: Map<Seq<char>, u64>,
    uniforms: Map<Seq<char>, u64>,
    mvp_buf: u64,
    k: int,
)
    requires
        0 <= k < declarations.len(),
        declarations[k].binding_type is Texture2D,
        !textures.contains_key(declarations[k].name@),
        forall|j: int|
            0 <= j < k && (#[trigger] declarations[j]).binding_type is UniformBuffer ==> is_builtin_transform(
                declarations[j].name@,
            ) || uniforms.contains_key(declarations[j].name@),
    ensures
        resolve_all(declarations, textures, uniforms, mvp_buf) is Err,
        resolve_all(declarations, textures, uniforms, mvp_buf)->Err_0 is UnresolvedTextureBinding,
        !textures.contains_key(
            resolve_all(declarations, textures, uniforms, mvp_buf)->Err_0->UnresolvedTextureBinding_name@,
        ),
{
    let first = lemma_some_unresolved_is_first(declarations, textures, uniforms, k);
    lemma_first_unresolved_decides(declarations, textures, uniforms, mvp_buf, first);
}

/// A uniform buffer declared under the reserved name is bound to the
/// renderer's built-in transform, whatever the uniform table holds, under
/// that name or any other.
pub proof fn lemma_builtin_transform_takes_precedence(
    declaration: ShaderBindingDeclaration,
    textures: Map<Seq<char>, u64>,
    uniforms: Map<Seq<char>, u64>,
    mvp_buf: u64,
)
    requires
        declaration.binding_type is UniformBuffer,
        is_builtin_transform(declaration.name@),
    ensures
        resolution(declaration, textures, uniforms, mvp_buf) == Ok::<Binding, BindingError>(
            Binding { slot: declaration.slot, resource: BindingResource::Buffer(mvp_buf) },
        ),
{
}

/// Whether resolving `declaration` reads the entry of the texture table
/// under `name`.
pub open spec fn reads_texture(declaration: ShaderBindingDeclaration, name: Seq<char>) -> bool {
    declaration.binding_type is Texture2D && declaration.name@ == name
}

/// Whether resolving `declaration` reads the entry of the uniform table
/// under `name`.
pub open spec fn reads_uniform(declaration: ShaderBindingDeclaration, name: Seq<char>) -> bool {
    declaration.binding_type is UniformBuffer && !is_builtin_transform(name) && declaration.name@ == name
}

/// Entries that no declaration reads change nothing: with tables that hold
/// all the entries of `textures` and `uniforms` and, besides, only entries
/// that no declaration reads, resolution yields what it yields with
/// `textures` and `uniforms`.
pub proof fn lemma_unused_entries_are_ignored(
    declarations: Seq<ShaderBindingDeclaration>,
    textures: Map<Seq<char>, u64>,
    uniforms: Map<Seq<char>, u64>,
    more_textures: Map<Seq<char>, u64>,
    more_uniforms: Map<Seq<char>, u64>,
    mvp_buf: u64,
)
    requires
        textures.submap_of(more_textures),
        uniforms.submap_of(more_uniforms),
        forall|i: int, name: Seq<char>|
            0 <= i < declarations.len() && more_textures.contains_key(name) && !textures.contains_key(name)
                ==> !#[trigger] reads_texture(declarations[i], name),
        forall|i: int, name: Seq<char>|
            0 <= i < declarations.len() && more_uniforms.contains_key(name) && !uniforms.contains_key(name)
                ==> !#[trigger] reads_uniform(declarations[i], name),
    ensures
        resolve_all(declarations, more_textures, more_uniforms, mvp_buf) == resolve_all(
            declarations,
            textures,
            uniforms,
            mvp_buf,
        ),
{
    assert forall|i: int| 0 <= i < declarations.len() implies resolution(
        #[trigger] declarations[i],
        more_textures,
        more_uniforms,
        mvp_buf,
    ) == resolution(declarations[i], textures, uniforms, mvp_buf) by {
        let name = declarations[i].name@;
        assert(more_textures.contains_key(name) && !textures.contains_key(name) ==> !reads_texture(
            declarations[i],
            name,
        ));
        assert(more_uniforms.contains_key(name) && !uniforms.contains_key(name) ==> !reads_uniform(
            declarations[i],
            name,
        ));
    }
    if all_resolvable(declarations, textures, uniforms) {
        assert forall|i: int| 0 <= i < declarations.len() implies resolvable(
            #[trigger] declarations[i],
            more_textures,
            more_uniforms,
        ) by {
            assert(resolution(declarations[i], more_textures, more_uniforms, mvp_buf) == resolution(
                declarations[i],
                textures,
                uniforms,
                mvp_buf,
            ));
        }
        assert forall|i: int| 0 <= i < declarations.len() implies binding_table(
            declarations,
            more_textures,
            more_uniforms,
            mvp_buf,
        )[i] == binding_table(declarations, textures, uniforms, mvp_buf)[i] by {
            assert(resolution(declarations[i], more_textures, more_uniforms, mvp_buf) == resolution(
                declarations[i],
                textures,
                uniforms,
                mvp_buf,
            ));
        }
        assert(binding_table(declarations, more_textures, more_uniforms, mvp_buf) =~= binding_table(
            declarations,
            textures,
            uniforms,
            mvp_buf,
        ));
    } else {
        let w = choose|i: int|
            0 <= i < declarations.len() && !resolvable(#[trigger] declarations[i], textures, uniforms);
        let k = lemma_some_unresolved_is_first(declarations, textures, uniforms, w);
        lemma_first_unresolved_decides(declarations, textures, uniforms, mvp_buf, k);
        assert(is_first_unresolved(declarations, more_textures, more_uniforms, k)) by {
            assert(resolution(declarations[k], more_textures, more_uniforms, mvp_buf) == resolution(
                declarations[k],
                textures,
                uniforms,
                mvp_buf,
            ));
            assert forall|j: int| 0 <= j < k implies resolvable(
                #[trigger] declarations[j],
                more_textures,
                more_uniforms,
            ) by {
                assert(resolution(declarations[j], more_textures, more_uniforms, mvp_buf) == resolution(
                    declarations[j],
                    textures,
                    uniforms,
                    mvp_buf,
                ));
            }
        }
        lemma_first_unresolved_decides(declarations, more_textures, more_uniforms, mvp_buf, k);
    }
}

} // verus!
