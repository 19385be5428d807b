use hashbrown::HashMap;
use material_binder::binding::{Binding, BindingError, BindingResource};
use material_binder::material::Material;
use material_binder::resources::Renderer;
use material_binder::sampler::SamplerDescriptor;
use material_binder::shader::{LayoutEntry, Shader, ShaderBindingDeclaration, ShaderBindingType, ShaderStage};
use std::sync::Arc;

fn decl(name: &'static str, binding_type: ShaderBindingType, slot: u32) -> ShaderBindingDeclaration {
    ShaderBindingDeclaration { name, binding_type, slot }
}

fn table(entries: &[(&'static str, u64)]) -> HashMap<&'static str, u64> {
    let mut table = HashMap::new();
    for (name, handle) in entries {
        table.insert(*name, *handle);
    }
    table
}

fn vertex_shader() -> Arc<Shader> {
    Arc::new(Shader::new(vec![
        decl("Mvp", ShaderBindingType::UniformBuffer, 0),
        decl("Bones", ShaderBindingType::UniformBuffer, 1),
    ]))
}

fn fragment_shader() -> Arc<Shader> {
    Arc::new(Shader::new(vec![
        decl("Albedo", ShaderBindingType::Texture2D, 2),
        decl("AlbedoSampler", ShaderBindingType::Sampler, 3),
        decl("Normal", ShaderBindingType::Texture2D, 4),
        decl("NormalSampler", ShaderBindingType::Sampler, 5),
        decl("Tint", ShaderBindingType::UniformBuffer, 6),
    ]))
}

fn full_textures() -> HashMap<&'static str, u64> {
    table(&[("Albedo", 10), ("Normal", 11)])
}

fn full_uniforms() -> HashMap<&'static str, u64> {
    table(&[("Bones", 20), ("Tint", 21)])
}

#[test]
fn material_binds_every_declaration() {
    let renderer = Renderer { mvp_buf: 1 };
    let material =
        Material::new(&renderer, full_textures(), full_uniforms(), vertex_shader(), fragment_shader()).unwrap();
    assert_eq!(
        material.bind_group().bindings,
        vec![
            Binding { slot: 0, resource: BindingResource::Buffer(1) },
            Binding { slot: 1, resource: BindingResource::Buffer(20) },
            Binding { slot: 2, resource: BindingResource::TextureView(10) },
            Binding { slot: 3, resource: BindingResource::Sampler },
            Binding { slot: 4, resource: BindingResource::TextureView(11) },
            Binding { slot: 5, resource: BindingResource::Sampler },
            Binding { slot: 6, resource: BindingResource::Buffer(21) },
        ]
    );
}

#[test]
fn binding_table_has_one_binding_per_declaration() {
    let renderer = Renderer { mvp_buf: 1 };
    let vertex = vertex_shader();
    let fragment = fragment_shader();
    let total = vertex.bindings.len() + fragment.bindings.len();
    let material = Material::new(&renderer, full_textures(), full_uniforms(), vertex, fragment).unwrap();
    assert_eq!(total, 7);
    assert_eq!(material.bind_group().bindings.len(), total);
    assert_eq!(material.pipeline_layout().entries.len(), total);
}

#[test]
fn material_layout_lists_vertex_then_fragment() {
    let renderer = Renderer { mvp_buf: 1 };
    let material =
        Material::new(&renderer, full_textures(), full_uniforms(), vertex_shader(), fragment_shader()).unwrap();
    assert_eq!(
        material.pipeline_layout().entries,
        vec![
            LayoutEntry { slot: 0, visibility: ShaderStage::Vertex, kind: ShaderBindingType::UniformBuffer },
            LayoutEntry { slot: 1, visibility: ShaderStage::Vertex, kind: ShaderBindingType::UniformBuffer },
            LayoutEntry { slot: 2, visibility: ShaderStage::Fragment, kind: ShaderBindingType::Texture2D },
            LayoutEntry { slot: 3, visibility: ShaderStage::Fragment, kind: ShaderBindingType::Sampler },
            LayoutEntry { slot: 4, visibility: ShaderStage::Fragment, kind: ShaderBindingType::Texture2D },
            LayoutEntry { slot: 5, visibility: ShaderStage::Fragment, kind: ShaderBindingType::Sampler },
            LayoutEntry { slot: 6, visibility: ShaderStage::Fragment, kind: ShaderBindingType::UniformBuffer },
        ]
    );
}

#[test]
fn layout_is_the_same_for_two_calls() {
    let renderer = Renderer { mvp_buf: 1 };
    let first =
        Material::new(&renderer, full_textures(), full_uniforms(), vertex_shader(), fragment_shader()).unwrap();
    let second =
        Material::new(&renderer, full_textures(), full_uniforms(), vertex_shader(), fragment_shader()).unwrap();
    assert_eq!(first.pipeline_layout(), second.pipeline_layout());
    assert_eq!(first.bind_group(), second.bind_group());
}

#[test]
fn layout_does_not_depend_on_the_tables() {
    let first =
        Material::new(&Renderer { mvp_buf: 1 }, full_textures(), full_uniforms(), vertex_shader(), fragment_shader())
            .unwrap();
    let second = Material::new(
        &Renderer { mvp_buf: 2 },
        table(&[("Albedo", 500), ("Normal", 501), ("Spare", 502)]),
        table(&[("Bones", 600), ("Tint", 601)]),
        vertex_shader(),
        fragment_shader(),
    )
    .unwrap();
    assert_eq!(first.pipeline_layout(), second.pipeline_layout());
}

#[test]
fn bindings_and_layout_agree_slot_by_slot() {
    let renderer = Renderer { mvp_buf: 1 };
    let material =
        Material::new(&renderer, full_textures(), full_uniforms(), vertex_shader(), fragment_shader()).unwrap();
    let entries = &material.pipeline_layout().entries;
    let bindings = &material.bind_group().bindings;
    assert_eq!(entries.len(), bindings.len());
    for i in 0..entries.len() {
        assert_eq!(entries[i].slot, bindings[i].slot);
    }
}

#[test]
fn every_sampler_declaration_shares_the_one_sampler() {
    let renderer = Renderer { mvp_buf: 1 };
    let vertex = Arc::new(Shader::new(vec![decl("VertexSampler", ShaderBindingType::Sampler, 0)]));
    let fragment = Arc::new(Shader::new(vec![
        decl("A", ShaderBindingType::Sampler, 1),
        decl("B", ShaderBindingType::Sampler, 2),
    ]));
    let material = Material::new(&renderer, table(&[]), table(&[]), vertex, fragment).unwrap();
    let bindings = &material.bind_group().bindings;
    assert_eq!(bindings.len(), 3);
    for binding in bindings {
        assert_eq!(binding.resource, BindingResource::Sampler);
    }
    assert_eq!(bindings[0].resource, bindings[1].resource);
    assert_eq!(bindings[1].resource, bindings[2].resource);
    assert_eq!(*material.sampler(), SamplerDescriptor::new());
}

#[test]
fn material_sampler_is_the_default_sampler() {
    let renderer = Renderer { mvp_buf: 1 };
    let material =
        Material::new(&renderer, full_textures(), full_uniforms(), vertex_shader(), fragment_shader()).unwrap();
    assert_eq!(*material.sampler(), SamplerDescriptor::new());
    assert_eq!(material.sampler().lod_min_clamp, -100);
    assert_eq!(material.sampler().lod_max_clamp, 100);
}

#[test]
fn omitted_uniform_fails_construction() {
    let renderer = Renderer { mvp_buf: 1 };
    let result =
        Material::new(&renderer, full_textures(), table(&[("Bones", 20)]), vertex_shader(), fragment_shader());
    assert_eq!(result.unwrap_err(), BindingError::UnresolvedUniformBinding { name: "Tint" });
}

#[test]
fn omitted_texture_fails_construction() {
    let renderer = Renderer { mvp_buf: 1 };
    let result =
        Material::new(&renderer, table(&[("Albedo", 10)]), full_uniforms(), vertex_shader(), fragment_shader());
    assert_eq!(result.unwrap_err(), BindingError::UnresolvedTextureBinding { name: "Normal" });
}

#[test]
fn earliest_omission_decides_the_error() {
    let renderer = Renderer { mvp_buf: 1 };
    let result = Material::new(&renderer, table(&[]), table(&[("Bones", 20)]), vertex_shader(), fragment_shader());
    assert_eq!(result.unwrap_err(), BindingError::UnresolvedTextureBinding { name: "Albedo" });
    let result = Material::new(&renderer, table(&[]), table(&[]), vertex_shader(), fragment_shader());
    assert_eq!(result.unwrap_err(), BindingError::UnresolvedUniformBinding { name: "Bones" });
}

#[test]
fn empty_tables_suffice_for_builtin_and_samplers() {
    let renderer = Renderer { mvp_buf: 77 };
    let vertex = Arc::new(Shader::new(vec![decl("Mvp", ShaderBindingType::UniformBuffer, 0)]));
    let fragment = Arc::new(Shader::new(vec![decl("Smp", ShaderBindingType::Sampler, 1)]));
    let material = Material::new(&renderer, table(&[]), table(&[]), vertex, fragment).unwrap();
    assert_eq!(
        material.bind_group().bindings,
        vec![
            Binding { slot: 0, resource: BindingResource::Buffer(77) },
            Binding { slot: 1, resource: BindingResource::Sampler },
        ]
    );
}

#[test]
fn builtin_transform_wins_over_caller_entry() {
    let renderer = Renderer { mvp_buf: 77 };
    let vertex = Arc::new(Shader::new(vec![decl("Mvp", ShaderBindingType::UniformBuffer, 0)]));
    let fragment = Arc::new(Shader::new(vec![decl("Mvp", ShaderBindingType::UniformBuffer, 1)]));
    let material = Material::new(&renderer, table(&[]), table(&[("Mvp", 5)]), vertex, fragment).unwrap();
    assert_eq!(
        material.bind_group().bindings,
        vec![
            Binding { slot: 0, resource: BindingResource::Buffer(77) },
            Binding { slot: 1, resource: BindingResource::Buffer(77) },
        ]
    );
    assert_eq!(material.uniforms().get("Mvp"), Some(&5));
}

#[test]
fn extra_entries_do_not_fail_and_are_retained() {
    let renderer = Renderer { mvp_buf: 1 };
    let textures = table(&[("Albedo", 10), ("Normal", 11), ("Unused", 12), ("AlsoUnused", 13)]);
    let uniforms = table(&[("Bones", 20), ("Tint", 21), ("Spare", 22)]);
    let material =
        Material::new(&renderer, textures.clone(), uniforms.clone(), vertex_shader(), fragment_shader()).unwrap();
    assert_eq!(material.textures(), &textures);
    assert_eq!(material.uniforms(), &uniforms);
    assert_eq!(material.textures().len(), 4);
    assert_eq!(material.uniforms().len(), 3);
    assert_eq!(material.textures().get("Unused"), Some(&12));
    assert_eq!(material.textures().get("AlsoUnused"), Some(&13));
    assert_eq!(material.uniforms().get("Spare"), Some(&22));
}

#[test]
fn extra_entries_do_not_change_the_bindings() {
    let renderer = Renderer { mvp_buf: 1 };
    let plain =
        Material::new(&renderer, full_textures(), full_uniforms(), vertex_shader(), fragment_shader()).unwrap();
    let with_extras = Material::new(
        &renderer,
        table(&[("Albedo", 10), ("Normal", 11), ("Unused", 12)]),
        table(&[("Bones", 20), ("Tint", 21), ("Spare", 22), ("Mvp", 23)]),
        vertex_shader(),
        fragment_shader(),
    )
    .unwrap();
    assert_eq!(plain.bind_group(), with_extras.bind_group());
    assert_eq!(plain.pipeline_layout(), with_extras.pipeline_layout());
}

#[test]
fn material_keeps_its_shaders() {
    let renderer = Renderer { mvp_buf: 1 };
    let vertex = vertex_shader();
    let fragment = fragment_shader();
    let material =
        Material::new(&renderer, full_textures(), full_uniforms(), vertex.clone(), fragment.clone()).unwrap();
    assert!(Arc::ptr_eq(material.vertex_shader(), &vertex));
    assert!(Arc::ptr_eq(material.fragment_shader(), &fragment));
    assert_eq!(Arc::strong_count(&vertex), 2);
    drop(material);
    assert_eq!(Arc::strong_count(&vertex), 1);
}

#[test]
fn shaders_can_be_shared_between_materials() {
    let renderer = Renderer { mvp_buf: 1 };
    let shader = Arc::new(Shader::new(vec![decl("Mvp", ShaderBindingType::UniformBuffer, 0)]));
    let first = Material::new(&renderer, table(&[]), table(&[]), shader.clone(), shader.clone()).unwrap();
    let second = Material::new(&renderer, table(&[]), table(&[]), shader.clone(), shader.clone()).unwrap();
    assert_eq!(first.bind_group(), second.bind_group());
    assert_eq!(
        first.pipeline_layout().entries,
        vec![
            LayoutEntry { slot: 0, visibility: ShaderStage::Vertex, kind: ShaderBindingType::UniformBuffer },
            LayoutEntry { slot: 0, visibility: ShaderStage::Fragment, kind: ShaderBindingType::UniformBuffer },
        ]
    );
}

#[test]
fn material_of_empty_shaders_is_empty() {
    let renderer = Renderer { mvp_buf: 1 };
    let material = Material::new(
        &renderer,
        table(&[("Unused", 1)]),
        table(&[]),
        Arc::new(Shader::new(Vec::new())),
        Arc::new(Shader::new(Vec::new())),
    )
    .unwrap();
    assert!(material.pipeline_layout().entries.is_empty());
    assert!(material.bind_group().bindings.is_empty());
    assert_eq!(material.textures().get("Unused"), Some(&1));
}

#[test]
fn failed_construction_yields_no_material() {
    let renderer = Renderer { mvp_buf: 1 };
    let result = Material::new(&renderer, table(&[]), full_uniforms(), vertex_shader(), fragment_shader());
    assert!(result.is_err());
}
