use render_plan::dof::{
    node_run_step, pipeline_key_for_view, prepare_dof_pipelines, BindGroupCache,
    DepthOfFieldPipelineKey, DofTextureFormat, NodeStep,
};

#[test]
fn hdr_view_gets_the_hdr_format() {
    let key = pipeline_key_for_view(true);
    assert_eq!(key.texture_format, DofTextureFormat::Rgba16Float);
}

#[test]
fn ldr_view_gets_the_default_format() {
    let key = pipeline_key_for_view(false);
    assert_eq!(key.texture_format, DofTextureFormat::Rgba8UnormSrgb);
}

#[test]
fn one_key_per_view_in_order() {
    let keys = prepare_dof_pipelines(&vec![true, false, true]);
    assert_eq!(
        keys,
        vec![
            DepthOfFieldPipelineKey { texture_format: DofTextureFormat::Rgba16Float },
            DepthOfFieldPipelineKey { texture_format: DofTextureFormat::Rgba8UnormSrgb },
            DepthOfFieldPipelineKey { texture_format: DofTextureFormat::Rgba16Float },
        ]
    );
}

#[test]
fn no_views_no_keys() {
    assert_eq!(prepare_dof_pipelines(&Vec::new()), Vec::<DepthOfFieldPipelineKey>::new());
}

#[test]
fn missing_pipeline_skips_and_keeps_the_cache() {
    let mut cache = BindGroupCache::new();
    let step = node_run_step(&mut cache, false, 7);
    assert_eq!(step, NodeStep::Skip);
    assert_eq!(cache.cached_id, None);
}

#[test]
fn first_draw_builds_a_bind_group() {
    let mut cache = BindGroupCache::new();
    let step = node_run_step(&mut cache, true, 7);
    assert_eq!(step, NodeStep::Draw { reuse_bind_group: false });
    assert_eq!(cache.cached_id, Some(7));
}

#[test]
fn same_source_reuses_the_bind_group() {
    let mut cache = BindGroupCache::new();
    node_run_step(&mut cache, true, 7);
    let step = node_run_step(&mut cache, true, 7);
    assert_eq!(step, NodeStep::Draw { reuse_bind_group: true });
    assert_eq!(cache.cached_id, Some(7));
}

#[test]
fn new_source_rebuilds_the_bind_group() {
    let mut cache = BindGroupCache::new();
    node_run_step(&mut cache, true, 7);
    let step = node_run_step(&mut cache, true, 9);
    assert_eq!(step, NodeStep::Draw { reuse_bind_group: false });
    assert_eq!(cache.cached_id, Some(9));
    let step = node_run_step(&mut cache, true, 9);
    assert_eq!(step, NodeStep::Draw { reuse_bind_group: true });
}
