//! Depth-of-field pass planning.
//!
//! The pass itself is a fullscreen draw performed by the host renderer.
//! What is decided here: which texture format a view's pipeline is
//! specialized for, whether a cached bind group may be reused for the
//! current source texture, and whether the pass runs at all.

use vstd::prelude::*;

verus! {

/// The color target format a depth-of-field pipeline is built for.
#[derive(Clone, Copy, Debug, PartialEq, Eq, Structural)]
pub enum DofTextureFormat {
    /// The high-dynamic-range view target format.
    Rgba16Float,
    /// The default low-dynamic-range view target format.
    Rgba8UnormSrgb,
}

/// Everything a depth-of-field pipeline is specialized on.
#[derive(Clone, Copy, Debug, PartialEq, Eq, Structural)]
pub struct DepthOfFieldPipelineKey {
    pub texture_format: DofTextureFormat,
}

/// The format a view renders to: the HDR format when the view is HDR,
/// the default format otherwise.
pub open spec fn format_for_view(hdr: bool) -> DofTextureFormat {
    if hdr {
        DofTextureFormat::Rgba16Float
    } else {
        DofTextureFormat::Rgba8UnormSrgb
    }
}

/// The pipeline key for a single view.
pub fn pipeline_key_for_view(hdr: bool) -> (r: DepthOfFieldPipelineKey)
    ensures
        r.texture_format == format_for_view(hdr),
{
    if hdr {
        DepthOfFieldPipelineKey { texture_format: DofTextureFormat::Rgba16Float }
    } else {
        DepthOfFieldPipelineKey { texture_format: DofTextureFormat::Rgba8UnormSrgb }
    }
}

/// The pipeline keys for every view with a depth-of-field setting,
/// one per view, in the order the views were handed in.
pub fn prepare_dof_pipelines(views_hdr: &Vec<bool>) -> (r: Vec<DepthOfFieldPipelineKey>)
    ensures
        r@.len() == views_hdr@.len(),
        forall|i: int|
            0 <= i < r@.len() ==> r@[i].texture_format == format_for_view(views_hdr@[i]),
{
    let mut r: Vec<DepthOfFieldPipelineKey> = Vec::new();
    let mut j: usize = 0;
    while j < views_hdr.len()
        invariant
            j <= views_hdr@.len(),
            r@.len() == j as int,
            forall|i: int|
                0 <= i < j as int ==> r@[i].texture_format == format_for_view(views_hdr@[i]),
        decreases views_hdr@.len() - j,
    {
        let key = pipeline_key_for_view(views_hdr[j]);
        r.push(key);
        j = j + 1;
    }
    r
}

/// The bind group made for the most recent source texture, remembered
/// by that texture view's id so the next frame can reuse it.
#[derive(Clone, Copy, Debug, PartialEq, Eq, Structural)]
pub struct BindGroupCache {
    pub cached_id: Option<u64>,
}

impl BindGroupCache {
    /// A cache that has not seen any source texture yet.
    pub fn new() -> (r: BindGroupCache)
        ensures
            r.cached_id is None,
    {
        BindGroupCache { cached_id: None }
    }
}

/// What one run of the depth-of-field render node does.
#[derive(Clone, Copy, Debug, PartialEq, Eq, Structural)]
pub enum NodeStep {
    /// The specialized pipeline is not compiled yet: draw nothing and
    /// leave the cache as it is.
    Skip,
    /// Run the fullscreen draw, reusing the cached bind group when the
    /// source texture is the one it was made for.
    Draw { reuse_bind_group: bool },
}

/// Decide one run of the render node: skip while the pipeline is not
/// ready; otherwise draw, reusing the cached bind group exactly when
/// its texture id matches the current source, and cache the source
/// either way.
pub fn node_run_step(cache: &mut BindGroupCache, pipeline_ready: bool, source_id: u64) -> (r:
    NodeStep)
    ensures
        !pipeline_ready ==> r == NodeStep::Skip && *final(cache) == *old(cache),
        pipeline_ready ==> final(cache).cached_id == Some(source_id),
        pipeline_ready ==> r == (NodeStep::Draw {
            reuse_bind_group: old(cache).cached_id == Some(source_id),
        }),
{
    if !pipeline_ready {
        return NodeStep::Skip;
    }
    let reuse = match cache.cached_id {
        Some(id) => id == source_id,
        None => false,
    };
    cache.cached_id = Some(source_id);
    NodeStep::Draw { reuse_bind_group: reuse }
}

} // verus!
