//! The images of a batch, and the plan of their memory.

use vstd::prelude::*;

use crate::consts::{ IMAGE_LAYOUT_SHADER_READ_ONLY_OPTIMAL, IMAGE_LAYOUT_TRANSFER_DST_OPTIMAL, ACCESS_NONE, ACCESS_SHADER_READ, PIPELINE_STAGE_TOP_OF_PIPE, PIPELINE_STAGE_EARLY_FRAGMENT_TESTS };
use crate::types::Dim3D;
use crate::image::target::GsImage;
use crate::image::enums::ImageInstanceType;
use crate::image::copy::{ ImageFullCopyInfo, ImageSubresourceLayers, spec_mip_extent, mip_extent };
use crate::image::instance::base::image::GsBackendImage;
use crate::image::instance::traits::{ ImageInstanceInfoDesc, IImageConveyor };
use crate::descriptor::allocator::target::GsAssignIndex;
use crate::image::enums::ImagePipelineStage;
use crate::image::instance::base::barrier::SampleImageBarrierBundle;
use crate::image::instance::depth::barrier::{ DepSteImageBarrierBundle, DepthStencilPlan, spec_depth_ready, spec_depth_barrier };
use crate::image::instance::base::barrier::spec_upload_plan;
use crate::image::instance::base::agree::{ spec_agree, lemma_upload_plan_agree };
use crate::image::instance::base::barrier::{ SampleImageUploadPlan, spec_has_upload_data, spec_group_has_data };
use crate::image::instance::sampler::{ GsSampler, GsSamplerMirror, GsSamplerArray };
use crate::image::barrier::spec_moved;
use crate::image::mipmap::MipmapMethod;
use crate::error::{ VkError, VkErrorKind };
use std::collections::HashSet;

verus! {

/// An image of a batch: its settings, its kind, the image itself, the memory
/// it takes, and the state (layout and access) its base level is in.
pub struct ImageAllotCI {
    pub backend: GsBackendImage,
    pub typ: ImageInstanceType,
    pub image: GsImage,
    pub space: u64,
    /// the layout of the image base mip-level that the program operate on.
    pub current_layout: i32,
    /// the current access flags for the image.
    pub current_access: u32,
}

impl ImageAllotCI {
    /// Takes an image into a batch: it occupies the memory its requirements
    /// ask for, and starts in its initial layout with no access.
    pub open spec fn spec_new(typ: ImageInstanceType, image: GsImage, backend: GsBackendImage) -> ImageAllotCI {
        ImageAllotCI {
            space: image.alignment_size,
            current_layout: backend.image_ci.property.initial_layout,
            current_access: ACCESS_NONE,
            typ,
            image,
            backend,
        }
    }

    pub fn new(typ: ImageInstanceType, image: GsImage, backend: GsBackendImage) -> (r: ImageAllotCI)
        ensures
            r == ImageAllotCI::spec_new(typ, image, backend),
            r.typ == typ,
            r.image == image,
            r.backend == backend,
            r.space == image.alignment_size,
            r.current_layout == backend.image_ci.property.initial_layout,
            r.current_access == ACCESS_NONE,
    {
        let space = image.alignment_size;
        let current_layout = backend.image_ci.property.initial_layout;
        let current_access = ACCESS_NONE;
        ImageAllotCI { backend, typ, image, space, current_layout, current_access }
    }

    /// The description handed to the image instance built from this image.
    pub fn gen_desc(&self) -> (r: ImageInstanceInfoDesc)
        ensures
            r.current_layout == self.current_layout,
            r.dimension == self.backend.storage.dimension,
            r.subrange == self.backend.view_ci.subrange,
    {
        ImageInstanceInfoDesc {
            current_layout: self.current_layout,
            dimension: self.backend.storage.dimension,
            subrange: self.backend.view_ci.subrange,
        }
    }

    /// A copy into all the layers of mip level `level`.
    pub open spec fn spec_full_copy_mipmap(&self, level: u32) -> ImageFullCopyInfo {
        ImageFullCopyInfo {
            handle: self.image.handle,
            layout: self.current_layout,
            extent: Dim3D {
                width: spec_mip_extent(self.backend.storage.dimension.width, level),
                height: spec_mip_extent(self.backend.storage.dimension.height, level),
                depth: self.backend.image_ci.property.array_layers,
            },
            sub_resource_layers: ImageSubresourceLayers {
                aspect_mask: self.backend.view_ci.subrange.aspect_mask,
                mip_level: level,
                base_array_layer: 0,
                layer_count: self.typ.spec_layer_count(),
            },
        }
    }

    /// A copy into all the layers of mip level `level`; the image must be
    /// ready to receive the data.
    pub fn full_copy_mipmap(&self, level: u32) -> (r: ImageFullCopyInfo)
        requires
            self.current_layout == IMAGE_LAYOUT_TRANSFER_DST_OPTIMAL,
            level < 32,
        ensures
            r == self.spec_full_copy_mipmap(level),
    {
        ImageFullCopyInfo {
            handle: self.image.handle,
            layout: self.current_layout,
            extent: Dim3D {
                width: mip_extent(self.backend.storage.dimension.width, level),
                height: mip_extent(self.backend.storage.dimension.height, level),
                depth: self.backend.image_ci.property.array_layers,
            },
            sub_resource_layers: ImageSubresourceLayers {
                aspect_mask: self.backend.view_ci.subrange.aspect_mask,
                mip_level: level,
                base_array_layer: 0,
                layer_count: self.typ.layer_count(),
            },
        }
    }
}


/// The indices, in increasing order, of the images among the first `n` of
/// `infos` that are of kind `t`.
pub open spec fn spec_indices_of_type(infos: Seq<ImageAllotCI>, t: ImageInstanceType, n: nat) -> Seq<usize>
    decreases n,
{
    if n == 0 {
        seq![]
    } else {
        let rest = spec_indices_of_type(infos, t, (n - 1) as nat);
        if infos[n - 1].typ == t {
            rest.push((n - 1) as usize)
        } else {
            rest
        }
    }
}

/// The kinds of images, in order of first appearance among the first `n` of `infos`.
pub open spec fn spec_kinds(infos: Seq<ImageAllotCI>, n: nat) -> Seq<ImageInstanceType>
    decreases n,
{
    if n == 0 {
        seq![]
    } else {
        let rest = spec_kinds(infos, (n - 1) as nat);
        if rest.contains(infos[n - 1].typ) {
            rest
        } else {
            rest.push(infos[n - 1].typ)
        }
    }
}

/// The images of a batch grouped by kind: one group per kind, in order of the
/// kind's first appearance; each group lists its images in increasing order.
pub fn group_by_type(image_infos: &Vec<ImageAllotCI>) -> (groups: Vec<(ImageInstanceType, Vec<usize>)>)
    ensures
        groups@.len() == spec_kinds(image_infos@, image_infos@.len()).len(),
        forall|g: int| 0 <= g < groups@.len() ==> {
            &&& (#[trigger] groups@[g]).0 == spec_kinds(image_infos@, image_infos@.len())[g]
            &&& groups@[g].1@ == spec_indices_of_type(image_infos@, groups@[g].0, image_infos@.len())
        },
{
    let ghost infos = image_infos@;
    let mut kinds: Vec<ImageInstanceType> = Vec::new();
    let mut lists: Vec<Vec<usize>> = Vec::new();
    let mut j: usize = 0;
    while j < image_infos.len()
        invariant
            j <= image_infos.len(),
            infos == image_infos@,
            kinds@ == spec_kinds(infos, j as nat),
            lists@.len() == kinds@.len(),
            forall|g: int| 0 <= g < lists@.len() ==> (#[trigger] lists@[g])@ == spec_indices_of_type(infos, kinds@[g], j as nat),
        decreases image_infos.len() - j,
    {
        let t = image_infos[j].typ;
        let mut g: usize = 0;
        let mut found = false;
        while g < kinds.len()
            invariant
                g <= kinds.len(),
                !found ==> forall|q: int| 0 <= q < g ==> kinds@[q] != t,
                found ==> g < kinds.len() && kinds@[g as int] == t,
            ensures
                found ==> g < kinds.len() && kinds@[g as int] == t,
                !found ==> forall|q: int| 0 <= q < kinds@.len() ==> kinds@[q] != t,
            decreases kinds.len() - g + if found { 0int } else { 1int },
        {
            if kinds[g] == t {
                found = true;
                break;
            }
            g = g + 1;
        }
        assert(infos[j as int].typ == t);
        if found {
            let ghost lists_before = lists@;
            let mut list = lists.remove(g);
            list.push(j);
            lists.insert(g, list);
            proof {
                assert(kinds@.contains(t));
                assert forall|q: int| 0 <= q < lists@.len() implies (#[trigger] lists@[q])@ == spec_indices_of_type(infos, kinds@[q], (j + 1) as nat) by {
                    if q == g as int {
                    } else {
                        assert(lists@[q] == lists_before[q]);
                        assert(kinds@[q] != t) by {
                            // kinds are distinct
                            lemma_kinds_distinct(infos, j as nat);
                        }
                    }
                }
            }
        } else {
            proof {
                assert(!kinds@.contains(t));
                lemma_indices_of_new_type(infos, t, j as nat);
            }
            let ghost lists_before = lists@;
            kinds.push(t);
            let mut list: Vec<usize> = Vec::new();
            list.push(j);
            lists.push(list);
            proof {
                assert forall|q: int| 0 <= q < lists@.len() implies (#[trigger] lists@[q])@ == spec_indices_of_type(infos, kinds@[q], (j + 1) as nat) by {
                    if q < lists_before.len() {
                        assert(lists@[q] == lists_before[q]);
                        assert(kinds@[q] != t);
                    } else {
                        assert(lists@[q]@ =~= seq![j]);
                    }
                }
            }
        }
        j = j + 1;
    }
    let mut groups: Vec<(ImageInstanceType, Vec<usize>)> = Vec::new();
    let ghost lists_all = lists@;
    let mut lists = lists;
    while lists.len() > 0
        invariant
            kinds@ == spec_kinds(infos, infos.len()),
            groups@.len() + lists@.len() == kinds@.len(),
            forall|g: int| 0 <= g < lists@.len() ==> #[trigger] lists@[g] == lists_all[g + groups@.len()],
            forall|g: int| 0 <= g < lists_all.len() ==> (#[trigger] lists_all[g])@ == spec_indices_of_type(infos, kinds@[g], infos.len()),
            forall|g: int| 0 <= g < groups@.len() ==> {
                &&& (#[trigger] groups@[g]).0 == kinds@[g]
                &&& groups@[g].1 == lists_all[g]
            },
            lists_all.len() == kinds@.len(),
        decreases lists@.len(),
    {
        let g = groups.len();
        let list = lists.remove(0);
        groups.push((kinds[g], list));
    }
    groups
}

proof fn lemma_kinds_distinct(infos: Seq<ImageAllotCI>, n: nat)
    ensures
        spec_kinds(infos, n).no_duplicates(),
    decreases n,
{
    if n > 0 {
        lemma_kinds_distinct(infos, (n - 1) as nat);
    }
}

proof fn lemma_indices_of_new_type(infos: Seq<ImageAllotCI>, t: ImageInstanceType, n: nat)
    requires
        n <= infos.len(),
        !spec_kinds(infos, n).contains(t),
    ensures
        spec_indices_of_type(infos, t, n) == Seq::<usize>::empty(),
    decreases n,
{
    if n > 0 {
        let rest = spec_kinds(infos, (n - 1) as nat);
        if rest.contains(infos[n - 1].typ) {
            assert(infos[n - 1].typ != t);
        } else {
            assert(spec_kinds(infos, n)[rest.len() as int] == infos[n - 1].typ);
        }
        if rest.contains(t) {
            let i = choose|i: int| 0 <= i < rest.len() && rest[i] == t;
            if !rest.contains(infos[n - 1].typ) {
                assert(spec_kinds(infos, n)[i] == t);
            }
        }
        lemma_indices_of_new_type(infos, t, (n - 1) as nat);
    }
}


/// The preparation of one group of images of a batch.
pub enum ImageBarrierBundle {
    Sample(SampleImageBarrierBundle),
    DepthStencil(DepSteImageBarrierBundle),
}

/// The pipeline stage that reads images of a sampled kind.
pub open spec fn spec_kind_stage(t: ImageInstanceType) -> ImagePipelineStage {
    match t {
        ImageInstanceType::CombinedImageSampler { stage } => stage,
        ImageInstanceType::SampledImage { stage } => stage,
        ImageInstanceType::CubeMapImage { stage } => stage,
        ImageInstanceType::DepthStencilImage { stage, .. } => stage,
        ImageInstanceType::DepthStencilAttachment => ImagePipelineStage::FragmentStage,
    }
}

/// The preparation of the group of kind `t`, made of the images `indices`.
pub open spec fn spec_bundle_matches(b: ImageBarrierBundle, t: ImageInstanceType, indices: Seq<usize>) -> bool {
    match b {
        ImageBarrierBundle::Sample(s) => {
            &&& t.is_sampled_kind()
            &&& s.image_type == t
            &&& s.dst_stage == spec_kind_stage(t)
            &&& s.info_indices@ == indices
        },
        ImageBarrierBundle::DepthStencil(d) => {
            &&& t == ImageInstanceType::DepthStencilAttachment
            &&& d.info_indices@ == indices
        },
    }
}

proof fn lemma_kinds_members(infos: Seq<ImageAllotCI>, n: nat)
    requires
        n <= infos.len(),
    ensures
        forall|g: int| 0 <= g < spec_kinds(infos, n).len() ==> exists|j: int| 0 <= j < n && infos[j].typ == #[trigger] spec_kinds(infos, n)[g],
    decreases n,
{
    if n > 0 {
        lemma_kinds_members(infos, (n - 1) as nat);
        let rest = spec_kinds(infos, (n - 1) as nat);
        assert forall|g: int| 0 <= g < spec_kinds(infos, n).len() implies exists|j: int| 0 <= j < n && infos[j].typ == #[trigger] spec_kinds(infos, n)[g] by {
            if g < rest.len() {
                assert(spec_kinds(infos, n)[g] == rest[g]);
                let j = choose|j: int| 0 <= j < n - 1 && infos[j].typ == rest[g];
                assert(infos[j].typ == spec_kinds(infos, n)[g]);
            } else {
                assert(infos[n - 1].typ == spec_kinds(infos, n)[g]);
            }
        }
    }
}

/// Groups the images of a batch by kind, and gives each group the preparation
/// its kind needs: sampled kinds upload data and become readable by the stage
/// named in the kind; depth-stencil attachments go to their attachment layout.
pub fn collect_barrier_bundle(image_infos: &Vec<ImageAllotCI>) -> (bundles: Vec<ImageBarrierBundle>)
    requires
        forall|j: int| 0 <= j < image_infos@.len() ==> !((#[trigger] image_infos@[j]).typ is DepthStencilImage),
    ensures
        bundles@.len() == spec_kinds(image_infos@, image_infos@.len()).len(),
        forall|g: int| 0 <= g < bundles@.len() ==> spec_bundle_matches(
            #[trigger] bundles@[g],
            spec_kinds(image_infos@, image_infos@.len())[g],
            spec_indices_of_type(image_infos@, spec_kinds(image_infos@, image_infos@.len())[g], image_infos@.len()),
        ),
{
    let ghost infos = image_infos@;
    let ghost kinds = spec_kinds(infos, infos.len());
    proof {
        lemma_kinds_members(infos, infos.len());
    }
    let groups = group_by_type(image_infos);
    let ghost groups_all = groups@;
    let mut groups = groups;
    let mut bundles: Vec<ImageBarrierBundle> = Vec::new();
    while groups.len() > 0
        invariant
            bundles@.len() + groups@.len() == kinds.len(),
            groups_all.len() == kinds.len(),
            forall|g: int| 0 <= g < groups@.len() ==> #[trigger] groups@[g] == groups_all[g + bundles@.len()],
            forall|g: int| 0 <= g < groups_all.len() ==> {
                &&& (#[trigger] groups_all[g]).0 == kinds[g]
                &&& groups_all[g].1@ == spec_indices_of_type(infos, groups_all[g].0, infos.len())
            },
            forall|g: int| 0 <= g < kinds.len() ==> !(#[trigger] kinds[g] is DepthStencilImage),
            forall|g: int| 0 <= g < bundles@.len() ==> spec_bundle_matches(
                #[trigger] bundles@[g],
                kinds[g],
                spec_indices_of_type(infos, kinds[g], infos.len()),
            ),
        decreases groups@.len(),
    {
        let ghost g = bundles@.len() as int;
        let (t, indices) = groups.remove(0);
        assert(t == kinds[g]);
        let bundle = match t {
            ImageInstanceType::CombinedImageSampler { stage } =>
                ImageBarrierBundle::Sample(SampleImageBarrierBundle::new(stage, t, indices)),
            ImageInstanceType::SampledImage { stage } =>
                ImageBarrierBundle::Sample(SampleImageBarrierBundle::new(stage, t, indices)),
            ImageInstanceType::CubeMapImage { stage } =>
                ImageBarrierBundle::Sample(SampleImageBarrierBundle::new(stage, t, indices)),
            _ => ImageBarrierBundle::DepthStencil(DepSteImageBarrierBundle::new(indices)),
        };
        bundles.push(bundle);
    }
    bundles
}


/// An image is in the group of kind `t` exactly when it is of kind `t`; each
/// group lists distinct images of the batch; and every image's kind has a group.
pub proof fn lemma_groups_partition(infos: Seq<ImageAllotCI>, t: ImageInstanceType, n: nat)
    requires
        n <= infos.len(),
        n <= usize::MAX,
    ensures
        forall|j: int| 0 <= j < n ==> (spec_indices_of_type(infos, t, n).contains(j as usize) <==> infos[j].typ == t),
        forall|k: int| 0 <= k < spec_indices_of_type(infos, t, n).len() ==> #[trigger] spec_indices_of_type(infos, t, n)[k] < n,
        spec_indices_of_type(infos, t, n).no_duplicates(),
        forall|j: int| 0 <= j < n ==> #[trigger] spec_kinds(infos, n).contains(infos[j].typ),
    decreases n,
{
    if n > 0 {
        let m = (n - 1) as nat;
        lemma_groups_partition(infos, t, m);
        let p = spec_indices_of_type(infos, t, m);
        let q = spec_indices_of_type(infos, t, n);
        if infos[m as int].typ == t {
            assert(q == p.push(m as usize));
        } else {
            assert(q == p);
        }
        assert forall|j: int| 0 <= j < n implies (q.contains(j as usize) <==> infos[j].typ == t) by {
            assert((j as usize) as int == j);
            if j < m {
                if q.contains(j as usize) && !p.contains(j as usize) {
                    let i = choose|i: int| 0 <= i < q.len() && q[i] == j as usize;
                    assert(i == p.len());
                    assert(q[i] == m as usize);
                }
                if p.contains(j as usize) {
                    let i = choose|i: int| 0 <= i < p.len() && p[i] == j as usize;
                    assert(q[i] == j as usize);
                }
            } else {
                if infos[j].typ == t {
                    assert(q[p.len() as int] == j as usize);
                } else if q.contains(j as usize) {
                    let i = choose|i: int| 0 <= i < q.len() && q[i] == j as usize;
                    assert(p[i] < m);
                }
            }
        }
        assert forall|k: int| 0 <= k < q.len() implies #[trigger] q[k] < n by {
            if k < p.len() {
                assert(q[k] == p[k]);
            }
        }
        assert(q.no_duplicates()) by {
            assert forall|a: int, b: int| 0 <= a < q.len() && 0 <= b < q.len() && a != b implies q[a] != q[b] by {
                if a < p.len() && b < p.len() {
                    assert(q[a] == p[a] && q[b] == p[b]);
                } else if a < p.len() {
                    assert(q[a] == p[a]);
                    assert(p[a] < m);
                } else if b < p.len() {
                    assert(q[b] == p[b]);
                    assert(p[b] < m);
                }
            }
        }
        let kr = spec_kinds(infos, m);
        let kn = spec_kinds(infos, n);
        assert forall|j: int| 0 <= j < n implies #[trigger] kn.contains(infos[j].typ) by {
            if j < m {
                assert(kr.contains(infos[j].typ));
                let i = choose|i: int| 0 <= i < kr.len() && kr[i] == infos[j].typ;
                if !kr.contains(infos[m as int].typ) {
                    assert(kn[i] == infos[j].typ);
                }
            } else {
                if !kr.contains(infos[m as int].typ) {
                    assert(kn[kr.len() as int] == infos[j].typ);
                }
            }
        }
    }
}

/// The image once its preparation is done: readable from shaders for sampled
/// kinds, in the depth-stencil attachment layout for attachments.
pub open spec fn spec_prepared(info: ImageAllotCI) -> ImageAllotCI {
    if info.typ.is_sampled_kind() {
        spec_moved(info, ACCESS_SHADER_READ, IMAGE_LAYOUT_SHADER_READ_ONLY_OPTIMAL)
    } else {
        spec_depth_ready(info)
    }
}

/// Whether every image of kind `t` in the batch has data to upload, if `t`
/// is a sampled kind (images of other kinds upload nothing).
pub open spec fn spec_kind_has_data(infos: Seq<ImageAllotCI>, t: ImageInstanceType) -> bool {
    t.is_sampled_kind() ==> forall|j: int| 0 <= j < infos.len() && (#[trigger] infos[j]).typ == t ==> spec_has_upload_data(infos[j])
}

/// What preparing a batch asks: no image is a depth-stencil image, and the
/// images of each group that is reached with its data (this group and every
/// group before it, in the order of `spec_kinds`, have their data) are
/// preparable as `spec_batch_preparable` says. A group after the first one
/// without data is never reached, and a group without data fails before
/// its chains are generated.
pub open spec fn spec_batch_ready(infos: Seq<ImageAllotCI>) -> bool {
    &&& forall|j: int| 0 <= j < infos.len() ==> !((#[trigger] infos[j]).typ is DepthStencilImage)
    &&& forall|g: int, j: int|
        0 <= g < spec_kinds(infos, infos.len()).len() && 0 <= j < infos.len()
            && (#[trigger] infos[j]).typ == #[trigger] spec_kinds(infos, infos.len())[g]
            && (forall|q: int| 0 <= q <= g ==> spec_kind_has_data(infos, #[trigger] spec_kinds(infos, infos.len())[q]))
            ==> spec_batch_preparable(infos[j])
}

/// What the preparation of an image of a batch asks: it is no depth-stencil
/// image, and if it is sampled, a chain, if any, is a step chain of 2 to 32 levels.
pub open spec fn spec_batch_preparable(info: ImageAllotCI) -> bool {
    &&& !(info.typ is DepthStencilImage)
    &&& info.typ.is_sampled_kind() ==> {
        &&& info.backend.image_ci.property.mipmap != MipmapMethod::BaseLevelBlit
        &&& info.backend.image_ci.property.mipmap == MipmapMethod::StepBlit ==> 2
            <= info.backend.image_ci.property.mip_levels <= 32
    }
}

/// The plan of the group of kind `t`, made of the images `indices` of the batch `infos`.
pub open spec fn spec_plan_matches(plan: BundlePlan, infos: Seq<ImageAllotCI>, t: ImageInstanceType, indices: Seq<usize>) -> bool {
    match plan {
        BundlePlan::Sample(p) => {
            &&& t.is_sampled_kind()
            &&& spec_upload_plan(p, infos, indices, t, spec_kind_stage(t))
        },
        BundlePlan::DepthStencil(d) => {
            &&& t == ImageInstanceType::DepthStencilAttachment
            &&& d.barriers@ == indices.map_values(|i: usize| spec_depth_barrier(infos[i as int]))
            &&& d.src_stage == PIPELINE_STAGE_TOP_OF_PIPE
            &&& d.dst_stage == PIPELINE_STAGE_EARLY_FRAGMENT_TESTS
        },
    }
}

/// `now` is the batch `infos` with the groups of its first `g` kinds prepared.
pub open spec fn spec_prepared_upto(infos: Seq<ImageAllotCI>, now: Seq<ImageAllotCI>, g: int) -> bool {
    let kinds = spec_kinds(infos, infos.len());
    &&& 0 <= g <= kinds.len()
    &&& now.len() == infos.len()
    &&& forall|j: int| 0 <= j < infos.len() ==> #[trigger] now[j] == if kinds.take(g).contains(infos[j].typ) {
        spec_prepared(infos[j])
    } else {
        infos[j]
    }
}

/// The memory kind the images of a batch are bound to.
#[derive(Debug, Clone, Copy, PartialEq, Eq, Structural)]
pub enum ImageStorageType {
    Device,
    Cached,
}

/// The plan of the memory of a batch: its size, and where each image is bound.
pub struct ImageMemoryPlan {
    pub total_space: u64,
    /// `offsets[k]` is where the `k`-th image is bound.
    pub offsets: Vec<u64>,
}

/// The preparation of one group of a batch.
pub enum BundlePlan {
    Sample(SampleImageUploadPlan),
    DepthStencil(DepthStencilPlan),
}

/// The memory the first `n` images of the batch take together.
pub open spec fn spec_space_sum(infos: Seq<ImageAllotCI>, n: nat) -> nat
    decreases n,
{
    if n == 0 {
        0
    } else {
        spec_space_sum(infos, (n - 1) as nat) + infos[n - 1].space as nat
    }
}

proof fn lemma_space_sum_monotone(infos: Seq<ImageAllotCI>, a: nat, b: nat)
    requires
        a <= b,
    ensures
        spec_space_sum(infos, a) <= spec_space_sum(infos, b),
    decreases b,
{
    if a < b {
        lemma_space_sum_monotone(infos, a, (b - 1) as nat);
    }
}

/// Collects the images (and samplers) of a batch, to bind them to one memory
/// and prepare them together.
pub struct GsImageAllocator {
    pub storage_type: ImageStorageType,
    pub image_infos: Vec<ImageAllotCI>,
    /// the samplers made for the batch's images, by handle.
    pub samplers: HashSet<u64>,
}

impl GsImageAllocator {
    /// An allocator of the given memory kind with nothing assigned.
    pub fn create(storage_type: ImageStorageType) -> (r: GsImageAllocator)
        ensures
            r.storage_type == storage_type,
            r.image_infos@.len() == 0,
            r.samplers@ == Set::<u64>::empty(),
    {
        GsImageAllocator { storage_type, image_infos: Vec::new(), samplers: HashSet::new() }
    }

    /// Takes an image into the batch, with the sampler made for it if any: the
    /// image gets the next index.
    pub fn assign(&mut self, image_info: ImageAllotCI, sampler: Option<GsSamplerMirror>) -> (index: usize)
        ensures
            index == old(self).image_infos@.len(),
            final(self).image_infos@ == old(self).image_infos@.push(image_info),
            final(self).samplers@ == match sampler {
                Some(s) => old(self).samplers@.insert(s.0),
                None => old(self).samplers@,
            },
            final(self).storage_type == old(self).storage_type,
    {
        broadcast use vstd::std_specs::hash::group_hash_axioms;
        if let Some(s) = sampler {
            self.samplers.insert(s.0);
        }
        let index = self.image_infos.len();
        self.image_infos.push(image_info);
        index
    }

    /// Takes an image into the batch with what its instance is made of: the
    /// image gets the next index, and the sampler made for it, if any, joins the batch.
    pub fn assign_conveyed<I: IImageConveyor>(&mut self, image_info: ImageAllotCI, conveyor: I) -> (r: GsAssignIndex<I>)
        ensures
            r.assign_index == old(self).image_infos@.len(),
            r.convey_info == conveyor,
            final(self).image_infos@ == old(self).image_infos@.push(image_info),
            final(self).samplers@ == match conveyor.spec_sampler_mirror() {
                Some(s) => old(self).samplers@.insert(s.0),
                None => old(self).samplers@,
            },
            final(self).storage_type == old(self).storage_type,
    {
        let sampler = conveyor.sampler_mirror();
        let assign_index = self.assign(image_info, sampler);
        GsAssignIndex { convey_info: conveyor, assign_index }
    }

    /// Takes a sampler into the batch.
    pub fn assign_sampler(&mut self, sampler: &GsSampler)
        ensures
            final(self).samplers@ == old(self).samplers@.insert(sampler.handle),
            final(self).image_infos@ == old(self).image_infos@,
            final(self).storage_type == old(self).storage_type,
    {
        broadcast use vstd::std_specs::hash::group_hash_axioms;
        self.samplers.insert(sampler.mirror().0);
    }

    /// Takes every sampler of an array into the batch.
    pub fn assign_sampler_array(&mut self, array: &GsSamplerArray)
        ensures
            forall|h: u64| #[trigger] final(self).samplers@.contains(h) <==> (old(self).samplers@.contains(h) || array.handles@.contains(h)),
            final(self).image_infos@ == old(self).image_infos@,
            final(self).storage_type == old(self).storage_type,
    {
        broadcast use vstd::std_specs::hash::group_hash_axioms;
        let mirrors = array.mirrors();
        let mut k: usize = 0;
        while k < mirrors.len()
            invariant
                k <= mirrors@.len(),
                mirrors@.len() == array.handles@.len(),
                forall|q: int| 0 <= q < mirrors@.len() ==> (#[trigger] mirrors@[q]).0 == array.handles@[q],
                forall|h: u64| #[trigger] self.samplers@.contains(h) <==> (old(self).samplers@.contains(h) || array.handles@.take(k as int).contains(h)),
                self.image_infos@ == old(self).image_infos@,
                self.storage_type == old(self).storage_type,
            decreases mirrors.len() - k,
        {
            self.samplers.insert(mirrors[k].0);
            let ghost t0 = array.handles@.take(k as int);
            let ghost t1 = array.handles@.take(k + 1);
            assert(t1 =~= t0.push(array.handles@[k as int]));
            assert forall|h: u64| #[trigger] self.samplers@.contains(h) <==> (old(self).samplers@.contains(h) || t1.contains(h)) by {
                if t1.contains(h) && h != array.handles@[k as int] {
                    let i = choose|i: int| 0 <= i < t1.len() && t1[i] == h;
                    assert(t0[i] == h);
                }
                if t0.contains(h) {
                    let i = choose|i: int| 0 <= i < t0.len() && t0[i] == h;
                    assert(t1[i] == h);
                }
                if h == array.handles@[k as int] {
                    assert(t1[k as int] == h);
                }
            }
            k = k + 1;
        }
        assert(array.handles@.take(mirrors.len() as int) =~= array.handles@);
    }

    /// Forgets the images assigned so far (the samplers are kept).
    pub fn reset(&mut self)
        ensures
            final(self).image_infos@.len() == 0,
            final(self).samplers@ == old(self).samplers@,
            final(self).storage_type == old(self).storage_type,
    {
        self.image_infos.clear();
    }

    /// The memory of the batch: all images bound one after the other, in
    /// order, from the start. There must be images to allocate.
    pub fn memory_plan(&self) -> (r: Result<ImageMemoryPlan, VkError>)
        requires
            spec_space_sum(self.image_infos@, self.image_infos@.len()) <= u64::MAX,
        ensures
            r is Err <==> self.image_infos@.len() == 0,
            r matches Err(e) ==> (e.spec_kind() matches VkErrorKind::Other { description: d }
                && d@ == "There must be images appended to allocator before allocate memory."@),
            r matches Ok(plan) ==> {
                &&& plan.total_space == spec_space_sum(self.image_infos@, self.image_infos@.len())
                &&& plan.offsets@.len() == self.image_infos@.len()
                &&& forall|k: int| 0 <= k < plan.offsets@.len() ==> #[trigger] plan.offsets@[k] == spec_space_sum(self.image_infos@, k as nat)
            },
    {
        if self.image_infos.len() == 0 {
            return Err(VkError::other("There must be images appended to allocator before allocate memory."));
        }
        let ghost infos = self.image_infos@;
        let mut offsets: Vec<u64> = Vec::new();
        let mut offset: u64 = 0;
        let mut k: usize = 0;
        while k < self.image_infos.len()
            invariant
                k <= infos.len(),
                infos == self.image_infos@,
                spec_space_sum(infos, infos.len()) <= u64::MAX,
                offset == spec_space_sum(infos, k as nat),
                offsets@.len() == k,
                forall|q: int| 0 <= q < k ==> #[trigger] offsets@[q] == spec_space_sum(infos, q as nat),
            decreases infos.len() - k,
        {
            proof {
                lemma_space_sum_monotone(infos, (k + 1) as nat, infos.len());
            }
            offsets.push(offset);
            offset = offset + self.image_infos[k].space;
            k = k + 1;
        }
        Ok(ImageMemoryPlan { total_space: offset, offsets })
    }

    /// Plans the preparation of every image of the batch, group by group (see
    /// `collect_barrier_bundle`). It succeeds exactly when every sampled image
    /// has data to upload; then every sampled image ends readable from shaders
    /// and every depth-stencil attachment in its attachment layout.
    pub fn prepare_images(&mut self) -> (r: Result<Vec<BundlePlan>, VkError>)
        requires
            spec_batch_ready(old(self).image_infos@),
        ensures
            r is Ok <==> forall|j: int| 0 <= j < old(self).image_infos@.len() ==> (#[trigger] old(self).image_infos@[j]).typ.is_sampled_kind()
                ==> spec_has_upload_data(old(self).image_infos@[j]),
            r is Ok ==> final(self).image_infos@.len() == old(self).image_infos@.len(),
            r is Ok ==> forall|j: int| 0 <= j < old(self).image_infos@.len() ==> #[trigger] final(self).image_infos@[j] == spec_prepared(old(self).image_infos@[j]),
            r matches Ok(plans) ==> plans@.len() == spec_kinds(old(self).image_infos@, old(self).image_infos@.len()).len(),
            r matches Ok(plans) ==> forall|g: int| 0 <= g < plans@.len() ==> spec_plan_matches(
                #[trigger] plans@[g],
                old(self).image_infos@,
                spec_kinds(old(self).image_infos@, old(self).image_infos@.len())[g],
                spec_indices_of_type(
                    old(self).image_infos@,
                    spec_kinds(old(self).image_infos@, old(self).image_infos@.len())[g],
                    old(self).image_infos@.len(),
                ),
            ),
            r is Err ==> exists|g: int| #[trigger] spec_prepared_upto(old(self).image_infos@, final(self).image_infos@, g),
            final(self).samplers@ == old(self).samplers@,
            final(self).storage_type == old(self).storage_type,
    {
        let ghost infos0 = self.image_infos@;
        let ghost n = infos0.len();
        let ghost kinds = spec_kinds(infos0, n);
        let bundles = collect_barrier_bundle(&self.image_infos);
        proof {
            lemma_kinds_distinct(infos0, n);
        }
        let mut plans: Vec<BundlePlan> = Vec::new();
        let mut g: usize = 0;
        while g < bundles.len()
            invariant
                g <= bundles@.len(),
                bundles@.len() == kinds.len(),
                n == infos0.len(),
                infos0 == old(self).image_infos@,
                kinds == spec_kinds(infos0, n),
                kinds.no_duplicates(),
                forall|q: int| 0 <= q < bundles@.len() ==> spec_bundle_matches(
                    #[trigger] bundles@[q],
                    kinds[q],
                    spec_indices_of_type(infos0, kinds[q], n),
                ),
                spec_batch_ready(infos0),
                self.image_infos@.len() == n,
                forall|j: int| 0 <= j < n ==> #[trigger] self.image_infos@[j] == if kinds.take(g as int).contains(infos0[j].typ) {
                    spec_prepared(infos0[j])
                } else {
                    infos0[j]
                },
                forall|j: int| 0 <= j < n ==> kinds.take(g as int).contains((#[trigger] infos0[j]).typ) ==> (infos0[j].typ.is_sampled_kind()
                    ==> spec_has_upload_data(infos0[j])),
                plans@.len() == g,
                forall|q: int| 0 <= q < g ==> spec_plan_matches(
                    #[trigger] plans@[q],
                    infos0,
                    kinds[q],
                    spec_indices_of_type(infos0, kinds[q], n),
                ),
                self.samplers@ == old(self).samplers@,
                self.storage_type == old(self).storage_type,
            decreases bundles.len() - g,
        {
            let ghost t = kinds[g as int];
            let ghost idx = spec_indices_of_type(infos0, t, n);
            let ghost before = self.image_infos@;
            proof {
                assert(self.image_infos@.len() == self.image_infos.len());
                lemma_groups_partition(infos0, t, n);
                assert(kinds.take(g + 1) =~= kinds.take(g as int).push(t));
                // the images of this group are untouched so far
                assert forall|k: int| 0 <= k < idx.len() implies #[trigger] before[idx[k] as int] == infos0[idx[k] as int] by {
                    assert(idx.contains(idx[k]));
                    assert((idx[k] as int) as usize == idx[k]);
                    assert(infos0[idx[k] as int].typ == t);
                    if kinds.take(g as int).contains(t) {
                        let i = choose|i: int| 0 <= i < kinds.take(g as int).len() && #[trigger] kinds.take(g as int)[i] == t;
                        assert(kinds[i] == kinds[g as int]);
                    }
                }
            }
            let plan = match &bundles[g] {
                ImageBarrierBundle::Sample(b) => {
                    proof {
                        assert(spec_bundle_matches(bundles@[g as int], t, idx));
                        if spec_group_has_data(before, idx) {
                            // this group and every group before it have their data
                            assert forall|q: int| 0 <= q <= g implies spec_kind_has_data(infos0, #[trigger] kinds[q]) by {
                                if kinds[q].is_sampled_kind() {
                                    assert forall|j: int| 0 <= j < n && (#[trigger] infos0[j]).typ == kinds[q] implies spec_has_upload_data(infos0[j]) by {
                                        if q < g {
                                            assert(kinds.take(g as int)[q] == kinds[q]);
                                            assert(kinds.take(g as int).contains(infos0[j].typ));
                                        } else {
                                            assert((j as usize) as int == j);
                                            assert(idx.contains(j as usize));
                                            let k = choose|k: int| 0 <= k < idx.len() && idx[k] == j as usize;
                                            assert(spec_has_upload_data(before[idx[k] as int]));
                                            assert(before[idx[k] as int] == infos0[idx[k] as int]);
                                        }
                                    }
                                }
                            }
                            assert forall|k: int| 0 <= k < idx.len() implies {
                                let info = #[trigger] before[idx[k] as int];
                                &&& info.backend.image_ci.property.mipmap != MipmapMethod::BaseLevelBlit
                                &&& info.backend.image_ci.property.mipmap == MipmapMethod::StepBlit ==> 2
                                    <= info.backend.image_ci.property.mip_levels <= 32
                            } by {
                                assert(before[idx[k] as int] == infos0[idx[k] as int]);
                                assert(idx.contains(idx[k]));
                                assert((idx[k] as int) as usize == idx[k]);
                                let j = idx[k] as int;
                                assert(infos0[j].typ == kinds[g as int]);
                                assert(spec_batch_preparable(infos0[j]));
                            }
                        }
                    }
                    let p = b.make_barrier_transform(&mut self.image_infos);
                    match p {
                        Ok(p) => {
                            proof {
                                assert(spec_agree(before, infos0, idx));
                                lemma_upload_plan_agree(p, before, infos0, idx, t, spec_kind_stage(t));
                            }
                            BundlePlan::Sample(p)
                        },
                        Err(e) => {
                            proof {
                                let k = choose|k: int| 0 <= k < idx.len() && !spec_has_upload_data(#[trigger] before[idx[k] as int]);
                                assert(before[idx[k] as int] == infos0[idx[k] as int]);
                                assert(idx.contains(idx[k]));
                                let j = idx[k] as int;
                                assert((j as usize) == idx[k]);
                                assert(infos0[j].typ == t);
                                assert(t.is_sampled_kind());
                                assert(!spec_has_upload_data(infos0[j]));
                                assert(0 <= j < n);
                                assert(old(self).image_infos@[j] == infos0[j]);
                                assert(self.image_infos@ == before);
                                assert(spec_prepared_upto(infos0, self.image_infos@, g as int));
                            }
                            return Err(e);
                        },
                    }
                },
                ImageBarrierBundle::DepthStencil(b) => {
                    let p = b.make_barrier_transform(&mut self.image_infos);
                    proof {
                        assert(idx.map_values(|i: usize| spec_depth_barrier(before[i as int]))
                            =~= idx.map_values(|i: usize| spec_depth_barrier(infos0[i as int])));
                    }
                    BundlePlan::DepthStencil(p)
                },
            };
            plans.push(plan);
            proof {
                let k0 = kinds.take(g as int);
                let k1 = kinds.take(g + 1);
                assert(k1[g as int] == t);
                assert(self.image_infos@.len() == self.image_infos.len());
                assert forall|j: int| 0 <= j < n implies #[trigger] self.image_infos@[j] == if kinds.take(g + 1).contains(infos0[j].typ) {
                    spec_prepared(infos0[j])
                } else {
                    infos0[j]
                } by {
                    assert((j as usize) as int == j);
                    if infos0[j].typ == t {
                        assert(idx.contains(j as usize));
                        assert(before[j] == infos0[j]) by {
                            let k = choose|k: int| 0 <= k < idx.len() && idx[k] == j as usize;
                            assert(before[idx[k] as int] == infos0[idx[k] as int]);
                        }
                        assert(kinds.take(g + 1)[g as int] == t);
                    } else {
                        assert(!idx.contains(j as usize));
                        assert(kinds.take(g + 1).contains(infos0[j].typ) == kinds.take(g as int).contains(infos0[j].typ)) by {
                            if kinds.take(g + 1).contains(infos0[j].typ) {
                                let i = choose|i: int| 0 <= i < k1.len() && #[trigger] k1[i] == infos0[j].typ;
                                assert(i < g);
                                assert(kinds.take(g as int)[i] == infos0[j].typ);
                            }
                            if kinds.take(g as int).contains(infos0[j].typ) {
                                let i = choose|i: int| 0 <= i < k0.len() && #[trigger] k0[i] == infos0[j].typ;
                                assert(kinds.take(g + 1)[i] == infos0[j].typ);
                            }
                        }
                    }
                }
                assert forall|j: int| 0 <= j < n implies kinds.take(g + 1).contains((#[trigger] infos0[j]).typ) ==> (infos0[j].typ.is_sampled_kind()
                    ==> spec_has_upload_data(infos0[j])) by {
                    assert((j as usize) as int == j);
                    if infos0[j].typ == t {
                        if t.is_sampled_kind() {
                            assert(idx.contains(j as usize));
                            let k = choose|k: int| 0 <= k < idx.len() && idx[k] == j as usize;
                            assert(before[idx[k] as int] == infos0[idx[k] as int]);
                        }
                    } else if kinds.take(g + 1).contains(infos0[j].typ) {
                        let i = choose|i: int| 0 <= i < k1.len() && #[trigger] k1[i] == infos0[j].typ;
                        assert(i < g);
                        assert(kinds.take(g as int)[i] == infos0[j].typ);
                    }
                }
            }
            g = g + 1;
        }
        proof {
            assert(kinds.take(g as int) =~= kinds);
            assert(self.image_infos@.len() == self.image_infos.len());
            lemma_groups_partition(infos0, ImageInstanceType::DepthStencilAttachment, n);
        }
        Ok(plans)
    }
}

} // verus!
