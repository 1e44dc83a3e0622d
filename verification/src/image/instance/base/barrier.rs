//! Preparing a group of sampled images: uploading their data, generating
//! their mip-chains and making them readable from shaders.

use vstd::prelude::*;

use crate::consts::{ IMAGE_LAYOUT_SHADER_READ_ONLY_OPTIMAL, IMAGE_LAYOUT_TRANSFER_SRC_OPTIMAL, IMAGE_LAYOUT_TRANSFER_DST_OPTIMAL, ACCESS_SHADER_READ, ACCESS_TRANSFER_READ, ACCESS_TRANSFER_WRITE, PIPELINE_STAGE_TOP_OF_PIPE, PIPELINE_STAGE_TRANSFER, PIPELINE_STAGE_ALL_COMMANDS };
use crate::error::{ VkError, VkErrorKind };
use crate::image::enums::{ ImagePipelineStage, ImageInstanceType };
use crate::image::view::ImageSubRange;
use crate::image::storage::ImageSource;
use crate::image::copy::{ ImageFullCopyInfo, ImageRangesCopyInfo, layer_ranges, spec_layer_range };
use crate::image::barrier::{
    StageMasks,
    ImageBarrierCI, spec_barrier, spec_moved, transfer_dst_barrier, transfer_src_barrier, transition_barrier,
};
use crate::image::mipmap::MipmapMethod;
use crate::image::allocator::target::ImageAllotCI;
use crate::image::instance::base::mipmap::{
    MipmapBlitRound, generate_mipmaps, spec_round_count, spec_round_matches,
    spec_blit_layer_count,
};

verus! {

/// The preparation of a group of sampled images of one kind.
pub struct SampleImageBarrierBundle {
    pub image_type: ImageInstanceType,
    pub info_indices: Vec<usize>,
    pub dst_stage: ImagePipelineStage,
}

/// Where the uploaded data of one image goes: its base level as a whole,
/// or its base level layer by layer (cube maps).
pub enum ImageUploadCopy {
    Whole(ImageFullCopyInfo),
    PerLayer(ImageRangesCopyInfo),
}

/// The commands that prepare a group of sampled images, in recording order.
pub struct SampleImageUploadPlan {
    /// barriers from the top of the pipe to the transfer stage: every image's base level receives data.
    pub transfer_dst: Vec<ImageBarrierCI>,
    /// `copies[k]` copies staging block `k` into the `k`-th image of the group.
    pub copies: Vec<ImageUploadCopy>,
    /// barriers from the transfer stage to all commands: base levels that grow a chain become transfer sources.
    pub transfer_src: Vec<ImageBarrierCI>,
    /// the rounds of mip-chain generation.
    pub mip_rounds: Vec<MipmapBlitRound>,
    /// barriers from the transfer stage to the shader stage: every image becomes readable from shaders.
    pub shader_read: Vec<ImageBarrierCI>,
    /// the stages around each batch of barriers.
    pub transfer_dst_stages: StageMasks,
    pub transfer_src_stages: StageMasks,
    pub shader_read_stages: StageMasks,
}

/// Whether data is uploaded layer by layer into images of this kind.
pub open spec fn spec_per_layer(image_type: ImageInstanceType) -> bool {
    image_type is CubeMapImage
}

/// The range of an image's base level that receives its data.
pub open spec fn spec_upload_subrange(info: ImageAllotCI, per_layer: bool) -> ImageSubRange {
    if per_layer {
        info.backend.view_ci.subrange.spec_with_layer(0, info.backend.image_ci.property.array_layers).spec_with_mip_level(
            0,
            1,
        )
    } else {
        info.backend.view_ci.subrange.spec_with_mip_level(0, 1)
    }
}

/// The range of all the mip levels of an image.
pub open spec fn spec_all_levels(info: ImageAllotCI) -> ImageSubRange {
    info.backend.view_ci.subrange.spec_with_mip_level(0, info.backend.image_ci.property.mip_levels)
}

/// Whether the image grows a mip-chain.
pub open spec fn spec_has_chain(info: ImageAllotCI) -> bool {
    info.backend.image_ci.property.mipmap != MipmapMethod::Disable
}

/// The copy of one image matches `spec_upload_copy`: for per-layer copies,
/// one range per layer of the base level.
pub open spec fn spec_copy_matches(copy: ImageUploadCopy, info: ImageAllotCI, per_layer: bool) -> bool {
    let full = info.spec_full_copy_mipmap(0);
    match copy {
        ImageUploadCopy::Whole(c) => !per_layer && c == full,
        ImageUploadCopy::PerLayer(c) => {
            &&& per_layer
            &&& c.handle == full.handle
            &&& c.layout == full.layout
            &&& c.ranges@.len() == full.sub_resource_layers.layer_count
            &&& forall|i: int| 0 <= i < c.ranges@.len() ==> #[trigger] c.ranges@[i] == spec_layer_range(full, 0, i as u32)
        },
    }
}

/// The images of `infos` after the images `indices` are made readable from shaders.
pub open spec fn spec_shader_readable_all(infos: Seq<ImageAllotCI>, indices: Seq<usize>) -> Seq<ImageAllotCI> {
    Seq::new(
        infos.len(),
        |j: int|
            if indices.contains(j as usize) {
                spec_moved(infos[j], ACCESS_SHADER_READ, IMAGE_LAYOUT_SHADER_READ_ONLY_OPTIMAL)
            } else {
                infos[j]
            },
    )
}

/// `indices` are distinct indices of `infos`.
pub open spec fn spec_indices_of(infos: Seq<ImageAllotCI>, indices: Seq<usize>) -> bool {
    &&& indices.no_duplicates()
    &&& forall|k: int| 0 <= k < indices.len() ==> #[trigger] indices[k] < infos.len()
}

/// What the preparation of each image of a group asks: a chain, if any, is a
/// step chain of 2 to 32 levels.
pub open spec fn spec_preparable(infos: Seq<ImageAllotCI>, indices: Seq<usize>) -> bool {
    forall|k: int| 0 <= k < indices.len() ==> {
        let info = #[trigger] infos[indices[k] as int];
        &&& info.backend.image_ci.property.mipmap != MipmapMethod::BaseLevelBlit
        &&& info.backend.image_ci.property.mipmap == MipmapMethod::StepBlit ==> 2
            <= info.backend.image_ci.property.mip_levels <= 32
    }
}

/// Whether every image of the group `indices` has data to upload.
pub open spec fn spec_group_has_data(infos: Seq<ImageAllotCI>, indices: Seq<usize>) -> bool {
    forall|k: int| 0 <= k < indices.len() ==> spec_has_upload_data(#[trigger] infos[indices[k] as int])
}

/// Whether the image has data to upload.
pub open spec fn spec_has_upload_data(info: ImageAllotCI) -> bool {
    info.backend.storage.source is UploadData
}

proof fn lemma_not_in_prefix(indices: Seq<usize>, k: int)
    requires
        indices.no_duplicates(),
        0 <= k < indices.len(),
    ensures
        !indices.take(k).contains(indices[k]),
{
    if indices.take(k).contains(indices[k]) {
        let j = choose|j: int| 0 <= j < k && indices.take(k)[j] == indices[k];
        assert(indices[j] == indices[k]);
    }
}

/// The three moves an image of the group makes while it is prepared.
#[derive(Debug, Clone, Copy, PartialEq, Eq, Structural)]
pub enum PrepareMove {
    /// its base level becomes a transfer destination;
    TransferDst,
    /// its base level becomes a transfer source (only images that grow a chain);
    TransferSrc,
    /// all its levels become readable from shaders.
    ShaderRead,
}

impl PrepareMove {
    pub open spec fn access(self) -> u32 {
        match self {
            PrepareMove::TransferDst => ACCESS_TRANSFER_WRITE,
            PrepareMove::TransferSrc => ACCESS_TRANSFER_READ,
            PrepareMove::ShaderRead => ACCESS_SHADER_READ,
        }
    }

    pub open spec fn layout(self) -> i32 {
        match self {
            PrepareMove::TransferDst => IMAGE_LAYOUT_TRANSFER_DST_OPTIMAL,
            PrepareMove::TransferSrc => IMAGE_LAYOUT_TRANSFER_SRC_OPTIMAL,
            PrepareMove::ShaderRead => IMAGE_LAYOUT_SHADER_READ_ONLY_OPTIMAL,
        }
    }

    /// Whether the image makes this move.
    pub open spec fn applies(self, info: ImageAllotCI) -> bool {
        self != PrepareMove::TransferSrc || spec_has_chain(info)
    }

    /// The range of the image the move covers.
    pub open spec fn subrange(self, info: ImageAllotCI, per_layer: bool) -> ImageSubRange {
        if self == PrepareMove::ShaderRead {
            spec_all_levels(info)
        } else {
            spec_upload_subrange(info, per_layer)
        }
    }

    /// The barrier of the move.
    pub open spec fn barrier(self, info: ImageAllotCI, per_layer: bool) -> ImageBarrierCI {
        spec_barrier(
            info.image.handle,
            self.subrange(info, per_layer),
            info.current_access,
            self.access(),
            info.current_layout,
            self.layout(),
        )
    }
}

/// The images, in order, that make the move.
pub open spec fn spec_movers(infos: Seq<ImageAllotCI>, indices: Seq<usize>, m: PrepareMove) -> Seq<usize>
    decreases indices.len(),
{
    if indices.len() == 0 {
        seq![]
    } else {
        let rest = spec_movers(infos, indices.drop_last(), m);
        if m.applies(infos[indices.last() as int]) {
            rest.push(indices.last())
        } else {
            rest
        }
    }
}

/// The images of `infos` after the images `indices` make the move `m`.
pub open spec fn spec_after_move(infos: Seq<ImageAllotCI>, indices: Seq<usize>, m: PrepareMove) -> Seq<ImageAllotCI> {
    Seq::new(
        infos.len(),
        |j: int|
            if indices.contains(j as usize) && m.applies(infos[j]) {
                spec_moved(infos[j], m.access(), m.layout())
            } else {
                infos[j]
            },
    )
}

/// An image is ready to become readable from shaders: its base level was
/// last written if it grows no chain, and is a transfer source if it does.
pub open spec fn spec_ready_for_shader_read(info: ImageAllotCI) -> bool {
    if spec_has_chain(info) {
        info.current_access == ACCESS_TRANSFER_READ && info.current_layout == IMAGE_LAYOUT_TRANSFER_SRC_OPTIMAL
    } else {
        info.current_access == ACCESS_TRANSFER_WRITE && info.current_layout == IMAGE_LAYOUT_TRANSFER_DST_OPTIMAL
    }
}

/// Makes all the levels of the image readable from shaders; the image must
/// have just been written, or have just finished its chain.
pub fn shader_read_barrier(info: &mut ImageAllotCI, subrange: ImageSubRange) -> (r: ImageBarrierCI)
    requires
        spec_ready_for_shader_read(*old(info)),
    ensures
        r == spec_barrier(
            old(info).image.handle,
            subrange,
            old(info).current_access,
            ACCESS_SHADER_READ,
            old(info).current_layout,
            IMAGE_LAYOUT_SHADER_READ_ONLY_OPTIMAL,
        ),
        *final(info) == spec_moved(*old(info), ACCESS_SHADER_READ, IMAGE_LAYOUT_SHADER_READ_ONLY_OPTIMAL),
{
    transition_barrier(info, subrange, ACCESS_SHADER_READ, IMAGE_LAYOUT_SHADER_READ_ONLY_OPTIMAL)
}

/// Makes every image of the group that it applies to make the move `m`, and
/// returns the barriers, in the order of the group.
fn move_group(infos: &mut Vec<ImageAllotCI>, indices: &Vec<usize>, per_layer: bool, m: PrepareMove) -> (barriers: Vec<ImageBarrierCI>)
    requires
        spec_indices_of(old(infos)@, indices@),
        m == PrepareMove::ShaderRead ==> forall|k: int| 0 <= k < indices@.len() ==>
            spec_ready_for_shader_read(#[trigger] old(infos)@[indices@[k] as int]),
    ensures
        barriers@ == spec_movers(old(infos)@, indices@, m).map_values(|i: usize| m.barrier(old(infos)@[i as int], per_layer)),
        final(infos)@ == spec_after_move(old(infos)@, indices@, m),
{
    let ghost infos0 = infos@;
    let mut barriers: Vec<ImageBarrierCI> = Vec::new();
    let mut k: usize = 0;
    assert(indices@.take(0) =~= Seq::<usize>::empty());
    assert(infos@ =~= spec_after_move(infos0, indices@.take(0), m));
    while k < indices.len()
        invariant
            k <= indices.len(),
            spec_indices_of(infos0, indices@),
            m == PrepareMove::ShaderRead ==> forall|k: int| 0 <= k < indices@.len() ==>
                spec_ready_for_shader_read(#[trigger] infos0[indices@[k] as int]),
            infos@ == spec_after_move(infos0, indices@.take(k as int), m),
            barriers@ == spec_movers(infos0, indices@.take(k as int), m).map_values(|i: usize| m.barrier(infos0[i as int], per_layer)),
        decreases indices.len() - k,
    {
        let index = indices[k];
        let ghost p0 = indices@.take(k as int);
        let ghost p1 = indices@.take(k + 1);
        proof {
            lemma_not_in_prefix(indices@, k as int);
            assert(p1.drop_last() =~= p0);
            assert(p1.last() == index);
        }
        assert(infos@[index as int] == infos0[index as int]);
        let applies = match m {
            PrepareMove::TransferSrc => infos[index].backend.image_ci.property.mipmap != MipmapMethod::Disable,
            _ => true,
        };
        if applies {
            let barrier = match m {
                PrepareMove::TransferDst | PrepareMove::TransferSrc => {
                    let subrange = if per_layer {
                        infos[index].backend.view_ci.subrange.with_layer(0, infos[index].backend.image_ci.property.array_layers).with_mip_level(0, 1)
                    } else {
                        infos[index].backend.view_ci.subrange.with_mip_level(0, 1)
                    };
                    if m == PrepareMove::TransferDst {
                        transfer_dst_barrier(&mut infos[index], subrange)
                    } else {
                        transfer_src_barrier(&mut infos[index], subrange)
                    }
                },
                PrepareMove::ShaderRead => {
                    let subrange = infos[index].backend.view_ci.subrange.with_mip_level(0, infos[index].backend.image_ci.property.mip_levels);
                    proof {
                        assert(p1[k as int] == index);
                        assert(spec_ready_for_shader_read(infos0[indices@[k as int] as int]));
                    }
                    shader_read_barrier(&mut infos[index], subrange)
                },
            };
            barriers.push(barrier);
        }
        proof {
            assert(infos.len() == infos@.len());
            assert forall|j: int| 0 <= j < infos0.len() implies #[trigger] infos@[j] == spec_after_move(infos0, p1, m)[j] by {
                assert((j as usize) as int == j);
                if j != index as int {
                    assert(p1.contains(j as usize) == p0.contains(j as usize)) by {
                        if p1.contains(j as usize) {
                            let q = choose|q: int| 0 <= q < p1.len() && #[trigger] p1[q] == j as usize;
                            assert(q < k);
                            assert(p0[q] == j as usize);
                        }
                        if p0.contains(j as usize) {
                            let q = choose|q: int| 0 <= q < p0.len() && #[trigger] p0[q] == j as usize;
                            assert(p1[q] == j as usize);
                        }
                    }
                } else {
                    assert(p1[k as int] == index);
                }
            }
            assert(infos@ =~= spec_after_move(infos0, p1, m));
            assert(barriers@ =~= spec_movers(infos0, p1, m).map_values(|i: usize| m.barrier(infos0[i as int], per_layer)));
        }
        k = k + 1;
    }
    assert(indices@.take(indices.len() as int) =~= indices@);
    barriers
}


/// The copies that upload the data of the group, one for each image in order;
/// the base level of each image must be a transfer destination.
fn upload_copies(infos: &Vec<ImageAllotCI>, indices: &Vec<usize>, per_layer: bool) -> (copies: Vec<ImageUploadCopy>)
    requires
        forall|k: int| 0 <= k < indices@.len() ==> #[trigger] indices@[k] < infos@.len()
            && infos@[indices@[k] as int].current_layout == IMAGE_LAYOUT_TRANSFER_DST_OPTIMAL,
    ensures
        copies@.len() == indices@.len(),
        forall|k: int| 0 <= k < indices@.len() ==> spec_copy_matches(#[trigger] copies@[k], infos@[indices@[k] as int], per_layer),
{
    let mut copies: Vec<ImageUploadCopy> = Vec::new();
    let mut k: usize = 0;
    while k < indices.len()
        invariant
            k <= indices.len(),
            forall|k: int| 0 <= k < indices@.len() ==> #[trigger] indices@[k] < infos@.len()
                && infos@[indices@[k] as int].current_layout == IMAGE_LAYOUT_TRANSFER_DST_OPTIMAL,
            copies@.len() == k,
            forall|q: int| 0 <= q < k ==> spec_copy_matches(#[trigger] copies@[q], infos@[indices@[q] as int], per_layer),
        decreases indices.len() - k,
    {
        let index = indices[k];
        assert(indices@[k as int] == index);
        let full = infos[index].full_copy_mipmap(0);
        let copy = if per_layer {
            ImageUploadCopy::PerLayer(layer_ranges(full, 0))
        } else {
            ImageUploadCopy::Whole(full)
        };
        copies.push(copy);
        k = k + 1;
    }
    copies
}

/// Fails unless every image of the group has data to upload.
pub fn check_upload_data(infos: &Vec<ImageAllotCI>, indices: &Vec<usize>) -> (r: Result<(), VkError>)
    requires
        forall|k: int| 0 <= k < indices@.len() ==> #[trigger] indices@[k] < infos@.len(),
    ensures
        r is Ok <==> spec_group_has_data(infos@, indices@),
        r matches Err(e) ==> (e.spec_kind() matches VkErrorKind::Other { description: d }
            && d@ == "The data of sample image is missing."@),
{
    let mut k: usize = 0;
    while k < indices.len()
        invariant
            k <= indices.len(),
            forall|k: int| 0 <= k < indices@.len() ==> #[trigger] indices@[k] < infos@.len(),
            forall|q: int| 0 <= q < k ==> spec_has_upload_data(#[trigger] infos@[indices@[q] as int]),
        decreases indices.len() - k,
    {
        let index = indices[k];
        assert(indices@[k as int] == index);
        match &infos[index].backend.storage.source {
            ImageSource::UploadData(_) => {},
            _ => {
                return Err(VkError::other("The data of sample image is missing."));
            },
        }
        k = k + 1;
    }
    Ok(())
}

/// The commands that prepare the group `idx` of images of kind `image_type`
/// for shaders at `dst_stage`, starting from `infos0`: each batch of barriers
/// moves the images from where the previous step left them.
pub open spec fn spec_upload_plan(
    plan: SampleImageUploadPlan,
    infos0: Seq<ImageAllotCI>,
    idx: Seq<usize>,
    image_type: ImageInstanceType,
    dst_stage: ImagePipelineStage,
) -> bool {
    let per_layer = spec_per_layer(image_type);
    let infos1 = spec_after_move(infos0, idx, PrepareMove::TransferDst);
    let infos2 = spec_after_move(infos1, idx, PrepareMove::TransferSrc);
    &&& plan.transfer_dst@ == idx.map_values(|i: usize| PrepareMove::TransferDst.barrier(infos0[i as int], per_layer))
    &&& plan.copies@.len() == idx.len()
    &&& forall|k: int| 0 <= k < idx.len() ==> spec_copy_matches(#[trigger] plan.copies@[k], infos1[idx[k] as int], per_layer)
    &&& plan.transfer_src@ == spec_movers(infos1, idx, PrepareMove::TransferSrc).map_values(
        |i: usize| PrepareMove::TransferSrc.barrier(infos1[i as int], per_layer),
    )
    &&& plan.mip_rounds@.len() == spec_round_count(infos2, idx)
    &&& forall|q: int| 0 <= q < plan.mip_rounds@.len() ==> spec_round_matches(
        #[trigger] plan.mip_rounds@[q],
        infos2,
        idx,
        (q + 1) as u32,
        spec_blit_layer_count(image_type),
    )
    &&& plan.shader_read@ == idx.map_values(|i: usize| PrepareMove::ShaderRead.barrier(infos2[i as int], per_layer))
    &&& plan.transfer_dst_stages == (StageMasks { src: PIPELINE_STAGE_TOP_OF_PIPE, dst: PIPELINE_STAGE_TRANSFER })
    &&& plan.transfer_src_stages == (StageMasks { src: PIPELINE_STAGE_TRANSFER, dst: PIPELINE_STAGE_ALL_COMMANDS })
    &&& plan.shader_read_stages == (StageMasks { src: PIPELINE_STAGE_TRANSFER, dst: dst_stage.spec_stage_flags() })
}

proof fn lemma_movers_all(infos: Seq<ImageAllotCI>, indices: Seq<usize>, m: PrepareMove)
    requires
        m != PrepareMove::TransferSrc,
    ensures
        spec_movers(infos, indices, m) == indices,
    decreases indices.len(),
{
    if indices.len() > 0 {
        lemma_movers_all(infos, indices.drop_last(), m);
        assert(indices.drop_last().push(indices.last()) =~= indices);
    }
}

impl SampleImageBarrierBundle {
    pub fn new(dst_stage: ImagePipelineStage, image_type: ImageInstanceType, indices: Vec<usize>) -> (r: SampleImageBarrierBundle)
        ensures
            r.dst_stage == dst_stage,
            r.image_type == image_type,
            r.info_indices == indices,
    {
        SampleImageBarrierBundle { image_type, info_indices: indices, dst_stage }
    }

    /// Plans the preparation of the group: its data is checked to be there,
    /// every base level is made a transfer destination and receives its data;
    /// the images that grow a chain get their base level made a transfer source
    /// and their chain generated; then every image is made readable from
    /// shaders. On success every image of the group ends readable from shaders
    /// and no other image is touched; on failure nothing is touched.
    pub fn make_barrier_transform(&self, infos: &mut Vec<ImageAllotCI>) -> (r: Result<SampleImageUploadPlan, VkError>)
        requires
            self.image_type.is_sampled_kind(),
            forall|k: int| 0 <= k < self.info_indices@.len() ==> #[trigger] self.info_indices@[k] < old(infos)@.len(),
            spec_group_has_data(old(infos)@, self.info_indices@) ==> spec_indices_of(old(infos)@, self.info_indices@)
                && spec_preparable(old(infos)@, self.info_indices@),
        ensures
            r is Ok <==> spec_group_has_data(old(infos)@, self.info_indices@),
            r is Err ==> final(infos)@ == old(infos)@,
            r matches Err(e) ==> (e.spec_kind() matches VkErrorKind::Other { description: d }
                && d@ == "The data of sample image is missing."@),
            r is Ok ==> final(infos)@ == spec_shader_readable_all(old(infos)@, self.info_indices@),
            r matches Ok(plan) ==> spec_upload_plan(plan, old(infos)@, self.info_indices@, self.image_type, self.dst_stage),
    {
        let ghost infos0 = infos@;
        let ghost idx = self.info_indices@;
        check_upload_data(infos, &self.info_indices)?;
        let per_layer = match self.image_type {
            ImageInstanceType::CubeMapImage { .. } => true,
            _ => false,
        };
        let transfer_dst = move_group(infos, &self.info_indices, per_layer, PrepareMove::TransferDst);
        let ghost infos1 = infos@;
        proof {
            lemma_movers_all(infos0, idx, PrepareMove::TransferDst);
            assert forall|k: int| 0 <= k < idx.len() implies #[trigger] idx[k] < infos1.len()
                && infos1[idx[k] as int].current_layout == IMAGE_LAYOUT_TRANSFER_DST_OPTIMAL by {
                assert(idx.contains(idx[k]));
                assert((idx[k] as int) as usize == idx[k]);
            }
        }
        let copies = upload_copies(infos, &self.info_indices, per_layer);
        let transfer_src = move_group(infos, &self.info_indices, per_layer, PrepareMove::TransferSrc);
        let ghost infos2 = infos@;
        proof {
            crate::image::instance::base::mipmap::lemma_dedup_distinct(idx);
            assert forall|k: int| 0 <= k < idx.len() implies {
                &&& #[trigger] idx[k] < infos2.len()
                &&& crate::image::instance::base::mipmap::spec_ready_for_mip_generation(infos2[idx[k] as int])
            } by {
                assert(idx.contains(idx[k]));
                assert((idx[k] as int) as usize == idx[k]);
                assert(infos0[idx[k] as int] == infos0[idx[k] as int]);
            }
        }
        let mip_rounds = generate_mipmaps(&self.image_type, &self.info_indices, infos);
        proof {
            assert forall|k: int| 0 <= k < idx.len() implies spec_ready_for_shader_read(#[trigger] infos@[idx[k] as int]) by {
                assert(idx.contains(idx[k]));
                assert((idx[k] as int) as usize == idx[k]);
            }
        }
        let shader_read = move_group(infos, &self.info_indices, per_layer, PrepareMove::ShaderRead);
        proof {
            lemma_movers_all(infos2, idx, PrepareMove::ShaderRead);
            assert(infos@ =~= spec_shader_readable_all(infos0, idx));
        }
        let transfer_dst_stages = StageMasks { src: PIPELINE_STAGE_TOP_OF_PIPE, dst: PIPELINE_STAGE_TRANSFER };
        let transfer_src_stages = StageMasks { src: PIPELINE_STAGE_TRANSFER, dst: PIPELINE_STAGE_ALL_COMMANDS };
        let shader_read_stages = StageMasks { src: PIPELINE_STAGE_TRANSFER, dst: self.dst_stage.stage_flags() };
        Ok(SampleImageUploadPlan {
            transfer_dst,
            copies,
            transfer_src,
            mip_rounds,
            shader_read,
            transfer_dst_stages,
            transfer_src_stages,
            shader_read_stages,
        })
    }
}

} // verus!
