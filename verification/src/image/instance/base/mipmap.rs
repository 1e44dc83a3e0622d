//! Planning the generation of the mip-chains of a group of images.
//!
//! Each round produces one more mip level of every image still growing its
//! chain: the level is made ready, blitted from the level above, and turned
//! into the source of the next round.

use vstd::prelude::*;

use crate::consts::{ IMAGE_LAYOUT_TRANSFER_SRC_OPTIMAL, ACCESS_TRANSFER_READ, PIPELINE_STAGE_TOP_OF_PIPE, PIPELINE_STAGE_TRANSFER };
use crate::image::enums::ImageInstanceType;
use crate::image::view::ImageSubRange;
use crate::image::barrier::{ ImageBarrierCI, StageMasks };
use crate::image::allocator::target::ImageAllotCI;
use crate::image::mipmap::{
    MipmapMethod, MipmapBlitInfo, blit_info, blit_src_barrier, blit_dst_barrier,
    spec_blit_info, spec_blit_src_barrier, spec_blit_dst_barrier,
};

verus! {

/// The barriers and blits of one round of mip-chain generation, in recording order:
/// first all `prepare` barriers, then the blits, then all `finish` barriers.
pub struct MipmapBlitRound {
    pub prepare: Vec<ImageBarrierCI>,
    pub blits: Vec<MipmapBlitInfo>,
    pub finish: Vec<ImageBarrierCI>,
    /// the stages around the `prepare` barriers: from the top of the pipe to the transfer stage.
    pub prepare_stages: StageMasks,
    /// the stages around the `finish` barriers: from the transfer stage to the transfer stage.
    pub finish_stages: StageMasks,
}

/// The number of layers blitted at once for an image of the given kind.
pub open spec fn spec_blit_layer_count(image_type: ImageInstanceType) -> u32 {
    match image_type {
        ImageInstanceType::CubeMapImage { .. } => 6,
        _ => 1,
    }
}

/// The number of layers blitted at once for an image of the given kind;
/// depth-stencil images have no mip-chain.
pub fn blit_layer_count(image_type: &ImageInstanceType) -> (r: u32)
    requires
        image_type.is_sampled_kind(),
    ensures
        r == spec_blit_layer_count(*image_type),
{
    match image_type {
        ImageInstanceType::CombinedImageSampler { .. } | ImageInstanceType::SampledImage { .. } => 1,
        ImageInstanceType::CubeMapImage { .. } => 6,
        _ => 1,
    }
}

/// An image is ready for its mip-chain to be generated: it does not ask for a
/// base-level blit chain, and if it asks for a step chain, that chain has 2 to 32
/// levels and its base level is a transfer source.
pub open spec fn spec_ready_for_mip_generation(info: ImageAllotCI) -> bool {
    &&& info.backend.image_ci.property.mipmap != MipmapMethod::BaseLevelBlit
    &&& info.backend.image_ci.property.mipmap == MipmapMethod::StepBlit ==> {
        &&& 2 <= info.backend.image_ci.property.mip_levels <= 32
        &&& info.current_access == ACCESS_TRANSFER_READ
        &&& info.current_layout == IMAGE_LAYOUT_TRANSFER_SRC_OPTIMAL
    }
}

/// Every index is that of an image of `infos` ready for mip-chain generation.
pub open spec fn spec_all_ready(infos: Seq<ImageAllotCI>, indices: Seq<usize>) -> bool {
    forall|k: int| 0 <= k < indices.len() ==> {
        &&& #[trigger] indices[k] < infos.len()
        &&& spec_ready_for_mip_generation(infos[indices[k] as int])
    }
}

/// The range of mip level `level` alone.
pub open spec fn spec_level_subrange(info: ImageAllotCI, level: u32) -> ImageSubRange {
    info.backend.view_ci.subrange.spec_with_mip_level(level, 1)
}

/// Whether the image gets mip level `level` blitted.
pub open spec fn spec_blits_at(info: ImageAllotCI, level: u32) -> bool {
    info.backend.image_ci.property.mipmap == MipmapMethod::StepBlit && level
        < info.backend.image_ci.property.mip_levels
}

/// The images, in order, that get mip level `level` blitted.
pub open spec fn spec_blitting(infos: Seq<ImageAllotCI>, cands: Seq<usize>, level: u32) -> Seq<usize>
    decreases cands.len(),
{
    if cands.len() == 0 {
        seq![]
    } else {
        let rest = spec_blitting(infos, cands.drop_last(), level);
        if spec_blits_at(infos[cands.last() as int], level) {
            rest.push(cands.last())
        } else {
            rest
        }
    }
}

/// The number of rounds one image takes part in.
pub open spec fn spec_chain_rounds(info: ImageAllotCI) -> nat {
    if info.backend.image_ci.property.mipmap == MipmapMethod::StepBlit
        && info.backend.image_ci.property.mip_levels >= 1 {
        (info.backend.image_ci.property.mip_levels - 1) as nat
    } else {
        0
    }
}

/// The number of rounds of the whole group: that of its longest chain.
pub open spec fn spec_round_count(infos: Seq<ImageAllotCI>, cands: Seq<usize>) -> nat
    decreases cands.len(),
{
    if cands.len() == 0 {
        0
    } else {
        let rest = spec_round_count(infos, cands.drop_last());
        let own = spec_chain_rounds(infos[cands.last() as int]);
        if rest >= own { rest } else { own }
    }
}

/// The indices in order of first occurrence, each once.
pub open spec fn spec_dedup(s: Seq<usize>) -> Seq<usize>
    decreases s.len(),
{
    if s.len() == 0 {
        seq![]
    } else {
        let p = spec_dedup(s.drop_last());
        if p.contains(s.last()) { p } else { p.push(s.last()) }
    }
}

/// The round that produces mip level `level`.
pub open spec fn spec_round_matches(
    round: MipmapBlitRound,
    infos: Seq<ImageAllotCI>,
    cands: Seq<usize>,
    level: u32,
    layer_count: u32,
) -> bool {
    let act = spec_blitting(infos, cands, level);
    &&& round.prepare_stages == (StageMasks { src: PIPELINE_STAGE_TOP_OF_PIPE, dst: PIPELINE_STAGE_TRANSFER })
    &&& round.finish_stages == (StageMasks { src: PIPELINE_STAGE_TRANSFER, dst: PIPELINE_STAGE_TRANSFER })
    &&& round.prepare@ == act.map_values(
        |i: usize| spec_blit_src_barrier(infos[i as int], spec_level_subrange(infos[i as int], level)),
    )
    &&& round.blits@ == act.map_values(|i: usize| spec_blit_info(infos[i as int], level, layer_count))
    &&& round.finish@ == act.map_values(
        |i: usize| spec_blit_dst_barrier(infos[i as int], spec_level_subrange(infos[i as int], level)),
    )
}

proof fn lemma_dedup_members(s: Seq<usize>)
    ensures
        forall|x: usize| spec_dedup(s).contains(x) ==> s.contains(x),
        spec_dedup(s).no_duplicates(),
        forall|x: usize| s.contains(x) ==> spec_dedup(s).contains(x),
    decreases s.len(),
{
    if s.len() > 0 {
        lemma_dedup_members(s.drop_last());
        let p = spec_dedup(s.drop_last());
        assert forall|x: usize| spec_dedup(s).contains(x) implies s.contains(x) by {
            if p.contains(x) {
                assert(s.drop_last().contains(x));
                let j = choose|j: int| 0 <= j < s.drop_last().len() && s.drop_last()[j] == x;
                assert(s[j] == x);
            } else {
                assert(x == s.last());
                assert(s[s.len() - 1] == x);
            }
        }
        assert forall|x: usize| s.contains(x) implies spec_dedup(s).contains(x) by {
            let j = choose|j: int| 0 <= j < s.len() && s[j] == x;
            if j < s.len() - 1 {
                assert(s.drop_last()[j] == x);
                assert(s.drop_last().contains(x));
                assert(p.contains(x));
                if !p.contains(s.last()) {
                    let k = choose|k: int| 0 <= k < p.len() && p[k] == x;
                    assert(p.push(s.last())[k] == x);
                }
            } else {
                if !p.contains(s.last()) {
                    assert(p.push(s.last())[p.len() as int] == x);
                }
            }
        }
    }
}

/// Indices given without repetition are kept as they are.
pub proof fn lemma_dedup_distinct(s: Seq<usize>)
    requires
        s.no_duplicates(),
    ensures
        spec_dedup(s) == s,
    decreases s.len(),
{
    if s.len() > 0 {
        let d = s.drop_last();
        assert(d.no_duplicates());
        lemma_dedup_distinct(d);
        if d.contains(s.last()) {
            let j = choose|j: int| 0 <= j < d.len() && d[j] == s.last();
            assert(s[j] == s[s.len() - 1]);
        }
        assert(d.push(s.last()) =~= s);
    }
}

proof fn lemma_blitting_len_monotone(infos: Seq<ImageAllotCI>, cands: Seq<usize>, level: u32)
    ensures
        cands.len() > 0 ==> spec_blitting(infos, cands.drop_last(), level).len() <= spec_blitting(
            infos,
            cands,
            level,
        ).len(),
{
}

/// Every round of a group has at least one image to blit.
proof fn lemma_round_nonempty(infos: Seq<ImageAllotCI>, cands: Seq<usize>, level: u32)
    requires
        1 <= level <= spec_round_count(infos, cands),
    ensures
        spec_blitting(infos, cands, level).len() > 0,
    decreases cands.len(),
{
    if cands.len() > 0 {
        let rest = spec_round_count(infos, cands.drop_last());
        if level <= rest {
            lemma_round_nonempty(infos, cands.drop_last(), level);
            lemma_blitting_len_monotone(infos, cands, level);
        } else {
            assert(spec_blits_at(infos[cands.last() as int], level));
        }
    }
}

fn contains_index(v: &Vec<usize>, x: usize) -> (r: bool)
    ensures
        r == v@.contains(x),
{
    let mut i: usize = 0;
    while i < v.len()
        invariant
            i <= v.len(),
            forall|j: int| 0 <= j < i ==> v@[j] != x,
        decreases v.len() - i,
    {
        if v[i] == x {
            return true;
        }
        i = i + 1;
    }
    false
}

/// The indices in order of first occurrence, each once.
pub fn dedup_indices(indices: &Vec<usize>) -> (r: Vec<usize>)
    ensures
        r@ == spec_dedup(indices@),
{
    let mut r: Vec<usize> = Vec::new();
    let mut k: usize = 0;
    while k < indices.len()
        invariant
            k <= indices.len(),
            r@ == spec_dedup(indices@.take(k as int)),
        decreases indices.len() - k,
    {
        assert(indices@.take(k + 1).drop_last() =~= indices@.take(k as int));
        let x = indices[k];
        if !contains_index(&r, x) {
            r.push(x);
        }
        k = k + 1;
    }
    assert(indices@.take(indices.len() as int) =~= indices@);
    r
}

fn round_count(infos: &Vec<ImageAllotCI>, cands: &Vec<usize>) -> (r: u32)
    requires
        spec_all_ready(infos@, cands@),
    ensures
        r == spec_round_count(infos@, cands@),
        r <= 31,
{
    let mut r: u32 = 0;
    let mut k: usize = 0;
    while k < cands.len()
        invariant
            k <= cands.len(),
            spec_all_ready(infos@, cands@),
            r == spec_round_count(infos@, cands@.take(k as int)),
            r <= 31,
        decreases cands.len() - k,
    {
        assert(cands@.take(k + 1).drop_last() =~= cands@.take(k as int));
        let index = cands[k];
        assert(cands@[k as int] == index);
        let info = &infos[index];
        let own: u32 = if info.backend.image_ci.property.mipmap == MipmapMethod::StepBlit {
            info.backend.image_ci.property.mip_levels - 1
        } else {
            0
        };
        if own > r {
            r = own;
        }
        k = k + 1;
    }
    assert(cands@.take(cands.len() as int) =~= cands@);
    r
}

/// The round that produces mip level `level` of every image of `cands` still growing its chain.
fn build_round(infos: &mut Vec<ImageAllotCI>, cands: &Vec<usize>, level: u32, layer_count: u32) -> (round: MipmapBlitRound)
    requires
        1 <= level < 32,
        spec_all_ready(old(infos)@, cands@),
    ensures
        final(infos)@ == old(infos)@,
        spec_round_matches(round, old(infos)@, cands@, level, layer_count),
{
    let ghost infos0 = infos@;
    let mut prepare: Vec<ImageBarrierCI> = Vec::new();
    let mut blits: Vec<MipmapBlitInfo> = Vec::new();
    let mut finish: Vec<ImageBarrierCI> = Vec::new();
    let prepare_stages = StageMasks { src: PIPELINE_STAGE_TOP_OF_PIPE, dst: PIPELINE_STAGE_TRANSFER };
    let finish_stages = StageMasks { src: PIPELINE_STAGE_TRANSFER, dst: PIPELINE_STAGE_TRANSFER };
    let mut k: usize = 0;
    proof {
        let e = spec_blitting(infos0, cands@.take(0), level);
        assert(cands@.take(0) =~= Seq::<usize>::empty());
        assert(prepare@ =~= e.map_values(
            |i: usize| spec_blit_src_barrier(infos0[i as int], spec_level_subrange(infos0[i as int], level)),
        ));
        assert(blits@ =~= e.map_values(|i: usize| spec_blit_info(infos0[i as int], level, layer_count)));
        assert(finish@ =~= e.map_values(
            |i: usize| spec_blit_dst_barrier(infos0[i as int], spec_level_subrange(infos0[i as int], level)),
        ));
    }
    while k < cands.len()
        invariant
            k <= cands.len(),
            1 <= level < 32,
            infos@ == infos0,
            spec_all_ready(infos0, cands@),
            prepare_stages == (StageMasks { src: PIPELINE_STAGE_TOP_OF_PIPE, dst: PIPELINE_STAGE_TRANSFER }),
            finish_stages == (StageMasks { src: PIPELINE_STAGE_TRANSFER, dst: PIPELINE_STAGE_TRANSFER }),
            spec_round_matches(
                MipmapBlitRound { prepare, blits, finish, prepare_stages, finish_stages },
                infos0,
                cands@.take(k as int),
                level,
                layer_count,
            ),
        decreases cands.len() - k,
    {
        let ghost before = spec_blitting(infos0, cands@.take(k as int), level);
        assert(cands@.take(k + 1).drop_last() =~= cands@.take(k as int));
        let index = cands[k];
        assert(cands@[k as int] == index);
        if infos[index].backend.image_ci.property.mipmap == MipmapMethod::StepBlit
            && level < infos[index].backend.image_ci.property.mip_levels {
            let subrange = infos[index].backend.view_ci.subrange.with_mip_level(level, 1);
            let info = &mut infos[index];
            let pre = blit_src_barrier(info, subrange);
            let blit = blit_info(info, level, layer_count);
            let fin = blit_dst_barrier(info, subrange);
            prepare.push(pre);
            blits.push(blit);
            finish.push(fin);
            assert(infos@ =~= infos0);
            let ghost after = before.push(index);
            assert(prepare@ =~= after.map_values(
                |i: usize| spec_blit_src_barrier(infos0[i as int], spec_level_subrange(infos0[i as int], level)),
            ));
            assert(blits@ =~= after.map_values(|i: usize| spec_blit_info(infos0[i as int], level, layer_count)));
            assert(finish@ =~= after.map_values(
                |i: usize| spec_blit_dst_barrier(infos0[i as int], spec_level_subrange(infos0[i as int], level)),
            ));
        }
        k = k + 1;
    }
    assert(cands@.take(cands.len() as int) =~= cands@);
    MipmapBlitRound { prepare, blits, finish, prepare_stages, finish_stages }
}

/// Plans the generation of the mip-chains of the images `info_indices` of
/// `infos`, all of kind `image_type`: round `r` (from 0) produces mip level
/// `r + 1` of every image whose chain is longer than that. Every round has
/// something to blit, and every image ends in the state it started in: its
/// last level is a transfer source.
pub fn generate_mipmaps(
    image_type: &ImageInstanceType,
    info_indices: &Vec<usize>,
    infos: &mut Vec<ImageAllotCI>,
) -> (rounds: Vec<MipmapBlitRound>)
    requires
        image_type.is_sampled_kind(),
        spec_all_ready(old(infos)@, info_indices@),
    ensures
        final(infos)@ == old(infos)@,
        rounds@.len() == spec_round_count(old(infos)@, spec_dedup(info_indices@)),
        forall|r: int| 0 <= r < rounds@.len() ==> spec_round_matches(
            #[trigger] rounds@[r],
            old(infos)@,
            spec_dedup(info_indices@),
            (r + 1) as u32,
            spec_blit_layer_count(*image_type),
        ),
        forall|r: int| 0 <= r < rounds@.len() ==> (#[trigger] rounds@[r]).prepare@.len() > 0,
{
    let ghost infos0 = infos@;
    let layer_count = blit_layer_count(image_type);
    let cands = dedup_indices(info_indices);
    proof {
        lemma_dedup_members(info_indices@);
        assert forall|k: int| 0 <= k < cands@.len() implies {
            &&& #[trigger] cands@[k] < infos0.len()
            &&& spec_ready_for_mip_generation(infos0[cands@[k] as int])
        } by {
            assert(cands@.contains(cands@[k]));
            assert(info_indices@.contains(cands@[k]));
            let j = choose|j: int| 0 <= j < info_indices@.len() && info_indices@[j] == cands@[k];
            assert(info_indices@[j] < infos0.len());
        }
    }
    let count = round_count(infos, &cands);
    let mut rounds: Vec<MipmapBlitRound> = Vec::new();
    let mut level: u32 = 1;
    while level <= count
        invariant
            1 <= level <= count + 1,
            count <= 31,
            count == spec_round_count(infos0, cands@),
            cands@ == spec_dedup(info_indices@),
            infos@ == infos0,
            spec_all_ready(infos0, cands@),
            layer_count == spec_blit_layer_count(*image_type),
            rounds@.len() == level - 1,
            forall|r: int| 0 <= r < rounds@.len() ==> spec_round_matches(
                #[trigger] rounds@[r],
                infos0,
                cands@,
                (r + 1) as u32,
                layer_count,
            ),
            forall|r: int| 0 <= r < rounds@.len() ==> (#[trigger] rounds@[r]).prepare@.len() > 0,
        decreases count + 1 - level,
    {
        let round = build_round(infos, &cands, level, layer_count);
        proof {
            lemma_round_nonempty(infos0, cands@, level);
        }
        rounds.push(round);
        level = level + 1;
    }
    rounds
}

} // verus!
