//! The preparation of a group reads the images of the group only: two
//! batches that agree on the group's images get the same commands.

use vstd::prelude::*;

use crate::image::enums::{ ImagePipelineStage, ImageInstanceType };
use crate::image::allocator::target::ImageAllotCI;
use crate::image::instance::base::barrier::{
    PrepareMove, SampleImageUploadPlan, spec_after_move, spec_movers, spec_upload_plan, spec_per_layer, spec_copy_matches,
};
use crate::image::instance::base::mipmap::{ spec_blitting, spec_round_count, spec_round_matches, spec_blit_layer_count, spec_level_subrange };
use crate::image::mipmap::{ spec_blit_src_barrier, spec_blit_dst_barrier, spec_blit_info };

verus! {

/// `a` and `b` have the same length and the same images at `idx`.
pub open spec fn spec_agree(a: Seq<ImageAllotCI>, b: Seq<ImageAllotCI>, idx: Seq<usize>) -> bool {
    &&& a.len() == b.len()
    &&& forall|k: int| 0 <= k < idx.len() ==> #[trigger] a[idx[k] as int] == b[idx[k] as int]
}

proof fn lemma_agree_prefix(a: Seq<ImageAllotCI>, b: Seq<ImageAllotCI>, idx: Seq<usize>)
    requires
        spec_agree(a, b, idx),
        idx.len() > 0,
    ensures
        spec_agree(a, b, idx.drop_last()),
        a[idx.last() as int] == b[idx.last() as int],
{
    assert forall|k: int| 0 <= k < idx.drop_last().len() implies #[trigger] a[idx.drop_last()[k] as int] == b[idx.drop_last()[k] as int] by {
        assert(idx.drop_last()[k] == idx[k]);
    }
    assert(a[idx[idx.len() - 1] as int] == b[idx[idx.len() - 1] as int]);
}

proof fn lemma_after_move_agree(a: Seq<ImageAllotCI>, b: Seq<ImageAllotCI>, idx: Seq<usize>, m: PrepareMove)
    requires
        spec_agree(a, b, idx),
        forall|k: int| 0 <= k < idx.len() ==> #[trigger] idx[k] < a.len(),
    ensures
        spec_agree(spec_after_move(a, idx, m), spec_after_move(b, idx, m), idx),
{
    assert forall|k: int| 0 <= k < idx.len() implies #[trigger] spec_after_move(a, idx, m)[idx[k] as int]
        == spec_after_move(b, idx, m)[idx[k] as int] by {
        assert(a[idx[k] as int] == b[idx[k] as int]);
    }
}

proof fn lemma_movers_agree(a: Seq<ImageAllotCI>, b: Seq<ImageAllotCI>, idx: Seq<usize>, m: PrepareMove)
    requires
        spec_agree(a, b, idx),
    ensures
        spec_movers(a, idx, m) == spec_movers(b, idx, m),
        forall|x: usize| #[trigger] spec_movers(a, idx, m).contains(x) ==> idx.contains(x),
    decreases idx.len(),
{
    if idx.len() > 0 {
        lemma_agree_prefix(a, b, idx);
        lemma_movers_agree(a, b, idx.drop_last(), m);
        let rest = spec_movers(a, idx.drop_last(), m);
        assert forall|x: usize| #[trigger] spec_movers(a, idx, m).contains(x) implies idx.contains(x) by {
            if rest.contains(x) {
                let j = choose|j: int| 0 <= j < idx.drop_last().len() && idx.drop_last()[j] == x;
                assert(idx[j] == x);
            } else {
                assert(x == idx.last());
                assert(idx[idx.len() - 1] == x);
            }
        }
    }
}

proof fn lemma_blitting_agree(a: Seq<ImageAllotCI>, b: Seq<ImageAllotCI>, idx: Seq<usize>, level: u32)
    requires
        spec_agree(a, b, idx),
    ensures
        spec_blitting(a, idx, level) == spec_blitting(b, idx, level),
        forall|x: usize| #[trigger] spec_blitting(a, idx, level).contains(x) ==> idx.contains(x),
    decreases idx.len(),
{
    if idx.len() > 0 {
        lemma_agree_prefix(a, b, idx);
        lemma_blitting_agree(a, b, idx.drop_last(), level);
        let rest = spec_blitting(a, idx.drop_last(), level);
        assert forall|x: usize| #[trigger] spec_blitting(a, idx, level).contains(x) implies idx.contains(x) by {
            if rest.contains(x) {
                let j = choose|j: int| 0 <= j < idx.drop_last().len() && idx.drop_last()[j] == x;
                assert(idx[j] == x);
            } else {
                assert(x == idx.last());
                assert(idx[idx.len() - 1] == x);
            }
        }
    }
}

proof fn lemma_round_count_agree(a: Seq<ImageAllotCI>, b: Seq<ImageAllotCI>, idx: Seq<usize>)
    requires
        spec_agree(a, b, idx),
    ensures
        spec_round_count(a, idx) == spec_round_count(b, idx),
    decreases idx.len(),
{
    if idx.len() > 0 {
        lemma_agree_prefix(a, b, idx);
        lemma_round_count_agree(a, b, idx.drop_last());
    }
}

/// The images of `idx` at the positions `s` lists, all in `idx`, are the same in `a` and `b`.
proof fn lemma_agree_on_members(a: Seq<ImageAllotCI>, b: Seq<ImageAllotCI>, idx: Seq<usize>, s: Seq<usize>)
    requires
        spec_agree(a, b, idx),
        forall|x: usize| #[trigger] s.contains(x) ==> idx.contains(x),
    ensures
        forall|k: int| 0 <= k < s.len() ==> #[trigger] a[s[k] as int] == b[s[k] as int],
{
    assert forall|k: int| 0 <= k < s.len() implies #[trigger] a[s[k] as int] == b[s[k] as int] by {
        assert(s.contains(s[k]));
        let j = choose|j: int| 0 <= j < idx.len() && idx[j] == s[k];
        assert(a[idx[j] as int] == b[idx[j] as int]);
    }
}

/// The commands planned for the group `idx` depend only on its images: two
/// batches that agree on them get the same plan.
pub proof fn lemma_upload_plan_agree(
    plan: SampleImageUploadPlan,
    a: Seq<ImageAllotCI>,
    b: Seq<ImageAllotCI>,
    idx: Seq<usize>,
    image_type: ImageInstanceType,
    dst_stage: ImagePipelineStage,
)
    requires
        spec_agree(a, b, idx),
        forall|k: int| 0 <= k < idx.len() ==> #[trigger] idx[k] < a.len(),
        spec_upload_plan(plan, a, idx, image_type, dst_stage),
    ensures
        spec_upload_plan(plan, b, idx, image_type, dst_stage),
{
    let per_layer = spec_per_layer(image_type);
    let a1 = spec_after_move(a, idx, PrepareMove::TransferDst);
    let b1 = spec_after_move(b, idx, PrepareMove::TransferDst);
    lemma_after_move_agree(a, b, idx, PrepareMove::TransferDst);
    let a2 = spec_after_move(a1, idx, PrepareMove::TransferSrc);
    let b2 = spec_after_move(b1, idx, PrepareMove::TransferSrc);
    lemma_after_move_agree(a1, b1, idx, PrepareMove::TransferSrc);
    assert forall|k: int| 0 <= k < idx.len() implies #[trigger] idx[k] < a1.len() by {}
    lemma_movers_agree(a1, b1, idx, PrepareMove::TransferSrc);
    lemma_round_count_agree(a2, b2, idx);

    assert(idx.map_values(|i: usize| PrepareMove::TransferDst.barrier(a[i as int], per_layer))
        =~= idx.map_values(|i: usize| PrepareMove::TransferDst.barrier(b[i as int], per_layer)));
    assert forall|k: int| 0 <= k < idx.len() implies spec_copy_matches(#[trigger] plan.copies@[k], b1[idx[k] as int], per_layer) by {
        assert(a1[idx[k] as int] == b1[idx[k] as int]);
    }
    let movers = spec_movers(a1, idx, PrepareMove::TransferSrc);
    lemma_agree_on_members(a1, b1, idx, movers);
    assert(movers.map_values(|i: usize| PrepareMove::TransferSrc.barrier(a1[i as int], per_layer))
        =~= movers.map_values(|i: usize| PrepareMove::TransferSrc.barrier(b1[i as int], per_layer)));
    let layers = spec_blit_layer_count(image_type);
    assert forall|q: int| 0 <= q < plan.mip_rounds@.len() implies spec_round_matches(
        #[trigger] plan.mip_rounds@[q],
        b2,
        idx,
        (q + 1) as u32,
        layers,
    ) by {
        let level = (q + 1) as u32;
        assert(spec_round_matches(plan.mip_rounds@[q], a2, idx, level, layers));
        lemma_blitting_agree(a2, b2, idx, level);
        let act = spec_blitting(a2, idx, level);
        lemma_agree_on_members(a2, b2, idx, act);
        assert(act.map_values(
            |i: usize| spec_blit_src_barrier(a2[i as int], spec_level_subrange(a2[i as int], level)),
        ) =~= act.map_values(
            |i: usize| spec_blit_src_barrier(b2[i as int], spec_level_subrange(b2[i as int], level)),
        ));
        assert(act.map_values(|i: usize| spec_blit_info(a2[i as int], level, layers))
            =~= act.map_values(|i: usize| spec_blit_info(b2[i as int], level, layers)));
        assert(act.map_values(
            |i: usize| spec_blit_dst_barrier(a2[i as int], spec_level_subrange(a2[i as int], level)),
        ) =~= act.map_values(
            |i: usize| spec_blit_dst_barrier(b2[i as int], spec_level_subrange(b2[i as int], level)),
        ));
    }
    assert(idx.map_values(|i: usize| PrepareMove::ShaderRead.barrier(a2[i as int], per_layer))
        =~= idx.map_values(|i: usize| PrepareMove::ShaderRead.barrier(b2[i as int], per_layer)));
}

} // verus!
