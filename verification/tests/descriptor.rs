//! Descriptor sets: configurations, pool sizes, allocation and writes.

use ash::vk;
use gensokyo_vulkan::consts::{ IMAGE_LAYOUT_SHADER_READ_ONLY_OPTIMAL };
use gensokyo_vulkan::descriptor::{ GsDescriptorType, BufferDescriptorType, ImageDescriptorType, DescriptorMeta, DescriptorArrayMeta, DescriptorMetaMirror };
use gensokyo_vulkan::descriptor::binding::buffer::DescriptorBindingBufInfo;
use gensokyo_vulkan::descriptor::set::{ DescriptorSetConfig, GsPipelineStage, GsDescriptorSet };
use gensokyo_vulkan::descriptor::layout::GsDescriptorSetLayout;
use gensokyo_vulkan::descriptor::pool::{ GsDescriptorPool, DescriptorPoolSize };
use gensokyo_vulkan::descriptor::allocator::target::GsDescriptorAllocator;
use gensokyo_vulkan::descriptor::allocator::distributor::GsDescriptorDistributor;
use gensokyo_vulkan::descriptor::entity::DescriptorSetEntity;
use gensokyo_vulkan::image::instance::sampler::{ GsSampler, GsSamplerArray };
use gensokyo_vulkan::descriptor::binding::DescriptorBindingImgArrayTgt;

fn uniform(binding: u32, buffer: u64) -> DescriptorBindingBufInfo {
    DescriptorBindingBufInfo {
        meta: DescriptorMeta { binding, descriptor_type: GsDescriptorType::Buffer(BufferDescriptorType::UniformBuffer) },
        element_size: 64,
        buffer_handle: buffer,
    }
}

fn sampler(binding: u32, handle: u64) -> GsSampler {
    GsSampler { handle, descriptor: DescriptorMeta { binding, descriptor_type: GsDescriptorType::Image(ImageDescriptorType::Sampler) } }
}

#[test]
fn descriptor_types_have_the_vulkan_codes() {
    assert_eq!(GsDescriptorType::Image(ImageDescriptorType::Sampler).to_raw(), vk::DescriptorType::SAMPLER.as_raw());
    assert_eq!(GsDescriptorType::Image(ImageDescriptorType::CombinedImageSampler).to_raw(), vk::DescriptorType::COMBINED_IMAGE_SAMPLER.as_raw());
    assert_eq!(GsDescriptorType::Image(ImageDescriptorType::SampledImage).to_raw(), vk::DescriptorType::SAMPLED_IMAGE.as_raw());
    assert_eq!(GsDescriptorType::Image(ImageDescriptorType::StorageImage).to_raw(), vk::DescriptorType::STORAGE_IMAGE.as_raw());
    assert_eq!(GsDescriptorType::Buffer(BufferDescriptorType::UniformBuffer).to_raw(), vk::DescriptorType::UNIFORM_BUFFER.as_raw());
    assert_eq!(GsDescriptorType::Buffer(BufferDescriptorType::StorageBuffer).to_raw(), vk::DescriptorType::STORAGE_BUFFER.as_raw());
    assert_eq!(GsDescriptorType::Buffer(BufferDescriptorType::DynamicUniformBuffer).to_raw(), vk::DescriptorType::UNIFORM_BUFFER_DYNAMIC.as_raw());
    assert_eq!(GsDescriptorType::Buffer(BufferDescriptorType::DynamicStorageBuffer).to_raw(), vk::DescriptorType::STORAGE_BUFFER_DYNAMIC.as_raw());
    assert_eq!(GsDescriptorType::Buffer(BufferDescriptorType::TexelUniformBuffer).to_raw(), vk::DescriptorType::UNIFORM_TEXEL_BUFFER.as_raw());
    assert_eq!(GsDescriptorType::Buffer(BufferDescriptorType::TexelStorageBuffer).to_raw(), vk::DescriptorType::STORAGE_TEXEL_BUFFER.as_raw());
}

#[test]
fn metas_mirror_with_their_counts() {
    let single: DescriptorMetaMirror = DescriptorMeta { binding: 2, descriptor_type: GsDescriptorType::Image(ImageDescriptorType::Sampler) }.into();
    assert_eq!(single.count, 1);
    assert_eq!(single.binding, 2);
    let array: DescriptorMetaMirror = DescriptorArrayMeta { binding: 3, count: 4, descriptor_type: GsDescriptorType::Image(ImageDescriptorType::Sampler) }.into();
    assert_eq!(array.count, 4);
}

#[test]
fn pool_sizes_count_every_descriptor_once_per_type() {
    let mut first = DescriptorSetConfig::new();
    first.add_buffer_binding(uniform(0, 100), GsPipelineStage(vk::ShaderStageFlags::VERTEX.as_raw()));
    first.add_image_binding(&sampler(1, 200), GsPipelineStage(vk::ShaderStageFlags::FRAGMENT.as_raw()));
    let mut second = DescriptorSetConfig::new();
    second.add_buffer_binding(uniform(0, 101), GsPipelineStage(vk::ShaderStageFlags::VERTEX.as_raw()));
    second.add_buffer_binding(uniform(1, 102), GsPipelineStage(vk::ShaderStageFlags::VERTEX.as_raw()));

    let mut allocator = GsDescriptorAllocator::create();
    let a = allocator.assign(first);
    let b = allocator.assign(second);
    assert_eq!(a.assign_index, 0);
    assert_eq!(b.assign_index, 1);
    assert_eq!(b.convey_info.set_index, 1);
    let sizes = allocator.pool_sizes();
    assert_eq!(sizes, vec![
        (GsDescriptorType::Buffer(BufferDescriptorType::UniformBuffer), 3),
        (GsDescriptorType::Image(ImageDescriptorType::Sampler), 1),
    ]);
    let allocation = allocator.allocate();
    assert_eq!(allocation.pool_info.pool_sizes, vec![
        DescriptorPoolSize { ty: vk::DescriptorType::UNIFORM_BUFFER.as_raw(), descriptor_count: 3 },
        DescriptorPoolSize { ty: vk::DescriptorType::SAMPLER.as_raw(), descriptor_count: 1 },
    ]);
    assert_eq!(allocation.layout_cis.len(), 2);
    assert_eq!(allocation.layout_cis[0].bindings.len(), 2);
    assert_eq!(allocation.layout_cis[0].bindings[1].binding, 1);
    assert_eq!(allocation.layout_cis[0].bindings[1].stage_flags, vk::ShaderStageFlags::FRAGMENT.as_raw());
    assert_eq!(allocation.pool_info.create_info().max_sets, 2);

    let pool = GsDescriptorPool { handle: 9 };
    let layouts = vec![GsDescriptorSetLayout { handle: 30 }, GsDescriptorSetLayout { handle: 31 }];
    let sets = pool.allocate(layouts, vec![40, 41]);
    let distributor = GsDescriptorDistributor::new(pool, sets, allocator.set_configs, allocator.update_sets);
    let set_b = distributor.acquire(b);
    assert_eq!(set_b.handle, 41);
    assert_eq!(set_b.set_index(), 1);
    let (buffers, images) = distributor.update_descriptors();
    assert_eq!(buffers.len(), 3);
    assert_eq!(images.len(), 1);
    assert_eq!(buffers[0].info.dst_set, 40);
    assert_eq!(buffers[2].info.dst_set, 41);
    assert_eq!(buffers[2].info.dst_binding, 1);
    assert_eq!(buffers[2].content[0].buffer, 102);
    assert_eq!(images[0].info.dst_set, 40);
    assert_eq!(images[0].content[0].sampler, 200);
    assert_eq!(images[0].content[0].image_view, 0);
    assert_eq!(images[0].content[0].image_layout, IMAGE_LAYOUT_SHADER_READ_ONLY_OPTIMAL);
}

#[test]
fn sampler_array_binding_counts_its_samplers() {
    let mut ci = GsSamplerArray::new(4);
    ci.add_sampler(GsSampler::new());
    ci.add_sampler(GsSampler::new());
    ci.add_sampler(GsSampler::new());
    let array = ci.build(vec![7, 8, 9]);
    let info = array.binding_info();
    assert_eq!(info.meta.count, 3);
    assert_eq!(info.meta.binding, 4);
    let mirrors = array.mirrors();
    assert_eq!(mirrors.len(), 3);
    assert_eq!(mirrors[2].0, 9);
}

#[test]
fn entity_keeps_the_set_handle() {
    let set = GsDescriptorSet::new(12, GsDescriptorSetLayout { handle: 1 });
    let entity = DescriptorSetEntity::new(&set, vec![0, 2]);
    assert_eq!(entity.handle, 12);
    assert_eq!(entity.binding_indices, vec![0, 2]);
}
