# gensokyo_vulkan

The planning core of a Vulkan wrapper, verified with Verus.

The library decides what is created and recorded; it makes no Vulkan call
itself. Vulkan values (layouts, access masks, formats, descriptor types) are
held as the integers the Vulkan headers give them, handles as `u64`, and
single precision sampler values by their bits.

- `src/image`: image create settings, layout transitions, copies, mip-chain
  generation plans, and the preparation of a whole batch of images.
- `src/descriptor`: descriptor set configurations, layouts, pool sizes and
  the writes that fill allocated sets.
- `src/swapchain`: the choice of swapchain properties from what a surface
  supports, and the outcome of acquiring and presenting images.
- `app/`: the `ash` calls around the library: creating and destroying
  objects, recording the planned commands, and reading back what the device
  and the surface report.
- `tests/`: the library on concrete values, and its Vulkan numbers against
  those of `ash`.
