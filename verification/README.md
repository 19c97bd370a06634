# portability-gfx conversions

Verified conversions between the Vulkan values that a Vulkan portability
layer receives and the gfx-hal values it hands to its backend: formats,
format features, image kinds, layouts, usages, subresource ranges,
swizzles, descriptor types, shader and pipeline stages, access masks,
attachment operations and device creation errors.

- `src/vk.rs`: the Vulkan enums, structs and flag bits.
- `src/hal.rs` and `src/hal/`: a plain-value model of the gfx-hal types.
- `src/conv.rs`: the conversions, each with a contract over those models.
- `src/laws.rs`: properties that relate the conversions (format round
  trips, flag sets converted bit by bit, enum conversions that keep values
  apart, layer and level counts kept).
- `app/lib.rs`: the same conversions on gfx-hal's own types, converting
  between them and the models.
