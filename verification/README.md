# obsidian_graphish

A small Vulkan 2D renderer (ash + winit). The library in `src/` holds the
engine's decisions, each with a contract proved by Verus:

- `engine_core::engine` — the frame slots in flight and the order of the
  steps that draw a frame (`FrameScheduler`);
- `engine_core::instance` — the configuration the Vulkan instance is created
  with (names, versions, validation layer);
- `engine_core::window` — window configuration, the once-a-second frame
  statistics, and the response to a failed frame;
- `engine_core::window_config` — the standalone window configuration;
- `renderer::device` — queue-family search, extension check, device choice,
  distinct queue families;
- `renderer::swapchain` — surface format, present mode, extent, image count
  and image sharing;
- `renderer::buffer` — memory-type lookup;
- `renderer::pipeline` — decoding SPIR-V shader bytes (through ash);
- `renderer::vertex` — the quad's indices and the vertex layout.

`app/` is the program: the winit event loop, every Vulkan call, and the
floating-point sprites, camera and matrices (glam).
