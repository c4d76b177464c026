# lattice

Native side of a post-processing bridge between a Java (OpenGL) client and a
Vulkan compute pass. The frame rendered by OpenGL lands in a shared image, a
compute shader processes it into a second shared image, and the client reads
that back.

- `src/` is the verified library: choosing the GPU, the queue family, the
  device extensions and the memory type; decoding the shader's SPIR-V; the
  renderer's state (shared images, size, frame counter, per-frame dispatch);
  and what the Java side can query between calls.
- `app/` holds the JNI exports and every Vulkan call, and hands the library
  plain values.
- `tests/` exercises the library on concrete inputs.

The compute shader is read at run time from the file named by
`LATTICE_SHADER_SPV` (default `passthrough.comp.spv`).
