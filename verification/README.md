# k1

Fixed-capacity building blocks and decision logic of the K1 platform (an
XMB-style launcher for Android), verified with Verus.

- `src/` — the verified library:
  - `memory`: object pool, bump arena and byte ring buffer, with their laws
    (pool accounting, LIFO reuse, undo of an allocation, ordered and aligned
    arena allocations, ring reads giving back what was written);
  - `sys`: Android vocabulary (opaque handle types, event and log constants,
    decoding of motion and key actions, window size bookkeeping, the
    NUL-terminated text buffers handed to the platform);
  - `ui`: the XMB menu, its columns and items, navigation, key handling and
    the layout of its quads in the vertex buffer;
  - `gles`: quad batch bookkeeping, the quad index pattern, the EGL
    configuration fallback search and texture size checks;
  - `vulkan`: renderer configuration, device and queue family choice,
    swapchain parameters, frame rotation and vertex staging;
  - `lifecycle`: the app's lifecycle state machine;
  - `activity`: the decisions of the native activity's main loop;
  - `error`: the error kinds.
- `app/` — ordinary Rust around it: `f32` math and animation, drawing, the
  EGL/GLES, Android and Vulkan (`ash`) bindings and the entry points.
- `tests/` — tests of the library.
