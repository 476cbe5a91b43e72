# gl_struct

Typed building blocks for OpenGL: enumerations and their `GLenum` values, vertex attribute
formats, buffer slices, client-side images and windows into them, texture dimensions and
parameters, the GLSL boolean vectors, pixel-store settings, and the version tokens that say
which GL functions are loaded.

## Layout

- `src/` is the library, written in Verus. Every function there is proved against its
  contract (the version tokens, which hold no data, state nothing of their result); the
  laws that relate several functions are public proof functions.
  - `glenum` — `GLenum` constants, the library's enumerations and `GLError`.
  - `layout` — attribute formats (`VecFormat`, `IVecFormat`, `DVecFormat`, placed formats,
    arrays of them for matrices, and tuples), and reading a format back from slot
    descriptions.
  - `buffer` — access types, storage flags, buffers and the slices that split them.
  - `pixels`, `image` — pixel sources and destinations, client images and their windows.
  - `texture` — texture dimensions, mipmap sizes, targets, cube-map faces, wrap modes.
  - `glsl` — the GLSL `bool`, boolean vectors, `any`/`all`/`not`, `transpose`.
  - `pixel_data` — row alignment and pixel-store settings.
  - `vertex` — attribute data of Rust values, attribute arrays and their pointer calls.
  - `context`, `label`, `program` — loaded-function checks, object labels and fences,
    shader stages and primitive kinds.
- `app/` is ordinary Rust around the library: the calls into the driver through the `gl`
  crate, the floating-point GLSL functions, and printable copies of the error types.
- `tests/` runs the library on concrete values.
