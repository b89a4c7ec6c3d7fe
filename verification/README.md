# Shader handling for a raylib binding

`src/` is a Verus-verified library:

- `uniform` — raylib's uniform data types and their codes, the `ShaderV`
  trait (a uniform value's type and the 32-bit words a shader reads from it),
  and the computation of what a uniform setter hands to raylib
  (`uniform_upload`, `uniform_upload_v`), with proofs that the words handed
  over are what the shader reads. In a sampler array, each sampler's texture
  unit is the first unit of its own slice, or zero for an empty slice. The type
  codes follow raylib 5.5's `ShaderUniformDataType`.
- `load` — the decisions taken while a shader is loaded, as a state machine
  (`ShaderLoader`): which files are checked and in which order, what is handed
  to raylib, and which outcome is reported; with proofs of the outcome of a
  whole load.
- `error` — the errors a load reports.

`app/` is the unverified layer around it: raylib's C functions, file-system
queries, GPU resource ownership (`Shader`, `WeakShader`), and the public API
(`RaylibHandle::load_shader`, `Shader::set_shader_value`, ...), which runs the
library's decisions and performs the calls.
