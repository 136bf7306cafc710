# raytrace

The scene description and the path-tracing decisions of a Cornell-box path
tracer, verified with Verus, and the renderer that draws it.

- `src/` — the verified library. Scalars are integer hundredths, so the scene
  is exact. `scene` builds the Cornell box and the list of shapes towards which
  light is sampled; `texture`, `material` and `hit` describe surfaces and
  shapes; `render` decides, bounce by bounce, how a ray's colour is made up and
  where a pixel lands in the image.
- `app/` — the program: floating-point shading (rays, hits, scattering,
  densities, camera), the sampling loop, and writing the PNG.
- `tests/` — tests of the library.
