# candle_metal_kernels

Launch planning for the Metal compute kernels of candle, verified with Verus.

`src/` decides, for every kernel, which pipeline it runs (library, function name and
function constants), which arguments it is bound with and at which indices, which
buffers it reads and writes, how much threadgroup memory it asks for and how its
threads are grouped. It also holds the caches of loaded libraries and built
pipelines. Every public function there carries a contract that pins its result.

- `grid`: ceiling division, the linear split of threads into groups, powers of two.
- `shape`: element counts of shapes and of runs of dimensions.
- `launch`: the plan types (`Dispatch`, `Launch`, `KernelArg`, `Grid`).
- `ops`: the plans of the element-wise, reduction, indexing, convolution and random kernels.
- `gemm`, `quantized`: the matrix products.
- `constants`, `pipeline`, `cache`, `source`, `error`: function constants, pipeline
  keys, the caches, the libraries and the error type.

`app/` runs the plans on a Metal device with the `metal` crate: it loads libraries
and pipelines, binds the arguments, and dispatches.
