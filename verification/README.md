# GraftX

GraftX remotes GPU API calls between two guests of one host. A client shim on the
guest without a GPU encodes each call as a frame; a server on the guest that owns
the GPU decodes it, checks it, hands it to the backend of its API, and sends the
answer back. The eleven backends here (Vulkan, OpenGL, CUDA, OpenCL, HIP, Level
Zero, video, WebGPU, OptiX, SYCL, AMF) are stubs: they keep track of objects in
generational handle tables and call no driver.

The library in `src/` is written in Verus: its functions have contracts, and
Verus proves them. Four functions in `obs::timer` call the clock and the durations
of std; what their contracts say is taken on trust. Of the instant that a timer
starts at nothing is promised.

| Module | What it holds |
| --- | --- |
| `protocol` | opcodes, frames, handles, and the body of every message |
| `handles` | the generational handle table |
| `server` | the session, the backends, and the decisions of the serve loop |
| `client` | the request and the reply of every call, and the session client |
| `obs` | call statistics, the registry, the latency histogram, timers |
| `trace` | recorded frames and what a replay sends |
| `tools` | the benchmark, the fuzzer, the load generator, the front ends |
| `text` | numbers and names as text |

What holds of the library as a whole stands in proof functions named `law_..`:
that what was encoded decodes to itself and a cut encoding is refused, that a
handle never resolves again once its object was removed, that a destroyed object
stays destroyed and a live one stays usable whatever calls follow, that no handle
is issued twice, that a call over the wire is a call of the backend, and others
beside the functions they speak of.

`tests/` runs the library. `app/` is the programs around it: sockets, threads,
locks and printing.
