# cameleon_ffi

C / C++ interface to USB3 Vision cameras, on top of the `cameleon` crate.

`src/` is the verified library. It holds the handles, what each operation on
them decides, and what becomes of the frames; it never talks to a device. An
operation that needs the device returns a step for the caller to carry out.

| module    | contents                                                        |
|-----------|-----------------------------------------------------------------|
| `status`  | status codes                                                    |
| `cstr`    | copying strings into C buffers                                  |
| `camera`  | camera handles: enumeration, identity, open, close, context     |
| `frame`   | reading payloads and turning them into frames                   |
| `capture` | capture handles: worker, frame queue, grabs, stop               |
| `session` | a camera, its capture and its worker together, with their laws  |
| `laws`    | laws of single handles, buffers and the opening sequence        |

`app/` holds the exported C functions: pointers, threads and USB.

## Lifecycle

1. `cmln_enumerate` finds cameras and gives each a handle.
2. `cmln_camera_info` reads vendor, model and serial number.
3. `cmln_camera_open` opens the device from a clean state, with retries. An
   opened camera is not opened again.
4. `cmln_camera_load_context` loads the description of an opened device.
5. `cmln_capture_start` moves the device into a capture and starts its worker.
6. `cmln_capture_async` and `cmln_capture_block` grab frames, oldest first.
7. `cmln_capture_free_frame` frees the frame grabbed last.
8. `cmln_capture_destroy` stops the worker and releases the device.
9. `cmln_camera_close`, `cmln_camera_destroy` and `cmln_free_enum` end the
   camera handle and the handle array.

A grab returns 1 with a frame and 0 without one; image bytes are passed on as
the device sent them. Once a capture is stopped every grab returns -5.
