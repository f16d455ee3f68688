# mvlc

A layered video compositor: videos are loaded as layers on a canvas, decoded
by FFmpeg, timed against an audio master clock and drawn with egui on wgpu
(or presented through a Vulkan swapchain).

The crate is split in two.

- `src/` is the library, verified with Verus: media time arithmetic, the
  z-ordered layer stack, the A/V drop/repeat window, performance counters and
  zero-copy detection, the audio clock and its bounded sample queue, colour
  names, runtime badge decisions, and the choices the decoder, the renderer
  and the Vulkan swapchain make. Public functions carry contracts, except
  where the result rests on the time of the call or on a counter shared
  with the audio thread (the system clock, the audio sample counter); the
  laws that relate several functions are public proof functions named
  `law_*`.
- `app/` is the program around it: the window and event loop, egui drawing,
  the FFmpeg processes, cpal audio output, Vulkan calls, project files and
  everything computed in floating point.

`tests/` exercises the library on concrete values.
