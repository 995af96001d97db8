# eframe_native

The native event loop of an immediate-mode ui, as a verified library and a shell around it.

The library, in `src/`, decides which window is repainted when, which viewports are open, and what
an event of the system leads to. Verus proves that it does what its contracts say.

- `event`: the events of the system, and what handling one can ask for.
- `run_loop`: the schedule of repaints, and how long the loop sleeps.
- `builder`: the attributes of native windows, which egui keeps and compares.
- `glow_integration`: the viewports of an application that is painted with OpenGL.
- `wgpu_integration`: the viewports of an application that is painted with wgpu.
- `frame`, `options`, `description`: what both have in common.
- `backend`: the native resources, which the library moves around and never looks inside.

The shell, in `app/`, waits for the events, opens the windows, runs the ui and paints it, with
winit, glutin, egui-winit and egui_glow. The painter that draws with wgpu, and what goes between
the loop and the application, are traits there, for a framework to implement.

`tests/` runs the library with resources that are plain values.
