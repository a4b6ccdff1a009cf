# rviv

An image viewer and wallpaper setter for Linux. What it decides is a library that
[Verus](https://github.com/verus-lang/verus) verifies; the program around it carries the decisions
out.

## The library (`src/`)

- `path`, `gallery`: which images are shown, in which order, and which one first.
- `viewer`: which image is chosen, and what each event leads to.
- `decode`: from the content of a file to pixels.
- `cache`: the textures that stay on the GPU, the least recently used one leaving first.
- `config`: what GPU objects are made with, as far as it never changes.
- `device`, `surface`, `swapchain`, `pipeline`, `setup`: choosing a GPU and setting it up. Vulkan 1.3
  is needed, for rendering without a render pass.
- `layout`, `upload`, `drawing`: the commands that bring pixels to the GPU and draw them.
- `texture`, `frame`, `rebuild`, `context`: loading an image, drawing a frame, following the size of
  the window, and giving everything back.
- `wallpaper`: what the X server is asked for, and with which pixels.

Work on the GPU is described by small state machines. `action` says what to do next, and `advance`
takes what came of it. Proof functions whose names begin with `law_` state what holds across calls:
that each step keeps account of the GPU objects that it makes and destroys, that the end of the
viewer destroys everything that it names, each object once, that every series of steps ends, that the
cache is least-recently-used, that the wallpaper is announced only after it was drawn.

Nobody takes back what a set-up, a load or a build has made before one of its steps fails, and what a
rebuild or a load has destroyed by then is still named. The program ends then, without giving
anything back.

The library calls `image`, `ash` and `bytemuck` through a few functions whose contracts are believed
and not proved. Each of them says so.

## The program (`app/`)

Arguments, files, the window, Vulkan and X11. Zoom and offset are floating point numbers and live
here. The compiled shaders `vert.spv` and `frag.spv` are read from the directory `shaders` next to
the program.

## Tests (`tests/`)

The library on concrete values, with the outside crates linked.
