# vk_rs

A small Vulkan viewer that shows an image on a quad, with its logic verified in
Verus.

- `src/` is the verified library: it never talks to a GPU. It reads shader
  modules (`shader`), decodes and widens images (`texture`), describes Vulkan
  objects (`descriptor`, `pipeline`), lists the steps of the setup (`setup`), the
  commands of a frame (`command`) and the steps of the teardown (`teardown`), and
  drives the frame loop as a state machine (`frame`). The rules that the frame
  loop and the setup keep over any run are stated and proved in `sync` and
  `upload`.
- `app/` is the program: the window, the driver, files and floating point. It
  performs what the library asks for and reports the answers.
- `tests/` runs the library, and holds its numbers against the Vulkan bindings.

The PNG decoder and the layout of the camera matrix are the only things taken on
trust; the doc comments of the items that call them say what is believed.
