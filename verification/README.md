# brtri

The bridge between an iPhone LiDAR scanner and Blender, with its logic verified by Verus.

- `src/` is the verified library: the frame ring buffer (`bridge_core::buffer`), the
  frame/drop monitor, the router's steps, the iPhone packet checks and the Blender
  frame layout (`protocols`), point clouds and the processing stages (`processing`),
  operation timing (`utils`), and the clock and byte-layout helpers (`clock`, `wire`).
- `app/` is the program around it: configuration loading, ZeroMQ sockets, the tokio
  tasks, logging, and the float-valued metrics.
- `tests/` exercises the library on concrete values.
