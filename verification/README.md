# ur_redis_driver

A Universal Robots driver with no ROS interfaces: the robot is driven entirely through Redis.
Motion commands are Tera-templated URScript injected over the realtime interface; robot state is
decoded from the same stream and published; and the UR Dashboard Server provides program and
safety control (stop, pause, power, protective-stop recovery).

What the driver decides is a Verus library, and proved: what a dashboard command and its reply
mean, which requests become motions, how a goal runs and ends, what is published, and what a
planned trajectory is made of.

## Layout

- `src/` - the verified library.
  - `text.rs`, `double.rs`, `sp_value.rs` - strings, IEEE doubles by their bits, and the values
    and keys of the shared state.
  - `dashboard_types.rs`, `dashboard_laws.rs`, `dashboard.rs`, `dashboard_server.rs` - the
    dashboard's commands and replies, the conversations that carry them out, and the requests for
    them.
  - `structs.rs`, `state.rs`, `driver_state.rs` - what a motion is made of, and the state of the
    driver.
  - `command_server.rs`, `intake.rs`, `script.rs`, `handle_request.rs`, `socket_server.rs` - from
    a request to a script, and from the script to the end of its goal.
  - `realtime_reader.rs`, `state_publisher.rs`, `visuals.rs` - what the robot reports, and what is
    published of it.
  - `trajectory/` - planned trajectories: frames, limits, branches, speeds, plans, and their
    files; and which robot descriptions the URDF reader can be handed (`markup.rs`, `urdf.rs`).
  - `cli.rs`, `config.rs`, `ros.rs` - command lines, environment and tool arguments.
- `tests/` - tests of the library.
- `app/` - sockets, files, clocks, Redis and floating-point arithmetic around the library. Under
  the name `plan_trajectory` the program is the offline planner.

## Numbers

The library holds no floating-point values. A `Double` is the bits of an IEEE 754 double, which
the library compares, orders and converts to integers; sums, products and their spellings are
computed in `app/`.

## What is trusted

Everything outside the library that it calls is declared with a contract that is believed, next to
its one use: `String::push`, `str::to_lowercase`, `Duration::from_secs`, Tera's rendering,
`nanoid`, `roxmltree` and `urdf-rs`.
