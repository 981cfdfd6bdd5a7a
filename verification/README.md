# robot_telemetry_server

Telemetry collection for a ROS 2 robot. Odometry, IMU, laser scan, velocity
command, battery, transform and log messages become metric samples and event
records that a background writer stores in SQLite.

- `src/` is the verified library: the message readings as plain
  values (`messages`), double readings as IEEE-754 bit patterns (`value`),
  the sample and event records (`records`), one collector per topic
  (`collectors`), and the resolution of the node's parameters into database
  and subscription settings (`params`). Each collector's result is specified
  exactly; proof functions state what holds of every result (every value is
  built from finite inputs, every sample carries its message's stamp and
  topic, scan counts add up, summaries bound the values they summarise and
  do not depend on the order of the values).
- `app/` is the ROS 2 node: it declares and reads parameters, subscribes,
  converts messages (including the floating-point geometry of transforms),
  evaluates means for the library to settle (it drops a mean whose sum overflows), logs, and runs the SQLite writer thread.
- `tests/` exercises the library on concrete messages and settings.
