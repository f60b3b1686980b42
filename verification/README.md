# Pikmin Pilot desktop tools

Two programs prepare an iPhone or iPad for Pikmin Pilot from a Windows computer:

- the *pairing helper* makes a remote pairing record for one USB device;
- the *setup* runs the helper, installs the app, places the record in the app's
  container and reads it back.

`src/` is the library that decides what they do. It is written in Verus: every
function states what it decides as a function of plain values, and Verus proves it.
Work that goes back and forth with the device, the multiplexer or the file system is
a state machine: its step function takes the result of the last piece of work, and
says what to print and what to do next. The proof functions named `law_...` state
what holds over whole runs, such as that a setup that ends well has placed the record
that its helper made, and has read it back byte for byte, and that the helper
understands the command line that the setup gives it.

`app/` carries the decisions out: it talks to the device through `idevice`, reads and
writes files, and prints. The package and the helper that the setup delivers are read
from the folder `assets` beside the executable.

| module | what it decides |
| --- | --- |
| `helper_args`, `setup_args` | the two command lines |
| `device`, `device_wait` | which device to work on |
| `pairing_session`, `record` | how a record is made, and the bytes it is written as |
| `helper_run` | the helper, up to its exit code |
| `layout` | the files on the computer |
| `pair_run` | running the helper until it has made a record |
| `install`, `registration` | installing the app, and waiting until it is there |
| `inject` | placing the record and reading it back |
| `setup_run` | the setup, up to its exit code |
| `setup_course` | how its phases end, and what a setup that succeeds has been through |
| `app_info`, `console`, `device_error`, `text` | what the others share |
