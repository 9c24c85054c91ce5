# mkautoripper

Control logic of an automated optical-media ripping machine: a Raspberry Pi
moves discs between spindles, a camera tray and a rack of optical drives
with three stepper motors, and a container rips whatever is loaded.

- `src/` is the verified library:
  - `hardware_layout`: pin numbers, motor speeds and positions;
  - `media`, `drive_layout`: media kinds and the drive rack;
  - `machine`: machine state, jog/homing/go-to planning and its laws;
  - `stepper`: the decisions taken while a stepper runs;
  - `database`: log kinds, totals and the statement that updates them;
  - `ripper`, `command`: queue messages and the programs they start;
  - `snapshot`: the order of light, photo and light again;
  - `servo`, `info`, `byte_size`, `text`: the servo routine, the
    information panel, byte-count rendering and text comparison.
- `app/` holds the programs around it (GPIO, I2C, SQLite, processes, the
  FLTK touch screen): `app terminal`, `app pin-tester`, `app servo`,
  `app ripper`.
- `tests/` exercises the library on concrete values.
