# meet4k

Control of the extra features of the OBSBOT Meet 4K camera (background
replacement, tracking, HDR, field of view, auto-sleep, ...) through UVC
extension unit 6, selector 6.

- `src/protocol.rs`: the command bytes and the 60-byte frames that carry them.
- `src/camera.rs`: the settings, the steps each camera command takes, and the
  exchange with the camera (length request, then read or write) as a state
  machine whose device side the caller performs.
- `src/command.rs`: the command line vocabulary (`name` or `name=argument`).
- `src/session.rs`: a command line run: which command runs next, when the
  program aborts, and when a word is refused.
- `src/laws.rs`: properties of frames, commands, the vocabulary and the exchange.
- `app/`: the command line program and the video device access.

Usage: `meet4k <camera> <command[=argument]> ...`, where `<camera>` is a
device path or text found in a video device's card name or bus information.

Example: `meet4k OBSBOT angle-65 bg-blur bg-blur-leve=30` sets a 65 degree view
and a blurred background at level 30 (`bg-blur-leve` is another spelling of
`bg-blur-level`).
