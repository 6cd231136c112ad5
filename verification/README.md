# rhinostream

Streams a captured screen: a source captures frames, a filter scales them and changes their colors,
and a processor makes packets of them.

`src/` is the library, verified with Verus. It holds what the stages decide and compute: how option
strings are read, which display mode and which textures are asked for, what the encoder's driver is
told, when a stream goes on and when it ends, which packets and encoder resources are used again, and
which error a caller sees.

- `text`, `rate`, `options`: texts, rates and option strings
- `errors`, `clib`: errors, and what the C interface decides
- `source`, `filter`, `texture`: capturing, filtering, and the textures in between
- `processor`, with `processor::nvenc`: copying frames and encoding them
- `stream`: the loops of a stream

`app/` drives the devices on Windows: it asks the library what to do, does it, and hands back what came
of it.
