# rapidraw

The verified core of a photo editor's back end, written in Verus.

`src/` is the library. Every function in it is verified except the few
trusted declarations in `sync`, which give the standard library's locks,
condition variables and clock the contracts their documentation states.
The modules:

- `paths`, `formats`: which files the editor opens, decided from the final
  path component's extension (ASCII case ignored, hidden files refused);
  converted inputs (HEIF) only where the caller says a decoder exists.
- `heif`, `converted_input`: recognising a HEIF container by walking its
  leading boxes to the `ftyp` brands, the decode size limits, and choosing
  the converted-input decoder.
- `thumbnail_queue`: the adjusted-thumbnail queue (revisions, deferred jobs,
  editor idle time, cancellation epochs) and its laws; `keyed` is the small
  path-keyed map it is built on.
- `thumbnail_manager`, `gpu`, `preview`: the shared managers, with the
  standard library's locks, condition variables, atomics and clock declared
  in `sync`, where each condition variable is kept with its one lock.
- `records`: plain records exchanged with the front end.

`app/` holds what stays outside the verifier: blocking wait loops, RAII
tickets and permits, serde copies of the records, reverse geocoding (floating
point) and the macOS ImageIO decoder.

`tests/` runs the library on concrete inputs.
