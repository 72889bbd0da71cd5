# windows-kernel-rs

The logic of four Windows kernel drivers and their support code, verified
with Verus:

- a zero device, whose reads return a fixed byte;
- an activity monitor, which records process, thread, image-load and
  registry activity in a bounded buffer;
- a delete-protection minifilter, which refuses deletions by protected
  processes;
- a file-activity minifilter with a communication port.

`src/` is the verified library: counted kernel strings, status and
control-code arithmetic, the bounded record buffers, the deletion policy,
the minifilter's registration table, port callbacks and initialisation
steps, the ordered driver setup with the cleanup that undoes it, request
completion, MDL address selection, and the pool allocator's choices.

`app/` is the kernel side: entry points, dispatch routines and callbacks
that read the kernel's structures, hand plain values to the library, and
carry out what it returns through `windows-sys`.

`tests/` runs the library on concrete values.
