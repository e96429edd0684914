# novaos

The NovaOS boot chain, kernel contract and service model as a verified Verus
library.

- `src/` holds the logic with its contracts: the boot records (BootInfo v1 and
  v2, payload headers, init capsules, digests and verification records), the
  stage-0 loader's plan, checks and reports, stage 1's planner, the kernel's
  bring-up, syscall dispatch, EL0 address-space planning and page-table
  construction, the console and its diagnostics, the init daemon's launch and
  status model, the firmware observatory's model and reports, and the image
  tool's command line and image builders.
- `tests/` runs the library on concrete values.
- `app/` is the ordinary Rust around it: the `novaos-mkimage` command line with
  its file I/O, the UEFI firmware calls of the loader and the observatory
  (through the `uefi` crate), and the entry points that read records at raw
  addresses, jump, or halt.

SHA-256 comes from the `sha2` crate, behind one wrapper in `src/digest.rs`.
