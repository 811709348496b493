# mavlink_ffi

The shared slot behind the policy VM's `mavlink` FFI module, verified with Verus.

- `src/slot.rs`: `MavData`, the rules of the slot (store, clear, read) as
  executable functions with exact contracts, and the laws they obey.
- `src/handle.rs`, `src/ffi.rs`: `Handle` (writes the slot) and `Ffi`
  (reads it), sharing one `vstd::rwlock::RwLock` behind an `Arc`.
- `src/error.rs`: `DataMissing`, `DataPresent`, and the policy VM error
  made from `DataMissing`.
- `app/lib.rs`: the `FfiModule` impl generated by `aranya-policy-vm`'s
  `ffi` attribute, and the error types with `Display`.
