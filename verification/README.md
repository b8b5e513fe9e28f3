# haven_registry

The killswitch of the Haven device registry, verified with Verus.

- `src/device.rs`: the registry's device record and addresses, held as plain
  values (strkey bytes, string bytes), with their mathematical views.
- `src/killswitch.rs`: reporting a device stolen with a recovery bounty and
  reading the bounty back, the spec functions that say exactly what each call
  returns, and the proved laws relating them.
- `app/lib.rs`: the contract functions on Soroban: storage reads and writes,
  the owner's signature check and the conversions between host values and the
  library's plain values.
- `tests/`: scenario tests of the library.
