# winrtble

The Windows Runtime backend of a Bluetooth LE library, split in two.

- `src/` is the verified library (Verus). It holds what the backend decides
  and computes: the conversions between Windows GUIDs and UUIDs (proved to be
  inverse to each other), the mapping of GATT properties, statuses and
  descriptor values, the record of a characteristic with its descriptors in
  ascending UUID order, the retry of an operation after pairing when it failed
  for want of encryption, and the steps of pairing as a state machine.
- `app/` is the part that talks to the Windows Runtime: it performs the
  runtime calls and awaits, and hands the library plain values.

Modules of `src/`: `model` (data types and the order of UUIDs), `text`
(hexadecimal text and substring search), `utils` (conversions and mappings),
`ble::characteristic`, `ble::descriptor`, `ble::operation` (outcomes and the
retry policy), `pairing` (the pairing state machine), `winrt` (the runtime's
error type).
