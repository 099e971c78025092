# scuffle

Reading and writing the properties of SMF services, instances and snapshots
through `libscf` (illumos).

## Layout

* `src/` is the verified library. It holds the values and their SMF text
  forms (`value`, `net`, `text`), how values are handed to `libscf` and read
  back (`scf_value`), NUL-free strings and FMRIs (`utf8cstring`), the reading
  of strings that `libscf` writes into buffers (`buf`), the error types and
  `libscf` error codes (`error`), the messages of the errors (`message`), and every decision taken on what a `libscf`
  call returned: connecting (`scf`), lookups (`lookup`), iteration (`iter`),
  property groups (`property_group`, `edit_property_groups`), properties
  (`property`), transactions (`transaction`) and instance operations
  (`instance`). Each function states its behaviour in `requires`/`ensures`;
  the laws that span functions (what a stored value reads back as, the text a
  value is handed over as, code and name round trips) are proof functions
  beside them.
* `app/` holds the `libscf` handles (`Scf`, `Scope`, `Service`, `Instance`,
  `Snapshot`, `PropertyGroup`, `Property`, `Transaction` and the iterators).
  They make the foreign calls and hand what came back to the library.
* `tests/` exercises the library on concrete inputs.
