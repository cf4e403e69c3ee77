# pumpkin_protocol (recipe book packet)

The clientbound "recipe book add" packet of the Minecraft Java protocol,
written in Verus. Each encoder appends to a byte vector and is proved to
append exactly the bytes that a specification of the wire format gives.

- `src/wire.rs`: VarInt, boolean, byte and big-endian word encodings, and
  the VarInt round-trip law.
- `src/version.rs`: release ordering and the version-dependent slot display ids.
- `src/recipe.rs`: the recipe model (registry keys already looked up) and
  the namespace stripping of registry keys.
- `src/display.rs`: slot displays, holder sets and crafting requirements.
- `src/grid.rs`: the cells of a shaped pattern and their key lookup.
- `src/entry.rs`: one recipe display entry.
- `src/packet.rs`: the packet and its data.
- `src/laws.rs`: the counts the packet declares match what follows them.
- `app/lib.rs`: the registry lookups and table conversion, which need the
  server's generated data crate, and the write to an `io::Write` sink.
