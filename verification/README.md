# meta_assets

A verified library for collections of assets with JSON metadata. A collection
(name, description, author, JSON schema, item count) is stored under the
Blake2-256 hash of its SCALE encoding; an asset (name, owner, JSON metadata)
is stored under the hash of its collection and its own hash. Signed accounts
create and remove collections, add assets, update metadata (collection
authors only), and transfer or remove assets (owners only). Every successful
call appends its events; a refused call changes nothing.

Layout of `src/`:

- `types.rs`: accounts, hashes, origins, collections, assets, events, errors.
- `store.rs`: a keyed store with distinct keys, seen as a `Map`.
- `scale.rs`: the SCALE encoding of collections and assets (fields through
  the codec).
- `hashing.rs`: the keys, Blake2-256 of the encodings (through sp-core).
- `json.rs`: whether bytes hold a JSON document (through serde_json).
- `pallet.rs`: the state, its invariant, and the six calls with their
  contracts.
- `item_counts.rs`: the invariant (a collection's item count is the number
  of assets stored under it) and its preservation by every call.
- `laws.rs`: properties of the calls taken together.
