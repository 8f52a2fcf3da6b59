# bogahost_native

The logic of the Bogahost desktop programs — the Kasa password vault and the
panel shells (Görevler, Chat) — as a Verus library with its contracts, and a
small command-line program around it.

- `src/` — the verified library. The vault's cryptography (`kripto`, `zarf`),
  the key ring that locks itself (`anahtarlik`), the server protocol
  (`kasa`), filling decisions (`doldurma`, `alan`, `pencere`, `adres`), the
  browser bridge (`kopru`), browser protection (`politika`), preferences
  (`ayarlar`), versions (`surum`), and the panel shell's downloads,
  addresses, notifications and menus (`gorev`, `bildirim`, `kabuk`).
  Outside crates (argon2, chacha20poly1305, x25519-dalek, hkdf, base64,
  zeroize, getrandom, rand_core) are called behind small trusted wrappers
  whose contracts say what their documentation promises. Server documents
  reach the library as plain values (`zarf::ZarfBelgesi`, `zarf::Kimlik`,
  `kasa::Kayit`); reading the JSON is the caller's part.
- `tests/` — tests on concrete values.
- `app/` — the command line: files, network (reqwest), JSON (serde), the
  OS key store (keyring), the local bridge server and the system scripts.

Not provided: setting up a new vault identity and unlocking with a recovery
key. Both rest on a recovery-key scheme (how the key is generated, how the
lock key is derived from it, and its AAD) that is not specified anywhere in
this project, so there is nothing to state or verify them against.
Unlocking with the master password (`zarf::kilidi_ac`) is provided.
