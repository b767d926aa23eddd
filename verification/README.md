# vault-service

A vault for short texts. Each text is encrypted with AES-256-GCM under a key of its own; that key is
encrypted under one that Argon2id derives from the master password. The library in `src/` is
verified with Verus; `app/` puts it on the network.

```
export VAULT_MASTER_PASSWORD='at least twenty bytes'

curl -X POST http://localhost:8080/encrypt \
  -H 'Content-Type: application/json' \
  -d '{"plaintext":"password_segreta"}'

curl -X POST http://localhost:8080/decrypt \
  -H 'Content-Type: application/json' \
  -d '{"data": { ... }}'
```

`/decrypt` takes the `data` that `/encrypt` returned. `GET /health` is a liveness probe.
`VAULT_BIND_ADDR` (default `0.0.0.0:8080`) and `RUST_LOG` may be set as well.

What is proved: a sealed record opens to the text that was sealed; a record opens to a text only if
its ciphertext is the encryption of that text bound to the salt, nonce and version of the record;
every failure and its answer is the one that the contracts name; when they are dropped, keys are set
to zeros and passwords and opened texts are emptied. What is trusted: the contracts on the calls into
`aes-gcm`, `argon2`, `base64`, `hex`, `rand` and `zeroize` and on `String::from_utf8`, each stated
above its wrapper. That emptying a text also overwrites its memory is up to `zeroize`.
