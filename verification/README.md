# keyroost

The rules behind `keyroostctl`, a command-line tool for hardware security keys
(FIDO2, OATH, OpenPGP, PIV, Token2 OTP) and programmable TOTP tokens, and behind
its SSH agent. The rules are written in Rust and proved with Verus.

- `src/` is the library. It decides and computes, and talks to no device: for
  each command it gives the operations to carry out, in order, and says what
  becomes of each answer. What it promises stands in the `ensures` clauses, and
  what holds across functions in the public proof functions named `law_*`.
- `tests/` runs the library on concrete values.
- `app/` is the program: the command line, the devices, files and the terminal.
  It carries out what the library plans. It needs the `keyroost_*` driver crates.

| Modules | What they hold |
| --- | --- |
| `overview`, `select`, `pick`, `device` | which device a command means, and what is listed |
| `piv`, `piv_report`, `openpgp`, `oath`, `args`, `pem` | the smart-card applets |
| `fido`, `fido_report`, `blob` | FIDO2 and its large-blob store |
| `otp`, `otp_report`, `molto`, `molto_report`, `prog`, `probe` | the tokens |
| `factory_reset` | wiping a whole key, and proving it is the same one after a replug |
| `agent` | the SSH agent on PIV keys |
| `secrets`, `host` | where secrets come from, and how files are written |
| `sanitize`, `render`, `text`, `json_out`, `hashes` | what is shown |
