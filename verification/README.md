# two-mls-pq

One-to-one, asynchronous, end-to-end encrypted messaging sessions on MLS. Each side owns a send
group, made of a classical MLS group and a post-quantum one, and receives in the peer's. Every
message frame carries the latest commit of its sender's group, so that any single frame brings
the receiver up to date; frames are sealed as a whole under a key that both sides export.

The library is verified with Verus. It decides what a session does and keeps its state; it does
not hold MLS groups. An operation runs in three steps:

1. `*_plan` says what the groups are to do, in order;
2. the host does it, and reports the outcome as plain values;
3. the operation itself settles the session with that outcome.

What the host did not get to do, or what failed, is part of the outcome: settling says which
error is reported and what was spent before it.

## Layout

- `src/pq/`: the session. `state` holds its data and what every operation keeps; `establish`,
  `prepare`, `messaging`, `incoming` and `pq_ops` its operations; `windows` and `sealing` the
  per-epoch keys; `frames`, `codec` and `archive` the bytes; `persist` the sequence numbers;
  `providers` the calls into cryptography and MLS encoding; `laws` what holds across operations.
- `src/two_mls/`: the classical surface over it.
- `app/`: the session behind a lock, over a trait for the MLS stack.
- `tests/`: sessions of two parties, driven end to end over toy groups.

## What is taken on trust

The items marked `external_body` and `external_type_specification`: the digest, the header AEAD,
the making and parsing of key packages, the parsing of MLS messages, the derivation of a public
key, and the wiping of secrets. Each says what it claims of the function it calls. What a host reports of its groups is
not trusted to be true; the contracts hold whatever it reports, and `live` says what holds if it
reports truthfully.
