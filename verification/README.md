# escrow

An escrow for mentoring sessions, verified with Verus. A learner deposits tokens
for a session; the deposit is released to the mentor, in parts or at once, less
a platform fee; or it goes back to the learner; or, after a dispute, it is
settled by the administrator. An escrow that nobody touches releases itself some
time after its session.

- `src/contract.rs`: the entry points, which decide on plain values.
- `src/env.rs`, `src/table.rs`, `src/types.rs`: what they read and write.
- `src/model.rs`: what each of them does, as functions on mathematical values.
- `src/laws/`: what holds of all of them together: that deposits are covered,
  that settled escrows are final, who can change what, how high fees can get.
- `app/`: the Soroban contract around the library. It fetches what a call reads,
  asks for the authorizations that it needs, and does what was decided on.
