# travel_id

A verified ledger for a traveler identity and reputation system on Stellar
Soroban: traveler passports, tourism service providers that an admin
verifies, visits stamped by verified providers, reviews that must link to
such a visit, soulbound achievement badges, payment reputation and a
composite trust score.

Layout:

- `src/` is the library, verified with Verus.
  - `types.rs`: addresses, records, badge types and errors.
  - `table.rs`: a finite map kept as a vector of entries, viewed as a `Map`.
  - `ledger.rs`: the ledger as maps (`TravelLedger`), what each request does
    to it, and the invariant that every reachable ledger keeps.
  - `score.rs`: the payment score and the trust score.
  - `contract.rs`: `TravelIDContract`, the ledger and its requests, each
    proved against `ledger.rs`. Requests that stamp a time take it as
    their last argument, `now`.
  - `laws.rs`: properties that span requests.
- `tests/`: scenarios run against the library.
- `app/`: the Soroban contract: authorization, storage, the ledger close
  time and the conversion between Soroban values and the library's values.
