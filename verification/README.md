# bairrou-coupons

A coupon campaign contract. An admin sets up a campaign with a fixed supply of
coupons and an expiration time, keeps a list of users who may claim coupons and
a list of partners who may redeem them. Eligible users claim numbered coupons;
partners redeem them, which burns them; the admin may also burn a coupon.

Layout:

- `src/` is the verified library.
  - `types.rs`: accounts, coupons, the campaign, events and errors.
  - `rules.rs`: for each entry point, the decision taken from what the call
    reads: whose authorization it needs, what it answers, which writes it makes.
  - `storage.rs`: the ledger state, the writes (`Action`) and what each does to
    the state; the contract's reads and writes on an in-memory ledger.
  - `tables.rs`: the keyed collections that hold the records.
  - `lib.rs`: the entry points of `BairrouCouponsContract`, run on a ledger.
  - `laws.rs`: what holds across calls, proved.
- `app/` is the contract on the Soroban host: it reads the host's storage,
  lets the library decide, demands the named authorization and performs the
  writes on the host.
- `tests/` runs the entry points on the in-memory ledger.
