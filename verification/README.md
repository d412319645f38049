# pluto

Verified decision logic of three CosmWasm contracts, written in Verus:

- `lottery`: fast draws (five players, one ticket each), daily draws (any
  number of tickets) and jackpot lotteries fed by both. Opening lotteries,
  buying tickets, drawing the winner and splitting the stake.
- `airdrop`: merkle-root airdrops in stages; a claim is granted once per stage
  when its merkle proof (Keccak-256, siblings ordered byte-wise) leads to the
  stage's root.
- `distributor`: splits a token balance between an operations wallet, a
  collector and an angel wallet, and totals what the angel received.

`src/` holds the library. Each entry point's decision is a function from the
values read from chain storage to the values to store and the payments to
make, with a contract over a mathematical model of the state. The inputs on
which a step would panic are excluded by `requires`, and for each such
function a companion `*_panics` function reports them. Laws that span calls
(well-formedness of lotteries, conservation of stakes, the order used for
merkle proofs) are proof functions in the `laws` modules. The `history`
modules model what each contract keeps in storage and how every call changes
it, using the same spec functions as the contracts of the entry points; over
any sequence of calls they prove that lottery ids are never handed out twice,
that every stored lottery stays well formed, that an address claims each
airdrop stage at most once, how registrations number the airdrop's stages,
and that the distributor's angel totals grow by exactly what the angel
received.

`app/` wires the library to cosmwasm: messages, storage, entry points and
responses.

`tests/` runs the library on concrete values.
