# gacha_gotcha

The decision logic of an on-chain game of mystery card packs with an NFT
auction house, written in Verus and verified.

Players buy packs, paying the pack admin, commit each pack to a Switchboard randomness account, and
open it once the randomness is revealed: every card's rarity is drawn from one
random byte by the pack's rarity weights, and each card gets a mint address
derived from its index, rarity and byte. Sellers list Core assets in auctions
whose account holds the highest bid; bidders outbid each other (the outbid
bid is moved straight back out of the auction account), the seller settles
after the end time, or cancels while no one has bid.

* `src/` holds the verified library. Each instruction is a module with a
  struct of the account values its handler reads, a method that decides the
  instruction, and a spec function stating exactly what the method does
  (`buy_pack_spec`, `bid_spec`, ...). The handlers return the lamport and
  asset transfers that the runtime must carry out. `laws.rs` proves the
  properties that span instructions: supply is never exceeded, packs move
  one step at a time and an opened pack is final, draws follow the weights,
  the auction account keeps its rent plus exactly the highest bid, settlement pays the
  seller and delivers to the highest bidder, and no cancellation after a bid.
* `pda.rs` and `randomness.rs` call `Pubkey::try_find_program_address` and
  Switchboard's randomness account parser through trusted wrappers whose
  contracts are stated in their doc comments.
* `tests/` runs the library on concrete accounts.
* `app/` is the Anchor program: it validates accounts, reads the clock,
  calls the library and performs the transfers it returns.
