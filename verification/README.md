# hockey

A hockey match engine for a card game on NEAR, with its bookkeeping, written in Verus.

- `src/classic`: the first engine (field players and goalies with five ratings, actions
  chosen by role weights).
- `src/game`: the current engine. Teams carry four lines, two power-play and two
  penalty-kill units; each turn plays an event chosen from the block's random seed
  (`step`, `play_turn`), then line changes, penalties and the end of a period. Ratings
  that were fractions are kept as integers (thousandths, basis points or percent).
- `src/manager.rs`: players' records, the sharing of a match's reward, bids.
- `src/lobby.rs`: the players waiting for a match, and the checks before one starts.
- `src/accounts.rs`: friends and requests to play between players.
- `src/nft`: rarities, packs and royalties, the free team and the owners' teams of
  cards, team sheets of the card market.
- `src/ids.rs`: sets of ids and amounts by id kept in vectors.
- `app/`: the contracts around the library: state, caller, deposit, time and random seed
  of the chain, transfers.

Contracts are stated over spec functions; the laws that span several calls are public
proof functions (`lemma_*`).
