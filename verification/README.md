# setheum

Verified runtime parameters and node start-up decisions of the Setheum chains
(Setheum, Neom, NewRome).

- `src/currency.rs` – dollar, cent, millicent, microcent and storage deposits.
- `src/fractions.rs` – parts-per-billion ratios and 18-decimal rates, computed by `sp-arithmetic`.
- `src/runtime.rs` – transaction priority, dispatch ratios, block length and weight limits, validator filter.
- `src/fee_rates.rs` – the fee rate matrix.
- `src/chain.rs` – telling the networks apart by chain identifier; runtime choice for chain operations.
- `src/service.rs` – import queue, chain selection, collator and authoring decisions of a node.
- `app/` – the FRAME and Substrate service code around the library.
