# niffyinsure

Verified core of the NiffyInsure Soroban insurance contract.

- `src/` — the library, proved with Verus:
  - `premium` — factor tables, the annual premium, its checked variant and
    the per-component breakdown, with the laws that tie them together;
  - `types` — policy, region, claim-status, vote and oracle enums, quote
    records and field limits;
  - `storage` — counter rules behind the ledger entries (missing entries
    read as zero, ids are issued consecutively from 1);
  - `policy` — quote error kinds and the support-code mapping.
- `app/` — the Soroban contract itself: `contracttype` copies of the
  records, ledger storage access and the contract entry points.
- `tests/` — executable tests of the library.
