# Universal invoices and transaction-output seals

A library of two parts.

* Invoices: amounts, currencies, quantities, intervals, beneficiaries and the
  invoice that holds them, with their texts and the order of invoices.
* Seals (`seals`): the witness that shows that single-use seals over transaction
  outputs were closed over a message.

`src/` is written in Verus. The contracts speak of views and spec functions; the
proof functions named `law_...` state what holds across functions. Calls of other
crates stand behind small functions whose contracts are believed; each says in its
doc comment what is claimed of the outside function:

| module              | crates                                |
|---------------------|---------------------------------------|
| `address`           | `bitcoin`                             |
| `beneficiary`       | `lnpbp`, `miniscript`                 |
| `chain`             | `lnpbp`                               |
| `seals::commitment` | `bp-consensus`, `bp-dbc`, `commit_verify` |
| `text`              | std (`String::push`, `str::trim`, `str::to_lowercase`) |

`app/` is ordinary Rust: the encoded forms of invoices and the impls of traits of
other crates. `tests/` holds the tests.
