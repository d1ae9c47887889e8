# rusty_faker_core

Fake data in the manner of Python's Faker — names, addresses, companies, phone numbers,
internet values, lorem text and dates — with every generator's contract stated and
proved by Verus.

## Layout

- `src/` is the verified library.
  - `generator.rs`, `rng.rs`, `table.rs`: the generator, its PCG-64 random stream and
    the weighted tables it draws from.
  - `template.rs`, `render.rs`: `{{ token }}` templates, their tokenizer and renderer,
    and `Generator::parse`.
  - `locale.rs`, `en_us.rs`: locale data and its well-formedness check; the `en_US`
    tables.
  - `base.rs`, `person.rs`, `address.rs`, `company.rs`, `phone_number.rs`,
    `internet.rs`, `ipv6.rs`, `net.rs`, `lorem.rs`, `date_time.rs`,
    `date_time_gen.rs`: the providers.
  - `text.rs`, `chars.rs`, `fmt.rs`: slugify, ASCII folding, title casing, number
    formatting.
  - `replay.rs`: seeded reproducibility — what the providers draw is a function of the
    data, the weighting and the state of the random stream.
- `tests/`: tests run against the compiled library.
- `app/`: the PyO3 extension module `rusty_faker._core`, which converts between Python
  objects and the library's values.

Calls into `rand`/`rand_pcg`, `chrono`, `deunicode` and `unicode-normalization` go
through small trusted wrappers whose contracts say what those crates document; the
logic around them is verified. Instants are drawn in whole microseconds, and item
weights are integers.
