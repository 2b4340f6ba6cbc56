# mind

Central typed mind state for Persona agents: typed thoughts and relations,
technical memory nodes, accepted knowledge, subscriptions, and the text and
frame forms they travel in.

`src/` is the verified core, written in Verus:

- `graph`, `ordering`: thought, relation and technical-record queries (filters,
  supersession, commit-time order, limits) and subscription snapshots, with
  the laws that a query answers only stored, selected records, in order.
- `graph_admission`, `graph_ledger`, `compact_id`, `radix`: the checks a
  submission passes, the ledger of thoughts, relations and technical records
  that mints each record's compact sequence identifier (`aaa`, `aab`, ...)
  after its checks, and the law that no two
  identifiers collide, across reopens too.
- `technical_seed`: the public first slice of technical memory, stated node
  by node and relation by relation, each stable key held once and every
  relation joining two seed nodes.
- `subscription`: demand-based delivery of post-commit events with a bounded
  buffer; an event that waited is delivered in order once demand arrives.
- `knowledge`, `knowledge_identity`: accepted-knowledge admission (duplicates,
  the judge's verdict, fresh base-36 identities minted from random draws, the
  applied decision handed back to the judge) and lookup, with the laws that an accepted statement is found by its identity
  and that minting fails, with working randomness, only once every code is
  taken.
- `text`, `text_codec`, `nota_block`: the NOTA text forms of work-item
  requests (openings, notes, links, status changes, aliases and queries),
  read from and written to blocks, each read-back law proved.
- `configuration`, `configuration_writer`, `decimal`, `octal`: the daemon's
  startup configuration and the request that describes it.
- `frame`, `transport`, `supervision`, `meta`, `command`, `choreography`,
  `clock`: frame shapes and length limits, endpoints, socket modes and the
  supervision answers.

`app/` holds the programs around it: argument and environment reading, socket
and file I/O, and the binary configuration archive.
