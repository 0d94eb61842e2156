# webspider

A small web spider. A supervisor keeps a stack of URIs to crawl, hands
them out to a pool of crawlers and records the pages they bring back. It
announces the end of the crawl only when a crawler's report finds no URI
queued and no crawler busy; a crawler that reports while URIs are queued
stays booked as busy, so a crawl that ever queued more work may never be
announced over. A spider starts the supervisor and polls its status.

- `src/` is the library, verified with Verus: the supervisor as a state
  machine (`spider_sup`) and the properties that hold across its events
  (`supervision`), page scraping (`web`, `scrape`), crawl orders
  (`crawl`), configuration and polling (`spider`), the channel and the
  messages (`common`), errors, and the store's write rule (`db`).
- `app/` is the program around it: the actix actors, HTTP fetching with
  hyper, the LMDB store, serde forms of the library's types, and the
  command line.
- `tests/` exercises the library on concrete values.
