# cndk8

Two Telegram bots that file what their maintainer sends them into a markdown
"second brain", with their logic in a library verified by Verus.

- `src/` is the library, verified with Verus:
  - `bot`: the conversation state, who may use the bots, what each bot does
    with a received message, and the `/help` answer;
  - `markdown`: the notes written for text messages, links and photos;
  - `title`: titles of links, from the URL for well-known sites or from the
    page's `<title>`;
  - `url_handler`: URLs as the `url` crate normalizes them;
  - `text`, `number`: trimming, byte slicing, decimal numerals;
  - `listing`, `brain`, `seeding`: directory listings, the second brain's
    types, and phrase-seeded random characters.
- `app/` is the program around it: Telegram (teloxide), web requests
  (reqwest), files and environment variables.  It runs the note bot; with
  `link-bot`, `list` or `seed` as first argument it runs the link bot, prints
  the working directory's entries, or prints the phrase-seeded characters.
- `tests/` runs the library against the real outside crates.
