# natebot

A Discord bot (dice rolls, pictures, patch-note subscriptions, presence,
purges, a message lottery, music requests) and the Redis job queue that feeds
its workers.

The library in `src/` holds the bot's logic, written in Verus and verified:
configuration loading, the dice grammar, patch-note embeds, database records,
the replies of the commands and the steps of the longer ones (as small state
machines that say what to do next and what to answer: `play`, patch
subscriptions, adding and removing pictures, the lottery, start-up), the
decisions of the work queue, and the requests made to Soundcloud and Steam. Laws that span functions stand in
`src/` as public proof functions (`lemma_*`).

`app/` is the bot itself: it talks to Discord (serenity, poise), Postgres
(sqlx), Redis and web services, and asks the library what to do at each step.
The music and role commands are verified in the library but not registered
by the bot: sound needs songbird, which this build does not link, and the
roles channel and its reaction emoji are not defined here.

`tests/` runs the library on concrete values.
