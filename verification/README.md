# kafka_tutorial

The scoring and display rules of a Kafka classroom, verified with Verus.

Teams of students build consumers and producers against a shared cluster.
A scoreboard watches their consumer groups and the topics they write to and
unlocks step achievements; a second leaderboard adds bonus achievements,
error indicators and topic tabs; a simulator plays all fifteen teams, each
with its own user filter.

- `src/` is the verified library: achievements and team state
  (`backend`, `leaderboard`), the leaderboard order (`ranking`), bounded
  event buffers (`event_buffer`), action validation, consumer group status
  and lag decisions, navigation state, display texts, settings defaults,
  client configurations (`kafka`) and the simulator's filters and counters
  (`simulator`).
- `app/` holds the programs around it: settings files, the brokers, the
  terminal user interface, and the serde forms of the messages.
- `tests/` exercises the library from outside.

## Scoring rules for the bonus badges

The achievement list describes three bonus badges by a threshold only (100+
valid actions, 50+ messages without an error, a lag of 100+ consumed), and
the settings hold no section for such thresholds. The library fixes them as
follows:

- HighThroughput is unlocked at 100 valid actions, CleanStreak at 50
  messages in a row without an error; a parse error or a missing-fields
  error ends the clean streak (`TeamStateView::valid_scored`,
  `TeamStateView::error_recorded`).
- Every message of a team on the actions topic, valid or not, counts as
  consumed by it.
- When a team's group is seen active, its lag is the high watermark of the
  `new_users` topic minus the messages it has consumed, never below zero
  (`estimated_lag`); LagBuster then asks for a peak lag of
  100 or more and a current lag of zero.

The thresholds are constants (`HIGH_THROUGHPUT_ACTIONS`,
`CLEAN_STREAK_MESSAGES`, `SCALED_MEMBERS`, `EXPLORER_MEMBERS`) rather than
settings, since the settings file defines no such section. With these the
Champion badge, which asks for HighThroughput, CleanStreak and LagBuster,
can be won.
