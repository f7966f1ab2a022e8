# game_night

The logic of a small web service that organises game nights: date polls and how
they are finalised, the archive of past events, invitations with passphrases,
login codes and links, registration, profiles and web push.

- `src/` is the library, written in Verus: every function there states what it
  does in its `requires` and `ensures`, and Verus proves it. The calls into other
  crates (`time`, `time-tz`, `rand`, `itertools`, `url`, `email_address`,
  `base64`, `pem-rfc7468`) sit in small trusted functions whose doc comments say
  what is assumed of them.
- `tests/` runs the library on concrete values.
- `app/` is a small command-line program around the library: it keeps the keys
  that the server generates for itself and lists the push notification templates
  with the number of texts each holds. `app/flows.rs` runs the library's step
  functions (registering, finalising a poll, telling users of a new poll) against
  a database and mail backend given as a trait.
