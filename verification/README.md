# aths_server

The request handling of a small athletics service (World Athletics scoring
points, users and logins, machine details), written in Verus.

- `src/` is the verified library: the decision each endpoint takes on the
  values fetched for it, the JSON replies it sends (`reply::Reply`), password
  hashing and checking through `pwhash` (`bcrypt`), the user and request
  records, and the column split of the points data for a bulk insert.
- `app/` is the server around it: axum routes, the Postgres pool, the data
  file, the processor sampling and the serde/sqlx copies of the records.
- `tests/` exercises the library on concrete values.
