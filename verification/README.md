# user_service

A user service: it creates users with random nicknames for the people who sign
in through an authentication provider, and finds the user that an
authentication belongs to. Its rules are a Verus library under `src/`, proved
against their contracts; `app/` is the gRPC server around it (configuration,
the Oracle connection pool, units of work, the repositories, the controller).

Modules of the library:

- `text`: decimal rendering and character access.
- `kernel`: the authentication provider, the provider's identifier of a user,
  the service's user identifier.
- `nickname`: nicknames and their length rule (1 to 20 characters).
- `user`: users, their authentications, summaries, and the use cases' requests.
- `errors`: the unit of work's identifier and errors, and the use cases' and
  repositories' errors.
- `atomic`: the decisions of running work in one unit of work.
- `uow`: a unit of work on Oracle.
- `generator`: random nicknames (an adjective, a noun and a number).
- `service`: the decisions of the two use cases, with the bound on retries.
- `error_code`: structured error codes, statuses and the authentication
  headers.
- `grammar`: Oracle's unique-constraint reports and configuration
  placeholders, read character by character.
- `persistence`: rows, how they become users and back, and database errors.
- `config`: the configuration and where it is read from.
