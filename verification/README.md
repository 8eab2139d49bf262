# nobs

A small self-hosted viewer for git repositories.

- `src/` is the library, verified with Verus: the phrasing of times
  ("3 days ago"), the string cache, the configuration, the registry of
  repositories found, the assembly of a repository's details, the routing
  and static-file decisions of the HTTP services, and the answers of the
  repository pages.
- `app/` is the program around it: reading `nobs.toml`, scanning the
  source directories with `walkdir`, reading repositories with `git2`,
  rendering `tera` templates, and serving them with `actix-web` and `hyper`.
- `tests/` exercises the library on concrete values.
