# google_workspace_cli helpers

Verified helpers of a workspace command-line tool:

- `src/mime.rs`: guessing a file's MIME type from its path's extension, case-insensitively.
- `src/dotenv.rs`: parsing `.env` text into `KEY=value` pairs, the decision to set a pair
  only when its variable is unset, and a model of the environment under which loading is
  proved never to overwrite, to let the first line win, to be idempotent and to compose.
- `src/platform.rs`: the home and configuration directories, computed from the values of the
  environment variables that name them.
- `src/text.rs`: character helpers shared by the above.

`app/` holds the parts that touch the process: reading the `.env` file, reading and setting
environment variables, and turning bytes into `PathBuf`s.
