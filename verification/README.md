# twofauth_client

The verified core of TwoFAuth Client, a GTK desktop client for a self-hosted
2FAuth server, written in Verus.

- `src/` is the library, proved by Verus against its `requires` / `ensures`.
  Where a result comes from outside the program, the contracts state what is
  handed over and what is done with the answer, not the answer itself: the
  translations (a `gettext::Translation` records which message was looked up
  in which text domain, a record that only the lookup `tr` itself can set,
  and the error messages state which message that is and what is added to
  the answer) and what the system keyring keeps between calls
  (`token_store`). The modules:
  - `text`: trimming, suffix removal, substring search and decimal digits on
    strings, specified over their characters;
  - `config`: the checks on the server address (HTTPS by default, HTTP only
    when allowed), its normalization, and the configuration with its defaults;
  - `ui_state`: the remembered collapse state of account groups;
  - `models`, `account_list`: the accounts and groups, and which accounts the
    list shows for a search, in which sections, with which counts;
  - `otp`: how a code is shown and when a time-based code runs out;
  - `icons`: the icon that is fetched and the file it is cached in;
  - `client`: the API endpoints, the verdict on a response status, the errors
    of a request and the server time of a response;
  - `gettext`, `i18n`, `settings`: the message lookups in a text domain
    whose translations come in UTF-8, the messages for errors, and the decisions of the setup and
    settings dialogs: the insecure-HTTP switch, which turns on only through
    its warning, and the order in which settings are saved after the
    connection test;
  - `icons` also decides between the icon cache and a download;
  - `token_store`: which keyring entry holds the access token, and what was
    handed to it or read from it.
  Laws that span several calls are public proof functions named `law_*`.
- `app/` is the GTK application around it: windows, HTTP requests, files on
  disk and the translation catalogues.
- `tests/` runs the library on concrete values.
