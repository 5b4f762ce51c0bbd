# resume_mainframe

A registry of résumés that runs on a small router. It keeps profiles with their
skills, experiences and projects in a database, guards notes against lost
updates, shows news in the header of its page, and puts the clients of its
network behind a captive portal.

- `src/` is the library, verified with Verus.
  - `records`, `rows`, `json`, `store`, `saves`: the records, the rows they are
    kept in, and the statements that save them. What is saved is read back.
  - `edits`, `search`: requests for single records, and their replies.
  - `runs`, `steps`, `dashboard`, `seed`: the dashboard, the upload of a whole résumé, and
    the data that the registry starts with.
  - `notes`: versions of notes. Of two saves of one version, one is refused.
  - `news`: the headline, and what listeners are sent.
  - `commands`, `portal`, `rules`: the commands of the portal, and how they undo
    one another.
  - `page`, `picture`, `status`, `text`: what the others share.
- `app/` is the server around it: routes, database, files, forks.
- `tests/` run the library, some of them on a database in memory.
