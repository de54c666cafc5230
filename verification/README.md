# dataregi

A registry of documents (mostly spreadsheets) that users upload, or send by
e-mail, share with one another and group into organizations, so that the
versions of a document can be found again.

- `src/` is the library, verified with Verus: identifiers and their text,
  errors and statuses, timestamps and token expiry, the records and the
  per-user limits, the login context, who may see, share and withdraw
  documents, organizations and their members, the planning of document
  listings, the pages of the site and the e-mail login, and the reading of
  messages that arrive by e-mail.
- `tests/` exercises the library on concrete values.
- `app/` is the Rocket server around it: HTTP routes, the Postgres database
  (Diesel), cookies, templates, and the AWS services (SES, SQS, S3).
