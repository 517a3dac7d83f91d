# storm_backend

The payment backend of the STORM shop: it receives Stripe's
`checkout.session.completed` webhooks, records each payment in the shop
database, e-mails the customer, reports the sale to the umami analytics server
and announces it on Discord.

- `src/` is the library, verified with Verus: reading a checkout session as a
  payment (`stripe`), the recording of a payment as a state machine that names
  each database query (`db`), the order of the processing stages and the HTTP
  status of each failure (`routes`), and the content of the e-mail, analytics
  event and Discord message (`services`).
- `app/` is the server around it: configuration from the environment, the
  actix-web endpoint, the database (toasty), SMTP (lettre) and HTTP (reqwest)
  calls, and the JSON forms of the messages.
- `tests/` runs the library on concrete payments.

Amounts are held in minor units of the currency (cents); the server converts
them where the database or the analytics server expects a decimal number.
