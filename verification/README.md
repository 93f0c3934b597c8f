# cocktail_catalogue

The backend of a cocktail catalogue: a GraphQL API over cocktails, their
ingredients, ingredient types, authors and ratings.

- `src/` is the verified library: the server settings and URLs,
  the records of the two GraphQL schemas, the input rules (`min_length`), the
  plans of the database writes that create cocktails and ingredient types and
  the assembly of the records from the rows the database returns, with the
  law that a created cocktail reads back what was asked for; the creation of
  a cocktail as a step function from state and answer to the next statement,
  which stops at the first failed statement; and the clock readings.
- `app/` is the program around it: the axum and actix-web servers, the
  async-graphql and juniper resolvers, the SQL statements and logging.
- `tests/` runs the library on concrete values.
