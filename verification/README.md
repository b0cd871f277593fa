# citationberg

The data model of CSL (Citation Style Language) styles and locales, verified
with Verus.

- `src/` is the library. Every type of a CSL style lives here, together with
  the logic that interprets it: reading CSL boolean and integer attributes,
  finding a dependent style's parent link, the delimiter fallbacks of a
  citation, typed date part forms, the test of a `cs:if` branch, term form
  fallbacks, the names of numbered terms and the documented defaults. Each
  function carries a contract, and `pub proof fn`s state the laws that tie
  several of them together (date form typing, fallback chains, attribute
  reading).
- `app/` reads styles from XML with serde and quick-xml. It holds copies of
  the library's types that derive `Deserialize`, conversions in both
  directions, and `from_xml`. The attribute readers it relies on are the
  verified ones of the library.
- `tests/` exercises the library on concrete values.
