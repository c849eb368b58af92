# ebnf_jsx

Reads an EBNF grammar (with the `ebnf` crate) and generates two TypeScript
files for a structural editor: `components.tsx`, one React component per rule,
and `ast.ts`, one AST class per rule. Templates are rendered with Tera.

Layout:

- `src/tree.rs`: the grammar tree, its view, and `alternation_to_list`.
- `src/text.rs`: numerals, id paths, `list_to_str`, `upper`.
- `src/describe.rs`: `node_to_string`, `type_of`, `longest_multiple`, `undefinded`.
- `src/ids.rs`: `node_to_ids`, the ids of a rule's choice points.
- `src/jsx.rs`: `node_to_jsx`, the JSX body of a rule's component.
- `src/templates.rs`, `src/render.rs`, `src/rendered.rs`: the templates, their rendering, and the text each renders to.
- `src/parse.rs`: reading the grammar source.
- `src/generate.rs`: the two generated files of a grammar.
- `src/laws.rs`: properties proved across the functions above.
- `app/main.rs`: writes the files for the built-in grammar.
