# Analizador sintáctico (C-like), verified

A recursive-descent syntactic analyser for a subset of C. It takes the tokens
that a C lexer produces, builds the abstract syntax tree (`Programa`), and
prints the tree as an outline. The library is written in Verus: every reading
function is proved to do exactly what the grammar in `src/gramatica.rs` says
of the tokens where it starts, and the printer is proved to write exactly the
outline that `src/ast_print.rs` defines.

## Layout

| File | What it holds |
|------|---------------|
| `src/token.rs` | Tokens: kind, lexeme, position |
| `src/ast.rs` | The syntax tree and its mathematical model |
| `src/gramatica.rs` | The grammar as spec functions over the tokens |
| `src/parser.rs` | The analyser, proved against the grammar |
| `src/origen.rs` | Laws: errors speak of the tokens; the source text changes only the line an error shows |
| `src/prefijo.rs` | Laws: reading after a prefix; a byte order mark and preprocessor lines change nothing of what is read |
| `src/error.rs` | Syntax errors and their message |
| `src/arbol.rs` | Trees of texts and their outline |
| `src/ast_print.rs` | From the syntax tree to a tree of texts |
| `src/texto.rs` | Numerals, spaces, joining, lines of a text |
| `app/main.rs` | Command line: reads a `.c` file, runs the lexer, prints the tree |

## Use

```
analizador_sintactico ejemplos/ejemplo.c
```
