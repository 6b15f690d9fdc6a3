//! Syntactic analyser for a subset of C: from a sequence of tokens to an
//! abstract syntax tree, and from the tree to a printable outline.

pub mod arbol;
pub mod ast;
pub mod ast_print;
pub mod error;
pub mod gramatica;
pub mod lecturas;
pub mod origen;
pub mod parser;
pub mod prefijo;
pub mod texto;
pub mod token;

pub use arbol::{Arbol, Nodo};
pub use ast::{
    Almacenamiento, Bloque, Calificador, DeclExterna, Declaracion, Declarador, DeclaradorBase,
    EnumSpec, Enumerador, Especificadores, Etiqueta, Expr, ForInit, FuncionDef, Inicializador,
    InitDeclarador, ItemBloque, Iteracion, Literal, OperadorAsignacion, OperadorBinario,
    OperadorUnario, Parametro, Programa, Puntero, Salto, Seleccion, Sentencia, SizeofObjetivo,
    StructUnionSpec, SufijoDeclarador, Tipo, TipoPrimitivo,
};
pub use ast_print::{
    agregar_expr_infix, ast_a_arbol, fmt_almacenamiento, fmt_calificador, fmt_literal, fmt_operador_asignacion,
    fmt_operador_binario, fmt_operador_unario, fmt_puntero, fmt_tipo_primitivo,
};
pub use error::{describir_token, ErrorParseo, Resultado};
pub use parser::AnalizadorSintactico;
pub use token::{Posicion, TipoToken, Token};
