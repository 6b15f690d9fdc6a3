//! Laws of reading: what a few shapes of tokens read as, whatever tokens
//! stand around them.

use crate::gramatica::{
    Contexto, Falla, desplegar_sp_enum, desplegar_sp_postfija, desplegar_sp_postfija_desde, desplegar_sp_primaria, desplegar_sp_sentencia, desplegar_sp_struct_union, desplegar_sp_tipo, desplegar_sp_tipo_punteros, desplegar_sp_unaria, sp_enum, sp_etiquetada, sp_sentencia, sp_sentencia_expr, sp_struct_union, sp_tipo, sp_unaria,
};
use crate::ast::{
    SpecEnum, SpecEtiqueta, SpecExpr, SpecSizeofObjetivo, SpecStructUnion, SpecTipo, Tipo, TipoPrimitivo,
};
use crate::token::{
    TipoToken, valor_de,
};
use vstd::prelude::*;

verus! {

/// The keyword that names a primitive type.
pub open spec fn palabra_de(p: TipoPrimitivo) -> TipoToken {
    match p {
        TipoPrimitivo::Void => TipoToken::Void,
        TipoPrimitivo::Char => TipoToken::Char,
        TipoPrimitivo::Short => TipoToken::Short,
        TipoPrimitivo::Int => TipoToken::Int,
        TipoPrimitivo::Long => TipoToken::Long,
        TipoPrimitivo::Float => TipoToken::Float,
        TipoPrimitivo::Double => TipoToken::Double,
        TipoPrimitivo::Signed => TipoToken::Signed,
        TipoPrimitivo::Unsigned => TipoToken::Unsigned,
    }
}

/// The token at `i` is of kind `k`.
pub open spec fn es(c: Contexto, i: int, k: TipoToken) -> bool {
    0 <= i < c.tokens.len() && c.tokens[i].tipo == k
}

/// The name at `i` as an expression.
pub open spec fn nombre_en(c: Contexto, i: int) -> SpecExpr {
    SpecExpr::Identificador { posicion: c.tokens[i].posicion, nombre: valor_de(c.tokens[i]) }
}

/// `x` alone, before `;`, reads as the name `x`.
proof fn lema_nombre_suelto(c: Contexto, p: int)
    requires
        es(c, p, TipoToken::Identificador),
        es(c, p + 1, TipoToken::PuntoYComa),
    ensures
        sp_unaria(c, p) == Ok::<(SpecExpr, int), Falla>((nombre_en(c, p), p + 1)),
{
    desplegar_sp_unaria(c, p);
    desplegar_sp_postfija(c, p);
    desplegar_sp_primaria(c, p);
    desplegar_sp_postfija_desde(c, p + 1, nombre_en(c, p));
}

/// A primitive type keyword between parentheses, then a name and `;`: the
/// type keyword is read as that type, up to `)`.
proof fn lema_tipo_primitivo(c: Contexto, p: int, t: TipoPrimitivo)
    requires
        es(c, p, palabra_de(t)),
        es(c, p + 1, TipoToken::ParentesisDer),
    ensures
        sp_tipo(c, p) == Ok::<(SpecTipo, int), Falla>((SpecTipo::Primitivo(t), p + 1)),
{
    desplegar_sp_tipo(c, p);
    desplegar_sp_tipo_punteros(c, p + 1, SpecTipo::Primitivo(t));
}

/// A cast: `(` and a primitive type keyword, `)`, and an operand, read as a
/// cast of the operand to that type, for every primitive type.
pub proof fn lema_cast_a_primitivo(c: Contexto, p: int, t: TipoPrimitivo)
    requires
        es(c, p, TipoToken::ParentesisIzq),
        es(c, p + 1, palabra_de(t)),
        es(c, p + 2, TipoToken::ParentesisDer),
        es(c, p + 3, TipoToken::Identificador),
        es(c, p + 4, TipoToken::PuntoYComa),
    ensures
        sp_unaria(c, p) == Ok::<(SpecExpr, int), Falla>(
            (
                SpecExpr::Cast {
                    posicion: c.tokens[p].posicion,
                    tipo: SpecTipo::Primitivo(t),
                    expr: Box::new(nombre_en(c, p + 3)),
                },
                p + 4,
            ),
        ),
{
    desplegar_sp_unaria(c, p);
    lema_tipo_primitivo(c, p + 1, t);
    lema_nombre_suelto(c, p + 3);
}

/// A cast to a named type: `(`, a name, `)`, and an operand.
pub proof fn lema_cast_a_nombre(c: Contexto, p: int)
    requires
        es(c, p, TipoToken::ParentesisIzq),
        es(c, p + 1, TipoToken::Identificador),
        es(c, p + 2, TipoToken::ParentesisDer),
        es(c, p + 3, TipoToken::Identificador),
        es(c, p + 4, TipoToken::PuntoYComa),
    ensures
        sp_unaria(c, p) == Ok::<(SpecExpr, int), Falla>(
            (
                SpecExpr::Cast {
                    posicion: c.tokens[p].posicion,
                    tipo: SpecTipo::Nombre(valor_de(c.tokens[p + 1])),
                    expr: Box::new(nombre_en(c, p + 3)),
                },
                p + 4,
            ),
        ),
{
    desplegar_sp_unaria(c, p);
    desplegar_sp_tipo(c, p + 1);
    lema_nombre_suelto(c, p + 3);
}

/// `sizeof` and a primitive type keyword between parentheses read as the
/// size of that type, for every primitive type.
pub proof fn lema_sizeof_primitivo(c: Contexto, p: int, t: TipoPrimitivo)
    requires
        es(c, p, TipoToken::Sizeof),
        es(c, p + 1, TipoToken::ParentesisIzq),
        es(c, p + 2, palabra_de(t)),
        es(c, p + 3, TipoToken::ParentesisDer),
    ensures
        sp_unaria(c, p) == Ok::<(SpecExpr, int), Falla>(
            (
                SpecExpr::Sizeof {
                    posicion: c.tokens[p].posicion,
                    es_tipo: true,
                    objetivo: SpecSizeofObjetivo::Tipo(SpecTipo::Primitivo(t)),
                },
                p + 4,
            ),
        ),
{
    desplegar_sp_unaria(c, p);
    lema_tipo_primitivo(c, p + 2, t);
}

/// After `struct` or `union`, a name is the tag, also where no member list
/// follows: `struct s *p` reads the type `struct s` with no members, and
/// reading goes on after the name.
pub proof fn lema_struct_con_nombre(c: Contexto, p: int, es_struct: bool)
    requires
        es(c, p, if es_struct {
            TipoToken::Struct
        } else {
            TipoToken::Union
        }),
        es(c, p + 1, TipoToken::Identificador),
        0 <= p + 2 < c.tokens.len(),
        !es(c, p + 2, TipoToken::LlaveIzq),
    ensures
        sp_struct_union(c, p, es_struct) == Ok::<(SpecTipo, int), Falla>(
            (
                if es_struct {
                    SpecTipo::Struct(
                        SpecStructUnion { nombre: Some(valor_de(c.tokens[p + 1])), miembros: Seq::empty() },
                    )
                } else {
                    SpecTipo::Union(
                        SpecStructUnion { nombre: Some(valor_de(c.tokens[p + 1])), miembros: Seq::empty() },
                    )
                },
                p + 2,
            ),
        ),
{
    desplegar_sp_struct_union(c, p, es_struct);
}

/// After `enum`, a name is the tag, also where no list of enumerators
/// follows.
pub proof fn lema_enum_con_nombre(c: Contexto, p: int)
    requires
        es(c, p, TipoToken::Enum),
        es(c, p + 1, TipoToken::Identificador),
        0 <= p + 2 < c.tokens.len(),
        !es(c, p + 2, TipoToken::LlaveIzq),
    ensures
        sp_enum(c, p) == Ok::<(SpecTipo, int), Falla>(
            (
                SpecTipo::Enum(
                    SpecEnum { nombre: Some(valor_de(c.tokens[p + 1])), enumeradores: Seq::empty() },
                ),
                p + 2,
            ),
        ),
{
    desplegar_sp_enum(c, p);
}

/// A statement that starts with a name is a labelled one only where `:`
/// follows the name; otherwise it is an expression statement.
pub proof fn lema_nombre_sin_dos_puntos(c: Contexto, p: int)
    requires
        es(c, p, TipoToken::Identificador),
        !es(c, p + 1, TipoToken::DosPuntos),
    ensures
        sp_sentencia(c, p) == sp_sentencia_expr(c, p),
{
    desplegar_sp_sentencia(c, p);
}

/// A name and `:` label the statement after them.
pub proof fn lema_nombre_con_dos_puntos(c: Contexto, p: int)
    requires
        es(c, p, TipoToken::Identificador),
        es(c, p + 1, TipoToken::DosPuntos),
    ensures
        sp_sentencia(c, p) == sp_etiquetada(
            c,
            p + 2,
            c.tokens[p].posicion,
            SpecEtiqueta::Identificador(valor_de(c.tokens[p])),
        ),
{
    desplegar_sp_sentencia(c, p);
}

/// An expression statement made of a member assignment, `p -> x = v ;`,
/// starting with a name and `->`, is read as that assignment, not as a
/// label.
pub proof fn lema_asignacion_a_miembro_no_es_etiqueta(c: Contexto, p: int)
    requires
        es(c, p, TipoToken::Identificador),
        es(c, p + 1, TipoToken::Flecha),
    ensures
        sp_sentencia(c, p) == sp_sentencia_expr(c, p),
{
    lema_nombre_sin_dos_puntos(c, p);
}

} // verus!
