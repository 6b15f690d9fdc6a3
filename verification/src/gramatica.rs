//! The grammar that the syntactic analyser recognises, as functions from a
//! sequence of tokens and a position to what is read there.
//!
//! Each function says, for the tokens from position `p` on, either what was
//! read and where reading stopped (`Ok((valor, q))`), or why it stopped: a
//! syntax error, or an attempt to take a token past the last one
//! (`Falla::FueraDeRango`). A few branches check that a part just read moved
//! forward; the analyser never takes them, and they only make plain that
//! reading ends.

use crate::ast::{
    Almacenamiento, Calificador, OperadorAsignacion, OperadorBinario, OperadorUnario,
    SpecDeclaracion, SpecDeclarador, SpecDeclaradorBase, SpecEnum, SpecEnumerador,
    SpecEspecificadores, SpecExpr, SpecInicializador, SpecInitDeclarador, SpecLiteral,
    SpecParametro, SpecSizeofObjetivo, SpecStructUnion, SpecSufijo, SpecTipo, TipoPrimitivo,
    SpecBloque, SpecItemBloque, SpecSentencia, SpecSalto, SpecEtiqueta, SpecSeleccion,
    SpecIteracion, SpecForInit, SpecDeclExterna, SpecFuncionDef, SpecPrograma,
};
use crate::error::{describir_token_esp, SpecError};
use crate::token::{nombre_tipo_esp, valor_de, Posicion, TipoToken, Token};
use vstd::prelude::*;

verus! {

/// What the analyser reads: the tokens, and the lines of the source text where
/// it was given them.
pub struct Contexto {
    pub tokens: Seq<Token>,
    pub lineas: Option<Seq<Seq<char>>>,
}

/// Why reading stopped.
pub enum Falla {
    Sintaxis(SpecError),
    FueraDeRango,
}

/// What was read and where reading stopped, or why it stopped.
pub type Avance<T> = Result<(T, int), Falla>;

pub open spec fn fuera<T>() -> Avance<T> {
    Err(Falla::FueraDeRango)
}

/// `q` lies after `p`, within the tokens.
pub open spec fn adelante(c: Contexto, p: int, q: int) -> bool {
    p < q <= c.tokens.len()
}

/// `q` lies at or after `p`, within the tokens.
pub open spec fn no_atras(c: Contexto, p: int, q: int) -> bool {
    p <= q <= c.tokens.len()
}

// ---------------------------------------------------------------------------
// Looking at the current token
// ---------------------------------------------------------------------------

/// Index of the current token: the last one once all were read.
pub open spec fn indice_actual(c: Contexto, p: int) -> int {
    if p < 0 {
        0
    } else if p < c.tokens.len() {
        p
    } else {
        c.tokens.len() - 1
    }
}

pub open spec fn token_actual(c: Contexto, p: int) -> Token {
    c.tokens[indice_actual(c, p)]
}

pub open spec fn tipo_actual(c: Contexto, p: int) -> TipoToken {
    token_actual(c, p).tipo
}

pub open spec fn pos_actual(c: Contexto, p: int) -> Posicion {
    token_actual(c, p).posicion
}

pub open spec fn es_fin(c: Contexto, p: int) -> bool {
    p >= c.tokens.len()
}

pub open spec fn coincide(c: Contexto, p: int, k: TipoToken) -> bool {
    !es_fin(c, p) && tipo_actual(c, p) == k
}

/// The token `k` places after the current one, if there is one.
pub open spec fn mirar(c: Contexto, p: int, k: int) -> Option<Token> {
    if 0 <= p + k < c.tokens.len() {
        Some(c.tokens[p + k])
    } else {
        None
    }
}

/// Line `l` (counted from 1) of the source text, where it was given.
pub open spec fn linea_de(c: Contexto, l: usize) -> Option<Seq<char>> {
    match c.lineas {
        Some(ls) => if 1 <= l <= ls.len() {
            Some(ls[l - 1])
        } else {
            None
        },
        None => None,
    }
}

/// An error at `posicion`, expecting `esperado`, having found `t`.
#[verifier::opaque]
pub open spec fn error_token(c: Contexto, posicion: Posicion, esperado: Seq<char>, t: Token) -> Falla {
    Falla::Sintaxis(
        SpecError {
            posicion,
            esperado,
            encontrado: describir_token_esp(t),
            linea_fuente: linea_de(c, posicion.linea),
        },
    )
}

/// An error at the current token, expecting `esperado`.
#[verifier::opaque]
pub open spec fn error_aqui(c: Contexto, p: int, esperado: Seq<char>) -> Falla {
    error_token(c, pos_actual(c, p), esperado, token_actual(c, p))
}

/// `e` speaks of the tokens of `c`: its position is that of one of them, what
/// it found describes one of them, and its source line is the line of its
/// position in the source text (where the text was given).
pub open spec fn error_del_texto(c: Contexto, e: SpecError) -> bool {
    &&& exists|i: int| 0 <= i < c.tokens.len() && (#[trigger] c.tokens[i]).posicion == e.posicion
    &&& exists|j: int| 0 <= j < c.tokens.len() && describir_token_esp(#[trigger] c.tokens[j]) == e.encontrado
    &&& e.linea_fuente == linea_de(c, e.posicion.linea)
}

/// A failure that is a syntax error speaks of the tokens of `c`.
pub open spec fn falla_del_texto(c: Contexto, f: Falla) -> bool {
    f matches Falla::Sintaxis(e) ==> error_del_texto(c, e)
}

/// A result whose syntax error, if it is one, speaks of the tokens of `c`.
pub open spec fn errores_del_texto<T>(c: Contexto, r: Result<T, Falla>) -> bool {
    r matches Err(f) ==> falla_del_texto(c, f)
}

/// An error at the current token speaks of the tokens.
pub broadcast proof fn lema_error_aqui_del_texto(c: Contexto, p: int, esperado: Seq<char>)
    requires
        c.tokens.len() > 0,
    ensures
        falla_del_texto(c, #[trigger] error_aqui(c, p, esperado)),
{
    reveal(error_aqui);
    reveal(error_token);
    let i = indice_actual(c, p);
    assert(c.tokens[i].posicion == pos_actual(c, p));
    assert(describir_token_esp(c.tokens[i]) == describir_token_esp(token_actual(c, p)));
}

/// An error at the position of a token, having found a token, speaks of the
/// tokens.
pub broadcast proof fn lema_error_token_del_texto(c: Contexto, q: int, esperado: Seq<char>, j: int)
    requires
        c.tokens.len() > 0,
        0 <= j < c.tokens.len(),
    ensures
        falla_del_texto(c, #[trigger] error_token(c, pos_actual(c, q), esperado, c.tokens[j])),
{
    reveal(error_token);
    let i = indice_actual(c, q);
    assert(c.tokens[i].posicion == pos_actual(c, q));
    assert(describir_token_esp(c.tokens[j]) == describir_token_esp(c.tokens[j]));
}

/// Two failures that differ at most in the source line they carry.
pub open spec fn misma_falla(f1: Falla, f2: Falla) -> bool {
    match f1 {
        Falla::FueraDeRango => f2 is FueraDeRango,
        Falla::Sintaxis(e1) => f2 matches Falla::Sintaxis(e2) && e1.posicion == e2.posicion
            && e1.esperado == e2.esperado && e1.encontrado == e2.encontrado,
    }
}

/// Two readings with the same outcome: the same result, or failures that
/// differ at most in the source line they carry.
pub open spec fn misma_lectura<T>(r1: Result<T, Falla>, r2: Result<T, Falla>) -> bool {
    match r1 {
        Ok(a) => r2 matches Ok(b) && a == b,
        Err(f1) => r2 matches Err(f2) && misma_falla(f1, f2),
    }
}

/// An error at the current token is the same for the same tokens, but for
/// its source line.
pub broadcast proof fn lema_error_aqui_mismo(c1: Contexto, c2: Contexto, p: int, esperado: Seq<char>)
    requires
        c1.tokens == c2.tokens,
    ensures
        misma_falla(#[trigger] error_aqui(c1, p, esperado), #[trigger] error_aqui(c2, p, esperado)),
{
    reveal(error_aqui);
    reveal(error_token);
}

/// An error at a position, having found a token, is the same for the same
/// tokens, but for its source line.
pub broadcast proof fn lema_error_token_mismo(
    c1: Contexto,
    c2: Contexto,
    posicion: Posicion,
    esperado: Seq<char>,
    t: Token,
)
    ensures
        misma_falla(
            #[trigger] error_token(c1, posicion, esperado, t),
            #[trigger] error_token(c2, posicion, esperado, t),
        ),
{
    reveal(error_token);
}

/// The tokens of `c1` are `k` tokens and then those of `c2`, which are not
/// none; the source text is the same.
pub open spec fn tras_prefijo(c1: Contexto, c2: Contexto, kp: int) -> bool {
    &&& 0 <= kp
    &&& c2.tokens.len() > 0
    &&& c1.tokens.len() == kp + c2.tokens.len()
    &&& forall|i: int| 0 <= i < c2.tokens.len() ==> c1.tokens[i + kp] == #[trigger] c2.tokens[i]
    &&& c1.lineas == c2.lineas
}

/// An error at the current token is the same `k` places on.
pub broadcast proof fn lema_error_aqui_tras(c1: Contexto, c2: Contexto, kp: int, p: int, e: Seq<char>)
    requires
        tras_prefijo(c1, c2, kp),
        0 <= p,
    ensures
        #![trigger tras_prefijo(c1, c2, kp), error_aqui(c2, p, e)]
        error_aqui(c1, p + kp, e) == error_aqui(c2, p, e),
{
    reveal(error_aqui);
    reveal(error_token);
    let i = indice_actual(c2, p);
    assert(c1.tokens[i + kp] == c2.tokens[i]);
}

/// An error is the same in both lists when the source text is.
pub broadcast proof fn lema_error_token_tras(
    c1: Contexto,
    c2: Contexto,
    kp: int,
    posicion: Posicion,
    e: Seq<char>,
    t: Token,
)
    requires
        tras_prefijo(c1, c2, kp),
    ensures
        #![trigger tras_prefijo(c1, c2, kp), error_token(c2, posicion, e, t)]
        error_token(c1, posicion, e, t) == error_token(c2, posicion, e, t),
{
    reveal(error_token);
}

/// Taking the current token.
pub open spec fn avanzar(c: Contexto, p: int) -> Result<int, Falla> {
    if p < c.tokens.len() {
        Ok(p + 1)
    } else {
        Err(Falla::FueraDeRango)
    }
}

/// Taking the current token if it is of kind `k`.
pub open spec fn esperar(c: Contexto, p: int, k: TipoToken) -> Result<int, Falla> {
    if coincide(c, p, k) {
        Ok(p + 1)
    } else {
        Err(error_aqui(c, p, nombre_tipo_esp(k)))
    }
}

// ---------------------------------------------------------------------------
// Kinds of token
// ---------------------------------------------------------------------------

/// Kinds that start a declaration inside a block.
#[verifier::allow_in_spec]
pub fn es_inicio_decl_bloque(k: TipoToken) -> bool
    returns
        match k {
            TipoToken::Auto | TipoToken::Register | TipoToken::Static | TipoToken::Extern
            | TipoToken::Typedef | TipoToken::Const | TipoToken::Volatile | TipoToken::Void
            | TipoToken::Char | TipoToken::Short | TipoToken::Int | TipoToken::Long
            | TipoToken::Float | TipoToken::Double | TipoToken::Signed | TipoToken::Unsigned
            | TipoToken::Struct | TipoToken::Union | TipoToken::Enum => true,
            _ => false,
        },
{
    match k {
        TipoToken::Auto | TipoToken::Register | TipoToken::Static | TipoToken::Extern
        | TipoToken::Typedef | TipoToken::Const | TipoToken::Volatile | TipoToken::Void
        | TipoToken::Char | TipoToken::Short | TipoToken::Int | TipoToken::Long
        | TipoToken::Float | TipoToken::Double | TipoToken::Signed | TipoToken::Unsigned
        | TipoToken::Struct | TipoToken::Union | TipoToken::Enum => true,
        _ => false,
    }
}

/// Kinds that start a type name between parentheses (a cast, a `sizeof`).
#[verifier::allow_in_spec]
pub fn es_inicio_tipo(k: TipoToken) -> bool
    returns
        match k {
            TipoToken::Void | TipoToken::Char | TipoToken::Short | TipoToken::Int | TipoToken::Long
            | TipoToken::Float | TipoToken::Double | TipoToken::Signed | TipoToken::Unsigned
            | TipoToken::Struct | TipoToken::Union | TipoToken::Enum | TipoToken::Identificador => true,
            _ => false,
        },
{
    match k {
        TipoToken::Void | TipoToken::Char | TipoToken::Short | TipoToken::Int | TipoToken::Long
        | TipoToken::Float | TipoToken::Double | TipoToken::Signed | TipoToken::Unsigned
        | TipoToken::Struct | TipoToken::Union | TipoToken::Enum | TipoToken::Identificador => true,
        _ => false,
    }
}

#[verifier::allow_in_spec]
pub fn tipo_primitivo_de(k: TipoToken) -> Option<TipoPrimitivo>
    returns
        match k {
            TipoToken::Void => Some(TipoPrimitivo::Void),
            TipoToken::Char => Some(TipoPrimitivo::Char),
            TipoToken::Short => Some(TipoPrimitivo::Short),
            TipoToken::Int => Some(TipoPrimitivo::Int),
            TipoToken::Long => Some(TipoPrimitivo::Long),
            TipoToken::Float => Some(TipoPrimitivo::Float),
            TipoToken::Double => Some(TipoPrimitivo::Double),
            TipoToken::Signed => Some(TipoPrimitivo::Signed),
            TipoToken::Unsigned => Some(TipoPrimitivo::Unsigned),
            _ => None,
        },
{
    match k {
        TipoToken::Void => Some(TipoPrimitivo::Void),
        TipoToken::Char => Some(TipoPrimitivo::Char),
        TipoToken::Short => Some(TipoPrimitivo::Short),
        TipoToken::Int => Some(TipoPrimitivo::Int),
        TipoToken::Long => Some(TipoPrimitivo::Long),
        TipoToken::Float => Some(TipoPrimitivo::Float),
        TipoToken::Double => Some(TipoPrimitivo::Double),
        TipoToken::Signed => Some(TipoPrimitivo::Signed),
        TipoToken::Unsigned => Some(TipoPrimitivo::Unsigned),
        _ => None,
    }
}

#[verifier::allow_in_spec]
pub fn almacenamiento_de(k: TipoToken) -> Option<Almacenamiento>
    returns
        match k {
            TipoToken::Auto => Some(Almacenamiento::Auto),
            TipoToken::Register => Some(Almacenamiento::Register),
            TipoToken::Static => Some(Almacenamiento::Static),
            TipoToken::Extern => Some(Almacenamiento::Extern),
            TipoToken::Typedef => Some(Almacenamiento::Typedef),
            _ => None,
        },
{
    match k {
        TipoToken::Auto => Some(Almacenamiento::Auto),
        TipoToken::Register => Some(Almacenamiento::Register),
        TipoToken::Static => Some(Almacenamiento::Static),
        TipoToken::Extern => Some(Almacenamiento::Extern),
        TipoToken::Typedef => Some(Almacenamiento::Typedef),
        _ => None,
    }
}

#[verifier::allow_in_spec]
pub fn calificador_de(k: TipoToken) -> Option<Calificador>
    returns
        match k {
            TipoToken::Const => Some(Calificador::Const),
            TipoToken::Volatile => Some(Calificador::Volatile),
            _ => None,
        },
{
    match k {
        TipoToken::Const => Some(Calificador::Const),
        TipoToken::Volatile => Some(Calificador::Volatile),
        _ => None,
    }
}

#[verifier::allow_in_spec]
pub fn operador_asignacion_de(k: TipoToken) -> Option<OperadorAsignacion>
    returns
        match k {
            TipoToken::Asignar => Some(OperadorAsignacion::Asignar),
            TipoToken::MasAsignar => Some(OperadorAsignacion::MasAsignar),
            TipoToken::MenosAsignar => Some(OperadorAsignacion::MenosAsignar),
            TipoToken::AsteriscoAsignar => Some(OperadorAsignacion::AsteriscoAsignar),
            TipoToken::BarraAsignar => Some(OperadorAsignacion::BarraAsignar),
            TipoToken::PorcentajeAsignar => Some(OperadorAsignacion::PorcentajeAsignar),
            _ => None,
        },
{
    match k {
        TipoToken::Asignar => Some(OperadorAsignacion::Asignar),
        TipoToken::MasAsignar => Some(OperadorAsignacion::MasAsignar),
        TipoToken::MenosAsignar => Some(OperadorAsignacion::MenosAsignar),
        TipoToken::AsteriscoAsignar => Some(OperadorAsignacion::AsteriscoAsignar),
        TipoToken::BarraAsignar => Some(OperadorAsignacion::BarraAsignar),
        TipoToken::PorcentajeAsignar => Some(OperadorAsignacion::PorcentajeAsignar),
        _ => None,
    }
}

#[verifier::allow_in_spec]
pub fn operador_unario_de(k: TipoToken) -> Option<OperadorUnario>
    returns
        match k {
            TipoToken::Mas => Some(OperadorUnario::Mas),
            TipoToken::Menos => Some(OperadorUnario::Menos),
            TipoToken::Negacion => Some(OperadorUnario::Negacion),
            TipoToken::Complemento => Some(OperadorUnario::Complemento),
            TipoToken::Asterisco => Some(OperadorUnario::Asterisco),
            TipoToken::YBit => Some(OperadorUnario::YBit),
            TipoToken::Incremento => Some(OperadorUnario::Incremento),
            TipoToken::Decremento => Some(OperadorUnario::Decremento),
            _ => None,
        },
{
    match k {
        TipoToken::Mas => Some(OperadorUnario::Mas),
        TipoToken::Menos => Some(OperadorUnario::Menos),
        TipoToken::Negacion => Some(OperadorUnario::Negacion),
        TipoToken::Complemento => Some(OperadorUnario::Complemento),
        TipoToken::Asterisco => Some(OperadorUnario::Asterisco),
        TipoToken::YBit => Some(OperadorUnario::YBit),
        TipoToken::Incremento => Some(OperadorUnario::Incremento),
        TipoToken::Decremento => Some(OperadorUnario::Decremento),
        _ => None,
    }
}

#[verifier::allow_in_spec]
pub fn operador_relacional_de(k: TipoToken) -> Option<OperadorBinario>
    returns
        match k {
            TipoToken::Menor => Some(OperadorBinario::Menor),
            TipoToken::Mayor => Some(OperadorBinario::Mayor),
            TipoToken::MenorIgual => Some(OperadorBinario::MenorIgual),
            TipoToken::MayorIgual => Some(OperadorBinario::MayorIgual),
            _ => None,
        },
{
    match k {
        TipoToken::Menor => Some(OperadorBinario::Menor),
        TipoToken::Mayor => Some(OperadorBinario::Mayor),
        TipoToken::MenorIgual => Some(OperadorBinario::MenorIgual),
        TipoToken::MayorIgual => Some(OperadorBinario::MayorIgual),
        _ => None,
    }
}

#[verifier::allow_in_spec]
pub fn operador_aditivo_de(k: TipoToken) -> Option<OperadorBinario>
    returns
        match k {
            TipoToken::Mas => Some(OperadorBinario::Mas),
            TipoToken::Menos => Some(OperadorBinario::Menos),
            _ => None,
        },
{
    match k {
        TipoToken::Mas => Some(OperadorBinario::Mas),
        TipoToken::Menos => Some(OperadorBinario::Menos),
        _ => None,
    }
}

#[verifier::allow_in_spec]
pub fn operador_multiplicativo_de(k: TipoToken) -> Option<OperadorBinario>
    returns
        match k {
            TipoToken::Asterisco => Some(OperadorBinario::Asterisco),
            TipoToken::Barra => Some(OperadorBinario::Barra),
            TipoToken::Porcentaje => Some(OperadorBinario::Porcentaje),
            _ => None,
        },
{
    match k {
        TipoToken::Asterisco => Some(OperadorBinario::Asterisco),
        TipoToken::Barra => Some(OperadorBinario::Barra),
        TipoToken::Porcentaje => Some(OperadorBinario::Porcentaje),
        _ => None,
    }
}

/// Levels of binary operators that share one reading loop.
#[derive(Debug, Clone, Copy, PartialEq, Eq, Structural)]
pub enum NivelBinario {
    OLogico,
    YLogico,
    OBit,
    XorBit,
    YBit,
    Igualdad,
    Desplazamiento,
}

/// Operator kinds of a level.
#[verifier::allow_in_spec]
pub fn es_operador_de(nivel: NivelBinario, k: TipoToken) -> bool
    returns
        match nivel {
            NivelBinario::OLogico => k == TipoToken::OLogico,
            NivelBinario::YLogico => k == TipoToken::YLogico,
            NivelBinario::OBit => k == TipoToken::OBit,
            NivelBinario::XorBit => k == TipoToken::XorBit,
            NivelBinario::YBit => k == TipoToken::YBit,
            NivelBinario::Igualdad => k == TipoToken::Igual || k == TipoToken::Distinto,
            NivelBinario::Desplazamiento => k == TipoToken::DesplazarIzq || k == TipoToken::DesplazarDer,
        },
{
    match nivel {
        NivelBinario::OLogico => k == TipoToken::OLogico,
        NivelBinario::YLogico => k == TipoToken::YLogico,
        NivelBinario::OBit => k == TipoToken::OBit,
        NivelBinario::XorBit => k == TipoToken::XorBit,
        NivelBinario::YBit => k == TipoToken::YBit,
        NivelBinario::Igualdad => k == TipoToken::Igual || k == TipoToken::Distinto,
        NivelBinario::Desplazamiento => k == TipoToken::DesplazarIzq || k == TipoToken::DesplazarDer,
    }
}

/// The operator a level falls back to for a kind it does not name.
#[verifier::allow_in_spec]
pub fn operador_por_defecto(nivel: NivelBinario) -> OperadorBinario
    returns
        match nivel {
            NivelBinario::OLogico => OperadorBinario::OLogico,
            NivelBinario::YLogico => OperadorBinario::YLogico,
            NivelBinario::OBit => OperadorBinario::OBit,
            NivelBinario::XorBit => OperadorBinario::XorBit,
            NivelBinario::YBit => OperadorBinario::YBit,
            NivelBinario::Igualdad => OperadorBinario::Igual,
            NivelBinario::Desplazamiento => OperadorBinario::DesplazarIzq,
        },
{
    match nivel {
        NivelBinario::OLogico => OperadorBinario::OLogico,
        NivelBinario::YLogico => OperadorBinario::YLogico,
        NivelBinario::OBit => OperadorBinario::OBit,
        NivelBinario::XorBit => OperadorBinario::XorBit,
        NivelBinario::YBit => OperadorBinario::YBit,
        NivelBinario::Igualdad => OperadorBinario::Igual,
        NivelBinario::Desplazamiento => OperadorBinario::DesplazarIzq,
    }
}

/// The binary operator of kind `k` read at `nivel`.
#[verifier::allow_in_spec]
pub fn operador_binario_de(k: TipoToken, nivel: NivelBinario) -> OperadorBinario
    returns
        match k {
            TipoToken::Igual => OperadorBinario::Igual,
            TipoToken::Distinto => OperadorBinario::Distinto,
            TipoToken::DesplazarIzq => OperadorBinario::DesplazarIzq,
            TipoToken::DesplazarDer => OperadorBinario::DesplazarDer,
            TipoToken::OLogico => OperadorBinario::OLogico,
            TipoToken::YLogico => OperadorBinario::YLogico,
            TipoToken::OBit => OperadorBinario::OBit,
            TipoToken::XorBit => OperadorBinario::XorBit,
            TipoToken::YBit => OperadorBinario::YBit,
            _ => operador_por_defecto(nivel),
        },
{
    match k {
        TipoToken::Igual => OperadorBinario::Igual,
        TipoToken::Distinto => OperadorBinario::Distinto,
        TipoToken::DesplazarIzq => OperadorBinario::DesplazarIzq,
        TipoToken::DesplazarDer => OperadorBinario::DesplazarDer,
        TipoToken::OLogico => OperadorBinario::OLogico,
        TipoToken::YLogico => OperadorBinario::YLogico,
        TipoToken::OBit => OperadorBinario::OBit,
        TipoToken::XorBit => OperadorBinario::XorBit,
        TipoToken::YBit => OperadorBinario::YBit,
        _ => operador_por_defecto(nivel),
    }
}

/// Rank of a level: a level reads its operands at the next level down.
pub open spec fn rango_nivel(nivel: NivelBinario) -> int {
    match nivel {
        NivelBinario::OLogico => 36,
        NivelBinario::YLogico => 34,
        NivelBinario::OBit => 32,
        NivelBinario::XorBit => 30,
        NivelBinario::YBit => 28,
        NivelBinario::Igualdad => 26,
        NivelBinario::Desplazamiento => 22,
    }
}

// ---------------------------------------------------------------------------
// Skipping: byte order mark and preprocessor lines
// ---------------------------------------------------------------------------

pub open spec fn es_marca_orden(t: Token) -> bool {
    t.tipo == TipoToken::Desconocido && valor_de(t) == seq!['\u{feff}'] && t.valor is Some
}

pub open spec fn es_almohadilla(t: Token) -> bool {
    t.tipo == TipoToken::Desconocido && valor_de(t) == seq!['#'] && t.valor is Some
}

pub open spec fn saltar_bom(c: Contexto, p: int) -> int {
    if !es_fin(c, p) && es_marca_orden(token_actual(c, p)) {
        p + 1
    } else {
        p
    }
}

/// Past the tokens from `p` on that lie on line `linea`.
pub open spec fn saltar_linea(c: Contexto, p: int, linea: usize) -> int
    decreases c.tokens.len() - p,
{
    if 0 <= p < c.tokens.len() && c.tokens[p].posicion.linea == linea {
        saltar_linea(c, p + 1, linea)
    } else {
        p
    }
}

/// Past every line that starts with `#` from `p` on.
pub open spec fn saltar_preprocesador(c: Contexto, p: int) -> int
    decreases c.tokens.len() - p,
{
    if 0 <= p < c.tokens.len() && es_almohadilla(c.tokens[p]) {
        let q = saltar_linea(c, p, c.tokens[p].posicion.linea);
        if adelante(c, p, q) {
            saltar_preprocesador(c, q)
        } else {
            p
        }
    } else {
        p
    }
}

// ---------------------------------------------------------------------------
// Types and qualifiers
// ---------------------------------------------------------------------------

/// Tokens of kind `k` from `p` on, each adding `cal` to `acc`.
pub open spec fn leer_calificadores(
    c: Contexto,
    p: int,
    k: TipoToken,
    cal: Calificador,
    acc: Seq<Calificador>,
) -> (Seq<Calificador>, int)
    decreases c.tokens.len() - p,
{
    if coincide(c, p, k) && p >= 0 {
        leer_calificadores(c, p + 1, k, cal, acc.push(cal))
    } else {
        (acc, p)
    }
}

/// The qualifiers after a `*`: the `const` ones, then the `volatile` ones.
pub open spec fn calificadores_puntero(c: Contexto, p: int) -> (Seq<Calificador>, int) {
    let (a, q) = leer_calificadores(c, p, TipoToken::Const, Calificador::Const, Seq::empty());
    leer_calificadores(c, q, TipoToken::Volatile, Calificador::Volatile, a)
}

/// `*` markers after a base type, each making a pointer to what is before.
#[verifier::opaque]
pub open spec fn sp_tipo_punteros(c: Contexto, p: int, t: SpecTipo) -> Avance<SpecTipo>
    decreases c.tokens.len() - p,
{
    if coincide(c, p, TipoToken::Asterisco) && p >= 0 {
        let (cal, q) = calificadores_puntero(c, p + 1);
        if adelante(c, p, q) {
            sp_tipo_punteros(c, q, SpecTipo::Puntero { calificadores: cal, apunta_a: Box::new(t) })
        } else {
            fuera()
        }
    } else {
        Ok((t, p))
    }
}

/// One step of `sp_tipo_punteros`.
pub proof fn desplegar_sp_tipo_punteros(c: Contexto, p: int, t: SpecTipo)
    ensures
        sp_tipo_punteros(c, p, t) == ({
            if coincide(c, p, TipoToken::Asterisco) && p >= 0 {
                let (cal, q) = calificadores_puntero(c, p + 1);
                if adelante(c, p, q) {
                    sp_tipo_punteros(c, q, SpecTipo::Puntero { calificadores: cal, apunta_a: Box::new(t) })
                } else {
                    fuera()
                }
            } else {
                Ok((t, p))
            }
        }),
{
    reveal(sp_tipo_punteros);
}

/// A type name: a named type, or a primitive one with its `*` markers.
#[verifier::opaque]
pub open spec fn sp_tipo(c: Contexto, p: int) -> Avance<SpecTipo> {
    if coincide(c, p, TipoToken::Identificador) {
        Ok((SpecTipo::Nombre(valor_de(c.tokens[p])), p + 1))
    } else if es_fin(c, p) || p < 0 {
        fuera()
    } else {
        let t = c.tokens[p];
        match tipo_primitivo_de(t.tipo) {
            None => Err(error_token(c, pos_actual(c, p + 1), "tipo primitivo"@, t)),
            Some(prim) => {
                let q = if coincide(c, p + 1, TipoToken::Long) && (prim == TipoPrimitivo::Long
                    || prim == TipoPrimitivo::Double) {
                    p + 2
                } else {
                    p + 1
                };
                sp_tipo_punteros(c, q, SpecTipo::Primitivo(prim))
            },
        }
    }
}

/// One step of `sp_tipo`.
pub proof fn desplegar_sp_tipo(c: Contexto, p: int)
    ensures
        sp_tipo(c, p) == ({
            if coincide(c, p, TipoToken::Identificador) {
                Ok((SpecTipo::Nombre(valor_de(c.tokens[p])), p + 1))
            } else if es_fin(c, p) || p < 0 {
                fuera()
            } else {
                let t = c.tokens[p];
                match tipo_primitivo_de(t.tipo) {
                    None => Err(error_token(c, pos_actual(c, p + 1), "tipo primitivo"@, t)),
                    Some(prim) => {
                        let q = if coincide(c, p + 1, TipoToken::Long) && (prim == TipoPrimitivo::Long
                            || prim == TipoPrimitivo::Double) {
                            p + 2
                        } else {
                            p + 1
                        };
                        sp_tipo_punteros(c, q, SpecTipo::Primitivo(prim))
                    },
                }
            }
        }),
{
    reveal(sp_tipo);
    reveal(sp_tipo_punteros);
}

/// The `*` markers of a declarator, each with its qualifiers.
#[verifier::opaque]
pub open spec fn sp_punteros(c: Contexto, p: int, acc: Seq<Seq<Calificador>>) -> (
    Seq<Seq<Calificador>>,
    int,
)
    decreases c.tokens.len() - p,
{
    if coincide(c, p, TipoToken::Asterisco) && p >= 0 {
        let (cal, q) = calificadores_puntero(c, p + 1);
        if adelante(c, p, q) {
            sp_punteros(c, q, acc.push(cal))
        } else {
            (acc, p)
        }
    } else {
        (acc, p)
    }
}

/// One step of `sp_punteros`.
pub proof fn desplegar_sp_punteros(c: Contexto, p: int, acc: Seq<Seq<Calificador>>)
    ensures
        sp_punteros(c, p, acc) == ({
            if coincide(c, p, TipoToken::Asterisco) && p >= 0 {
                let (cal, q) = calificadores_puntero(c, p + 1);
                if adelante(c, p, q) {
                    sp_punteros(c, q, acc.push(cal))
                } else {
                    (acc, p)
                }
            } else {
                (acc, p)
            }
        }),
{
    reveal(sp_punteros);
}

// ---------------------------------------------------------------------------
// Declarations
// ---------------------------------------------------------------------------

pub open spec fn especificadores_vacios() -> SpecEspecificadores {
    SpecEspecificadores { almacenamiento: Seq::empty(), calificadores: Seq::empty(), tipo: None }
}

pub open spec fn con_tipo(e: SpecEspecificadores, t: SpecTipo) -> SpecEspecificadores {
    SpecEspecificadores { almacenamiento: e.almacenamiento, calificadores: e.calificadores, tipo: Some(t) }
}

/// An optional name after `struct`, `union` or `enum`.
pub open spec fn nombre_opcional(c: Contexto, p: int) -> (Option<Seq<char>>, int) {
    if coincide(c, p, TipoToken::Identificador) {
        (Some(valor_de(c.tokens[p])), p + 1)
    } else {
        (None, p)
    }
}

/// Storage classes, qualifiers and a type, in any order, up to the first type
/// name.
#[verifier::opaque]
pub open spec fn sp_especificadores(c: Contexto, p: int) -> Avance<SpecEspecificadores>
    decreases c.tokens.len() - p, 2int,
{
    sp_especificadores_desde(c, p, especificadores_vacios())
}

/// One step of `sp_especificadores`.
pub proof fn desplegar_sp_especificadores(c: Contexto, p: int)
    ensures
        sp_especificadores(c, p) == ({
            sp_especificadores_desde(c, p, especificadores_vacios())
        }),
{
    reveal(sp_especificadores);
    reveal(sp_especificadores_desde);
}

#[verifier::opaque]
pub open spec fn sp_especificadores_desde(
    c: Contexto,
    p: int,
    e: SpecEspecificadores,
) -> Avance<SpecEspecificadores>
    decreases c.tokens.len() - p, 1int,
{
    let k = tipo_actual(c, p);
    if almacenamiento_de(k) is Some {
        match avanzar(c, p) {
            Err(f) => Err(f),
            Ok(q) => sp_especificadores_desde(
                c,
                q,
                SpecEspecificadores {
                    almacenamiento: e.almacenamiento.push(almacenamiento_de(k).unwrap()),
                    calificadores: e.calificadores,
                    tipo: e.tipo,
                },
            ),
        }
    } else if calificador_de(k) is Some {
        match avanzar(c, p) {
            Err(f) => Err(f),
            Ok(q) => sp_especificadores_desde(
                c,
                q,
                SpecEspecificadores {
                    almacenamiento: e.almacenamiento,
                    calificadores: e.calificadores.push(calificador_de(k).unwrap()),
                    tipo: e.tipo,
                },
            ),
        }
    } else if k == TipoToken::Struct || k == TipoToken::Union || k == TipoToken::Enum {
        let r = if k == TipoToken::Enum {
            sp_enum(c, p)
        } else {
            sp_struct_union(c, p, k == TipoToken::Struct)
        };
        match r {
            Err(f) => Err(f),
            Ok((t, q)) => if adelante(c, p, q) {
                sp_especificadores_desde(c, q, con_tipo(e, t))
            } else {
                fuera()
            },
        }
    } else if tipo_primitivo_de(k) is Some || k == TipoToken::Identificador {
        match sp_tipo(c, p) {
            Err(f) => Err(f),
            Ok((t, q)) => Ok((con_tipo(e, t), q)),
        }
    } else {
        Ok((e, p))
    }
}

/// One step of `sp_especificadores_desde`.
pub proof fn desplegar_sp_especificadores_desde(c: Contexto,
    p: int,
    e: SpecEspecificadores)
    ensures
        sp_especificadores_desde(c, p, e) == ({
            let k = tipo_actual(c, p);
            if almacenamiento_de(k) is Some {
                match avanzar(c, p) {
                    Err(f) => Err(f),
                    Ok(q) => sp_especificadores_desde(
                        c,
                        q,
                        SpecEspecificadores {
                            almacenamiento: e.almacenamiento.push(almacenamiento_de(k).unwrap()),
                            calificadores: e.calificadores,
                            tipo: e.tipo,
                        },
                    ),
                }
            } else if calificador_de(k) is Some {
                match avanzar(c, p) {
                    Err(f) => Err(f),
                    Ok(q) => sp_especificadores_desde(
                        c,
                        q,
                        SpecEspecificadores {
                            almacenamiento: e.almacenamiento,
                            calificadores: e.calificadores.push(calificador_de(k).unwrap()),
                            tipo: e.tipo,
                        },
                    ),
                }
            } else if k == TipoToken::Struct || k == TipoToken::Union || k == TipoToken::Enum {
                let r = if k == TipoToken::Enum {
                    sp_enum(c, p)
                } else {
                    sp_struct_union(c, p, k == TipoToken::Struct)
                };
                match r {
                    Err(f) => Err(f),
                    Ok((t, q)) => if adelante(c, p, q) {
                        sp_especificadores_desde(c, q, con_tipo(e, t))
                    } else {
                        fuera()
                    },
                }
            } else if tipo_primitivo_de(k) is Some || k == TipoToken::Identificador {
                match sp_tipo(c, p) {
                    Err(f) => Err(f),
                    Ok((t, q)) => Ok((con_tipo(e, t), q)),
                }
            } else {
                Ok((e, p))
            }
        }),
{
    reveal(sp_enum);
    reveal(sp_especificadores_desde);
    reveal(sp_struct_union);
    reveal(sp_tipo);
}

pub open spec fn tipo_struct_union(
    es_struct: bool,
    nombre: Option<Seq<char>>,
    miembros: Seq<SpecDeclaracion>,
) -> SpecTipo {
    if es_struct {
        SpecTipo::Struct(SpecStructUnion { nombre, miembros })
    } else {
        SpecTipo::Union(SpecStructUnion { nombre, miembros })
    }
}

/// `struct` or `union`, an optional name and an optional member list.
#[verifier::opaque]
pub open spec fn sp_struct_union(c: Contexto, p: int, es_struct: bool) -> Avance<SpecTipo>
    decreases c.tokens.len() - p, 0int,
{
    match avanzar(c, p) {
        Err(f) => Err(f),
        Ok(p1) => {
            let (nombre, p2) = nombre_opcional(c, p1);
            if coincide(c, p2, TipoToken::LlaveIzq) {
                match sp_miembros(c, p2 + 1, Seq::empty()) {
                    Err(f) => Err(f),
                    Ok((ms, p3)) => if no_atras(c, p2 + 1, p3) {
                        match esperar(c, p3, TipoToken::LlaveDer) {
                            Err(f) => Err(f),
                            Ok(p4) => Ok((tipo_struct_union(es_struct, nombre, ms), p4)),
                        }
                    } else {
                        fuera()
                    },
                }
            } else {
                Ok((tipo_struct_union(es_struct, nombre, Seq::empty()), p2))
            }
        },
    }
}

/// One step of `sp_struct_union`.
pub proof fn desplegar_sp_struct_union(c: Contexto, p: int, es_struct: bool)
    ensures
        sp_struct_union(c, p, es_struct) == ({
            match avanzar(c, p) {
                Err(f) => Err(f),
                Ok(p1) => {
                    let (nombre, p2) = nombre_opcional(c, p1);
                    if coincide(c, p2, TipoToken::LlaveIzq) {
                        match sp_miembros(c, p2 + 1, Seq::empty()) {
                            Err(f) => Err(f),
                            Ok((ms, p3)) => if no_atras(c, p2 + 1, p3) {
                                match esperar(c, p3, TipoToken::LlaveDer) {
                                    Err(f) => Err(f),
                                    Ok(p4) => Ok((tipo_struct_union(es_struct, nombre, ms), p4)),
                                }
                            } else {
                                fuera()
                            },
                        }
                    } else {
                        Ok((tipo_struct_union(es_struct, nombre, Seq::empty()), p2))
                    }
                },
            }
        }),
{
    reveal(sp_miembros);
    reveal(sp_struct_union);
}

/// Member declarations up to `}` or the end.
#[verifier::opaque]
pub open spec fn sp_miembros(c: Contexto, p: int, acc: Seq<SpecDeclaracion>) -> Avance<
    Seq<SpecDeclaracion>,
>
    decreases c.tokens.len() - p, 4int,
{
    if !coincide(c, p, TipoToken::LlaveDer) && !es_fin(c, p) {
        match sp_declaracion(c, p) {
            Err(f) => Err(f),
            Ok((d, q)) => if adelante(c, p, q) {
                sp_miembros(c, q, acc.push(d))
            } else {
                fuera()
            },
        }
    } else {
        Ok((acc, p))
    }
}

/// One step of `sp_miembros`.
pub proof fn desplegar_sp_miembros(c: Contexto, p: int, acc: Seq<SpecDeclaracion>)
    ensures
        sp_miembros(c, p, acc) == ({
            if !coincide(c, p, TipoToken::LlaveDer) && !es_fin(c, p) {
                match sp_declaracion(c, p) {
                    Err(f) => Err(f),
                    Ok((d, q)) => if adelante(c, p, q) {
                        sp_miembros(c, q, acc.push(d))
                    } else {
                        fuera()
                    },
                }
            } else {
                Ok((acc, p))
            }
        }),
{
    reveal(sp_declaracion);
    reveal(sp_miembros);
}

/// Specifiers, declarators with optional initialisers separated by `,`, and
/// `;`.
#[verifier::opaque]
pub open spec fn sp_declaracion(c: Contexto, p: int) -> Avance<SpecDeclaracion>
    decreases c.tokens.len() - p, 3int,
{
    let pos = pos_actual(c, p);
    match sp_especificadores(c, p) {
        Err(f) => Err(f),
        Ok((esp, p1)) => if no_atras(c, p, p1) {
            match sp_declarador(c, p1) {
                Err(f) => Err(f),
                Ok((d, p2)) => if adelante(c, p1, p2) {
                    match sp_inicializador_opt(c, p2) {
                        Err(f) => Err(f),
                        Ok((ini, p3)) => if no_atras(c, p2, p3) {
                            let primero = SpecInitDeclarador { declarador: d, inicializador: ini };
                            match sp_init_declaradores(c, p3, seq![primero]) {
                                Err(f) => Err(f),
                                Ok((ds, p4)) => if no_atras(c, p3, p4) {
                                    match esperar(c, p4, TipoToken::PuntoYComa) {
                                        Err(f) => Err(f),
                                        Ok(p5) => Ok(
                                            (
                                                SpecDeclaracion {
                                                    posicion: pos,
                                                    especificadores: esp,
                                                    declaradores: ds,
                                                },
                                                p5,
                                            ),
                                        ),
                                    }
                                } else {
                                    fuera()
                                },
                            }
                        } else {
                            fuera()
                        },
                    }
                } else {
                    fuera()
                },
            }
        } else {
            fuera()
        },
    }
}

/// One step of `sp_declaracion`.
pub proof fn desplegar_sp_declaracion(c: Contexto, p: int)
    ensures
        sp_declaracion(c, p) == ({
            let pos = pos_actual(c, p);
            match sp_especificadores(c, p) {
                Err(f) => Err(f),
                Ok((esp, p1)) => if no_atras(c, p, p1) {
                    match sp_declarador(c, p1) {
                        Err(f) => Err(f),
                        Ok((d, p2)) => if adelante(c, p1, p2) {
                            match sp_inicializador_opt(c, p2) {
                                Err(f) => Err(f),
                                Ok((ini, p3)) => if no_atras(c, p2, p3) {
                                    let primero = SpecInitDeclarador { declarador: d, inicializador: ini };
                                    match sp_init_declaradores(c, p3, seq![primero]) {
                                        Err(f) => Err(f),
                                        Ok((ds, p4)) => if no_atras(c, p3, p4) {
                                            match esperar(c, p4, TipoToken::PuntoYComa) {
                                                Err(f) => Err(f),
                                                Ok(p5) => Ok(
                                                    (
                                                        SpecDeclaracion {
                                                            posicion: pos,
                                                            especificadores: esp,
                                                            declaradores: ds,
                                                        },
                                                        p5,
                                                    ),
                                                ),
                                            }
                                        } else {
                                            fuera()
                                        },
                                    }
                                } else {
                                    fuera()
                                },
                            }
                        } else {
                            fuera()
                        },
                    }
                } else {
                    fuera()
                },
            }
        }),
{
    reveal(sp_declaracion);
    reveal(sp_declarador);
    reveal(sp_especificadores);
    reveal(sp_inicializador_opt);
    reveal(sp_init_declaradores);
}

/// Further `, declarator [= initialiser]` after the first one.
#[verifier::opaque]
pub open spec fn sp_init_declaradores(c: Contexto, p: int, acc: Seq<SpecInitDeclarador>) -> Avance<
    Seq<SpecInitDeclarador>,
>
    decreases c.tokens.len() - p, 0int,
{
    if coincide(c, p, TipoToken::Coma) && p >= 0 {
        match sp_declarador(c, p + 1) {
            Err(f) => Err(f),
            Ok((d, q1)) => if adelante(c, p + 1, q1) {
                match sp_inicializador_opt(c, q1) {
                    Err(f) => Err(f),
                    Ok((ini, q2)) => if no_atras(c, q1, q2) {
                        sp_init_declaradores(
                            c,
                            q2,
                            acc.push(SpecInitDeclarador { declarador: d, inicializador: ini }),
                        )
                    } else {
                        fuera()
                    },
                }
            } else {
                fuera()
            },
        }
    } else {
        Ok((acc, p))
    }
}

/// One step of `sp_init_declaradores`.
pub proof fn desplegar_sp_init_declaradores(c: Contexto, p: int, acc: Seq<SpecInitDeclarador>)
    ensures
        sp_init_declaradores(c, p, acc) == ({
            if coincide(c, p, TipoToken::Coma) && p >= 0 {
                match sp_declarador(c, p + 1) {
                    Err(f) => Err(f),
                    Ok((d, q1)) => if adelante(c, p + 1, q1) {
                        match sp_inicializador_opt(c, q1) {
                            Err(f) => Err(f),
                            Ok((ini, q2)) => if no_atras(c, q1, q2) {
                                sp_init_declaradores(
                                    c,
                                    q2,
                                    acc.push(SpecInitDeclarador { declarador: d, inicializador: ini }),
                                )
                            } else {
                                fuera()
                            },
                        }
                    } else {
                        fuera()
                    },
                }
            } else {
                Ok((acc, p))
            }
        }),
{
    reveal(sp_declarador);
    reveal(sp_inicializador_opt);
    reveal(sp_init_declaradores);
}

/// `*` markers, then a direct declarator.
#[verifier::opaque]
pub open spec fn sp_declarador(c: Contexto, p: int) -> Avance<SpecDeclarador>
    decreases c.tokens.len() - p, 1int,
{
    let (ps, p1) = sp_punteros(c, p, Seq::empty());
    if no_atras(c, p, p1) {
        match sp_declarador_directo(c, p1) {
            Err(f) => Err(f),
            Ok((b, p2)) => Ok((SpecDeclarador { punteros: ps, base: b }, p2)),
        }
    } else {
        fuera()
    }
}

/// One step of `sp_declarador`.
pub proof fn desplegar_sp_declarador(c: Contexto, p: int)
    ensures
        sp_declarador(c, p) == ({
            let (ps, p1) = sp_punteros(c, p, Seq::empty());
            if no_atras(c, p, p1) {
                match sp_declarador_directo(c, p1) {
                    Err(f) => Err(f),
                    Ok((b, p2)) => Ok((SpecDeclarador { punteros: ps, base: b }, p2)),
                }
            } else {
                fuera()
            }
        }),
{
    reveal(sp_declarador);
    reveal(sp_declarador_directo);
    reveal(sp_punteros);
}

/// A name or a declarator between parentheses, then its suffixes.
#[verifier::opaque]
pub open spec fn sp_declarador_directo(c: Contexto, p: int) -> Avance<SpecDeclaradorBase>
    decreases c.tokens.len() - p, 0int,
{
    if coincide(c, p, TipoToken::ParentesisIzq) && p >= 0 {
        match sp_declarador(c, p + 1) {
            Err(f) => Err(f),
            Ok((d, q)) => if adelante(c, p + 1, q) {
                match esperar(c, q, TipoToken::ParentesisDer) {
                    Err(f) => Err(f),
                    Ok(q2) => sp_sufijos(c, q2, SpecDeclaradorBase::Agrupado(Box::new(d))),
                }
            } else {
                fuera()
            },
        }
    } else {
        match esperar(c, p, TipoToken::Identificador) {
            Err(f) => Err(f),
            Ok(q) => sp_sufijos(
                c,
                q,
                SpecDeclaradorBase::Identificador(valor_de(c.tokens[p])),
            ),
        }
    }
}

/// One step of `sp_declarador_directo`.
pub proof fn desplegar_sp_declarador_directo(c: Contexto, p: int)
    ensures
        sp_declarador_directo(c, p) == ({
            if coincide(c, p, TipoToken::ParentesisIzq) && p >= 0 {
                match sp_declarador(c, p + 1) {
                    Err(f) => Err(f),
                    Ok((d, q)) => if adelante(c, p + 1, q) {
                        match esperar(c, q, TipoToken::ParentesisDer) {
                            Err(f) => Err(f),
                            Ok(q2) => sp_sufijos(c, q2, SpecDeclaradorBase::Agrupado(Box::new(d))),
                        }
                    } else {
                        fuera()
                    },
                }
            } else {
                match esperar(c, p, TipoToken::Identificador) {
                    Err(f) => Err(f),
                    Ok(q) => sp_sufijos(
                        c,
                        q,
                        SpecDeclaradorBase::Identificador(valor_de(c.tokens[p])),
                    ),
                }
            }
        }),
{
    reveal(sp_declarador);
    reveal(sp_declarador_directo);
    reveal(sp_sufijos);
}

/// The size between `[` and `]`, if there is one.
#[verifier::opaque]
pub open spec fn sp_tamano(c: Contexto, p: int) -> Avance<Option<Box<SpecExpr>>> {
    if coincide(c, p, TipoToken::CorcheteDer) {
        Ok((None, p))
    } else {
        match sp_expresion(c, p) {
            Err(f) => Err(f),
            Ok((e, q)) => Ok((Some(Box::new(e)), q)),
        }
    }
}

/// One step of `sp_tamano`.
pub proof fn desplegar_sp_tamano(c: Contexto, p: int)
    ensures
        sp_tamano(c, p) == ({
            if coincide(c, p, TipoToken::CorcheteDer) {
                Ok((None, p))
            } else {
                match sp_expresion(c, p) {
                    Err(f) => Err(f),
                    Ok((e, q)) => Ok((Some(Box::new(e)), q)),
                }
            }
        }),
{
    reveal(sp_expresion);
    reveal(sp_tamano);
}

/// Array and function suffixes after a direct declarator.
#[verifier::opaque]
pub open spec fn sp_sufijos(c: Contexto, p: int, base: SpecDeclaradorBase) -> Avance<
    SpecDeclaradorBase,
>
    decreases c.tokens.len() - p, 0int,
{
    if coincide(c, p, TipoToken::CorcheteIzq) && p >= 0 {
        match sp_tamano(c, p + 1) {
            Err(f) => Err(f),
            Ok((tam, q)) => if no_atras(c, p + 1, q) {
                match esperar(c, q, TipoToken::CorcheteDer) {
                    Err(f) => Err(f),
                    Ok(q2) => sp_sufijos(
                        c,
                        q2,
                        SpecDeclaradorBase::Derivado {
                            interno: Box::new(base),
                            sufijo: SpecSufijo::Array(tam),
                        },
                    ),
                }
            } else {
                fuera()
            },
        }
    } else if coincide(c, p, TipoToken::ParentesisIzq) && p >= 0 {
        match sp_parametros(c, p + 1) {
            Err(f) => Err(f),
            Ok((ps, q)) => if no_atras(c, p + 1, q) {
                match esperar(c, q, TipoToken::ParentesisDer) {
                    Err(f) => Err(f),
                    Ok(q2) => sp_sufijos(
                        c,
                        q2,
                        SpecDeclaradorBase::Derivado {
                            interno: Box::new(base),
                            sufijo: SpecSufijo::Funcion(ps),
                        },
                    ),
                }
            } else {
                fuera()
            },
        }
    } else {
        Ok((base, p))
    }
}

/// One step of `sp_sufijos`.
pub proof fn desplegar_sp_sufijos(c: Contexto, p: int, base: SpecDeclaradorBase)
    ensures
        sp_sufijos(c, p, base) == ({
            if coincide(c, p, TipoToken::CorcheteIzq) && p >= 0 {
                match sp_tamano(c, p + 1) {
                    Err(f) => Err(f),
                    Ok((tam, q)) => if no_atras(c, p + 1, q) {
                        match esperar(c, q, TipoToken::CorcheteDer) {
                            Err(f) => Err(f),
                            Ok(q2) => sp_sufijos(
                                c,
                                q2,
                                SpecDeclaradorBase::Derivado {
                                    interno: Box::new(base),
                                    sufijo: SpecSufijo::Array(tam),
                                },
                            ),
                        }
                    } else {
                        fuera()
                    },
                }
            } else if coincide(c, p, TipoToken::ParentesisIzq) && p >= 0 {
                match sp_parametros(c, p + 1) {
                    Err(f) => Err(f),
                    Ok((ps, q)) => if no_atras(c, p + 1, q) {
                        match esperar(c, q, TipoToken::ParentesisDer) {
                            Err(f) => Err(f),
                            Ok(q2) => sp_sufijos(
                                c,
                                q2,
                                SpecDeclaradorBase::Derivado {
                                    interno: Box::new(base),
                                    sufijo: SpecSufijo::Funcion(ps),
                                },
                            ),
                        }
                    } else {
                        fuera()
                    },
                }
            } else {
                Ok((base, p))
            }
        }),
{
    reveal(sp_parametros);
    reveal(sp_sufijos);
    reveal(sp_tamano);
}

/// A parameter list: `void`, nothing, or parameters separated by `,`.
#[verifier::opaque]
pub open spec fn sp_parametros(c: Contexto, p: int) -> Avance<Seq<SpecParametro>>
    decreases c.tokens.len() - p, 4int,
{
    if coincide(c, p, TipoToken::Void) {
        Ok((Seq::empty(), p + 1))
    } else if coincide(c, p, TipoToken::ParentesisDer) {
        Ok((Seq::empty(), p))
    } else {
        sp_parametros_desde(c, p, Seq::empty())
    }
}

/// One step of `sp_parametros`.
pub proof fn desplegar_sp_parametros(c: Contexto, p: int)
    ensures
        sp_parametros(c, p) == ({
            if coincide(c, p, TipoToken::Void) {
                Ok((Seq::empty(), p + 1))
            } else if coincide(c, p, TipoToken::ParentesisDer) {
                Ok((Seq::empty(), p))
            } else {
                sp_parametros_desde(c, p, Seq::empty())
            }
        }),
{
    reveal(sp_parametros);
    reveal(sp_parametros_desde);
}

pub open spec fn es_inicio_declarador(c: Contexto, p: int) -> bool {
    coincide(c, p, TipoToken::Asterisco) || coincide(c, p, TipoToken::ParentesisIzq) || coincide(
        c,
        p,
        TipoToken::Identificador,
    )
}

#[verifier::opaque]
pub open spec fn sp_parametros_desde(c: Contexto, p: int, acc: Seq<SpecParametro>) -> Avance<
    Seq<SpecParametro>,
>
    decreases c.tokens.len() - p, 3int,
{
    match sp_especificadores(c, p) {
        Err(f) => Err(f),
        Ok((esp, p1)) => if no_atras(c, p, p1) {
            if es_inicio_declarador(c, p1) {
                match sp_declarador(c, p1) {
                    Err(f) => Err(f),
                    Ok((d, p2)) => if adelante(c, p1, p2) {
                        sp_parametros_tras(
                            c,
                            p2,
                            acc.push(SpecParametro { especificadores: esp, declarador: Some(d) }),
                        )
                    } else {
                        fuera()
                    },
                }
            } else {
                sp_parametros_tras(
                    c,
                    p1,
                    acc.push(SpecParametro { especificadores: esp, declarador: None }),
                )
            }
        } else {
            fuera()
        },
    }
}

/// One step of `sp_parametros_desde`.
pub proof fn desplegar_sp_parametros_desde(c: Contexto, p: int, acc: Seq<SpecParametro>)
    ensures
        sp_parametros_desde(c, p, acc) == ({
            match sp_especificadores(c, p) {
                Err(f) => Err(f),
                Ok((esp, p1)) => if no_atras(c, p, p1) {
                    if es_inicio_declarador(c, p1) {
                        match sp_declarador(c, p1) {
                            Err(f) => Err(f),
                            Ok((d, p2)) => if adelante(c, p1, p2) {
                                sp_parametros_tras(
                                    c,
                                    p2,
                                    acc.push(SpecParametro { especificadores: esp, declarador: Some(d) }),
                                )
                            } else {
                                fuera()
                            },
                        }
                    } else {
                        sp_parametros_tras(
                            c,
                            p1,
                            acc.push(SpecParametro { especificadores: esp, declarador: None }),
                        )
                    }
                } else {
                    fuera()
                },
            }
        }),
{
    reveal(sp_declarador);
    reveal(sp_especificadores);
    reveal(sp_parametros_desde);
    reveal(sp_parametros_tras);
}

/// After a parameter: another one after `,`, or the end of the list.
#[verifier::opaque]
pub open spec fn sp_parametros_tras(c: Contexto, p: int, acc: Seq<SpecParametro>) -> Avance<
    Seq<SpecParametro>,
>
    decreases c.tokens.len() - p, 0int,
{
    if coincide(c, p, TipoToken::Coma) && p >= 0 {
        sp_parametros_desde(c, p + 1, acc)
    } else {
        Ok((acc, p))
    }
}

/// One step of `sp_parametros_tras`.
pub proof fn desplegar_sp_parametros_tras(c: Contexto, p: int, acc: Seq<SpecParametro>)
    ensures
        sp_parametros_tras(c, p, acc) == ({
            if coincide(c, p, TipoToken::Coma) && p >= 0 {
                sp_parametros_desde(c, p + 1, acc)
            } else {
                Ok((acc, p))
            }
        }),
{
    reveal(sp_parametros_desde);
    reveal(sp_parametros_tras);
}

/// `= initialiser`, if the current token is `=`.
#[verifier::opaque]
pub open spec fn sp_inicializador_opt(c: Contexto, p: int) -> Avance<Option<SpecInicializador>> {
    if !coincide(c, p, TipoToken::Asignar) || p < 0 {
        Ok((None, p))
    } else {
        match sp_inicializador(c, p + 1) {
            Err(f) => Err(f),
            Ok((i, q)) => Ok((Some(i), q)),
        }
    }
}

/// One step of `sp_inicializador_opt`.
pub proof fn desplegar_sp_inicializador_opt(c: Contexto, p: int)
    ensures
        sp_inicializador_opt(c, p) == ({
            if !coincide(c, p, TipoToken::Asignar) || p < 0 {
                Ok((None, p))
            } else {
                match sp_inicializador(c, p + 1) {
                    Err(f) => Err(f),
                    Ok((i, q)) => Ok((Some(i), q)),
                }
            }
        }),
{
    reveal(sp_inicializador);
    reveal(sp_inicializador_opt);
}

/// An expression, or a list of initialisers between braces.
#[verifier::opaque]
pub open spec fn sp_inicializador(c: Contexto, p: int) -> Avance<SpecInicializador>
    decreases c.tokens.len() - p, 0int,
{
    if coincide(c, p, TipoToken::LlaveIzq) && p >= 0 {
        if coincide(c, p + 1, TipoToken::LlaveDer) {
            Ok((SpecInicializador::Lista(Seq::empty()), p + 2))
        } else {
            match sp_lista_inicializadores(c, p + 1, Seq::empty()) {
                Err(f) => Err(f),
                Ok((l, q)) => if adelante(c, p + 1, q) {
                    match esperar(c, q, TipoToken::LlaveDer) {
                        Err(f) => Err(f),
                        Ok(q2) => Ok((SpecInicializador::Lista(l), q2)),
                    }
                } else {
                    fuera()
                },
            }
        }
    } else {
        match sp_expresion(c, p) {
            Err(f) => Err(f),
            Ok((e, q)) => Ok((SpecInicializador::Expr(Box::new(e)), q)),
        }
    }
}

/// One step of `sp_inicializador`.
pub proof fn desplegar_sp_inicializador(c: Contexto, p: int)
    ensures
        sp_inicializador(c, p) == ({
            if coincide(c, p, TipoToken::LlaveIzq) && p >= 0 {
                if coincide(c, p + 1, TipoToken::LlaveDer) {
                    Ok((SpecInicializador::Lista(Seq::empty()), p + 2))
                } else {
                    match sp_lista_inicializadores(c, p + 1, Seq::empty()) {
                        Err(f) => Err(f),
                        Ok((l, q)) => if adelante(c, p + 1, q) {
                            match esperar(c, q, TipoToken::LlaveDer) {
                                Err(f) => Err(f),
                                Ok(q2) => Ok((SpecInicializador::Lista(l), q2)),
                            }
                        } else {
                            fuera()
                        },
                    }
                }
            } else {
                match sp_expresion(c, p) {
                    Err(f) => Err(f),
                    Ok((e, q)) => Ok((SpecInicializador::Expr(Box::new(e)), q)),
                }
            }
        }),
{
    reveal(sp_expresion);
    reveal(sp_inicializador);
    reveal(sp_lista_inicializadores);
}

#[verifier::opaque]
pub open spec fn sp_lista_inicializadores(
    c: Contexto,
    p: int,
    acc: Seq<SpecInicializador>,
) -> Avance<Seq<SpecInicializador>>
    decreases c.tokens.len() - p, 1int,
{
    match sp_inicializador(c, p) {
        Err(f) => Err(f),
        Ok((i, q)) => if adelante(c, p, q) {
            if coincide(c, q, TipoToken::Coma) {
                sp_lista_inicializadores(c, q + 1, acc.push(i))
            } else {
                Ok((acc.push(i), q))
            }
        } else {
            fuera()
        },
    }
}

/// One step of `sp_lista_inicializadores`.
pub proof fn desplegar_sp_lista_inicializadores(c: Contexto,
    p: int,
    acc: Seq<SpecInicializador>)
    ensures
        sp_lista_inicializadores(c, p, acc) == ({
            match sp_inicializador(c, p) {
                Err(f) => Err(f),
                Ok((i, q)) => if adelante(c, p, q) {
                    if coincide(c, q, TipoToken::Coma) {
                        sp_lista_inicializadores(c, q + 1, acc.push(i))
                    } else {
                        Ok((acc.push(i), q))
                    }
                } else {
                    fuera()
                },
            }
        }),
{
    reveal(sp_inicializador);
    reveal(sp_lista_inicializadores);
}

/// `enum`, an optional name and an optional list of enumerators.
#[verifier::opaque]
pub open spec fn sp_enum(c: Contexto, p: int) -> Avance<SpecTipo> {
    match avanzar(c, p) {
        Err(f) => Err(f),
        Ok(p1) => {
            let (nombre, p2) = nombre_opcional(c, p1);
            if coincide(c, p2, TipoToken::LlaveIzq) {
                match sp_enumeradores(c, p2 + 1, Seq::empty()) {
                    Err(f) => Err(f),
                    Ok((es, p3)) => if no_atras(c, p2 + 1, p3) {
                        match esperar(c, p3, TipoToken::LlaveDer) {
                            Err(f) => Err(f),
                            Ok(p4) => Ok(
                                (SpecTipo::Enum(SpecEnum { nombre, enumeradores: es }), p4),
                            ),
                        }
                    } else {
                        fuera()
                    },
                }
            } else {
                Ok((SpecTipo::Enum(SpecEnum { nombre, enumeradores: Seq::empty() }), p2))
            }
        },
    }
}

/// One step of `sp_enum`.
pub proof fn desplegar_sp_enum(c: Contexto, p: int)
    ensures
        sp_enum(c, p) == ({
            match avanzar(c, p) {
                Err(f) => Err(f),
                Ok(p1) => {
                    let (nombre, p2) = nombre_opcional(c, p1);
                    if coincide(c, p2, TipoToken::LlaveIzq) {
                        match sp_enumeradores(c, p2 + 1, Seq::empty()) {
                            Err(f) => Err(f),
                            Ok((es, p3)) => if no_atras(c, p2 + 1, p3) {
                                match esperar(c, p3, TipoToken::LlaveDer) {
                                    Err(f) => Err(f),
                                    Ok(p4) => Ok(
                                        (SpecTipo::Enum(SpecEnum { nombre, enumeradores: es }), p4),
                                    ),
                                }
                            } else {
                                fuera()
                            },
                        }
                    } else {
                        Ok((SpecTipo::Enum(SpecEnum { nombre, enumeradores: Seq::empty() }), p2))
                    }
                },
            }
        }),
{
    reveal(sp_enum);
    reveal(sp_enumeradores);
}

/// The value `= expression` of an enumerator, if the current token is `=`.
#[verifier::opaque]
pub open spec fn sp_valor_enumerador(c: Contexto, p: int) -> Avance<Option<Box<SpecExpr>>> {
    if coincide(c, p, TipoToken::Asignar) && p >= 0 {
        match sp_expresion(c, p + 1) {
            Err(f) => Err(f),
            Ok((e, q)) => Ok((Some(Box::new(e)), q)),
        }
    } else {
        Ok((None, p))
    }
}

/// One step of `sp_valor_enumerador`.
pub proof fn desplegar_sp_valor_enumerador(c: Contexto, p: int)
    ensures
        sp_valor_enumerador(c, p) == ({
            if coincide(c, p, TipoToken::Asignar) && p >= 0 {
                match sp_expresion(c, p + 1) {
                    Err(f) => Err(f),
                    Ok((e, q)) => Ok((Some(Box::new(e)), q)),
                }
            } else {
                Ok((None, p))
            }
        }),
{
    reveal(sp_expresion);
    reveal(sp_valor_enumerador);
}

/// Enumerators up to `}` or the end, each optionally followed by `,`.
#[verifier::opaque]
pub open spec fn sp_enumeradores(c: Contexto, p: int, acc: Seq<SpecEnumerador>) -> Avance<
    Seq<SpecEnumerador>,
>
    decreases c.tokens.len() - p,
{
    if !coincide(c, p, TipoToken::LlaveDer) && !es_fin(c, p) {
        match esperar(c, p, TipoToken::Identificador) {
            Err(f) => Err(f),
            Ok(p1) => match sp_valor_enumerador(c, p1) {
                Err(f) => Err(f),
                Ok((valor, q)) => if no_atras(c, p1, q) {
                    let q2 = if coincide(c, q, TipoToken::Coma) {
                        q + 1
                    } else {
                        q
                    };
                    sp_enumeradores(
                        c,
                        q2,
                        acc.push(SpecEnumerador { nombre: valor_de(c.tokens[p]), valor }),
                    )
                } else {
                    fuera()
                },
            },
        }
    } else {
        Ok((acc, p))
    }
}

/// One step of `sp_enumeradores`.
pub proof fn desplegar_sp_enumeradores(c: Contexto, p: int, acc: Seq<SpecEnumerador>)
    ensures
        sp_enumeradores(c, p, acc) == ({
            if !coincide(c, p, TipoToken::LlaveDer) && !es_fin(c, p) {
                match esperar(c, p, TipoToken::Identificador) {
                    Err(f) => Err(f),
                    Ok(p1) => match sp_valor_enumerador(c, p1) {
                        Err(f) => Err(f),
                        Ok((valor, q)) => if no_atras(c, p1, q) {
                            let q2 = if coincide(c, q, TipoToken::Coma) {
                                q + 1
                            } else {
                                q
                            };
                            sp_enumeradores(
                                c,
                                q2,
                                acc.push(SpecEnumerador { nombre: valor_de(c.tokens[p]), valor }),
                            )
                        } else {
                            fuera()
                        },
                    },
                }
            } else {
                Ok((acc, p))
            }
        }),
{
    reveal(sp_enumeradores);
    reveal(sp_valor_enumerador);
}

// ---------------------------------------------------------------------------
// Expressions
// ---------------------------------------------------------------------------

/// An expression: an assignment.
#[verifier::opaque]
pub open spec fn sp_expresion(c: Contexto, p: int) -> Avance<SpecExpr>
    decreases c.tokens.len() - p, 40int,
{
    sp_asignacion(c, p)
}

/// One step of `sp_expresion`.
pub proof fn desplegar_sp_expresion(c: Contexto, p: int)
    ensures
        sp_expresion(c, p) == ({
            sp_asignacion(c, p)
        }),
{
    reveal(sp_asignacion);
    reveal(sp_expresion);
}

/// A conditional expression, then, after an assignment operator, an assignment
/// (assignments group to the right).
#[verifier::opaque]
pub open spec fn sp_asignacion(c: Contexto, p: int) -> Avance<SpecExpr>
    decreases c.tokens.len() - p, 39int,
{
    match sp_ternario(c, p) {
        Err(f) => Err(f),
        Ok((e, q)) => if adelante(c, p, q) {
            match operador_asignacion_de(tipo_actual(c, q)) {
                None => Ok((e, q)),
                Some(op) => match avanzar(c, q) {
                    Err(f) => Err(f),
                    Ok(q1) => match sp_asignacion(c, q1) {
                        Err(f) => Err(f),
                        Ok((v, q2)) => Ok(
                            (
                                SpecExpr::Asignacion {
                                    posicion: pos_actual(c, q),
                                    operador: op,
                                    destino: Box::new(e),
                                    valor: Box::new(v),
                                },
                                q2,
                            ),
                        ),
                    },
                },
            }
        } else {
            fuera()
        },
    }
}

/// One step of `sp_asignacion`.
pub proof fn desplegar_sp_asignacion(c: Contexto, p: int)
    ensures
        sp_asignacion(c, p) == ({
            match sp_ternario(c, p) {
                Err(f) => Err(f),
                Ok((e, q)) => if adelante(c, p, q) {
                    match operador_asignacion_de(tipo_actual(c, q)) {
                        None => Ok((e, q)),
                        Some(op) => match avanzar(c, q) {
                            Err(f) => Err(f),
                            Ok(q1) => match sp_asignacion(c, q1) {
                                Err(f) => Err(f),
                                Ok((v, q2)) => Ok(
                                    (
                                        SpecExpr::Asignacion {
                                            posicion: pos_actual(c, q),
                                            operador: op,
                                            destino: Box::new(e),
                                            valor: Box::new(v),
                                        },
                                        q2,
                                    ),
                                ),
                            },
                        },
                    }
                } else {
                    fuera()
                },
            }
        }),
{
    reveal(sp_asignacion);
    reveal(sp_ternario);
}

/// `a ? b : c`, where `b` is any expression and `c` again a conditional one.
#[verifier::opaque]
pub open spec fn sp_ternario(c: Contexto, p: int) -> Avance<SpecExpr>
    decreases c.tokens.len() - p, 38int,
{
    match sp_binaria(c, p, NivelBinario::OLogico) {
        Err(f) => Err(f),
        Ok((e, q)) => if adelante(c, p, q) {
            if coincide(c, q, TipoToken::Interrogacion) {
                match sp_expresion(c, q + 1) {
                    Err(f) => Err(f),
                    Ok((v, q2)) => if adelante(c, q + 1, q2) {
                        match esperar(c, q2, TipoToken::DosPuntos) {
                            Err(f) => Err(f),
                            Ok(q3) => match sp_ternario(c, q3) {
                                Err(f) => Err(f),
                                Ok((fa, q4)) => Ok(
                                    (
                                        SpecExpr::Ternaria {
                                            posicion: pos_actual(c, q),
                                            condicion: Box::new(e),
                                            verdadero: Box::new(v),
                                            falso: Box::new(fa),
                                        },
                                        q4,
                                    ),
                                ),
                            },
                        }
                    } else {
                        fuera()
                    },
                }
            } else {
                Ok((e, q))
            }
        } else {
            fuera()
        },
    }
}

/// One step of `sp_ternario`.
pub proof fn desplegar_sp_ternario(c: Contexto, p: int)
    ensures
        sp_ternario(c, p) == ({
            match sp_binaria(c, p, NivelBinario::OLogico) {
                Err(f) => Err(f),
                Ok((e, q)) => if adelante(c, p, q) {
                    if coincide(c, q, TipoToken::Interrogacion) {
                        match sp_expresion(c, q + 1) {
                            Err(f) => Err(f),
                            Ok((v, q2)) => if adelante(c, q + 1, q2) {
                                match esperar(c, q2, TipoToken::DosPuntos) {
                                    Err(f) => Err(f),
                                    Ok(q3) => match sp_ternario(c, q3) {
                                        Err(f) => Err(f),
                                        Ok((fa, q4)) => Ok(
                                            (
                                                SpecExpr::Ternaria {
                                                    posicion: pos_actual(c, q),
                                                    condicion: Box::new(e),
                                                    verdadero: Box::new(v),
                                                    falso: Box::new(fa),
                                                },
                                                q4,
                                            ),
                                        ),
                                    },
                                }
                            } else {
                                fuera()
                            },
                        }
                    } else {
                        Ok((e, q))
                    }
                } else {
                    fuera()
                },
            }
        }),
{
    reveal(sp_binaria);
    reveal(sp_expresion);
    reveal(sp_ternario);
}

/// Operands at the next level down, with the operators of `nivel` between
/// them, grouped to the left.
#[verifier::opaque]
pub open spec fn sp_binaria(c: Contexto, p: int, nivel: NivelBinario) -> Avance<SpecExpr>
    decreases c.tokens.len() - p, rango_nivel(nivel),
{
    match sp_operando(c, p, nivel) {
        Err(f) => Err(f),
        Ok((e, q)) => if adelante(c, p, q) {
            sp_binaria_desde(c, q, nivel, e)
        } else {
            fuera()
        },
    }
}

/// One step of `sp_binaria`.
pub proof fn desplegar_sp_binaria(c: Contexto, p: int, nivel: NivelBinario)
    ensures
        sp_binaria(c, p, nivel) == ({
            match sp_operando(c, p, nivel) {
                Err(f) => Err(f),
                Ok((e, q)) => if adelante(c, p, q) {
                    sp_binaria_desde(c, q, nivel, e)
                } else {
                    fuera()
                },
            }
        }),
{
    reveal(sp_binaria);
    reveal(sp_binaria_desde);
    reveal(sp_operando);
}

/// An operand of a level: an expression of the next level down.
#[verifier::opaque]
pub open spec fn sp_operando(c: Contexto, p: int, nivel: NivelBinario) -> Avance<SpecExpr>
    decreases c.tokens.len() - p, rango_nivel(nivel) - 1,
{
    match nivel {
        NivelBinario::OLogico => sp_binaria(c, p, NivelBinario::YLogico),
        NivelBinario::YLogico => sp_binaria(c, p, NivelBinario::OBit),
        NivelBinario::OBit => sp_binaria(c, p, NivelBinario::XorBit),
        NivelBinario::XorBit => sp_binaria(c, p, NivelBinario::YBit),
        NivelBinario::YBit => sp_binaria(c, p, NivelBinario::Igualdad),
        NivelBinario::Igualdad => sp_relacional(c, p),
        NivelBinario::Desplazamiento => sp_aditiva(c, p),
    }
}

/// One step of `sp_operando`.
pub proof fn desplegar_sp_operando(c: Contexto, p: int, nivel: NivelBinario)
    ensures
        sp_operando(c, p, nivel) == ({
            match nivel {
                NivelBinario::OLogico => sp_binaria(c, p, NivelBinario::YLogico),
                NivelBinario::YLogico => sp_binaria(c, p, NivelBinario::OBit),
                NivelBinario::OBit => sp_binaria(c, p, NivelBinario::XorBit),
                NivelBinario::XorBit => sp_binaria(c, p, NivelBinario::YBit),
                NivelBinario::YBit => sp_binaria(c, p, NivelBinario::Igualdad),
                NivelBinario::Igualdad => sp_relacional(c, p),
                NivelBinario::Desplazamiento => sp_aditiva(c, p),
            }
        }),
{
    reveal(sp_aditiva);
    reveal(sp_binaria);
    reveal(sp_operando);
    reveal(sp_relacional);
}

#[verifier::opaque]
pub open spec fn sp_binaria_desde(c: Contexto, p: int, nivel: NivelBinario, acc: SpecExpr) -> Avance<
    SpecExpr,
>
    decreases c.tokens.len() - p, 0int,
{
    if es_operador_de(nivel, tipo_actual(c, p)) {
        match avanzar(c, p) {
            Err(f) => Err(f),
            Ok(p1) => match sp_operando(c, p1, nivel) {
                Err(f) => Err(f),
                Ok((d, q)) => if adelante(c, p1, q) {
                    sp_binaria_desde(
                        c,
                        q,
                        nivel,
                        SpecExpr::Binaria {
                            posicion: pos_actual(c, p),
                            operador: operador_binario_de(tipo_actual(c, p), nivel),
                            izquierda: Box::new(acc),
                            derecha: Box::new(d),
                        },
                    )
                } else {
                    fuera()
                },
            },
        }
    } else {
        Ok((acc, p))
    }
}

/// One step of `sp_binaria_desde`.
pub proof fn desplegar_sp_binaria_desde(c: Contexto, p: int, nivel: NivelBinario, acc: SpecExpr)
    ensures
        sp_binaria_desde(c, p, nivel, acc) == ({
            if es_operador_de(nivel, tipo_actual(c, p)) {
                match avanzar(c, p) {
                    Err(f) => Err(f),
                    Ok(p1) => match sp_operando(c, p1, nivel) {
                        Err(f) => Err(f),
                        Ok((d, q)) => if adelante(c, p1, q) {
                            sp_binaria_desde(
                                c,
                                q,
                                nivel,
                                SpecExpr::Binaria {
                                    posicion: pos_actual(c, p),
                                    operador: operador_binario_de(tipo_actual(c, p), nivel),
                                    izquierda: Box::new(acc),
                                    derecha: Box::new(d),
                                },
                            )
                        } else {
                            fuera()
                        },
                    },
                }
            } else {
                Ok((acc, p))
            }
        }),
{
    reveal(sp_binaria_desde);
    reveal(sp_operando);
}

/// Shift expressions with `<`, `>`, `<=`, `>=` between them.
#[verifier::opaque]
pub open spec fn sp_relacional(c: Contexto, p: int) -> Avance<SpecExpr>
    decreases c.tokens.len() - p, 24int,
{
    match sp_binaria(c, p, NivelBinario::Desplazamiento) {
        Err(f) => Err(f),
        Ok((e, q)) => if adelante(c, p, q) {
            sp_relacional_desde(c, q, e)
        } else {
            fuera()
        },
    }
}

/// One step of `sp_relacional`.
pub proof fn desplegar_sp_relacional(c: Contexto, p: int)
    ensures
        sp_relacional(c, p) == ({
            match sp_binaria(c, p, NivelBinario::Desplazamiento) {
                Err(f) => Err(f),
                Ok((e, q)) => if adelante(c, p, q) {
                    sp_relacional_desde(c, q, e)
                } else {
                    fuera()
                },
            }
        }),
{
    reveal(sp_binaria);
    reveal(sp_relacional);
    reveal(sp_relacional_desde);
}

#[verifier::opaque]
pub open spec fn sp_relacional_desde(c: Contexto, p: int, acc: SpecExpr) -> Avance<SpecExpr>
    decreases c.tokens.len() - p, 0int,
{
    match operador_relacional_de(tipo_actual(c, p)) {
        None => Ok((acc, p)),
        Some(op) => match avanzar(c, p) {
            Err(f) => Err(f),
            Ok(p1) => match sp_binaria(c, p1, NivelBinario::Desplazamiento) {
                Err(f) => Err(f),
                Ok((d, q)) => if adelante(c, p1, q) {
                    sp_relacional_desde(
                        c,
                        q,
                        SpecExpr::Binaria {
                            posicion: pos_actual(c, p),
                            operador: op,
                            izquierda: Box::new(acc),
                            derecha: Box::new(d),
                        },
                    )
                } else {
                    fuera()
                },
            },
        },
    }
}

/// One step of `sp_relacional_desde`.
pub proof fn desplegar_sp_relacional_desde(c: Contexto, p: int, acc: SpecExpr)
    ensures
        sp_relacional_desde(c, p, acc) == ({
            match operador_relacional_de(tipo_actual(c, p)) {
                None => Ok((acc, p)),
                Some(op) => match avanzar(c, p) {
                    Err(f) => Err(f),
                    Ok(p1) => match sp_binaria(c, p1, NivelBinario::Desplazamiento) {
                        Err(f) => Err(f),
                        Ok((d, q)) => if adelante(c, p1, q) {
                            sp_relacional_desde(
                                c,
                                q,
                                SpecExpr::Binaria {
                                    posicion: pos_actual(c, p),
                                    operador: op,
                                    izquierda: Box::new(acc),
                                    derecha: Box::new(d),
                                },
                            )
                        } else {
                            fuera()
                        },
                    },
                },
            }
        }),
{
    reveal(sp_binaria);
    reveal(sp_relacional_desde);
}

/// Multiplicative expressions with `+`, `-` between them.
#[verifier::opaque]
pub open spec fn sp_aditiva(c: Contexto, p: int) -> Avance<SpecExpr>
    decreases c.tokens.len() - p, 20int,
{
    match sp_multiplicativa(c, p) {
        Err(f) => Err(f),
        Ok((e, q)) => if adelante(c, p, q) {
            sp_aditiva_desde(c, q, e)
        } else {
            fuera()
        },
    }
}

/// One step of `sp_aditiva`.
pub proof fn desplegar_sp_aditiva(c: Contexto, p: int)
    ensures
        sp_aditiva(c, p) == ({
            match sp_multiplicativa(c, p) {
                Err(f) => Err(f),
                Ok((e, q)) => if adelante(c, p, q) {
                    sp_aditiva_desde(c, q, e)
                } else {
                    fuera()
                },
            }
        }),
{
    reveal(sp_aditiva);
    reveal(sp_aditiva_desde);
    reveal(sp_multiplicativa);
}

#[verifier::opaque]
pub open spec fn sp_aditiva_desde(c: Contexto, p: int, acc: SpecExpr) -> Avance<SpecExpr>
    decreases c.tokens.len() - p, 0int,
{
    match operador_aditivo_de(tipo_actual(c, p)) {
        None => Ok((acc, p)),
        Some(op) => match avanzar(c, p) {
            Err(f) => Err(f),
            Ok(p1) => match sp_multiplicativa(c, p1) {
                Err(f) => Err(f),
                Ok((d, q)) => if adelante(c, p1, q) {
                    sp_aditiva_desde(
                        c,
                        q,
                        SpecExpr::Binaria {
                            posicion: pos_actual(c, p),
                            operador: op,
                            izquierda: Box::new(acc),
                            derecha: Box::new(d),
                        },
                    )
                } else {
                    fuera()
                },
            },
        },
    }
}

/// One step of `sp_aditiva_desde`.
#[verifier::spinoff_prover]
pub proof fn desplegar_sp_aditiva_desde(c: Contexto, p: int, acc: SpecExpr)
    ensures
        sp_aditiva_desde(c, p, acc) == ({
            match operador_aditivo_de(tipo_actual(c, p)) {
                None => Ok((acc, p)),
                Some(op) => match avanzar(c, p) {
                    Err(f) => Err(f),
                    Ok(p1) => match sp_multiplicativa(c, p1) {
                        Err(f) => Err(f),
                        Ok((d, q)) => if adelante(c, p1, q) {
                            sp_aditiva_desde(
                                c,
                                q,
                                SpecExpr::Binaria {
                                    posicion: pos_actual(c, p),
                                    operador: op,
                                    izquierda: Box::new(acc),
                                    derecha: Box::new(d),
                                },
                            )
                        } else {
                            fuera()
                        },
                    },
                },
            }
        }),
{
    reveal(sp_aditiva_desde);
    reveal(sp_multiplicativa);
}

/// Unary expressions with `*`, `/`, `%` between them.
#[verifier::opaque]
pub open spec fn sp_multiplicativa(c: Contexto, p: int) -> Avance<SpecExpr>
    decreases c.tokens.len() - p, 18int,
{
    match sp_unaria(c, p) {
        Err(f) => Err(f),
        Ok((e, q)) => if adelante(c, p, q) {
            sp_multiplicativa_desde(c, q, e)
        } else {
            fuera()
        },
    }
}

/// One step of `sp_multiplicativa`.
pub proof fn desplegar_sp_multiplicativa(c: Contexto, p: int)
    ensures
        sp_multiplicativa(c, p) == ({
            match sp_unaria(c, p) {
                Err(f) => Err(f),
                Ok((e, q)) => if adelante(c, p, q) {
                    sp_multiplicativa_desde(c, q, e)
                } else {
                    fuera()
                },
            }
        }),
{
    reveal(sp_multiplicativa);
    reveal(sp_multiplicativa_desde);
    reveal(sp_unaria);
}

#[verifier::opaque]
pub open spec fn sp_multiplicativa_desde(c: Contexto, p: int, acc: SpecExpr) -> Avance<SpecExpr>
    decreases c.tokens.len() - p, 0int,
{
    match operador_multiplicativo_de(tipo_actual(c, p)) {
        None => Ok((acc, p)),
        Some(op) => match avanzar(c, p) {
            Err(f) => Err(f),
            Ok(p1) => match sp_unaria(c, p1) {
                Err(f) => Err(f),
                Ok((d, q)) => if adelante(c, p1, q) {
                    sp_multiplicativa_desde(
                        c,
                        q,
                        SpecExpr::Binaria {
                            posicion: pos_actual(c, p),
                            operador: op,
                            izquierda: Box::new(acc),
                            derecha: Box::new(d),
                        },
                    )
                } else {
                    fuera()
                },
            },
        },
    }
}

/// One step of `sp_multiplicativa_desde`.
pub proof fn desplegar_sp_multiplicativa_desde(c: Contexto, p: int, acc: SpecExpr)
    ensures
        sp_multiplicativa_desde(c, p, acc) == ({
            match operador_multiplicativo_de(tipo_actual(c, p)) {
                None => Ok((acc, p)),
                Some(op) => match avanzar(c, p) {
                    Err(f) => Err(f),
                    Ok(p1) => match sp_unaria(c, p1) {
                        Err(f) => Err(f),
                        Ok((d, q)) => if adelante(c, p1, q) {
                            sp_multiplicativa_desde(
                                c,
                                q,
                                SpecExpr::Binaria {
                                    posicion: pos_actual(c, p),
                                    operador: op,
                                    izquierda: Box::new(acc),
                                    derecha: Box::new(d),
                                },
                            )
                        } else {
                            fuera()
                        },
                    },
                },
            }
        }),
{
    reveal(sp_multiplicativa_desde);
    reveal(sp_unaria);
}

/// The current token is `(` and the one after it starts a type name.
pub open spec fn es_cast(c: Contexto, p: int) -> bool {
    coincide(c, p, TipoToken::ParentesisIzq) && match mirar(c, p, 1) {
        Some(t) => es_inicio_tipo(t.tipo),
        None => false,
    }
}

/// `sizeof`, a prefix operator, a cast, or a postfix expression.
#[verifier::opaque]
pub open spec fn sp_unaria(c: Contexto, p: int) -> Avance<SpecExpr>
    decreases c.tokens.len() - p, 16int,
{
    let pos = pos_actual(c, p);
    if coincide(c, p, TipoToken::Sizeof) && p >= 0 {
        if es_cast(c, p + 1) {
            match sp_tipo(c, p + 2) {
                Err(f) => Err(f),
                Ok((t, q)) => match esperar(c, q, TipoToken::ParentesisDer) {
                    Err(f) => Err(f),
                    Ok(q2) => Ok(
                        (
                            SpecExpr::Sizeof {
                                posicion: pos,
                                es_tipo: true,
                                objetivo: SpecSizeofObjetivo::Tipo(t),
                            },
                            q2,
                        ),
                    ),
                },
            }
        } else {
            match sp_unaria(c, p + 1) {
                Err(f) => Err(f),
                Ok((e, q)) => Ok(
                    (
                        SpecExpr::Sizeof {
                            posicion: pos,
                            es_tipo: false,
                            objetivo: SpecSizeofObjetivo::Expr(Box::new(e)),
                        },
                        q,
                    ),
                ),
            }
        }
    } else {
        match operador_unario_de(tipo_actual(c, p)) {
            Some(op) => match avanzar(c, p) {
                Err(f) => Err(f),
                Ok(p1) => match sp_unaria(c, p1) {
                    Err(f) => Err(f),
                    Ok((e, q)) => Ok(
                        (SpecExpr::Unaria { posicion: pos, operador: op, operando: Box::new(e) }, q),
                    ),
                },
            },
            None => if es_cast(c, p) && p >= 0 {
                match sp_tipo(c, p + 1) {
                    Err(f) => Err(f),
                    Ok((t, q)) => if no_atras(c, p + 1, q) {
                        match esperar(c, q, TipoToken::ParentesisDer) {
                            Err(f) => Err(f),
                            Ok(q2) => match sp_unaria(c, q2) {
                                Err(f) => Err(f),
                                Ok((e, q3)) => Ok(
                                    (SpecExpr::Cast { posicion: pos, tipo: t, expr: Box::new(e) }, q3),
                                ),
                            },
                        }
                    } else {
                        fuera()
                    },
                }
            } else {
                sp_postfija(c, p)
            },
        }
    }
}

/// One step of `sp_unaria`.
pub proof fn desplegar_sp_unaria(c: Contexto, p: int)
    ensures
        sp_unaria(c, p) == ({
            let pos = pos_actual(c, p);
            if coincide(c, p, TipoToken::Sizeof) && p >= 0 {
                if es_cast(c, p + 1) {
                    match sp_tipo(c, p + 2) {
                        Err(f) => Err(f),
                        Ok((t, q)) => match esperar(c, q, TipoToken::ParentesisDer) {
                            Err(f) => Err(f),
                            Ok(q2) => Ok(
                                (
                                    SpecExpr::Sizeof {
                                        posicion: pos,
                                        es_tipo: true,
                                        objetivo: SpecSizeofObjetivo::Tipo(t),
                                    },
                                    q2,
                                ),
                            ),
                        },
                    }
                } else {
                    match sp_unaria(c, p + 1) {
                        Err(f) => Err(f),
                        Ok((e, q)) => Ok(
                            (
                                SpecExpr::Sizeof {
                                    posicion: pos,
                                    es_tipo: false,
                                    objetivo: SpecSizeofObjetivo::Expr(Box::new(e)),
                                },
                                q,
                            ),
                        ),
                    }
                }
            } else {
                match operador_unario_de(tipo_actual(c, p)) {
                    Some(op) => match avanzar(c, p) {
                        Err(f) => Err(f),
                        Ok(p1) => match sp_unaria(c, p1) {
                            Err(f) => Err(f),
                            Ok((e, q)) => Ok(
                                (SpecExpr::Unaria { posicion: pos, operador: op, operando: Box::new(e) }, q),
                            ),
                        },
                    },
                    None => if es_cast(c, p) && p >= 0 {
                        match sp_tipo(c, p + 1) {
                            Err(f) => Err(f),
                            Ok((t, q)) => if no_atras(c, p + 1, q) {
                                match esperar(c, q, TipoToken::ParentesisDer) {
                                    Err(f) => Err(f),
                                    Ok(q2) => match sp_unaria(c, q2) {
                                        Err(f) => Err(f),
                                        Ok((e, q3)) => Ok(
                                            (SpecExpr::Cast { posicion: pos, tipo: t, expr: Box::new(e) }, q3),
                                        ),
                                    },
                                }
                            } else {
                                fuera()
                            },
                        }
                    } else {
                        sp_postfija(c, p)
                    },
                }
            }
        }),
{
    reveal(sp_postfija);
    reveal(sp_tipo);
    reveal(sp_unaria);
}

/// A primary expression followed by indexing, calls, member accesses and
/// postfix `++` / `--`.
#[verifier::opaque]
pub open spec fn sp_postfija(c: Contexto, p: int) -> Avance<SpecExpr>
    decreases c.tokens.len() - p, 14int,
{
    match sp_primaria(c, p) {
        Err(f) => Err(f),
        Ok((e, q)) => if adelante(c, p, q) {
            sp_postfija_desde(c, q, e)
        } else {
            fuera()
        },
    }
}

/// One step of `sp_postfija`.
pub proof fn desplegar_sp_postfija(c: Contexto, p: int)
    ensures
        sp_postfija(c, p) == ({
            match sp_primaria(c, p) {
                Err(f) => Err(f),
                Ok((e, q)) => if adelante(c, p, q) {
                    sp_postfija_desde(c, q, e)
                } else {
                    fuera()
                },
            }
        }),
{
    reveal(sp_postfija);
    reveal(sp_postfija_desde);
    reveal(sp_primaria);
}

/// Arguments of a call, separated by `,`.
#[verifier::opaque]
pub open spec fn sp_argumentos(c: Contexto, p: int, acc: Seq<SpecExpr>) -> Avance<Seq<SpecExpr>>
    decreases c.tokens.len() - p, 41int,
{
    match sp_expresion(c, p) {
        Err(f) => Err(f),
        Ok((e, q)) => if adelante(c, p, q) {
            if coincide(c, q, TipoToken::Coma) {
                sp_argumentos(c, q + 1, acc.push(e))
            } else {
                Ok((acc.push(e), q))
            }
        } else {
            fuera()
        },
    }
}

/// One step of `sp_argumentos`.
pub proof fn desplegar_sp_argumentos(c: Contexto, p: int, acc: Seq<SpecExpr>)
    ensures
        sp_argumentos(c, p, acc) == ({
            match sp_expresion(c, p) {
                Err(f) => Err(f),
                Ok((e, q)) => if adelante(c, p, q) {
                    if coincide(c, q, TipoToken::Coma) {
                        sp_argumentos(c, q + 1, acc.push(e))
                    } else {
                        Ok((acc.push(e), q))
                    }
                } else {
                    fuera()
                },
            }
        }),
{
    reveal(sp_argumentos);
    reveal(sp_expresion);
}

/// The argument list of a call, empty if `)` comes at once.
#[verifier::opaque]
pub open spec fn sp_lista_argumentos(c: Contexto, p: int) -> Avance<Seq<SpecExpr>>
    decreases c.tokens.len() - p, 42int,
{
    if !coincide(c, p, TipoToken::ParentesisDer) {
        sp_argumentos(c, p, Seq::empty())
    } else {
        Ok((Seq::empty(), p))
    }
}

/// One step of `sp_lista_argumentos`.
pub proof fn desplegar_sp_lista_argumentos(c: Contexto, p: int)
    ensures
        sp_lista_argumentos(c, p) == ({
            if !coincide(c, p, TipoToken::ParentesisDer) {
                sp_argumentos(c, p, Seq::empty())
            } else {
                Ok((Seq::empty(), p))
            }
        }),
{
    reveal(sp_argumentos);
    reveal(sp_lista_argumentos);
}

/// A member name after `.` or `->`.
#[verifier::opaque]
pub open spec fn sp_miembro(c: Contexto, p: int, acc: SpecExpr, es_puntero: bool) -> Avance<SpecExpr>
    decreases c.tokens.len() - p, 1int,
{
    match avanzar(c, p) {
        Err(f) => Err(f),
        Ok(p1) => match esperar(c, p1, TipoToken::Identificador) {
            Err(f) => Err(f),
            Ok(q) => sp_postfija_desde(
                c,
                q,
                SpecExpr::Miembro {
                    posicion: pos_actual(c, p),
                    objeto: Box::new(acc),
                    miembro: valor_de(c.tokens[p1]),
                    es_puntero,
                },
            ),
        },
    }
}

/// One step of `sp_miembro`.
pub proof fn desplegar_sp_miembro(c: Contexto, p: int, acc: SpecExpr, es_puntero: bool)
    ensures
        sp_miembro(c, p, acc, es_puntero) == ({
            match avanzar(c, p) {
                Err(f) => Err(f),
                Ok(p1) => match esperar(c, p1, TipoToken::Identificador) {
                    Err(f) => Err(f),
                    Ok(q) => sp_postfija_desde(
                        c,
                        q,
                        SpecExpr::Miembro {
                            posicion: pos_actual(c, p),
                            objeto: Box::new(acc),
                            miembro: valor_de(c.tokens[p1]),
                            es_puntero,
                        },
                    ),
                },
            }
        }),
{
    reveal(sp_miembro);
    reveal(sp_postfija_desde);
}

#[verifier::opaque]
pub open spec fn sp_postfija_desde(c: Contexto, p: int, acc: SpecExpr) -> Avance<SpecExpr>
    decreases c.tokens.len() - p, 2int,
{
    let pos = pos_actual(c, p);
    let k = tipo_actual(c, p);
    if k == TipoToken::CorcheteIzq {
        match avanzar(c, p) {
            Err(f) => Err(f),
            Ok(p1) => match sp_expresion(c, p1) {
                Err(f) => Err(f),
                Ok((i, q)) => if adelante(c, p1, q) {
                    match esperar(c, q, TipoToken::CorcheteDer) {
                        Err(f) => Err(f),
                        Ok(q2) => sp_postfija_desde(
                            c,
                            q2,
                            SpecExpr::Index { posicion: pos, arreglo: Box::new(acc), indice: Box::new(i) },
                        ),
                    }
                } else {
                    fuera()
                },
            },
        }
    } else if k == TipoToken::ParentesisIzq {
        match avanzar(c, p) {
            Err(f) => Err(f),
            Ok(p1) => match sp_lista_argumentos(c, p1) {
                Err(f) => Err(f),
                Ok((args, q)) => if no_atras(c, p1, q) {
                    match esperar(c, q, TipoToken::ParentesisDer) {
                        Err(f) => Err(f),
                        Ok(q2) => sp_postfija_desde(
                            c,
                            q2,
                            SpecExpr::Llamada { posicion: pos, funcion: Box::new(acc), argumentos: args },
                        ),
                    }
                } else {
                    fuera()
                },
            },
        }
    } else if k == TipoToken::Punto {
        sp_miembro(c, p, acc, false)
    } else if k == TipoToken::Flecha {
        sp_miembro(c, p, acc, true)
    } else if k == TipoToken::Incremento || k == TipoToken::Decremento {
        match avanzar(c, p) {
            Err(f) => Err(f),
            Ok(p1) => sp_postfija_desde(
                c,
                p1,
                SpecExpr::Unaria {
                    posicion: pos,
                    operador: if k == TipoToken::Incremento {
                        OperadorUnario::Incremento
                    } else {
                        OperadorUnario::Decremento
                    },
                    operando: Box::new(acc),
                },
            ),
        }
    } else {
        Ok((acc, p))
    }
}

/// One step of `sp_postfija_desde`.
pub proof fn desplegar_sp_postfija_desde(c: Contexto, p: int, acc: SpecExpr)
    ensures
        sp_postfija_desde(c, p, acc) == ({
            let pos = pos_actual(c, p);
            let k = tipo_actual(c, p);
            if k == TipoToken::CorcheteIzq {
                match avanzar(c, p) {
                    Err(f) => Err(f),
                    Ok(p1) => match sp_expresion(c, p1) {
                        Err(f) => Err(f),
                        Ok((i, q)) => if adelante(c, p1, q) {
                            match esperar(c, q, TipoToken::CorcheteDer) {
                                Err(f) => Err(f),
                                Ok(q2) => sp_postfija_desde(
                                    c,
                                    q2,
                                    SpecExpr::Index { posicion: pos, arreglo: Box::new(acc), indice: Box::new(i) },
                                ),
                            }
                        } else {
                            fuera()
                        },
                    },
                }
            } else if k == TipoToken::ParentesisIzq {
                match avanzar(c, p) {
                    Err(f) => Err(f),
                    Ok(p1) => match sp_lista_argumentos(c, p1) {
                        Err(f) => Err(f),
                        Ok((args, q)) => if no_atras(c, p1, q) {
                            match esperar(c, q, TipoToken::ParentesisDer) {
                                Err(f) => Err(f),
                                Ok(q2) => sp_postfija_desde(
                                    c,
                                    q2,
                                    SpecExpr::Llamada { posicion: pos, funcion: Box::new(acc), argumentos: args },
                                ),
                            }
                        } else {
                            fuera()
                        },
                    },
                }
            } else if k == TipoToken::Punto {
                sp_miembro(c, p, acc, false)
            } else if k == TipoToken::Flecha {
                sp_miembro(c, p, acc, true)
            } else if k == TipoToken::Incremento || k == TipoToken::Decremento {
                match avanzar(c, p) {
                    Err(f) => Err(f),
                    Ok(p1) => sp_postfija_desde(
                        c,
                        p1,
                        SpecExpr::Unaria {
                            posicion: pos,
                            operador: if k == TipoToken::Incremento {
                                OperadorUnario::Incremento
                            } else {
                                OperadorUnario::Decremento
                            },
                            operando: Box::new(acc),
                        },
                    ),
                }
            } else {
                Ok((acc, p))
            }
        }),
{
    reveal(sp_expresion);
    reveal(sp_lista_argumentos);
    reveal(sp_miembro);
    reveal(sp_postfija_desde);
}

/// The literal of a literal token kind, holding `v`.
pub open spec fn literal_de(k: TipoToken, v: Seq<char>) -> Option<SpecLiteral> {
    match k {
        TipoToken::Entero => Some(SpecLiteral::Entero(v)),
        TipoToken::Flotante => Some(SpecLiteral::Flotante(v)),
        TipoToken::Caracter => Some(SpecLiteral::Caracter(v)),
        TipoToken::Cadena => Some(SpecLiteral::Cadena(v)),
        _ => None,
    }
}

/// A literal, a name, or an expression between parentheses.
#[verifier::opaque]
pub open spec fn sp_primaria(c: Contexto, p: int) -> Avance<SpecExpr>
    decreases c.tokens.len() - p, 12int,
{
    let pos = pos_actual(c, p);
    let k = tipo_actual(c, p);
    if literal_de(k, Seq::empty()) is Some || k == TipoToken::Identificador {
        match avanzar(c, p) {
            Err(f) => Err(f),
            Ok(p1) => {
                let v = valor_de(c.tokens[p]);
                if k == TipoToken::Identificador {
                    Ok((SpecExpr::Identificador { posicion: pos, nombre: v }, p1))
                } else {
                    Ok((SpecExpr::Literal { posicion: pos, valor: literal_de(k, v).unwrap() }, p1))
                }
            },
        }
    } else if k == TipoToken::ParentesisIzq {
        match avanzar(c, p) {
            Err(f) => Err(f),
            Ok(p1) => match sp_expresion(c, p1) {
                Err(f) => Err(f),
                Ok((e, q)) => if adelante(c, p1, q) {
                    match esperar(c, q, TipoToken::ParentesisDer) {
                        Err(f) => Err(f),
                        Ok(q2) => Ok((e, q2)),
                    }
                } else {
                    fuera()
                },
            },
        }
    } else {
        Err(error_aqui(c, p, "expresion primaria"@))
    }
}

/// One step of `sp_primaria`.
pub proof fn desplegar_sp_primaria(c: Contexto, p: int)
    ensures
        sp_primaria(c, p) == ({
            let pos = pos_actual(c, p);
            let k = tipo_actual(c, p);
            if literal_de(k, Seq::empty()) is Some || k == TipoToken::Identificador {
                match avanzar(c, p) {
                    Err(f) => Err(f),
                    Ok(p1) => {
                        let v = valor_de(c.tokens[p]);
                        if k == TipoToken::Identificador {
                            Ok((SpecExpr::Identificador { posicion: pos, nombre: v }, p1))
                        } else {
                            Ok((SpecExpr::Literal { posicion: pos, valor: literal_de(k, v).unwrap() }, p1))
                        }
                    },
                }
            } else if k == TipoToken::ParentesisIzq {
                match avanzar(c, p) {
                    Err(f) => Err(f),
                    Ok(p1) => match sp_expresion(c, p1) {
                        Err(f) => Err(f),
                        Ok((e, q)) => if adelante(c, p1, q) {
                            match esperar(c, q, TipoToken::ParentesisDer) {
                                Err(f) => Err(f),
                                Ok(q2) => Ok((e, q2)),
                            }
                        } else {
                            fuera()
                        },
                    },
                }
            } else {
                Err(error_aqui(c, p, "expresion primaria"@))
            }
        }),
{
    reveal(sp_expresion);
    reveal(sp_primaria);
}

// ---------------------------------------------------------------------------
// Statements
// ---------------------------------------------------------------------------

/// `{`, declarations and statements, `}`.
#[verifier::opaque]
pub open spec fn sp_bloque(c: Contexto, p: int) -> Avance<SpecBloque>
    decreases c.tokens.len() - p, 1int,
{
    match esperar(c, p, TipoToken::LlaveIzq) {
        Err(f) => Err(f),
        Ok(p1) => match sp_items(c, p1, Seq::empty()) {
            Err(f) => Err(f),
            Ok((items, q)) => if no_atras(c, p1, q) {
                match esperar(c, q, TipoToken::LlaveDer) {
                    Err(f) => Err(f),
                    Ok(q2) => Ok((SpecBloque { posicion: pos_actual(c, p), items }, q2)),
                }
            } else {
                fuera()
            },
        },
    }
}

/// One step of `sp_bloque`.
pub proof fn desplegar_sp_bloque(c: Contexto, p: int)
    ensures
        sp_bloque(c, p) == ({
            match esperar(c, p, TipoToken::LlaveIzq) {
                Err(f) => Err(f),
                Ok(p1) => match sp_items(c, p1, Seq::empty()) {
                    Err(f) => Err(f),
                    Ok((items, q)) => if no_atras(c, p1, q) {
                        match esperar(c, q, TipoToken::LlaveDer) {
                            Err(f) => Err(f),
                            Ok(q2) => Ok((SpecBloque { posicion: pos_actual(c, p), items }, q2)),
                        }
                    } else {
                        fuera()
                    },
                },
            }
        }),
{
    reveal(sp_bloque);
    reveal(sp_items);
}

/// The items of a block up to `}` or the end: a declaration where a storage
/// class, qualifier or type keyword starts one, a statement elsewhere.
#[verifier::opaque]
pub open spec fn sp_items(c: Contexto, p: int, acc: Seq<SpecItemBloque>) -> Avance<
    Seq<SpecItemBloque>,
>
    decreases c.tokens.len() - p, 3int,
{
    if !coincide(c, p, TipoToken::LlaveDer) && !es_fin(c, p) {
        if es_inicio_decl_bloque(tipo_actual(c, p)) {
            match sp_declaracion(c, p) {
                Err(f) => Err(f),
                Ok((d, q)) => if adelante(c, p, q) {
                    sp_items(c, q, acc.push(SpecItemBloque::Declaracion(d)))
                } else {
                    fuera()
                },
            }
        } else {
            match sp_sentencia(c, p) {
                Err(f) => Err(f),
                Ok((st, q)) => if adelante(c, p, q) {
                    sp_items(c, q, acc.push(SpecItemBloque::Sentencia(st)))
                } else {
                    fuera()
                },
            }
        }
    } else {
        Ok((acc, p))
    }
}

/// One step of `sp_items`.
pub proof fn desplegar_sp_items(c: Contexto, p: int, acc: Seq<SpecItemBloque>)
    ensures
        sp_items(c, p, acc) == ({
            if !coincide(c, p, TipoToken::LlaveDer) && !es_fin(c, p) {
                if es_inicio_decl_bloque(tipo_actual(c, p)) {
                    match sp_declaracion(c, p) {
                        Err(f) => Err(f),
                        Ok((d, q)) => if adelante(c, p, q) {
                            sp_items(c, q, acc.push(SpecItemBloque::Declaracion(d)))
                        } else {
                            fuera()
                        },
                    }
                } else {
                    match sp_sentencia(c, p) {
                        Err(f) => Err(f),
                        Ok((st, q)) => if adelante(c, p, q) {
                            sp_items(c, q, acc.push(SpecItemBloque::Sentencia(st)))
                        } else {
                            fuera()
                        },
                    }
                }
            } else {
                Ok((acc, p))
            }
        }),
{
    reveal(sp_declaracion);
    reveal(sp_items);
    reveal(sp_sentencia);
}

/// A statement made of a keyword and `;`: what follows the keyword.
#[verifier::opaque]
pub open spec fn sp_salto_simple(c: Contexto, p: int, s: SpecSalto) -> Avance<SpecSentencia> {
    match avanzar(c, p) {
        Err(f) => Err(f),
        Ok(p1) => match esperar(c, p1, TipoToken::PuntoYComa) {
            Err(f) => Err(f),
            Ok(p2) => Ok((SpecSentencia::Salto(s), p2)),
        },
    }
}

/// One step of `sp_salto_simple`.
pub proof fn desplegar_sp_salto_simple(c: Contexto, p: int, s: SpecSalto)
    ensures
        sp_salto_simple(c, p, s) == ({
            match avanzar(c, p) {
                Err(f) => Err(f),
                Ok(p1) => match esperar(c, p1, TipoToken::PuntoYComa) {
                    Err(f) => Err(f),
                    Ok(p2) => Ok((SpecSentencia::Salto(s), p2)),
                },
            }
        }),
{
    reveal(sp_salto_simple);
}

/// `goto name ;`
#[verifier::opaque]
pub open spec fn sp_goto(c: Contexto, p: int) -> Avance<SpecSentencia> {
    match avanzar(c, p) {
        Err(f) => Err(f),
        Ok(p1) => match esperar(c, p1, TipoToken::Identificador) {
            Err(f) => Err(f),
            Ok(p2) => match esperar(c, p2, TipoToken::PuntoYComa) {
                Err(f) => Err(f),
                Ok(p3) => Ok(
                    (
                        SpecSentencia::Salto(
                            SpecSalto::Goto {
                                posicion: pos_actual(c, p),
                                etiqueta: valor_de(c.tokens[p1]),
                            },
                        ),
                        p3,
                    ),
                ),
            },
        },
    }
}

/// One step of `sp_goto`.
pub proof fn desplegar_sp_goto(c: Contexto, p: int)
    ensures
        sp_goto(c, p) == ({
            match avanzar(c, p) {
                Err(f) => Err(f),
                Ok(p1) => match esperar(c, p1, TipoToken::Identificador) {
                    Err(f) => Err(f),
                    Ok(p2) => match esperar(c, p2, TipoToken::PuntoYComa) {
                        Err(f) => Err(f),
                        Ok(p3) => Ok(
                            (
                                SpecSentencia::Salto(
                                    SpecSalto::Goto {
                                        posicion: pos_actual(c, p),
                                        etiqueta: valor_de(c.tokens[p1]),
                                    },
                                ),
                                p3,
                            ),
                        ),
                    },
                },
            }
        }),
{
    reveal(sp_goto);
}

/// `return ;` or `return expression ;`
#[verifier::opaque]
pub open spec fn sp_return(c: Contexto, p: int) -> Avance<SpecSentencia> {
    match avanzar(c, p) {
        Err(f) => Err(f),
        Ok(p1) => if coincide(c, p1, TipoToken::PuntoYComa) {
            Ok(
                (
                    SpecSentencia::Salto(SpecSalto::Retornar { posicion: pos_actual(c, p), valor: None }),
                    p1 + 1,
                ),
            )
        } else {
            match sp_expresion(c, p1) {
                Err(f) => Err(f),
                Ok((e, q)) => match esperar(c, q, TipoToken::PuntoYComa) {
                    Err(f) => Err(f),
                    Ok(q2) => Ok(
                        (
                            SpecSentencia::Salto(
                                SpecSalto::Retornar {
                                    posicion: pos_actual(c, p),
                                    valor: Some(Box::new(e)),
                                },
                            ),
                            q2,
                        ),
                    ),
                },
            }
        },
    }
}

/// One step of `sp_return`.
pub proof fn desplegar_sp_return(c: Contexto, p: int)
    ensures
        sp_return(c, p) == ({
            match avanzar(c, p) {
                Err(f) => Err(f),
                Ok(p1) => if coincide(c, p1, TipoToken::PuntoYComa) {
                    Ok(
                        (
                            SpecSentencia::Salto(SpecSalto::Retornar { posicion: pos_actual(c, p), valor: None }),
                            p1 + 1,
                        ),
                    )
                } else {
                    match sp_expresion(c, p1) {
                        Err(f) => Err(f),
                        Ok((e, q)) => match esperar(c, q, TipoToken::PuntoYComa) {
                            Err(f) => Err(f),
                            Ok(q2) => Ok(
                                (
                                    SpecSentencia::Salto(
                                        SpecSalto::Retornar {
                                            posicion: pos_actual(c, p),
                                            valor: Some(Box::new(e)),
                                        },
                                    ),
                                    q2,
                                ),
                            ),
                        },
                    }
                },
            }
        }),
{
    reveal(sp_expresion);
    reveal(sp_return);
}

/// An expression statement: `;`, or an expression and `;`.
#[verifier::opaque]
pub open spec fn sp_sentencia_expr(c: Contexto, p: int) -> Avance<SpecSentencia> {
    if coincide(c, p, TipoToken::PuntoYComa) {
        Ok((SpecSentencia::Expr { posicion: pos_actual(c, p), expr: None }, p + 1))
    } else {
        match sp_expresion(c, p) {
            Err(f) => Err(f),
            Ok((e, q)) => match esperar(c, q, TipoToken::PuntoYComa) {
                Err(f) => Err(f),
                Ok(q2) => Ok(
                    (SpecSentencia::Expr { posicion: pos_actual(c, p), expr: Some(Box::new(e)) }, q2),
                ),
            },
        }
    }
}

/// One step of `sp_sentencia_expr`.
pub proof fn desplegar_sp_sentencia_expr(c: Contexto, p: int)
    ensures
        sp_sentencia_expr(c, p) == ({
            if coincide(c, p, TipoToken::PuntoYComa) {
                Ok((SpecSentencia::Expr { posicion: pos_actual(c, p), expr: None }, p + 1))
            } else {
                match sp_expresion(c, p) {
                    Err(f) => Err(f),
                    Ok((e, q)) => match esperar(c, q, TipoToken::PuntoYComa) {
                        Err(f) => Err(f),
                        Ok(q2) => Ok(
                            (SpecSentencia::Expr { posicion: pos_actual(c, p), expr: Some(Box::new(e)) }, q2),
                        ),
                    },
                }
            }
        }),
{
    reveal(sp_expresion);
    reveal(sp_sentencia_expr);
}

/// The current token is a name and the next one `:`.
pub open spec fn es_etiqueta(c: Contexto, p: int) -> bool {
    match mirar(c, p, 1) {
        Some(t) => t.tipo == TipoToken::DosPuntos,
        None => false,
    }
}

/// A statement.
#[verifier::opaque]
pub open spec fn sp_sentencia(c: Contexto, p: int) -> Avance<SpecSentencia>
    decreases c.tokens.len() - p, 2int,
{
    let pos = pos_actual(c, p);
    let k = tipo_actual(c, p);
    if k == TipoToken::LlaveIzq {
        match sp_bloque(c, p) {
            Err(f) => Err(f),
            Ok((b, q)) => Ok((SpecSentencia::Compuesta(b), q)),
        }
    } else if k == TipoToken::If {
        sp_if(c, p)
    } else if k == TipoToken::Switch {
        sp_switch(c, p)
    } else if k == TipoToken::While {
        sp_while(c, p)
    } else if k == TipoToken::Do {
        sp_do_while(c, p)
    } else if k == TipoToken::For {
        sp_for(c, p)
    } else if k == TipoToken::Goto {
        sp_goto(c, p)
    } else if k == TipoToken::Continue {
        sp_salto_simple(c, p, SpecSalto::Continuar { posicion: pos })
    } else if k == TipoToken::Break {
        sp_salto_simple(c, p, SpecSalto::Romper { posicion: pos })
    } else if k == TipoToken::Return {
        sp_return(c, p)
    } else if k == TipoToken::Case {
        match avanzar(c, p) {
            Err(f) => Err(f),
            Ok(p1) => match sp_expresion(c, p1) {
                Err(f) => Err(f),
                Ok((e, q)) => if adelante(c, p1, q) {
                    match esperar(c, q, TipoToken::DosPuntos) {
                        Err(f) => Err(f),
                        Ok(q2) => sp_etiquetada(c, q2, pos, SpecEtiqueta::Case(Box::new(e))),
                    }
                } else {
                    fuera()
                },
            },
        }
    } else if k == TipoToken::Default {
        match avanzar(c, p) {
            Err(f) => Err(f),
            Ok(p1) => match esperar(c, p1, TipoToken::DosPuntos) {
                Err(f) => Err(f),
                Ok(p2) => sp_etiquetada(c, p2, pos, SpecEtiqueta::Default),
            },
        }
    } else if k == TipoToken::Identificador && es_etiqueta(c, p) && p >= 0 {
        match esperar(c, p + 1, TipoToken::DosPuntos) {
            Err(f) => Err(f),
            Ok(p2) => sp_etiquetada(
                c,
                p2,
                pos,
                SpecEtiqueta::Identificador(valor_de(c.tokens[p])),
            ),
        }
    } else {
        sp_sentencia_expr(c, p)
    }
}

/// One step of `sp_sentencia`.
pub proof fn desplegar_sp_sentencia(c: Contexto, p: int)
    ensures
        sp_sentencia(c, p) == ({
            let pos = pos_actual(c, p);
            let k = tipo_actual(c, p);
            if k == TipoToken::LlaveIzq {
                match sp_bloque(c, p) {
                    Err(f) => Err(f),
                    Ok((b, q)) => Ok((SpecSentencia::Compuesta(b), q)),
                }
            } else if k == TipoToken::If {
                sp_if(c, p)
            } else if k == TipoToken::Switch {
                sp_switch(c, p)
            } else if k == TipoToken::While {
                sp_while(c, p)
            } else if k == TipoToken::Do {
                sp_do_while(c, p)
            } else if k == TipoToken::For {
                sp_for(c, p)
            } else if k == TipoToken::Goto {
                sp_goto(c, p)
            } else if k == TipoToken::Continue {
                sp_salto_simple(c, p, SpecSalto::Continuar { posicion: pos })
            } else if k == TipoToken::Break {
                sp_salto_simple(c, p, SpecSalto::Romper { posicion: pos })
            } else if k == TipoToken::Return {
                sp_return(c, p)
            } else if k == TipoToken::Case {
                match avanzar(c, p) {
                    Err(f) => Err(f),
                    Ok(p1) => match sp_expresion(c, p1) {
                        Err(f) => Err(f),
                        Ok((e, q)) => if adelante(c, p1, q) {
                            match esperar(c, q, TipoToken::DosPuntos) {
                                Err(f) => Err(f),
                                Ok(q2) => sp_etiquetada(c, q2, pos, SpecEtiqueta::Case(Box::new(e))),
                            }
                        } else {
                            fuera()
                        },
                    },
                }
            } else if k == TipoToken::Default {
                match avanzar(c, p) {
                    Err(f) => Err(f),
                    Ok(p1) => match esperar(c, p1, TipoToken::DosPuntos) {
                        Err(f) => Err(f),
                        Ok(p2) => sp_etiquetada(c, p2, pos, SpecEtiqueta::Default),
                    },
                }
            } else if k == TipoToken::Identificador && es_etiqueta(c, p) && p >= 0 {
                match esperar(c, p + 1, TipoToken::DosPuntos) {
                    Err(f) => Err(f),
                    Ok(p2) => sp_etiquetada(
                        c,
                        p2,
                        pos,
                        SpecEtiqueta::Identificador(valor_de(c.tokens[p])),
                    ),
                }
            } else {
                sp_sentencia_expr(c, p)
            }
        }),
{
    reveal(sp_bloque);
    reveal(sp_do_while);
    reveal(sp_etiquetada);
    reveal(sp_expresion);
    reveal(sp_for);
    reveal(sp_goto);
    reveal(sp_if);
    reveal(sp_return);
    reveal(sp_salto_simple);
    reveal(sp_sentencia);
    reveal(sp_sentencia_expr);
    reveal(sp_switch);
    reveal(sp_while);
}

/// The statement after a label.
#[verifier::opaque]
pub open spec fn sp_etiquetada(c: Contexto, p: int, pos: Posicion, e: SpecEtiqueta) -> Avance<
    SpecSentencia,
>
    decreases c.tokens.len() - p, 3int,
{
    match sp_sentencia(c, p) {
        Err(f) => Err(f),
        Ok((st, q)) => Ok(
            (SpecSentencia::Etiquetada { posicion: pos, etiqueta: e, sentencia: Box::new(st) }, q),
        ),
    }
}

/// One step of `sp_etiquetada`.
pub proof fn desplegar_sp_etiquetada(c: Contexto, p: int, pos: Posicion, e: SpecEtiqueta)
    ensures
        sp_etiquetada(c, p, pos, e) == ({
            match sp_sentencia(c, p) {
                Err(f) => Err(f),
                Ok((st, q)) => Ok(
                    (SpecSentencia::Etiquetada { posicion: pos, etiqueta: e, sentencia: Box::new(st) }, q),
                ),
            }
        }),
{
    reveal(sp_etiquetada);
    reveal(sp_sentencia);
}

/// `( expression )` after a keyword.
#[verifier::opaque]
pub open spec fn sp_condicion(c: Contexto, p: int) -> Avance<SpecExpr> {
    match esperar(c, p, TipoToken::ParentesisIzq) {
        Err(f) => Err(f),
        Ok(p1) => match sp_expresion(c, p1) {
            Err(f) => Err(f),
            Ok((e, q)) => match esperar(c, q, TipoToken::ParentesisDer) {
                Err(f) => Err(f),
                Ok(q2) => Ok((e, q2)),
            },
        },
    }
}

/// One step of `sp_condicion`.
pub proof fn desplegar_sp_condicion(c: Contexto, p: int)
    ensures
        sp_condicion(c, p) == ({
            match esperar(c, p, TipoToken::ParentesisIzq) {
                Err(f) => Err(f),
                Ok(p1) => match sp_expresion(c, p1) {
                    Err(f) => Err(f),
                    Ok((e, q)) => match esperar(c, q, TipoToken::ParentesisDer) {
                        Err(f) => Err(f),
                        Ok(q2) => Ok((e, q2)),
                    },
                },
            }
        }),
{
    reveal(sp_condicion);
    reveal(sp_expresion);
}

/// `if ( expression ) statement [else statement]`
#[verifier::opaque]
pub open spec fn sp_if(c: Contexto, p: int) -> Avance<SpecSentencia>
    decreases c.tokens.len() - p, 1int,
{
    match avanzar(c, p) {
        Err(f) => Err(f),
        Ok(p1) => match sp_condicion(c, p1) {
            Err(f) => Err(f),
            Ok((cond, q)) => if adelante(c, p1, q) {
                match sp_sentencia(c, q) {
                    Err(f) => Err(f),
                    Ok((ent, q2)) => if adelante(c, q, q2) {
                        if coincide(c, q2, TipoToken::Else) {
                            match sp_sentencia(c, q2 + 1) {
                                Err(f) => Err(f),
                                Ok((sino, q3)) => Ok(
                                    (
                                        SpecSentencia::Seleccion(
                                            SpecSeleccion::If {
                                                posicion: pos_actual(c, p),
                                                condicion: Box::new(cond),
                                                entonces: Box::new(ent),
                                                sino: Some(Box::new(sino)),
                                            },
                                        ),
                                        q3,
                                    ),
                                ),
                            }
                        } else {
                            Ok(
                                (
                                    SpecSentencia::Seleccion(
                                        SpecSeleccion::If {
                                            posicion: pos_actual(c, p),
                                            condicion: Box::new(cond),
                                            entonces: Box::new(ent),
                                            sino: None,
                                        },
                                    ),
                                    q2,
                                ),
                            )
                        }
                    } else {
                        fuera()
                    },
                }
            } else {
                fuera()
            },
        },
    }
}

/// One step of `sp_if`.
pub proof fn desplegar_sp_if(c: Contexto, p: int)
    ensures
        sp_if(c, p) == ({
            match avanzar(c, p) {
                Err(f) => Err(f),
                Ok(p1) => match sp_condicion(c, p1) {
                    Err(f) => Err(f),
                    Ok((cond, q)) => if adelante(c, p1, q) {
                        match sp_sentencia(c, q) {
                            Err(f) => Err(f),
                            Ok((ent, q2)) => if adelante(c, q, q2) {
                                if coincide(c, q2, TipoToken::Else) {
                                    match sp_sentencia(c, q2 + 1) {
                                        Err(f) => Err(f),
                                        Ok((sino, q3)) => Ok(
                                            (
                                                SpecSentencia::Seleccion(
                                                    SpecSeleccion::If {
                                                        posicion: pos_actual(c, p),
                                                        condicion: Box::new(cond),
                                                        entonces: Box::new(ent),
                                                        sino: Some(Box::new(sino)),
                                                    },
                                                ),
                                                q3,
                                            ),
                                        ),
                                    }
                                } else {
                                    Ok(
                                        (
                                            SpecSentencia::Seleccion(
                                                SpecSeleccion::If {
                                                    posicion: pos_actual(c, p),
                                                    condicion: Box::new(cond),
                                                    entonces: Box::new(ent),
                                                    sino: None,
                                                },
                                            ),
                                            q2,
                                        ),
                                    )
                                }
                            } else {
                                fuera()
                            },
                        }
                    } else {
                        fuera()
                    },
                },
            }
        }),
{
    reveal(sp_condicion);
    reveal(sp_if);
    reveal(sp_sentencia);
}

/// `switch ( expression ) statement`
#[verifier::opaque]
pub open spec fn sp_switch(c: Contexto, p: int) -> Avance<SpecSentencia>
    decreases c.tokens.len() - p, 1int,
{
    match avanzar(c, p) {
        Err(f) => Err(f),
        Ok(p1) => match sp_condicion(c, p1) {
            Err(f) => Err(f),
            Ok((cond, q)) => if adelante(c, p1, q) {
                match sp_sentencia(c, q) {
                    Err(f) => Err(f),
                    Ok((cuerpo, q2)) => Ok(
                        (
                            SpecSentencia::Seleccion(
                                SpecSeleccion::Switch {
                                    posicion: pos_actual(c, p),
                                    condicion: Box::new(cond),
                                    cuerpo: Box::new(cuerpo),
                                },
                            ),
                            q2,
                        ),
                    ),
                }
            } else {
                fuera()
            },
        },
    }
}

/// One step of `sp_switch`.
pub proof fn desplegar_sp_switch(c: Contexto, p: int)
    ensures
        sp_switch(c, p) == ({
            match avanzar(c, p) {
                Err(f) => Err(f),
                Ok(p1) => match sp_condicion(c, p1) {
                    Err(f) => Err(f),
                    Ok((cond, q)) => if adelante(c, p1, q) {
                        match sp_sentencia(c, q) {
                            Err(f) => Err(f),
                            Ok((cuerpo, q2)) => Ok(
                                (
                                    SpecSentencia::Seleccion(
                                        SpecSeleccion::Switch {
                                            posicion: pos_actual(c, p),
                                            condicion: Box::new(cond),
                                            cuerpo: Box::new(cuerpo),
                                        },
                                    ),
                                    q2,
                                ),
                            ),
                        }
                    } else {
                        fuera()
                    },
                },
            }
        }),
{
    reveal(sp_condicion);
    reveal(sp_sentencia);
    reveal(sp_switch);
}

/// `while ( expression ) statement`
#[verifier::opaque]
pub open spec fn sp_while(c: Contexto, p: int) -> Avance<SpecSentencia>
    decreases c.tokens.len() - p, 1int,
{
    match avanzar(c, p) {
        Err(f) => Err(f),
        Ok(p1) => match sp_condicion(c, p1) {
            Err(f) => Err(f),
            Ok((cond, q)) => if adelante(c, p1, q) {
                match sp_sentencia(c, q) {
                    Err(f) => Err(f),
                    Ok((cuerpo, q2)) => Ok(
                        (
                            SpecSentencia::Iteracion(
                                SpecIteracion::While {
                                    posicion: pos_actual(c, p),
                                    condicion: Box::new(cond),
                                    cuerpo: Box::new(cuerpo),
                                },
                            ),
                            q2,
                        ),
                    ),
                }
            } else {
                fuera()
            },
        },
    }
}

/// One step of `sp_while`.
pub proof fn desplegar_sp_while(c: Contexto, p: int)
    ensures
        sp_while(c, p) == ({
            match avanzar(c, p) {
                Err(f) => Err(f),
                Ok(p1) => match sp_condicion(c, p1) {
                    Err(f) => Err(f),
                    Ok((cond, q)) => if adelante(c, p1, q) {
                        match sp_sentencia(c, q) {
                            Err(f) => Err(f),
                            Ok((cuerpo, q2)) => Ok(
                                (
                                    SpecSentencia::Iteracion(
                                        SpecIteracion::While {
                                            posicion: pos_actual(c, p),
                                            condicion: Box::new(cond),
                                            cuerpo: Box::new(cuerpo),
                                        },
                                    ),
                                    q2,
                                ),
                            ),
                        }
                    } else {
                        fuera()
                    },
                },
            }
        }),
{
    reveal(sp_condicion);
    reveal(sp_sentencia);
    reveal(sp_while);
}

/// `do statement while ( expression ) ;`
#[verifier::opaque]
pub open spec fn sp_do_while(c: Contexto, p: int) -> Avance<SpecSentencia>
    decreases c.tokens.len() - p, 1int,
{
    match avanzar(c, p) {
        Err(f) => Err(f),
        Ok(p1) => match sp_sentencia(c, p1) {
            Err(f) => Err(f),
            Ok((cuerpo, q)) => match esperar(c, q, TipoToken::While) {
                Err(f) => Err(f),
                Ok(q1) => match sp_condicion(c, q1) {
                    Err(f) => Err(f),
                    Ok((cond, q2)) => match esperar(c, q2, TipoToken::PuntoYComa) {
                        Err(f) => Err(f),
                        Ok(q3) => Ok(
                            (
                                SpecSentencia::Iteracion(
                                    SpecIteracion::DoWhile {
                                        posicion: pos_actual(c, p),
                                        cuerpo: Box::new(cuerpo),
                                        condicion: Box::new(cond),
                                    },
                                ),
                                q3,
                            ),
                        ),
                    },
                },
            },
        },
    }
}

/// One step of `sp_do_while`.
pub proof fn desplegar_sp_do_while(c: Contexto, p: int)
    ensures
        sp_do_while(c, p) == ({
            match avanzar(c, p) {
                Err(f) => Err(f),
                Ok(p1) => match sp_sentencia(c, p1) {
                    Err(f) => Err(f),
                    Ok((cuerpo, q)) => match esperar(c, q, TipoToken::While) {
                        Err(f) => Err(f),
                        Ok(q1) => match sp_condicion(c, q1) {
                            Err(f) => Err(f),
                            Ok((cond, q2)) => match esperar(c, q2, TipoToken::PuntoYComa) {
                                Err(f) => Err(f),
                                Ok(q3) => Ok(
                                    (
                                        SpecSentencia::Iteracion(
                                            SpecIteracion::DoWhile {
                                                posicion: pos_actual(c, p),
                                                cuerpo: Box::new(cuerpo),
                                                condicion: Box::new(cond),
                                            },
                                        ),
                                        q3,
                                    ),
                                ),
                            },
                        },
                    },
                },
            }
        }),
{
    reveal(sp_condicion);
    reveal(sp_do_while);
    reveal(sp_sentencia);
}

/// The first part of a `for` header, with its `;`.
#[verifier::opaque]
pub open spec fn sp_for_init(c: Contexto, p: int) -> Avance<Option<SpecForInit>> {
    if coincide(c, p, TipoToken::PuntoYComa) {
        Ok((None, p + 1))
    } else if es_inicio_decl_bloque(tipo_actual(c, p)) {
        match sp_declaracion(c, p) {
            Err(f) => Err(f),
            Ok((d, q)) => Ok((Some(SpecForInit::Declaracion(d)), q)),
        }
    } else {
        match sp_expresion(c, p) {
            Err(f) => Err(f),
            Ok((e, q)) => match esperar(c, q, TipoToken::PuntoYComa) {
                Err(f) => Err(f),
                Ok(q2) => Ok((Some(SpecForInit::Expr(Some(Box::new(e)))), q2)),
            },
        }
    }
}

/// One step of `sp_for_init`.
pub proof fn desplegar_sp_for_init(c: Contexto, p: int)
    ensures
        sp_for_init(c, p) == ({
            if coincide(c, p, TipoToken::PuntoYComa) {
                Ok((None, p + 1))
            } else if es_inicio_decl_bloque(tipo_actual(c, p)) {
                match sp_declaracion(c, p) {
                    Err(f) => Err(f),
                    Ok((d, q)) => Ok((Some(SpecForInit::Declaracion(d)), q)),
                }
            } else {
                match sp_expresion(c, p) {
                    Err(f) => Err(f),
                    Ok((e, q)) => match esperar(c, q, TipoToken::PuntoYComa) {
                        Err(f) => Err(f),
                        Ok(q2) => Ok((Some(SpecForInit::Expr(Some(Box::new(e)))), q2)),
                    },
                }
            }
        }),
{
    reveal(sp_declaracion);
    reveal(sp_expresion);
    reveal(sp_for_init);
}

/// An optional expression and then the token `fin`: the condition of a `for`
/// header with its `;`, or its increment with its `)`.
#[verifier::opaque]
pub open spec fn sp_expr_hasta(c: Contexto, p: int, fin: TipoToken) -> Avance<Option<Box<SpecExpr>>> {
    if coincide(c, p, fin) {
        Ok((None, p + 1))
    } else {
        match sp_expresion(c, p) {
            Err(f) => Err(f),
            Ok((e, q)) => match esperar(c, q, fin) {
                Err(f) => Err(f),
                Ok(q2) => Ok((Some(Box::new(e)), q2)),
            },
        }
    }
}

/// One step of `sp_expr_hasta`.
pub proof fn desplegar_sp_expr_hasta(c: Contexto, p: int, fin: TipoToken)
    ensures
        sp_expr_hasta(c, p, fin) == ({
            if coincide(c, p, fin) {
                Ok((None, p + 1))
            } else {
                match sp_expresion(c, p) {
                    Err(f) => Err(f),
                    Ok((e, q)) => match esperar(c, q, fin) {
                        Err(f) => Err(f),
                        Ok(q2) => Ok((Some(Box::new(e)), q2)),
                    },
                }
            }
        }),
{
    reveal(sp_expresion);
    reveal(sp_expr_hasta);
}

/// `for ( init ; condition ; increment ) statement`, each part optional.
#[verifier::opaque]
pub open spec fn sp_for(c: Contexto, p: int) -> Avance<SpecSentencia>
    decreases c.tokens.len() - p, 1int,
{
    match avanzar(c, p) {
        Err(f) => Err(f),
        Ok(p1) => match esperar(c, p1, TipoToken::ParentesisIzq) {
            Err(f) => Err(f),
            Ok(p2) => match sp_for_init(c, p2) {
                Err(f) => Err(f),
                Ok((init, q1)) => match sp_expr_hasta(c, q1, TipoToken::PuntoYComa) {
                    Err(f) => Err(f),
                    Ok((cond, q2)) => match sp_expr_hasta(c, q2, TipoToken::ParentesisDer) {
                        Err(f) => Err(f),
                        Ok((inc, q3)) => if adelante(c, p, q3) {
                            match sp_sentencia(c, q3) {
                                Err(f) => Err(f),
                                Ok((cuerpo, q4)) => Ok(
                                    (
                                        SpecSentencia::Iteracion(
                                            SpecIteracion::For {
                                                posicion: pos_actual(c, p),
                                                init,
                                                condicion: cond,
                                                incremento: inc,
                                                cuerpo: Box::new(cuerpo),
                                            },
                                        ),
                                        q4,
                                    ),
                                ),
                            }
                        } else {
                            fuera()
                        },
                    },
                },
            },
        },
    }
}

/// One step of `sp_for`.
pub proof fn desplegar_sp_for(c: Contexto, p: int)
    ensures
        sp_for(c, p) == ({
            match avanzar(c, p) {
                Err(f) => Err(f),
                Ok(p1) => match esperar(c, p1, TipoToken::ParentesisIzq) {
                    Err(f) => Err(f),
                    Ok(p2) => match sp_for_init(c, p2) {
                        Err(f) => Err(f),
                        Ok((init, q1)) => match sp_expr_hasta(c, q1, TipoToken::PuntoYComa) {
                            Err(f) => Err(f),
                            Ok((cond, q2)) => match sp_expr_hasta(c, q2, TipoToken::ParentesisDer) {
                                Err(f) => Err(f),
                                Ok((inc, q3)) => if adelante(c, p, q3) {
                                    match sp_sentencia(c, q3) {
                                        Err(f) => Err(f),
                                        Ok((cuerpo, q4)) => Ok(
                                            (
                                                SpecSentencia::Iteracion(
                                                    SpecIteracion::For {
                                                        posicion: pos_actual(c, p),
                                                        init,
                                                        condicion: cond,
                                                        incremento: inc,
                                                        cuerpo: Box::new(cuerpo),
                                                    },
                                                ),
                                                q4,
                                            ),
                                        ),
                                    }
                                } else {
                                    fuera()
                                },
                            },
                        },
                    },
                },
            }
        }),
{
    reveal(sp_for);
    reveal(sp_expr_hasta);
    reveal(sp_for_init);
    reveal(sp_sentencia);
}

// ---------------------------------------------------------------------------
// Program
// ---------------------------------------------------------------------------

/// A function definition (declarator and block) or an external declaration.
#[verifier::opaque]
pub open spec fn sp_decl_externa(c: Contexto, p: int) -> Avance<SpecDeclExterna> {
    let pos = pos_actual(c, p);
    match sp_especificadores(c, p) {
        Err(f) => Err(f),
        Ok((esp, p1)) => match sp_declarador(c, p1) {
            Err(f) => Err(f),
            Ok((d, p2)) => if coincide(c, p2, TipoToken::LlaveIzq) {
                match sp_bloque(c, p2) {
                    Err(f) => Err(f),
                    Ok((cuerpo, p3)) => Ok(
                        (
                            SpecDeclExterna::Funcion(
                                SpecFuncionDef {
                                    posicion: pos,
                                    especificadores: esp,
                                    declarador: d,
                                    cuerpo,
                                },
                            ),
                            p3,
                        ),
                    ),
                }
            } else {
                match sp_inicializador_opt(c, p2) {
                    Err(f) => Err(f),
                    Ok((ini, p3)) => {
                        let primero = SpecInitDeclarador { declarador: d, inicializador: ini };
                        match sp_init_declaradores(c, p3, seq![primero]) {
                            Err(f) => Err(f),
                            Ok((ds, p4)) => match esperar(c, p4, TipoToken::PuntoYComa) {
                                Err(f) => Err(f),
                                Ok(p5) => Ok(
                                    (
                                        SpecDeclExterna::Declaracion(
                                            SpecDeclaracion {
                                                posicion: pos,
                                                especificadores: esp,
                                                declaradores: ds,
                                            },
                                        ),
                                        p5,
                                    ),
                                ),
                            },
                        }
                    },
                }
            },
        },
    }
}

/// One step of `sp_decl_externa`.
pub proof fn desplegar_sp_decl_externa(c: Contexto, p: int)
    ensures
        sp_decl_externa(c, p) == ({
            let pos = pos_actual(c, p);
            match sp_especificadores(c, p) {
                Err(f) => Err(f),
                Ok((esp, p1)) => match sp_declarador(c, p1) {
                    Err(f) => Err(f),
                    Ok((d, p2)) => if coincide(c, p2, TipoToken::LlaveIzq) {
                        match sp_bloque(c, p2) {
                            Err(f) => Err(f),
                            Ok((cuerpo, p3)) => Ok(
                                (
                                    SpecDeclExterna::Funcion(
                                        SpecFuncionDef {
                                            posicion: pos,
                                            especificadores: esp,
                                            declarador: d,
                                            cuerpo,
                                        },
                                    ),
                                    p3,
                                ),
                            ),
                        }
                    } else {
                        match sp_inicializador_opt(c, p2) {
                            Err(f) => Err(f),
                            Ok((ini, p3)) => {
                                let primero = SpecInitDeclarador { declarador: d, inicializador: ini };
                                match sp_init_declaradores(c, p3, seq![primero]) {
                                    Err(f) => Err(f),
                                    Ok((ds, p4)) => match esperar(c, p4, TipoToken::PuntoYComa) {
                                        Err(f) => Err(f),
                                        Ok(p5) => Ok(
                                            (
                                                SpecDeclExterna::Declaracion(
                                                    SpecDeclaracion {
                                                        posicion: pos,
                                                        especificadores: esp,
                                                        declaradores: ds,
                                                    },
                                                ),
                                                p5,
                                            ),
                                        ),
                                    },
                                }
                            },
                        }
                    },
                },
            }
        }),
{
    reveal(sp_bloque);
    reveal(sp_decl_externa);
    reveal(sp_declarador);
    reveal(sp_especificadores);
    reveal(sp_inicializador_opt);
    reveal(sp_init_declaradores);
}

/// External declarations from `p` on, each after any preprocessor lines,
/// added to `acc`.
#[verifier::opaque]
pub open spec fn sp_programa_desde(c: Contexto, p: int, acc: Seq<SpecDeclExterna>) -> Result<
    Seq<SpecDeclExterna>,
    Falla,
>
    decreases c.tokens.len() - p,
{
    if es_fin(c, p) {
        Ok(acc)
    } else {
        let q = saltar_preprocesador(c, p);
        if es_fin(c, q) {
            Ok(acc)
        } else {
            match sp_decl_externa(c, q) {
                Err(f) => Err(f),
                Ok((d, r)) => if adelante(c, q, r) && p <= q {
                    sp_programa_desde(c, r, acc.push(d))
                } else {
                    Err(Falla::FueraDeRango)
                },
            }
        }
    }
}

/// One step of `sp_programa_desde`.
pub proof fn desplegar_sp_programa_desde(c: Contexto, p: int, acc: Seq<SpecDeclExterna>)
    ensures
        sp_programa_desde(c, p, acc) == ({
            if es_fin(c, p) {
                Ok(acc)
            } else {
                let q = saltar_preprocesador(c, p);
                if es_fin(c, q) {
                    Ok(acc)
                } else {
                    match sp_decl_externa(c, q) {
                        Err(f) => Err(f),
                        Ok((d, r)) => if adelante(c, q, r) && p <= q {
                            sp_programa_desde(c, r, acc.push(d))
                        } else {
                            Err(Falla::FueraDeRango)
                        },
                    }
                }
            }
        }),
{
    reveal(sp_decl_externa);
    reveal(sp_programa_desde);
}

/// A program read from position `p`: a byte order mark and preprocessor lines
/// are skipped, then external declarations follow up to the end.
#[verifier::opaque]
pub open spec fn sp_programa(c: Contexto, p: int) -> Result<SpecPrograma, Falla> {
    match sp_programa_desde(c, saltar_preprocesador(c, saltar_bom(c, p)), Seq::empty()) {
        Err(f) => Err(f),
        Ok(ds) => Ok(SpecPrograma { declaraciones: ds }),
    }
}

/// One step of `sp_programa`.
pub proof fn desplegar_sp_programa(c: Contexto, p: int)
    ensures
        sp_programa(c, p) == ({
            match sp_programa_desde(c, saltar_preprocesador(c, saltar_bom(c, p)), Seq::empty()) {
                Err(f) => Err(f),
                Ok(ds) => Ok(SpecPrograma { declaraciones: ds }),
            }
        }),
{
    reveal(sp_programa);
    reveal(sp_programa_desde);
}

/// Without tokens there is nothing to read: the program has no
/// declarations.
pub proof fn lema_programa_sin_tokens(c: Contexto)
    requires
        c.tokens.len() == 0,
    ensures
        sp_programa(c, 0) == Ok::<SpecPrograma, Falla>(SpecPrograma { declaraciones: Seq::empty() }),
{
    reveal(sp_programa);
    reveal(sp_programa_desde);
}

} // verus!
