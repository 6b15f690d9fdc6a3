//! Tokens that the syntactic analyser consumes: what a C lexer hands over.

use vstd::prelude::*;

verus! {

/// Line and column of a token in the source text (both counted from 1).
#[derive(Debug, Clone, Copy, PartialEq, Eq, Structural)]
pub struct Posicion {
    pub linea: usize,
    pub columna: usize,
}

/// Kinds of token of the C subset.
#[derive(Debug, Clone, Copy, PartialEq, Eq, Structural)]
pub enum TipoToken {
    Auto,
    Register,
    Static,
    Extern,
    Typedef,
    Const,
    Volatile,
    Void,
    Char,
    Short,
    Int,
    Long,
    Float,
    Double,
    Signed,
    Unsigned,
    Struct,
    Union,
    Enum,
    If,
    Else,
    Switch,
    Case,
    Default,
    While,
    Do,
    For,
    Goto,
    Continue,
    Break,
    Return,
    Sizeof,
    Identificador,
    Entero,
    Flotante,
    Caracter,
    Cadena,
    Mas,
    Menos,
    Asterisco,
    Barra,
    Porcentaje,
    Incremento,
    Decremento,
    Asignar,
    MasAsignar,
    MenosAsignar,
    AsteriscoAsignar,
    BarraAsignar,
    PorcentajeAsignar,
    Igual,
    Distinto,
    Menor,
    Mayor,
    MenorIgual,
    MayorIgual,
    YLogico,
    OLogico,
    Negacion,
    YBit,
    OBit,
    XorBit,
    Complemento,
    DesplazarIzq,
    DesplazarDer,
    ParentesisIzq,
    ParentesisDer,
    LlaveIzq,
    LlaveDer,
    CorcheteIzq,
    CorcheteDer,
    PuntoYComa,
    Coma,
    Punto,
    Flecha,
    DosPuntos,
    Interrogacion,
    Desconocido,
}

/// A token: its kind, its lexeme where the lexer kept one, and where it starts.
#[derive(Debug, Clone)]
pub struct Token {
    pub tipo: TipoToken,
    pub valor: Option<String>,
    pub posicion: Posicion,
}

/// The lexeme of a token, or the empty text where it has none.
pub open spec fn valor_de(t: Token) -> Seq<char> {
    match t.valor {
        Some(v) => v@,
        None => Seq::empty(),
    }
}

/// The name of a token kind, as it reads in the source of this enum.
#[verifier::opaque]
pub open spec fn nombre_tipo_esp(t: TipoToken) -> Seq<char> {
    match t {
        TipoToken::Auto => "Auto"@,
        TipoToken::Register => "Register"@,
        TipoToken::Static => "Static"@,
        TipoToken::Extern => "Extern"@,
        TipoToken::Typedef => "Typedef"@,
        TipoToken::Const => "Const"@,
        TipoToken::Volatile => "Volatile"@,
        TipoToken::Void => "Void"@,
        TipoToken::Char => "Char"@,
        TipoToken::Short => "Short"@,
        TipoToken::Int => "Int"@,
        TipoToken::Long => "Long"@,
        TipoToken::Float => "Float"@,
        TipoToken::Double => "Double"@,
        TipoToken::Signed => "Signed"@,
        TipoToken::Unsigned => "Unsigned"@,
        TipoToken::Struct => "Struct"@,
        TipoToken::Union => "Union"@,
        TipoToken::Enum => "Enum"@,
        TipoToken::If => "If"@,
        TipoToken::Else => "Else"@,
        TipoToken::Switch => "Switch"@,
        TipoToken::Case => "Case"@,
        TipoToken::Default => "Default"@,
        TipoToken::While => "While"@,
        TipoToken::Do => "Do"@,
        TipoToken::For => "For"@,
        TipoToken::Goto => "Goto"@,
        TipoToken::Continue => "Continue"@,
        TipoToken::Break => "Break"@,
        TipoToken::Return => "Return"@,
        TipoToken::Sizeof => "Sizeof"@,
        TipoToken::Identificador => "Identificador"@,
        TipoToken::Entero => "Entero"@,
        TipoToken::Flotante => "Flotante"@,
        TipoToken::Caracter => "Caracter"@,
        TipoToken::Cadena => "Cadena"@,
        TipoToken::Mas => "Mas"@,
        TipoToken::Menos => "Menos"@,
        TipoToken::Asterisco => "Asterisco"@,
        TipoToken::Barra => "Barra"@,
        TipoToken::Porcentaje => "Porcentaje"@,
        TipoToken::Incremento => "Incremento"@,
        TipoToken::Decremento => "Decremento"@,
        TipoToken::Asignar => "Asignar"@,
        TipoToken::MasAsignar => "MasAsignar"@,
        TipoToken::MenosAsignar => "MenosAsignar"@,
        TipoToken::AsteriscoAsignar => "AsteriscoAsignar"@,
        TipoToken::BarraAsignar => "BarraAsignar"@,
        TipoToken::PorcentajeAsignar => "PorcentajeAsignar"@,
        TipoToken::Igual => "Igual"@,
        TipoToken::Distinto => "Distinto"@,
        TipoToken::Menor => "Menor"@,
        TipoToken::Mayor => "Mayor"@,
        TipoToken::MenorIgual => "MenorIgual"@,
        TipoToken::MayorIgual => "MayorIgual"@,
        TipoToken::YLogico => "YLogico"@,
        TipoToken::OLogico => "OLogico"@,
        TipoToken::Negacion => "Negacion"@,
        TipoToken::YBit => "YBit"@,
        TipoToken::OBit => "OBit"@,
        TipoToken::XorBit => "XorBit"@,
        TipoToken::Complemento => "Complemento"@,
        TipoToken::DesplazarIzq => "DesplazarIzq"@,
        TipoToken::DesplazarDer => "DesplazarDer"@,
        TipoToken::ParentesisIzq => "ParentesisIzq"@,
        TipoToken::ParentesisDer => "ParentesisDer"@,
        TipoToken::LlaveIzq => "LlaveIzq"@,
        TipoToken::LlaveDer => "LlaveDer"@,
        TipoToken::CorcheteIzq => "CorcheteIzq"@,
        TipoToken::CorcheteDer => "CorcheteDer"@,
        TipoToken::PuntoYComa => "PuntoYComa"@,
        TipoToken::Coma => "Coma"@,
        TipoToken::Punto => "Punto"@,
        TipoToken::Flecha => "Flecha"@,
        TipoToken::DosPuntos => "DosPuntos"@,
        TipoToken::Interrogacion => "Interrogacion"@,
        TipoToken::Desconocido => "Desconocido"@,
    }
}

/// Name of a token kind (what `{:?}` prints for it).
pub fn nombre_tipo(t: TipoToken) -> (r: String)
    ensures
        r@ == nombre_tipo_esp(t),
{
    reveal(nombre_tipo_esp);
    match t {
        TipoToken::Auto => String::from_str("Auto"),
        TipoToken::Register => String::from_str("Register"),
        TipoToken::Static => String::from_str("Static"),
        TipoToken::Extern => String::from_str("Extern"),
        TipoToken::Typedef => String::from_str("Typedef"),
        TipoToken::Const => String::from_str("Const"),
        TipoToken::Volatile => String::from_str("Volatile"),
        TipoToken::Void => String::from_str("Void"),
        TipoToken::Char => String::from_str("Char"),
        TipoToken::Short => String::from_str("Short"),
        TipoToken::Int => String::from_str("Int"),
        TipoToken::Long => String::from_str("Long"),
        TipoToken::Float => String::from_str("Float"),
        TipoToken::Double => String::from_str("Double"),
        TipoToken::Signed => String::from_str("Signed"),
        TipoToken::Unsigned => String::from_str("Unsigned"),
        TipoToken::Struct => String::from_str("Struct"),
        TipoToken::Union => String::from_str("Union"),
        TipoToken::Enum => String::from_str("Enum"),
        TipoToken::If => String::from_str("If"),
        TipoToken::Else => String::from_str("Else"),
        TipoToken::Switch => String::from_str("Switch"),
        TipoToken::Case => String::from_str("Case"),
        TipoToken::Default => String::from_str("Default"),
        TipoToken::While => String::from_str("While"),
        TipoToken::Do => String::from_str("Do"),
        TipoToken::For => String::from_str("For"),
        TipoToken::Goto => String::from_str("Goto"),
        TipoToken::Continue => String::from_str("Continue"),
        TipoToken::Break => String::from_str("Break"),
        TipoToken::Return => String::from_str("Return"),
        TipoToken::Sizeof => String::from_str("Sizeof"),
        TipoToken::Identificador => String::from_str("Identificador"),
        TipoToken::Entero => String::from_str("Entero"),
        TipoToken::Flotante => String::from_str("Flotante"),
        TipoToken::Caracter => String::from_str("Caracter"),
        TipoToken::Cadena => String::from_str("Cadena"),
        TipoToken::Mas => String::from_str("Mas"),
        TipoToken::Menos => String::from_str("Menos"),
        TipoToken::Asterisco => String::from_str("Asterisco"),
        TipoToken::Barra => String::from_str("Barra"),
        TipoToken::Porcentaje => String::from_str("Porcentaje"),
        TipoToken::Incremento => String::from_str("Incremento"),
        TipoToken::Decremento => String::from_str("Decremento"),
        TipoToken::Asignar => String::from_str("Asignar"),
        TipoToken::MasAsignar => String::from_str("MasAsignar"),
        TipoToken::MenosAsignar => String::from_str("MenosAsignar"),
        TipoToken::AsteriscoAsignar => String::from_str("AsteriscoAsignar"),
        TipoToken::BarraAsignar => String::from_str("BarraAsignar"),
        TipoToken::PorcentajeAsignar => String::from_str("PorcentajeAsignar"),
        TipoToken::Igual => String::from_str("Igual"),
        TipoToken::Distinto => String::from_str("Distinto"),
        TipoToken::Menor => String::from_str("Menor"),
        TipoToken::Mayor => String::from_str("Mayor"),
        TipoToken::MenorIgual => String::from_str("MenorIgual"),
        TipoToken::MayorIgual => String::from_str("MayorIgual"),
        TipoToken::YLogico => String::from_str("YLogico"),
        TipoToken::OLogico => String::from_str("OLogico"),
        TipoToken::Negacion => String::from_str("Negacion"),
        TipoToken::YBit => String::from_str("YBit"),
        TipoToken::OBit => String::from_str("OBit"),
        TipoToken::XorBit => String::from_str("XorBit"),
        TipoToken::Complemento => String::from_str("Complemento"),
        TipoToken::DesplazarIzq => String::from_str("DesplazarIzq"),
        TipoToken::DesplazarDer => String::from_str("DesplazarDer"),
        TipoToken::ParentesisIzq => String::from_str("ParentesisIzq"),
        TipoToken::ParentesisDer => String::from_str("ParentesisDer"),
        TipoToken::LlaveIzq => String::from_str("LlaveIzq"),
        TipoToken::LlaveDer => String::from_str("LlaveDer"),
        TipoToken::CorcheteIzq => String::from_str("CorcheteIzq"),
        TipoToken::CorcheteDer => String::from_str("CorcheteDer"),
        TipoToken::PuntoYComa => String::from_str("PuntoYComa"),
        TipoToken::Coma => String::from_str("Coma"),
        TipoToken::Punto => String::from_str("Punto"),
        TipoToken::Flecha => String::from_str("Flecha"),
        TipoToken::DosPuntos => String::from_str("DosPuntos"),
        TipoToken::Interrogacion => String::from_str("Interrogacion"),
        TipoToken::Desconocido => String::from_str("Desconocido"),
    }
}

} // verus!
