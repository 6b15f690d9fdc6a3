//! Syntax errors: where, what was expected, what was found, and the source
//! line, with the message that shows them.

use crate::texto::{
    decimal, decimal_esp, espacios, espacios_esp, lema_espacios,
};
use crate::token::{nombre_tipo, nombre_tipo_esp, Posicion, Token};
use vstd::prelude::*;

verus! {

/// A syntax error.
#[derive(Debug, Clone, PartialEq, Eq)]
pub struct ErrorParseo {
    pub posicion: Posicion,
    pub esperado: String,
    pub encontrado: String,
    pub linea_fuente: Option<String>,
}

/// Model of a syntax error.
pub struct SpecError {
    pub posicion: Posicion,
    pub esperado: Seq<char>,
    pub encontrado: Seq<char>,
    pub linea_fuente: Option<Seq<char>>,
}

impl View for ErrorParseo {
    type V = SpecError;

    open spec fn view(&self) -> SpecError {
        SpecError {
            posicion: self.posicion,
            esperado: self.esperado@,
            encontrado: self.encontrado@,
            linea_fuente: match self.linea_fuente {
                Some(l) => Some(l@),
                None => None,
            },
        }
    }
}

pub type Resultado<T> = Result<T, ErrorParseo>;

/// How a token is shown in a message: its lexeme, or else the name of its
/// kind, between backquotes.
#[verifier::opaque]
pub open spec fn describir_token_esp(t: Token) -> Seq<char> {
    "`"@ + match t.valor {
        Some(v) => v@,
        None => nombre_tipo_esp(t.tipo),
    } + "`"@
}

/// Describes a token for an error message (lexeme or kind).
pub fn describir_token(token: &Token) -> (r: String)
    ensures
        r@ == describir_token_esp(*token),
{
    reveal(describir_token_esp);
    let mut r = String::from_str("`");
    match &token.valor {
        Some(v) => r.append(v.as_str()),
        None => {
            let n = nombre_tipo(token.tipo);
            r.append(n.as_str());
        },
    }
    r.append("`");
    r
}

/// The marker line under the source line: a caret under the error's column.
pub open spec fn indicador_columna_esp(columna: usize) -> Seq<char> {
    espacios_esp(if columna >= 1 {
        (columna - 1) as nat
    } else {
        0
    }) + "^"@
}

/// The caret stands at the error's column: the marker line has one space
/// for each column before it, then `^`.
pub proof fn lema_indicador_bajo_columna(columna: usize)
    requires
        columna >= 1,
    ensures
        indicador_columna_esp(columna).len() == columna,
        indicador_columna_esp(columna)[columna - 1] == '^',
        forall|i: int| 0 <= i < columna - 1 ==> #[trigger] indicador_columna_esp(columna)[i] == ' ',
{
    reveal_strlit("^");
    lema_espacios((columna - 1) as nat);
    let s = espacios_esp((columna - 1) as nat);
    assert forall|i: int| 0 <= i < columna - 1 implies #[trigger] indicador_columna_esp(columna)[i] == ' ' by {
        assert(indicador_columna_esp(columna)[i] == s[i]);
    }
}

/// In the message, the source line and the marker line start after
/// margins of the same width, so the caret stands under the character at
/// the error's column.
pub proof fn lema_margenes_alineados(linea: usize)
    ensures
        ("  "@ + decimal_esp(linea as nat) + " | "@).len() == ("  "@ + espacios_esp(
            decimal_esp(linea as nat).len(),
        ) + " | "@).len(),
{
    lema_espacios(decimal_esp(linea as nat).len());
}

/// The message of an error, line by line.
pub open spec fn mensaje_esp(e: SpecError) -> Seq<char> {
    let cabecera = "Error de parseo en línea "@ + decimal_esp(e.posicion.linea as nat) + ", columna "@
        + decimal_esp(e.posicion.columna as nat) + "\n"@ + "  se esperaba: "@ + e.esperado + "\n"@
        + "  se encontró:  "@ + e.encontrado + "\n"@;
    match e.linea_fuente {
        None => cabecera,
        Some(l) => {
            let numero = decimal_esp(e.posicion.linea as nat);
            cabecera + "\n"@ + "  "@ + numero + " | "@ + l + "\n"@ + "  "@ + espacios_esp(numero.len())
                + " | "@ + indicador_columna_esp(e.posicion.columna) + "\n"@
        },
    }
}

impl ErrorParseo {
    pub fn nuevo(
        posicion: Posicion,
        esperado: String,
        encontrado: String,
        linea_fuente: Option<String>,
    ) -> (r: Self)
        ensures
            r == (ErrorParseo { posicion, esperado, encontrado, linea_fuente }),
    {
        ErrorParseo { posicion, esperado, encontrado, linea_fuente }
    }

    /// An error at `posicion` whose found part describes `token`.
    pub fn token_inesperado(
        posicion: Posicion,
        esperado: String,
        token: &Token,
        linea_fuente: Option<String>,
    ) -> (r: Self)
        ensures
            r.posicion == posicion,
            r.esperado == esperado,
            r.encontrado@ == describir_token_esp(*token),
            r.linea_fuente == linea_fuente,
    {
        Self::nuevo(posicion, esperado, describir_token(token), linea_fuente)
    }

    fn indicador_columna(&self) -> (r: String)
        ensures
            r@ == indicador_columna_esp(self.posicion.columna),
    {
        let offset = self.posicion.columna.saturating_sub(1);
        let mut r = espacios(offset);
        r.append("^");
        r
    }

    /// The message that shows the error (what `Display` prints for it).
    pub fn to_string(&self) -> (r: String)
        ensures
            r@ == mensaje_esp(self@),
    {
        let mut r = String::from_str("Error de parseo en línea ");
        let linea = decimal(self.posicion.linea);
        r.append(linea.as_str());
        r.append(", columna ");
        let columna = decimal(self.posicion.columna);
        r.append(columna.as_str());
        r.append("\n");
        r.append("  se esperaba: ");
        r.append(self.esperado.as_str());
        r.append("\n");
        r.append("  se encontró:  ");
        r.append(self.encontrado.as_str());
        r.append("\n");
        match &self.linea_fuente {
            None => {},
            Some(l) => {
                r.append("\n");
                r.append("  ");
                r.append(linea.as_str());
                r.append(" | ");
                r.append(l.as_str());
                r.append("\n");
                r.append("  ");
                let relleno = espacios(linea.as_str().unicode_len());
                r.append(relleno.as_str());
                r.append(" | ");
                let indicador = self.indicador_columna();
                r.append(indicador.as_str());
                r.append("\n");
            },
        }
        r
    }
}

} // verus!
