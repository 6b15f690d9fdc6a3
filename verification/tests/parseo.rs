use analizador_sintactico::{AnalizadorSintactico, Posicion, TipoToken, Token};

/// Cuts a C source text into tokens, as the lexer that feeds the analyser
/// does: every token keeps its lexeme (string and character literals without
/// their quotes) and the line and column where it starts.
fn tokenizar(src: &str) -> Vec<Token> {
    let chars: Vec<char> = src.chars().collect();
    let mut tokens = Vec::new();
    let mut i = 0;
    let mut linea = 1;
    let mut columna = 1;
    while i < chars.len() {
        let c = chars[i];
        if c == '\n' {
            i += 1;
            linea += 1;
            columna = 1;
            continue;
        }
        if c.is_whitespace() {
            i += 1;
            columna += 1;
            continue;
        }
        let posicion = Posicion { linea, columna };
        let inicio = i;
        let (tipo, valor): (TipoToken, String) = if c.is_alphabetic() || c == '_' {
            while i < chars.len() && (chars[i].is_alphanumeric() || chars[i] == '_') {
                i += 1;
            }
            let palabra: String = chars[inicio..i].iter().collect();
            (palabra_clave(&palabra).unwrap_or(TipoToken::Identificador), palabra)
        } else if c.is_ascii_digit() {
            let mut flotante = false;
            while i < chars.len() && (chars[i].is_ascii_digit() || chars[i] == '.') {
                if chars[i] == '.' {
                    flotante = true;
                }
                i += 1;
            }
            let numero: String = chars[inicio..i].iter().collect();
            (if flotante { TipoToken::Flotante } else { TipoToken::Entero }, numero)
        } else if c == '"' || c == '\'' {
            i += 1;
            while i < chars.len() && chars[i] != c {
                i += 1;
            }
            let texto: String = chars[inicio + 1..i].iter().collect();
            i += 1;
            (if c == '"' { TipoToken::Cadena } else { TipoToken::Caracter }, texto)
        } else {
            let dos: String = chars[i..(i + 2).min(chars.len())].iter().collect();
            match simbolo(&dos) {
                Some(t) if dos.chars().count() == 2 => {
                    i += 2;
                    (t, dos)
                }
                _ => {
                    i += 1;
                    (simbolo(&c.to_string()).unwrap_or(TipoToken::Desconocido), c.to_string())
                }
            }
        };
        columna += i - inicio;
        tokens.push(Token { tipo, valor: Some(valor), posicion });
    }
    tokens
}

fn palabra_clave(p: &str) -> Option<TipoToken> {
    Some(match p {
        "auto" => TipoToken::Auto,
        "register" => TipoToken::Register,
        "static" => TipoToken::Static,
        "extern" => TipoToken::Extern,
        "typedef" => TipoToken::Typedef,
        "const" => TipoToken::Const,
        "volatile" => TipoToken::Volatile,
        "void" => TipoToken::Void,
        "char" => TipoToken::Char,
        "short" => TipoToken::Short,
        "int" => TipoToken::Int,
        "long" => TipoToken::Long,
        "float" => TipoToken::Float,
        "double" => TipoToken::Double,
        "signed" => TipoToken::Signed,
        "unsigned" => TipoToken::Unsigned,
        "struct" => TipoToken::Struct,
        "union" => TipoToken::Union,
        "enum" => TipoToken::Enum,
        "if" => TipoToken::If,
        "else" => TipoToken::Else,
        "switch" => TipoToken::Switch,
        "case" => TipoToken::Case,
        "default" => TipoToken::Default,
        "while" => TipoToken::While,
        "do" => TipoToken::Do,
        "for" => TipoToken::For,
        "goto" => TipoToken::Goto,
        "continue" => TipoToken::Continue,
        "break" => TipoToken::Break,
        "return" => TipoToken::Return,
        "sizeof" => TipoToken::Sizeof,
        _ => return None,
    })
}

fn simbolo(s: &str) -> Option<TipoToken> {
    Some(match s {
        "++" => TipoToken::Incremento,
        "--" => TipoToken::Decremento,
        "+=" => TipoToken::MasAsignar,
        "-=" => TipoToken::MenosAsignar,
        "*=" => TipoToken::AsteriscoAsignar,
        "/=" => TipoToken::BarraAsignar,
        "%=" => TipoToken::PorcentajeAsignar,
        "==" => TipoToken::Igual,
        "!=" => TipoToken::Distinto,
        "<=" => TipoToken::MenorIgual,
        ">=" => TipoToken::MayorIgual,
        "&&" => TipoToken::YLogico,
        "||" => TipoToken::OLogico,
        "<<" => TipoToken::DesplazarIzq,
        ">>" => TipoToken::DesplazarDer,
        "->" => TipoToken::Flecha,
        "+" => TipoToken::Mas,
        "-" => TipoToken::Menos,
        "*" => TipoToken::Asterisco,
        "/" => TipoToken::Barra,
        "%" => TipoToken::Porcentaje,
        "=" => TipoToken::Asignar,
        "<" => TipoToken::Menor,
        ">" => TipoToken::Mayor,
        "!" => TipoToken::Negacion,
        "&" => TipoToken::YBit,
        "|" => TipoToken::OBit,
        "^" => TipoToken::XorBit,
        "~" => TipoToken::Complemento,
        "(" => TipoToken::ParentesisIzq,
        ")" => TipoToken::ParentesisDer,
        "{" => TipoToken::LlaveIzq,
        "}" => TipoToken::LlaveDer,
        "[" => TipoToken::CorcheteIzq,
        "]" => TipoToken::CorcheteDer,
        ";" => TipoToken::PuntoYComa,
        "," => TipoToken::Coma,
        "." => TipoToken::Punto,
        ":" => TipoToken::DosPuntos,
        "?" => TipoToken::Interrogacion,
        _ => return None,
    })
}

#[test]
fn parsea_main_simple() {
    let src = "int main() { return 0; }";
    let tokens = tokenizar(src);
    let ast = AnalizadorSintactico::con_fuente(tokens, src)
        .parsear()
        .expect("debe parsear");
    assert_eq!(ast.declaraciones.len(), 1);
}

#[test]
fn parsea_if_y_operadores() {
    let src = "int main() { int x = 1; if (x > 0) { x++; } return x != 0; }";
    let tokens = tokenizar(src);
    AnalizadorSintactico::con_fuente(tokens, src)
        .parsear()
        .expect("debe parsear");
}

#[test]
fn imprime_arbol_ramificado_con_comillas() {
    let src = "int main() { int x = 1; if (x > 0) { x++; } return x != 0; }";
    let tokens = tokenizar(src);
    let ast = AnalizadorSintactico::con_fuente(tokens, src)
        .parsear()
        .expect("debe parsear");

    let salida = ast.to_string();
    assert!(salida.contains("Decl: x"));
    assert!(salida.contains(">"));
    assert!(salida.contains("!="));
    assert!(salida.contains("++"));
    assert!(!salida.contains("cond: x > 0"));
    assert!(!salida.contains("Bloque vacío"));
}

#[test]
fn imprime_cadenas_con_comillas() {
    let src = r#"int main() { const char *msg = "Hola, mundo"; return 0; }"#;
    let tokens = tokenizar(src);
    let ast = AnalizadorSintactico::con_fuente(tokens, src)
        .parsear()
        .expect("debe parsear");

    let salida = ast.to_string();
    assert!(salida.contains(r#""Hola, mundo""#));
}

#[test]
fn error_cancela_ast_y_muestra_origen() {
    let src = "int main() { return 0 }";
    let tokens = tokenizar(src);
    let err = AnalizadorSintactico::con_fuente(tokens, src)
        .parsear()
        .expect_err("debe fallar sin punto y coma");

    let msg = err.to_string();
    assert!(msg.contains("se esperaba"));
    assert!(msg.contains("se encontró"));
    assert!(msg.contains("return 0"));
    assert!(msg.contains("^"));
}

#[test]
fn error_muestra_lexema_encontrado() {
    let src = "int main() { int x = ; }";
    let tokens = tokenizar(src);
    let err = AnalizadorSintactico::con_fuente(tokens, src)
        .parsear()
        .expect_err("debe fallar en expresión vacía");

    let msg = err.to_string();
    assert!(msg.contains("se encontró"));
    assert!(msg.contains(";"));
}
