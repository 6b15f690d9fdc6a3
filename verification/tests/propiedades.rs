use analizador_sintactico::{
    agregar_expr_infix, ast_a_arbol, describir_token, fmt_almacenamiento, fmt_calificador, fmt_literal,
    fmt_operador_asignacion, fmt_operador_binario, fmt_operador_unario, fmt_puntero,
    fmt_tipo_primitivo, Almacenamiento, AnalizadorSintactico, Arbol, Calificador, DeclExterna,
    ErrorParseo, Expr, Literal, Nodo, OperadorAsignacion, OperadorBinario, OperadorUnario,
    Posicion, Programa, Puntero, Resultado, TipoPrimitivo, TipoToken, Token,
};

/// Tokens of a small C text, as the lexer gives them: each with its lexeme,
/// string and character literals without their quotes.
fn tokenizar(src: &str) -> Vec<Token> {
    let chars: Vec<char> = src.chars().collect();
    let mut tokens = Vec::new();
    let mut i = 0;
    let mut linea = 1;
    let mut columna = 1;
    while i < chars.len() {
        let c = chars[i];
        if c == '\n' {
            i += 1;
            linea += 1;
            columna = 1;
            continue;
        }
        if c.is_whitespace() {
            i += 1;
            columna += 1;
            continue;
        }
        let posicion = Posicion { linea, columna };
        let inicio = i;
        let (tipo, valor): (TipoToken, String) = if c.is_alphabetic() || c == '_' {
            while i < chars.len() && (chars[i].is_alphanumeric() || chars[i] == '_') {
                i += 1;
            }
            let palabra: String = chars[inicio..i].iter().collect();
            (palabra_clave(&palabra).unwrap_or(TipoToken::Identificador), palabra)
        } else if c.is_ascii_digit() {
            let mut flotante = false;
            while i < chars.len() && (chars[i].is_ascii_digit() || chars[i] == '.') {
                if chars[i] == '.' {
                    flotante = true;
                }
                i += 1;
            }
            let numero: String = chars[inicio..i].iter().collect();
            (if flotante { TipoToken::Flotante } else { TipoToken::Entero }, numero)
        } else if c == '"' || c == '\'' {
            i += 1;
            while i < chars.len() && chars[i] != c {
                i += 1;
            }
            let texto: String = chars[inicio + 1..i].iter().collect();
            i += 1;
            (if c == '"' { TipoToken::Cadena } else { TipoToken::Caracter }, texto)
        } else {
            let dos: String = chars[i..(i + 2).min(chars.len())].iter().collect();
            match simbolo(&dos) {
                Some(t) if dos.chars().count() == 2 => {
                    i += 2;
                    (t, dos)
                }
                _ => {
                    i += 1;
                    (simbolo(&c.to_string()).unwrap_or(TipoToken::Desconocido), c.to_string())
                }
            }
        };
        columna += i - inicio;
        tokens.push(Token { tipo, valor: Some(valor), posicion });
    }
    tokens
}

fn palabra_clave(p: &str) -> Option<TipoToken> {
    Some(match p {
        "auto" => TipoToken::Auto,
        "register" => TipoToken::Register,
        "static" => TipoToken::Static,
        "extern" => TipoToken::Extern,
        "typedef" => TipoToken::Typedef,
        "const" => TipoToken::Const,
        "volatile" => TipoToken::Volatile,
        "void" => TipoToken::Void,
        "char" => TipoToken::Char,
        "short" => TipoToken::Short,
        "int" => TipoToken::Int,
        "long" => TipoToken::Long,
        "float" => TipoToken::Float,
        "double" => TipoToken::Double,
        "signed" => TipoToken::Signed,
        "unsigned" => TipoToken::Unsigned,
        "struct" => TipoToken::Struct,
        "union" => TipoToken::Union,
        "enum" => TipoToken::Enum,
        "if" => TipoToken::If,
        "else" => TipoToken::Else,
        "switch" => TipoToken::Switch,
        "case" => TipoToken::Case,
        "default" => TipoToken::Default,
        "while" => TipoToken::While,
        "do" => TipoToken::Do,
        "for" => TipoToken::For,
        "goto" => TipoToken::Goto,
        "continue" => TipoToken::Continue,
        "break" => TipoToken::Break,
        "return" => TipoToken::Return,
        "sizeof" => TipoToken::Sizeof,
        _ => return None,
    })
}

fn simbolo(s: &str) -> Option<TipoToken> {
    Some(match s {
        "++" => TipoToken::Incremento,
        "--" => TipoToken::Decremento,
        "+=" => TipoToken::MasAsignar,
        "-=" => TipoToken::MenosAsignar,
        "*=" => TipoToken::AsteriscoAsignar,
        "/=" => TipoToken::BarraAsignar,
        "%=" => TipoToken::PorcentajeAsignar,
        "==" => TipoToken::Igual,
        "!=" => TipoToken::Distinto,
        "<=" => TipoToken::MenorIgual,
        ">=" => TipoToken::MayorIgual,
        "&&" => TipoToken::YLogico,
        "||" => TipoToken::OLogico,
        "<<" => TipoToken::DesplazarIzq,
        ">>" => TipoToken::DesplazarDer,
        "->" => TipoToken::Flecha,
        "+" => TipoToken::Mas,
        "-" => TipoToken::Menos,
        "*" => TipoToken::Asterisco,
        "/" => TipoToken::Barra,
        "%" => TipoToken::Porcentaje,
        "=" => TipoToken::Asignar,
        "<" => TipoToken::Menor,
        ">" => TipoToken::Mayor,
        "!" => TipoToken::Negacion,
        "&" => TipoToken::YBit,
        "|" => TipoToken::OBit,
        "^" => TipoToken::XorBit,
        "~" => TipoToken::Complemento,
        "(" => TipoToken::ParentesisIzq,
        ")" => TipoToken::ParentesisDer,
        "{" => TipoToken::LlaveIzq,
        "}" => TipoToken::LlaveDer,
        "[" => TipoToken::CorcheteIzq,
        "]" => TipoToken::CorcheteDer,
        ";" => TipoToken::PuntoYComa,
        "," => TipoToken::Coma,
        "." => TipoToken::Punto,
        ":" => TipoToken::DosPuntos,
        "?" => TipoToken::Interrogacion,
        _ => return None,
    })
}

fn leer(src: &str) -> Resultado<Programa> {
    AnalizadorSintactico::con_fuente(tokenizar(src), src).parsear()
}

fn esquema(src: &str) -> String {
    leer(src).expect("debe parsear").to_string()
}

fn valores(n: &Nodo) -> Vec<String> {
    n.hijos.iter().map(|h| h.valor.clone()).collect()
}

fn arbol(src: &str) -> Arbol {
    ast_a_arbol(&leer(src).expect("debe parsear"))
}

#[test]
fn esquema_exacto_de_main() {
    assert_eq!(
        esquema("int main() { return 0; }"),
        "Programa\n\
         └── Función: main()\n    \
         ├── Especificadores: int\n    \
         └── Bloque\n        \
         └── Return\n            \
         └── 0\n"
    );
}

#[test]
fn esquema_con_ramas_intermedias() {
    assert_eq!(
        esquema("int x = 1, y; int main() { if (x > 0) { x++; } return x != 0; }"),
        "Programa\n\
         ├── Declaración: int\n\
         │   ├── Decl: x\n\
         │   │   └── =\n\
         │   │       └── 1\n\
         │   └── Decl: y\n\
         └── Función: main()\n    \
         ├── Especificadores: int\n    \
         └── Bloque\n        \
         ├── If\n        \
         │   ├── condicion\n        \
         │   │   ├── x\n        \
         │   │   ├── >\n        \
         │   │   └── 0\n        \
         │   └── Bloque\n        \
         │       └── ExprStmt\n        \
         │           ├── x\n        \
         │           └── ++\n        \
         └── Return\n            \
         ├── x\n            \
         ├── !=\n            \
         └── 0\n"
    );
}

fn contar(n: &Nodo) -> usize {
    1 + n.hijos.iter().map(contar).sum::<usize>()
}

#[test]
fn una_linea_por_nodo() {
    let a = arbol("int x = 1, y; int main() { if (x > 0) { x++; } return x != 0; }");
    assert_eq!(a.to_repr().lines().count(), contar(&a.raiz));
    assert_eq!(contar(&a.raiz), 22);
}

#[test]
fn condicion_en_orden_de_lectura() {
    let a = arbol("int main() { while (a = b ? c : d) ; }");
    let funcion = &a.raiz.hijos[0];
    let bloque = &funcion.hijos[1];
    let mientras = &bloque.hijos[0];
    assert_eq!(mientras.valor, "While");
    let condicion = &mientras.hijos[0];
    assert_eq!(condicion.valor, "condicion");
    assert_eq!(valores(condicion), vec!["a", "=", "b", "?", "c", ":", "d"]);
    assert!(condicion.hijos.iter().all(|h| h.hijos.is_empty()));
    assert_eq!(valores(condicion).join(" "), "a = b ? c : d");
}

#[test]
fn bloque_vacio_no_tiene_nodo() {
    let a = arbol("int main() { }");
    let funcion = &a.raiz.hijos[0];
    assert_eq!(valores(funcion), vec!["Especificadores: int"]);
    let b = arbol("int main() { { } return 1; }");
    let bloque = &b.raiz.hijos[0].hijos[1];
    assert_eq!(valores(bloque), vec!["Return"]);
}

#[test]
fn un_hijo_por_declaracion_externa() {
    let a = arbol("int a; char *b; void f(void) { }");
    assert_eq!(a.raiz.valor, "Programa");
    assert_eq!(
        valores(&a.raiz),
        vec!["Declaración: int", "Declaración: char*", "Función: f()"]
    );
    assert_eq!(valores(&a.raiz.hijos[1]), vec!["Decl: b"]);
}

#[test]
fn sin_tokens_programa_vacio() {
    let p = AnalizadorSintactico::new(Vec::new()).parsear().expect("debe parsear");
    assert!(p.declaraciones.is_empty());
    assert_eq!(p.to_string(), "Programa\n");
}

#[test]
fn leer_dos_veces_no_lee_nada_nuevo() {
    let src = "int x;";
    let mut a = AnalizadorSintactico::con_fuente(tokenizar(src), src);
    assert_eq!(a.parsear().expect("debe parsear").declaraciones.len(), 1);
    assert!(a.parsear().expect("debe parsear").declaraciones.is_empty());
}

#[test]
fn error_en_posicion_de_un_token_con_su_linea() {
    let src = "int main() {\n  return 0\n}";
    let err = leer(src).expect_err("falta ;");
    assert_eq!(err.posicion, Posicion { linea: 3, columna: 1 });
    assert_eq!(err.esperado, "PuntoYComa");
    assert_eq!(err.encontrado, "`}`");
    assert_eq!(err.linea_fuente, Some("}".to_string()));
    assert_eq!(
        err.to_string(),
        "Error de parseo en línea 3, columna 1\n  \
         se esperaba: PuntoYComa\n  \
         se encontró:  `}`\n\n  \
         3 | }\n    \
         | ^\n"
    );
}

#[test]
fn indicador_bajo_la_columna() {
    let src = "int main() { int x = ; }";
    let err = leer(src).expect_err("falta la expresión");
    assert_eq!(err.posicion, Posicion { linea: 1, columna: 22 });
    assert_eq!(err.esperado, "expresion primaria");
    assert_eq!(err.encontrado, "`;`");
    let msg = err.to_string();
    let lineas: Vec<&str> = msg.lines().collect();
    let fuente = lineas[lineas.len() - 2];
    let marca = lineas[lineas.len() - 1];
    assert_eq!(fuente, "  1 | int main() { int x = ; }");
    let col = marca.find('^').expect("marca");
    assert_eq!(&fuente[col..col + 1], ";");
}

#[test]
fn sin_fuente_el_mismo_programa() {
    let src = "struct p { int x; } *q; int f(int a, char *b[]) { return a + sizeof(int); }";
    let con = leer(src).expect("debe parsear");
    let sin = AnalizadorSintactico::new(tokenizar(src)).parsear().expect("debe parsear");
    assert_eq!(con, sin);
}

#[test]
fn sin_fuente_el_mismo_error_sin_linea() {
    let src = "int main() { return 0 }";
    let con = leer(src).expect_err("falta ;");
    let sin = AnalizadorSintactico::new(tokenizar(src)).parsear().expect_err("falta ;");
    assert_eq!(con.posicion, sin.posicion);
    assert_eq!(con.esperado, sin.esperado);
    assert_eq!(con.encontrado, sin.encontrado);
    assert_eq!(con.linea_fuente, Some(src.to_string()));
    assert_eq!(sin.linea_fuente, None);
    assert_eq!(
        sin.to_string(),
        "Error de parseo en línea 1, columna 23\n  se esperaba: PuntoYComa\n  se encontró:  `}`\n"
    );
}

#[test]
fn error_tipo_primitivo_en_cast() {
    let err = leer("int main() { return (struct s) x; }").expect_err("cast a struct");
    assert_eq!(err.esperado, "tipo primitivo");
    assert_eq!(err.encontrado, "`struct`");
    assert_eq!(err.posicion, Posicion { linea: 1, columna: 29 });
}

#[test]
fn tokens_que_se_acaban_sin_respuesta() {
    let src = "static";
    let mut a = AnalizadorSintactico::con_fuente(tokenizar(src), src);
    assert!(a.parsear_comprobado().is_none());
    let src = "int x;";
    let mut b = AnalizadorSintactico::con_fuente(tokenizar(src), src);
    match b.parsear_comprobado() {
        Some(Ok(p)) => assert_eq!(p.declaraciones.len(), 1),
        _ => panic!("debe parsear"),
    }
    let src = "int x";
    let mut c = AnalizadorSintactico::con_fuente(tokenizar(src), src);
    match c.parsear_comprobado() {
        Some(Err(e)) => assert_eq!(e.esperado, "PuntoYComa"),
        _ => panic!("debe fallar"),
    }
}

#[test]
fn salta_marca_de_orden_y_preprocesador() {
    let mut tokens = vec![Token {
        tipo: TipoToken::Desconocido,
        valor: Some("\u{feff}".to_string()),
        posicion: Posicion { linea: 1, columna: 1 },
    }];
    let src = "# include <stdio.h>\n#define N 3\nint main() { return N; }";
    tokens.extend(tokenizar(src));
    let p = AnalizadorSintactico::new(tokens).parsear().expect("debe parsear");
    assert_eq!(p.declaraciones.len(), 1);
    match &p.declaraciones[0] {
        DeclExterna::Funcion(f) => assert_eq!(f.posicion, Posicion { linea: 3, columna: 1 }),
        _ => panic!("debe ser una función"),
    }
}

#[test]
fn declaradores_y_tipos_escritos() {
    let s = esquema(
        "long long n; const volatile int * const p; int (*f)(int, char *); int a[10][]; \
         struct s { int x; } *v; enum e { A, B = 2 } *w; union { int i; } *u;",
    );
    assert!(s.contains("Declaración: long\n"));
    assert!(s.contains("Decl: n\n"));
    assert!(s.contains("Declaración: const volatile const int*\n"));
    assert!(s.contains("Decl: p\n"));
    assert!(s.contains("Decl: (* f)(int, char*)\n"));
    assert!(s.contains("Decl: a[10][]\n"));
    assert!(s.contains("Declaración: struct s\n"));
    assert!(s.contains("Decl: * v\n"));
    assert!(s.contains("Declaración: enum e\n"));
    assert!(s.contains("Decl: * w\n"));
    assert!(s.contains("Declaración: union { ... }\n"));
    assert!(s.contains("Decl: * u\n"));
}

#[test]
fn nombre_tras_struct_es_un_tipo() {
    let err = leer("struct s { int x; } v;").expect_err("v se lee como tipo");
    assert_eq!(err.esperado, "Identificador");
    assert_eq!(err.encontrado, "`;`");
}

#[test]
fn sentencias_de_control() {
    let s = esquema(
        "int main() { int i; for (i = 0; i < 10; i += 1) { continue; } \
         for (;;) break; do i--; while (i); switch (i) { case 1: i = 2; default: break; } \
         l: goto l; }",
    );
    assert!(s.contains("For\n"));
    assert!(s.contains("init\n"));
    assert!(s.contains("incremento\n"));
    assert!(s.contains("+=\n"));
    assert!(s.contains("Continue\n"));
    assert!(s.contains("Break\n"));
    assert!(s.contains("DoWhile\n"));
    assert!(s.contains("--\n"));
    assert!(s.contains("Switch\n"));
    assert!(s.contains("Etiqueta: 1\n"));
    assert!(s.contains("Etiqueta: default\n"));
    assert!(s.contains("Etiqueta: l\n"));
    assert!(s.contains("Goto: l\n"));
}

#[test]
fn expresiones_compuestas() {
    let s = esquema(
        "int main() { f(a, b + 1); x = v[i + 1]; y = p->c.d; z = (char) w; \
         t = sizeof(int); u = sizeof t; r = -x; int m[] = {1, {2, 3}}; return 'c'; }",
    );
    assert!(s.contains("llamada\n"));
    assert!(s.contains("arg\n"));
    assert!(s.contains("[]\n"));
    assert!(s.contains("indice\n"));
    assert!(s.contains("->c\n"));
    assert!(s.contains(".d\n"));
    assert!(s.contains("cast char\n"));
    assert!(s.contains("sizeof\n"));
    assert!(s.contains("Lista\n"));
    assert!(s.contains("'c'\n"));
    assert!(s.contains("Decl: m[]\n"));
}

#[test]
fn escribe_palabras_y_operadores() {
    assert_eq!(fmt_almacenamiento(&Almacenamiento::Typedef), "typedef");
    assert_eq!(fmt_calificador(&Calificador::Volatile), "volatile");
    assert_eq!(fmt_tipo_primitivo(TipoPrimitivo::Unsigned), "unsigned");
    assert_eq!(fmt_operador_binario(OperadorBinario::DesplazarDer), ">>");
    assert_eq!(fmt_operador_unario(OperadorUnario::Complemento), "~");
    assert_eq!(fmt_operador_asignacion(OperadorAsignacion::PorcentajeAsignar), "%=");
    assert_eq!(fmt_literal(&Literal::Caracter("a".to_string())), "'a'");
    assert_eq!(fmt_literal(&Literal::Cadena("hola".to_string())), "\"hola\"");
    assert_eq!(fmt_literal(&Literal::Entero("42".to_string())), "42");
    assert_eq!(fmt_puntero(&Puntero { calificadores: vec![] }), "*");
    assert_eq!(
        fmt_puntero(&Puntero { calificadores: vec![Calificador::Const, Calificador::Volatile] }),
        "const volatile *"
    );
}

#[test]
fn describe_lexema_o_tipo() {
    let con = Token {
        tipo: TipoToken::Identificador,
        valor: Some("x".to_string()),
        posicion: Posicion { linea: 1, columna: 1 },
    };
    let sin = Token { tipo: TipoToken::PuntoYComa, valor: None, posicion: Posicion { linea: 2, columna: 3 } };
    assert_eq!(describir_token(&con), "`x`");
    assert_eq!(describir_token(&sin), "`PuntoYComa`");
    let e = ErrorParseo::token_inesperado(sin.posicion, "expresion".to_string(), &sin, None);
    assert_eq!(e.encontrado, "`PuntoYComa`");
    assert_eq!(e.posicion, Posicion { linea: 2, columna: 3 });
}

#[test]
fn arbol_a_mano() {
    let mut raiz = Nodo::new("a".to_string());
    let mut b = Nodo::new("b".to_string());
    b.agregar_hijo(Nodo::new("c".to_string()));
    raiz.agregar_hijo(b);
    raiz.agregar_hijo(Nodo::new("d".to_string()));
    let arbol = Arbol { raiz };
    assert_eq!(arbol.to_repr(), "a\n├── b\n│   └── c\n└── d\n");
    assert_eq!(arbol.to_repr().matches('\n').count(), 4);
    assert_eq!(Arbol::con_raiz("r".to_string()).to_repr(), "r\n");
}

#[test]
fn expresion_suelta_en_arbol() {
    let p = leer("int main() { return -x; }").expect("debe parsear");
    match &p.declaraciones[0] {
        DeclExterna::Funcion(f) => match &f.cuerpo.items[0] {
            analizador_sintactico::ItemBloque::Sentencia(analizador_sintactico::Sentencia::Salto(
                analizador_sintactico::Salto::Retornar { valor: Some(v), .. },
            )) => match &**v {
                Expr::Unaria { operador, .. } => assert_eq!(*operador, OperadorUnario::Menos),
                _ => panic!("debe ser unaria"),
            },
            _ => panic!("debe ser return"),
        },
        _ => panic!("debe ser función"),
    }
}

fn prefijo_bom_y_lineas() -> Vec<Token> {
    let mut pre = vec![Token {
        tipo: TipoToken::Desconocido,
        valor: Some("\u{feff}".to_string()),
        posicion: Posicion { linea: 1, columna: 1 },
    }];
    pre.extend(tokenizar("#include <stdio.h>\n#define N 3\n"));
    pre
}

#[test]
fn prefijo_omitido_mismo_programa() {
    let src = "\n\nint main() { return N; }";
    let sin = AnalizadorSintactico::new(tokenizar(src)).parsear();
    let mut con = prefijo_bom_y_lineas();
    con.extend(tokenizar(src));
    let con = AnalizadorSintactico::new(con).parsear();
    assert_eq!(con, sin);
    assert_eq!(con.expect("debe parsear").declaraciones.len(), 1);
}

#[test]
fn prefijo_omitido_mismo_error() {
    let src = "\n\nint main() { return 0 }";
    let sin = AnalizadorSintactico::new(tokenizar(src)).parsear();
    let mut con = prefijo_bom_y_lineas();
    con.extend(tokenizar(src));
    let con = AnalizadorSintactico::new(con).parsear();
    assert_eq!(con, sin);
    assert_eq!(con.expect_err("falta ;").posicion, Posicion { linea: 3, columna: 23 });
}

#[test]
fn copia_igual_al_original() {
    let p = leer("int x = 1; int main() { for (;;) { if (x) break; } return f(x, 'a')[2]; }")
        .expect("debe parsear");
    let q = p.clone();
    assert_eq!(p, q);
    assert_eq!(p.to_string(), q.to_string());
}

#[test]
fn esparcir_conserva_el_nodo() {
    let p = leer("int main() { return a + b * c; }").expect("debe parsear");
    let e = match &p.declaraciones[0] {
        DeclExterna::Funcion(f) => match &f.cuerpo.items[0] {
            analizador_sintactico::ItemBloque::Sentencia(analizador_sintactico::Sentencia::Salto(
                analizador_sintactico::Salto::Retornar { valor: Some(v), .. },
            )) => (**v).clone(),
            _ => panic!("debe ser return"),
        },
        _ => panic!("debe ser función"),
    };
    let mut padre = Nodo::new("p".to_string());
    padre.agregar_hijo(Nodo::new("viejo".to_string()));
    agregar_expr_infix(&e, &mut padre);
    assert_eq!(padre.valor, "p");
    assert_eq!(valores(&padre), vec!["viejo", "a", "+", "b", "*", "c"]);
    let mut otro = Nodo::new("q".to_string());
    agregar_expr_infix(&e, &mut otro);
    assert_eq!(valores(&otro), vec!["a", "+", "b", "*", "c"]);
}
