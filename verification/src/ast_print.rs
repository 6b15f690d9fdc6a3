//! From the syntax tree to a tree of texts, and the texts of its parts
//! written back in C notation.

use crate::ast::{
    Almacenamiento, Bloque, Calificador, DeclExterna, Declaracion, Declarador, DeclaradorBase, Especificadores, Etiqueta, Expr, ForInit, Inicializador, InitDeclarador, ItemBloque, Iteracion, Literal, OperadorAsignacion, OperadorBinario, OperadorUnario, Parametro, Programa, Puntero, Salto, Seleccion, Sentencia, SizeofObjetivo, SpecBloque, SpecDeclExterna, SpecDeclarador, SpecDeclaradorBase, SpecEspecificadores, SpecEtiqueta, SpecExpr, SpecForInit, SpecInicializador, SpecInitDeclarador, SpecItemBloque, SpecIteracion, SpecLiteral, SpecParametro, SpecPrograma, SpecSalto, SpecSeleccion, SpecSentencia, SpecSizeofObjetivo, SpecSufijo, SpecTipo, SufijoDeclarador, Tipo, TipoPrimitivo, lema_vista_decls_externas, lema_vista_exprs_push, lema_vista_inicializadores_push, lema_vista_init_declaradores_push, lema_vista_items_push, lema_vista_parametros_push, lema_vista_punteros, vista_decls_externas, vista_enum, vista_expr, vista_expr_opt, vista_exprs, vista_inicializador, vista_inicializadores, vista_init_declarador, vista_init_declaradores, vista_item, vista_items, vista_iteracion, vista_parametro, vista_parametros, vista_punteros, vista_salto, vista_seleccion, vista_sentencia, vista_sentencia_opt, vista_struct_union, vista_sufijo, vista_texto_opt,
};
use crate::arbol::{
    Arbol, Nodo, SpecNodo, hoja, texto_arbol,
};
use crate::texto::{
    lema_unir_concat, unir, unir_esp, vista_cadenas,
};
use crate::gramatica::{
    NivelBinario, es_operador_de, operador_aditivo_de, operador_asignacion_de, operador_binario_de, operador_multiplicativo_de, operador_relacional_de, operador_unario_de,
};
use crate::token::{
    Posicion, TipoToken,
};
use vstd::prelude::*;

verus! {

// ---------------------------------------------------------------------------
// Words
// ---------------------------------------------------------------------------

pub open spec fn fmt_almacenamiento_esp(a: Almacenamiento) -> Seq<char> {
    match a {
        Almacenamiento::Auto => "auto"@,
        Almacenamiento::Register => "register"@,
        Almacenamiento::Static => "static"@,
        Almacenamiento::Extern => "extern"@,
        Almacenamiento::Typedef => "typedef"@,
    }
}

/// The keyword of a storage class.
pub fn fmt_almacenamiento(a: &Almacenamiento) -> (r: String)
    ensures
        r@ == fmt_almacenamiento_esp(*a),
{
    match a {
        Almacenamiento::Auto => String::from_str("auto"),
        Almacenamiento::Register => String::from_str("register"),
        Almacenamiento::Static => String::from_str("static"),
        Almacenamiento::Extern => String::from_str("extern"),
        Almacenamiento::Typedef => String::from_str("typedef"),
    }
}

pub open spec fn fmt_calificador_esp(c: Calificador) -> Seq<char> {
    match c {
        Calificador::Const => "const"@,
        Calificador::Volatile => "volatile"@,
    }
}

/// The keyword of a qualifier.
pub fn fmt_calificador(c: &Calificador) -> (r: String)
    ensures
        r@ == fmt_calificador_esp(*c),
{
    match c {
        Calificador::Const => String::from_str("const"),
        Calificador::Volatile => String::from_str("volatile"),
    }
}

pub open spec fn fmt_tipo_primitivo_esp(p: TipoPrimitivo) -> Seq<char> {
    match p {
        TipoPrimitivo::Void => "void"@,
        TipoPrimitivo::Char => "char"@,
        TipoPrimitivo::Short => "short"@,
        TipoPrimitivo::Int => "int"@,
        TipoPrimitivo::Long => "long"@,
        TipoPrimitivo::Float => "float"@,
        TipoPrimitivo::Double => "double"@,
        TipoPrimitivo::Signed => "signed"@,
        TipoPrimitivo::Unsigned => "unsigned"@,
    }
}

/// The keyword of a primitive type.
pub fn fmt_tipo_primitivo(p: TipoPrimitivo) -> (r: String)
    ensures
        r@ == fmt_tipo_primitivo_esp(p),
{
    match p {
        TipoPrimitivo::Void => String::from_str("void"),
        TipoPrimitivo::Char => String::from_str("char"),
        TipoPrimitivo::Short => String::from_str("short"),
        TipoPrimitivo::Int => String::from_str("int"),
        TipoPrimitivo::Long => String::from_str("long"),
        TipoPrimitivo::Float => String::from_str("float"),
        TipoPrimitivo::Double => String::from_str("double"),
        TipoPrimitivo::Signed => String::from_str("signed"),
        TipoPrimitivo::Unsigned => String::from_str("unsigned"),
    }
}

pub open spec fn fmt_operador_binario_esp(o: OperadorBinario) -> Seq<char> {
    match o {
        OperadorBinario::Mas => "+"@,
        OperadorBinario::Menos => "-"@,
        OperadorBinario::Asterisco => "*"@,
        OperadorBinario::Barra => "/"@,
        OperadorBinario::Porcentaje => "%"@,
        OperadorBinario::Menor => "<"@,
        OperadorBinario::Mayor => ">"@,
        OperadorBinario::MenorIgual => "<="@,
        OperadorBinario::MayorIgual => ">="@,
        OperadorBinario::Igual => "=="@,
        OperadorBinario::Distinto => "!="@,
        OperadorBinario::YLogico => "&&"@,
        OperadorBinario::OLogico => "||"@,
        OperadorBinario::YBit => "&"@,
        OperadorBinario::OBit => "|"@,
        OperadorBinario::XorBit => "^"@,
        OperadorBinario::DesplazarIzq => "<<"@,
        OperadorBinario::DesplazarDer => ">>"@,
    }
}

/// The symbol of a binary operator.
pub fn fmt_operador_binario(o: OperadorBinario) -> (r: String)
    ensures
        r@ == fmt_operador_binario_esp(o),
{
    match o {
        OperadorBinario::Mas => String::from_str("+"),
        OperadorBinario::Menos => String::from_str("-"),
        OperadorBinario::Asterisco => String::from_str("*"),
        OperadorBinario::Barra => String::from_str("/"),
        OperadorBinario::Porcentaje => String::from_str("%"),
        OperadorBinario::Menor => String::from_str("<"),
        OperadorBinario::Mayor => String::from_str(">"),
        OperadorBinario::MenorIgual => String::from_str("<="),
        OperadorBinario::MayorIgual => String::from_str(">="),
        OperadorBinario::Igual => String::from_str("=="),
        OperadorBinario::Distinto => String::from_str("!="),
        OperadorBinario::YLogico => String::from_str("&&"),
        OperadorBinario::OLogico => String::from_str("||"),
        OperadorBinario::YBit => String::from_str("&"),
        OperadorBinario::OBit => String::from_str("|"),
        OperadorBinario::XorBit => String::from_str("^"),
        OperadorBinario::DesplazarIzq => String::from_str("<<"),
        OperadorBinario::DesplazarDer => String::from_str(">>"),
    }
}

pub open spec fn fmt_operador_unario_esp(o: OperadorUnario) -> Seq<char> {
    match o {
        OperadorUnario::Mas => "+"@,
        OperadorUnario::Menos => "-"@,
        OperadorUnario::Negacion => "!"@,
        OperadorUnario::Complemento => "~"@,
        OperadorUnario::Asterisco => "*"@,
        OperadorUnario::YBit => "&"@,
        OperadorUnario::Incremento => "++"@,
        OperadorUnario::Decremento => "--"@,
    }
}

/// The symbol of a unary operator.
pub fn fmt_operador_unario(o: OperadorUnario) -> (r: String)
    ensures
        r@ == fmt_operador_unario_esp(o),
{
    match o {
        OperadorUnario::Mas => String::from_str("+"),
        OperadorUnario::Menos => String::from_str("-"),
        OperadorUnario::Negacion => String::from_str("!"),
        OperadorUnario::Complemento => String::from_str("~"),
        OperadorUnario::Asterisco => String::from_str("*"),
        OperadorUnario::YBit => String::from_str("&"),
        OperadorUnario::Incremento => String::from_str("++"),
        OperadorUnario::Decremento => String::from_str("--"),
    }
}

pub open spec fn fmt_operador_asignacion_esp(o: OperadorAsignacion) -> Seq<char> {
    match o {
        OperadorAsignacion::Asignar => "="@,
        OperadorAsignacion::MasAsignar => "+="@,
        OperadorAsignacion::MenosAsignar => "-="@,
        OperadorAsignacion::AsteriscoAsignar => "*="@,
        OperadorAsignacion::BarraAsignar => "/="@,
        OperadorAsignacion::PorcentajeAsignar => "%="@,
    }
}

/// The symbol of an assignment operator.
pub fn fmt_operador_asignacion(o: OperadorAsignacion) -> (r: String)
    ensures
        r@ == fmt_operador_asignacion_esp(o),
{
    match o {
        OperadorAsignacion::Asignar => String::from_str("="),
        OperadorAsignacion::MasAsignar => String::from_str("+="),
        OperadorAsignacion::MenosAsignar => String::from_str("-="),
        OperadorAsignacion::AsteriscoAsignar => String::from_str("*="),
        OperadorAsignacion::BarraAsignar => String::from_str("/="),
        OperadorAsignacion::PorcentajeAsignar => String::from_str("%="),
    }
}

/// A literal as written: character constants between `'`, strings between
/// `"`.
pub open spec fn fmt_literal_esp(l: SpecLiteral) -> Seq<char> {
    match l {
        SpecLiteral::Entero(v) => v,
        SpecLiteral::Flotante(v) => v,
        SpecLiteral::Caracter(v) => "'"@ + v + "'"@,
        SpecLiteral::Cadena(v) => "\""@ + v + "\""@,
    }
}

/// A literal as written in C.
pub fn fmt_literal(l: &Literal) -> (r: String)
    ensures
        r@ == fmt_literal_esp(l@),
{
    match l {
        Literal::Entero(v) => v.clone(),
        Literal::Flotante(v) => v.clone(),
        Literal::Caracter(v) => {
            let mut r = String::from_str("'");
            r.append(v.as_str());
            r.append("'");
            r
        },
        Literal::Cadena(v) => {
            let mut r = String::from_str("\"");
            r.append(v.as_str());
            r.append("\"");
            r
        },
    }
}

/// Qualifiers separated by spaces.
pub open spec fn fmt_calificadores_esp(cs: Seq<Calificador>) -> Seq<char> {
    unir_esp(cs.map_values(|c: Calificador| fmt_calificador_esp(c)), " "@)
}

fn fmt_calificadores(cs: &Vec<Calificador>) -> (r: String)
    ensures
        r@ == fmt_calificadores_esp(cs@),
{
    let mut partes: Vec<String> = Vec::new();
    let mut i: usize = 0;
    while i < cs.len()
        invariant
            i <= cs.len(),
            vista_cadenas(partes@) == cs@.take(i as int).map_values(
                |c: Calificador| fmt_calificador_esp(c),
            ),
        decreases cs.len() - i,
    {
        let t = fmt_calificador(&cs[i]);
        let ghost antes = vista_cadenas(partes@);
        partes.push(t);
        proof {
            assert(cs@.take(i + 1).map_values(|c: Calificador| fmt_calificador_esp(c)) =~= antes.push(
                fmt_calificador_esp(cs@[i as int]),
            ));
            assert(vista_cadenas(partes@) =~= antes.push(t@));
        }
        i = i + 1;
    }
    assert(cs@.take(i as int) =~= cs@);
    unir(&partes, " ")
}

/// A pointer level: `*`, or its qualifiers and ` *`.
pub open spec fn fmt_puntero_esp(cs: Seq<Calificador>) -> Seq<char> {
    if cs.len() == 0 {
        "*"@
    } else {
        fmt_calificadores_esp(cs) + " *"@
    }
}

/// A pointer level as written in a declarator.
pub fn fmt_puntero(p: &Puntero) -> (r: String)
    ensures
        r@ == fmt_puntero_esp(p@),
{
    if p.calificadores.len() == 0 {
        String::from_str("*")
    } else {
        let mut r = fmt_calificadores(&p.calificadores);
        r.append(" *");
        r
    }
}


// ---------------------------------------------------------------------------
// Types, declarators and expressions in C notation
// ---------------------------------------------------------------------------

/// The name of a `struct`, `union` or `enum`, or `{ ... }` for one without.
pub open spec fn fmt_etiquetado_esp(clave: Seq<char>, nombre: Option<Seq<char>>) -> Seq<char> {
    match nombre {
        Some(n) => clave + " "@ + n,
        None => clave + " { ... }"@,
    }
}

/// Specifiers as written: storage classes, qualifiers and the type,
/// separated by spaces.
pub open spec fn fmt_especificadores_esp(e: SpecEspecificadores) -> Seq<char>
    decreases e,
{
    unir_esp(
        e.almacenamiento.map_values(|a: Almacenamiento| fmt_almacenamiento_esp(a))
            + e.calificadores.map_values(|c: Calificador| fmt_calificador_esp(c)) + match e.tipo {
            Some(t) => seq![fmt_tipo_esp(t)],
            None => Seq::empty(),
        },
        " "@,
    )
}

/// A type as written in C.
pub open spec fn fmt_tipo_esp(t: SpecTipo) -> Seq<char>
    decreases t,
{
    match t {
        SpecTipo::Primitivo(p) => fmt_tipo_primitivo_esp(p),
        SpecTipo::Puntero { calificadores, apunta_a } => (if calificadores.len() == 0 {
            Seq::empty()
        } else {
            fmt_calificadores_esp(calificadores) + " "@
        }) + fmt_tipo_esp(*apunta_a) + "*"@,
        SpecTipo::Array { elemento, tamano } => fmt_tipo_esp(*elemento) + match tamano {
            Some(e) => "["@ + fmt_expr_esp(*e) + "]"@,
            None => "[]"@,
        },
        SpecTipo::Funcion { retorno, parametros } => fmt_tipo_esp(*retorno) + "("@ + unir_esp(
            fmt_parametros_esp(parametros),
            ", "@,
        ) + ")"@,
        SpecTipo::Struct(s) => fmt_etiquetado_esp("struct"@, s.nombre),
        SpecTipo::Union(s) => fmt_etiquetado_esp("union"@, s.nombre),
        SpecTipo::Enum(e) => fmt_etiquetado_esp("enum"@, e.nombre),
        SpecTipo::Nombre(n) => n,
    }
}

/// The pointer levels `ps` written before `base`, the last level first.
pub open spec fn punteros_delante_esp(ps: Seq<Seq<Calificador>>, base: Seq<char>) -> Seq<char>
    decreases ps.len(),
{
    if ps.len() == 0 {
        base
    } else {
        fmt_puntero_esp(ps.last()) + " "@ + punteros_delante_esp(ps.drop_last(), base)
    }
}

/// A declarator as written.
pub open spec fn fmt_declarador_esp(d: SpecDeclarador) -> Seq<char>
    decreases d,
{
    punteros_delante_esp(d.punteros, fmt_declarador_base_esp(d.base))
}

/// A direct declarator as written.
pub open spec fn fmt_declarador_base_esp(b: SpecDeclaradorBase) -> Seq<char>
    decreases b,
{
    match b {
        SpecDeclaradorBase::Identificador(n) => n,
        SpecDeclaradorBase::Agrupado(d) => "("@ + fmt_declarador_esp(*d) + ")"@,
        SpecDeclaradorBase::Derivado { interno, sufijo } => match sufijo {
            SpecSufijo::Array(t) => fmt_declarador_base_esp(*interno) + "["@ + match t {
                Some(e) => fmt_expr_esp(*e),
                None => Seq::empty(),
            } + "]"@,
            SpecSufijo::Funcion(ps) => fmt_declarador_base_esp(*interno) + "("@ + unir_esp(
                fmt_parametros_esp(ps),
                ", "@,
            ) + ")"@,
        },
    }
}

/// A parameter: its specifiers and its declarator, with a space between
/// them where both are written with something.
pub open spec fn fmt_parametro_esp(p: SpecParametro) -> Seq<char>
    decreases p,
{
    let a = fmt_especificadores_esp(p.especificadores);
    match p.declarador {
        None => a,
        Some(d) => {
            let b = fmt_declarador_esp(d);
            if a.len() == 0 {
                b
            } else if b.len() == 0 {
                a
            } else {
                a + " "@ + b
            }
        },
    }
}

/// Each parameter as written.
pub open spec fn fmt_parametros_esp(s: Seq<SpecParametro>) -> Seq<Seq<char>>
    decreases s,
{
    if s.len() == 0 {
        Seq::empty()
    } else {
        fmt_parametros_esp(s.drop_last()).push(fmt_parametro_esp(s.last()))
    }
}

/// Each expression as written.
pub open spec fn fmt_exprs_esp(s: Seq<SpecExpr>) -> Seq<Seq<char>>
    decreases s,
{
    if s.len() == 0 {
        Seq::empty()
    } else {
        fmt_exprs_esp(s.drop_last()).push(fmt_expr_esp(s.last()))
    }
}

/// An expression as written, with a space around binary and assignment
/// operators and no parentheses but those of calls, casts and `sizeof(type)`.
pub open spec fn fmt_expr_esp(e: SpecExpr) -> Seq<char>
    decreases e,
{
    match e {
        SpecExpr::Literal { valor, .. } => fmt_literal_esp(valor),
        SpecExpr::Identificador { nombre, .. } => nombre,
        SpecExpr::Binaria { operador, izquierda, derecha, .. } => fmt_expr_esp(*izquierda) + " "@
            + fmt_operador_binario_esp(operador) + " "@ + fmt_expr_esp(*derecha),
        SpecExpr::Unaria { operador, operando, .. } => if operador == OperadorUnario::Incremento
            || operador == OperadorUnario::Decremento {
            fmt_expr_esp(*operando) + fmt_operador_unario_esp(operador)
        } else {
            fmt_operador_unario_esp(operador) + fmt_expr_esp(*operando)
        },
        SpecExpr::Ternaria { condicion, verdadero, falso, .. } => fmt_expr_esp(*condicion) + " ? "@
            + fmt_expr_esp(*verdadero) + " : "@ + fmt_expr_esp(*falso),
        SpecExpr::Asignacion { operador, destino, valor, .. } => fmt_expr_esp(*destino) + " "@
            + fmt_operador_asignacion_esp(operador) + " "@ + fmt_expr_esp(*valor),
        SpecExpr::Llamada { funcion, argumentos, .. } => fmt_expr_esp(*funcion) + "("@ + unir_esp(
            fmt_exprs_esp(argumentos),
            ", "@,
        ) + ")"@,
        SpecExpr::Index { arreglo, indice, .. } => fmt_expr_esp(*arreglo) + "["@ + fmt_expr_esp(
            *indice,
        ) + "]"@,
        SpecExpr::Miembro { objeto, miembro, es_puntero, .. } => fmt_expr_esp(*objeto) + (if es_puntero {
            "->"@
        } else {
            "."@
        }) + miembro,
        SpecExpr::Cast { tipo, expr, .. } => "("@ + fmt_tipo_esp(tipo) + ") "@ + fmt_expr_esp(*expr),
        SpecExpr::Sizeof { es_tipo, objetivo, .. } => {
            let s = match objetivo {
                SpecSizeofObjetivo::Expr(x) => fmt_expr_esp(*x),
                SpecSizeofObjetivo::Tipo(t) => fmt_tipo_esp(t),
            };
            if es_tipo {
                "sizeof("@ + s + ")"@
            } else {
                "sizeof "@ + s
            }
        },
    }
}

/// The specifiers as written.
fn fmt_especificadores(e: &Especificadores) -> (r: String)
    ensures
        r@ == fmt_especificadores_esp(e@),
    decreases e,
{
    let ghost ev = e@;
    let mut partes: Vec<String> = Vec::new();
    let mut i: usize = 0;
    while i < e.almacenamiento.len()
        invariant
            ev == e@,
            i <= e.almacenamiento.len(),
            vista_cadenas(partes@) == e.almacenamiento@.take(i as int).map_values(|a: Almacenamiento| fmt_almacenamiento_esp(a)),
        decreases e.almacenamiento.len() - i,
    {
        let t = fmt_almacenamiento(&e.almacenamiento[i]);
        let ghost antes = vista_cadenas(partes@);
        partes.push(t);
        proof {
            assert(e.almacenamiento@.take(i + 1).map_values(|a: Almacenamiento| fmt_almacenamiento_esp(a)) =~= antes.push(
                fmt_almacenamiento_esp(e.almacenamiento@[i as int]),
            ));
            assert(vista_cadenas(partes@) =~= antes.push(t@));
        }
        i = i + 1;
    }
    assert(e.almacenamiento@.take(i as int) =~= e.almacenamiento@);
    let ghost base = vista_cadenas(partes@);
    let mut j: usize = 0;
    while j < e.calificadores.len()
        invariant
            ev == e@,
            j <= e.calificadores.len(),
            base == e.almacenamiento@.map_values(|a: Almacenamiento| fmt_almacenamiento_esp(a)),
            vista_cadenas(partes@) == base + e.calificadores@.take(j as int).map_values(|c: Calificador| fmt_calificador_esp(c)),
        decreases e.calificadores.len() - j,
    {
        let t = fmt_calificador(&e.calificadores[j]);
        let ghost antes = vista_cadenas(partes@);
        partes.push(t);
        proof {
            assert(base + e.calificadores@.take(j + 1).map_values(|c: Calificador| fmt_calificador_esp(c)) =~= antes.push(
                fmt_calificador_esp(e.calificadores@[j as int]),
            ));
            assert(vista_cadenas(partes@) =~= antes.push(t@));
        }
        j = j + 1;
    }
    assert(e.calificadores@.take(j as int) =~= e.calificadores@);
    let ghost antes = vista_cadenas(partes@);
    match &e.tipo {
        Some(t) => {
            let s = fmt_tipo(t);
            partes.push(s);
            assert(vista_cadenas(partes@) =~= antes + seq![s@]);
        },
        None => {
            assert(antes =~= antes + Seq::<Seq<char>>::empty());
        },
    }
    unir(&partes, " ")
}

/// A type as written in C.
fn fmt_tipo(t: &Tipo) -> (r: String)
    ensures
        r@ == fmt_tipo_esp(t@),
    decreases t,
{
    match t {
        Tipo::Primitivo(p) => fmt_tipo_primitivo(*p),
        Tipo::Puntero { calificadores, apunta_a } => {
            let mut r = if calificadores.len() == 0 {
                String::new()
            } else {
                let mut c = fmt_calificadores(calificadores);
                c.append(" ");
                c
            };
            let a = fmt_tipo(apunta_a);
            r.append(a.as_str());
            r.append("*");
            r
        },
        Tipo::Array { elemento, tamano } => {
            let mut r = fmt_tipo(elemento);
            match tamano {
                Some(e) => {
                    assert(vista_expr_opt(*tamano) == Some(Box::new(vista_expr(**e))));
                    r.append("[");
                    let s = fmt_expr(e);
                    r.append(s.as_str());
                    r.append("]");
                },
                None => {
                    r.append("[]");
                },
            }
            r
        },
        Tipo::Funcion { retorno, parametros } => {
            let mut r = fmt_tipo(retorno);
            r.append("(");
            let ps = fmt_lista_parametros(parametros);
            r.append(ps.as_str());
            r.append(")");
            r
        },
        Tipo::Struct(s) => {
            assert(vista_struct_union(*s).nombre == vista_texto_opt(s.nombre));
            fmt_etiquetado("struct", &s.nombre)
        },
        Tipo::Union(s) => {
            assert(vista_struct_union(*s).nombre == vista_texto_opt(s.nombre));
            fmt_etiquetado("union", &s.nombre)
        },
        Tipo::Enum(e) => {
            assert(vista_enum(*e).nombre == vista_texto_opt(e.nombre));
            fmt_etiquetado("enum", &e.nombre)
        },
        Tipo::Nombre(n) => n.clone(),
    }
}

fn fmt_etiquetado(clave: &str, nombre: &Option<String>) -> (r: String)
    ensures
        r@ == fmt_etiquetado_esp(clave@, vista_texto_opt(*nombre)),
{
    let mut r = String::from_str(clave);
    match nombre {
        Some(n) => {
            r.append(" ");
            r.append(n.as_str());
        },
        None => {
            r.append(" { ... }");
        },
    }
    r
}

/// The parameters as written, separated by `, `.
fn fmt_lista_parametros(ps: &Vec<Parametro>) -> (r: String)
    ensures
        r@ == unir_esp(fmt_parametros_esp(vista_parametros(ps@)), ", "@),
    decreases ps,
{
    let mut partes: Vec<String> = Vec::new();
    let mut i: usize = 0;
    while i < ps.len()
        invariant
            i <= ps.len(),
            vista_cadenas(partes@) == fmt_parametros_esp(vista_parametros(ps@.take(i as int))),
        decreases ps.len() - i,
    {
        let s = fmt_parametro(&ps[i]);
        let ghost antes = vista_cadenas(partes@);
        partes.push(s);
        proof {
            assert(ps@.take(i + 1) =~= ps@.take(i as int).push(ps@[i as int]));
            lema_vista_parametros_push(ps@.take(i as int), ps@[i as int]);
            let v = vista_parametros(ps@.take(i as int));
            assert(v.push(vista_parametro(ps@[i as int])).drop_last() =~= v);
            assert(vista_cadenas(partes@) =~= antes.push(s@));
        }
        i = i + 1;
    }
    assert(ps@.take(i as int) =~= ps@);
    unir(&partes, ", ")
}

/// The expressions as written, separated by `, `.
fn fmt_lista_exprs(es: &Vec<Expr>) -> (r: String)
    ensures
        r@ == unir_esp(fmt_exprs_esp(vista_exprs(es@)), ", "@),
    decreases es,
{
    let mut partes: Vec<String> = Vec::new();
    let mut i: usize = 0;
    while i < es.len()
        invariant
            i <= es.len(),
            vista_cadenas(partes@) == fmt_exprs_esp(vista_exprs(es@.take(i as int))),
        decreases es.len() - i,
    {
        let s = fmt_expr(&es[i]);
        let ghost antes = vista_cadenas(partes@);
        partes.push(s);
        proof {
            assert(es@.take(i + 1) =~= es@.take(i as int).push(es@[i as int]));
            lema_vista_exprs_push(es@.take(i as int), es@[i as int]);
            let v = vista_exprs(es@.take(i as int));
            assert(v.push(vista_expr(es@[i as int])).drop_last() =~= v);
            assert(vista_cadenas(partes@) =~= antes.push(s@));
        }
        i = i + 1;
    }
    assert(es@.take(i as int) =~= es@);
    unir(&partes, ", ")
}

/// A declarator as written: its pointer levels, then its direct part.
fn fmt_declarador(d: &Declarador) -> (r: String)
    ensures
        r@ == fmt_declarador_esp(d@),
    decreases d,
{
    let base = fmt_declarador_base(&d.base);
    let ghost bv = base@;
    let ghost ps = vista_punteros(d.punteros@);
    let mut out = base;
    let mut i: usize = 0;
    proof {
        lema_vista_punteros(d.punteros@);
    }
    while i < d.punteros.len()
        invariant
            i <= d.punteros.len(),
            ps == vista_punteros(d.punteros@),
            ps.len() == d.punteros.len(),
            forall|j: int| 0 <= j < ps.len() ==> #[trigger] ps[j] == d.punteros@[j]@,
            out@ == punteros_delante_esp(ps.take(i as int), bv),
        decreases d.punteros.len() - i,
    {
        let mut nuevo = fmt_puntero(&d.punteros[i]);
        nuevo.append(" ");
        nuevo.append(out.as_str());
        proof {
            assert(ps.take(i + 1).drop_last() =~= ps.take(i as int));
            assert(ps.take(i + 1).last() == ps[i as int]);
        }
        out = nuevo;
        i = i + 1;
    }
    assert(ps.take(i as int) =~= ps);
    out
}

/// A direct declarator as written.
fn fmt_declarador_base(b: &DeclaradorBase) -> (r: String)
    ensures
        r@ == fmt_declarador_base_esp(b@),
    decreases b,
{
    match b {
        DeclaradorBase::Identificador(n) => n.clone(),
        DeclaradorBase::Agrupado(inner) => {
            let mut r = String::from_str("(");
            let s = fmt_declarador(inner);
            r.append(s.as_str());
            r.append(")");
            r
        },
        DeclaradorBase::Derivado { interno, sufijo } => {
            let mut r = fmt_declarador_base(interno);
            match sufijo {
                SufijoDeclarador::Array(tam) => {
                    assert(vista_sufijo(*sufijo) == SpecSufijo::Array(vista_expr_opt(*tam)));
                    r.append("[");
                    match tam {
                        Some(e) => {
                            assert(vista_expr_opt(*tam) == Some(Box::new(vista_expr(**e))));
                            let s = fmt_expr(e);
                            r.append(s.as_str());
                        },
                        None => {},
                    }
                    r.append("]");
                },
                SufijoDeclarador::Funcion(params) => {
                    assert(vista_sufijo(*sufijo) == SpecSufijo::Funcion(vista_parametros(params@)));
                    r.append("(");
                    let s = fmt_lista_parametros(params);
                    r.append(s.as_str());
                    r.append(")");
                },
            }
            r
        },
    }
}

/// A parameter as written.
fn fmt_parametro(p: &Parametro) -> (r: String)
    ensures
        r@ == fmt_parametro_esp(p@),
    decreases p,
{
    let a = fmt_especificadores(&p.especificadores);
    match &p.declarador {
        None => a,
        Some(d) => {
            let b = fmt_declarador(d);
            if a.as_str().unicode_len() == 0 {
                b
            } else if b.as_str().unicode_len() == 0 {
                a
            } else {
                let mut r = a;
                r.append(" ");
                r.append(b.as_str());
                r
            }
        },
    }
}

/// An expression as written in C.
fn fmt_expr(e: &Expr) -> (r: String)
    ensures
        r@ == fmt_expr_esp(e@),
    decreases e,
{
    match e {
        Expr::Literal { valor, .. } => fmt_literal(valor),
        Expr::Identificador { nombre, .. } => nombre.clone(),
        Expr::Binaria { operador, izquierda, derecha, .. } => {
            let mut r = fmt_expr(izquierda);
            r.append(" ");
            let o = fmt_operador_binario(*operador);
            r.append(o.as_str());
            r.append(" ");
            let d = fmt_expr(derecha);
            r.append(d.as_str());
            r
        },
        Expr::Unaria { operador, operando, .. } => {
            let x = fmt_expr(operando);
            let o = fmt_operador_unario(*operador);
            match operador {
                OperadorUnario::Incremento | OperadorUnario::Decremento => {
                    let mut r = x;
                    r.append(o.as_str());
                    r
                },
                _ => {
                    let mut r = o;
                    r.append(x.as_str());
                    r
                },
            }
        },
        Expr::Ternaria { condicion, verdadero, falso, .. } => {
            let mut r = fmt_expr(condicion);
            r.append(" ? ");
            let v = fmt_expr(verdadero);
            r.append(v.as_str());
            r.append(" : ");
            let f = fmt_expr(falso);
            r.append(f.as_str());
            r
        },
        Expr::Asignacion { operador, destino, valor, .. } => {
            let mut r = fmt_expr(destino);
            r.append(" ");
            let o = fmt_operador_asignacion(*operador);
            r.append(o.as_str());
            r.append(" ");
            let v = fmt_expr(valor);
            r.append(v.as_str());
            r
        },
        Expr::Llamada { funcion, argumentos, .. } => {
            let mut r = fmt_expr(funcion);
            r.append("(");
            let a = fmt_lista_exprs(argumentos);
            r.append(a.as_str());
            r.append(")");
            r
        },
        Expr::Index { arreglo, indice, .. } => {
            let mut r = fmt_expr(arreglo);
            r.append("[");
            let i = fmt_expr(indice);
            r.append(i.as_str());
            r.append("]");
            r
        },
        Expr::Miembro { objeto, miembro, es_puntero, .. } => {
            let mut r = fmt_expr(objeto);
            if *es_puntero {
                r.append("->");
            } else {
                r.append(".");
            }
            r.append(miembro.as_str());
            r
        },
        Expr::Cast { tipo, expr, .. } => {
            let mut r = String::from_str("(");
            let t = fmt_tipo(tipo);
            r.append(t.as_str());
            r.append(") ");
            let x = fmt_expr(expr);
            r.append(x.as_str());
            r
        },
        Expr::Sizeof { es_tipo, objetivo, .. } => {
            let s = match objetivo {
                SizeofObjetivo::Expr(x) => fmt_expr(x),
                SizeofObjetivo::Tipo(t) => fmt_tipo(t),
            };
            if *es_tipo {
                let mut r = String::from_str("sizeof(");
                r.append(s.as_str());
                r.append(")");
                r
            } else {
                let mut r = String::from_str("sizeof ");
                r.append(s.as_str());
                r
            }
        },
    }
}


// ---------------------------------------------------------------------------
// Expressions as nodes
// ---------------------------------------------------------------------------

/// Expressions that an outline spreads over sibling nodes.
pub open spec fn es_compuesta(e: SpecExpr) -> bool {
    e is Binaria || e is Unaria || e is Asignacion || e is Ternaria
}

/// The sibling nodes of an expression in reading order: operands and
/// operators of binary, unary, assignment and conditional expressions are
/// spread out (`x`, `>`, `0`), every other expression is one node.
pub open spec fn infijo_esp(e: SpecExpr) -> Seq<SpecNodo>
    decreases e, if es_compuesta(e) {
        2int
    } else {
        1int
    },
{
    match e {
        SpecExpr::Binaria { operador, izquierda, derecha, .. } => infijo_esp(*izquierda) + seq![
            hoja(fmt_operador_binario_esp(operador)),
        ] + infijo_esp(*derecha),
        SpecExpr::Unaria { operador, operando, .. } => if operador == OperadorUnario::Incremento
            || operador == OperadorUnario::Decremento {
            infijo_esp(*operando) + seq![hoja(fmt_operador_unario_esp(operador))]
        } else {
            seq![hoja(fmt_operador_unario_esp(operador))] + infijo_esp(*operando)
        },
        SpecExpr::Asignacion { operador, destino, valor, .. } => infijo_esp(*destino) + seq![
            hoja(fmt_operador_asignacion_esp(operador)),
        ] + infijo_esp(*valor),
        SpecExpr::Ternaria { condicion, verdadero, falso, .. } => infijo_esp(*condicion) + seq![
            hoja("?"@),
        ] + infijo_esp(*verdadero) + seq![hoja(":"@)] + infijo_esp(*falso),
        _ => seq![nodo_expr_compuesto_esp(e)],
    }
}

/// The node of an expression that is not spread out: a leaf for a literal
/// or a name, a subtree for a call, an index, a member, a cast or `sizeof`,
/// and an `expr` node over the spread-out form for the others.
pub open spec fn nodo_expr_compuesto_esp(e: SpecExpr) -> SpecNodo
    decreases e, if es_compuesta(e) {
        3int
    } else {
        0int
    },
{
    match e {
        SpecExpr::Literal { valor, .. } => hoja(fmt_literal_esp(valor)),
        SpecExpr::Identificador { nombre, .. } => hoja(nombre),
        SpecExpr::Llamada { funcion, argumentos, .. } => SpecNodo {
            valor: "llamada"@,
            hijos: seq![nodo_expr_compuesto_esp(*funcion)] + nodos_args_esp(argumentos),
        },
        SpecExpr::Index { arreglo, indice, .. } => SpecNodo {
            valor: "[]"@,
            hijos: seq![
                nodo_expr_compuesto_esp(*arreglo),
                SpecNodo { valor: "indice"@, hijos: infijo_esp(*indice) },
            ],
        },
        SpecExpr::Miembro { objeto, miembro, es_puntero, .. } => SpecNodo {
            valor: (if es_puntero {
                "->"@
            } else {
                "."@
            }) + miembro,
            hijos: seq![nodo_expr_compuesto_esp(*objeto)],
        },
        SpecExpr::Cast { tipo, expr, .. } => SpecNodo {
            valor: "cast "@ + fmt_tipo_esp(tipo),
            hijos: seq![SpecNodo { valor: "expr"@, hijos: infijo_esp(*expr) }],
        },
        SpecExpr::Sizeof { objetivo, .. } => SpecNodo {
            valor: "sizeof"@,
            hijos: seq![
                match objetivo {
                    SpecSizeofObjetivo::Expr(x) => SpecNodo { valor: "expr"@, hijos: infijo_esp(*x) },
                    SpecSizeofObjetivo::Tipo(t) => hoja(fmt_tipo_esp(t)),
                },
            ],
        },
        _ => SpecNodo { valor: "expr"@, hijos: infijo_esp(e) },
    }
}

/// An `arg` node over each argument, spread out.
pub open spec fn nodos_args_esp(s: Seq<SpecExpr>) -> Seq<SpecNodo>
    decreases s, 0int,
{
    if s.len() == 0 {
        Seq::empty()
    } else {
        nodos_args_esp(s.drop_last()).push(SpecNodo { valor: "arg"@, hijos: infijo_esp(s.last()) })
    }
}

/// Expressions made of names and literals with binary, assignment and
/// conditional operators only.
pub open spec fn es_plana(e: SpecExpr) -> bool
    decreases e,
{
    match e {
        SpecExpr::Literal { .. } => true,
        SpecExpr::Identificador { .. } => true,
        SpecExpr::Binaria { izquierda, derecha, .. } => es_plana(*izquierda) && es_plana(*derecha),
        SpecExpr::Asignacion { destino, valor, .. } => es_plana(*destino) && es_plana(*valor),
        SpecExpr::Ternaria { condicion, verdadero, falso, .. } => es_plana(*condicion) && es_plana(
            *verdadero,
        ) && es_plana(*falso),
        _ => false,
    }
}

/// The texts of a list of nodes.
pub open spec fn valores(ns: Seq<SpecNodo>) -> Seq<Seq<char>> {
    ns.map_values(|n: SpecNodo| n.valor)
}

/// Every expression gives at least one node.
pub proof fn lema_infijo_no_vacio(e: SpecExpr)
    ensures
        infijo_esp(e).len() > 0,
    decreases e,
{
    match e {
        SpecExpr::Binaria { izquierda, .. } => {
            lema_infijo_no_vacio(*izquierda);
        },
        SpecExpr::Unaria { .. } => {},
        SpecExpr::Asignacion { destino, .. } => {
            lema_infijo_no_vacio(*destino);
        },
        SpecExpr::Ternaria { condicion, .. } => {
            lema_infijo_no_vacio(*condicion);
        },
        _ => {},
    }
}

proof fn lema_valores_concat(a: Seq<SpecNodo>, b: Seq<SpecNodo>)
    ensures
        valores(a + b) == valores(a) + valores(b),
{
    assert(valores(a + b) =~= valores(a) + valores(b));
}

/// Spread out in reading order: the nodes of an expression made of names,
/// literals and binary, assignment and conditional operators are leaves, and
/// their texts, read left to right with a space between each two, are the
/// expression as written (`x`, `>`, `0` for `x > 0`).
pub proof fn lema_infijo_en_orden_de_lectura(e: SpecExpr)
    requires
        es_plana(e),
    ensures
        unir_esp(valores(infijo_esp(e)), " "@) == fmt_expr_esp(e),
        forall|i: int| 0 <= i < infijo_esp(e).len() ==> (#[trigger] infijo_esp(e)[i]).hijos.len() == 0,
    decreases e,
{
    let sp = " "@;
    match e {
        SpecExpr::Binaria { operador, izquierda, derecha, .. } => {
            let l = infijo_esp(*izquierda);
            let o = seq![hoja(fmt_operador_binario_esp(operador))];
            let r = infijo_esp(*derecha);
            lema_infijo_en_orden_de_lectura(*izquierda);
            lema_infijo_en_orden_de_lectura(*derecha);
            lema_infijo_no_vacio(*izquierda);
            lema_infijo_no_vacio(*derecha);
            lema_valores_concat(l, o);
            lema_valores_concat(l + o, r);
            assert(valores(o) =~= seq![fmt_operador_binario_esp(operador)]);
            lema_unir_concat(valores(l), valores(o), sp);
            lema_unir_concat(valores(l) + valores(o), valores(r), sp);
            assert(unir_esp(valores(infijo_esp(e)), sp) =~= fmt_expr_esp(e));
            assert forall|i: int| 0 <= i < infijo_esp(e).len() implies (#[trigger] infijo_esp(
                e,
            )[i]).hijos.len() == 0 by {
                if i < l.len() {
                    assert(infijo_esp(e)[i] == l[i]);
                } else if i == l.len() {
                } else {
                    assert(infijo_esp(e)[i] == r[i - l.len() - 1]);
                }
            }
        },
        SpecExpr::Asignacion { operador, destino, valor, .. } => {
            let l = infijo_esp(*destino);
            let o = seq![hoja(fmt_operador_asignacion_esp(operador))];
            let r = infijo_esp(*valor);
            lema_infijo_en_orden_de_lectura(*destino);
            lema_infijo_en_orden_de_lectura(*valor);
            lema_infijo_no_vacio(*destino);
            lema_infijo_no_vacio(*valor);
            lema_valores_concat(l, o);
            lema_valores_concat(l + o, r);
            assert(valores(o) =~= seq![fmt_operador_asignacion_esp(operador)]);
            lema_unir_concat(valores(l), valores(o), sp);
            lema_unir_concat(valores(l) + valores(o), valores(r), sp);
            assert(unir_esp(valores(infijo_esp(e)), sp) =~= fmt_expr_esp(e));
            assert forall|i: int| 0 <= i < infijo_esp(e).len() implies (#[trigger] infijo_esp(
                e,
            )[i]).hijos.len() == 0 by {
                if i < l.len() {
                    assert(infijo_esp(e)[i] == l[i]);
                } else if i == l.len() {
                } else {
                    assert(infijo_esp(e)[i] == r[i - l.len() - 1]);
                }
            }
        },
        SpecExpr::Ternaria { condicion, verdadero, falso, .. } => {
            let c = infijo_esp(*condicion);
            let q = seq![hoja("?"@)];
            let v = infijo_esp(*verdadero);
            let d = seq![hoja(":"@)];
            let f = infijo_esp(*falso);
            lema_infijo_en_orden_de_lectura(*condicion);
            lema_infijo_en_orden_de_lectura(*verdadero);
            lema_infijo_en_orden_de_lectura(*falso);
            lema_infijo_no_vacio(*condicion);
            lema_infijo_no_vacio(*verdadero);
            lema_infijo_no_vacio(*falso);
            lema_valores_concat(c, q);
            lema_valores_concat(c + q, v);
            lema_valores_concat(c + q + v, d);
            lema_valores_concat(c + q + v + d, f);
            assert(valores(q) =~= seq!["?"@]);
            assert(valores(d) =~= seq![":"@]);
            lema_unir_concat(valores(c), valores(q), sp);
            lema_unir_concat(valores(c) + valores(q), valores(v), sp);
            lema_unir_concat(valores(c) + valores(q) + valores(v), valores(d), sp);
            lema_unir_concat(valores(c) + valores(q) + valores(v) + valores(d), valores(f), sp);
            reveal_strlit(" ");
            reveal_strlit(" ? ");
            reveal_strlit(" : ");
            reveal_strlit("?");
            reveal_strlit(":");
            assert(unir_esp(valores(infijo_esp(e)), sp) =~= fmt_expr_esp(e));
            assert forall|i: int| 0 <= i < infijo_esp(e).len() implies (#[trigger] infijo_esp(
                e,
            )[i]).hijos.len() == 0 by {
                let n1 = c.len();
                let n2 = n1 + 1 + v.len();
                if i < n1 {
                    assert(infijo_esp(e)[i] == c[i]);
                } else if i == n1 {
                } else if i < n2 {
                    assert(infijo_esp(e)[i] == v[i - n1 - 1]);
                } else if i == n2 {
                } else {
                    assert(infijo_esp(e)[i] == f[i - n2 - 1]);
                }
            }
        },
        SpecExpr::Literal { valor, .. } => {
            assert(nodo_expr_compuesto_esp(e) == hoja(fmt_literal_esp(valor)));
            assert(infijo_esp(e) == seq![nodo_expr_compuesto_esp(e)]);
            assert(valores(infijo_esp(e)) =~= seq![fmt_literal_esp(valor)]);
        },
        SpecExpr::Identificador { nombre, .. } => {
            assert(nodo_expr_compuesto_esp(e) == hoja(nombre));
            assert(infijo_esp(e) == seq![nodo_expr_compuesto_esp(e)]);
            assert(valores(infijo_esp(e)) =~= seq![nombre]);
        },
        _ => {},
    }
}

/// `padre` with `hijos` added after its children.
pub open spec fn con_hijos(padre: SpecNodo, hijos: Seq<SpecNodo>) -> SpecNodo {
    SpecNodo { valor: padre.valor, hijos: padre.hijos + hijos }
}

/// Spreading an expression under a node keeps the node's text and its
/// children, in order, and appends at least one node after them: the
/// spread-out nodes of the expression, which depend on the expression alone.
pub proof fn lema_agregar_infijo(padre: SpecNodo, e: SpecExpr)
    ensures
        con_hijos(padre, infijo_esp(e)).valor == padre.valor,
        con_hijos(padre, infijo_esp(e)).hijos.len() > padre.hijos.len(),
        con_hijos(padre, infijo_esp(e)).hijos.subrange(0, padre.hijos.len() as int) == padre.hijos,
        con_hijos(padre, infijo_esp(e)).hijos.subrange(
            padre.hijos.len() as int,
            con_hijos(padre, infijo_esp(e)).hijos.len() as int,
        ) == infijo_esp(e),
{
    lema_infijo_no_vacio(e);
    let h = con_hijos(padre, infijo_esp(e)).hijos;
    assert(h.subrange(0, padre.hijos.len() as int) =~= padre.hijos);
    assert(h.subrange(padre.hijos.len() as int, h.len() as int) =~= infijo_esp(e));
}

/// Adds the nodes of `e`, spread out in reading order, after the children of
/// `padre`: its text and its children stay as they were, and at least one
/// node follows them.
pub fn agregar_expr_infix(e: &Expr, padre: &mut Nodo)
    ensures
        final(padre)@ == con_hijos(old(padre)@, infijo_esp(e@)),
        final(padre)@.valor == old(padre)@.valor,
        final(padre)@.hijos.len() > old(padre)@.hijos.len(),
        final(padre)@.hijos.subrange(0, old(padre)@.hijos.len() as int) == old(padre)@.hijos,
        final(padre)@.hijos.subrange(old(padre)@.hijos.len() as int, final(padre)@.hijos.len() as int)
            == infijo_esp(e@),
    decreases e, if es_compuesta(e@) {
        2int
    } else {
        1int
    },
{
    let ghost antes = padre@;
    match e {
        Expr::Binaria { operador, izquierda, derecha, .. } => {
            agregar_expr_infix(izquierda, padre);
            padre.agregar_hijo(Nodo::new(fmt_operador_binario(*operador)));
            agregar_expr_infix(derecha, padre);
        },
        Expr::Unaria { operador, operando, .. } => match operador {
            OperadorUnario::Incremento | OperadorUnario::Decremento => {
                agregar_expr_infix(operando, padre);
                padre.agregar_hijo(Nodo::new(fmt_operador_unario(*operador)));
            },
            _ => {
                padre.agregar_hijo(Nodo::new(fmt_operador_unario(*operador)));
                agregar_expr_infix(operando, padre);
            },
        },
        Expr::Asignacion { operador, destino, valor, .. } => {
            agregar_expr_infix(destino, padre);
            padre.agregar_hijo(Nodo::new(fmt_operador_asignacion(*operador)));
            agregar_expr_infix(valor, padre);
        },
        Expr::Ternaria { condicion, verdadero, falso, .. } => {
            agregar_expr_infix(condicion, padre);
            padre.agregar_hijo(Nodo::new(String::from_str("?")));
            agregar_expr_infix(verdadero, padre);
            padre.agregar_hijo(Nodo::new(String::from_str(":")));
            agregar_expr_infix(falso, padre);
        },
        _ => {
            let n = nodo_expr_compuesto(e);
            padre.agregar_hijo(n);
        },
    }
    assert(padre@.hijos =~= antes.hijos + infijo_esp(e@));
    proof {
        lema_agregar_infijo(antes, e@);
    }
}

/// The node of an expression that is not spread out.
fn nodo_expr_compuesto(e: &Expr) -> (r: Nodo)
    ensures
        r@ == nodo_expr_compuesto_esp(e@),
    decreases e, if es_compuesta(e@) {
        3int
    } else {
        0int
    },
{
    match e {
        Expr::Literal { valor, .. } => Nodo::new(fmt_literal(valor)),
        Expr::Identificador { nombre, .. } => Nodo::new(nombre.clone()),
        Expr::Llamada { funcion, argumentos, .. } => {
            let mut n = Nodo::new(String::from_str("llamada"));
            n.agregar_hijo(nodo_expr_compuesto(funcion));
            agregar_args(argumentos, &mut n);
            assert(n@.hijos =~= seq![nodo_expr_compuesto_esp(vista_expr(**funcion))]
                + nodos_args_esp(vista_exprs(argumentos@)));
            n
        },
        Expr::Index { arreglo, indice, .. } => {
            let mut n = Nodo::new(String::from_str("[]"));
            n.agregar_hijo(nodo_expr_compuesto(arreglo));
            let mut idx = Nodo::new(String::from_str("indice"));
            agregar_expr_infix(indice, &mut idx);
            n.agregar_hijo(idx);
            assert(n@.hijos =~= seq![
                nodo_expr_compuesto_esp(vista_expr(**arreglo)),
                SpecNodo { valor: "indice"@, hijos: infijo_esp(vista_expr(**indice)) },
            ]);
            n
        },
        Expr::Miembro { objeto, miembro, es_puntero, .. } => {
            let mut op = if *es_puntero {
                String::from_str("->")
            } else {
                String::from_str(".")
            };
            op.append(miembro.as_str());
            let mut n = Nodo::new(op);
            n.agregar_hijo(nodo_expr_compuesto(objeto));
            assert(n@.hijos =~= seq![nodo_expr_compuesto_esp(vista_expr(**objeto))]);
            n
        },
        Expr::Cast { tipo, expr, .. } => {
            let mut valor = String::from_str("cast ");
            let t = fmt_tipo(tipo);
            valor.append(t.as_str());
            let mut n = Nodo::new(valor);
            let mut inner = Nodo::new(String::from_str("expr"));
            agregar_expr_infix(expr, &mut inner);
            n.agregar_hijo(inner);
            assert(n@.hijos =~= seq![SpecNodo { valor: "expr"@, hijos: infijo_esp(vista_expr(**expr)) }]);
            n
        },
        Expr::Sizeof { objetivo, .. } => {
            let mut n = Nodo::new(String::from_str("sizeof"));
            match objetivo {
                SizeofObjetivo::Expr(x) => {
                    let mut inner = Nodo::new(String::from_str("expr"));
                    agregar_expr_infix(x, &mut inner);
                    n.agregar_hijo(inner);
                },
                SizeofObjetivo::Tipo(t) => {
                    n.agregar_hijo(Nodo::new(fmt_tipo(t)));
                },
            }
            assert(n@.hijos =~= nodo_expr_compuesto_esp(e@).hijos);
            n
        },
        _ => {
            let mut n = Nodo::new(String::from_str("expr"));
            agregar_expr_infix(e, &mut n);
            assert(n@.hijos =~= infijo_esp(e@));
            n
        },
    }
}

/// Adds an `arg` node for each argument after the children of `n`.
fn agregar_args(args: &Vec<Expr>, n: &mut Nodo)
    ensures
        final(n)@ == con_hijos(old(n)@, nodos_args_esp(vista_exprs(args@))),
    decreases args, 0int,
{
    let ghost antes = n@;
    let mut i: usize = 0;
    while i < args.len()
        invariant
            i <= args.len(),
            n@ == con_hijos(antes, nodos_args_esp(vista_exprs(args@.take(i as int)))),
        decreases args.len() - i,
    {
        let mut arg = Nodo::new(String::from_str("arg"));
        agregar_expr_infix(&args[i], &mut arg);
        n.agregar_hijo(arg);
        proof {
            assert(args@.take(i + 1) =~= args@.take(i as int).push(args@[i as int]));
            lema_vista_exprs_push(args@.take(i as int), args@[i as int]);
            let v = vista_exprs(args@.take(i as int));
            assert(v.push(vista_expr(args@[i as int])).drop_last() =~= v);
            assert(n@.hijos =~= antes.hijos + nodos_args_esp(vista_exprs(args@.take(i + 1))));
        }
        i = i + 1;
    }
    assert(args@.take(i as int) =~= args@);
}


// ---------------------------------------------------------------------------
// Declarations and statements as nodes
// ---------------------------------------------------------------------------

/// The node, if there is one, as a list of zero or one nodes.
pub open spec fn opt_nodo(o: Option<SpecNodo>) -> Seq<SpecNodo> {
    match o {
        Some(n) => seq![n],
        None => Seq::empty(),
    }
}

pub open spec fn vista_nodo_opt(o: Option<Nodo>) -> Option<SpecNodo> {
    match o {
        Some(n) => Some(n@),
        None => None,
    }
}

/// The nodes of an optional expression, spread out.
pub open spec fn infijo_opt_esp(o: Option<Box<SpecExpr>>) -> Seq<SpecNodo> {
    match o {
        Some(e) => infijo_esp(*e),
        None => Seq::empty(),
    }
}

/// A node named `valor` over the spread-out nodes of an expression.
pub open spec fn nodo_con_infijo_esp(valor: Seq<char>, e: SpecExpr) -> SpecNodo {
    SpecNodo { valor, hijos: infijo_esp(e) }
}

/// A declarator, under `Decl: `, with a node for its initialiser.
pub open spec fn nodo_init_decl_esp(i: SpecInitDeclarador) -> SpecNodo {
    SpecNodo {
        valor: "Decl: "@ + fmt_declarador_esp(i.declarador),
        hijos: match i.inicializador {
            Some(x) => seq![nodo_inicializador_esp(x)],
            None => Seq::empty(),
        },
    }
}

/// The node of each declarator of a declaration.
pub open spec fn nodos_init_decls_esp(s: Seq<SpecInitDeclarador>) -> Seq<SpecNodo> {
    s.map_values(|i: SpecInitDeclarador| nodo_init_decl_esp(i))
}

/// An initialiser: `=` over an expression, spread out, or `Lista` over the
/// node of each element.
pub open spec fn nodo_inicializador_esp(i: SpecInicializador) -> SpecNodo
    decreases i,
{
    match i {
        SpecInicializador::Expr(e) => nodo_con_infijo_esp("="@, *e),
        SpecInicializador::Lista(items) => SpecNodo {
            valor: "Lista"@,
            hijos: nodos_inicializadores_esp(items),
        },
    }
}

pub open spec fn nodos_inicializadores_esp(s: Seq<SpecInicializador>) -> Seq<SpecNodo>
    decreases s,
{
    if s.len() == 0 {
        Seq::empty()
    } else {
        nodos_inicializadores_esp(s.drop_last()).push(nodo_inicializador_esp(s.last()))
    }
}

/// A label as written: its name, its `case` expression or `default`.
pub open spec fn fmt_etiqueta_esp(e: SpecEtiqueta) -> Seq<char> {
    match e {
        SpecEtiqueta::Identificador(n) => n,
        SpecEtiqueta::Case(x) => fmt_expr_esp(*x),
        SpecEtiqueta::Default => "default"@,
    }
}

/// The first part of a `for` header, under `init`.
pub open spec fn nodo_for_init_esp(f: SpecForInit) -> SpecNodo {
    match f {
        SpecForInit::Expr(e) => SpecNodo { valor: "init"@, hijos: infijo_opt_esp(e) },
        SpecForInit::Declaracion(d) => SpecNodo {
            valor: "init"@,
            hijos: nodos_init_decls_esp(d.declaradores),
        },
    }
}

/// The node of a statement; an empty block, or a compound statement that is
/// one, has none.
pub open spec fn nodo_sentencia_esp(s: SpecSentencia) -> Option<SpecNodo>
    decreases s,
{
    match s {
        SpecSentencia::Compuesta(b) => nodo_bloque_opt_esp(b),
        SpecSentencia::Expr { expr, .. } => Some(
            SpecNodo { valor: "ExprStmt"@, hijos: infijo_opt_esp(expr) },
        ),
        SpecSentencia::Seleccion(sel) => match sel {
            SpecSeleccion::If { condicion, entonces, sino, .. } => Some(
                SpecNodo {
                    valor: "If"@,
                    hijos: seq![nodo_con_infijo_esp("condicion"@, *condicion)] + opt_nodo(
                        nodo_sentencia_esp(*entonces),
                    ) + match sino {
                        Some(x) => opt_nodo(nodo_sentencia_esp(*x)),
                        None => Seq::empty(),
                    },
                },
            ),
            SpecSeleccion::Switch { condicion, cuerpo, .. } => Some(
                SpecNodo {
                    valor: "Switch"@,
                    hijos: seq![nodo_con_infijo_esp("condicion"@, *condicion)] + opt_nodo(
                        nodo_sentencia_esp(*cuerpo),
                    ),
                },
            ),
        },
        SpecSentencia::Iteracion(it) => match it {
            SpecIteracion::While { condicion, cuerpo, .. } => Some(
                SpecNodo {
                    valor: "While"@,
                    hijos: seq![nodo_con_infijo_esp("condicion"@, *condicion)] + opt_nodo(
                        nodo_sentencia_esp(*cuerpo),
                    ),
                },
            ),
            SpecIteracion::DoWhile { cuerpo, condicion, .. } => Some(
                SpecNodo {
                    valor: "DoWhile"@,
                    hijos: opt_nodo(nodo_sentencia_esp(*cuerpo)) + seq![
                        nodo_con_infijo_esp("condicion"@, *condicion),
                    ],
                },
            ),
            SpecIteracion::For { init, condicion, incremento, cuerpo, .. } => Some(
                SpecNodo {
                    valor: "For"@,
                    hijos: match init {
                        Some(f) => seq![nodo_for_init_esp(f)],
                        None => Seq::empty(),
                    } + match condicion {
                        Some(c) => seq![nodo_con_infijo_esp("condicion"@, *c)],
                        None => Seq::empty(),
                    } + match incremento {
                        Some(x) => seq![nodo_con_infijo_esp("incremento"@, *x)],
                        None => Seq::empty(),
                    } + opt_nodo(nodo_sentencia_esp(*cuerpo)),
                },
            ),
        },
        SpecSentencia::Salto(sa) => match sa {
            SpecSalto::Retornar { valor, .. } => Some(
                SpecNodo { valor: "Return"@, hijos: infijo_opt_esp(valor) },
            ),
            SpecSalto::Romper { .. } => Some(hoja("Break"@)),
            SpecSalto::Continuar { .. } => Some(hoja("Continue"@)),
            SpecSalto::Goto { etiqueta, .. } => Some(hoja("Goto: "@ + etiqueta)),
        },
        SpecSentencia::Etiquetada { etiqueta, sentencia, .. } => Some(
            SpecNodo {
                valor: "Etiqueta: "@ + fmt_etiqueta_esp(etiqueta),
                hijos: opt_nodo(nodo_sentencia_esp(*sentencia)),
            },
        ),
    }
}

/// The node of a block: none for an empty block, else `Bloque` over the
/// declarators of its declarations and the nodes of its statements, in
/// order.
pub open spec fn nodo_bloque_opt_esp(b: SpecBloque) -> Option<SpecNodo>
    decreases b,
{
    if b.items.len() == 0 {
        None
    } else {
        Some(SpecNodo { valor: "Bloque"@, hijos: hijos_items_esp(b.items) })
    }
}

pub open spec fn hijos_items_esp(s: Seq<SpecItemBloque>) -> Seq<SpecNodo>
    decreases s,
{
    if s.len() == 0 {
        Seq::empty()
    } else {
        hijos_items_esp(s.drop_last()) + match s.last() {
            SpecItemBloque::Declaracion(d) => nodos_init_decls_esp(d.declaradores),
            SpecItemBloque::Sentencia(st) => opt_nodo(nodo_sentencia_esp(st)),
        }
    }
}

/// A function definition (`Función: ` and its declarator, over its
/// specifiers and its body), or a declaration (`Declaración: ` and its
/// specifiers, over its declarators).
pub open spec fn nodo_decl_externa_esp(d: SpecDeclExterna) -> SpecNodo {
    match d {
        SpecDeclExterna::Funcion(f) => SpecNodo {
            valor: "Función: "@ + fmt_declarador_esp(f.declarador),
            hijos: seq![hoja("Especificadores: "@ + fmt_especificadores_esp(f.especificadores))]
                + opt_nodo(nodo_bloque_opt_esp(f.cuerpo)),
        },
        SpecDeclExterna::Declaracion(d) => SpecNodo {
            valor: "Declaración: "@ + fmt_especificadores_esp(d.especificadores),
            hijos: nodos_init_decls_esp(d.declaradores),
        },
    }
}

/// The tree of a program: `Programa` over the node of each external
/// declaration.
pub open spec fn arbol_programa_esp(p: SpecPrograma) -> SpecNodo {
    SpecNodo {
        valor: "Programa"@,
        hijos: p.declaraciones.map_values(|d: SpecDeclExterna| nodo_decl_externa_esp(d)),
    }
}

/// The printed outline of a program.
pub open spec fn texto_programa(p: SpecPrograma) -> Seq<char> {
    texto_arbol(arbol_programa_esp(p))
}

/// A block without items has no node, so an empty block never shows in an
/// outline; a block with items has one.
pub proof fn lema_bloque_vacio_sin_nodo(b: SpecBloque)
    ensures
        nodo_bloque_opt_esp(b) is None <==> b.items.len() == 0,
{
}

/// The tree of a program has one child under its root for each external
/// declaration, in order.
pub proof fn lema_un_hijo_por_declaracion(p: SpecPrograma)
    ensures
        arbol_programa_esp(p).valor == "Programa"@,
        arbol_programa_esp(p).hijos.len() == p.declaraciones.len(),
        forall|i: int|
            0 <= i < p.declaraciones.len() ==> #[trigger] arbol_programa_esp(p).hijos[i]
                == nodo_decl_externa_esp(p.declaraciones[i]),
{
}

/// A node named `valor` over the nodes of `e`, spread out.
fn nodo_con_infijo(valor: &str, e: &Expr) -> (r: Nodo)
    ensures
        r@ == nodo_con_infijo_esp(valor@, e@),
{
    let mut n = Nodo::new(String::from_str(valor));
    agregar_expr_infix(e, &mut n);
    assert(n@.hijos =~= infijo_esp(e@));
    n
}

/// Adds the nodes of an optional expression, spread out.
fn agregar_infijo_opt(e: &Option<Box<Expr>>, padre: &mut Nodo)
    ensures
        final(padre)@ == con_hijos(old(padre)@, infijo_opt_esp(vista_expr_opt(*e))),
{
    match e {
        Some(x) => {
            agregar_expr_infix(x, padre);
        },
        None => {
            assert(padre@.hijos =~= padre@.hijos + Seq::<SpecNodo>::empty());
        },
    }
}

/// Adds the node, if there is one.
fn agregar_opt(o: Option<Nodo>, padre: &mut Nodo)
    ensures
        final(padre)@ == con_hijos(old(padre)@, opt_nodo(vista_nodo_opt(o))),
{
    match o {
        Some(n) => {
            let ghost antes = padre@;
            padre.agregar_hijo(n);
            assert(padre@.hijos =~= antes.hijos + seq![n@]);
        },
        None => {
            assert(padre@.hijos =~= padre@.hijos + Seq::<SpecNodo>::empty());
        },
    }
}

/// A declarator, under `Decl: `, with a node for its initialiser.
fn nodo_init_decl(init: &InitDeclarador) -> (r: Nodo)
    ensures
        r@ == nodo_init_decl_esp(init@),
{
    let mut valor = String::from_str("Decl: ");
    let d = fmt_declarador(&init.declarador);
    valor.append(d.as_str());
    let mut n = Nodo::new(valor);
    match &init.inicializador {
        Some(i) => {
            n.agregar_hijo(nodo_inicializador(i));
            assert(n@.hijos =~= seq![nodo_inicializador_esp(i@)]);
        },
        None => {},
    }
    n
}

/// Adds the node of each declarator.
fn agregar_init_decls(ds: &Vec<InitDeclarador>, padre: &mut Nodo)
    ensures
        final(padre)@ == con_hijos(old(padre)@, nodos_init_decls_esp(vista_init_declaradores(ds@))),
{
    let ghost antes = padre@;
    let mut i: usize = 0;
    while i < ds.len()
        invariant
            i <= ds.len(),
            padre@ == con_hijos(antes, nodos_init_decls_esp(vista_init_declaradores(ds@.take(i as int)))),
        decreases ds.len() - i,
    {
        padre.agregar_hijo(nodo_init_decl(&ds[i]));
        proof {
            assert(ds@.take(i + 1) =~= ds@.take(i as int).push(ds@[i as int]));
            lema_vista_init_declaradores_push(ds@.take(i as int), ds@[i as int]);
            let v = vista_init_declaradores(ds@.take(i as int));
            assert(nodos_init_decls_esp(v.push(vista_init_declarador(ds@[i as int]))) =~= nodos_init_decls_esp(v).push(
                nodo_init_decl_esp(vista_init_declarador(ds@[i as int])),
            ));
            assert(padre@.hijos =~= antes.hijos + nodos_init_decls_esp(
                vista_init_declaradores(ds@.take(i + 1)),
            ));
        }
        i = i + 1;
    }
    assert(ds@.take(i as int) =~= ds@);
}

/// An initialiser as a node.
fn nodo_inicializador(init: &Inicializador) -> (r: Nodo)
    ensures
        r@ == nodo_inicializador_esp(init@),
    decreases init,
{
    match init {
        Inicializador::Expr(e) => nodo_con_infijo("=", e),
        Inicializador::Lista(items) => {
            let mut n = Nodo::new(String::from_str("Lista"));
            let mut i: usize = 0;
            while i < items.len()
                invariant
                    *init == Inicializador::Lista(*items),
                    i <= items.len(),
                    n@ == (SpecNodo {
                        valor: "Lista"@,
                        hijos: nodos_inicializadores_esp(vista_inicializadores(items@.take(i as int))),
                    }),
                decreases items.len() - i,
            {
                assert(decreases_to!(*init => init->Lista_0));
                n.agregar_hijo(nodo_inicializador(&items[i]));
                proof {
                    assert(items@.take(i + 1) =~= items@.take(i as int).push(items@[i as int]));
                    lema_vista_inicializadores_push(items@.take(i as int), items@[i as int]);
                    let v = vista_inicializadores(items@.take(i as int));
                    assert(v.push(vista_inicializador(items@[i as int])).drop_last() =~= v);
                }
                i = i + 1;
            }
            assert(items@.take(i as int) =~= items@);
            n
        },
    }
}

/// A label as written.
fn fmt_etiqueta(e: &Etiqueta) -> (r: String)
    ensures
        r@ == fmt_etiqueta_esp(e@),
{
    match e {
        Etiqueta::Identificador(n) => n.clone(),
        Etiqueta::Case(x) => fmt_expr(x),
        Etiqueta::Default => String::from_str("default"),
    }
}

/// The first part of a `for` header as a node.
fn nodo_for_init(init: &ForInit) -> (r: Nodo)
    ensures
        r@ == nodo_for_init_esp(init@),
{
    let mut n = Nodo::new(String::from_str("init"));
    match init {
        ForInit::Expr(e) => {
            agregar_infijo_opt(e, &mut n);
        },
        ForInit::Declaracion(d) => {
            agregar_init_decls(&d.declaradores, &mut n);
        },
    }
    assert(n@.hijos =~= nodo_for_init_esp(init@).hijos);
    n
}

/// The node of a statement, if it has one.
fn nodo_sentencia(s: &Sentencia) -> (r: Option<Nodo>)
    ensures
        vista_nodo_opt(r) == nodo_sentencia_esp(s@),
    decreases s,
{
    match s {
        Sentencia::Compuesta(b) => nodo_bloque_opt(b),
        Sentencia::Expr { expr, .. } => {
            let mut n = Nodo::new(String::from_str("ExprStmt"));
            agregar_infijo_opt(expr, &mut n);
            assert(n@.hijos =~= infijo_opt_esp(vista_expr_opt(*expr)));
            Some(n)
        },
        Sentencia::Seleccion(sel) => {
            assert(s@ == SpecSentencia::Seleccion(vista_seleccion(*sel)));
            match sel {
                Seleccion::If { condicion, entonces, sino, .. } => {
                    let mut n = Nodo::new(String::from_str("If"));
                    n.agregar_hijo(nodo_con_infijo("condicion", condicion));
                    agregar_opt(nodo_sentencia(entonces), &mut n);
                    match sino {
                        Some(x) => {
                            assert(vista_sentencia_opt(*sino) == Some(Box::new(vista_sentencia(**x))));
                            agregar_opt(nodo_sentencia(x), &mut n);
                        },
                        None => {},
                    }
                    assert(n@.hijos =~= nodo_sentencia_esp(s@)->0.hijos);
                    Some(n)
                },
                Seleccion::Switch { condicion, cuerpo, .. } => {
                    let mut n = Nodo::new(String::from_str("Switch"));
                    n.agregar_hijo(nodo_con_infijo("condicion", condicion));
                    agregar_opt(nodo_sentencia(cuerpo), &mut n);
                    assert(n@.hijos =~= nodo_sentencia_esp(s@)->0.hijos);
                    Some(n)
                },
            }
        },
        Sentencia::Iteracion(it) => {
            assert(s@ == SpecSentencia::Iteracion(vista_iteracion(*it)));
            match it {
                Iteracion::While { condicion, cuerpo, .. } => {
                    let mut n = Nodo::new(String::from_str("While"));
                    n.agregar_hijo(nodo_con_infijo("condicion", condicion));
                    agregar_opt(nodo_sentencia(cuerpo), &mut n);
                    assert(n@.hijos =~= nodo_sentencia_esp(s@)->0.hijos);
                    Some(n)
                },
                Iteracion::DoWhile { cuerpo, condicion, .. } => {
                    let mut n = Nodo::new(String::from_str("DoWhile"));
                    agregar_opt(nodo_sentencia(cuerpo), &mut n);
                    n.agregar_hijo(nodo_con_infijo("condicion", condicion));
                    assert(n@.hijos =~= nodo_sentencia_esp(s@)->0.hijos);
                    Some(n)
                },
                Iteracion::For { init, condicion, incremento, cuerpo, .. } => {
                    let mut n = Nodo::new(String::from_str("For"));
                    match init {
                        Some(f) => {
                            n.agregar_hijo(nodo_for_init(f));
                        },
                        None => {},
                    }
                    match condicion {
                        Some(c) => {
                            assert(vista_expr_opt(*condicion) == Some(Box::new(vista_expr(**c))));
                            n.agregar_hijo(nodo_con_infijo("condicion", c));
                        },
                        None => {},
                    }
                    match incremento {
                        Some(x) => {
                            assert(vista_expr_opt(*incremento) == Some(Box::new(vista_expr(**x))));
                            n.agregar_hijo(nodo_con_infijo("incremento", x));
                        },
                        None => {},
                    }
                    agregar_opt(nodo_sentencia(cuerpo), &mut n);
                    assert(n@.hijos =~= nodo_sentencia_esp(s@)->0.hijos);
                    Some(n)
                },
            }
        },
        Sentencia::Salto(sa) => {
            assert(s@ == SpecSentencia::Salto(vista_salto(*sa)));
            match sa {
                Salto::Retornar { valor, .. } => {
                    let mut n = Nodo::new(String::from_str("Return"));
                    agregar_infijo_opt(valor, &mut n);
                    assert(n@.hijos =~= nodo_sentencia_esp(s@)->0.hijos);
                    Some(n)
                },
                Salto::Romper { .. } => Some(Nodo::new(String::from_str("Break"))),
                Salto::Continuar { .. } => Some(Nodo::new(String::from_str("Continue"))),
                Salto::Goto { etiqueta, .. } => {
                    let mut valor = String::from_str("Goto: ");
                    valor.append(etiqueta.as_str());
                    Some(Nodo::new(valor))
                },
            }
        },
        Sentencia::Etiquetada { etiqueta, sentencia, .. } => {
            let mut valor = String::from_str("Etiqueta: ");
            let t = fmt_etiqueta(etiqueta);
            valor.append(t.as_str());
            let mut n = Nodo::new(valor);
            agregar_opt(nodo_sentencia(sentencia), &mut n);
            assert(n@.hijos =~= nodo_sentencia_esp(s@)->0.hijos);
            Some(n)
        },
    }
}

/// The node of a block, if it has items.
fn nodo_bloque_opt(b: &Bloque) -> (r: Option<Nodo>)
    ensures
        vista_nodo_opt(r) == nodo_bloque_opt_esp(b@),
    decreases b,
{
    if b.items.len() == 0 {
        return None;
    }
    let mut n = Nodo::new(String::from_str("Bloque"));
    let mut i: usize = 0;
    while i < b.items.len()
        invariant
            i <= b.items.len(),
            n@ == (SpecNodo {
                valor: "Bloque"@,
                hijos: hijos_items_esp(vista_items(b.items@.take(i as int))),
            }),
        decreases b.items.len() - i,
    {
        let ghost antes = n@;
        match &b.items[i] {
            ItemBloque::Declaracion(d) => {
                agregar_init_decls(&d.declaradores, &mut n);
            },
            ItemBloque::Sentencia(s) => {
                agregar_opt(nodo_sentencia(s), &mut n);
            },
        }
        proof {
            assert(b.items@.take(i + 1) =~= b.items@.take(i as int).push(b.items@[i as int]));
            lema_vista_items_push(b.items@.take(i as int), b.items@[i as int]);
            let v = vista_items(b.items@.take(i as int));
            assert(v.push(vista_item(b.items@[i as int])).drop_last() =~= v);
        }
        i = i + 1;
    }
    assert(b.items@.take(i as int) =~= b.items@);
    Some(n)
}

/// The node of an external declaration.
fn nodo_decl_externa(decl: &DeclExterna) -> (r: Nodo)
    ensures
        r@ == nodo_decl_externa_esp(decl@),
{
    match decl {
        DeclExterna::Funcion(f) => {
            let mut valor = String::from_str("Función: ");
            let d = fmt_declarador(&f.declarador);
            valor.append(d.as_str());
            let mut n = Nodo::new(valor);
            let mut esp = String::from_str("Especificadores: ");
            let e = fmt_especificadores(&f.especificadores);
            esp.append(e.as_str());
            n.agregar_hijo(Nodo::new(esp));
            agregar_opt(nodo_bloque_opt(&f.cuerpo), &mut n);
            assert(n@.hijos =~= nodo_decl_externa_esp(decl@).hijos);
            n
        },
        DeclExterna::Declaracion(d) => {
            let mut valor = String::from_str("Declaración: ");
            let e = fmt_especificadores(&d.especificadores);
            valor.append(e.as_str());
            let mut n = Nodo::new(valor);
            agregar_init_decls(&d.declaradores, &mut n);
            assert(n@.hijos =~= nodo_decl_externa_esp(decl@).hijos);
            n
        },
    }
}

/// The tree of a program: `Programa` over a node for each external
/// declaration, in order.
pub fn ast_a_arbol(programa: &Programa) -> (r: Arbol)
    ensures
        r@ == arbol_programa_esp(programa@),
{
    let mut arbol = Arbol::con_raiz(String::from_str("Programa"));
    let ghost ds = vista_decls_externas(programa.declaraciones@);
    proof {
        lema_vista_decls_externas(programa.declaraciones@);
    }
    assert(ds.take(0).map_values(|d: SpecDeclExterna| nodo_decl_externa_esp(d)) =~= Seq::<
        SpecNodo,
    >::empty());
    let mut i: usize = 0;
    while i < programa.declaraciones.len()
        invariant
            i <= programa.declaraciones.len(),
            ds == vista_decls_externas(programa.declaraciones@),
            ds.len() == programa.declaraciones.len(),
            forall|j: int| 0 <= j < ds.len() ==> #[trigger] ds[j] == programa.declaraciones@[j]@,
            arbol@ == (SpecNodo {
                valor: "Programa"@,
                hijos: ds.take(i as int).map_values(|d: SpecDeclExterna| nodo_decl_externa_esp(d)),
            }),
        decreases programa.declaraciones.len() - i,
    {
        arbol.raiz.agregar_hijo(nodo_decl_externa(&programa.declaraciones[i]));
        proof {
            assert(ds.take(i + 1).map_values(|d: SpecDeclExterna| nodo_decl_externa_esp(d)) =~= ds.take(
                i as int,
            ).map_values(|d: SpecDeclExterna| nodo_decl_externa_esp(d)).push(
                nodo_decl_externa_esp(ds[i as int]),
            ));
        }
        i = i + 1;
    }
    assert(ds.take(i as int) =~= ds);
    arbol
}

impl Programa {
    /// The outline of the program's tree, one node per line (what
    /// `Display` prints for a program).
    pub fn to_string(&self) -> (r: String)
        ensures
            r@ == texto_programa(self@),
    {
        ast_a_arbol(self).to_repr()
    }
}


// ---------------------------------------------------------------------------
// Laws of writing
// ---------------------------------------------------------------------------

/// How an operator token is spelt in C.
pub open spec fn grafia(k: TipoToken) -> Seq<char> {
    match k {
        TipoToken::Mas => "+"@,
        TipoToken::Menos => "-"@,
        TipoToken::Asterisco => "*"@,
        TipoToken::Barra => "/"@,
        TipoToken::Porcentaje => "%"@,
        TipoToken::Menor => "<"@,
        TipoToken::Mayor => ">"@,
        TipoToken::MenorIgual => "<="@,
        TipoToken::MayorIgual => ">="@,
        TipoToken::Igual => "=="@,
        TipoToken::Distinto => "!="@,
        TipoToken::YLogico => "&&"@,
        TipoToken::OLogico => "||"@,
        TipoToken::YBit => "&"@,
        TipoToken::OBit => "|"@,
        TipoToken::XorBit => "^"@,
        TipoToken::DesplazarIzq => "<<"@,
        TipoToken::DesplazarDer => ">>"@,
        TipoToken::Negacion => "!"@,
        TipoToken::Complemento => "~"@,
        TipoToken::Incremento => "++"@,
        TipoToken::Decremento => "--"@,
        TipoToken::Asignar => "="@,
        TipoToken::MasAsignar => "+="@,
        TipoToken::MenosAsignar => "-="@,
        TipoToken::AsteriscoAsignar => "*="@,
        TipoToken::BarraAsignar => "/="@,
        TipoToken::PorcentajeAsignar => "%="@,
        _ => Seq::empty(),
    }
}

/// Writing an operator gives back the token it was read from: for every
/// token that the grammar reads as a binary, unary or assignment operator,
/// the operator is written as that token is spelt.
pub proof fn lema_operador_escrito_como_su_token(k: TipoToken)
    ensures
        forall|nivel: NivelBinario|
            es_operador_de(nivel, k) ==> fmt_operador_binario_esp(
                #[trigger] operador_binario_de(k, nivel),
            ) == grafia(k),
        operador_relacional_de(k) matches Some(o) ==> fmt_operador_binario_esp(o) == grafia(k),
        operador_aditivo_de(k) matches Some(o) ==> fmt_operador_binario_esp(o) == grafia(k),
        operador_multiplicativo_de(k) matches Some(o) ==> fmt_operador_binario_esp(o) == grafia(k),
        operador_unario_de(k) matches Some(o) ==> fmt_operador_unario_esp(o) == grafia(k),
        operador_asignacion_de(k) matches Some(o) ==> fmt_operador_asignacion_esp(o) == grafia(k),
{
}

/// Distinct binary operators are written differently.
pub proof fn lema_operadores_binarios_distintos(o1: OperadorBinario, o2: OperadorBinario)
    ensures
        fmt_operador_binario_esp(o1) == fmt_operador_binario_esp(o2) ==> o1 == o2,
{
    reveal_strlit("+");
    reveal_strlit("-");
    reveal_strlit("*");
    reveal_strlit("/");
    reveal_strlit("%");
    reveal_strlit("<");
    reveal_strlit(">");
    reveal_strlit("<=");
    reveal_strlit(">=");
    reveal_strlit("==");
    reveal_strlit("!=");
    reveal_strlit("&&");
    reveal_strlit("||");
    reveal_strlit("&");
    reveal_strlit("|");
    reveal_strlit("^");
    reveal_strlit("<<");
    reveal_strlit(">>");
    if fmt_operador_binario_esp(o1) == fmt_operador_binario_esp(o2) {
        let a = fmt_operador_binario_esp(o1);
        let b = fmt_operador_binario_esp(o2);
        assert(a.len() == b.len());
        assert(a[0] == b[0]);
        if a.len() > 1 {
            assert(a[1] == b[1]);
        }
    }
}

/// The statements directly inside a statement: the branches of an `if`,
/// the body of a `switch`, a loop or a label.
pub open spec fn subsentencias(s: SpecSentencia) -> Seq<SpecSentencia> {
    match s {
        SpecSentencia::Seleccion(SpecSeleccion::If { entonces, sino, .. }) => seq![*entonces] + match sino {
            Some(x) => seq![*x],
            None => Seq::empty(),
        },
        SpecSentencia::Seleccion(SpecSeleccion::Switch { cuerpo, .. }) => seq![*cuerpo],
        SpecSentencia::Iteracion(SpecIteracion::While { cuerpo, .. }) => seq![*cuerpo],
        SpecSentencia::Iteracion(SpecIteracion::DoWhile { cuerpo, .. }) => seq![*cuerpo],
        SpecSentencia::Iteracion(SpecIteracion::For { cuerpo, .. }) => seq![*cuerpo],
        SpecSentencia::Etiquetada { sentencia, .. } => seq![*sentencia],
        _ => Seq::empty(),
    }
}

/// No statement with a node of its own is left out of the outline: the
/// node of every statement directly inside another one is a child of that
/// statement's node.
pub proof fn lema_subsentencias_en_el_esquema(s: SpecSentencia, i: int)
    requires
        0 <= i < subsentencias(s).len(),
        nodo_sentencia_esp(subsentencias(s)[i]) is Some,
    ensures
        nodo_sentencia_esp(s) is Some,
        nodo_sentencia_esp(s)->0.hijos.contains(nodo_sentencia_esp(subsentencias(s)[i])->0),
{
    let n = nodo_sentencia_esp(subsentencias(s)[i])->0;
    match s {
        SpecSentencia::Seleccion(SpecSeleccion::If { condicion, entonces, sino, .. }) => {
            let h = nodo_sentencia_esp(s)->0.hijos;
            let e = opt_nodo(nodo_sentencia_esp(*entonces));
            if i == 0 {
                assert(h[1] == n);
            } else {
                assert(h[h.len() - 1] == n);
            }
        },
        SpecSentencia::Seleccion(SpecSeleccion::Switch { .. }) => {
            assert(nodo_sentencia_esp(s)->0.hijos[1] == n);
        },
        SpecSentencia::Iteracion(SpecIteracion::While { .. }) => {
            assert(nodo_sentencia_esp(s)->0.hijos[1] == n);
        },
        SpecSentencia::Iteracion(SpecIteracion::DoWhile { .. }) => {
            assert(nodo_sentencia_esp(s)->0.hijos[0] == n);
        },
        SpecSentencia::Iteracion(SpecIteracion::For { .. }) => {
            let h = nodo_sentencia_esp(s)->0.hijos;
            assert(h[h.len() - 1] == n);
        },
        SpecSentencia::Etiquetada { .. } => {
            assert(nodo_sentencia_esp(s)->0.hijos[0] == n);
        },
        _ => {},
    }
}

/// The node of an `if` shows both branches: the condition first, then the
/// node of the branch taken when it holds, if it has one, and last the node
/// of the `else` branch, if there is one and it has a node.
pub proof fn lema_if_con_sus_ramas(
    posicion: Posicion,
    condicion: SpecExpr,
    entonces: SpecSentencia,
    sino: Option<Box<SpecSentencia>>,
)
    ensures
        ({
            let s = SpecSentencia::Seleccion(
                SpecSeleccion::If {
                    posicion,
                    condicion: Box::new(condicion),
                    entonces: Box::new(entonces),
                    sino,
                },
            );
            let h = nodo_sentencia_esp(s)->0.hijos;
            let ne = opt_nodo(nodo_sentencia_esp(entonces)).len();
            &&& nodo_sentencia_esp(s) is Some
            &&& h[0].valor == "condicion"@
            &&& h.len() == 1 + ne + match sino {
                Some(x) => opt_nodo(nodo_sentencia_esp(*x)).len(),
                None => 0,
            }
            &&& (nodo_sentencia_esp(entonces) matches Some(n) ==> h[1] == n)
            &&& (sino matches Some(x) ==> (nodo_sentencia_esp(*x) is Some ==> h[h.len() - 1]
                == nodo_sentencia_esp(*x)->0))
        }),
{
}

/// The node of a block shows every statement of it that has a node.
pub proof fn lema_bloque_muestra_sus_sentencias(b: SpecBloque, i: int)
    requires
        0 <= i < b.items.len(),
        b.items[i] matches SpecItemBloque::Sentencia(st) && nodo_sentencia_esp(st) is Some,
    ensures
        nodo_bloque_opt_esp(b) is Some,
        nodo_bloque_opt_esp(b)->0.hijos.contains(
            nodo_sentencia_esp(b.items[i]->Sentencia_0)->0,
        ),
{
    lema_items_muestran_sus_sentencias(b.items, i);
}

proof fn lema_items_muestran_sus_sentencias(s: Seq<SpecItemBloque>, i: int)
    requires
        0 <= i < s.len(),
        s[i] matches SpecItemBloque::Sentencia(st) && nodo_sentencia_esp(st) is Some,
    ensures
        hijos_items_esp(s).contains(nodo_sentencia_esp(s[i]->Sentencia_0)->0),
    decreases s.len(),
{
    let n = nodo_sentencia_esp(s[i]->Sentencia_0)->0;
    let a = hijos_items_esp(s.drop_last());
    let b = match s.last() {
        SpecItemBloque::Declaracion(d) => nodos_init_decls_esp(d.declaradores),
        SpecItemBloque::Sentencia(st) => opt_nodo(nodo_sentencia_esp(st)),
    };
    assert(hijos_items_esp(s) == a + b);
    if i == s.len() - 1 {
        assert((a + b)[a.len() as int] == n);
    } else {
        assert(s.drop_last()[i] == s[i]);
        lema_items_muestran_sus_sentencias(s.drop_last(), i);
        let j = choose|j: int| 0 <= j < a.len() && a[j] == n;
        assert((a + b)[j] == n);
    }
}

} // verus!
