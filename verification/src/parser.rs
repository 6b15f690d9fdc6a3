//! Recursive-descent syntactic analyser: reads tokens into the syntax tree.
//!
//! Every reading function does exactly what the function of the same name in
//! `gramatica` says of the tokens and the position where it starts.

use crate::ast::{
    Bloque, Calificador, DeclExterna, Declaracion, Declarador, DeclaradorBase, EnumSpec, Enumerador, Especificadores, Etiqueta, Expr, ForInit, FuncionDef, Inicializador, InitDeclarador, ItemBloque, Iteracion, Literal, OperadorAsignacion, OperadorUnario, Parametro, Programa, Puntero, Salto, Seleccion, Sentencia, SizeofObjetivo, SpecBloque, SpecDeclExterna, SpecDeclaracion, SpecDeclarador, SpecDeclaradorBase, SpecEnum, SpecEnumerador, SpecEspecificadores, SpecEtiqueta, SpecExpr, SpecForInit, SpecFuncionDef, SpecInicializador, SpecInitDeclarador, SpecItemBloque, SpecIteracion, SpecParametro, SpecPrograma, SpecSalto, SpecSeleccion, SpecSentencia, SpecStructUnion, SpecSufijo, SpecTipo, StructUnionSpec, SufijoDeclarador, Tipo, TipoPrimitivo, lema_vista_declaraciones_push, lema_vista_decls_externas_push, lema_vista_enumeradores_push, lema_vista_exprs_push, lema_vista_inicializadores_push, lema_vista_init_declaradores_push, lema_vista_items_push, lema_vista_parametros_push, lema_vista_punteros_push, vista_bloque, vista_declaraciones, vista_decls_externas, vista_enum, vista_enumeradores, vista_expr_opt, vista_exprs, vista_for_init, vista_inicializadores, vista_init_declarador, vista_init_declaradores, vista_item, vista_items, vista_iteracion, vista_parametros, vista_punteros, vista_seleccion, vista_sentencia_opt, vista_struct_union, vista_sufijo, vista_texto_opt,
};
use crate::error::{ErrorParseo, Resultado};
use crate::gramatica::{
    Avance, Contexto, Falla, NivelBinario, almacenamiento_de, avanzar, calificador_de, calificadores_puntero, coincide, desplegar_sp_aditiva, desplegar_sp_aditiva_desde, desplegar_sp_argumentos, desplegar_sp_asignacion, desplegar_sp_binaria, desplegar_sp_binaria_desde, desplegar_sp_bloque, desplegar_sp_condicion, desplegar_sp_decl_externa, desplegar_sp_declaracion, desplegar_sp_declarador, desplegar_sp_declarador_directo, desplegar_sp_do_while, desplegar_sp_enum, desplegar_sp_enumeradores, desplegar_sp_especificadores, desplegar_sp_especificadores_desde, desplegar_sp_etiquetada, desplegar_sp_expr_hasta, desplegar_sp_expresion, desplegar_sp_for, desplegar_sp_for_init, desplegar_sp_goto, desplegar_sp_if, desplegar_sp_inicializador, desplegar_sp_inicializador_opt, desplegar_sp_init_declaradores, desplegar_sp_items, desplegar_sp_lista_argumentos, desplegar_sp_lista_inicializadores, desplegar_sp_miembro, desplegar_sp_miembros, desplegar_sp_multiplicativa, desplegar_sp_multiplicativa_desde, desplegar_sp_operando, desplegar_sp_parametros, desplegar_sp_parametros_desde, desplegar_sp_parametros_tras, desplegar_sp_postfija, desplegar_sp_postfija_desde, desplegar_sp_primaria, desplegar_sp_programa_desde, desplegar_sp_punteros, desplegar_sp_relacional, desplegar_sp_relacional_desde, desplegar_sp_return, desplegar_sp_salto_simple, desplegar_sp_sentencia, desplegar_sp_sentencia_expr, desplegar_sp_struct_union, desplegar_sp_sufijos, desplegar_sp_switch, desplegar_sp_tamano, desplegar_sp_ternario, desplegar_sp_tipo, desplegar_sp_tipo_punteros, desplegar_sp_unaria, desplegar_sp_valor_enumerador, desplegar_sp_while, error_aqui, error_del_texto, error_token, es_cast, es_etiqueta, es_fin, es_inicio_decl_bloque, es_inicio_declarador, es_inicio_tipo, es_operador_de, esperar, leer_calificadores, lema_programa_sin_tokens, linea_de, mirar, operador_aditivo_de, operador_asignacion_de, operador_binario_de, operador_multiplicativo_de, operador_relacional_de, operador_unario_de, pos_actual, saltar_bom, saltar_linea, saltar_preprocesador, sp_aditiva, sp_aditiva_desde, sp_argumentos, sp_asignacion, sp_binaria, sp_binaria_desde, sp_bloque, sp_condicion, sp_decl_externa, sp_declaracion, sp_declarador, sp_declarador_directo, sp_do_while, sp_enum, sp_enumeradores, sp_especificadores, sp_especificadores_desde, sp_etiquetada, sp_expr_hasta, sp_expresion, sp_for, sp_for_init, sp_goto, sp_if, sp_inicializador, sp_inicializador_opt, sp_init_declaradores, sp_items, sp_lista_argumentos, sp_lista_inicializadores, sp_miembros, sp_multiplicativa, sp_multiplicativa_desde, sp_operando, sp_parametros, sp_parametros_desde, sp_postfija, sp_postfija_desde, sp_primaria, sp_programa, sp_programa_desde, sp_punteros, sp_relacional, sp_relacional_desde, sp_return, sp_salto_simple, sp_sentencia, sp_sentencia_expr, sp_struct_union, sp_sufijos, sp_switch, sp_ternario, sp_tipo, sp_tipo_punteros, sp_unaria, sp_while, tipo_actual, tipo_primitivo_de, tipo_struct_union, token_actual,
};
use crate::origen::lema_errores_del_programa;
use crate::texto::{dividir_lineas, lineas_esp, vista_cadenas};
use crate::token::{nombre_tipo, valor_de, Posicion, TipoToken, Token};
use vstd::prelude::*;

verus! {

/// Why reading stopped: a syntax error, or an attempt to take a token past
/// the last one.
pub enum FallaParseo {
    Sintaxis(ErrorParseo),
    FueraDeRango,
}

impl View for FallaParseo {
    type V = Falla;

    open spec fn view(&self) -> Falla {
        match self {
            FallaParseo::Sintaxis(e) => Falla::Sintaxis(e@),
            FallaParseo::FueraDeRango => Falla::FueraDeRango,
        }
    }
}

/// Ranks of the reading functions of a level: a level reads its operands at
/// the next level down.
spec fn rango_lectura(nivel: NivelBinario) -> int {
    match nivel {
        NivelBinario::OLogico => 96,
        NivelBinario::YLogico => 93,
        NivelBinario::OBit => 90,
        NivelBinario::XorBit => 87,
        NivelBinario::YBit => 84,
        NivelBinario::Igualdad => 81,
        NivelBinario::Desplazamiento => 77,
    }
}

/// `r` is what `s` says, its value seen through `vista`, reading having
/// stopped at `pos`.
pub open spec fn resulta<T: View>(r: Result<T, FallaParseo>, pos: int, s: Avance<T::V>) -> bool {
    match r {
        Ok(v) => s == Ok::<(T::V, int), Falla>((v@, pos)),
        Err(f) => s == Err::<(T::V, int), Falla>(f@),
    }
}

/// `r` is what `s` says of a list of expressions.
pub open spec fn resulta_exprs(r: Result<Vec<Expr>, FallaParseo>, pos: int, s: Avance<Seq<SpecExpr>>) -> bool {
    match r {
        Ok(v) => s == Ok::<(Seq<SpecExpr>, int), Falla>((vista_exprs(v@), pos)),
        Err(f) => s == Err::<(Seq<SpecExpr>, int), Falla>(f@),
    }
}

/// `r` is what `s` says of a list of parameters.
pub open spec fn resulta_parametros(
    r: Result<Vec<Parametro>, FallaParseo>,
    pos: int,
    s: Avance<Seq<SpecParametro>>,
) -> bool {
    match r {
        Ok(v) => s == Ok::<(Seq<SpecParametro>, int), Falla>((vista_parametros(v@), pos)),
        Err(f) => s == Err::<(Seq<SpecParametro>, int), Falla>(f@),
    }
}

/// `r` is what `s` says of a list of declarators with initialisers.
pub open spec fn resulta_init_declaradores(
    r: Result<Vec<InitDeclarador>, FallaParseo>,
    pos: int,
    s: Avance<Seq<SpecInitDeclarador>>,
) -> bool {
    match r {
        Ok(v) => s == Ok::<(Seq<SpecInitDeclarador>, int), Falla>(
            (vista_init_declaradores(v@), pos),
        ),
        Err(f) => s == Err::<(Seq<SpecInitDeclarador>, int), Falla>(f@),
    }
}

pub open spec fn vista_inicializador_opt(o: Option<Inicializador>) -> Option<SpecInicializador> {
    match o {
        Some(i) => Some(i@),
        None => None,
    }
}

pub open spec fn vista_for_init_opt(o: Option<ForInit>) -> Option<SpecForInit> {
    match o {
        Some(fi) => Some(vista_for_init(fi)),
        None => None,
    }
}

/// `r` is what `s` says of an optional initialiser.
pub open spec fn resulta_inicializador_opt(
    r: Result<Option<Inicializador>, FallaParseo>,
    pos: int,
    s: Avance<Option<SpecInicializador>>,
) -> bool {
    match r {
        Ok(v) => s == Ok::<(Option<SpecInicializador>, int), Falla>((vista_inicializador_opt(v), pos)),
        Err(f) => s == Err::<(Option<SpecInicializador>, int), Falla>(f@),
    }
}

/// The syntactic analyser: the tokens, where it stands among them, and the
/// lines of the source text where it was given.
pub struct AnalizadorSintactico {
    tokens: Vec<Token>,
    pos: usize,
    lineas: Option<Vec<String>>,
}

impl AnalizadorSintactico {
    /// What the analyser reads.
    pub closed spec fn contexto(&self) -> Contexto {
        Contexto {
            tokens: self.tokens@,
            lineas: match self.lineas {
                Some(v) => Some(vista_cadenas(v@)),
                None => None,
            },
        }
    }

    /// Where the analyser stands among the tokens.
    pub closed spec fn posicion(&self) -> int {
        self.pos as int
    }

    spec fn listo(&self) -> bool {
        self.tokens.len() > 0 && self.pos <= self.tokens.len()
    }

    /// Reading has gone on from `antes`: same tokens and lines, not backwards.
    spec fn sigue(&self, antes: Self) -> bool {
        &&& self.tokens@ == antes.tokens@
        &&& self.lineas == antes.lineas
        &&& self.contexto() == antes.contexto()
        &&& antes.pos <= self.pos <= self.tokens.len()
    }

    /// An analyser at the first of `tokens`, without the source text.
    pub fn new(tokens: Vec<Token>) -> (r: Self)
        ensures
            r.contexto() == (Contexto { tokens: tokens@, lineas: None }),
            r.posicion() == 0,
    {
        Self { tokens, pos: 0, lineas: None }
    }

    /// An analyser at the first of `tokens`, which came from `fuente`: its
    /// errors show the source line.
    pub fn con_fuente(tokens: Vec<Token>, fuente: &str) -> (r: Self)
        ensures
            r.contexto() == (Contexto { tokens: tokens@, lineas: Some(lineas_esp(fuente@)) }),
            r.posicion() == 0,
    {
        let lineas = dividir_lineas(fuente);
        Self { tokens, pos: 0, lineas: Some(lineas) }
    }

    // -----------------------------------------------------------------------
    // Looking at and taking tokens
    // -----------------------------------------------------------------------

    fn actual(&self) -> (t: &Token)
        requires
            self.listo(),
        ensures
            *t == token_actual(self.contexto(), self.pos as int),
    {
        let i = if self.pos < self.tokens.len() {
            self.pos
        } else {
            self.tokens.len() - 1
        };
        &self.tokens[i]
    }

    fn tipo_actual(&self) -> (k: TipoToken)
        requires
            self.listo(),
        ensures
            k == tipo_actual(self.contexto(), self.pos as int),
    {
        self.actual().tipo
    }

    fn pos_actual(&self) -> (p: Posicion)
        requires
            self.listo(),
        ensures
            p == pos_actual(self.contexto(), self.pos as int),
    {
        self.actual().posicion
    }

    fn es_fin(&self) -> (r: bool)
        ensures
            r == es_fin(self.contexto(), self.pos as int),
    {
        self.pos >= self.tokens.len()
    }

    fn avanzar(&mut self) -> (r: Result<(), FallaParseo>)
        requires
            old(self).listo(),
        ensures
            final(self).sigue(*old(self)),
            final(self).listo(),
            match avanzar(old(self).contexto(), old(self).pos as int) {
                Ok(q) => r is Ok && final(self).pos == q,
                Err(f) => r matches Err(g) && g@ == f,
            },
    {
        if self.pos < self.tokens.len() {
            self.pos = self.pos + 1;
            Ok(())
        } else {
            Err(FallaParseo::FueraDeRango)
        }
    }

    /// Takes the current token and gives its lexeme (empty if it has none).
    fn tomar_valor(&mut self) -> (r: Result<String, FallaParseo>)
        requires
            old(self).listo(),
        ensures
            final(self).sigue(*old(self)),
            final(self).listo(),
            match avanzar(old(self).contexto(), old(self).pos as int) {
                Ok(q) => r matches Ok(v) && final(self).pos == q && v@ == valor_de(
                    old(self).tokens@[old(self).pos as int],
                ),
                Err(f) => r matches Err(g) && g@ == f,
            },
    {
        if self.pos < self.tokens.len() {
            let v = match &self.tokens[self.pos].valor {
                Some(s) => s.clone(),
                None => String::new(),
            };
            self.pos = self.pos + 1;
            Ok(v)
        } else {
            Err(FallaParseo::FueraDeRango)
        }
    }

    fn mirar(&self, offset: usize) -> (r: Option<&Token>)
        ensures
            match mirar(self.contexto(), self.pos as int, offset as int) {
                Some(t) => r matches Some(u) && *u == t,
                None => r is None,
            },
    {
        if offset < self.tokens.len() && self.pos < self.tokens.len() - offset {
            Some(&self.tokens[self.pos + offset])
        } else {
            None
        }
    }

    fn coincide(&self, tipo: TipoToken) -> (r: bool)
        requires
            self.listo(),
        ensures
            r == coincide(self.contexto(), self.pos as int, tipo),
    {
        !self.es_fin() && self.actual().tipo == tipo
    }

    /// The line `linea` of the source text, if the analyser has it.
    fn linea_fuente(&self, linea: usize) -> (r: Option<String>)
        ensures
            vista_texto_opt(r) == linea_de(self.contexto(), linea),
    {
        match &self.lineas {
            Some(ls) => {
                if 1 <= linea && linea <= ls.len() {
                    let l = ls[linea - 1].clone();
                    Some(l)
                } else {
                    None
                }
            },
            None => None,
        }
    }

    /// An error at `posicion`, expecting `esperado`, having found `t`.
    fn error_token(&self, posicion: Posicion, esperado: String, t: &Token) -> (f: FallaParseo)
        ensures
            f@ == error_token(self.contexto(), posicion, esperado@, *t),
    {
        reveal(error_token);
        let linea = self.linea_fuente(posicion.linea);
        FallaParseo::Sintaxis(ErrorParseo::token_inesperado(posicion, esperado, t, linea))
    }

    /// An error at the current token, expecting `esperado`.
    fn error_aqui(&self, esperado: String) -> (f: FallaParseo)
        requires
            self.listo(),
        ensures
            f@ == error_aqui(self.contexto(), self.pos as int, esperado@),
    {
        reveal(error_aqui);
        let posicion = self.pos_actual();
        self.error_token(posicion, esperado, self.actual())
    }

    fn esperar(&mut self, tipo: TipoToken) -> (r: Result<(), FallaParseo>)
        requires
            old(self).listo(),
        ensures
            final(self).sigue(*old(self)),
            final(self).listo(),
            match esperar(old(self).contexto(), old(self).pos as int, tipo) {
                Ok(q) => r is Ok && final(self).pos == q,
                Err(f) => r matches Err(g) && g@ == f,
            },
    {
        if self.coincide(tipo) {
            self.pos = self.pos + 1;
            Ok(())
        } else {
            Err(self.error_aqui(nombre_tipo(tipo)))
        }
    }

    // -----------------------------------------------------------------------
    // Types and qualifiers
    // -----------------------------------------------------------------------

    /// Consecutive tokens of kind `k`, each adding `cal` to `acc`.
    fn leer_calificadores(&mut self, k: TipoToken, cal: Calificador, acc: &mut Vec<Calificador>)
        requires
            old(self).listo(),
        ensures
            final(self).sigue(*old(self)),
            final(self).listo(),
            (final(acc)@, final(self).pos as int) == leer_calificadores(
                old(self).contexto(),
                old(self).pos as int,
                k,
                cal,
                old(acc)@,
            ),
    {
        while self.coincide(k)
            invariant
                self.sigue(*old(self)),
                self.listo(),
                leer_calificadores(self.contexto(), self.pos as int, k, cal, acc@)
                    == leer_calificadores(
                    old(self).contexto(),
                    old(self).pos as int,
                    k,
                    cal,
                    old(acc)@,
                ),
            decreases self.tokens.len() - self.pos,
        {
            acc.push(cal);
            self.pos = self.pos + 1;
        }
    }

    /// The qualifiers after a `*`.
    fn calificadores_puntero(&mut self) -> (r: Vec<Calificador>)
        requires
            old(self).listo(),
        ensures
            final(self).sigue(*old(self)),
            final(self).listo(),
            (r@, final(self).pos as int) == calificadores_puntero(
                old(self).contexto(),
                old(self).pos as int,
            ),
    {
        let mut cal = Vec::new();
        self.leer_calificadores(TipoToken::Const, Calificador::Const, &mut cal);
        self.leer_calificadores(TipoToken::Volatile, Calificador::Volatile, &mut cal);
        cal
    }

    fn parse_tipo(&mut self) -> (r: Result<Tipo, FallaParseo>)
        requires
            old(self).listo(),
        ensures
            final(self).sigue(*old(self)),
            final(self).listo(),
            resulta(
                r,
                final(self).pos as int,
                sp_tipo(old(self).contexto(), old(self).pos as int),
            ),
    {
        proof {
            desplegar_sp_tipo(self.contexto(), self.pos as int);
        }
        let ghost c = self.contexto();
        if self.coincide(TipoToken::Identificador) {
            let nombre = self.tomar_valor()?;
            return Ok(Tipo::Nombre(nombre));
        }
        if self.es_fin() {
            return Err(FallaParseo::FueraDeRango);
        }
        let k = self.tokens[self.pos].tipo;
        self.pos = self.pos + 1;
        let prim = match tipo_primitivo_de(k) {
            Some(prim) => prim,
            None => {
                let posicion = self.pos_actual();
                return Err(
                    self.error_token(
                        posicion,
                        String::from_str("tipo primitivo"),
                        &self.tokens[self.pos - 1],
                    ),
                );
            },
        };
        let es_long_doble = match prim {
            TipoPrimitivo::Long | TipoPrimitivo::Double => true,
            _ => false,
        };
        if self.coincide(TipoToken::Long) && es_long_doble {
            self.pos = self.pos + 1;
        }
        let ghost q0 = self.pos as int;
        let mut tipo = Tipo::Primitivo(prim);
        while self.coincide(TipoToken::Asterisco)
            invariant
                self.sigue(*old(self)),
                self.contexto() == c,
                c == old(self).contexto(),
                self.listo(),
                sp_tipo_punteros(c, self.pos as int, tipo@) == sp_tipo_punteros(
                    c,
                    q0,
                    SpecTipo::Primitivo(prim),
                ),
            decreases self.tokens.len() - self.pos,
        {
            proof {
                desplegar_sp_tipo_punteros(c, self.pos as int, tipo@);
            }
            let ghost antes = tipo@;
            self.pos = self.pos + 1;
            let cal = self.calificadores_puntero();
            tipo = Tipo::Puntero { calificadores: cal, apunta_a: Box::new(tipo) };
            assert(tipo@ == (SpecTipo::Puntero { calificadores: cal@, apunta_a: Box::new(antes) }));
        }
        proof {
            desplegar_sp_tipo_punteros(c, self.pos as int, tipo@);
        }
        Ok(tipo)
    }

    // -----------------------------------------------------------------------
    // Expressions
    // -----------------------------------------------------------------------

    fn parse_expresion(&mut self) -> (r: Result<Expr, FallaParseo>)
        requires
            old(self).listo(),
        ensures
            final(self).sigue(*old(self)),
            final(self).listo(),
            r is Ok ==> old(self).pos < final(self).pos,
            resulta(
                r,
                final(self).pos as int,
                sp_expresion(old(self).contexto(), old(self).pos as int),
            ),
        decreases old(self).tokens.len() - old(self).pos, 100int,
    {
        proof {
            desplegar_sp_expresion(self.contexto(), self.pos as int);
        }
        self.parse_asignacion()
    }

    fn parse_asignacion(&mut self) -> (r: Result<Expr, FallaParseo>)
        requires
            old(self).listo(),
        ensures
            final(self).sigue(*old(self)),
            final(self).listo(),
            r is Ok ==> old(self).pos < final(self).pos,
            resulta(
                r,
                final(self).pos as int,
                sp_asignacion(old(self).contexto(), old(self).pos as int),
            ),
        decreases old(self).tokens.len() - old(self).pos, 99int,
    {
        proof {
            desplegar_sp_asignacion(self.contexto(), self.pos as int);
        }
        let mut expr = self.parse_ternario()?;
        if let Some(op) = self.operador_asignacion() {
            let pos = self.pos_actual();
            self.avanzar()?;
            let valor = Box::new(self.parse_asignacion()?);
            expr = Expr::Asignacion { posicion: pos, operador: op, destino: Box::new(expr), valor };
        }
        Ok(expr)
    }

    fn operador_asignacion(&self) -> (r: Option<OperadorAsignacion>)
        requires
            self.listo(),
        ensures
            r == operador_asignacion_de(tipo_actual(self.contexto(), self.pos as int)),
    {
        operador_asignacion_de(self.tipo_actual())
    }

    fn parse_ternario(&mut self) -> (r: Result<Expr, FallaParseo>)
        requires
            old(self).listo(),
        ensures
            final(self).sigue(*old(self)),
            final(self).listo(),
            r is Ok ==> old(self).pos < final(self).pos,
            resulta(
                r,
                final(self).pos as int,
                sp_ternario(old(self).contexto(), old(self).pos as int),
            ),
        decreases old(self).tokens.len() - old(self).pos, 98int,
    {
        proof {
            desplegar_sp_ternario(self.contexto(), self.pos as int);
        }
        let mut expr = self.parse_o_logico()?;
        if self.coincide(TipoToken::Interrogacion) {
            let pos = self.pos_actual();
            self.avanzar()?;
            let verdadero = Box::new(self.parse_expresion()?);
            self.esperar(TipoToken::DosPuntos)?;
            let falso = Box::new(self.parse_ternario()?);
            expr = Expr::Ternaria { posicion: pos, condicion: Box::new(expr), verdadero, falso };
        }
        Ok(expr)
    }

    fn parse_o_logico(&mut self) -> (r: Result<Expr, FallaParseo>)
        requires
            old(self).listo(),
        ensures
            final(self).sigue(*old(self)),
            final(self).listo(),
            r is Ok ==> old(self).pos < final(self).pos,
            resulta(
                r,
                final(self).pos as int,
                sp_binaria(old(self).contexto(), old(self).pos as int, NivelBinario::OLogico),
            ),
        decreases old(self).tokens.len() - old(self).pos, 97int,
    {
        self.parse_binaria(NivelBinario::OLogico)
    }

    fn parse_y_logico(&mut self) -> (r: Result<Expr, FallaParseo>)
        requires
            old(self).listo(),
        ensures
            final(self).sigue(*old(self)),
            final(self).listo(),
            r is Ok ==> old(self).pos < final(self).pos,
            resulta(
                r,
                final(self).pos as int,
                sp_binaria(old(self).contexto(), old(self).pos as int, NivelBinario::YLogico),
            ),
        decreases old(self).tokens.len() - old(self).pos, 94int,
    {
        self.parse_binaria(NivelBinario::YLogico)
    }

    fn parse_o_bit(&mut self) -> (r: Result<Expr, FallaParseo>)
        requires
            old(self).listo(),
        ensures
            final(self).sigue(*old(self)),
            final(self).listo(),
            r is Ok ==> old(self).pos < final(self).pos,
            resulta(
                r,
                final(self).pos as int,
                sp_binaria(old(self).contexto(), old(self).pos as int, NivelBinario::OBit),
            ),
        decreases old(self).tokens.len() - old(self).pos, 91int,
    {
        self.parse_binaria(NivelBinario::OBit)
    }

    fn parse_xor_bit(&mut self) -> (r: Result<Expr, FallaParseo>)
        requires
            old(self).listo(),
        ensures
            final(self).sigue(*old(self)),
            final(self).listo(),
            r is Ok ==> old(self).pos < final(self).pos,
            resulta(
                r,
                final(self).pos as int,
                sp_binaria(old(self).contexto(), old(self).pos as int, NivelBinario::XorBit),
            ),
        decreases old(self).tokens.len() - old(self).pos, 88int,
    {
        self.parse_binaria(NivelBinario::XorBit)
    }

    fn parse_y_bit(&mut self) -> (r: Result<Expr, FallaParseo>)
        requires
            old(self).listo(),
        ensures
            final(self).sigue(*old(self)),
            final(self).listo(),
            r is Ok ==> old(self).pos < final(self).pos,
            resulta(
                r,
                final(self).pos as int,
                sp_binaria(old(self).contexto(), old(self).pos as int, NivelBinario::YBit),
            ),
        decreases old(self).tokens.len() - old(self).pos, 85int,
    {
        self.parse_binaria(NivelBinario::YBit)
    }

    fn parse_igualdad(&mut self) -> (r: Result<Expr, FallaParseo>)
        requires
            old(self).listo(),
        ensures
            final(self).sigue(*old(self)),
            final(self).listo(),
            r is Ok ==> old(self).pos < final(self).pos,
            resulta(
                r,
                final(self).pos as int,
                sp_binaria(old(self).contexto(), old(self).pos as int, NivelBinario::Igualdad),
            ),
        decreases old(self).tokens.len() - old(self).pos, 82int,
    {
        self.parse_binaria(NivelBinario::Igualdad)
    }

    fn parse_desplazamiento(&mut self) -> (r: Result<Expr, FallaParseo>)
        requires
            old(self).listo(),
        ensures
            final(self).sigue(*old(self)),
            final(self).listo(),
            r is Ok ==> old(self).pos < final(self).pos,
            resulta(
                r,
                final(self).pos as int,
                sp_binaria(old(self).contexto(), old(self).pos as int, NivelBinario::Desplazamiento),
            ),
        decreases old(self).tokens.len() - old(self).pos, 78int,
    {
        self.parse_binaria(NivelBinario::Desplazamiento)
    }

    /// An operand of a level: an expression of the next level down.
    fn parse_siguiente(&mut self, nivel: NivelBinario) -> (r: Result<Expr, FallaParseo>)
        requires
            old(self).listo(),
        ensures
            final(self).sigue(*old(self)),
            final(self).listo(),
            r is Ok ==> old(self).pos < final(self).pos,
            resulta(
                r,
                final(self).pos as int,
                sp_operando(old(self).contexto(), old(self).pos as int, nivel),
            ),
        decreases old(self).tokens.len() - old(self).pos, rango_lectura(nivel) - 1,
    {
        proof {
            desplegar_sp_operando(self.contexto(), self.pos as int, nivel);
        }
        match nivel {
            NivelBinario::OLogico => self.parse_y_logico(),
            NivelBinario::YLogico => self.parse_o_bit(),
            NivelBinario::OBit => self.parse_xor_bit(),
            NivelBinario::XorBit => self.parse_y_bit(),
            NivelBinario::YBit => self.parse_igualdad(),
            NivelBinario::Igualdad => self.parse_relacional(),
            NivelBinario::Desplazamiento => self.parse_aditiva(),
        }
    }

    /// Operands of the next level down with the operators of `nivel` between
    /// them, grouped to the left.
    fn parse_binaria(&mut self, nivel: NivelBinario) -> (r: Result<Expr, FallaParseo>)
        requires
            old(self).listo(),
        ensures
            final(self).sigue(*old(self)),
            final(self).listo(),
            r is Ok ==> old(self).pos < final(self).pos,
            resulta(
                r,
                final(self).pos as int,
                sp_binaria(old(self).contexto(), old(self).pos as int, nivel),
            ),
        decreases old(self).tokens.len() - old(self).pos, rango_lectura(nivel),
    {
        proof {
            desplegar_sp_binaria(self.contexto(), self.pos as int, nivel);
        }
        let ghost c = self.contexto();
        let ghost p0 = self.pos as int;
        let mut expr = self.parse_siguiente(nivel)?;
        while es_operador_de(nivel, self.tipo_actual())
            invariant
                self.sigue(*old(self)),
                self.contexto() == c,
                c == old(self).contexto(),
                p0 == old(self).pos as int,
                self.listo(),
                p0 < self.pos,
                sp_binaria(c, p0, nivel) == sp_binaria_desde(c, self.pos as int, nivel, expr@),
            decreases self.tokens.len() - self.pos,
        {
            proof {
                desplegar_sp_binaria_desde(c, self.pos as int, nivel, expr@);
            }
            let op = operador_binario_de(self.tipo_actual(), nivel);
            let pos = self.pos_actual();
            self.avanzar()?;
            let derecha = self.parse_siguiente(nivel)?;
            expr = Expr::Binaria {
                posicion: pos,
                operador: op,
                izquierda: Box::new(expr),
                derecha: Box::new(derecha),
            };
        }
        proof {
            desplegar_sp_binaria_desde(c, self.pos as int, nivel, expr@);
        }
        Ok(expr)
    }

    fn parse_relacional(&mut self) -> (r: Result<Expr, FallaParseo>)
        requires
            old(self).listo(),
        ensures
            final(self).sigue(*old(self)),
            final(self).listo(),
            r is Ok ==> old(self).pos < final(self).pos,
            resulta(
                r,
                final(self).pos as int,
                sp_relacional(old(self).contexto(), old(self).pos as int),
            ),
        decreases old(self).tokens.len() - old(self).pos, 79int,
    {
        proof {
            desplegar_sp_relacional(self.contexto(), self.pos as int);
        }
        let ghost c = self.contexto();
        let ghost p0 = self.pos as int;
        let mut expr = self.parse_desplazamiento()?;
        loop
            invariant
                self.sigue(*old(self)),
                self.contexto() == c,
                c == old(self).contexto(),
                p0 == old(self).pos as int,
                self.listo(),
                p0 < self.pos,
                sp_relacional(c, p0) == sp_relacional_desde(c, self.pos as int, expr@),
            ensures
                self.sigue(*old(self)),
                self.listo(),
                p0 < self.pos,
                sp_relacional(c, p0) == Ok::<(SpecExpr, int), Falla>((expr@, self.pos as int)),
            decreases self.tokens.len() - self.pos,
        {
            proof {
                desplegar_sp_relacional_desde(c, self.pos as int, expr@);
            }
            let op = match operador_relacional_de(self.tipo_actual()) {
                Some(op) => op,
                None => break,
            };
            let pos = self.pos_actual();
            self.avanzar()?;
            let derecha = self.parse_desplazamiento()?;
            expr = Expr::Binaria {
                posicion: pos,
                operador: op,
                izquierda: Box::new(expr),
                derecha: Box::new(derecha),
            };
        }
        Ok(expr)
    }

    fn parse_aditiva(&mut self) -> (r: Result<Expr, FallaParseo>)
        requires
            old(self).listo(),
        ensures
            final(self).sigue(*old(self)),
            final(self).listo(),
            r is Ok ==> old(self).pos < final(self).pos,
            resulta(
                r,
                final(self).pos as int,
                sp_aditiva(old(self).contexto(), old(self).pos as int),
            ),
        decreases old(self).tokens.len() - old(self).pos, 75int,
    {
        proof {
            desplegar_sp_aditiva(self.contexto(), self.pos as int);
        }
        let ghost c = self.contexto();
        let ghost p0 = self.pos as int;
        let mut expr = self.parse_multiplicativa()?;
        loop
            invariant
                self.sigue(*old(self)),
                self.contexto() == c,
                c == old(self).contexto(),
                p0 == old(self).pos as int,
                self.listo(),
                p0 < self.pos,
                sp_aditiva(c, p0) == sp_aditiva_desde(c, self.pos as int, expr@),
            ensures
                self.sigue(*old(self)),
                self.listo(),
                p0 < self.pos,
                sp_aditiva(c, p0) == Ok::<(SpecExpr, int), Falla>((expr@, self.pos as int)),
            decreases self.tokens.len() - self.pos,
        {
            proof {
                desplegar_sp_aditiva_desde(c, self.pos as int, expr@);
            }
            let op = match operador_aditivo_de(self.tipo_actual()) {
                Some(op) => op,
                None => break,
            };
            let pos = self.pos_actual();
            self.avanzar()?;
            let derecha = self.parse_multiplicativa()?;
            expr = Expr::Binaria {
                posicion: pos,
                operador: op,
                izquierda: Box::new(expr),
                derecha: Box::new(derecha),
            };
        }
        Ok(expr)
    }

    fn parse_multiplicativa(&mut self) -> (r: Result<Expr, FallaParseo>)
        requires
            old(self).listo(),
        ensures
            final(self).sigue(*old(self)),
            final(self).listo(),
            r is Ok ==> old(self).pos < final(self).pos,
            resulta(
                r,
                final(self).pos as int,
                sp_multiplicativa(old(self).contexto(), old(self).pos as int),
            ),
        decreases old(self).tokens.len() - old(self).pos, 74int,
    {
        proof {
            desplegar_sp_multiplicativa(self.contexto(), self.pos as int);
        }
        let ghost c = self.contexto();
        let ghost p0 = self.pos as int;
        let mut expr = self.parse_unaria()?;
        loop
            invariant
                self.sigue(*old(self)),
                self.contexto() == c,
                c == old(self).contexto(),
                p0 == old(self).pos as int,
                self.listo(),
                p0 < self.pos,
                sp_multiplicativa(c, p0) == sp_multiplicativa_desde(c, self.pos as int, expr@),
            ensures
                self.sigue(*old(self)),
                self.listo(),
                p0 < self.pos,
                sp_multiplicativa(c, p0) == Ok::<(SpecExpr, int), Falla>((expr@, self.pos as int)),
            decreases self.tokens.len() - self.pos,
        {
            proof {
                desplegar_sp_multiplicativa_desde(c, self.pos as int, expr@);
            }
            let op = match operador_multiplicativo_de(self.tipo_actual()) {
                Some(op) => op,
                None => break,
            };
            let pos = self.pos_actual();
            self.avanzar()?;
            let derecha = self.parse_unaria()?;
            expr = Expr::Binaria {
                posicion: pos,
                operador: op,
                izquierda: Box::new(expr),
                derecha: Box::new(derecha),
            };
        }
        Ok(expr)
    }

    fn parse_unaria(&mut self) -> (r: Result<Expr, FallaParseo>)
        requires
            old(self).listo(),
        ensures
            final(self).sigue(*old(self)),
            final(self).listo(),
            r is Ok ==> old(self).pos < final(self).pos,
            resulta(
                r,
                final(self).pos as int,
                sp_unaria(old(self).contexto(), old(self).pos as int),
            ),
        decreases old(self).tokens.len() - old(self).pos, 73int,
    {
        proof {
            desplegar_sp_unaria(self.contexto(), self.pos as int);
        }
        let pos = self.pos_actual();
        if self.coincide(TipoToken::Sizeof) {
            self.avanzar()?;
            let es_tipo = self.coincide(TipoToken::ParentesisIzq) && self.es_tipo_en_parentesis();
            if es_tipo {
                self.avanzar()?;
                let tipo = self.parse_tipo()?;
                self.esperar(TipoToken::ParentesisDer)?;
                return Ok(
                    Expr::Sizeof { posicion: pos, es_tipo: true, objetivo: SizeofObjetivo::Tipo(tipo) },
                );
            }
            let expr = self.parse_unaria()?;
            return Ok(
                Expr::Sizeof {
                    posicion: pos,
                    es_tipo: false,
                    objetivo: SizeofObjetivo::Expr(Box::new(expr)),
                },
            );
        }
        if let Some(op) = self.operador_unario() {
            self.avanzar()?;
            let operando = Box::new(self.parse_unaria()?);
            return Ok(Expr::Unaria { posicion: pos, operador: op, operando });
        }
        if self.es_cast() {
            self.avanzar()?;
            let tipo = self.parse_tipo()?;
            self.esperar(TipoToken::ParentesisDer)?;
            let expr = Box::new(self.parse_unaria()?);
            return Ok(Expr::Cast { posicion: pos, tipo, expr });
        }
        self.parse_postfija()
    }

    fn es_cast(&self) -> (r: bool)
        requires
            self.listo(),
        ensures
            r == es_cast(self.contexto(), self.pos as int),
    {
        if !self.coincide(TipoToken::ParentesisIzq) {
            return false;
        }
        match self.mirar(1) {
            Some(t) => es_inicio_tipo(t.tipo),
            None => false,
        }
    }

    fn es_tipo_en_parentesis(&self) -> (r: bool)
        ensures
            r == match mirar(self.contexto(), self.pos as int, 1) {
                Some(t) => es_inicio_tipo(t.tipo),
                None => false,
            },
    {
        match self.mirar(1) {
            Some(t) => es_inicio_tipo(t.tipo),
            None => false,
        }
    }

    fn operador_unario(&self) -> (r: Option<OperadorUnario>)
        requires
            self.listo(),
        ensures
            r == operador_unario_de(tipo_actual(self.contexto(), self.pos as int)),
    {
        operador_unario_de(self.tipo_actual())
    }

    /// The arguments of a call, after its `(`.
    fn parse_argumentos(&mut self) -> (r: Result<Vec<Expr>, FallaParseo>)
        requires
            old(self).listo(),
        ensures
            final(self).sigue(*old(self)),
            final(self).listo(),
            resulta_exprs(
                r,
                final(self).pos as int,
                sp_lista_argumentos(old(self).contexto(), old(self).pos as int),
            ),
        decreases old(self).tokens.len() - old(self).pos, 101int,
    {
        proof {
            desplegar_sp_lista_argumentos(self.contexto(), self.pos as int);
        }
        let ghost c = self.contexto();
        let ghost p0 = self.pos as int;
        let mut args: Vec<Expr> = Vec::new();
        if !self.coincide(TipoToken::ParentesisDer) {
            loop
                invariant_except_break
                    sp_lista_argumentos(c, p0) == sp_argumentos(
                        c,
                        self.pos as int,
                        vista_exprs(args@),
                    ),
                invariant
                    self.sigue(*old(self)),
                    self.contexto() == c,
                    c == old(self).contexto(),
                    p0 == old(self).pos as int,
                    self.listo(),
                    p0 <= self.pos,
                ensures
                    self.sigue(*old(self)),
                    self.listo(),
                    sp_lista_argumentos(c, p0) == Ok::<(Seq<SpecExpr>, int), Falla>(
                        (vista_exprs(args@), self.pos as int),
                    ),
                decreases self.tokens.len() - self.pos,
            {
                proof {
                    desplegar_sp_argumentos(c, self.pos as int, vista_exprs(args@));
                }
                let ghost antes = args@;
                let e = self.parse_expresion()?;
                proof {
                    lema_vista_exprs_push(antes, e);
                }
                args.push(e);
                if self.coincide(TipoToken::Coma) {
                    self.avanzar()?;
                } else {
                    break;
                }
            }
        }
        Ok(args)
    }

    fn parse_postfija(&mut self) -> (r: Result<Expr, FallaParseo>)
        requires
            old(self).listo(),
        ensures
            final(self).sigue(*old(self)),
            final(self).listo(),
            r is Ok ==> old(self).pos < final(self).pos,
            resulta(
                r,
                final(self).pos as int,
                sp_postfija(old(self).contexto(), old(self).pos as int),
            ),
        decreases old(self).tokens.len() - old(self).pos, 72int,
    {
        proof {
            desplegar_sp_postfija(self.contexto(), self.pos as int);
        }
        let ghost c = self.contexto();
        let ghost p0 = self.pos as int;
        let mut expr = self.parse_primaria()?;
        loop
            invariant
                self.sigue(*old(self)),
                self.contexto() == c,
                c == old(self).contexto(),
                p0 == old(self).pos as int,
                self.listo(),
                p0 < self.pos,
                sp_postfija(c, p0) == sp_postfija_desde(c, self.pos as int, expr@),
            ensures
                self.sigue(*old(self)),
                self.listo(),
                p0 < self.pos,
                sp_postfija(c, p0) == Ok::<(SpecExpr, int), Falla>((expr@, self.pos as int)),
            decreases self.tokens.len() - self.pos,
        {
            proof {
                desplegar_sp_postfija_desde(c, self.pos as int, expr@);
            }
            let pos = self.pos_actual();
            match self.tipo_actual() {
                TipoToken::CorcheteIzq => {
                    self.avanzar()?;
                    let indice = Box::new(self.parse_expresion()?);
                    self.esperar(TipoToken::CorcheteDer)?;
                    expr = Expr::Index { posicion: pos, arreglo: Box::new(expr), indice };
                },
                TipoToken::ParentesisIzq => {
                    self.avanzar()?;
                    let argumentos = self.parse_argumentos()?;
                    self.esperar(TipoToken::ParentesisDer)?;
                    expr = Expr::Llamada { posicion: pos, funcion: Box::new(expr), argumentos };
                },
                TipoToken::Punto => {
                    proof {
                        desplegar_sp_miembro(c, self.pos as int, expr@, false);
                    }
                    self.avanzar()?;
                    let m = self.esperar_valor(TipoToken::Identificador)?;
                    expr = Expr::Miembro {
                        posicion: pos,
                        objeto: Box::new(expr),
                        miembro: m,
                        es_puntero: false,
                    };
                },
                TipoToken::Flecha => {
                    proof {
                        desplegar_sp_miembro(c, self.pos as int, expr@, true);
                    }
                    self.avanzar()?;
                    let m = self.esperar_valor(TipoToken::Identificador)?;
                    expr = Expr::Miembro {
                        posicion: pos,
                        objeto: Box::new(expr),
                        miembro: m,
                        es_puntero: true,
                    };
                },
                TipoToken::Incremento => {
                    self.avanzar()?;
                    expr = Expr::Unaria {
                        posicion: pos,
                        operador: OperadorUnario::Incremento,
                        operando: Box::new(expr),
                    };
                },
                TipoToken::Decremento => {
                    self.avanzar()?;
                    expr = Expr::Unaria {
                        posicion: pos,
                        operador: OperadorUnario::Decremento,
                        operando: Box::new(expr),
                    };
                },
                _ => break,
            }
        }
        Ok(expr)
    }

    fn parse_primaria(&mut self) -> (r: Result<Expr, FallaParseo>)
        requires
            old(self).listo(),
        ensures
            final(self).sigue(*old(self)),
            final(self).listo(),
            r is Ok ==> old(self).pos < final(self).pos,
            resulta(
                r,
                final(self).pos as int,
                sp_primaria(old(self).contexto(), old(self).pos as int),
            ),
        decreases old(self).tokens.len() - old(self).pos, 71int,
    {
        proof {
            desplegar_sp_primaria(self.contexto(), self.pos as int);
        }
        let pos = self.pos_actual();
        match self.tipo_actual() {
            TipoToken::Entero => {
                let v = self.tomar_valor()?;
                Ok(Expr::Literal { posicion: pos, valor: Literal::Entero(v) })
            },
            TipoToken::Flotante => {
                let v = self.tomar_valor()?;
                Ok(Expr::Literal { posicion: pos, valor: Literal::Flotante(v) })
            },
            TipoToken::Caracter => {
                let v = self.tomar_valor()?;
                Ok(Expr::Literal { posicion: pos, valor: Literal::Caracter(v) })
            },
            TipoToken::Cadena => {
                let v = self.tomar_valor()?;
                Ok(Expr::Literal { posicion: pos, valor: Literal::Cadena(v) })
            },
            TipoToken::Identificador => {
                let v = self.tomar_valor()?;
                Ok(Expr::Identificador { posicion: pos, nombre: v })
            },
            TipoToken::ParentesisIzq => {
                self.avanzar()?;
                let e = self.parse_expresion()?;
                self.esperar(TipoToken::ParentesisDer)?;
                Ok(e)
            },
            _ => Err(self.error_aqui(String::from_str("expresion primaria"))),
        }
    }

    // -----------------------------------------------------------------------
    // Declarations
    // -----------------------------------------------------------------------

    fn parse_especificadores(&mut self) -> (r: Result<Especificadores, FallaParseo>)
        requires
            old(self).listo(),
        ensures
            final(self).sigue(*old(self)),
            final(self).listo(),
            resulta(r, final(self).pos as int, sp_especificadores(old(self).contexto(), old(self).pos as int)),
        decreases old(self).tokens.len() - old(self).pos, 11int,
    {
        let ghost c = self.contexto();
        let ghost p0 = self.pos as int;
        proof {
            desplegar_sp_especificadores(c, p0);
        }
        let mut esp = Especificadores {
            almacenamiento: Vec::new(),
            calificadores: Vec::new(),
            tipo: None,
        };
        loop
            invariant_except_break
                sp_especificadores(c, p0) == sp_especificadores_desde(c, self.pos as int, esp@),
            invariant
                self.sigue(*old(self)),
                self.contexto() == c,
                c == old(self).contexto(),
                p0 == old(self).pos as int,
                self.listo(),
            ensures
                self.sigue(*old(self)),
                self.listo(),
                sp_especificadores(c, p0) == Ok::<(SpecEspecificadores, int), Falla>(
                    (esp@, self.pos as int),
                ),
            decreases self.tokens.len() - self.pos,
        {
            proof {
                desplegar_sp_especificadores_desde(c, self.pos as int, esp@);
            }
            let k = self.tipo_actual();
            if let Some(a) = almacenamiento_de(k) {
                esp.almacenamiento.push(a);
                self.avanzar()?;
            } else if let Some(q) = calificador_de(k) {
                esp.calificadores.push(q);
                self.avanzar()?;
            } else if k == TipoToken::Struct {
                esp.tipo = Some(self.parse_struct_union(true)?);
            } else if k == TipoToken::Union {
                esp.tipo = Some(self.parse_struct_union(false)?);
            } else if k == TipoToken::Enum {
                esp.tipo = Some(self.parse_enum()?);
            } else if tipo_primitivo_de(k).is_some() || k == TipoToken::Identificador {
                esp.tipo = Some(self.parse_tipo()?);
                break;
            } else {
                break;
            }
        }
        Ok(esp)
    }

    fn parse_struct_union(&mut self, es_struct: bool) -> (r: Result<Tipo, FallaParseo>)
        requires
            old(self).listo(),
        ensures
            final(self).sigue(*old(self)),
            final(self).listo(),
            r is Ok ==> old(self).pos < final(self).pos,
            resulta(r, final(self).pos as int, sp_struct_union(old(self).contexto(), old(self).pos as int, es_struct)),
        decreases old(self).tokens.len() - old(self).pos, 10int,
    {
        let ghost c = self.contexto();
        proof {
            desplegar_sp_struct_union(c, self.pos as int, es_struct);
        }
        self.avanzar()?;
        let nombre = if self.coincide(TipoToken::Identificador) {
            Some(self.tomar_valor()?)
        } else {
            None
        };
        let miembros = if self.coincide(TipoToken::LlaveIzq) {
            self.avanzar()?;
            let miembros = self.parse_miembros()?;
            self.esperar(TipoToken::LlaveDer)?;
            miembros
        } else {
            proof {
                assert(vista_declaraciones(Seq::<Declaracion>::empty()) =~= Seq::<SpecDeclaracion>::empty());
            }
            Vec::new()
        };
        let spec = StructUnionSpec { nombre, miembros };
        assert(vista_struct_union(spec) == SpecStructUnion {
            nombre: vista_texto_opt(spec.nombre),
            miembros: vista_declaraciones(spec.miembros@),
        });
        let ghost sg = spec;
        let t = if es_struct {
            Tipo::Struct(spec)
        } else {
            Tipo::Union(spec)
        };
        assert(t@ == tipo_struct_union(es_struct, sg@.nombre, sg@.miembros));
        Ok(t)
    }


    /// Member declarations up to `}` or the end.
    fn parse_miembros(&mut self) -> (r: Result<Vec<Declaracion>, FallaParseo>)
        requires
            old(self).listo(),
        ensures
            final(self).sigue(*old(self)),
            final(self).listo(),
            match r {
                Ok(v) => sp_miembros(old(self).contexto(), old(self).pos as int, Seq::empty()) == Ok::<
                    (Seq<SpecDeclaracion>, int),
                    Falla,
                >((vista_declaraciones(v@), final(self).pos as int)),
                Err(f) => sp_miembros(old(self).contexto(), old(self).pos as int, Seq::empty())
                    == Err::<(Seq<SpecDeclaracion>, int), Falla>(f@),
            },
        decreases old(self).tokens.len() - old(self).pos, 13int,
    {
        let ghost c = self.contexto();
        let ghost p0 = self.pos as int;
        let mut miembros: Vec<Declaracion> = Vec::new();
        proof {
            assert(vista_declaraciones(miembros@) =~= Seq::<SpecDeclaracion>::empty());
        }
        while !self.coincide(TipoToken::LlaveDer) && !self.es_fin()
            invariant
                self.sigue(*old(self)),
                self.contexto() == c,
                c == old(self).contexto(),
                p0 == old(self).pos as int,
                self.listo(),
                sp_miembros(c, p0, Seq::empty()) == sp_miembros(
                    c,
                    self.pos as int,
                    vista_declaraciones(miembros@),
                ),
            decreases self.tokens.len() - self.pos,
        {
            proof {
                desplegar_sp_miembros(c, self.pos as int, vista_declaraciones(miembros@));
            }
            let d = self.parse_declaracion()?;
            proof {
                lema_vista_declaraciones_push(miembros@, d);
            }
            miembros.push(d);
        }
        proof {
            desplegar_sp_miembros(c, self.pos as int, vista_declaraciones(miembros@));
        }
        Ok(miembros)
    }

    fn parse_enum(&mut self) -> (r: Result<Tipo, FallaParseo>)
        requires
            old(self).listo(),
        ensures
            final(self).sigue(*old(self)),
            final(self).listo(),
            r is Ok ==> old(self).pos < final(self).pos,
            resulta(r, final(self).pos as int, sp_enum(old(self).contexto(), old(self).pos as int)),
    {
        let ghost c = self.contexto();
        proof {
            desplegar_sp_enum(c, self.pos as int);
        }
        self.avanzar()?;
        let nombre = if self.coincide(TipoToken::Identificador) {
            Some(self.tomar_valor()?)
        } else {
            None
        };
        let enumeradores = if self.coincide(TipoToken::LlaveIzq) {
            self.avanzar()?;
            let enumeradores = self.parse_enumeradores()?;
            self.esperar(TipoToken::LlaveDer)?;
            enumeradores
        } else {
            proof {
                assert(vista_enumeradores(Seq::<Enumerador>::empty()) =~= Seq::<SpecEnumerador>::empty());
            }
            Vec::new()
        };
        let e = EnumSpec { nombre, enumeradores };
        assert(vista_enum(e) == SpecEnum { nombre: vista_texto_opt(e.nombre), enumeradores: vista_enumeradores(e.enumeradores@) });
        let ghost eg = e;
        let t = Tipo::Enum(e);
        assert(t@ == SpecTipo::Enum(vista_enum(eg)));
        Ok(t)
    }


    /// Enumerators up to `}` or the end, each optionally followed by `,`.
    fn parse_enumeradores(&mut self) -> (r: Result<Vec<Enumerador>, FallaParseo>)
        requires
            old(self).listo(),
        ensures
            final(self).sigue(*old(self)),
            final(self).listo(),
            match r {
                Ok(v) => sp_enumeradores(old(self).contexto(), old(self).pos as int, Seq::empty())
                    == Ok::<(Seq<SpecEnumerador>, int), Falla>(
                    (vista_enumeradores(v@), final(self).pos as int),
                ),
                Err(f) => sp_enumeradores(old(self).contexto(), old(self).pos as int, Seq::empty())
                    == Err::<(Seq<SpecEnumerador>, int), Falla>(f@),
            },
    {
        let ghost c = self.contexto();
        let ghost p0 = self.pos as int;
        let mut enumeradores: Vec<Enumerador> = Vec::new();
        proof {
            assert(vista_enumeradores(enumeradores@) =~= Seq::<SpecEnumerador>::empty());
        }
        while !self.coincide(TipoToken::LlaveDer) && !self.es_fin()
            invariant
                self.sigue(*old(self)),
                self.contexto() == c,
                c == old(self).contexto(),
                p0 == old(self).pos as int,
                self.listo(),
                sp_enumeradores(c, p0, Seq::empty()) == sp_enumeradores(
                    c,
                    self.pos as int,
                    vista_enumeradores(enumeradores@),
                ),
            decreases self.tokens.len() - self.pos,
        {
            proof {
                desplegar_sp_enumeradores(c, self.pos as int, vista_enumeradores(enumeradores@));
            }
            let n = self.esperar_valor(TipoToken::Identificador)?;
            proof {
                desplegar_sp_valor_enumerador(c, self.pos as int);
            }
            let valor = if self.coincide(TipoToken::Asignar) {
                self.avanzar()?;
                Some(Box::new(self.parse_expresion()?))
            } else {
                None
            };
            let e = Enumerador { nombre: n, valor };
            proof {
                lema_vista_enumeradores_push(enumeradores@, e);
            }
            enumeradores.push(e);
            if self.coincide(TipoToken::Coma) {
                self.avanzar()?;
            }
        }
        proof {
            desplegar_sp_enumeradores(c, self.pos as int, vista_enumeradores(enumeradores@));
        }
        Ok(enumeradores)
    }

    fn parse_declaracion(&mut self) -> (r: Result<Declaracion, FallaParseo>)
        requires
            old(self).listo(),
        ensures
            final(self).sigue(*old(self)),
            final(self).listo(),
            r is Ok ==> old(self).pos < final(self).pos,
            resulta(r, final(self).pos as int, sp_declaracion(old(self).contexto(), old(self).pos as int)),
        decreases old(self).tokens.len() - old(self).pos, 12int,
    {
        let ghost c = self.contexto();
        proof {
            desplegar_sp_declaracion(c, self.pos as int);
        }
        let pos = self.pos_actual();
        let especificadores = self.parse_especificadores()?;
        let declarador = self.parse_declarador()?;
        let inicializador = self.parse_inicializador_opt()?;
        let declaradores = self.parse_init_declaradores(InitDeclarador { declarador, inicializador })?;
        self.esperar(TipoToken::PuntoYComa)?;
        Ok(Declaracion { posicion: pos, especificadores, declaradores })
    }

    /// After the first declarator of a declaration, further
    /// `, declarator [= initialiser]`.
    fn parse_init_declaradores(&mut self, primero: InitDeclarador) -> (r: Result<
        Vec<InitDeclarador>,
        FallaParseo,
    >)
        requires
            old(self).listo(),
        ensures
            final(self).sigue(*old(self)),
            final(self).listo(),
            resulta_init_declaradores(
                r,
                final(self).pos as int,
                sp_init_declaradores(old(self).contexto(), old(self).pos as int, seq![primero@]),
            ),
        decreases old(self).tokens.len() - old(self).pos, 0int,
    {
        let ghost c = self.contexto();
        let ghost p0 = self.pos as int;
        let ghost v0 = primero@;
        let mut declaradores: Vec<InitDeclarador> = Vec::new();
        proof {
            lema_vista_init_declaradores_push(Seq::empty(), primero);
            assert(vista_init_declaradores(Seq::<InitDeclarador>::empty()) =~= Seq::<
                SpecInitDeclarador,
            >::empty());
            assert(Seq::<InitDeclarador>::empty().push(primero) =~= seq![primero]);
            assert(Seq::<SpecInitDeclarador>::empty().push(v0) =~= seq![v0]);
        }
        declaradores.push(primero);
        while self.coincide(TipoToken::Coma)
            invariant
                self.sigue(*old(self)),
                self.contexto() == c,
                c == old(self).contexto(),
                p0 == old(self).pos as int,
                v0 == primero@,
                self.listo(),
                sp_init_declaradores(c, p0, seq![v0]) == sp_init_declaradores(
                    c,
                    self.pos as int,
                    vista_init_declaradores(declaradores@),
                ),
            decreases self.tokens.len() - self.pos,
        {
            let ghost p = self.pos as int;
            let ghost acc = vista_init_declaradores(declaradores@);
            proof {
                desplegar_sp_init_declaradores(c, p, acc);
            }
            self.pos = self.pos + 1;
            let d = match self.parse_declarador() {
                Ok(d) => d,
                Err(f) => {
                    return Err(f);
                },
            };
            let ghost q1 = self.pos as int;
            let ghost dv = d@;
            assert(sp_declarador(c, p + 1) == Ok::<(SpecDeclarador, int), Falla>((dv, q1)));
            let i = match self.parse_inicializador_opt() {
                Ok(i) => i,
                Err(f) => {
                    return Err(f);
                },
            };
            let ghost iv = vista_inicializador_opt(i);
            assert(sp_inicializador_opt(c, q1) == Ok::<(Option<SpecInicializador>, int), Falla>(
                (iv, self.pos as int),
            ));
            let nuevo = InitDeclarador { declarador: d, inicializador: i };
            assert(vista_init_declarador(nuevo) == SpecInitDeclarador { declarador: dv, inicializador: iv });
            proof {
                lema_vista_init_declaradores_push(declaradores@, nuevo);
            }
            declaradores.push(nuevo);
            assert(sp_init_declaradores(c, p, acc) == sp_init_declaradores(
                c,
                self.pos as int,
                vista_init_declaradores(declaradores@),
            ));
        }
        proof {
            desplegar_sp_init_declaradores(c, self.pos as int, vista_init_declaradores(declaradores@));
        }
        Ok(declaradores)
    }

    fn parse_declarador(&mut self) -> (r: Result<Declarador, FallaParseo>)
        requires
            old(self).listo(),
        ensures
            final(self).sigue(*old(self)),
            final(self).listo(),
            r is Ok ==> old(self).pos < final(self).pos,
            resulta(r, final(self).pos as int, sp_declarador(old(self).contexto(), old(self).pos as int)),
        decreases old(self).tokens.len() - old(self).pos, 11int,
    {
        proof {
            desplegar_sp_declarador(self.contexto(), self.pos as int);
        }
        Ok(Declarador { punteros: self.parse_punteros()?, base: self.parse_declarador_directo()? })
    }

    fn parse_punteros(&mut self) -> (r: Result<Vec<Puntero>, FallaParseo>)
        requires
            old(self).listo(),
        ensures
            final(self).sigue(*old(self)),
            final(self).listo(),
            r matches Ok(v) && (vista_punteros(v@), final(self).pos as int) == sp_punteros(
                old(self).contexto(),
                old(self).pos as int,
                Seq::empty(),
            ),
    {
        let ghost c = self.contexto();
        let ghost p0 = self.pos as int;
        let mut punteros: Vec<Puntero> = Vec::new();
        proof {
            assert(vista_punteros(punteros@) =~= Seq::<Seq<Calificador>>::empty());
        }
        while self.coincide(TipoToken::Asterisco)
            invariant
                self.sigue(*old(self)),
                self.contexto() == c,
                c == old(self).contexto(),
                p0 == old(self).pos as int,
                self.listo(),
                sp_punteros(c, p0, Seq::empty()) == sp_punteros(
                    c,
                    self.pos as int,
                    vista_punteros(punteros@),
                ),
            decreases self.tokens.len() - self.pos,
        {
            proof {
                desplegar_sp_punteros(c, self.pos as int, vista_punteros(punteros@));
            }
            self.pos = self.pos + 1;
            let cal = self.calificadores_puntero();
            let p = Puntero { calificadores: cal };
            proof {
                lema_vista_punteros_push(punteros@, p);
            }
            punteros.push(p);
        }
        proof {
            desplegar_sp_punteros(c, self.pos as int, vista_punteros(punteros@));
        }
        Ok(punteros)
    }

    fn parse_declarador_directo(&mut self) -> (r: Result<DeclaradorBase, FallaParseo>)
        requires
            old(self).listo(),
        ensures
            final(self).sigue(*old(self)),
            final(self).listo(),
            r is Ok ==> old(self).pos < final(self).pos,
            resulta(r, final(self).pos as int, sp_declarador_directo(old(self).contexto(), old(self).pos as int)),
        decreases old(self).tokens.len() - old(self).pos, 10int,
    {
        proof {
            desplegar_sp_declarador_directo(self.contexto(), self.pos as int);
        }
        let base = if self.coincide(TipoToken::ParentesisIzq) {
            self.avanzar()?;
            let inner = self.parse_declarador()?;
            self.esperar(TipoToken::ParentesisDer)?;
            DeclaradorBase::Agrupado(Box::new(inner))
        } else {
            DeclaradorBase::Identificador(self.esperar_valor(TipoToken::Identificador)?)
        };
        self.aplicar_sufijos(base)
    }

    fn aplicar_sufijos(&mut self, base: DeclaradorBase) -> (r: Result<DeclaradorBase, FallaParseo>)
        requires
            old(self).listo(),
        ensures
            final(self).sigue(*old(self)),
            final(self).listo(),
            resulta(r, final(self).pos as int, sp_sufijos(old(self).contexto(), old(self).pos as int, base@)),
        decreases old(self).tokens.len() - old(self).pos, 0int,
    {
        let ghost c = self.contexto();
        proof {
            desplegar_sp_sufijos(c, self.pos as int, base@);
        }
        if self.coincide(TipoToken::CorcheteIzq) {
            self.avanzar()?;
            proof {
                desplegar_sp_tamano(c, self.pos as int);
            }
            let tam = if self.coincide(TipoToken::CorcheteDer) {
                None
            } else {
                Some(Box::new(self.parse_expresion()?))
            };
            self.esperar(TipoToken::CorcheteDer)?;
            let ghost bg = base@;
            let ghost tv = vista_expr_opt(tam);
            let suf = SufijoDeclarador::Array(tam);
            assert(vista_sufijo(suf) == SpecSufijo::Array(tv));
            let ghost sg = vista_sufijo(suf);
            let nueva = DeclaradorBase::Derivado { interno: Box::new(base), sufijo: suf };
            assert(nueva@ == SpecDeclaradorBase::Derivado { interno: Box::new(bg), sufijo: sg });
            self.aplicar_sufijos(nueva)
        } else if self.coincide(TipoToken::ParentesisIzq) {
            self.avanzar()?;
            let params = self.parse_parametros()?;
            self.esperar(TipoToken::ParentesisDer)?;
            let ghost bg = base@;
            let ghost pv = vista_parametros(params@);
            let suf = SufijoDeclarador::Funcion(params);
            assert(vista_sufijo(suf) == SpecSufijo::Funcion(pv));
            let ghost sg = vista_sufijo(suf);
            let nueva = DeclaradorBase::Derivado { interno: Box::new(base), sufijo: suf };
            assert(nueva@ == SpecDeclaradorBase::Derivado { interno: Box::new(bg), sufijo: sg });
            self.aplicar_sufijos(nueva)
        } else {
            Ok(base)
        }
    }

    fn parse_parametros(&mut self) -> (r: Result<Vec<Parametro>, FallaParseo>)
        requires
            old(self).listo(),
        ensures
            final(self).sigue(*old(self)),
            final(self).listo(),
            resulta_parametros(
                r,
                final(self).pos as int,
                sp_parametros(old(self).contexto(), old(self).pos as int),
            ),
        decreases old(self).tokens.len() - old(self).pos, 12int,
    {
        let ghost c = self.contexto();
        let ghost p0 = self.pos as int;
        proof {
            desplegar_sp_parametros(c, p0);
        }
        if self.coincide(TipoToken::Void) {
            self.avanzar()?;
            proof {
                assert(vista_parametros(Seq::<Parametro>::empty()) =~= Seq::<SpecParametro>::empty());
            }
            return Ok(Vec::new());
        }
        let mut params: Vec<Parametro> = Vec::new();
        proof {
            assert(vista_parametros(params@) =~= Seq::<SpecParametro>::empty());
        }
        if self.coincide(TipoToken::ParentesisDer) {
            return Ok(params);
        }
        loop
            invariant_except_break
                sp_parametros(c, p0) == sp_parametros_desde(
                    c,
                    self.pos as int,
                    vista_parametros(params@),
                ),
            invariant
                self.sigue(*old(self)),
                self.contexto() == c,
                c == old(self).contexto(),
                p0 == old(self).pos as int,
                self.listo(),
            ensures
                self.sigue(*old(self)),
                self.listo(),
                sp_parametros(c, p0) == Ok::<(Seq<SpecParametro>, int), Falla>(
                    (vista_parametros(params@), self.pos as int),
                ),
            decreases self.tokens.len() - self.pos,
        {
            proof {
                desplegar_sp_parametros_desde(c, self.pos as int, vista_parametros(params@));
            }
            let especificadores = self.parse_especificadores()?;
            let declarador = if self.es_inicio_declarador() {
                Some(self.parse_declarador()?)
            } else {
                None
            };
            let param = Parametro { especificadores, declarador };
            proof {
                lema_vista_parametros_push(params@, param);
            }
            params.push(param);
            proof {
                desplegar_sp_parametros_tras(c, self.pos as int, vista_parametros(params@));
            }
            if self.coincide(TipoToken::Coma) {
                self.avanzar()?;
            } else {
                break;
            }
        }
        Ok(params)
    }

    fn es_inicio_declarador(&self) -> (r: bool)
        requires
            self.listo(),
        ensures
            r == es_inicio_declarador(self.contexto(), self.pos as int),
    {
        self.coincide(TipoToken::Asterisco) || self.coincide(TipoToken::ParentesisIzq)
            || self.coincide(TipoToken::Identificador)
    }

    fn parse_inicializador_opt(&mut self) -> (r: Result<Option<Inicializador>, FallaParseo>)
        requires
            old(self).listo(),
        ensures
            final(self).sigue(*old(self)),
            final(self).listo(),
            resulta_inicializador_opt(
                r,
                final(self).pos as int,
                sp_inicializador_opt(old(self).contexto(), old(self).pos as int),
            ),
    {
        proof {
            desplegar_sp_inicializador_opt(self.contexto(), self.pos as int);
        }
        if !self.coincide(TipoToken::Asignar) {
            return Ok(None);
        }
        self.avanzar()?;
        Ok(Some(self.parse_inicializador()?))
    }

    fn parse_inicializador(&mut self) -> (r: Result<Inicializador, FallaParseo>)
        requires
            old(self).listo(),
        ensures
            final(self).sigue(*old(self)),
            final(self).listo(),
            r is Ok ==> old(self).pos < final(self).pos,
            resulta(r, final(self).pos as int, sp_inicializador(old(self).contexto(), old(self).pos as int)),
        decreases old(self).tokens.len() - old(self).pos, 1int,
    {
        let ghost c = self.contexto();
        let ghost p0 = self.pos as int;
        proof {
            desplegar_sp_inicializador(c, p0);
        }
        if self.coincide(TipoToken::LlaveIzq) {
            self.avanzar()?;
            let lista = if !self.coincide(TipoToken::LlaveDer) {
                self.parse_lista_inicializadores()?
            } else {
                proof {
                    assert(vista_inicializadores(Seq::<Inicializador>::empty()) =~= Seq::<
                        SpecInicializador,
                    >::empty());
                }
                Vec::new()
            };
            self.esperar(TipoToken::LlaveDer)?;
            Ok(Inicializador::Lista(lista))
        } else {
            Ok(Inicializador::Expr(Box::new(self.parse_expresion()?)))
        }
    }

    /// Initialisers separated by `,`.
    fn parse_lista_inicializadores(&mut self) -> (r: Result<Vec<Inicializador>, FallaParseo>)
        requires
            old(self).listo(),
        ensures
            final(self).sigue(*old(self)),
            final(self).listo(),
            r is Ok ==> old(self).pos < final(self).pos,
            match r {
                Ok(v) => sp_lista_inicializadores(old(self).contexto(), old(self).pos as int, Seq::empty())
                    == Ok::<(Seq<SpecInicializador>, int), Falla>(
                    (vista_inicializadores(v@), final(self).pos as int),
                ),
                Err(f) => sp_lista_inicializadores(old(self).contexto(), old(self).pos as int, Seq::empty())
                    == Err::<(Seq<SpecInicializador>, int), Falla>(f@),
            },
        decreases old(self).tokens.len() - old(self).pos, 2int,
    {
        let ghost c = self.contexto();
        let ghost p0 = self.pos as int;
        let mut lista: Vec<Inicializador> = Vec::new();
        proof {
            assert(vista_inicializadores(lista@) =~= Seq::<SpecInicializador>::empty());
        }
        loop
            invariant_except_break
                sp_lista_inicializadores(c, p0, Seq::empty()) == sp_lista_inicializadores(
                    c,
                    self.pos as int,
                    vista_inicializadores(lista@),
                ),
            invariant
                self.sigue(*old(self)),
                self.contexto() == c,
                c == old(self).contexto(),
                p0 == old(self).pos as int,
                self.listo(),
            ensures
                self.sigue(*old(self)),
                self.listo(),
                p0 < self.pos,
                sp_lista_inicializadores(c, p0, Seq::empty()) == Ok::<
                    (Seq<SpecInicializador>, int),
                    Falla,
                >((vista_inicializadores(lista@), self.pos as int)),
            decreases self.tokens.len() - self.pos,
        {
            proof {
                desplegar_sp_lista_inicializadores(c, self.pos as int, vista_inicializadores(lista@));
            }
            let i = self.parse_inicializador()?;
            proof {
                lema_vista_inicializadores_push(lista@, i);
            }
            lista.push(i);
            if self.coincide(TipoToken::Coma) {
                self.avanzar()?;
            } else {
                break;
            }
        }
        Ok(lista)
    }

    // -----------------------------------------------------------------------
    // Statements
    // -----------------------------------------------------------------------

    fn parse_bloque(&mut self) -> (r: Result<Bloque, FallaParseo>)
        requires
            old(self).listo(),
        ensures
            final(self).sigue(*old(self)),
            final(self).listo(),
            r is Ok ==> old(self).pos < final(self).pos,
            resulta(r, final(self).pos as int, sp_bloque(old(self).contexto(), old(self).pos as int)),
        decreases old(self).tokens.len() - old(self).pos, 1int,
    {
        let ghost c = self.contexto();
        let ghost p0 = self.pos as int;
        proof {
            desplegar_sp_bloque(c, p0);
        }
        let pos = self.pos_actual();
        self.esperar(TipoToken::LlaveIzq)?;
        let ghost p1 = self.pos as int;
        let mut items: Vec<ItemBloque> = Vec::new();
        proof {
            assert(vista_items(items@) =~= Seq::<SpecItemBloque>::empty());
        }
        while !self.coincide(TipoToken::LlaveDer) && !self.es_fin()
            invariant
                self.sigue(*old(self)),
                self.contexto() == c,
                c == old(self).contexto(),
                p0 == old(self).pos as int,
                p1 == p0 + 1,
                p1 <= self.pos,
                esperar(c, p0, TipoToken::LlaveIzq) == Ok::<int, Falla>(p1),
                self.listo(),
                sp_items(c, p1, Seq::empty()) == sp_items(
                    c,
                    self.pos as int,
                    vista_items(items@),
                ),
            decreases self.tokens.len() - self.pos,
        {
            let ghost p = self.pos as int;
            let ghost acc = vista_items(items@);
            proof {
                desplegar_sp_items(c, p, acc);
                desplegar_sp_bloque(c, p0);
            }
            let item = if es_inicio_decl_bloque(self.tipo_actual()) {
                let d = self.parse_declaracion()?;
                let ghost dv = d@;
                let it = ItemBloque::Declaracion(d);
                assert(vista_item(it) == SpecItemBloque::Declaracion(dv));
                it
            } else {
                let s = self.parse_sentencia()?;
                let ghost sv = s@;
                let it = ItemBloque::Sentencia(s);
                assert(vista_item(it) == SpecItemBloque::Sentencia(sv));
                it
            };
            proof {
                lema_vista_items_push(items@, item);
            }
            items.push(item);
        }
        proof {
            desplegar_sp_items(c, self.pos as int, vista_items(items@));
        }
        self.esperar(TipoToken::LlaveDer)?;
        let b = Bloque { posicion: pos, items };
        assert(vista_bloque(b) == SpecBloque { posicion: pos, items: vista_items(b.items@) });
        Ok(b)
    }

    /// The current token is a name followed by `:`.
    fn es_etiqueta(&self) -> (r: bool)
        requires
            self.listo(),
        ensures
            r == es_etiqueta(self.contexto(), self.pos as int),
    {
        match self.mirar(1) {
            Some(t) => t.tipo == TipoToken::DosPuntos,
            None => false,
        }
    }

    fn parse_sentencia(&mut self) -> (r: Result<Sentencia, FallaParseo>)
        requires
            old(self).listo(),
        ensures
            final(self).sigue(*old(self)),
            final(self).listo(),
            r is Ok ==> old(self).pos < final(self).pos,
            resulta(r, final(self).pos as int, sp_sentencia(old(self).contexto(), old(self).pos as int)),
        decreases old(self).tokens.len() - old(self).pos, 2int,
    {
        let ghost c = self.contexto();
        let ghost p0 = self.pos as int;
        proof {
            desplegar_sp_sentencia(c, p0);
        }
        let pos = self.pos_actual();
        let k = self.tipo_actual();
        if k == TipoToken::LlaveIzq {
            let b = self.parse_bloque()?;
            let ghost bv = b@;
            let s = Sentencia::Compuesta(b);
            assert(s@ == SpecSentencia::Compuesta(bv));
            Ok(s)
        } else if k == TipoToken::If {
            self.parse_if()
        } else if k == TipoToken::Switch {
            self.parse_switch()
        } else if k == TipoToken::While {
            self.parse_while()
        } else if k == TipoToken::Do {
            self.parse_do_while()
        } else if k == TipoToken::For {
            self.parse_for()
        } else if k == TipoToken::Goto {
            self.parse_goto()
        } else if k == TipoToken::Continue {
            self.parse_salto_simple(Salto::Continuar { posicion: pos })
        } else if k == TipoToken::Break {
            self.parse_salto_simple(Salto::Romper { posicion: pos })
        } else if k == TipoToken::Return {
            self.parse_return()
        } else if k == TipoToken::Case {
            self.avanzar()?;
            let e = self.parse_expresion()?;
            self.esperar(TipoToken::DosPuntos)?;
            let ghost ev = e@;
            let et = Etiqueta::Case(Box::new(e));
            assert(et@ == SpecEtiqueta::Case(Box::new(ev)));
            self.parse_etiquetada(pos, et)
        } else if k == TipoToken::Default {
            self.avanzar()?;
            self.esperar(TipoToken::DosPuntos)?;
            self.parse_etiquetada(pos, Etiqueta::Default)
        } else if k == TipoToken::Identificador && self.es_etiqueta() {
            let nombre = self.tomar_valor()?;
            self.esperar(TipoToken::DosPuntos)?;
            self.parse_etiquetada(pos, Etiqueta::Identificador(nombre))
        } else {
            self.parse_sentencia_expr()
        }
    }

    /// The statement after a label, with the label.
    fn parse_etiquetada(&mut self, pos: Posicion, etiqueta: Etiqueta) -> (r: Result<
        Sentencia,
        FallaParseo,
    >)
        requires
            old(self).listo(),
        ensures
            final(self).sigue(*old(self)),
            final(self).listo(),
            r is Ok ==> old(self).pos < final(self).pos,
            resulta(
                r,
                final(self).pos as int,
                sp_etiquetada(old(self).contexto(), old(self).pos as int, pos, etiqueta@),
            ),
        decreases old(self).tokens.len() - old(self).pos, 3int,
    {
        proof {
            desplegar_sp_etiquetada(self.contexto(), self.pos as int, pos, etiqueta@);
        }
        let ghost ev = etiqueta@;
        let s = self.parse_sentencia()?;
        let ghost sv = s@;
        let r = Sentencia::Etiquetada { posicion: pos, etiqueta, sentencia: Box::new(s) };
        assert(r@ == SpecSentencia::Etiquetada { posicion: pos, etiqueta: ev, sentencia: Box::new(sv) });
        Ok(r)
    }

    /// A keyword and `;`: the jump `salto`.
    fn parse_salto_simple(&mut self, salto: Salto) -> (r: Result<Sentencia, FallaParseo>)
        requires
            old(self).listo(),
        ensures
            final(self).sigue(*old(self)),
            final(self).listo(),
            r is Ok ==> old(self).pos < final(self).pos,
            resulta(r, final(self).pos as int, sp_salto_simple(old(self).contexto(), old(self).pos as int, salto@)),
    {
        proof {
            desplegar_sp_salto_simple(self.contexto(), self.pos as int, salto@);
        }
        self.avanzar()?;
        self.esperar(TipoToken::PuntoYComa)?;
        let ghost sv = salto@;
        let r = Sentencia::Salto(salto);
        assert(r@ == SpecSentencia::Salto(sv));
        Ok(r)
    }

    fn parse_goto(&mut self) -> (r: Result<Sentencia, FallaParseo>)
        requires
            old(self).listo(),
        ensures
            final(self).sigue(*old(self)),
            final(self).listo(),
            r is Ok ==> old(self).pos < final(self).pos,
            resulta(r, final(self).pos as int, sp_goto(old(self).contexto(), old(self).pos as int)),
    {
        proof {
            desplegar_sp_goto(self.contexto(), self.pos as int);
        }
        let pos = self.pos_actual();
        self.avanzar()?;
        let etiqueta = self.esperar_valor(TipoToken::Identificador)?;
        self.esperar(TipoToken::PuntoYComa)?;
        let ghost nv = etiqueta@;
        let r = Sentencia::Salto(Salto::Goto { posicion: pos, etiqueta });
        assert(r@ == SpecSentencia::Salto(SpecSalto::Goto { posicion: pos, etiqueta: nv }));
        Ok(r)
    }

    fn parse_return(&mut self) -> (r: Result<Sentencia, FallaParseo>)
        requires
            old(self).listo(),
        ensures
            final(self).sigue(*old(self)),
            final(self).listo(),
            r is Ok ==> old(self).pos < final(self).pos,
            resulta(r, final(self).pos as int, sp_return(old(self).contexto(), old(self).pos as int)),
    {
        proof {
            desplegar_sp_return(self.contexto(), self.pos as int);
        }
        let pos = self.pos_actual();
        self.avanzar()?;
        let valor = if self.coincide(TipoToken::PuntoYComa) {
            self.pos = self.pos + 1;
            None
        } else {
            let e = self.parse_expresion()?;
            self.esperar(TipoToken::PuntoYComa)?;
            Some(Box::new(e))
        };
        let ghost vv = vista_expr_opt(valor);
        let r = Sentencia::Salto(Salto::Retornar { posicion: pos, valor });
        assert(r@ == SpecSentencia::Salto(SpecSalto::Retornar { posicion: pos, valor: vv }));
        Ok(r)
    }

    /// `;`, or an expression and `;`.
    fn parse_sentencia_expr(&mut self) -> (r: Result<Sentencia, FallaParseo>)
        requires
            old(self).listo(),
        ensures
            final(self).sigue(*old(self)),
            final(self).listo(),
            r is Ok ==> old(self).pos < final(self).pos,
            resulta(r, final(self).pos as int, sp_sentencia_expr(old(self).contexto(), old(self).pos as int)),
    {
        proof {
            desplegar_sp_sentencia_expr(self.contexto(), self.pos as int);
        }
        let pos = self.pos_actual();
        let expr = if self.coincide(TipoToken::PuntoYComa) {
            self.pos = self.pos + 1;
            None
        } else {
            let e = self.parse_expresion()?;
            self.esperar(TipoToken::PuntoYComa)?;
            Some(Box::new(e))
        };
        let ghost ev = vista_expr_opt(expr);
        let r = Sentencia::Expr { posicion: pos, expr };
        assert(r@ == SpecSentencia::Expr { posicion: pos, expr: ev });
        Ok(r)
    }

    /// `( expression )`.
    fn parse_condicion(&mut self) -> (r: Result<Expr, FallaParseo>)
        requires
            old(self).listo(),
        ensures
            final(self).sigue(*old(self)),
            final(self).listo(),
            r is Ok ==> old(self).pos < final(self).pos,
            resulta(r, final(self).pos as int, sp_condicion(old(self).contexto(), old(self).pos as int)),
    {
        proof {
            desplegar_sp_condicion(self.contexto(), self.pos as int);
        }
        self.esperar(TipoToken::ParentesisIzq)?;
        let e = self.parse_expresion()?;
        self.esperar(TipoToken::ParentesisDer)?;
        Ok(e)
    }

    fn parse_if(&mut self) -> (r: Result<Sentencia, FallaParseo>)
        requires
            old(self).listo(),
        ensures
            final(self).sigue(*old(self)),
            final(self).listo(),
            r is Ok ==> old(self).pos < final(self).pos,
            resulta(r, final(self).pos as int, sp_if(old(self).contexto(), old(self).pos as int)),
        decreases old(self).tokens.len() - old(self).pos, 1int,
    {
        proof {
            desplegar_sp_if(self.contexto(), self.pos as int);
        }
        let pos = self.pos_actual();
        self.avanzar()?;
        let condicion = self.parse_condicion()?;
        let entonces = self.parse_sentencia()?;
        let sino = if self.coincide(TipoToken::Else) {
            self.pos = self.pos + 1;
            Some(Box::new(self.parse_sentencia()?))
        } else {
            None
        };
        let ghost cv = condicion@;
        let ghost ev = entonces@;
        let ghost sv = vista_sentencia_opt(sino);
        let sel = Seleccion::If {
            posicion: pos,
            condicion: Box::new(condicion),
            entonces: Box::new(entonces),
            sino,
        };
        assert(vista_seleccion(sel) == SpecSeleccion::If {
            posicion: pos,
            condicion: Box::new(cv),
            entonces: Box::new(ev),
            sino: sv,
        });
        let ghost selv = vista_seleccion(sel);
        let r = Sentencia::Seleccion(sel);
        assert(r@ == SpecSentencia::Seleccion(selv));
        Ok(r)
    }

    fn parse_switch(&mut self) -> (r: Result<Sentencia, FallaParseo>)
        requires
            old(self).listo(),
        ensures
            final(self).sigue(*old(self)),
            final(self).listo(),
            r is Ok ==> old(self).pos < final(self).pos,
            resulta(r, final(self).pos as int, sp_switch(old(self).contexto(), old(self).pos as int)),
        decreases old(self).tokens.len() - old(self).pos, 1int,
    {
        proof {
            desplegar_sp_switch(self.contexto(), self.pos as int);
        }
        let pos = self.pos_actual();
        self.avanzar()?;
        let condicion = self.parse_condicion()?;
        let cuerpo = self.parse_sentencia()?;
        let ghost cv = condicion@;
        let ghost bv = cuerpo@;
        let sel = Seleccion::Switch { posicion: pos, condicion: Box::new(condicion), cuerpo: Box::new(cuerpo) };
        assert(vista_seleccion(sel) == SpecSeleccion::Switch {
            posicion: pos,
            condicion: Box::new(cv),
            cuerpo: Box::new(bv),
        });
        let ghost selv = vista_seleccion(sel);
        let r = Sentencia::Seleccion(sel);
        assert(r@ == SpecSentencia::Seleccion(selv));
        Ok(r)
    }

    fn parse_while(&mut self) -> (r: Result<Sentencia, FallaParseo>)
        requires
            old(self).listo(),
        ensures
            final(self).sigue(*old(self)),
            final(self).listo(),
            r is Ok ==> old(self).pos < final(self).pos,
            resulta(r, final(self).pos as int, sp_while(old(self).contexto(), old(self).pos as int)),
        decreases old(self).tokens.len() - old(self).pos, 1int,
    {
        proof {
            desplegar_sp_while(self.contexto(), self.pos as int);
        }
        let pos = self.pos_actual();
        self.avanzar()?;
        let condicion = self.parse_condicion()?;
        let cuerpo = self.parse_sentencia()?;
        let ghost cv = condicion@;
        let ghost bv = cuerpo@;
        let it = Iteracion::While { posicion: pos, condicion: Box::new(condicion), cuerpo: Box::new(cuerpo) };
        assert(vista_iteracion(it) == SpecIteracion::While {
            posicion: pos,
            condicion: Box::new(cv),
            cuerpo: Box::new(bv),
        });
        let ghost itv = vista_iteracion(it);
        let r = Sentencia::Iteracion(it);
        assert(r@ == SpecSentencia::Iteracion(itv));
        Ok(r)
    }

    fn parse_do_while(&mut self) -> (r: Result<Sentencia, FallaParseo>)
        requires
            old(self).listo(),
        ensures
            final(self).sigue(*old(self)),
            final(self).listo(),
            r is Ok ==> old(self).pos < final(self).pos,
            resulta(r, final(self).pos as int, sp_do_while(old(self).contexto(), old(self).pos as int)),
        decreases old(self).tokens.len() - old(self).pos, 1int,
    {
        proof {
            desplegar_sp_do_while(self.contexto(), self.pos as int);
        }
        let pos = self.pos_actual();
        self.avanzar()?;
        let cuerpo = self.parse_sentencia()?;
        self.esperar(TipoToken::While)?;
        let condicion = self.parse_condicion()?;
        self.esperar(TipoToken::PuntoYComa)?;
        let ghost cv = condicion@;
        let ghost bv = cuerpo@;
        let it = Iteracion::DoWhile { posicion: pos, cuerpo: Box::new(cuerpo), condicion: Box::new(condicion) };
        assert(vista_iteracion(it) == SpecIteracion::DoWhile {
            posicion: pos,
            cuerpo: Box::new(bv),
            condicion: Box::new(cv),
        });
        let ghost itv = vista_iteracion(it);
        let r = Sentencia::Iteracion(it);
        assert(r@ == SpecSentencia::Iteracion(itv));
        Ok(r)
    }

    /// The first part of a `for` header, with its `;`.
    fn parse_for_init(&mut self) -> (r: Result<Option<ForInit>, FallaParseo>)
        requires
            old(self).listo(),
        ensures
            final(self).sigue(*old(self)),
            final(self).listo(),
            match r {
                Ok(v) => sp_for_init(old(self).contexto(), old(self).pos as int) == Ok::<
                    (Option<SpecForInit>, int),
                    Falla,
                >((vista_for_init_opt(v), final(self).pos as int)),
                Err(f) => sp_for_init(old(self).contexto(), old(self).pos as int) == Err::<
                    (Option<SpecForInit>, int),
                    Falla,
                >(f@),
            },
    {
        proof {
            desplegar_sp_for_init(self.contexto(), self.pos as int);
        }
        if self.coincide(TipoToken::PuntoYComa) {
            self.pos = self.pos + 1;
            Ok(None)
        } else if es_inicio_decl_bloque(self.tipo_actual()) {
            let d = self.parse_declaracion()?;
            let ghost dv = d@;
            let fi = ForInit::Declaracion(d);
            assert(vista_for_init(fi) == SpecForInit::Declaracion(dv));
            Ok(Some(fi))
        } else {
            let e = self.parse_expresion()?;
            self.esperar(TipoToken::PuntoYComa)?;
            let ghost ev = e@;
            let fi = ForInit::Expr(Some(Box::new(e)));
            assert(vista_for_init(fi) == SpecForInit::Expr(Some(Box::new(ev))));
            Ok(Some(fi))
        }
    }

    /// An optional expression and the token `fin` after it.
    fn parse_expr_hasta(&mut self, fin: TipoToken) -> (r: Result<Option<Box<Expr>>, FallaParseo>)
        requires
            old(self).listo(),
        ensures
            final(self).sigue(*old(self)),
            final(self).listo(),
            match r {
                Ok(v) => sp_expr_hasta(old(self).contexto(), old(self).pos as int, fin) == Ok::<
                    (Option<Box<SpecExpr>>, int),
                    Falla,
                >((vista_expr_opt(v), final(self).pos as int)),
                Err(f) => sp_expr_hasta(old(self).contexto(), old(self).pos as int, fin) == Err::<
                    (Option<Box<SpecExpr>>, int),
                    Falla,
                >(f@),
            },
    {
        proof {
            desplegar_sp_expr_hasta(self.contexto(), self.pos as int, fin);
        }
        if self.coincide(fin) {
            self.pos = self.pos + 1;
            Ok(None)
        } else {
            let e = self.parse_expresion()?;
            self.esperar(fin)?;
            Ok(Some(Box::new(e)))
        }
    }

    fn parse_for(&mut self) -> (r: Result<Sentencia, FallaParseo>)
        requires
            old(self).listo(),
        ensures
            final(self).sigue(*old(self)),
            final(self).listo(),
            r is Ok ==> old(self).pos < final(self).pos,
            resulta(r, final(self).pos as int, sp_for(old(self).contexto(), old(self).pos as int)),
        decreases old(self).tokens.len() - old(self).pos, 1int,
    {
        proof {
            desplegar_sp_for(self.contexto(), self.pos as int);
        }
        let pos = self.pos_actual();
        self.avanzar()?;
        self.esperar(TipoToken::ParentesisIzq)?;
        let init = self.parse_for_init()?;
        let condicion = self.parse_expr_hasta(TipoToken::PuntoYComa)?;
        let incremento = self.parse_expr_hasta(TipoToken::ParentesisDer)?;
        let cuerpo = self.parse_sentencia()?;
        let ghost iv = vista_for_init_opt(init);
        let ghost cv = vista_expr_opt(condicion);
        let ghost inv = vista_expr_opt(incremento);
        let ghost bv = cuerpo@;
        let it = Iteracion::For { posicion: pos, init, condicion, incremento, cuerpo: Box::new(cuerpo) };
        assert(vista_iteracion(it) == SpecIteracion::For {
            posicion: pos,
            init: iv,
            condicion: cv,
            incremento: inv,
            cuerpo: Box::new(bv),
        });
        let ghost itv = vista_iteracion(it);
        let r = Sentencia::Iteracion(it);
        assert(r@ == SpecSentencia::Iteracion(itv));
        Ok(r)
    }

    // -----------------------------------------------------------------------
    // Program
    // -----------------------------------------------------------------------

    /// Reads the whole program from where the analyser stands: a byte order
    /// mark and preprocessor lines are skipped, then external declarations
    /// are read up to the end of the tokens.
    ///
    /// The first syntax error ends reading and is the result; no partial
    /// tree is given.
    pub fn parsear(&mut self) -> (r: Resultado<Programa>)
        requires
            old(self).posicion() <= old(self).contexto().tokens.len(),
            !(sp_programa(old(self).contexto(), old(self).posicion()) matches Err(
                Falla::FueraDeRango,
            )),
        ensures
            final(self).contexto() == old(self).contexto(),
            old(self).posicion() <= final(self).posicion() <= final(self).contexto().tokens.len(),
            match sp_programa(old(self).contexto(), old(self).posicion()) {
                Ok(p) => r matches Ok(v) && v@ == p,
                Err(f) => r matches Err(e) && f == Falla::Sintaxis(e@),
            },
            r is Ok ==> final(self).posicion() == final(self).contexto().tokens.len(),
            r matches Err(e) ==> error_del_texto(old(self).contexto(), e@),
    {
        proof {
            if self.tokens.len() > 0 {
                lema_errores_del_programa(self.contexto(), self.pos as int);
            } else {
                lema_programa_sin_tokens(self.contexto());
            }
        }
        match self.parsear_programa() {
            Ok(p) => Ok(p),
            Err(FallaParseo::Sintaxis(e)) => Err(e),
            Err(FallaParseo::FueraDeRango) => {
                proof {
                    assert(false);
                }
                Ok(Programa { declaraciones: Vec::new() })
            },
        }
    }

    /// Reads the whole program as `parsear` does, and gives `None` where
    /// reading would take a token past the last one (the tokens end without
    /// an end-of-file token where one more is needed).
    pub fn parsear_comprobado(&mut self) -> (r: Option<Resultado<Programa>>)
        requires
            old(self).posicion() <= old(self).contexto().tokens.len(),
        ensures
            final(self).contexto() == old(self).contexto(),
            old(self).posicion() <= final(self).posicion() <= final(self).contexto().tokens.len(),
            match sp_programa(old(self).contexto(), old(self).posicion()) {
                Ok(p) => r matches Some(Ok(v)) && v@ == p,
                Err(Falla::Sintaxis(e)) => r matches Some(Err(g)) && g@ == e,
                Err(Falla::FueraDeRango) => r is None,
            },
            r matches Some(Err(e)) ==> error_del_texto(old(self).contexto(), e@),
    {
        proof {
            if self.tokens.len() > 0 {
                lema_errores_del_programa(self.contexto(), self.pos as int);
            } else {
                lema_programa_sin_tokens(self.contexto());
            }
        }
        match self.parsear_programa() {
            Ok(p) => Some(Ok(p)),
            Err(FallaParseo::Sintaxis(e)) => Some(Err(e)),
            Err(FallaParseo::FueraDeRango) => None,
        }
    }

    fn parsear_programa(&mut self) -> (r: Result<Programa, FallaParseo>)
        requires
            old(self).pos <= old(self).tokens.len(),
        ensures
            final(self).sigue(*old(self)),
            match r {
                Ok(v) => sp_programa(old(self).contexto(), old(self).pos as int) == Ok::<
                    SpecPrograma,
                    Falla,
                >(v@) && final(self).pos == final(self).tokens.len(),
                Err(f) => sp_programa(old(self).contexto(), old(self).pos as int) == Err::<
                    SpecPrograma,
                    Falla,
                >(f@),
            },
    {
        let ghost c = self.contexto();
        proof {
            reveal(sp_programa);
        }
        self.saltar_bom();
        self.saltar_preprocesador();
        let ghost p0 = self.pos as int;
        let mut declaraciones: Vec<DeclExterna> = Vec::new();
        proof {
            assert(vista_decls_externas(declaraciones@) =~= Seq::<SpecDeclExterna>::empty());
        }
        loop
            invariant_except_break
                sp_programa_desde(c, p0, Seq::empty()) == sp_programa_desde(
                    c,
                    self.pos as int,
                    vista_decls_externas(declaraciones@),
                ),
            invariant
                self.sigue(*old(self)),
                self.contexto() == c,
                c == old(self).contexto(),
                sp_programa(c, old(self).pos as int) == match sp_programa_desde(c, p0, Seq::empty()) {
                    Err(f) => Err(f),
                    Ok(ds) => Ok(SpecPrograma { declaraciones: ds }),
                },
            ensures
                self.sigue(*old(self)),
                self.pos == self.tokens.len(),
                sp_programa_desde(c, p0, Seq::empty()) == Ok::<Seq<SpecDeclExterna>, Falla>(
                    vista_decls_externas(declaraciones@),
                ),
            decreases self.tokens.len() - self.pos,
        {
            let ghost p = self.pos as int;
            let ghost acc = vista_decls_externas(declaraciones@);
            proof {
                desplegar_sp_programa_desde(c, p, acc);
            }
            if self.es_fin() {
                break;
            }
            self.saltar_preprocesador();
            if self.es_fin() {
                break;
            }
            let d = self.parse_decl_externa()?;
            proof {
                lema_vista_decls_externas_push(declaraciones@, d);
            }
            declaraciones.push(d);
        }
        let prog = Programa { declaraciones };
        assert(prog@ == SpecPrograma { declaraciones: vista_decls_externas(prog.declaraciones@) });
        Ok(prog)
    }

    /// Steps over a byte order mark at the current position.
    fn saltar_bom(&mut self)
        requires
            old(self).pos <= old(self).tokens.len(),
        ensures
            final(self).sigue(*old(self)),
            final(self).pos == saltar_bom(old(self).contexto(), old(self).pos as int),
    {
        if !self.es_fin() {
            let t = self.actual();
            if t.tipo == TipoToken::Desconocido && es_caracter(&t.valor, '\u{feff}') {
                self.pos = self.pos + 1;
            }
        }
    }

    /// Steps over every line that starts with `#`.
    fn saltar_preprocesador(&mut self)
        requires
            old(self).pos <= old(self).tokens.len(),
        ensures
            final(self).sigue(*old(self)),
            final(self).pos == saltar_preprocesador(old(self).contexto(), old(self).pos as int),
    {
        let ghost c = self.contexto();
        while !self.es_fin()
            invariant_except_break
                saltar_preprocesador(c, old(self).pos as int) == saltar_preprocesador(
                    c,
                    self.pos as int,
                ),
            invariant
                self.sigue(*old(self)),
                self.contexto() == c,
                c == old(self).contexto(),
            ensures
                self.sigue(*old(self)),
                saltar_preprocesador(c, old(self).pos as int) == self.pos,
            decreases self.tokens.len() - self.pos,
        {
            let t = self.actual();
            if t.tipo == TipoToken::Desconocido && es_caracter(&t.valor, '#') {
                let linea = t.posicion.linea;
                let ghost p = self.pos as int;
                self.pos = self.pos + 1;
                while !self.es_fin() && self.actual().posicion.linea == linea
                    invariant
                        self.sigue(*old(self)),
                        self.contexto() == c,
                        c == old(self).contexto(),
                        p < self.pos,
                        saltar_linea(c, p, linea) == saltar_linea(c, self.pos as int, linea),
                    decreases self.tokens.len() - self.pos,
                {
                    self.pos = self.pos + 1;
                }
            } else {
                break;
            }
        }
    }

    /// A function definition, or an external declaration.
    fn parse_decl_externa(&mut self) -> (r: Result<DeclExterna, FallaParseo>)
        requires
            old(self).listo(),
        ensures
            final(self).sigue(*old(self)),
            final(self).listo(),
            r is Ok ==> old(self).pos < final(self).pos,
            resulta(r, final(self).pos as int, sp_decl_externa(old(self).contexto(), old(self).pos as int)),
    {
        proof {
            desplegar_sp_decl_externa(self.contexto(), self.pos as int);
        }
        let pos = self.pos_actual();
        let especificadores = self.parse_especificadores()?;
        let declarador = self.parse_declarador()?;
        let ghost ev = especificadores@;
        let ghost dv = declarador@;
        if self.coincide(TipoToken::LlaveIzq) {
            let cuerpo = self.parse_bloque()?;
            let ghost bv = cuerpo@;
            let d = DeclExterna::Funcion(FuncionDef { posicion: pos, especificadores, declarador, cuerpo });
            assert(d@ == SpecDeclExterna::Funcion(
                SpecFuncionDef { posicion: pos, especificadores: ev, declarador: dv, cuerpo: bv },
            ));
            Ok(d)
        } else {
            let inicializador = self.parse_inicializador_opt()?;
            let primero = InitDeclarador { declarador, inicializador };
            assert(primero@ == SpecInitDeclarador {
                declarador: dv,
                inicializador: vista_inicializador_opt(primero.inicializador),
            });
            let declaradores = self.parse_init_declaradores(primero)?;
            self.esperar(TipoToken::PuntoYComa)?;
            let ghost dsv = vista_init_declaradores(declaradores@);
            let decl = Declaracion { posicion: pos, especificadores, declaradores };
            assert(decl@ == SpecDeclaracion { posicion: pos, especificadores: ev, declaradores: dsv });
            let ghost declv = decl@;
            let d = DeclExterna::Declaracion(decl);
            assert(d@ == SpecDeclExterna::Declaracion(declv));
            Ok(d)
        }
    }

    /// Takes a token of kind `tipo` and gives its lexeme.
    fn esperar_valor(&mut self, tipo: TipoToken) -> (r: Result<String, FallaParseo>)
        requires
            old(self).listo(),
        ensures
            final(self).sigue(*old(self)),
            final(self).listo(),
            match esperar(old(self).contexto(), old(self).pos as int, tipo) {
                Ok(q) => r matches Ok(v) && final(self).pos == q && v@ == valor_de(
                    old(self).tokens@[old(self).pos as int],
                ),
                Err(f) => r matches Err(g) && g@ == f,
            },
    {
        if self.coincide(tipo) {
            self.tomar_valor()
        } else {
            Err(self.error_aqui(nombre_tipo(tipo)))
        }
    }
}


/// `v` holds a text made of the one character `ch`.
fn es_caracter(v: &Option<String>, ch: char) -> (r: bool)
    ensures
        r == (match v {
            Some(s) => s@ == seq![ch],
            None => false,
        }),
{
    match v {
        Some(s) => {
            let t = s.as_str();
            let r = t.unicode_len() == 1 && t.get_char(0) == ch;
            proof {
                if r {
                    assert(s@ =~= seq![ch]);
                }
            }
            r
        },
        None => false,
    }
}

} // verus!
