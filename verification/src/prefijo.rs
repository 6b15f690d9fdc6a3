//! Reading after a prefix: what is read from a position after `k` tokens of
//! a longer list is what is read from the same tokens alone; and a byte order
//! mark and whole preprocessor lines before a program change nothing of what
//! is read.

use crate::gramatica::{
    Avance, Contexto, Falla, NivelBinario, adelante, almacenamiento_de, avanzar, calificador_de, calificadores_puntero, coincide, con_tipo, desplegar_sp_aditiva, desplegar_sp_aditiva_desde, desplegar_sp_argumentos, desplegar_sp_asignacion, desplegar_sp_binaria, desplegar_sp_binaria_desde, desplegar_sp_bloque, desplegar_sp_condicion, desplegar_sp_decl_externa, desplegar_sp_declaracion, desplegar_sp_declarador, desplegar_sp_declarador_directo, desplegar_sp_do_while, desplegar_sp_enum, desplegar_sp_enumeradores, desplegar_sp_especificadores, desplegar_sp_especificadores_desde, desplegar_sp_etiquetada, desplegar_sp_expr_hasta, desplegar_sp_expresion, desplegar_sp_for, desplegar_sp_for_init, desplegar_sp_goto, desplegar_sp_if, desplegar_sp_inicializador, desplegar_sp_inicializador_opt, desplegar_sp_init_declaradores, desplegar_sp_items, desplegar_sp_lista_argumentos, desplegar_sp_lista_inicializadores, desplegar_sp_miembro, desplegar_sp_miembros, desplegar_sp_multiplicativa, desplegar_sp_multiplicativa_desde, desplegar_sp_operando, desplegar_sp_parametros, desplegar_sp_parametros_desde, desplegar_sp_parametros_tras, desplegar_sp_postfija, desplegar_sp_postfija_desde, desplegar_sp_primaria, desplegar_sp_programa, desplegar_sp_programa_desde, desplegar_sp_punteros, desplegar_sp_relacional, desplegar_sp_relacional_desde, desplegar_sp_return, desplegar_sp_salto_simple, desplegar_sp_sentencia, desplegar_sp_sentencia_expr, desplegar_sp_struct_union, desplegar_sp_sufijos, desplegar_sp_switch, desplegar_sp_tamano, desplegar_sp_ternario, desplegar_sp_tipo, desplegar_sp_tipo_punteros, desplegar_sp_unaria, desplegar_sp_valor_enumerador, desplegar_sp_while, error_aqui, error_token, es_almohadilla, es_cast, es_etiqueta, es_fin, es_inicio_decl_bloque, es_inicio_declarador, es_marca_orden, es_operador_de, especificadores_vacios, esperar, fuera, leer_calificadores, lema_programa_sin_tokens, literal_de, no_atras, nombre_opcional, operador_aditivo_de, operador_asignacion_de, operador_binario_de, operador_multiplicativo_de, operador_relacional_de, operador_unario_de, pos_actual, rango_nivel, saltar_bom, saltar_linea, saltar_preprocesador, sp_aditiva, sp_aditiva_desde, sp_argumentos, sp_asignacion, sp_binaria, sp_binaria_desde, sp_bloque, sp_condicion, sp_decl_externa, sp_declaracion, sp_declarador, sp_declarador_directo, sp_do_while, sp_enum, sp_enumeradores, sp_especificadores, sp_especificadores_desde, sp_etiquetada, sp_expr_hasta, sp_expresion, sp_for, sp_for_init, sp_goto, sp_if, sp_inicializador, sp_inicializador_opt, sp_init_declaradores, sp_items, sp_lista_argumentos, sp_lista_inicializadores, sp_miembro, sp_miembros, sp_multiplicativa, sp_multiplicativa_desde, sp_operando, sp_parametros, sp_parametros_desde, sp_parametros_tras, sp_postfija, sp_postfija_desde, sp_primaria, sp_programa, sp_programa_desde, sp_punteros, sp_relacional, sp_relacional_desde, sp_return, sp_salto_simple, sp_sentencia, sp_sentencia_expr, sp_struct_union, sp_sufijos, sp_switch, sp_tamano, sp_ternario, sp_tipo, sp_tipo_punteros, sp_unaria, sp_valor_enumerador, sp_while, tipo_actual, tipo_primitivo_de, tipo_struct_union, tras_prefijo,
};
use crate::ast::{
    Calificador, Declaracion, Expr, Iteracion, Literal, OperadorUnario, Puntero, Salto, Seleccion, Sentencia, SpecBloque, SpecDeclExterna, SpecDeclaracion, SpecDeclarador, SpecDeclaradorBase, SpecEnum, SpecEnumerador, SpecEspecificadores, SpecEtiqueta, SpecExpr, SpecForInit, SpecFuncionDef, SpecInicializador, SpecInitDeclarador, SpecItemBloque, SpecIteracion, SpecParametro, SpecPrograma, SpecSalto, SpecSeleccion, SpecSentencia, SpecSizeofObjetivo, SpecSufijo, SpecTipo, Tipo, TipoPrimitivo,
};
use crate::token::{
    Posicion, TipoToken, Token, valor_de,
};
use vstd::prelude::*;

verus! {

/// `r1` is `r2` with its position `k` places on, and `r2` stops at or after
/// `p`.
pub open spec fn desplazada<T>(r1: Avance<T>, r2: Avance<T>, kp: int, p: int) -> bool {
    match r2 {
        Ok((v, q)) => p <= q && r1 == Ok::<(T, int), Falla>((v, q + kp)),
        Err(f) => r1 == Err::<(T, int), Falla>(f),
    }
}

broadcast use crate::gramatica::lema_error_aqui_tras, crate::gramatica::lema_error_token_tras;

proof fn lema_calificadores_tras(
    c1: Contexto,
    c2: Contexto,
    kp: int,
    p: int,
    kk: TipoToken,
    cal: Calificador,
    acc: Seq<Calificador>,
)
    requires
        tras_prefijo(c1, c2, kp),
        0 <= p,
    ensures
        leer_calificadores(c1, p + kp, kk, cal, acc).0 == leer_calificadores(c2, p, kk, cal, acc).0,
        leer_calificadores(c1, p + kp, kk, cal, acc).1 == leer_calificadores(c2, p, kk, cal, acc).1 + kp,
        p <= leer_calificadores(c2, p, kk, cal, acc).1,
    decreases c2.tokens.len() - p,
{
    if coincide(c2, p, kk) {
        assert(c1.tokens[p + kp] == c2.tokens[p]);
        lema_calificadores_tras(c1, c2, kp, p + 1, kk, cal, acc.push(cal));
    } else if p < c2.tokens.len() {
        assert(c1.tokens[p + kp] == c2.tokens[p]);
    }
}

proof fn lema_calificadores_puntero_tras(c1: Contexto, c2: Contexto, kp: int, p: int)
    requires
        tras_prefijo(c1, c2, kp),
        0 <= p,
    ensures
        calificadores_puntero(c1, p + kp).0 == calificadores_puntero(c2, p).0,
        calificadores_puntero(c1, p + kp).1 == calificadores_puntero(c2, p).1 + kp,
        p <= calificadores_puntero(c2, p).1,
{
    lema_calificadores_tras(c1, c2, kp, p, TipoToken::Const, Calificador::Const, Seq::empty());
    let (a, q) = leer_calificadores(c2, p, TipoToken::Const, Calificador::Const, Seq::empty());
    lema_calificadores_tras(c1, c2, kp, q, TipoToken::Volatile, Calificador::Volatile, a);
}

proof fn lema_tras_punteros(c1: Contexto, c2: Contexto, kp: int, p: int, acc: Seq<Seq<Calificador>>)
    requires
        tras_prefijo(c1, c2, kp),
        0 <= p,
    ensures
        sp_punteros(c1, p + kp, acc).0 == sp_punteros(c2, p, acc).0,
        sp_punteros(c1, p + kp, acc).1 == sp_punteros(c2, p, acc).1 + kp,
        p <= sp_punteros(c2, p, acc).1,
    decreases c2.tokens.len() - p,
{
    desplegar_sp_punteros(c1, p + kp, acc);
    desplegar_sp_punteros(c2, p, acc);
    if p < c2.tokens.len() {
        assert(c1.tokens[p + kp] == c2.tokens[p]);
    }
    if coincide(c2, p, TipoToken::Asterisco) {
        lema_calificadores_puntero_tras(c1, c2, kp, p + 1);
        let (cal, q) = calificadores_puntero(c2, p + 1);
        if adelante(c2, p, q) {
            lema_tras_punteros(c1, c2, kp, q, acc.push(cal));
        }
    }
}

proof fn lema_salto_linea_tras(c1: Contexto, c2: Contexto, kp: int, p: int, linea: usize)
    requires
        tras_prefijo(c1, c2, kp),
        0 <= p,
    ensures
        saltar_linea(c1, p + kp, linea) == saltar_linea(c2, p, linea) + kp,
        p <= saltar_linea(c2, p, linea),
    decreases c2.tokens.len() - p,
{
    if p < c2.tokens.len() {
        assert(c1.tokens[p + kp] == c2.tokens[p]);
        if c2.tokens[p].posicion.linea == linea {
            lema_salto_linea_tras(c1, c2, kp, p + 1, linea);
        }
    }
}

proof fn lema_salto_preprocesador_tras(c1: Contexto, c2: Contexto, kp: int, p: int)
    requires
        tras_prefijo(c1, c2, kp),
        0 <= p,
    ensures
        saltar_preprocesador(c1, p + kp) == saltar_preprocesador(c2, p) + kp,
        p <= saltar_preprocesador(c2, p),
    decreases c2.tokens.len() - p,
{
    if p < c2.tokens.len() {
        assert(c1.tokens[p + kp] == c2.tokens[p]);
        if es_almohadilla(c2.tokens[p]) {
            lema_salto_linea_tras(c1, c2, kp, p, c2.tokens[p].posicion.linea);
            let q = saltar_linea(c2, p, c2.tokens[p].posicion.linea);
            if adelante(c2, p, q) {
                lema_salto_preprocesador_tras(c1, c2, kp, q);
            }
        }
    }
}

/// `sp_tipo_punteros` reads the same after a prefix of `k` tokens, `k` places on.
proof fn lema_tras_tipo_punteros(c1: Contexto, c2: Contexto, kp: int, p: int, t: SpecTipo)
    requires
        tras_prefijo(c1, c2, kp),
        0 <= p,
    ensures
        desplazada(sp_tipo_punteros(c1, p + kp, t), sp_tipo_punteros(c2, p, t), kp, p),
    decreases c2.tokens.len() - p,
{
    desplegar_sp_tipo_punteros(c1, p + kp, t);
    desplegar_sp_tipo_punteros(c2, p, t);
    let _r = {
        if coincide(c2, p, TipoToken::Asterisco) && p >= 0 {
            let (cal, q) = { lema_calificadores_puntero_tras(c1, c2, kp, p + 1); calificadores_puntero(c2, p + 1) };
            if adelante(c2, p, q) {
                { lema_tras_tipo_punteros(c1, c2, kp, q, SpecTipo::Puntero { calificadores: cal, apunta_a: Box::new(t) }); sp_tipo_punteros(c2, q, SpecTipo::Puntero { calificadores: cal, apunta_a: Box::new(t) }) }
            } else {
                fuera()
            }
        } else {
            Ok((t, p))
        }
    };
}

/// `sp_tipo` reads the same after a prefix of `k` tokens, `k` places on.
proof fn lema_tras_tipo(c1: Contexto, c2: Contexto, kp: int, p: int)
    requires
        tras_prefijo(c1, c2, kp),
        0 <= p,
    ensures
        desplazada(sp_tipo(c1, p + kp), sp_tipo(c2, p), kp, p),
{
    desplegar_sp_tipo(c1, p + kp);
    desplegar_sp_tipo(c2, p);
    let _r = {
        if coincide(c2, p, TipoToken::Identificador) {
            Ok((SpecTipo::Nombre(valor_de(c2.tokens[p])), p + 1))
        } else if es_fin(c2, p) || p < 0 {
            fuera()
        } else {
            let t = c2.tokens[p];
            match tipo_primitivo_de(t.tipo) {
                None => Err(error_token(c2, pos_actual(c2, p + 1), "tipo primitivo"@, t)),
                Some(prim) => {
                    let q = if coincide(c2, p + 1, TipoToken::Long) && (prim == TipoPrimitivo::Long
                        || prim == TipoPrimitivo::Double) {
                        p + 2
                    } else {
                        p + 1
                    };
                    { lema_tras_tipo_punteros(c1, c2, kp, q, SpecTipo::Primitivo(prim)); sp_tipo_punteros(c2, q, SpecTipo::Primitivo(prim)) }
                },
            }
        }
    };
}

/// `sp_especificadores` reads the same after a prefix of `k` tokens, `k` places on.
proof fn lema_tras_especificadores(c1: Contexto, c2: Contexto, kp: int, p: int)
    requires
        tras_prefijo(c1, c2, kp),
        0 <= p,
    ensures
        desplazada(sp_especificadores(c1, p + kp), sp_especificadores(c2, p), kp, p),
    decreases c2.tokens.len() - p, 2int,
{
    desplegar_sp_especificadores(c1, p + kp);
    desplegar_sp_especificadores(c2, p);
    let _r = {
        { lema_tras_especificadores_desde(c1, c2, kp, p, especificadores_vacios()); sp_especificadores_desde(c2, p, especificadores_vacios()) }
    };
}

/// `sp_especificadores_desde` reads the same after a prefix of `k` tokens, `k` places on.
proof fn lema_tras_especificadores_desde(c1: Contexto, c2: Contexto, kp: int, p: int, e: SpecEspecificadores)
    requires
        tras_prefijo(c1, c2, kp),
        0 <= p,
    ensures
        desplazada(sp_especificadores_desde(c1, p + kp, e), sp_especificadores_desde(c2, p, e), kp, p),
    decreases c2.tokens.len() - p, 1int,
{
    desplegar_sp_especificadores_desde(c1, p + kp, e);
    desplegar_sp_especificadores_desde(c2, p, e);
    let _r = {
        let k = tipo_actual(c2, p);
        if almacenamiento_de(k) is Some {
            match avanzar(c2, p) {
                Err(f) => Err(f),
                Ok(q) => { lema_tras_especificadores_desde(c1, c2, kp, q, SpecEspecificadores {
                        almacenamiento: e.almacenamiento.push(almacenamiento_de(k).unwrap()),
                        calificadores: e.calificadores,
                        tipo: e.tipo,
                    }); sp_especificadores_desde(
                    c2,
                    q,
                    SpecEspecificadores {
                        almacenamiento: e.almacenamiento.push(almacenamiento_de(k).unwrap()),
                        calificadores: e.calificadores,
                        tipo: e.tipo,
                    },
                ) },
            }
        } else if calificador_de(k) is Some {
            match avanzar(c2, p) {
                Err(f) => Err(f),
                Ok(q) => { lema_tras_especificadores_desde(c1, c2, kp, q, SpecEspecificadores {
                        almacenamiento: e.almacenamiento,
                        calificadores: e.calificadores.push(calificador_de(k).unwrap()),
                        tipo: e.tipo,
                    }); sp_especificadores_desde(
                    c2,
                    q,
                    SpecEspecificadores {
                        almacenamiento: e.almacenamiento,
                        calificadores: e.calificadores.push(calificador_de(k).unwrap()),
                        tipo: e.tipo,
                    },
                ) },
            }
        } else if k == TipoToken::Struct || k == TipoToken::Union || k == TipoToken::Enum {
            let r = if k == TipoToken::Enum {
                { lema_tras_enum(c1, c2, kp, p); sp_enum(c2, p) }
            } else {
                { lema_tras_struct_union(c1, c2, kp, p, k == TipoToken::Struct); sp_struct_union(c2, p, k == TipoToken::Struct) }
            };
            match r {
                Err(f) => Err(f),
                Ok((t, q)) => if adelante(c2, p, q) {
                    { lema_tras_especificadores_desde(c1, c2, kp, q, con_tipo(e, t)); sp_especificadores_desde(c2, q, con_tipo(e, t)) }
                } else {
                    fuera()
                },
            }
        } else if tipo_primitivo_de(k) is Some || k == TipoToken::Identificador {
            match { lema_tras_tipo(c1, c2, kp, p); sp_tipo(c2, p) } {
                Err(f) => Err(f),
                Ok((t, q)) => Ok((con_tipo(e, t), q)),
            }
        } else {
            Ok((e, p))
        }
    };
}

/// `sp_struct_union` reads the same after a prefix of `k` tokens, `k` places on.
proof fn lema_tras_struct_union(c1: Contexto, c2: Contexto, kp: int, p: int, es_struct: bool)
    requires
        tras_prefijo(c1, c2, kp),
        0 <= p,
    ensures
        desplazada(sp_struct_union(c1, p + kp, es_struct), sp_struct_union(c2, p, es_struct), kp, p),
    decreases c2.tokens.len() - p, 0int,
{
    desplegar_sp_struct_union(c1, p + kp, es_struct);
    desplegar_sp_struct_union(c2, p, es_struct);
    let _r = {
        match avanzar(c2, p) {
            Err(f) => Err(f),
            Ok(p1) => {
                let (nombre, p2) = nombre_opcional(c2, p1);
                if coincide(c2, p2, TipoToken::LlaveIzq) {
                    match { lema_tras_miembros(c1, c2, kp, p2 + 1, Seq::empty()); sp_miembros(c2, p2 + 1, Seq::empty()) } {
                        Err(f) => Err(f),
                        Ok((ms, p3)) => if no_atras(c2, p2 + 1, p3) {
                            match esperar(c2, p3, TipoToken::LlaveDer) {
                                Err(f) => Err(f),
                                Ok(p4) => Ok((tipo_struct_union(es_struct, nombre, ms), p4)),
                            }
                        } else {
                            fuera()
                        },
                    }
                } else {
                    Ok((tipo_struct_union(es_struct, nombre, Seq::empty()), p2))
                }
            },
        }
    };
}

/// `sp_miembros` reads the same after a prefix of `k` tokens, `k` places on.
proof fn lema_tras_miembros(c1: Contexto, c2: Contexto, kp: int, p: int, acc: Seq<SpecDeclaracion>)
    requires
        tras_prefijo(c1, c2, kp),
        0 <= p,
    ensures
        desplazada(sp_miembros(c1, p + kp, acc), sp_miembros(c2, p, acc), kp, p),
    decreases c2.tokens.len() - p, 4int,
{
    desplegar_sp_miembros(c1, p + kp, acc);
    desplegar_sp_miembros(c2, p, acc);
    let _r = {
        if !coincide(c2, p, TipoToken::LlaveDer) && !es_fin(c2, p) {
            match { lema_tras_declaracion(c1, c2, kp, p); sp_declaracion(c2, p) } {
                Err(f) => Err(f),
                Ok((d, q)) => if adelante(c2, p, q) {
                    { lema_tras_miembros(c1, c2, kp, q, acc.push(d)); sp_miembros(c2, q, acc.push(d)) }
                } else {
                    fuera()
                },
            }
        } else {
            Ok((acc, p))
        }
    };
}

/// `sp_declaracion` reads the same after a prefix of `k` tokens, `k` places on.
proof fn lema_tras_declaracion(c1: Contexto, c2: Contexto, kp: int, p: int)
    requires
        tras_prefijo(c1, c2, kp),
        0 <= p,
    ensures
        desplazada(sp_declaracion(c1, p + kp), sp_declaracion(c2, p), kp, p),
    decreases c2.tokens.len() - p, 3int,
{
    desplegar_sp_declaracion(c1, p + kp);
    desplegar_sp_declaracion(c2, p);
    let _r = {
        let pos = pos_actual(c2, p);
        match { lema_tras_especificadores(c1, c2, kp, p); sp_especificadores(c2, p) } {
            Err(f) => Err(f),
            Ok((esp, p1)) => if no_atras(c2, p, p1) {
                match { lema_tras_declarador(c1, c2, kp, p1); sp_declarador(c2, p1) } {
                    Err(f) => Err(f),
                    Ok((d, p2)) => if adelante(c2, p1, p2) {
                        match { lema_tras_inicializador_opt(c1, c2, kp, p2); sp_inicializador_opt(c2, p2) } {
                            Err(f) => Err(f),
                            Ok((ini, p3)) => if no_atras(c2, p2, p3) {
                                let primero = SpecInitDeclarador { declarador: d, inicializador: ini };
                                match { lema_tras_init_declaradores(c1, c2, kp, p3, seq![primero]); sp_init_declaradores(c2, p3, seq![primero]) } {
                                    Err(f) => Err(f),
                                    Ok((ds, p4)) => if no_atras(c2, p3, p4) {
                                        match esperar(c2, p4, TipoToken::PuntoYComa) {
                                            Err(f) => Err(f),
                                            Ok(p5) => Ok(
                                                (
                                                    SpecDeclaracion {
                                                        posicion: pos,
                                                        especificadores: esp,
                                                        declaradores: ds,
                                                    },
                                                    p5,
                                                ),
                                            ),
                                        }
                                    } else {
                                        fuera()
                                    },
                                }
                            } else {
                                fuera()
                            },
                        }
                    } else {
                        fuera()
                    },
                }
            } else {
                fuera()
            },
        }
    };
}

/// `sp_init_declaradores` reads the same after a prefix of `k` tokens, `k` places on.
proof fn lema_tras_init_declaradores(c1: Contexto, c2: Contexto, kp: int, p: int, acc: Seq<SpecInitDeclarador>)
    requires
        tras_prefijo(c1, c2, kp),
        0 <= p,
    ensures
        desplazada(sp_init_declaradores(c1, p + kp, acc), sp_init_declaradores(c2, p, acc), kp, p),
    decreases c2.tokens.len() - p, 0int,
{
    desplegar_sp_init_declaradores(c1, p + kp, acc);
    desplegar_sp_init_declaradores(c2, p, acc);
    let _r = {
        if coincide(c2, p, TipoToken::Coma) && p >= 0 {
            match { lema_tras_declarador(c1, c2, kp, p + 1); sp_declarador(c2, p + 1) } {
                Err(f) => Err(f),
                Ok((d, q1)) => if adelante(c2, p + 1, q1) {
                    match { lema_tras_inicializador_opt(c1, c2, kp, q1); sp_inicializador_opt(c2, q1) } {
                        Err(f) => Err(f),
                        Ok((ini, q2)) => if no_atras(c2, q1, q2) {
                            { lema_tras_init_declaradores(c1, c2, kp, q2, acc.push(SpecInitDeclarador { declarador: d, inicializador: ini })); sp_init_declaradores(
                                c2,
                                q2,
                                acc.push(SpecInitDeclarador { declarador: d, inicializador: ini }),
                            ) }
                        } else {
                            fuera()
                        },
                    }
                } else {
                    fuera()
                },
            }
        } else {
            Ok((acc, p))
        }
    };
}

/// `sp_declarador` reads the same after a prefix of `k` tokens, `k` places on.
proof fn lema_tras_declarador(c1: Contexto, c2: Contexto, kp: int, p: int)
    requires
        tras_prefijo(c1, c2, kp),
        0 <= p,
    ensures
        desplazada(sp_declarador(c1, p + kp), sp_declarador(c2, p), kp, p),
    decreases c2.tokens.len() - p, 1int,
{
    desplegar_sp_declarador(c1, p + kp);
    desplegar_sp_declarador(c2, p);
    let _r = {
        let (ps, p1) = { lema_tras_punteros(c1, c2, kp, p, Seq::empty()); sp_punteros(c2, p, Seq::empty()) };
        if no_atras(c2, p, p1) {
            match { lema_tras_declarador_directo(c1, c2, kp, p1); sp_declarador_directo(c2, p1) } {
                Err(f) => Err(f),
                Ok((b, p2)) => Ok((SpecDeclarador { punteros: ps, base: b }, p2)),
            }
        } else {
            fuera()
        }
    };
}

/// `sp_declarador_directo` reads the same after a prefix of `k` tokens, `k` places on.
proof fn lema_tras_declarador_directo(c1: Contexto, c2: Contexto, kp: int, p: int)
    requires
        tras_prefijo(c1, c2, kp),
        0 <= p,
    ensures
        desplazada(sp_declarador_directo(c1, p + kp), sp_declarador_directo(c2, p), kp, p),
    decreases c2.tokens.len() - p, 0int,
{
    desplegar_sp_declarador_directo(c1, p + kp);
    desplegar_sp_declarador_directo(c2, p);
    let _r = {
        if coincide(c2, p, TipoToken::ParentesisIzq) && p >= 0 {
            match { lema_tras_declarador(c1, c2, kp, p + 1); sp_declarador(c2, p + 1) } {
                Err(f) => Err(f),
                Ok((d, q)) => if adelante(c2, p + 1, q) {
                    match esperar(c2, q, TipoToken::ParentesisDer) {
                        Err(f) => Err(f),
                        Ok(q2) => { lema_tras_sufijos(c1, c2, kp, q2, SpecDeclaradorBase::Agrupado(Box::new(d))); sp_sufijos(c2, q2, SpecDeclaradorBase::Agrupado(Box::new(d))) },
                    }
                } else {
                    fuera()
                },
            }
        } else {
            match esperar(c2, p, TipoToken::Identificador) {
                Err(f) => Err(f),
                Ok(q) => { lema_tras_sufijos(c1, c2, kp, q, SpecDeclaradorBase::Identificador(valor_de(c2.tokens[p]))); sp_sufijos(
                    c2,
                    q,
                    SpecDeclaradorBase::Identificador(valor_de(c2.tokens[p])),
                ) },
            }
        }
    };
}

/// `sp_tamano` reads the same after a prefix of `k` tokens, `k` places on.
proof fn lema_tras_tamano(c1: Contexto, c2: Contexto, kp: int, p: int)
    requires
        tras_prefijo(c1, c2, kp),
        0 <= p,
    ensures
        desplazada(sp_tamano(c1, p + kp), sp_tamano(c2, p), kp, p),
{
    desplegar_sp_tamano(c1, p + kp);
    desplegar_sp_tamano(c2, p);
    let _r = {
        if coincide(c2, p, TipoToken::CorcheteDer) {
            Ok((None, p))
        } else {
            match { lema_tras_expresion(c1, c2, kp, p); sp_expresion(c2, p) } {
                Err(f) => Err(f),
                Ok((e, q)) => Ok((Some(Box::new(e)), q)),
            }
        }
    };
}

/// `sp_sufijos` reads the same after a prefix of `k` tokens, `k` places on.
proof fn lema_tras_sufijos(c1: Contexto, c2: Contexto, kp: int, p: int, base: SpecDeclaradorBase)
    requires
        tras_prefijo(c1, c2, kp),
        0 <= p,
    ensures
        desplazada(sp_sufijos(c1, p + kp, base), sp_sufijos(c2, p, base), kp, p),
    decreases c2.tokens.len() - p, 0int,
{
    desplegar_sp_sufijos(c1, p + kp, base);
    desplegar_sp_sufijos(c2, p, base);
    let _r = {
        if coincide(c2, p, TipoToken::CorcheteIzq) && p >= 0 {
            match { lema_tras_tamano(c1, c2, kp, p + 1); sp_tamano(c2, p + 1) } {
                Err(f) => Err(f),
                Ok((tam, q)) => if no_atras(c2, p + 1, q) {
                    match esperar(c2, q, TipoToken::CorcheteDer) {
                        Err(f) => Err(f),
                        Ok(q2) => { lema_tras_sufijos(c1, c2, kp, q2, SpecDeclaradorBase::Derivado {
                                interno: Box::new(base),
                                sufijo: SpecSufijo::Array(tam),
                            }); sp_sufijos(
                            c2,
                            q2,
                            SpecDeclaradorBase::Derivado {
                                interno: Box::new(base),
                                sufijo: SpecSufijo::Array(tam),
                            },
                        ) },
                    }
                } else {
                    fuera()
                },
            }
        } else if coincide(c2, p, TipoToken::ParentesisIzq) && p >= 0 {
            match { lema_tras_parametros(c1, c2, kp, p + 1); sp_parametros(c2, p + 1) } {
                Err(f) => Err(f),
                Ok((ps, q)) => if no_atras(c2, p + 1, q) {
                    match esperar(c2, q, TipoToken::ParentesisDer) {
                        Err(f) => Err(f),
                        Ok(q2) => { lema_tras_sufijos(c1, c2, kp, q2, SpecDeclaradorBase::Derivado {
                                interno: Box::new(base),
                                sufijo: SpecSufijo::Funcion(ps),
                            }); sp_sufijos(
                            c2,
                            q2,
                            SpecDeclaradorBase::Derivado {
                                interno: Box::new(base),
                                sufijo: SpecSufijo::Funcion(ps),
                            },
                        ) },
                    }
                } else {
                    fuera()
                },
            }
        } else {
            Ok((base, p))
        }
    };
}

/// `sp_parametros` reads the same after a prefix of `k` tokens, `k` places on.
proof fn lema_tras_parametros(c1: Contexto, c2: Contexto, kp: int, p: int)
    requires
        tras_prefijo(c1, c2, kp),
        0 <= p,
    ensures
        desplazada(sp_parametros(c1, p + kp), sp_parametros(c2, p), kp, p),
    decreases c2.tokens.len() - p, 4int,
{
    desplegar_sp_parametros(c1, p + kp);
    desplegar_sp_parametros(c2, p);
    let _r = {
        if coincide(c2, p, TipoToken::Void) {
            Ok((Seq::empty(), p + 1))
        } else if coincide(c2, p, TipoToken::ParentesisDer) {
            Ok((Seq::empty(), p))
        } else {
            { lema_tras_parametros_desde(c1, c2, kp, p, Seq::empty()); sp_parametros_desde(c2, p, Seq::empty()) }
        }
    };
}

/// `sp_parametros_desde` reads the same after a prefix of `k` tokens, `k` places on.
proof fn lema_tras_parametros_desde(c1: Contexto, c2: Contexto, kp: int, p: int, acc: Seq<SpecParametro>)
    requires
        tras_prefijo(c1, c2, kp),
        0 <= p,
    ensures
        desplazada(sp_parametros_desde(c1, p + kp, acc), sp_parametros_desde(c2, p, acc), kp, p),
    decreases c2.tokens.len() - p, 3int,
{
    desplegar_sp_parametros_desde(c1, p + kp, acc);
    desplegar_sp_parametros_desde(c2, p, acc);
    let _r = {
        match { lema_tras_especificadores(c1, c2, kp, p); sp_especificadores(c2, p) } {
            Err(f) => Err(f),
            Ok((esp, p1)) => if no_atras(c2, p, p1) {
                if es_inicio_declarador(c2, p1) {
                    match { lema_tras_declarador(c1, c2, kp, p1); sp_declarador(c2, p1) } {
                        Err(f) => Err(f),
                        Ok((d, p2)) => if adelante(c2, p1, p2) {
                            { lema_tras_parametros_tras(c1, c2, kp, p2, acc.push(SpecParametro { especificadores: esp, declarador: Some(d) })); sp_parametros_tras(
                                c2,
                                p2,
                                acc.push(SpecParametro { especificadores: esp, declarador: Some(d) }),
                            ) }
                        } else {
                            fuera()
                        },
                    }
                } else {
                    { lema_tras_parametros_tras(c1, c2, kp, p1, acc.push(SpecParametro { especificadores: esp, declarador: None })); sp_parametros_tras(
                        c2,
                        p1,
                        acc.push(SpecParametro { especificadores: esp, declarador: None }),
                    ) }
                }
            } else {
                fuera()
            },
        }
    };
}

/// `sp_parametros_tras` reads the same after a prefix of `k` tokens, `k` places on.
proof fn lema_tras_parametros_tras(c1: Contexto, c2: Contexto, kp: int, p: int, acc: Seq<SpecParametro>)
    requires
        tras_prefijo(c1, c2, kp),
        0 <= p,
    ensures
        desplazada(sp_parametros_tras(c1, p + kp, acc), sp_parametros_tras(c2, p, acc), kp, p),
    decreases c2.tokens.len() - p, 0int,
{
    desplegar_sp_parametros_tras(c1, p + kp, acc);
    desplegar_sp_parametros_tras(c2, p, acc);
    let _r = {
        if coincide(c2, p, TipoToken::Coma) && p >= 0 {
            { lema_tras_parametros_desde(c1, c2, kp, p + 1, acc); sp_parametros_desde(c2, p + 1, acc) }
        } else {
            Ok((acc, p))
        }
    };
}

/// `sp_inicializador_opt` reads the same after a prefix of `k` tokens, `k` places on.
proof fn lema_tras_inicializador_opt(c1: Contexto, c2: Contexto, kp: int, p: int)
    requires
        tras_prefijo(c1, c2, kp),
        0 <= p,
    ensures
        desplazada(sp_inicializador_opt(c1, p + kp), sp_inicializador_opt(c2, p), kp, p),
{
    desplegar_sp_inicializador_opt(c1, p + kp);
    desplegar_sp_inicializador_opt(c2, p);
    let _r = {
        if !coincide(c2, p, TipoToken::Asignar) || p < 0 {
            Ok((None, p))
        } else {
            match { lema_tras_inicializador(c1, c2, kp, p + 1); sp_inicializador(c2, p + 1) } {
                Err(f) => Err(f),
                Ok((i, q)) => Ok((Some(i), q)),
            }
        }
    };
}

/// `sp_inicializador` reads the same after a prefix of `k` tokens, `k` places on.
proof fn lema_tras_inicializador(c1: Contexto, c2: Contexto, kp: int, p: int)
    requires
        tras_prefijo(c1, c2, kp),
        0 <= p,
    ensures
        desplazada(sp_inicializador(c1, p + kp), sp_inicializador(c2, p), kp, p),
    decreases c2.tokens.len() - p, 0int,
{
    desplegar_sp_inicializador(c1, p + kp);
    desplegar_sp_inicializador(c2, p);
    let _r = {
        if coincide(c2, p, TipoToken::LlaveIzq) && p >= 0 {
            if coincide(c2, p + 1, TipoToken::LlaveDer) {
                Ok((SpecInicializador::Lista(Seq::empty()), p + 2))
            } else {
                match { lema_tras_lista_inicializadores(c1, c2, kp, p + 1, Seq::empty()); sp_lista_inicializadores(c2, p + 1, Seq::empty()) } {
                    Err(f) => Err(f),
                    Ok((l, q)) => if adelante(c2, p + 1, q) {
                        match esperar(c2, q, TipoToken::LlaveDer) {
                            Err(f) => Err(f),
                            Ok(q2) => Ok((SpecInicializador::Lista(l), q2)),
                        }
                    } else {
                        fuera()
                    },
                }
            }
        } else {
            match { lema_tras_expresion(c1, c2, kp, p); sp_expresion(c2, p) } {
                Err(f) => Err(f),
                Ok((e, q)) => Ok((SpecInicializador::Expr(Box::new(e)), q)),
            }
        }
    };
}

/// `sp_lista_inicializadores` reads the same after a prefix of `k` tokens, `k` places on.
proof fn lema_tras_lista_inicializadores(c1: Contexto, c2: Contexto, kp: int, p: int, acc: Seq<SpecInicializador>)
    requires
        tras_prefijo(c1, c2, kp),
        0 <= p,
    ensures
        desplazada(sp_lista_inicializadores(c1, p + kp, acc), sp_lista_inicializadores(c2, p, acc), kp, p),
    decreases c2.tokens.len() - p, 1int,
{
    desplegar_sp_lista_inicializadores(c1, p + kp, acc);
    desplegar_sp_lista_inicializadores(c2, p, acc);
    let _r = {
        match { lema_tras_inicializador(c1, c2, kp, p); sp_inicializador(c2, p) } {
            Err(f) => Err(f),
            Ok((i, q)) => if adelante(c2, p, q) {
                if coincide(c2, q, TipoToken::Coma) {
                    { lema_tras_lista_inicializadores(c1, c2, kp, q + 1, acc.push(i)); sp_lista_inicializadores(c2, q + 1, acc.push(i)) }
                } else {
                    Ok((acc.push(i), q))
                }
            } else {
                fuera()
            },
        }
    };
}

/// `sp_enum` reads the same after a prefix of `k` tokens, `k` places on.
proof fn lema_tras_enum(c1: Contexto, c2: Contexto, kp: int, p: int)
    requires
        tras_prefijo(c1, c2, kp),
        0 <= p,
    ensures
        desplazada(sp_enum(c1, p + kp), sp_enum(c2, p), kp, p),
{
    desplegar_sp_enum(c1, p + kp);
    desplegar_sp_enum(c2, p);
    let _r = {
        match avanzar(c2, p) {
            Err(f) => Err(f),
            Ok(p1) => {
                let (nombre, p2) = nombre_opcional(c2, p1);
                if coincide(c2, p2, TipoToken::LlaveIzq) {
                    match { lema_tras_enumeradores(c1, c2, kp, p2 + 1, Seq::empty()); sp_enumeradores(c2, p2 + 1, Seq::empty()) } {
                        Err(f) => Err(f),
                        Ok((es, p3)) => if no_atras(c2, p2 + 1, p3) {
                            match esperar(c2, p3, TipoToken::LlaveDer) {
                                Err(f) => Err(f),
                                Ok(p4) => Ok(
                                    (SpecTipo::Enum(SpecEnum { nombre, enumeradores: es }), p4),
                                ),
                            }
                        } else {
                            fuera()
                        },
                    }
                } else {
                    Ok((SpecTipo::Enum(SpecEnum { nombre, enumeradores: Seq::empty() }), p2))
                }
            },
        }
    };
}

/// `sp_valor_enumerador` reads the same after a prefix of `k` tokens, `k` places on.
proof fn lema_tras_valor_enumerador(c1: Contexto, c2: Contexto, kp: int, p: int)
    requires
        tras_prefijo(c1, c2, kp),
        0 <= p,
    ensures
        desplazada(sp_valor_enumerador(c1, p + kp), sp_valor_enumerador(c2, p), kp, p),
{
    desplegar_sp_valor_enumerador(c1, p + kp);
    desplegar_sp_valor_enumerador(c2, p);
    let _r = {
        if coincide(c2, p, TipoToken::Asignar) && p >= 0 {
            match { lema_tras_expresion(c1, c2, kp, p + 1); sp_expresion(c2, p + 1) } {
                Err(f) => Err(f),
                Ok((e, q)) => Ok((Some(Box::new(e)), q)),
            }
        } else {
            Ok((None, p))
        }
    };
}

/// `sp_enumeradores` reads the same after a prefix of `k` tokens, `k` places on.
proof fn lema_tras_enumeradores(c1: Contexto, c2: Contexto, kp: int, p: int, acc: Seq<SpecEnumerador>)
    requires
        tras_prefijo(c1, c2, kp),
        0 <= p,
    ensures
        desplazada(sp_enumeradores(c1, p + kp, acc), sp_enumeradores(c2, p, acc), kp, p),
    decreases c2.tokens.len() - p,
{
    desplegar_sp_enumeradores(c1, p + kp, acc);
    desplegar_sp_enumeradores(c2, p, acc);
    let _r = {
        if !coincide(c2, p, TipoToken::LlaveDer) && !es_fin(c2, p) {
            match esperar(c2, p, TipoToken::Identificador) {
                Err(f) => Err(f),
                Ok(p1) => match { lema_tras_valor_enumerador(c1, c2, kp, p1); sp_valor_enumerador(c2, p1) } {
                    Err(f) => Err(f),
                    Ok((valor, q)) => if no_atras(c2, p1, q) {
                        let q2 = if coincide(c2, q, TipoToken::Coma) {
                            q + 1
                        } else {
                            q
                        };
                        { lema_tras_enumeradores(c1, c2, kp, q2, acc.push(SpecEnumerador { nombre: valor_de(c2.tokens[p]), valor })); sp_enumeradores(
                            c2,
                            q2,
                            acc.push(SpecEnumerador { nombre: valor_de(c2.tokens[p]), valor }),
                        ) }
                    } else {
                        fuera()
                    },
                },
            }
        } else {
            Ok((acc, p))
        }
    };
}

/// `sp_expresion` reads the same after a prefix of `k` tokens, `k` places on.
proof fn lema_tras_expresion(c1: Contexto, c2: Contexto, kp: int, p: int)
    requires
        tras_prefijo(c1, c2, kp),
        0 <= p,
    ensures
        desplazada(sp_expresion(c1, p + kp), sp_expresion(c2, p), kp, p),
    decreases c2.tokens.len() - p, 40int,
{
    desplegar_sp_expresion(c1, p + kp);
    desplegar_sp_expresion(c2, p);
    let _r = {
        { lema_tras_asignacion(c1, c2, kp, p); sp_asignacion(c2, p) }
    };
}

/// `sp_asignacion` reads the same after a prefix of `k` tokens, `k` places on.
proof fn lema_tras_asignacion(c1: Contexto, c2: Contexto, kp: int, p: int)
    requires
        tras_prefijo(c1, c2, kp),
        0 <= p,
    ensures
        desplazada(sp_asignacion(c1, p + kp), sp_asignacion(c2, p), kp, p),
    decreases c2.tokens.len() - p, 39int,
{
    desplegar_sp_asignacion(c1, p + kp);
    desplegar_sp_asignacion(c2, p);
    let _r = {
        match { lema_tras_ternario(c1, c2, kp, p); sp_ternario(c2, p) } {
            Err(f) => Err(f),
            Ok((e, q)) => if adelante(c2, p, q) {
                match operador_asignacion_de(tipo_actual(c2, q)) {
                    None => Ok((e, q)),
                    Some(op) => match avanzar(c2, q) {
                        Err(f) => Err(f),
                        Ok(q1) => match { lema_tras_asignacion(c1, c2, kp, q1); sp_asignacion(c2, q1) } {
                            Err(f) => Err(f),
                            Ok((v, q2)) => Ok(
                                (
                                    SpecExpr::Asignacion {
                                        posicion: pos_actual(c2, q),
                                        operador: op,
                                        destino: Box::new(e),
                                        valor: Box::new(v),
                                    },
                                    q2,
                                ),
                            ),
                        },
                    },
                }
            } else {
                fuera()
            },
        }
    };
}

/// `sp_ternario` reads the same after a prefix of `k` tokens, `k` places on.
proof fn lema_tras_ternario(c1: Contexto, c2: Contexto, kp: int, p: int)
    requires
        tras_prefijo(c1, c2, kp),
        0 <= p,
    ensures
        desplazada(sp_ternario(c1, p + kp), sp_ternario(c2, p), kp, p),
    decreases c2.tokens.len() - p, 38int,
{
    desplegar_sp_ternario(c1, p + kp);
    desplegar_sp_ternario(c2, p);
    let _r = {
        match { lema_tras_binaria(c1, c2, kp, p, NivelBinario::OLogico); sp_binaria(c2, p, NivelBinario::OLogico) } {
            Err(f) => Err(f),
            Ok((e, q)) => if adelante(c2, p, q) {
                if coincide(c2, q, TipoToken::Interrogacion) {
                    match { lema_tras_expresion(c1, c2, kp, q + 1); sp_expresion(c2, q + 1) } {
                        Err(f) => Err(f),
                        Ok((v, q2)) => if adelante(c2, q + 1, q2) {
                            match esperar(c2, q2, TipoToken::DosPuntos) {
                                Err(f) => Err(f),
                                Ok(q3) => match { lema_tras_ternario(c1, c2, kp, q3); sp_ternario(c2, q3) } {
                                    Err(f) => Err(f),
                                    Ok((fa, q4)) => Ok(
                                        (
                                            SpecExpr::Ternaria {
                                                posicion: pos_actual(c2, q),
                                                condicion: Box::new(e),
                                                verdadero: Box::new(v),
                                                falso: Box::new(fa),
                                            },
                                            q4,
                                        ),
                                    ),
                                },
                            }
                        } else {
                            fuera()
                        },
                    }
                } else {
                    Ok((e, q))
                }
            } else {
                fuera()
            },
        }
    };
}

/// `sp_binaria` reads the same after a prefix of `k` tokens, `k` places on.
proof fn lema_tras_binaria(c1: Contexto, c2: Contexto, kp: int, p: int, nivel: NivelBinario)
    requires
        tras_prefijo(c1, c2, kp),
        0 <= p,
    ensures
        desplazada(sp_binaria(c1, p + kp, nivel), sp_binaria(c2, p, nivel), kp, p),
    decreases c2.tokens.len() - p, rango_nivel(nivel),
{
    desplegar_sp_binaria(c1, p + kp, nivel);
    desplegar_sp_binaria(c2, p, nivel);
    let _r = {
        match { lema_tras_operando(c1, c2, kp, p, nivel); sp_operando(c2, p, nivel) } {
            Err(f) => Err(f),
            Ok((e, q)) => if adelante(c2, p, q) {
                { lema_tras_binaria_desde(c1, c2, kp, q, nivel, e); sp_binaria_desde(c2, q, nivel, e) }
            } else {
                fuera()
            },
        }
    };
}

/// `sp_operando` reads the same after a prefix of `k` tokens, `k` places on.
proof fn lema_tras_operando(c1: Contexto, c2: Contexto, kp: int, p: int, nivel: NivelBinario)
    requires
        tras_prefijo(c1, c2, kp),
        0 <= p,
    ensures
        desplazada(sp_operando(c1, p + kp, nivel), sp_operando(c2, p, nivel), kp, p),
    decreases c2.tokens.len() - p, rango_nivel(nivel) - 1,
{
    desplegar_sp_operando(c1, p + kp, nivel);
    desplegar_sp_operando(c2, p, nivel);
    let _r = {
        match nivel {
            NivelBinario::OLogico => { lema_tras_binaria(c1, c2, kp, p, NivelBinario::YLogico); sp_binaria(c2, p, NivelBinario::YLogico) },
            NivelBinario::YLogico => { lema_tras_binaria(c1, c2, kp, p, NivelBinario::OBit); sp_binaria(c2, p, NivelBinario::OBit) },
            NivelBinario::OBit => { lema_tras_binaria(c1, c2, kp, p, NivelBinario::XorBit); sp_binaria(c2, p, NivelBinario::XorBit) },
            NivelBinario::XorBit => { lema_tras_binaria(c1, c2, kp, p, NivelBinario::YBit); sp_binaria(c2, p, NivelBinario::YBit) },
            NivelBinario::YBit => { lema_tras_binaria(c1, c2, kp, p, NivelBinario::Igualdad); sp_binaria(c2, p, NivelBinario::Igualdad) },
            NivelBinario::Igualdad => { lema_tras_relacional(c1, c2, kp, p); sp_relacional(c2, p) },
            NivelBinario::Desplazamiento => { lema_tras_aditiva(c1, c2, kp, p); sp_aditiva(c2, p) },
        }
    };
}

/// `sp_binaria_desde` reads the same after a prefix of `k` tokens, `k` places on.
proof fn lema_tras_binaria_desde(c1: Contexto, c2: Contexto, kp: int, p: int, nivel: NivelBinario, acc: SpecExpr)
    requires
        tras_prefijo(c1, c2, kp),
        0 <= p,
    ensures
        desplazada(sp_binaria_desde(c1, p + kp, nivel, acc), sp_binaria_desde(c2, p, nivel, acc), kp, p),
    decreases c2.tokens.len() - p, 0int,
{
    desplegar_sp_binaria_desde(c1, p + kp, nivel, acc);
    desplegar_sp_binaria_desde(c2, p, nivel, acc);
    let _r = {
        if es_operador_de(nivel, tipo_actual(c2, p)) {
            match avanzar(c2, p) {
                Err(f) => Err(f),
                Ok(p1) => match { lema_tras_operando(c1, c2, kp, p1, nivel); sp_operando(c2, p1, nivel) } {
                    Err(f) => Err(f),
                    Ok((d, q)) => if adelante(c2, p1, q) {
                        { lema_tras_binaria_desde(c1, c2, kp, q, nivel, SpecExpr::Binaria {
                                posicion: pos_actual(c2, p),
                                operador: operador_binario_de(tipo_actual(c2, p), nivel),
                                izquierda: Box::new(acc),
                                derecha: Box::new(d),
                            }); sp_binaria_desde(
                            c2,
                            q,
                            nivel,
                            SpecExpr::Binaria {
                                posicion: pos_actual(c2, p),
                                operador: operador_binario_de(tipo_actual(c2, p), nivel),
                                izquierda: Box::new(acc),
                                derecha: Box::new(d),
                            },
                        ) }
                    } else {
                        fuera()
                    },
                },
            }
        } else {
            Ok((acc, p))
        }
    };
}

/// `sp_relacional` reads the same after a prefix of `k` tokens, `k` places on.
proof fn lema_tras_relacional(c1: Contexto, c2: Contexto, kp: int, p: int)
    requires
        tras_prefijo(c1, c2, kp),
        0 <= p,
    ensures
        desplazada(sp_relacional(c1, p + kp), sp_relacional(c2, p), kp, p),
    decreases c2.tokens.len() - p, 24int,
{
    desplegar_sp_relacional(c1, p + kp);
    desplegar_sp_relacional(c2, p);
    let _r = {
        match { lema_tras_binaria(c1, c2, kp, p, NivelBinario::Desplazamiento); sp_binaria(c2, p, NivelBinario::Desplazamiento) } {
            Err(f) => Err(f),
            Ok((e, q)) => if adelante(c2, p, q) {
                { lema_tras_relacional_desde(c1, c2, kp, q, e); sp_relacional_desde(c2, q, e) }
            } else {
                fuera()
            },
        }
    };
}

/// `sp_relacional_desde` reads the same after a prefix of `k` tokens, `k` places on.
proof fn lema_tras_relacional_desde(c1: Contexto, c2: Contexto, kp: int, p: int, acc: SpecExpr)
    requires
        tras_prefijo(c1, c2, kp),
        0 <= p,
    ensures
        desplazada(sp_relacional_desde(c1, p + kp, acc), sp_relacional_desde(c2, p, acc), kp, p),
    decreases c2.tokens.len() - p, 0int,
{
    desplegar_sp_relacional_desde(c1, p + kp, acc);
    desplegar_sp_relacional_desde(c2, p, acc);
    let _r = {
        match operador_relacional_de(tipo_actual(c2, p)) {
            None => Ok((acc, p)),
            Some(op) => match avanzar(c2, p) {
                Err(f) => Err(f),
                Ok(p1) => match { lema_tras_binaria(c1, c2, kp, p1, NivelBinario::Desplazamiento); sp_binaria(c2, p1, NivelBinario::Desplazamiento) } {
                    Err(f) => Err(f),
                    Ok((d, q)) => if adelante(c2, p1, q) {
                        { lema_tras_relacional_desde(c1, c2, kp, q, SpecExpr::Binaria {
                                posicion: pos_actual(c2, p),
                                operador: op,
                                izquierda: Box::new(acc),
                                derecha: Box::new(d),
                            }); sp_relacional_desde(
                            c2,
                            q,
                            SpecExpr::Binaria {
                                posicion: pos_actual(c2, p),
                                operador: op,
                                izquierda: Box::new(acc),
                                derecha: Box::new(d),
                            },
                        ) }
                    } else {
                        fuera()
                    },
                },
            },
        }
    };
}

/// `sp_aditiva` reads the same after a prefix of `k` tokens, `k` places on.
proof fn lema_tras_aditiva(c1: Contexto, c2: Contexto, kp: int, p: int)
    requires
        tras_prefijo(c1, c2, kp),
        0 <= p,
    ensures
        desplazada(sp_aditiva(c1, p + kp), sp_aditiva(c2, p), kp, p),
    decreases c2.tokens.len() - p, 20int,
{
    desplegar_sp_aditiva(c1, p + kp);
    desplegar_sp_aditiva(c2, p);
    let _r = {
        match { lema_tras_multiplicativa(c1, c2, kp, p); sp_multiplicativa(c2, p) } {
            Err(f) => Err(f),
            Ok((e, q)) => if adelante(c2, p, q) {
                { lema_tras_aditiva_desde(c1, c2, kp, q, e); sp_aditiva_desde(c2, q, e) }
            } else {
                fuera()
            },
        }
    };
}

/// `sp_aditiva_desde` reads the same after a prefix of `k` tokens, `k` places on.
proof fn lema_tras_aditiva_desde(c1: Contexto, c2: Contexto, kp: int, p: int, acc: SpecExpr)
    requires
        tras_prefijo(c1, c2, kp),
        0 <= p,
    ensures
        desplazada(sp_aditiva_desde(c1, p + kp, acc), sp_aditiva_desde(c2, p, acc), kp, p),
    decreases c2.tokens.len() - p, 0int,
{
    desplegar_sp_aditiva_desde(c1, p + kp, acc);
    desplegar_sp_aditiva_desde(c2, p, acc);
    let _r = {
        match operador_aditivo_de(tipo_actual(c2, p)) {
            None => Ok((acc, p)),
            Some(op) => match avanzar(c2, p) {
                Err(f) => Err(f),
                Ok(p1) => match { lema_tras_multiplicativa(c1, c2, kp, p1); sp_multiplicativa(c2, p1) } {
                    Err(f) => Err(f),
                    Ok((d, q)) => if adelante(c2, p1, q) {
                        { lema_tras_aditiva_desde(c1, c2, kp, q, SpecExpr::Binaria {
                                posicion: pos_actual(c2, p),
                                operador: op,
                                izquierda: Box::new(acc),
                                derecha: Box::new(d),
                            }); sp_aditiva_desde(
                            c2,
                            q,
                            SpecExpr::Binaria {
                                posicion: pos_actual(c2, p),
                                operador: op,
                                izquierda: Box::new(acc),
                                derecha: Box::new(d),
                            },
                        ) }
                    } else {
                        fuera()
                    },
                },
            },
        }
    };
}

/// `sp_multiplicativa` reads the same after a prefix of `k` tokens, `k` places on.
proof fn lema_tras_multiplicativa(c1: Contexto, c2: Contexto, kp: int, p: int)
    requires
        tras_prefijo(c1, c2, kp),
        0 <= p,
    ensures
        desplazada(sp_multiplicativa(c1, p + kp), sp_multiplicativa(c2, p), kp, p),
    decreases c2.tokens.len() - p, 18int,
{
    desplegar_sp_multiplicativa(c1, p + kp);
    desplegar_sp_multiplicativa(c2, p);
    let _r = {
        match { lema_tras_unaria(c1, c2, kp, p); sp_unaria(c2, p) } {
            Err(f) => Err(f),
            Ok((e, q)) => if adelante(c2, p, q) {
                { lema_tras_multiplicativa_desde(c1, c2, kp, q, e); sp_multiplicativa_desde(c2, q, e) }
            } else {
                fuera()
            },
        }
    };
}

/// `sp_multiplicativa_desde` reads the same after a prefix of `k` tokens, `k` places on.
proof fn lema_tras_multiplicativa_desde(c1: Contexto, c2: Contexto, kp: int, p: int, acc: SpecExpr)
    requires
        tras_prefijo(c1, c2, kp),
        0 <= p,
    ensures
        desplazada(sp_multiplicativa_desde(c1, p + kp, acc), sp_multiplicativa_desde(c2, p, acc), kp, p),
    decreases c2.tokens.len() - p, 0int,
{
    desplegar_sp_multiplicativa_desde(c1, p + kp, acc);
    desplegar_sp_multiplicativa_desde(c2, p, acc);
    let _r = {
        match operador_multiplicativo_de(tipo_actual(c2, p)) {
            None => Ok((acc, p)),
            Some(op) => match avanzar(c2, p) {
                Err(f) => Err(f),
                Ok(p1) => match { lema_tras_unaria(c1, c2, kp, p1); sp_unaria(c2, p1) } {
                    Err(f) => Err(f),
                    Ok((d, q)) => if adelante(c2, p1, q) {
                        { lema_tras_multiplicativa_desde(c1, c2, kp, q, SpecExpr::Binaria {
                                posicion: pos_actual(c2, p),
                                operador: op,
                                izquierda: Box::new(acc),
                                derecha: Box::new(d),
                            }); sp_multiplicativa_desde(
                            c2,
                            q,
                            SpecExpr::Binaria {
                                posicion: pos_actual(c2, p),
                                operador: op,
                                izquierda: Box::new(acc),
                                derecha: Box::new(d),
                            },
                        ) }
                    } else {
                        fuera()
                    },
                },
            },
        }
    };
}

/// `sp_unaria` reads the same after a prefix of `k` tokens, `k` places on.
proof fn lema_tras_unaria(c1: Contexto, c2: Contexto, kp: int, p: int)
    requires
        tras_prefijo(c1, c2, kp),
        0 <= p,
    ensures
        desplazada(sp_unaria(c1, p + kp), sp_unaria(c2, p), kp, p),
    decreases c2.tokens.len() - p, 16int,
{
    desplegar_sp_unaria(c1, p + kp);
    desplegar_sp_unaria(c2, p);
    let _r = {
        let pos = pos_actual(c2, p);
        if coincide(c2, p, TipoToken::Sizeof) && p >= 0 {
            if es_cast(c2, p + 1) {
                match { lema_tras_tipo(c1, c2, kp, p + 2); sp_tipo(c2, p + 2) } {
                    Err(f) => Err(f),
                    Ok((t, q)) => match esperar(c2, q, TipoToken::ParentesisDer) {
                        Err(f) => Err(f),
                        Ok(q2) => Ok(
                            (
                                SpecExpr::Sizeof {
                                    posicion: pos,
                                    es_tipo: true,
                                    objetivo: SpecSizeofObjetivo::Tipo(t),
                                },
                                q2,
                            ),
                        ),
                    },
                }
            } else {
                match { lema_tras_unaria(c1, c2, kp, p + 1); sp_unaria(c2, p + 1) } {
                    Err(f) => Err(f),
                    Ok((e, q)) => Ok(
                        (
                            SpecExpr::Sizeof {
                                posicion: pos,
                                es_tipo: false,
                                objetivo: SpecSizeofObjetivo::Expr(Box::new(e)),
                            },
                            q,
                        ),
                    ),
                }
            }
        } else {
            match operador_unario_de(tipo_actual(c2, p)) {
                Some(op) => match avanzar(c2, p) {
                    Err(f) => Err(f),
                    Ok(p1) => match { lema_tras_unaria(c1, c2, kp, p1); sp_unaria(c2, p1) } {
                        Err(f) => Err(f),
                        Ok((e, q)) => Ok(
                            (SpecExpr::Unaria { posicion: pos, operador: op, operando: Box::new(e) }, q),
                        ),
                    },
                },
                None => if es_cast(c2, p) && p >= 0 {
                    match { lema_tras_tipo(c1, c2, kp, p + 1); sp_tipo(c2, p + 1) } {
                        Err(f) => Err(f),
                        Ok((t, q)) => if no_atras(c2, p + 1, q) {
                            match esperar(c2, q, TipoToken::ParentesisDer) {
                                Err(f) => Err(f),
                                Ok(q2) => match { lema_tras_unaria(c1, c2, kp, q2); sp_unaria(c2, q2) } {
                                    Err(f) => Err(f),
                                    Ok((e, q3)) => Ok(
                                        (SpecExpr::Cast { posicion: pos, tipo: t, expr: Box::new(e) }, q3),
                                    ),
                                },
                            }
                        } else {
                            fuera()
                        },
                    }
                } else {
                    { lema_tras_postfija(c1, c2, kp, p); sp_postfija(c2, p) }
                },
            }
        }
    };
}

/// `sp_postfija` reads the same after a prefix of `k` tokens, `k` places on.
proof fn lema_tras_postfija(c1: Contexto, c2: Contexto, kp: int, p: int)
    requires
        tras_prefijo(c1, c2, kp),
        0 <= p,
    ensures
        desplazada(sp_postfija(c1, p + kp), sp_postfija(c2, p), kp, p),
    decreases c2.tokens.len() - p, 14int,
{
    desplegar_sp_postfija(c1, p + kp);
    desplegar_sp_postfija(c2, p);
    let _r = {
        match { lema_tras_primaria(c1, c2, kp, p); sp_primaria(c2, p) } {
            Err(f) => Err(f),
            Ok((e, q)) => if adelante(c2, p, q) {
                { lema_tras_postfija_desde(c1, c2, kp, q, e); sp_postfija_desde(c2, q, e) }
            } else {
                fuera()
            },
        }
    };
}

/// `sp_argumentos` reads the same after a prefix of `k` tokens, `k` places on.
proof fn lema_tras_argumentos(c1: Contexto, c2: Contexto, kp: int, p: int, acc: Seq<SpecExpr>)
    requires
        tras_prefijo(c1, c2, kp),
        0 <= p,
    ensures
        desplazada(sp_argumentos(c1, p + kp, acc), sp_argumentos(c2, p, acc), kp, p),
    decreases c2.tokens.len() - p, 41int,
{
    desplegar_sp_argumentos(c1, p + kp, acc);
    desplegar_sp_argumentos(c2, p, acc);
    let _r = {
        match { lema_tras_expresion(c1, c2, kp, p); sp_expresion(c2, p) } {
            Err(f) => Err(f),
            Ok((e, q)) => if adelante(c2, p, q) {
                if coincide(c2, q, TipoToken::Coma) {
                    { lema_tras_argumentos(c1, c2, kp, q + 1, acc.push(e)); sp_argumentos(c2, q + 1, acc.push(e)) }
                } else {
                    Ok((acc.push(e), q))
                }
            } else {
                fuera()
            },
        }
    };
}

/// `sp_lista_argumentos` reads the same after a prefix of `k` tokens, `k` places on.
proof fn lema_tras_lista_argumentos(c1: Contexto, c2: Contexto, kp: int, p: int)
    requires
        tras_prefijo(c1, c2, kp),
        0 <= p,
    ensures
        desplazada(sp_lista_argumentos(c1, p + kp), sp_lista_argumentos(c2, p), kp, p),
    decreases c2.tokens.len() - p, 42int,
{
    desplegar_sp_lista_argumentos(c1, p + kp);
    desplegar_sp_lista_argumentos(c2, p);
    let _r = {
        if !coincide(c2, p, TipoToken::ParentesisDer) {
            { lema_tras_argumentos(c1, c2, kp, p, Seq::empty()); sp_argumentos(c2, p, Seq::empty()) }
        } else {
            Ok((Seq::empty(), p))
        }
    };
}

/// `sp_miembro` reads the same after a prefix of `k` tokens, `k` places on.
proof fn lema_tras_miembro(c1: Contexto, c2: Contexto, kp: int, p: int, acc: SpecExpr, es_puntero: bool)
    requires
        tras_prefijo(c1, c2, kp),
        0 <= p,
    ensures
        desplazada(sp_miembro(c1, p + kp, acc, es_puntero), sp_miembro(c2, p, acc, es_puntero), kp, p),
    decreases c2.tokens.len() - p, 1int,
{
    desplegar_sp_miembro(c1, p + kp, acc, es_puntero);
    desplegar_sp_miembro(c2, p, acc, es_puntero);
    let _r = {
        match avanzar(c2, p) {
            Err(f) => Err(f),
            Ok(p1) => match esperar(c2, p1, TipoToken::Identificador) {
                Err(f) => Err(f),
                Ok(q) => { lema_tras_postfija_desde(c1, c2, kp, q, SpecExpr::Miembro {
                        posicion: pos_actual(c2, p),
                        objeto: Box::new(acc),
                        miembro: valor_de(c2.tokens[p1]),
                        es_puntero,
                    }); sp_postfija_desde(
                    c2,
                    q,
                    SpecExpr::Miembro {
                        posicion: pos_actual(c2, p),
                        objeto: Box::new(acc),
                        miembro: valor_de(c2.tokens[p1]),
                        es_puntero,
                    },
                ) },
            },
        }
    };
}

/// `sp_postfija_desde` reads the same after a prefix of `k` tokens, `k` places on.
proof fn lema_tras_postfija_desde(c1: Contexto, c2: Contexto, kp: int, p: int, acc: SpecExpr)
    requires
        tras_prefijo(c1, c2, kp),
        0 <= p,
    ensures
        desplazada(sp_postfija_desde(c1, p + kp, acc), sp_postfija_desde(c2, p, acc), kp, p),
    decreases c2.tokens.len() - p, 2int,
{
    desplegar_sp_postfija_desde(c1, p + kp, acc);
    desplegar_sp_postfija_desde(c2, p, acc);
    let _r = {
        let pos = pos_actual(c2, p);
        let k = tipo_actual(c2, p);
        if k == TipoToken::CorcheteIzq {
            match avanzar(c2, p) {
                Err(f) => Err(f),
                Ok(p1) => match { lema_tras_expresion(c1, c2, kp, p1); sp_expresion(c2, p1) } {
                    Err(f) => Err(f),
                    Ok((i, q)) => if adelante(c2, p1, q) {
                        match esperar(c2, q, TipoToken::CorcheteDer) {
                            Err(f) => Err(f),
                            Ok(q2) => { lema_tras_postfija_desde(c1, c2, kp, q2, SpecExpr::Index { posicion: pos, arreglo: Box::new(acc), indice: Box::new(i) }); sp_postfija_desde(
                                c2,
                                q2,
                                SpecExpr::Index { posicion: pos, arreglo: Box::new(acc), indice: Box::new(i) },
                            ) },
                        }
                    } else {
                        fuera()
                    },
                },
            }
        } else if k == TipoToken::ParentesisIzq {
            match avanzar(c2, p) {
                Err(f) => Err(f),
                Ok(p1) => match { lema_tras_lista_argumentos(c1, c2, kp, p1); sp_lista_argumentos(c2, p1) } {
                    Err(f) => Err(f),
                    Ok((args, q)) => if no_atras(c2, p1, q) {
                        match esperar(c2, q, TipoToken::ParentesisDer) {
                            Err(f) => Err(f),
                            Ok(q2) => { lema_tras_postfija_desde(c1, c2, kp, q2, SpecExpr::Llamada { posicion: pos, funcion: Box::new(acc), argumentos: args }); sp_postfija_desde(
                                c2,
                                q2,
                                SpecExpr::Llamada { posicion: pos, funcion: Box::new(acc), argumentos: args },
                            ) },
                        }
                    } else {
                        fuera()
                    },
                },
            }
        } else if k == TipoToken::Punto {
            { lema_tras_miembro(c1, c2, kp, p, acc, false); sp_miembro(c2, p, acc, false) }
        } else if k == TipoToken::Flecha {
            { lema_tras_miembro(c1, c2, kp, p, acc, true); sp_miembro(c2, p, acc, true) }
        } else if k == TipoToken::Incremento || k == TipoToken::Decremento {
            match avanzar(c2, p) {
                Err(f) => Err(f),
                Ok(p1) => { lema_tras_postfija_desde(c1, c2, kp, p1, SpecExpr::Unaria {
                        posicion: pos,
                        operador: if k == TipoToken::Incremento {
                            OperadorUnario::Incremento
                        } else {
                            OperadorUnario::Decremento
                        },
                        operando: Box::new(acc),
                    }); sp_postfija_desde(
                    c2,
                    p1,
                    SpecExpr::Unaria {
                        posicion: pos,
                        operador: if k == TipoToken::Incremento {
                            OperadorUnario::Incremento
                        } else {
                            OperadorUnario::Decremento
                        },
                        operando: Box::new(acc),
                    },
                ) },
            }
        } else {
            Ok((acc, p))
        }
    };
}

/// `sp_primaria` reads the same after a prefix of `k` tokens, `k` places on.
proof fn lema_tras_primaria(c1: Contexto, c2: Contexto, kp: int, p: int)
    requires
        tras_prefijo(c1, c2, kp),
        0 <= p,
    ensures
        desplazada(sp_primaria(c1, p + kp), sp_primaria(c2, p), kp, p),
    decreases c2.tokens.len() - p, 12int,
{
    desplegar_sp_primaria(c1, p + kp);
    desplegar_sp_primaria(c2, p);
    let _r = {
        let pos = pos_actual(c2, p);
        let k = tipo_actual(c2, p);
        if literal_de(k, Seq::empty()) is Some || k == TipoToken::Identificador {
            match avanzar(c2, p) {
                Err(f) => Err(f),
                Ok(p1) => {
                    let v = valor_de(c2.tokens[p]);
                    if k == TipoToken::Identificador {
                        Ok((SpecExpr::Identificador { posicion: pos, nombre: v }, p1))
                    } else {
                        Ok((SpecExpr::Literal { posicion: pos, valor: literal_de(k, v).unwrap() }, p1))
                    }
                },
            }
        } else if k == TipoToken::ParentesisIzq {
            match avanzar(c2, p) {
                Err(f) => Err(f),
                Ok(p1) => match { lema_tras_expresion(c1, c2, kp, p1); sp_expresion(c2, p1) } {
                    Err(f) => Err(f),
                    Ok((e, q)) => if adelante(c2, p1, q) {
                        match esperar(c2, q, TipoToken::ParentesisDer) {
                            Err(f) => Err(f),
                            Ok(q2) => Ok((e, q2)),
                        }
                    } else {
                        fuera()
                    },
                },
            }
        } else {
            Err(error_aqui(c2, p, "expresion primaria"@))
        }
    };
}

/// `sp_bloque` reads the same after a prefix of `k` tokens, `k` places on.
proof fn lema_tras_bloque(c1: Contexto, c2: Contexto, kp: int, p: int)
    requires
        tras_prefijo(c1, c2, kp),
        0 <= p,
    ensures
        desplazada(sp_bloque(c1, p + kp), sp_bloque(c2, p), kp, p),
    decreases c2.tokens.len() - p, 1int,
{
    desplegar_sp_bloque(c1, p + kp);
    desplegar_sp_bloque(c2, p);
    let _r = {
        match esperar(c2, p, TipoToken::LlaveIzq) {
            Err(f) => Err(f),
            Ok(p1) => match { lema_tras_items(c1, c2, kp, p1, Seq::empty()); sp_items(c2, p1, Seq::empty()) } {
                Err(f) => Err(f),
                Ok((items, q)) => if no_atras(c2, p1, q) {
                    match esperar(c2, q, TipoToken::LlaveDer) {
                        Err(f) => Err(f),
                        Ok(q2) => Ok((SpecBloque { posicion: pos_actual(c2, p), items }, q2)),
                    }
                } else {
                    fuera()
                },
            },
        }
    };
}

/// `sp_items` reads the same after a prefix of `k` tokens, `k` places on.
proof fn lema_tras_items(c1: Contexto, c2: Contexto, kp: int, p: int, acc: Seq<SpecItemBloque>)
    requires
        tras_prefijo(c1, c2, kp),
        0 <= p,
    ensures
        desplazada(sp_items(c1, p + kp, acc), sp_items(c2, p, acc), kp, p),
    decreases c2.tokens.len() - p, 3int,
{
    desplegar_sp_items(c1, p + kp, acc);
    desplegar_sp_items(c2, p, acc);
    let _r = {
        if !coincide(c2, p, TipoToken::LlaveDer) && !es_fin(c2, p) {
            if es_inicio_decl_bloque(tipo_actual(c2, p)) {
                match { lema_tras_declaracion(c1, c2, kp, p); sp_declaracion(c2, p) } {
                    Err(f) => Err(f),
                    Ok((d, q)) => if adelante(c2, p, q) {
                        { lema_tras_items(c1, c2, kp, q, acc.push(SpecItemBloque::Declaracion(d))); sp_items(c2, q, acc.push(SpecItemBloque::Declaracion(d))) }
                    } else {
                        fuera()
                    },
                }
            } else {
                match { lema_tras_sentencia(c1, c2, kp, p); sp_sentencia(c2, p) } {
                    Err(f) => Err(f),
                    Ok((st, q)) => if adelante(c2, p, q) {
                        { lema_tras_items(c1, c2, kp, q, acc.push(SpecItemBloque::Sentencia(st))); sp_items(c2, q, acc.push(SpecItemBloque::Sentencia(st))) }
                    } else {
                        fuera()
                    },
                }
            }
        } else {
            Ok((acc, p))
        }
    };
}

/// `sp_salto_simple` reads the same after a prefix of `k` tokens, `k` places on.
proof fn lema_tras_salto_simple(c1: Contexto, c2: Contexto, kp: int, p: int, s: SpecSalto)
    requires
        tras_prefijo(c1, c2, kp),
        0 <= p,
    ensures
        desplazada(sp_salto_simple(c1, p + kp, s), sp_salto_simple(c2, p, s), kp, p),
{
    desplegar_sp_salto_simple(c1, p + kp, s);
    desplegar_sp_salto_simple(c2, p, s);
    let _r = {
        match avanzar(c2, p) {
            Err(f) => Err(f),
            Ok(p1) => match esperar(c2, p1, TipoToken::PuntoYComa) {
                Err(f) => Err(f),
                Ok(p2) => Ok((SpecSentencia::Salto(s), p2)),
            },
        }
    };
}

/// `sp_goto` reads the same after a prefix of `k` tokens, `k` places on.
proof fn lema_tras_goto(c1: Contexto, c2: Contexto, kp: int, p: int)
    requires
        tras_prefijo(c1, c2, kp),
        0 <= p,
    ensures
        desplazada(sp_goto(c1, p + kp), sp_goto(c2, p), kp, p),
{
    desplegar_sp_goto(c1, p + kp);
    desplegar_sp_goto(c2, p);
    let _r = {
        match avanzar(c2, p) {
            Err(f) => Err(f),
            Ok(p1) => match esperar(c2, p1, TipoToken::Identificador) {
                Err(f) => Err(f),
                Ok(p2) => match esperar(c2, p2, TipoToken::PuntoYComa) {
                    Err(f) => Err(f),
                    Ok(p3) => Ok(
                        (
                            SpecSentencia::Salto(
                                SpecSalto::Goto {
                                    posicion: pos_actual(c2, p),
                                    etiqueta: valor_de(c2.tokens[p1]),
                                },
                            ),
                            p3,
                        ),
                    ),
                },
            },
        }
    };
}

/// `sp_return` reads the same after a prefix of `k` tokens, `k` places on.
proof fn lema_tras_return(c1: Contexto, c2: Contexto, kp: int, p: int)
    requires
        tras_prefijo(c1, c2, kp),
        0 <= p,
    ensures
        desplazada(sp_return(c1, p + kp), sp_return(c2, p), kp, p),
{
    desplegar_sp_return(c1, p + kp);
    desplegar_sp_return(c2, p);
    let _r = {
        match avanzar(c2, p) {
            Err(f) => Err(f),
            Ok(p1) => if coincide(c2, p1, TipoToken::PuntoYComa) {
                Ok(
                    (
                        SpecSentencia::Salto(SpecSalto::Retornar { posicion: pos_actual(c2, p), valor: None }),
                        p1 + 1,
                    ),
                )
            } else {
                match { lema_tras_expresion(c1, c2, kp, p1); sp_expresion(c2, p1) } {
                    Err(f) => Err(f),
                    Ok((e, q)) => match esperar(c2, q, TipoToken::PuntoYComa) {
                        Err(f) => Err(f),
                        Ok(q2) => Ok(
                            (
                                SpecSentencia::Salto(
                                    SpecSalto::Retornar {
                                        posicion: pos_actual(c2, p),
                                        valor: Some(Box::new(e)),
                                    },
                                ),
                                q2,
                            ),
                        ),
                    },
                }
            },
        }
    };
}

/// `sp_sentencia_expr` reads the same after a prefix of `k` tokens, `k` places on.
proof fn lema_tras_sentencia_expr(c1: Contexto, c2: Contexto, kp: int, p: int)
    requires
        tras_prefijo(c1, c2, kp),
        0 <= p,
    ensures
        desplazada(sp_sentencia_expr(c1, p + kp), sp_sentencia_expr(c2, p), kp, p),
{
    desplegar_sp_sentencia_expr(c1, p + kp);
    desplegar_sp_sentencia_expr(c2, p);
    let _r = {
        if coincide(c2, p, TipoToken::PuntoYComa) {
            Ok((SpecSentencia::Expr { posicion: pos_actual(c2, p), expr: None }, p + 1))
        } else {
            match { lema_tras_expresion(c1, c2, kp, p); sp_expresion(c2, p) } {
                Err(f) => Err(f),
                Ok((e, q)) => match esperar(c2, q, TipoToken::PuntoYComa) {
                    Err(f) => Err(f),
                    Ok(q2) => Ok(
                        (SpecSentencia::Expr { posicion: pos_actual(c2, p), expr: Some(Box::new(e)) }, q2),
                    ),
                },
            }
        }
    };
}

/// `sp_sentencia` reads the same after a prefix of `k` tokens, `k` places on.
proof fn lema_tras_sentencia(c1: Contexto, c2: Contexto, kp: int, p: int)
    requires
        tras_prefijo(c1, c2, kp),
        0 <= p,
    ensures
        desplazada(sp_sentencia(c1, p + kp), sp_sentencia(c2, p), kp, p),
    decreases c2.tokens.len() - p, 2int,
{
    desplegar_sp_sentencia(c1, p + kp);
    desplegar_sp_sentencia(c2, p);
    let _r = {
        let pos = pos_actual(c2, p);
        let k = tipo_actual(c2, p);
        if k == TipoToken::LlaveIzq {
            match { lema_tras_bloque(c1, c2, kp, p); sp_bloque(c2, p) } {
                Err(f) => Err(f),
                Ok((b, q)) => Ok((SpecSentencia::Compuesta(b), q)),
            }
        } else if k == TipoToken::If {
            { lema_tras_if(c1, c2, kp, p); sp_if(c2, p) }
        } else if k == TipoToken::Switch {
            { lema_tras_switch(c1, c2, kp, p); sp_switch(c2, p) }
        } else if k == TipoToken::While {
            { lema_tras_while(c1, c2, kp, p); sp_while(c2, p) }
        } else if k == TipoToken::Do {
            { lema_tras_do_while(c1, c2, kp, p); sp_do_while(c2, p) }
        } else if k == TipoToken::For {
            { lema_tras_for(c1, c2, kp, p); sp_for(c2, p) }
        } else if k == TipoToken::Goto {
            { lema_tras_goto(c1, c2, kp, p); sp_goto(c2, p) }
        } else if k == TipoToken::Continue {
            { lema_tras_salto_simple(c1, c2, kp, p, SpecSalto::Continuar { posicion: pos }); sp_salto_simple(c2, p, SpecSalto::Continuar { posicion: pos }) }
        } else if k == TipoToken::Break {
            { lema_tras_salto_simple(c1, c2, kp, p, SpecSalto::Romper { posicion: pos }); sp_salto_simple(c2, p, SpecSalto::Romper { posicion: pos }) }
        } else if k == TipoToken::Return {
            { lema_tras_return(c1, c2, kp, p); sp_return(c2, p) }
        } else if k == TipoToken::Case {
            match avanzar(c2, p) {
                Err(f) => Err(f),
                Ok(p1) => match { lema_tras_expresion(c1, c2, kp, p1); sp_expresion(c2, p1) } {
                    Err(f) => Err(f),
                    Ok((e, q)) => if adelante(c2, p1, q) {
                        match esperar(c2, q, TipoToken::DosPuntos) {
                            Err(f) => Err(f),
                            Ok(q2) => { lema_tras_etiquetada(c1, c2, kp, q2, pos, SpecEtiqueta::Case(Box::new(e))); sp_etiquetada(c2, q2, pos, SpecEtiqueta::Case(Box::new(e))) },
                        }
                    } else {
                        fuera()
                    },
                },
            }
        } else if k == TipoToken::Default {
            match avanzar(c2, p) {
                Err(f) => Err(f),
                Ok(p1) => match esperar(c2, p1, TipoToken::DosPuntos) {
                    Err(f) => Err(f),
                    Ok(p2) => { lema_tras_etiquetada(c1, c2, kp, p2, pos, SpecEtiqueta::Default); sp_etiquetada(c2, p2, pos, SpecEtiqueta::Default) },
                },
            }
        } else if k == TipoToken::Identificador && es_etiqueta(c2, p) && p >= 0 {
            match esperar(c2, p + 1, TipoToken::DosPuntos) {
                Err(f) => Err(f),
                Ok(p2) => { lema_tras_etiquetada(c1, c2, kp, p2, pos, SpecEtiqueta::Identificador(valor_de(c2.tokens[p]))); sp_etiquetada(
                    c2,
                    p2,
                    pos,
                    SpecEtiqueta::Identificador(valor_de(c2.tokens[p])),
                ) },
            }
        } else {
            { lema_tras_sentencia_expr(c1, c2, kp, p); sp_sentencia_expr(c2, p) }
        }
    };
}

/// `sp_etiquetada` reads the same after a prefix of `k` tokens, `k` places on.
proof fn lema_tras_etiquetada(c1: Contexto, c2: Contexto, kp: int, p: int, pos: Posicion, e: SpecEtiqueta)
    requires
        tras_prefijo(c1, c2, kp),
        0 <= p,
    ensures
        desplazada(sp_etiquetada(c1, p + kp, pos, e), sp_etiquetada(c2, p, pos, e), kp, p),
    decreases c2.tokens.len() - p, 3int,
{
    desplegar_sp_etiquetada(c1, p + kp, pos, e);
    desplegar_sp_etiquetada(c2, p, pos, e);
    let _r = {
        match { lema_tras_sentencia(c1, c2, kp, p); sp_sentencia(c2, p) } {
            Err(f) => Err(f),
            Ok((st, q)) => Ok(
                (SpecSentencia::Etiquetada { posicion: pos, etiqueta: e, sentencia: Box::new(st) }, q),
            ),
        }
    };
}

/// `sp_condicion` reads the same after a prefix of `k` tokens, `k` places on.
proof fn lema_tras_condicion(c1: Contexto, c2: Contexto, kp: int, p: int)
    requires
        tras_prefijo(c1, c2, kp),
        0 <= p,
    ensures
        desplazada(sp_condicion(c1, p + kp), sp_condicion(c2, p), kp, p),
{
    desplegar_sp_condicion(c1, p + kp);
    desplegar_sp_condicion(c2, p);
    let _r = {
        match esperar(c2, p, TipoToken::ParentesisIzq) {
            Err(f) => Err(f),
            Ok(p1) => match { lema_tras_expresion(c1, c2, kp, p1); sp_expresion(c2, p1) } {
                Err(f) => Err(f),
                Ok((e, q)) => match esperar(c2, q, TipoToken::ParentesisDer) {
                    Err(f) => Err(f),
                    Ok(q2) => Ok((e, q2)),
                },
            },
        }
    };
}

/// `sp_if` reads the same after a prefix of `k` tokens, `k` places on.
proof fn lema_tras_if(c1: Contexto, c2: Contexto, kp: int, p: int)
    requires
        tras_prefijo(c1, c2, kp),
        0 <= p,
    ensures
        desplazada(sp_if(c1, p + kp), sp_if(c2, p), kp, p),
    decreases c2.tokens.len() - p, 1int,
{
    desplegar_sp_if(c1, p + kp);
    desplegar_sp_if(c2, p);
    let _r = {
        match avanzar(c2, p) {
            Err(f) => Err(f),
            Ok(p1) => match { lema_tras_condicion(c1, c2, kp, p1); sp_condicion(c2, p1) } {
                Err(f) => Err(f),
                Ok((cond, q)) => if adelante(c2, p1, q) {
                    match { lema_tras_sentencia(c1, c2, kp, q); sp_sentencia(c2, q) } {
                        Err(f) => Err(f),
                        Ok((ent, q2)) => if adelante(c2, q, q2) {
                            if coincide(c2, q2, TipoToken::Else) {
                                match { lema_tras_sentencia(c1, c2, kp, q2 + 1); sp_sentencia(c2, q2 + 1) } {
                                    Err(f) => Err(f),
                                    Ok((sino, q3)) => Ok(
                                        (
                                            SpecSentencia::Seleccion(
                                                SpecSeleccion::If {
                                                    posicion: pos_actual(c2, p),
                                                    condicion: Box::new(cond),
                                                    entonces: Box::new(ent),
                                                    sino: Some(Box::new(sino)),
                                                },
                                            ),
                                            q3,
                                        ),
                                    ),
                                }
                            } else {
                                Ok(
                                    (
                                        SpecSentencia::Seleccion(
                                            SpecSeleccion::If {
                                                posicion: pos_actual(c2, p),
                                                condicion: Box::new(cond),
                                                entonces: Box::new(ent),
                                                sino: None,
                                            },
                                        ),
                                        q2,
                                    ),
                                )
                            }
                        } else {
                            fuera()
                        },
                    }
                } else {
                    fuera()
                },
            },
        }
    };
}

/// `sp_switch` reads the same after a prefix of `k` tokens, `k` places on.
proof fn lema_tras_switch(c1: Contexto, c2: Contexto, kp: int, p: int)
    requires
        tras_prefijo(c1, c2, kp),
        0 <= p,
    ensures
        desplazada(sp_switch(c1, p + kp), sp_switch(c2, p), kp, p),
    decreases c2.tokens.len() - p, 1int,
{
    desplegar_sp_switch(c1, p + kp);
    desplegar_sp_switch(c2, p);
    let _r = {
        match avanzar(c2, p) {
            Err(f) => Err(f),
            Ok(p1) => match { lema_tras_condicion(c1, c2, kp, p1); sp_condicion(c2, p1) } {
                Err(f) => Err(f),
                Ok((cond, q)) => if adelante(c2, p1, q) {
                    match { lema_tras_sentencia(c1, c2, kp, q); sp_sentencia(c2, q) } {
                        Err(f) => Err(f),
                        Ok((cuerpo, q2)) => Ok(
                            (
                                SpecSentencia::Seleccion(
                                    SpecSeleccion::Switch {
                                        posicion: pos_actual(c2, p),
                                        condicion: Box::new(cond),
                                        cuerpo: Box::new(cuerpo),
                                    },
                                ),
                                q2,
                            ),
                        ),
                    }
                } else {
                    fuera()
                },
            },
        }
    };
}

/// `sp_while` reads the same after a prefix of `k` tokens, `k` places on.
proof fn lema_tras_while(c1: Contexto, c2: Contexto, kp: int, p: int)
    requires
        tras_prefijo(c1, c2, kp),
        0 <= p,
    ensures
        desplazada(sp_while(c1, p + kp), sp_while(c2, p), kp, p),
    decreases c2.tokens.len() - p, 1int,
{
    desplegar_sp_while(c1, p + kp);
    desplegar_sp_while(c2, p);
    let _r = {
        match avanzar(c2, p) {
            Err(f) => Err(f),
            Ok(p1) => match { lema_tras_condicion(c1, c2, kp, p1); sp_condicion(c2, p1) } {
                Err(f) => Err(f),
                Ok((cond, q)) => if adelante(c2, p1, q) {
                    match { lema_tras_sentencia(c1, c2, kp, q); sp_sentencia(c2, q) } {
                        Err(f) => Err(f),
                        Ok((cuerpo, q2)) => Ok(
                            (
                                SpecSentencia::Iteracion(
                                    SpecIteracion::While {
                                        posicion: pos_actual(c2, p),
                                        condicion: Box::new(cond),
                                        cuerpo: Box::new(cuerpo),
                                    },
                                ),
                                q2,
                            ),
                        ),
                    }
                } else {
                    fuera()
                },
            },
        }
    };
}

/// `sp_do_while` reads the same after a prefix of `k` tokens, `k` places on.
proof fn lema_tras_do_while(c1: Contexto, c2: Contexto, kp: int, p: int)
    requires
        tras_prefijo(c1, c2, kp),
        0 <= p,
    ensures
        desplazada(sp_do_while(c1, p + kp), sp_do_while(c2, p), kp, p),
    decreases c2.tokens.len() - p, 1int,
{
    desplegar_sp_do_while(c1, p + kp);
    desplegar_sp_do_while(c2, p);
    let _r = {
        match avanzar(c2, p) {
            Err(f) => Err(f),
            Ok(p1) => match { lema_tras_sentencia(c1, c2, kp, p1); sp_sentencia(c2, p1) } {
                Err(f) => Err(f),
                Ok((cuerpo, q)) => match esperar(c2, q, TipoToken::While) {
                    Err(f) => Err(f),
                    Ok(q1) => match { lema_tras_condicion(c1, c2, kp, q1); sp_condicion(c2, q1) } {
                        Err(f) => Err(f),
                        Ok((cond, q2)) => match esperar(c2, q2, TipoToken::PuntoYComa) {
                            Err(f) => Err(f),
                            Ok(q3) => Ok(
                                (
                                    SpecSentencia::Iteracion(
                                        SpecIteracion::DoWhile {
                                            posicion: pos_actual(c2, p),
                                            cuerpo: Box::new(cuerpo),
                                            condicion: Box::new(cond),
                                        },
                                    ),
                                    q3,
                                ),
                            ),
                        },
                    },
                },
            },
        }
    };
}

/// `sp_for_init` reads the same after a prefix of `k` tokens, `k` places on.
proof fn lema_tras_for_init(c1: Contexto, c2: Contexto, kp: int, p: int)
    requires
        tras_prefijo(c1, c2, kp),
        0 <= p,
    ensures
        desplazada(sp_for_init(c1, p + kp), sp_for_init(c2, p), kp, p),
{
    desplegar_sp_for_init(c1, p + kp);
    desplegar_sp_for_init(c2, p);
    let _r = {
        if coincide(c2, p, TipoToken::PuntoYComa) {
            Ok((None, p + 1))
        } else if es_inicio_decl_bloque(tipo_actual(c2, p)) {
            match { lema_tras_declaracion(c1, c2, kp, p); sp_declaracion(c2, p) } {
                Err(f) => Err(f),
                Ok((d, q)) => Ok((Some(SpecForInit::Declaracion(d)), q)),
            }
        } else {
            match { lema_tras_expresion(c1, c2, kp, p); sp_expresion(c2, p) } {
                Err(f) => Err(f),
                Ok((e, q)) => match esperar(c2, q, TipoToken::PuntoYComa) {
                    Err(f) => Err(f),
                    Ok(q2) => Ok((Some(SpecForInit::Expr(Some(Box::new(e)))), q2)),
                },
            }
        }
    };
}

/// `sp_expr_hasta` reads the same after a prefix of `k` tokens, `k` places on.
proof fn lema_tras_expr_hasta(c1: Contexto, c2: Contexto, kp: int, p: int, fin: TipoToken)
    requires
        tras_prefijo(c1, c2, kp),
        0 <= p,
    ensures
        desplazada(sp_expr_hasta(c1, p + kp, fin), sp_expr_hasta(c2, p, fin), kp, p),
{
    desplegar_sp_expr_hasta(c1, p + kp, fin);
    desplegar_sp_expr_hasta(c2, p, fin);
    let _r = {
        if coincide(c2, p, fin) {
            Ok((None, p + 1))
        } else {
            match { lema_tras_expresion(c1, c2, kp, p); sp_expresion(c2, p) } {
                Err(f) => Err(f),
                Ok((e, q)) => match esperar(c2, q, fin) {
                    Err(f) => Err(f),
                    Ok(q2) => Ok((Some(Box::new(e)), q2)),
                },
            }
        }
    };
}

/// `sp_for` reads the same after a prefix of `k` tokens, `k` places on.
proof fn lema_tras_for(c1: Contexto, c2: Contexto, kp: int, p: int)
    requires
        tras_prefijo(c1, c2, kp),
        0 <= p,
    ensures
        desplazada(sp_for(c1, p + kp), sp_for(c2, p), kp, p),
    decreases c2.tokens.len() - p, 1int,
{
    desplegar_sp_for(c1, p + kp);
    desplegar_sp_for(c2, p);
    let _r = {
        match avanzar(c2, p) {
            Err(f) => Err(f),
            Ok(p1) => match esperar(c2, p1, TipoToken::ParentesisIzq) {
                Err(f) => Err(f),
                Ok(p2) => match { lema_tras_for_init(c1, c2, kp, p2); sp_for_init(c2, p2) } {
                    Err(f) => Err(f),
                    Ok((init, q1)) => match { lema_tras_expr_hasta(c1, c2, kp, q1, TipoToken::PuntoYComa); sp_expr_hasta(c2, q1, TipoToken::PuntoYComa) } {
                        Err(f) => Err(f),
                        Ok((cond, q2)) => match { lema_tras_expr_hasta(c1, c2, kp, q2, TipoToken::ParentesisDer); sp_expr_hasta(c2, q2, TipoToken::ParentesisDer) } {
                            Err(f) => Err(f),
                            Ok((inc, q3)) => if adelante(c2, p, q3) {
                                match { lema_tras_sentencia(c1, c2, kp, q3); sp_sentencia(c2, q3) } {
                                    Err(f) => Err(f),
                                    Ok((cuerpo, q4)) => Ok(
                                        (
                                            SpecSentencia::Iteracion(
                                                SpecIteracion::For {
                                                    posicion: pos_actual(c2, p),
                                                    init,
                                                    condicion: cond,
                                                    incremento: inc,
                                                    cuerpo: Box::new(cuerpo),
                                                },
                                            ),
                                            q4,
                                        ),
                                    ),
                                }
                            } else {
                                fuera()
                            },
                        },
                    },
                },
            },
        }
    };
}

/// `sp_decl_externa` reads the same after a prefix of `k` tokens, `k` places on.
proof fn lema_tras_decl_externa(c1: Contexto, c2: Contexto, kp: int, p: int)
    requires
        tras_prefijo(c1, c2, kp),
        0 <= p,
    ensures
        desplazada(sp_decl_externa(c1, p + kp), sp_decl_externa(c2, p), kp, p),
{
    desplegar_sp_decl_externa(c1, p + kp);
    desplegar_sp_decl_externa(c2, p);
    let _r = {
        let pos = pos_actual(c2, p);
        match { lema_tras_especificadores(c1, c2, kp, p); sp_especificadores(c2, p) } {
            Err(f) => Err(f),
            Ok((esp, p1)) => match { lema_tras_declarador(c1, c2, kp, p1); sp_declarador(c2, p1) } {
                Err(f) => Err(f),
                Ok((d, p2)) => if coincide(c2, p2, TipoToken::LlaveIzq) {
                    match { lema_tras_bloque(c1, c2, kp, p2); sp_bloque(c2, p2) } {
                        Err(f) => Err(f),
                        Ok((cuerpo, p3)) => Ok(
                            (
                                SpecDeclExterna::Funcion(
                                    SpecFuncionDef {
                                        posicion: pos,
                                        especificadores: esp,
                                        declarador: d,
                                        cuerpo,
                                    },
                                ),
                                p3,
                            ),
                        ),
                    }
                } else {
                    match { lema_tras_inicializador_opt(c1, c2, kp, p2); sp_inicializador_opt(c2, p2) } {
                        Err(f) => Err(f),
                        Ok((ini, p3)) => {
                            let primero = SpecInitDeclarador { declarador: d, inicializador: ini };
                            match { lema_tras_init_declaradores(c1, c2, kp, p3, seq![primero]); sp_init_declaradores(c2, p3, seq![primero]) } {
                                Err(f) => Err(f),
                                Ok((ds, p4)) => match esperar(c2, p4, TipoToken::PuntoYComa) {
                                    Err(f) => Err(f),
                                    Ok(p5) => Ok(
                                        (
                                            SpecDeclExterna::Declaracion(
                                                SpecDeclaracion {
                                                    posicion: pos,
                                                    especificadores: esp,
                                                    declaradores: ds,
                                                },
                                            ),
                                            p5,
                                        ),
                                    ),
                                },
                            }
                        },
                    }
                },
            },
        }
    };
}

/// `sp_programa_desde` reads the same after a prefix of `k` tokens, `k` places on.
proof fn lema_tras_programa_desde(c1: Contexto, c2: Contexto, kp: int, p: int, acc: Seq<SpecDeclExterna>)
    requires
        tras_prefijo(c1, c2, kp),
        0 <= p,
    ensures
        sp_programa_desde(c1, p + kp, acc) == sp_programa_desde(c2, p, acc),
    decreases c2.tokens.len() - p,
{
    desplegar_sp_programa_desde(c1, p + kp, acc);
    desplegar_sp_programa_desde(c2, p, acc);
    let _r = {
        if es_fin(c2, p) {
            Ok(acc)
        } else {
            let q = { lema_salto_preprocesador_tras(c1, c2, kp, p); saltar_preprocesador(c2, p) };
            if es_fin(c2, q) {
                Ok(acc)
            } else {
                match { lema_tras_decl_externa(c1, c2, kp, q); sp_decl_externa(c2, q) } {
                    Err(f) => Err(f),
                    Ok((d, r)) => if adelante(c2, q, r) && p <= q {
                        { lema_tras_programa_desde(c1, c2, kp, r, acc.push(d)); sp_programa_desde(c2, r, acc.push(d)) }
                    } else {
                        Err(Falla::FueraDeRango)
                    },
                }
            }
        }
    };
}

/// `sp_programa` reads the same after a prefix of `k` tokens, `k` places on.
proof fn lema_tras_programa(c1: Contexto, c2: Contexto, kp: int, p: int)
    requires
        tras_prefijo(c1, c2, kp),
        0 <= p,
    ensures
        sp_programa(c1, p + kp) == sp_programa(c2, p),
{
    desplegar_sp_programa(c1, p + kp);
    desplegar_sp_programa(c2, p);
    let _r = {
        match { lema_salto_preprocesador_tras(c1, c2, kp, saltar_bom(c2, p)); lema_tras_programa_desde(c1, c2, kp, saltar_preprocesador(c2, saltar_bom(c2, p)), Seq::empty()); sp_programa_desde(c2, saltar_preprocesador(c2, saltar_bom(c2, p)), Seq::empty()) } {
            Err(f) => Err(f),
            Ok(ds) => Ok(SpecPrograma { declaraciones: ds }),
        }
    };
}


/// One past the byte order mark that opens `pre`, or `0` where none does.
pub open spec fn tras_marca(pre: Seq<Token>) -> int {
    if pre.len() > 0 && es_marca_orden(pre[0]) {
        1
    } else {
        0
    }
}

/// Token `i` of `t` opens a preprocessor line: it is `#`, and it is the first
/// one after the mark or lies on another line than the token before it.
pub open spec fn abre_linea(t: Seq<Token>, b: int, i: int) -> bool {
    es_almohadilla(t[i]) && (i == b || t[i].posicion.linea != t[i - 1].posicion.linea)
}

/// Token `i` of `t` goes on the line of the token before it.
pub open spec fn sigue_linea(t: Seq<Token>, b: int, i: int) -> bool {
    b < i && t[i].posicion.linea == t[i - 1].posicion.linea
}

/// `pre` is what reading passes over before `resto`: an optional byte order
/// mark, then whole preprocessor lines, each opened by `#`; `resto` does not
/// start with a byte order mark of its own, nor on the last of those lines.
pub open spec fn prefijo_omitible(pre: Seq<Token>, resto: Seq<Token>) -> bool {
    let t = pre + resto;
    let b = tras_marca(pre);
    &&& forall|i: int| b <= i < pre.len() ==> abre_linea(t, b, i) || #[trigger] sigue_linea(t, b, i)
    &&& (pre.len() > 0 && resto.len() > 0 ==> !es_marca_orden(resto[0]))
    &&& (pre.len() > b && resto.len() > 0 ==> resto[0].posicion.linea != pre[pre.len() - 1].posicion.linea)
}

/// Past the rest of a preprocessor line of the prefix, and past the lines
/// after it, reading stands where it stands past the whole prefix.
proof fn lema_resto_de_linea(c: Contexto, pre: Seq<Token>, resto: Seq<Token>, i: int, l: usize)
    requires
        c.tokens == pre + resto,
        prefijo_omitible(pre, resto),
        tras_marca(pre) < i <= pre.len(),
        c.tokens[i - 1].posicion.linea == l,
    ensures
        i <= saltar_linea(c, i, l) <= c.tokens.len(),
        saltar_preprocesador(c, saltar_linea(c, i, l)) == saltar_preprocesador(c, pre.len() as int),
    decreases pre.len() - i, 1int,
{
    let t = c.tokens;
    let b = tras_marca(pre);
    let k = pre.len() as int;
    if i == k {
        if k < t.len() {
            assert(t[k] == resto[0]);
            assert(t[k - 1] == pre[k - 1]);
        }
    } else {
        assert(abre_linea(t, b, i) || sigue_linea(t, b, i));
        if sigue_linea(t, b, i) {
            lema_resto_de_linea(c, pre, resto, i + 1, l);
        } else {
            lema_lineas_del_prefijo(c, pre, resto, i);
        }
    }
}

/// From the start of a preprocessor line of the prefix, reading passes over
/// the whole prefix.
proof fn lema_lineas_del_prefijo(c: Contexto, pre: Seq<Token>, resto: Seq<Token>, i: int)
    requires
        c.tokens == pre + resto,
        prefijo_omitible(pre, resto),
        tras_marca(pre) <= i <= pre.len(),
        i == pre.len() || abre_linea(c.tokens, tras_marca(pre), i),
    ensures
        saltar_preprocesador(c, i) == saltar_preprocesador(c, pre.len() as int),
    decreases pre.len() - i, 0int,
{
    if i < pre.len() {
        let l = c.tokens[i].posicion.linea;
        lema_resto_de_linea(c, pre, resto, i + 1, l);
    }
}

/// A byte order mark and whole preprocessor lines before the tokens of a
/// program change nothing of what is read: the same program, or the same
/// error.
pub proof fn lema_prefijo_omitido(c1: Contexto, c2: Contexto, pre: Seq<Token>)
    requires
        c1.tokens == pre + c2.tokens,
        c1.lineas == c2.lineas,
        prefijo_omitible(pre, c2.tokens),
    ensures
        sp_programa(c1, 0) == sp_programa(c2, 0),
{
    reveal(sp_programa);
    let k = pre.len() as int;
    let b = tras_marca(pre);
    if k == 0 {
        assert(c1.tokens =~= c2.tokens);
        assert(c1 == c2);
    } else {
        assert(c1.tokens[0] == pre[0]);
        assert(saltar_bom(c1, 0) == b);
        if b < k {
            assert(abre_linea(c1.tokens, b, b) || sigue_linea(c1.tokens, b, b));
        }
        lema_lineas_del_prefijo(c1, pre, c2.tokens, b);
        if c2.tokens.len() == 0 {
            desplegar_sp_programa_desde(c1, k, Seq::empty());
            lema_programa_sin_tokens(c2);
        } else {
            assert forall|i: int| 0 <= i < c2.tokens.len() implies c1.tokens[i + k]
                == #[trigger] c2.tokens[i] by {}
            assert(tras_prefijo(c1, c2, k));
            assert(c2.tokens[0] == c1.tokens[k]);
            assert(saltar_bom(c2, 0) == 0);
            lema_salto_preprocesador_tras(c1, c2, k, 0);
            let q = saltar_preprocesador(c2, 0);
            lema_tras_programa_desde(c1, c2, k, q, Seq::empty());
        }
    }
}

} // verus!
