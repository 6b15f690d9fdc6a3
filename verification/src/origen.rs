//! Where syntax errors come from: every error that reading answers names
//! the position of a token of the input, describes a token of the input as
//! found, and carries the source line of its position; and the source text
//! changes nothing of what is read but that line.

use crate::gramatica::{
    Contexto, Falla, NivelBinario, adelante, almacenamiento_de, avanzar, calificador_de, calificadores_puntero, coincide, con_tipo, desplegar_sp_aditiva, desplegar_sp_aditiva_desde, desplegar_sp_argumentos, desplegar_sp_asignacion, desplegar_sp_binaria, desplegar_sp_binaria_desde, desplegar_sp_bloque, desplegar_sp_condicion, desplegar_sp_decl_externa, desplegar_sp_declaracion, desplegar_sp_declarador, desplegar_sp_declarador_directo, desplegar_sp_do_while, desplegar_sp_enum, desplegar_sp_enumeradores, desplegar_sp_especificadores, desplegar_sp_especificadores_desde, desplegar_sp_etiquetada, desplegar_sp_expr_hasta, desplegar_sp_expresion, desplegar_sp_for, desplegar_sp_for_init, desplegar_sp_goto, desplegar_sp_if, desplegar_sp_inicializador, desplegar_sp_inicializador_opt, desplegar_sp_init_declaradores, desplegar_sp_items, desplegar_sp_lista_argumentos, desplegar_sp_lista_inicializadores, desplegar_sp_miembro, desplegar_sp_miembros, desplegar_sp_multiplicativa, desplegar_sp_multiplicativa_desde, desplegar_sp_operando, desplegar_sp_parametros, desplegar_sp_parametros_desde, desplegar_sp_parametros_tras, desplegar_sp_postfija, desplegar_sp_postfija_desde, desplegar_sp_primaria, desplegar_sp_programa, desplegar_sp_programa_desde, desplegar_sp_punteros, desplegar_sp_relacional, desplegar_sp_relacional_desde, desplegar_sp_return, desplegar_sp_salto_simple, desplegar_sp_sentencia, desplegar_sp_sentencia_expr, desplegar_sp_struct_union, desplegar_sp_sufijos, desplegar_sp_switch, desplegar_sp_tamano, desplegar_sp_ternario, desplegar_sp_tipo, desplegar_sp_tipo_punteros, desplegar_sp_unaria, desplegar_sp_valor_enumerador, desplegar_sp_while, error_aqui, error_token, errores_del_texto, es_almohadilla, es_cast, es_etiqueta, es_fin, es_inicio_decl_bloque, es_inicio_declarador, es_operador_de, especificadores_vacios, esperar, fuera, leer_calificadores, literal_de, misma_lectura, no_atras, nombre_opcional, operador_aditivo_de, operador_asignacion_de, operador_binario_de, operador_multiplicativo_de, operador_relacional_de, operador_unario_de, pos_actual, rango_nivel, saltar_bom, saltar_linea, saltar_preprocesador, sp_aditiva, sp_aditiva_desde, sp_argumentos, sp_asignacion, sp_binaria, sp_binaria_desde, sp_bloque, sp_condicion, sp_decl_externa, sp_declaracion, sp_declarador, sp_declarador_directo, sp_do_while, sp_enum, sp_enumeradores, sp_especificadores, sp_especificadores_desde, sp_etiquetada, sp_expr_hasta, sp_expresion, sp_for, sp_for_init, sp_goto, sp_if, sp_inicializador, sp_inicializador_opt, sp_init_declaradores, sp_items, sp_lista_argumentos, sp_lista_inicializadores, sp_miembro, sp_miembros, sp_multiplicativa, sp_multiplicativa_desde, sp_operando, sp_parametros, sp_parametros_desde, sp_parametros_tras, sp_postfija, sp_postfija_desde, sp_primaria, sp_programa, sp_programa_desde, sp_punteros, sp_relacional, sp_relacional_desde, sp_return, sp_salto_simple, sp_sentencia, sp_sentencia_expr, sp_struct_union, sp_sufijos, sp_switch, sp_tamano, sp_ternario, sp_tipo, sp_tipo_punteros, sp_unaria, sp_valor_enumerador, sp_while, tipo_actual, tipo_primitivo_de, tipo_struct_union,
};
use crate::ast::{
    Calificador, Declaracion, Expr, Iteracion, Literal, OperadorUnario, Puntero, Salto, Seleccion, Sentencia, SpecBloque, SpecDeclExterna, SpecDeclaracion, SpecDeclarador, SpecDeclaradorBase, SpecEnum, SpecEnumerador, SpecEspecificadores, SpecEtiqueta, SpecExpr, SpecForInit, SpecFuncionDef, SpecInicializador, SpecInitDeclarador, SpecItemBloque, SpecIteracion, SpecParametro, SpecPrograma, SpecSalto, SpecSeleccion, SpecSentencia, SpecSizeofObjetivo, SpecSufijo, SpecTipo, Tipo, TipoPrimitivo,
};
use crate::token::{
    Posicion, TipoToken, valor_de,
};
use crate::error::{
    SpecError, describir_token_esp,
};
use vstd::prelude::*;

verus! {

broadcast use crate::gramatica::lema_error_aqui_del_texto, crate::gramatica::lema_error_token_del_texto,
    crate::gramatica::lema_error_aqui_mismo, crate::gramatica::lema_error_token_mismo;

/// What `sp_tipo_punteros` answers with a syntax error speaks of the tokens.
proof fn lema_errores_tipo_punteros(c: Contexto, p: int, t: SpecTipo)
    requires
        c.tokens.len() > 0,
    ensures
        errores_del_texto(c, sp_tipo_punteros(c, p, t)),
    decreases c.tokens.len() - p,
{
    desplegar_sp_tipo_punteros(c, p, t);
    let _r = {
        if coincide(c, p, TipoToken::Asterisco) && p >= 0 {
            let (cal, q) = calificadores_puntero(c, p + 1);
            if adelante(c, p, q) {
                { lema_errores_tipo_punteros(c, q, SpecTipo::Puntero { calificadores: cal, apunta_a: Box::new(t) }); sp_tipo_punteros(c, q, SpecTipo::Puntero { calificadores: cal, apunta_a: Box::new(t) }) }
            } else {
                fuera()
            }
        } else {
            Ok((t, p))
        }
    };
}

/// What `sp_tipo` answers with a syntax error speaks of the tokens.
proof fn lema_errores_tipo(c: Contexto, p: int)
    requires
        c.tokens.len() > 0,
    ensures
        errores_del_texto(c, sp_tipo(c, p)),
{
    desplegar_sp_tipo(c, p);
    let _r = {
        if coincide(c, p, TipoToken::Identificador) {
            Ok((SpecTipo::Nombre(valor_de(c.tokens[p])), p + 1))
        } else if es_fin(c, p) || p < 0 {
            fuera()
        } else {
            let t = c.tokens[p];
            match tipo_primitivo_de(t.tipo) {
                None => Err(error_token(c, pos_actual(c, p + 1), "tipo primitivo"@, t)),
                Some(prim) => {
                    let q = if coincide(c, p + 1, TipoToken::Long) && (prim == TipoPrimitivo::Long
                        || prim == TipoPrimitivo::Double) {
                        p + 2
                    } else {
                        p + 1
                    };
                    { lema_errores_tipo_punteros(c, q, SpecTipo::Primitivo(prim)); sp_tipo_punteros(c, q, SpecTipo::Primitivo(prim)) }
                },
            }
        }
    };
}

/// What `sp_especificadores` answers with a syntax error speaks of the tokens.
proof fn lema_errores_especificadores(c: Contexto, p: int)
    requires
        c.tokens.len() > 0,
    ensures
        errores_del_texto(c, sp_especificadores(c, p)),
    decreases c.tokens.len() - p, 2int,
{
    desplegar_sp_especificadores(c, p);
    let _r = {
        { lema_errores_especificadores_desde(c, p, especificadores_vacios()); sp_especificadores_desde(c, p, especificadores_vacios()) }
    };
}

/// What `sp_especificadores_desde` answers with a syntax error speaks of the tokens.
proof fn lema_errores_especificadores_desde(c: Contexto,
    p: int,
    e: SpecEspecificadores)
    requires
        c.tokens.len() > 0,
    ensures
        errores_del_texto(c, sp_especificadores_desde(c, p, e)),
    decreases c.tokens.len() - p, 1int,
{
    desplegar_sp_especificadores_desde(c, p, e);
    let _r = {
        let k = tipo_actual(c, p);
        if almacenamiento_de(k) is Some {
            match avanzar(c, p) {
                Err(f) => Err(f),
                Ok(q) => { lema_errores_especificadores_desde(
                    c,
                    q,
                    SpecEspecificadores {
                        almacenamiento: e.almacenamiento.push(almacenamiento_de(k).unwrap()),
                        calificadores: e.calificadores,
                        tipo: e.tipo,
                    },
                ); sp_especificadores_desde(
                    c,
                    q,
                    SpecEspecificadores {
                        almacenamiento: e.almacenamiento.push(almacenamiento_de(k).unwrap()),
                        calificadores: e.calificadores,
                        tipo: e.tipo,
                    },
                ) },
            }
        } else if calificador_de(k) is Some {
            match avanzar(c, p) {
                Err(f) => Err(f),
                Ok(q) => { lema_errores_especificadores_desde(
                    c,
                    q,
                    SpecEspecificadores {
                        almacenamiento: e.almacenamiento,
                        calificadores: e.calificadores.push(calificador_de(k).unwrap()),
                        tipo: e.tipo,
                    },
                ); sp_especificadores_desde(
                    c,
                    q,
                    SpecEspecificadores {
                        almacenamiento: e.almacenamiento,
                        calificadores: e.calificadores.push(calificador_de(k).unwrap()),
                        tipo: e.tipo,
                    },
                ) },
            }
        } else if k == TipoToken::Struct || k == TipoToken::Union || k == TipoToken::Enum {
            let r = if k == TipoToken::Enum {
                { lema_errores_enum(c, p); sp_enum(c, p) }
            } else {
                { lema_errores_struct_union(c, p, k == TipoToken::Struct); sp_struct_union(c, p, k == TipoToken::Struct) }
            };
            match r {
                Err(f) => Err(f),
                Ok((t, q)) => if adelante(c, p, q) {
                    { lema_errores_especificadores_desde(c, q, con_tipo(e, t)); sp_especificadores_desde(c, q, con_tipo(e, t)) }
                } else {
                    fuera()
                },
            }
        } else if tipo_primitivo_de(k) is Some || k == TipoToken::Identificador {
            match { lema_errores_tipo(c, p); sp_tipo(c, p) } {
                Err(f) => Err(f),
                Ok((t, q)) => Ok((con_tipo(e, t), q)),
            }
        } else {
            Ok((e, p))
        }
    };
}

/// What `sp_struct_union` answers with a syntax error speaks of the tokens.
proof fn lema_errores_struct_union(c: Contexto, p: int, es_struct: bool)
    requires
        c.tokens.len() > 0,
    ensures
        errores_del_texto(c, sp_struct_union(c, p, es_struct)),
    decreases c.tokens.len() - p, 0int,
{
    desplegar_sp_struct_union(c, p, es_struct);
    let _r = {
        match avanzar(c, p) {
            Err(f) => Err(f),
            Ok(p1) => {
                let (nombre, p2) = nombre_opcional(c, p1);
                if coincide(c, p2, TipoToken::LlaveIzq) {
                    match { lema_errores_miembros(c, p2 + 1, Seq::empty()); sp_miembros(c, p2 + 1, Seq::empty()) } {
                        Err(f) => Err(f),
                        Ok((ms, p3)) => if no_atras(c, p2 + 1, p3) {
                            match esperar(c, p3, TipoToken::LlaveDer) {
                                Err(f) => Err(f),
                                Ok(p4) => Ok((tipo_struct_union(es_struct, nombre, ms), p4)),
                            }
                        } else {
                            fuera()
                        },
                    }
                } else {
                    Ok((tipo_struct_union(es_struct, nombre, Seq::empty()), p2))
                }
            },
        }
    };
}

/// What `sp_miembros` answers with a syntax error speaks of the tokens.
proof fn lema_errores_miembros(c: Contexto, p: int, acc: Seq<SpecDeclaracion>)
    requires
        c.tokens.len() > 0,
    ensures
        errores_del_texto(c, sp_miembros(c, p, acc)),
    decreases c.tokens.len() - p, 4int,
{
    desplegar_sp_miembros(c, p, acc);
    let _r = {
        if !coincide(c, p, TipoToken::LlaveDer) && !es_fin(c, p) {
            match { lema_errores_declaracion(c, p); sp_declaracion(c, p) } {
                Err(f) => Err(f),
                Ok((d, q)) => if adelante(c, p, q) {
                    { lema_errores_miembros(c, q, acc.push(d)); sp_miembros(c, q, acc.push(d)) }
                } else {
                    fuera()
                },
            }
        } else {
            Ok((acc, p))
        }
    };
}

/// What `sp_declaracion` answers with a syntax error speaks of the tokens.
proof fn lema_errores_declaracion(c: Contexto, p: int)
    requires
        c.tokens.len() > 0,
    ensures
        errores_del_texto(c, sp_declaracion(c, p)),
    decreases c.tokens.len() - p, 3int,
{
    desplegar_sp_declaracion(c, p);
    let _r = {
        let pos = pos_actual(c, p);
        match { lema_errores_especificadores(c, p); sp_especificadores(c, p) } {
            Err(f) => Err(f),
            Ok((esp, p1)) => if no_atras(c, p, p1) {
                match { lema_errores_declarador(c, p1); sp_declarador(c, p1) } {
                    Err(f) => Err(f),
                    Ok((d, p2)) => if adelante(c, p1, p2) {
                        match { lema_errores_inicializador_opt(c, p2); sp_inicializador_opt(c, p2) } {
                            Err(f) => Err(f),
                            Ok((ini, p3)) => if no_atras(c, p2, p3) {
                                let primero = SpecInitDeclarador { declarador: d, inicializador: ini };
                                match { lema_errores_init_declaradores(c, p3, seq![primero]); sp_init_declaradores(c, p3, seq![primero]) } {
                                    Err(f) => Err(f),
                                    Ok((ds, p4)) => if no_atras(c, p3, p4) {
                                        match esperar(c, p4, TipoToken::PuntoYComa) {
                                            Err(f) => Err(f),
                                            Ok(p5) => Ok(
                                                (
                                                    SpecDeclaracion {
                                                        posicion: pos,
                                                        especificadores: esp,
                                                        declaradores: ds,
                                                    },
                                                    p5,
                                                ),
                                            ),
                                        }
                                    } else {
                                        fuera()
                                    },
                                }
                            } else {
                                fuera()
                            },
                        }
                    } else {
                        fuera()
                    },
                }
            } else {
                fuera()
            },
        }
    };
}

/// What `sp_init_declaradores` answers with a syntax error speaks of the tokens.
proof fn lema_errores_init_declaradores(c: Contexto, p: int, acc: Seq<SpecInitDeclarador>)
    requires
        c.tokens.len() > 0,
    ensures
        errores_del_texto(c, sp_init_declaradores(c, p, acc)),
    decreases c.tokens.len() - p, 0int,
{
    desplegar_sp_init_declaradores(c, p, acc);
    let _r = {
        if coincide(c, p, TipoToken::Coma) && p >= 0 {
            match { lema_errores_declarador(c, p + 1); sp_declarador(c, p + 1) } {
                Err(f) => Err(f),
                Ok((d, q1)) => if adelante(c, p + 1, q1) {
                    match { lema_errores_inicializador_opt(c, q1); sp_inicializador_opt(c, q1) } {
                        Err(f) => Err(f),
                        Ok((ini, q2)) => if no_atras(c, q1, q2) {
                            { lema_errores_init_declaradores(
                                c,
                                q2,
                                acc.push(SpecInitDeclarador { declarador: d, inicializador: ini }),
                            ); sp_init_declaradores(
                                c,
                                q2,
                                acc.push(SpecInitDeclarador { declarador: d, inicializador: ini }),
                            ) }
                        } else {
                            fuera()
                        },
                    }
                } else {
                    fuera()
                },
            }
        } else {
            Ok((acc, p))
        }
    };
}

/// What `sp_declarador` answers with a syntax error speaks of the tokens.
proof fn lema_errores_declarador(c: Contexto, p: int)
    requires
        c.tokens.len() > 0,
    ensures
        errores_del_texto(c, sp_declarador(c, p)),
    decreases c.tokens.len() - p, 1int,
{
    desplegar_sp_declarador(c, p);
    let _r = {
        let (ps, p1) = sp_punteros(c, p, Seq::empty());
        if no_atras(c, p, p1) {
            match { lema_errores_declarador_directo(c, p1); sp_declarador_directo(c, p1) } {
                Err(f) => Err(f),
                Ok((b, p2)) => Ok((SpecDeclarador { punteros: ps, base: b }, p2)),
            }
        } else {
            fuera()
        }
    };
}

/// What `sp_declarador_directo` answers with a syntax error speaks of the tokens.
proof fn lema_errores_declarador_directo(c: Contexto, p: int)
    requires
        c.tokens.len() > 0,
    ensures
        errores_del_texto(c, sp_declarador_directo(c, p)),
    decreases c.tokens.len() - p, 0int,
{
    desplegar_sp_declarador_directo(c, p);
    let _r = {
        if coincide(c, p, TipoToken::ParentesisIzq) && p >= 0 {
            match { lema_errores_declarador(c, p + 1); sp_declarador(c, p + 1) } {
                Err(f) => Err(f),
                Ok((d, q)) => if adelante(c, p + 1, q) {
                    match esperar(c, q, TipoToken::ParentesisDer) {
                        Err(f) => Err(f),
                        Ok(q2) => { lema_errores_sufijos(c, q2, SpecDeclaradorBase::Agrupado(Box::new(d))); sp_sufijos(c, q2, SpecDeclaradorBase::Agrupado(Box::new(d))) },
                    }
                } else {
                    fuera()
                },
            }
        } else {
            match esperar(c, p, TipoToken::Identificador) {
                Err(f) => Err(f),
                Ok(q) => { lema_errores_sufijos(
                    c,
                    q,
                    SpecDeclaradorBase::Identificador(valor_de(c.tokens[p])),
                ); sp_sufijos(
                    c,
                    q,
                    SpecDeclaradorBase::Identificador(valor_de(c.tokens[p])),
                ) },
            }
        }
    };
}

/// What `sp_tamano` answers with a syntax error speaks of the tokens.
proof fn lema_errores_tamano(c: Contexto, p: int)
    requires
        c.tokens.len() > 0,
    ensures
        errores_del_texto(c, sp_tamano(c, p)),
{
    desplegar_sp_tamano(c, p);
    let _r = {
        if coincide(c, p, TipoToken::CorcheteDer) {
            Ok((None, p))
        } else {
            match { lema_errores_expresion(c, p); sp_expresion(c, p) } {
                Err(f) => Err(f),
                Ok((e, q)) => Ok((Some(Box::new(e)), q)),
            }
        }
    };
}

/// What `sp_sufijos` answers with a syntax error speaks of the tokens.
proof fn lema_errores_sufijos(c: Contexto, p: int, base: SpecDeclaradorBase)
    requires
        c.tokens.len() > 0,
    ensures
        errores_del_texto(c, sp_sufijos(c, p, base)),
    decreases c.tokens.len() - p, 0int,
{
    desplegar_sp_sufijos(c, p, base);
    let _r = {
        if coincide(c, p, TipoToken::CorcheteIzq) && p >= 0 {
            match { lema_errores_tamano(c, p + 1); sp_tamano(c, p + 1) } {
                Err(f) => Err(f),
                Ok((tam, q)) => if no_atras(c, p + 1, q) {
                    match esperar(c, q, TipoToken::CorcheteDer) {
                        Err(f) => Err(f),
                        Ok(q2) => { lema_errores_sufijos(
                            c,
                            q2,
                            SpecDeclaradorBase::Derivado {
                                interno: Box::new(base),
                                sufijo: SpecSufijo::Array(tam),
                            },
                        ); sp_sufijos(
                            c,
                            q2,
                            SpecDeclaradorBase::Derivado {
                                interno: Box::new(base),
                                sufijo: SpecSufijo::Array(tam),
                            },
                        ) },
                    }
                } else {
                    fuera()
                },
            }
        } else if coincide(c, p, TipoToken::ParentesisIzq) && p >= 0 {
            match { lema_errores_parametros(c, p + 1); sp_parametros(c, p + 1) } {
                Err(f) => Err(f),
                Ok((ps, q)) => if no_atras(c, p + 1, q) {
                    match esperar(c, q, TipoToken::ParentesisDer) {
                        Err(f) => Err(f),
                        Ok(q2) => { lema_errores_sufijos(
                            c,
                            q2,
                            SpecDeclaradorBase::Derivado {
                                interno: Box::new(base),
                                sufijo: SpecSufijo::Funcion(ps),
                            },
                        ); sp_sufijos(
                            c,
                            q2,
                            SpecDeclaradorBase::Derivado {
                                interno: Box::new(base),
                                sufijo: SpecSufijo::Funcion(ps),
                            },
                        ) },
                    }
                } else {
                    fuera()
                },
            }
        } else {
            Ok((base, p))
        }
    };
}

/// What `sp_parametros` answers with a syntax error speaks of the tokens.
proof fn lema_errores_parametros(c: Contexto, p: int)
    requires
        c.tokens.len() > 0,
    ensures
        errores_del_texto(c, sp_parametros(c, p)),
    decreases c.tokens.len() - p, 4int,
{
    desplegar_sp_parametros(c, p);
    let _r = {
        if coincide(c, p, TipoToken::Void) {
            Ok((Seq::empty(), p + 1))
        } else if coincide(c, p, TipoToken::ParentesisDer) {
            Ok((Seq::empty(), p))
        } else {
            { lema_errores_parametros_desde(c, p, Seq::empty()); sp_parametros_desde(c, p, Seq::empty()) }
        }
    };
}

/// What `sp_parametros_desde` answers with a syntax error speaks of the tokens.
proof fn lema_errores_parametros_desde(c: Contexto, p: int, acc: Seq<SpecParametro>)
    requires
        c.tokens.len() > 0,
    ensures
        errores_del_texto(c, sp_parametros_desde(c, p, acc)),
    decreases c.tokens.len() - p, 3int,
{
    desplegar_sp_parametros_desde(c, p, acc);
    let _r = {
        match { lema_errores_especificadores(c, p); sp_especificadores(c, p) } {
            Err(f) => Err(f),
            Ok((esp, p1)) => if no_atras(c, p, p1) {
                if es_inicio_declarador(c, p1) {
                    match { lema_errores_declarador(c, p1); sp_declarador(c, p1) } {
                        Err(f) => Err(f),
                        Ok((d, p2)) => if adelante(c, p1, p2) {
                            { lema_errores_parametros_tras(
                                c,
                                p2,
                                acc.push(SpecParametro { especificadores: esp, declarador: Some(d) }),
                            ); sp_parametros_tras(
                                c,
                                p2,
                                acc.push(SpecParametro { especificadores: esp, declarador: Some(d) }),
                            ) }
                        } else {
                            fuera()
                        },
                    }
                } else {
                    { lema_errores_parametros_tras(
                        c,
                        p1,
                        acc.push(SpecParametro { especificadores: esp, declarador: None }),
                    ); sp_parametros_tras(
                        c,
                        p1,
                        acc.push(SpecParametro { especificadores: esp, declarador: None }),
                    ) }
                }
            } else {
                fuera()
            },
        }
    };
}

/// What `sp_parametros_tras` answers with a syntax error speaks of the tokens.
proof fn lema_errores_parametros_tras(c: Contexto, p: int, acc: Seq<SpecParametro>)
    requires
        c.tokens.len() > 0,
    ensures
        errores_del_texto(c, sp_parametros_tras(c, p, acc)),
    decreases c.tokens.len() - p, 0int,
{
    desplegar_sp_parametros_tras(c, p, acc);
    let _r = {
        if coincide(c, p, TipoToken::Coma) && p >= 0 {
            { lema_errores_parametros_desde(c, p + 1, acc); sp_parametros_desde(c, p + 1, acc) }
        } else {
            Ok((acc, p))
        }
    };
}

/// What `sp_inicializador_opt` answers with a syntax error speaks of the tokens.
proof fn lema_errores_inicializador_opt(c: Contexto, p: int)
    requires
        c.tokens.len() > 0,
    ensures
        errores_del_texto(c, sp_inicializador_opt(c, p)),
{
    desplegar_sp_inicializador_opt(c, p);
    let _r = {
        if !coincide(c, p, TipoToken::Asignar) || p < 0 {
            Ok((None, p))
        } else {
            match { lema_errores_inicializador(c, p + 1); sp_inicializador(c, p + 1) } {
                Err(f) => Err(f),
                Ok((i, q)) => Ok((Some(i), q)),
            }
        }
    };
}

/// What `sp_inicializador` answers with a syntax error speaks of the tokens.
proof fn lema_errores_inicializador(c: Contexto, p: int)
    requires
        c.tokens.len() > 0,
    ensures
        errores_del_texto(c, sp_inicializador(c, p)),
    decreases c.tokens.len() - p, 0int,
{
    desplegar_sp_inicializador(c, p);
    let _r = {
        if coincide(c, p, TipoToken::LlaveIzq) && p >= 0 {
            if coincide(c, p + 1, TipoToken::LlaveDer) {
                Ok((SpecInicializador::Lista(Seq::empty()), p + 2))
            } else {
                match { lema_errores_lista_inicializadores(c, p + 1, Seq::empty()); sp_lista_inicializadores(c, p + 1, Seq::empty()) } {
                    Err(f) => Err(f),
                    Ok((l, q)) => if adelante(c, p + 1, q) {
                        match esperar(c, q, TipoToken::LlaveDer) {
                            Err(f) => Err(f),
                            Ok(q2) => Ok((SpecInicializador::Lista(l), q2)),
                        }
                    } else {
                        fuera()
                    },
                }
            }
        } else {
            match { lema_errores_expresion(c, p); sp_expresion(c, p) } {
                Err(f) => Err(f),
                Ok((e, q)) => Ok((SpecInicializador::Expr(Box::new(e)), q)),
            }
        }
    };
}

/// What `sp_lista_inicializadores` answers with a syntax error speaks of the tokens.
proof fn lema_errores_lista_inicializadores(c: Contexto,
    p: int,
    acc: Seq<SpecInicializador>)
    requires
        c.tokens.len() > 0,
    ensures
        errores_del_texto(c, sp_lista_inicializadores(c, p, acc)),
    decreases c.tokens.len() - p, 1int,
{
    desplegar_sp_lista_inicializadores(c, p, acc);
    let _r = {
        match { lema_errores_inicializador(c, p); sp_inicializador(c, p) } {
            Err(f) => Err(f),
            Ok((i, q)) => if adelante(c, p, q) {
                if coincide(c, q, TipoToken::Coma) {
                    { lema_errores_lista_inicializadores(c, q + 1, acc.push(i)); sp_lista_inicializadores(c, q + 1, acc.push(i)) }
                } else {
                    Ok((acc.push(i), q))
                }
            } else {
                fuera()
            },
        }
    };
}

/// What `sp_enum` answers with a syntax error speaks of the tokens.
proof fn lema_errores_enum(c: Contexto, p: int)
    requires
        c.tokens.len() > 0,
    ensures
        errores_del_texto(c, sp_enum(c, p)),
{
    desplegar_sp_enum(c, p);
    let _r = {
        match avanzar(c, p) {
            Err(f) => Err(f),
            Ok(p1) => {
                let (nombre, p2) = nombre_opcional(c, p1);
                if coincide(c, p2, TipoToken::LlaveIzq) {
                    match { lema_errores_enumeradores(c, p2 + 1, Seq::empty()); sp_enumeradores(c, p2 + 1, Seq::empty()) } {
                        Err(f) => Err(f),
                        Ok((es, p3)) => if no_atras(c, p2 + 1, p3) {
                            match esperar(c, p3, TipoToken::LlaveDer) {
                                Err(f) => Err(f),
                                Ok(p4) => Ok(
                                    (SpecTipo::Enum(SpecEnum { nombre, enumeradores: es }), p4),
                                ),
                            }
                        } else {
                            fuera()
                        },
                    }
                } else {
                    Ok((SpecTipo::Enum(SpecEnum { nombre, enumeradores: Seq::empty() }), p2))
                }
            },
        }
    };
}

/// What `sp_valor_enumerador` answers with a syntax error speaks of the tokens.
proof fn lema_errores_valor_enumerador(c: Contexto, p: int)
    requires
        c.tokens.len() > 0,
    ensures
        errores_del_texto(c, sp_valor_enumerador(c, p)),
{
    desplegar_sp_valor_enumerador(c, p);
    let _r = {
        if coincide(c, p, TipoToken::Asignar) && p >= 0 {
            match { lema_errores_expresion(c, p + 1); sp_expresion(c, p + 1) } {
                Err(f) => Err(f),
                Ok((e, q)) => Ok((Some(Box::new(e)), q)),
            }
        } else {
            Ok((None, p))
        }
    };
}

/// What `sp_enumeradores` answers with a syntax error speaks of the tokens.
proof fn lema_errores_enumeradores(c: Contexto, p: int, acc: Seq<SpecEnumerador>)
    requires
        c.tokens.len() > 0,
    ensures
        errores_del_texto(c, sp_enumeradores(c, p, acc)),
    decreases c.tokens.len() - p,
{
    desplegar_sp_enumeradores(c, p, acc);
    let _r = {
        if !coincide(c, p, TipoToken::LlaveDer) && !es_fin(c, p) {
            match esperar(c, p, TipoToken::Identificador) {
                Err(f) => Err(f),
                Ok(p1) => match { lema_errores_valor_enumerador(c, p1); sp_valor_enumerador(c, p1) } {
                    Err(f) => Err(f),
                    Ok((valor, q)) => if no_atras(c, p1, q) {
                        let q2 = if coincide(c, q, TipoToken::Coma) {
                            q + 1
                        } else {
                            q
                        };
                        { lema_errores_enumeradores(
                            c,
                            q2,
                            acc.push(SpecEnumerador { nombre: valor_de(c.tokens[p]), valor }),
                        ); sp_enumeradores(
                            c,
                            q2,
                            acc.push(SpecEnumerador { nombre: valor_de(c.tokens[p]), valor }),
                        ) }
                    } else {
                        fuera()
                    },
                },
            }
        } else {
            Ok((acc, p))
        }
    };
}

/// What `sp_expresion` answers with a syntax error speaks of the tokens.
proof fn lema_errores_expresion(c: Contexto, p: int)
    requires
        c.tokens.len() > 0,
    ensures
        errores_del_texto(c, sp_expresion(c, p)),
    decreases c.tokens.len() - p, 40int,
{
    desplegar_sp_expresion(c, p);
    let _r = {
        { lema_errores_asignacion(c, p); sp_asignacion(c, p) }
    };
}

/// What `sp_asignacion` answers with a syntax error speaks of the tokens.
proof fn lema_errores_asignacion(c: Contexto, p: int)
    requires
        c.tokens.len() > 0,
    ensures
        errores_del_texto(c, sp_asignacion(c, p)),
    decreases c.tokens.len() - p, 39int,
{
    desplegar_sp_asignacion(c, p);
    let _r = {
        match { lema_errores_ternario(c, p); sp_ternario(c, p) } {
            Err(f) => Err(f),
            Ok((e, q)) => if adelante(c, p, q) {
                match operador_asignacion_de(tipo_actual(c, q)) {
                    None => Ok((e, q)),
                    Some(op) => match avanzar(c, q) {
                        Err(f) => Err(f),
                        Ok(q1) => match { lema_errores_asignacion(c, q1); sp_asignacion(c, q1) } {
                            Err(f) => Err(f),
                            Ok((v, q2)) => Ok(
                                (
                                    SpecExpr::Asignacion {
                                        posicion: pos_actual(c, q),
                                        operador: op,
                                        destino: Box::new(e),
                                        valor: Box::new(v),
                                    },
                                    q2,
                                ),
                            ),
                        },
                    },
                }
            } else {
                fuera()
            },
        }
    };
}

/// What `sp_ternario` answers with a syntax error speaks of the tokens.
proof fn lema_errores_ternario(c: Contexto, p: int)
    requires
        c.tokens.len() > 0,
    ensures
        errores_del_texto(c, sp_ternario(c, p)),
    decreases c.tokens.len() - p, 38int,
{
    desplegar_sp_ternario(c, p);
    let _r = {
        match { lema_errores_binaria(c, p, NivelBinario::OLogico); sp_binaria(c, p, NivelBinario::OLogico) } {
            Err(f) => Err(f),
            Ok((e, q)) => if adelante(c, p, q) {
                if coincide(c, q, TipoToken::Interrogacion) {
                    match { lema_errores_expresion(c, q + 1); sp_expresion(c, q + 1) } {
                        Err(f) => Err(f),
                        Ok((v, q2)) => if adelante(c, q + 1, q2) {
                            match esperar(c, q2, TipoToken::DosPuntos) {
                                Err(f) => Err(f),
                                Ok(q3) => match { lema_errores_ternario(c, q3); sp_ternario(c, q3) } {
                                    Err(f) => Err(f),
                                    Ok((fa, q4)) => Ok(
                                        (
                                            SpecExpr::Ternaria {
                                                posicion: pos_actual(c, q),
                                                condicion: Box::new(e),
                                                verdadero: Box::new(v),
                                                falso: Box::new(fa),
                                            },
                                            q4,
                                        ),
                                    ),
                                },
                            }
                        } else {
                            fuera()
                        },
                    }
                } else {
                    Ok((e, q))
                }
            } else {
                fuera()
            },
        }
    };
}

/// What `sp_binaria` answers with a syntax error speaks of the tokens.
proof fn lema_errores_binaria(c: Contexto, p: int, nivel: NivelBinario)
    requires
        c.tokens.len() > 0,
    ensures
        errores_del_texto(c, sp_binaria(c, p, nivel)),
    decreases c.tokens.len() - p, rango_nivel(nivel),
{
    desplegar_sp_binaria(c, p, nivel);
    let _r = {
        match { lema_errores_operando(c, p, nivel); sp_operando(c, p, nivel) } {
            Err(f) => Err(f),
            Ok((e, q)) => if adelante(c, p, q) {
                { lema_errores_binaria_desde(c, q, nivel, e); sp_binaria_desde(c, q, nivel, e) }
            } else {
                fuera()
            },
        }
    };
}

/// What `sp_operando` answers with a syntax error speaks of the tokens.
proof fn lema_errores_operando(c: Contexto, p: int, nivel: NivelBinario)
    requires
        c.tokens.len() > 0,
    ensures
        errores_del_texto(c, sp_operando(c, p, nivel)),
    decreases c.tokens.len() - p, rango_nivel(nivel) - 1,
{
    desplegar_sp_operando(c, p, nivel);
    let _r = {
        match nivel {
            NivelBinario::OLogico => { lema_errores_binaria(c, p, NivelBinario::YLogico); sp_binaria(c, p, NivelBinario::YLogico) },
            NivelBinario::YLogico => { lema_errores_binaria(c, p, NivelBinario::OBit); sp_binaria(c, p, NivelBinario::OBit) },
            NivelBinario::OBit => { lema_errores_binaria(c, p, NivelBinario::XorBit); sp_binaria(c, p, NivelBinario::XorBit) },
            NivelBinario::XorBit => { lema_errores_binaria(c, p, NivelBinario::YBit); sp_binaria(c, p, NivelBinario::YBit) },
            NivelBinario::YBit => { lema_errores_binaria(c, p, NivelBinario::Igualdad); sp_binaria(c, p, NivelBinario::Igualdad) },
            NivelBinario::Igualdad => { lema_errores_relacional(c, p); sp_relacional(c, p) },
            NivelBinario::Desplazamiento => { lema_errores_aditiva(c, p); sp_aditiva(c, p) },
        }
    };
}

/// What `sp_binaria_desde` answers with a syntax error speaks of the tokens.
proof fn lema_errores_binaria_desde(c: Contexto, p: int, nivel: NivelBinario, acc: SpecExpr)
    requires
        c.tokens.len() > 0,
    ensures
        errores_del_texto(c, sp_binaria_desde(c, p, nivel, acc)),
    decreases c.tokens.len() - p, 0int,
{
    desplegar_sp_binaria_desde(c, p, nivel, acc);
    let _r = {
        if es_operador_de(nivel, tipo_actual(c, p)) {
            match avanzar(c, p) {
                Err(f) => Err(f),
                Ok(p1) => match { lema_errores_operando(c, p1, nivel); sp_operando(c, p1, nivel) } {
                    Err(f) => Err(f),
                    Ok((d, q)) => if adelante(c, p1, q) {
                        { lema_errores_binaria_desde(
                            c,
                            q,
                            nivel,
                            SpecExpr::Binaria {
                                posicion: pos_actual(c, p),
                                operador: operador_binario_de(tipo_actual(c, p), nivel),
                                izquierda: Box::new(acc),
                                derecha: Box::new(d),
                            },
                        ); sp_binaria_desde(
                            c,
                            q,
                            nivel,
                            SpecExpr::Binaria {
                                posicion: pos_actual(c, p),
                                operador: operador_binario_de(tipo_actual(c, p), nivel),
                                izquierda: Box::new(acc),
                                derecha: Box::new(d),
                            },
                        ) }
                    } else {
                        fuera()
                    },
                },
            }
        } else {
            Ok((acc, p))
        }
    };
}

/// What `sp_relacional` answers with a syntax error speaks of the tokens.
proof fn lema_errores_relacional(c: Contexto, p: int)
    requires
        c.tokens.len() > 0,
    ensures
        errores_del_texto(c, sp_relacional(c, p)),
    decreases c.tokens.len() - p, 24int,
{
    desplegar_sp_relacional(c, p);
    let _r = {
        match { lema_errores_binaria(c, p, NivelBinario::Desplazamiento); sp_binaria(c, p, NivelBinario::Desplazamiento) } {
            Err(f) => Err(f),
            Ok((e, q)) => if adelante(c, p, q) {
                { lema_errores_relacional_desde(c, q, e); sp_relacional_desde(c, q, e) }
            } else {
                fuera()
            },
        }
    };
}

/// What `sp_relacional_desde` answers with a syntax error speaks of the tokens.
proof fn lema_errores_relacional_desde(c: Contexto, p: int, acc: SpecExpr)
    requires
        c.tokens.len() > 0,
    ensures
        errores_del_texto(c, sp_relacional_desde(c, p, acc)),
    decreases c.tokens.len() - p, 0int,
{
    desplegar_sp_relacional_desde(c, p, acc);
    let _r = {
        match operador_relacional_de(tipo_actual(c, p)) {
            None => Ok((acc, p)),
            Some(op) => match avanzar(c, p) {
                Err(f) => Err(f),
                Ok(p1) => match { lema_errores_binaria(c, p1, NivelBinario::Desplazamiento); sp_binaria(c, p1, NivelBinario::Desplazamiento) } {
                    Err(f) => Err(f),
                    Ok((d, q)) => if adelante(c, p1, q) {
                        { lema_errores_relacional_desde(
                            c,
                            q,
                            SpecExpr::Binaria {
                                posicion: pos_actual(c, p),
                                operador: op,
                                izquierda: Box::new(acc),
                                derecha: Box::new(d),
                            },
                        ); sp_relacional_desde(
                            c,
                            q,
                            SpecExpr::Binaria {
                                posicion: pos_actual(c, p),
                                operador: op,
                                izquierda: Box::new(acc),
                                derecha: Box::new(d),
                            },
                        ) }
                    } else {
                        fuera()
                    },
                },
            },
        }
    };
}

/// What `sp_aditiva` answers with a syntax error speaks of the tokens.
proof fn lema_errores_aditiva(c: Contexto, p: int)
    requires
        c.tokens.len() > 0,
    ensures
        errores_del_texto(c, sp_aditiva(c, p)),
    decreases c.tokens.len() - p, 20int,
{
    desplegar_sp_aditiva(c, p);
    let _r = {
        match { lema_errores_multiplicativa(c, p); sp_multiplicativa(c, p) } {
            Err(f) => Err(f),
            Ok((e, q)) => if adelante(c, p, q) {
                { lema_errores_aditiva_desde(c, q, e); sp_aditiva_desde(c, q, e) }
            } else {
                fuera()
            },
        }
    };
}

/// What `sp_aditiva_desde` answers with a syntax error speaks of the tokens.
proof fn lema_errores_aditiva_desde(c: Contexto, p: int, acc: SpecExpr)
    requires
        c.tokens.len() > 0,
    ensures
        errores_del_texto(c, sp_aditiva_desde(c, p, acc)),
    decreases c.tokens.len() - p, 0int,
{
    desplegar_sp_aditiva_desde(c, p, acc);
    let _r = {
        match operador_aditivo_de(tipo_actual(c, p)) {
            None => Ok((acc, p)),
            Some(op) => match avanzar(c, p) {
                Err(f) => Err(f),
                Ok(p1) => match { lema_errores_multiplicativa(c, p1); sp_multiplicativa(c, p1) } {
                    Err(f) => Err(f),
                    Ok((d, q)) => if adelante(c, p1, q) {
                        { lema_errores_aditiva_desde(
                            c,
                            q,
                            SpecExpr::Binaria {
                                posicion: pos_actual(c, p),
                                operador: op,
                                izquierda: Box::new(acc),
                                derecha: Box::new(d),
                            },
                        ); sp_aditiva_desde(
                            c,
                            q,
                            SpecExpr::Binaria {
                                posicion: pos_actual(c, p),
                                operador: op,
                                izquierda: Box::new(acc),
                                derecha: Box::new(d),
                            },
                        ) }
                    } else {
                        fuera()
                    },
                },
            },
        }
    };
}

/// What `sp_multiplicativa` answers with a syntax error speaks of the tokens.
proof fn lema_errores_multiplicativa(c: Contexto, p: int)
    requires
        c.tokens.len() > 0,
    ensures
        errores_del_texto(c, sp_multiplicativa(c, p)),
    decreases c.tokens.len() - p, 18int,
{
    desplegar_sp_multiplicativa(c, p);
    let _r = {
        match { lema_errores_unaria(c, p); sp_unaria(c, p) } {
            Err(f) => Err(f),
            Ok((e, q)) => if adelante(c, p, q) {
                { lema_errores_multiplicativa_desde(c, q, e); sp_multiplicativa_desde(c, q, e) }
            } else {
                fuera()
            },
        }
    };
}

/// What `sp_multiplicativa_desde` answers with a syntax error speaks of the tokens.
proof fn lema_errores_multiplicativa_desde(c: Contexto, p: int, acc: SpecExpr)
    requires
        c.tokens.len() > 0,
    ensures
        errores_del_texto(c, sp_multiplicativa_desde(c, p, acc)),
    decreases c.tokens.len() - p, 0int,
{
    desplegar_sp_multiplicativa_desde(c, p, acc);
    let _r = {
        match operador_multiplicativo_de(tipo_actual(c, p)) {
            None => Ok((acc, p)),
            Some(op) => match avanzar(c, p) {
                Err(f) => Err(f),
                Ok(p1) => match { lema_errores_unaria(c, p1); sp_unaria(c, p1) } {
                    Err(f) => Err(f),
                    Ok((d, q)) => if adelante(c, p1, q) {
                        { lema_errores_multiplicativa_desde(
                            c,
                            q,
                            SpecExpr::Binaria {
                                posicion: pos_actual(c, p),
                                operador: op,
                                izquierda: Box::new(acc),
                                derecha: Box::new(d),
                            },
                        ); sp_multiplicativa_desde(
                            c,
                            q,
                            SpecExpr::Binaria {
                                posicion: pos_actual(c, p),
                                operador: op,
                                izquierda: Box::new(acc),
                                derecha: Box::new(d),
                            },
                        ) }
                    } else {
                        fuera()
                    },
                },
            },
        }
    };
}

/// What `sp_unaria` answers with a syntax error speaks of the tokens.
proof fn lema_errores_unaria(c: Contexto, p: int)
    requires
        c.tokens.len() > 0,
    ensures
        errores_del_texto(c, sp_unaria(c, p)),
    decreases c.tokens.len() - p, 16int,
{
    desplegar_sp_unaria(c, p);
    let _r = {
        let pos = pos_actual(c, p);
        if coincide(c, p, TipoToken::Sizeof) && p >= 0 {
            if es_cast(c, p + 1) {
                match { lema_errores_tipo(c, p + 2); sp_tipo(c, p + 2) } {
                    Err(f) => Err(f),
                    Ok((t, q)) => match esperar(c, q, TipoToken::ParentesisDer) {
                        Err(f) => Err(f),
                        Ok(q2) => Ok(
                            (
                                SpecExpr::Sizeof {
                                    posicion: pos,
                                    es_tipo: true,
                                    objetivo: SpecSizeofObjetivo::Tipo(t),
                                },
                                q2,
                            ),
                        ),
                    },
                }
            } else {
                match { lema_errores_unaria(c, p + 1); sp_unaria(c, p + 1) } {
                    Err(f) => Err(f),
                    Ok((e, q)) => Ok(
                        (
                            SpecExpr::Sizeof {
                                posicion: pos,
                                es_tipo: false,
                                objetivo: SpecSizeofObjetivo::Expr(Box::new(e)),
                            },
                            q,
                        ),
                    ),
                }
            }
        } else {
            match operador_unario_de(tipo_actual(c, p)) {
                Some(op) => match avanzar(c, p) {
                    Err(f) => Err(f),
                    Ok(p1) => match { lema_errores_unaria(c, p1); sp_unaria(c, p1) } {
                        Err(f) => Err(f),
                        Ok((e, q)) => Ok(
                            (SpecExpr::Unaria { posicion: pos, operador: op, operando: Box::new(e) }, q),
                        ),
                    },
                },
                None => if es_cast(c, p) && p >= 0 {
                    match { lema_errores_tipo(c, p + 1); sp_tipo(c, p + 1) } {
                        Err(f) => Err(f),
                        Ok((t, q)) => if no_atras(c, p + 1, q) {
                            match esperar(c, q, TipoToken::ParentesisDer) {
                                Err(f) => Err(f),
                                Ok(q2) => match { lema_errores_unaria(c, q2); sp_unaria(c, q2) } {
                                    Err(f) => Err(f),
                                    Ok((e, q3)) => Ok(
                                        (SpecExpr::Cast { posicion: pos, tipo: t, expr: Box::new(e) }, q3),
                                    ),
                                },
                            }
                        } else {
                            fuera()
                        },
                    }
                } else {
                    { lema_errores_postfija(c, p); sp_postfija(c, p) }
                },
            }
        }
    };
}

/// What `sp_postfija` answers with a syntax error speaks of the tokens.
proof fn lema_errores_postfija(c: Contexto, p: int)
    requires
        c.tokens.len() > 0,
    ensures
        errores_del_texto(c, sp_postfija(c, p)),
    decreases c.tokens.len() - p, 14int,
{
    desplegar_sp_postfija(c, p);
    let _r = {
        match { lema_errores_primaria(c, p); sp_primaria(c, p) } {
            Err(f) => Err(f),
            Ok((e, q)) => if adelante(c, p, q) {
                { lema_errores_postfija_desde(c, q, e); sp_postfija_desde(c, q, e) }
            } else {
                fuera()
            },
        }
    };
}

/// What `sp_argumentos` answers with a syntax error speaks of the tokens.
proof fn lema_errores_argumentos(c: Contexto, p: int, acc: Seq<SpecExpr>)
    requires
        c.tokens.len() > 0,
    ensures
        errores_del_texto(c, sp_argumentos(c, p, acc)),
    decreases c.tokens.len() - p, 41int,
{
    desplegar_sp_argumentos(c, p, acc);
    let _r = {
        match { lema_errores_expresion(c, p); sp_expresion(c, p) } {
            Err(f) => Err(f),
            Ok((e, q)) => if adelante(c, p, q) {
                if coincide(c, q, TipoToken::Coma) {
                    { lema_errores_argumentos(c, q + 1, acc.push(e)); sp_argumentos(c, q + 1, acc.push(e)) }
                } else {
                    Ok((acc.push(e), q))
                }
            } else {
                fuera()
            },
        }
    };
}

/// What `sp_lista_argumentos` answers with a syntax error speaks of the tokens.
proof fn lema_errores_lista_argumentos(c: Contexto, p: int)
    requires
        c.tokens.len() > 0,
    ensures
        errores_del_texto(c, sp_lista_argumentos(c, p)),
    decreases c.tokens.len() - p, 42int,
{
    desplegar_sp_lista_argumentos(c, p);
    let _r = {
        if !coincide(c, p, TipoToken::ParentesisDer) {
            { lema_errores_argumentos(c, p, Seq::empty()); sp_argumentos(c, p, Seq::empty()) }
        } else {
            Ok((Seq::empty(), p))
        }
    };
}

/// What `sp_miembro` answers with a syntax error speaks of the tokens.
proof fn lema_errores_miembro(c: Contexto, p: int, acc: SpecExpr, es_puntero: bool)
    requires
        c.tokens.len() > 0,
    ensures
        errores_del_texto(c, sp_miembro(c, p, acc, es_puntero)),
    decreases c.tokens.len() - p, 1int,
{
    desplegar_sp_miembro(c, p, acc, es_puntero);
    let _r = {
        match avanzar(c, p) {
            Err(f) => Err(f),
            Ok(p1) => match esperar(c, p1, TipoToken::Identificador) {
                Err(f) => Err(f),
                Ok(q) => { lema_errores_postfija_desde(
                    c,
                    q,
                    SpecExpr::Miembro {
                        posicion: pos_actual(c, p),
                        objeto: Box::new(acc),
                        miembro: valor_de(c.tokens[p1]),
                        es_puntero,
                    },
                ); sp_postfija_desde(
                    c,
                    q,
                    SpecExpr::Miembro {
                        posicion: pos_actual(c, p),
                        objeto: Box::new(acc),
                        miembro: valor_de(c.tokens[p1]),
                        es_puntero,
                    },
                ) },
            },
        }
    };
}

/// What `sp_postfija_desde` answers with a syntax error speaks of the tokens.
proof fn lema_errores_postfija_desde(c: Contexto, p: int, acc: SpecExpr)
    requires
        c.tokens.len() > 0,
    ensures
        errores_del_texto(c, sp_postfija_desde(c, p, acc)),
    decreases c.tokens.len() - p, 2int,
{
    desplegar_sp_postfija_desde(c, p, acc);
    let _r = {
        let pos = pos_actual(c, p);
        let k = tipo_actual(c, p);
        if k == TipoToken::CorcheteIzq {
            match avanzar(c, p) {
                Err(f) => Err(f),
                Ok(p1) => match { lema_errores_expresion(c, p1); sp_expresion(c, p1) } {
                    Err(f) => Err(f),
                    Ok((i, q)) => if adelante(c, p1, q) {
                        match esperar(c, q, TipoToken::CorcheteDer) {
                            Err(f) => Err(f),
                            Ok(q2) => { lema_errores_postfija_desde(
                                c,
                                q2,
                                SpecExpr::Index { posicion: pos, arreglo: Box::new(acc), indice: Box::new(i) },
                            ); sp_postfija_desde(
                                c,
                                q2,
                                SpecExpr::Index { posicion: pos, arreglo: Box::new(acc), indice: Box::new(i) },
                            ) },
                        }
                    } else {
                        fuera()
                    },
                },
            }
        } else if k == TipoToken::ParentesisIzq {
            match avanzar(c, p) {
                Err(f) => Err(f),
                Ok(p1) => match { lema_errores_lista_argumentos(c, p1); sp_lista_argumentos(c, p1) } {
                    Err(f) => Err(f),
                    Ok((args, q)) => if no_atras(c, p1, q) {
                        match esperar(c, q, TipoToken::ParentesisDer) {
                            Err(f) => Err(f),
                            Ok(q2) => { lema_errores_postfija_desde(
                                c,
                                q2,
                                SpecExpr::Llamada { posicion: pos, funcion: Box::new(acc), argumentos: args },
                            ); sp_postfija_desde(
                                c,
                                q2,
                                SpecExpr::Llamada { posicion: pos, funcion: Box::new(acc), argumentos: args },
                            ) },
                        }
                    } else {
                        fuera()
                    },
                },
            }
        } else if k == TipoToken::Punto {
            { lema_errores_miembro(c, p, acc, false); sp_miembro(c, p, acc, false) }
        } else if k == TipoToken::Flecha {
            { lema_errores_miembro(c, p, acc, true); sp_miembro(c, p, acc, true) }
        } else if k == TipoToken::Incremento || k == TipoToken::Decremento {
            match avanzar(c, p) {
                Err(f) => Err(f),
                Ok(p1) => { lema_errores_postfija_desde(
                    c,
                    p1,
                    SpecExpr::Unaria {
                        posicion: pos,
                        operador: if k == TipoToken::Incremento {
                            OperadorUnario::Incremento
                        } else {
                            OperadorUnario::Decremento
                        },
                        operando: Box::new(acc),
                    },
                ); sp_postfija_desde(
                    c,
                    p1,
                    SpecExpr::Unaria {
                        posicion: pos,
                        operador: if k == TipoToken::Incremento {
                            OperadorUnario::Incremento
                        } else {
                            OperadorUnario::Decremento
                        },
                        operando: Box::new(acc),
                    },
                ) },
            }
        } else {
            Ok((acc, p))
        }
    };
}

/// What `sp_primaria` answers with a syntax error speaks of the tokens.
proof fn lema_errores_primaria(c: Contexto, p: int)
    requires
        c.tokens.len() > 0,
    ensures
        errores_del_texto(c, sp_primaria(c, p)),
    decreases c.tokens.len() - p, 12int,
{
    desplegar_sp_primaria(c, p);
    let _r = {
        let pos = pos_actual(c, p);
        let k = tipo_actual(c, p);
        if literal_de(k, Seq::empty()) is Some || k == TipoToken::Identificador {
            match avanzar(c, p) {
                Err(f) => Err(f),
                Ok(p1) => {
                    let v = valor_de(c.tokens[p]);
                    if k == TipoToken::Identificador {
                        Ok((SpecExpr::Identificador { posicion: pos, nombre: v }, p1))
                    } else {
                        Ok((SpecExpr::Literal { posicion: pos, valor: literal_de(k, v).unwrap() }, p1))
                    }
                },
            }
        } else if k == TipoToken::ParentesisIzq {
            match avanzar(c, p) {
                Err(f) => Err(f),
                Ok(p1) => match { lema_errores_expresion(c, p1); sp_expresion(c, p1) } {
                    Err(f) => Err(f),
                    Ok((e, q)) => if adelante(c, p1, q) {
                        match esperar(c, q, TipoToken::ParentesisDer) {
                            Err(f) => Err(f),
                            Ok(q2) => Ok((e, q2)),
                        }
                    } else {
                        fuera()
                    },
                },
            }
        } else {
            Err(error_aqui(c, p, "expresion primaria"@))
        }
    };
}

/// What `sp_bloque` answers with a syntax error speaks of the tokens.
proof fn lema_errores_bloque(c: Contexto, p: int)
    requires
        c.tokens.len() > 0,
    ensures
        errores_del_texto(c, sp_bloque(c, p)),
    decreases c.tokens.len() - p, 1int,
{
    desplegar_sp_bloque(c, p);
    let _r = {
        match esperar(c, p, TipoToken::LlaveIzq) {
            Err(f) => Err(f),
            Ok(p1) => match { lema_errores_items(c, p1, Seq::empty()); sp_items(c, p1, Seq::empty()) } {
                Err(f) => Err(f),
                Ok((items, q)) => if no_atras(c, p1, q) {
                    match esperar(c, q, TipoToken::LlaveDer) {
                        Err(f) => Err(f),
                        Ok(q2) => Ok((SpecBloque { posicion: pos_actual(c, p), items }, q2)),
                    }
                } else {
                    fuera()
                },
            },
        }
    };
}

/// What `sp_items` answers with a syntax error speaks of the tokens.
proof fn lema_errores_items(c: Contexto, p: int, acc: Seq<SpecItemBloque>)
    requires
        c.tokens.len() > 0,
    ensures
        errores_del_texto(c, sp_items(c, p, acc)),
    decreases c.tokens.len() - p, 3int,
{
    desplegar_sp_items(c, p, acc);
    let _r = {
        if !coincide(c, p, TipoToken::LlaveDer) && !es_fin(c, p) {
            if es_inicio_decl_bloque(tipo_actual(c, p)) {
                match { lema_errores_declaracion(c, p); sp_declaracion(c, p) } {
                    Err(f) => Err(f),
                    Ok((d, q)) => if adelante(c, p, q) {
                        { lema_errores_items(c, q, acc.push(SpecItemBloque::Declaracion(d))); sp_items(c, q, acc.push(SpecItemBloque::Declaracion(d))) }
                    } else {
                        fuera()
                    },
                }
            } else {
                match { lema_errores_sentencia(c, p); sp_sentencia(c, p) } {
                    Err(f) => Err(f),
                    Ok((st, q)) => if adelante(c, p, q) {
                        { lema_errores_items(c, q, acc.push(SpecItemBloque::Sentencia(st))); sp_items(c, q, acc.push(SpecItemBloque::Sentencia(st))) }
                    } else {
                        fuera()
                    },
                }
            }
        } else {
            Ok((acc, p))
        }
    };
}

/// What `sp_salto_simple` answers with a syntax error speaks of the tokens.
proof fn lema_errores_salto_simple(c: Contexto, p: int, s: SpecSalto)
    requires
        c.tokens.len() > 0,
    ensures
        errores_del_texto(c, sp_salto_simple(c, p, s)),
{
    desplegar_sp_salto_simple(c, p, s);
    let _r = {
        match avanzar(c, p) {
            Err(f) => Err(f),
            Ok(p1) => match esperar(c, p1, TipoToken::PuntoYComa) {
                Err(f) => Err(f),
                Ok(p2) => Ok((SpecSentencia::Salto(s), p2)),
            },
        }
    };
}

/// What `sp_goto` answers with a syntax error speaks of the tokens.
proof fn lema_errores_goto(c: Contexto, p: int)
    requires
        c.tokens.len() > 0,
    ensures
        errores_del_texto(c, sp_goto(c, p)),
{
    desplegar_sp_goto(c, p);
    let _r = {
        match avanzar(c, p) {
            Err(f) => Err(f),
            Ok(p1) => match esperar(c, p1, TipoToken::Identificador) {
                Err(f) => Err(f),
                Ok(p2) => match esperar(c, p2, TipoToken::PuntoYComa) {
                    Err(f) => Err(f),
                    Ok(p3) => Ok(
                        (
                            SpecSentencia::Salto(
                                SpecSalto::Goto {
                                    posicion: pos_actual(c, p),
                                    etiqueta: valor_de(c.tokens[p1]),
                                },
                            ),
                            p3,
                        ),
                    ),
                },
            },
        }
    };
}

/// What `sp_return` answers with a syntax error speaks of the tokens.
proof fn lema_errores_return(c: Contexto, p: int)
    requires
        c.tokens.len() > 0,
    ensures
        errores_del_texto(c, sp_return(c, p)),
{
    desplegar_sp_return(c, p);
    let _r = {
        match avanzar(c, p) {
            Err(f) => Err(f),
            Ok(p1) => if coincide(c, p1, TipoToken::PuntoYComa) {
                Ok(
                    (
                        SpecSentencia::Salto(SpecSalto::Retornar { posicion: pos_actual(c, p), valor: None }),
                        p1 + 1,
                    ),
                )
            } else {
                match { lema_errores_expresion(c, p1); sp_expresion(c, p1) } {
                    Err(f) => Err(f),
                    Ok((e, q)) => match esperar(c, q, TipoToken::PuntoYComa) {
                        Err(f) => Err(f),
                        Ok(q2) => Ok(
                            (
                                SpecSentencia::Salto(
                                    SpecSalto::Retornar {
                                        posicion: pos_actual(c, p),
                                        valor: Some(Box::new(e)),
                                    },
                                ),
                                q2,
                            ),
                        ),
                    },
                }
            },
        }
    };
}

/// What `sp_sentencia_expr` answers with a syntax error speaks of the tokens.
proof fn lema_errores_sentencia_expr(c: Contexto, p: int)
    requires
        c.tokens.len() > 0,
    ensures
        errores_del_texto(c, sp_sentencia_expr(c, p)),
{
    desplegar_sp_sentencia_expr(c, p);
    let _r = {
        if coincide(c, p, TipoToken::PuntoYComa) {
            Ok((SpecSentencia::Expr { posicion: pos_actual(c, p), expr: None }, p + 1))
        } else {
            match { lema_errores_expresion(c, p); sp_expresion(c, p) } {
                Err(f) => Err(f),
                Ok((e, q)) => match esperar(c, q, TipoToken::PuntoYComa) {
                    Err(f) => Err(f),
                    Ok(q2) => Ok(
                        (SpecSentencia::Expr { posicion: pos_actual(c, p), expr: Some(Box::new(e)) }, q2),
                    ),
                },
            }
        }
    };
}

/// What `sp_sentencia` answers with a syntax error speaks of the tokens.
proof fn lema_errores_sentencia(c: Contexto, p: int)
    requires
        c.tokens.len() > 0,
    ensures
        errores_del_texto(c, sp_sentencia(c, p)),
    decreases c.tokens.len() - p, 2int,
{
    desplegar_sp_sentencia(c, p);
    let _r = {
        let pos = pos_actual(c, p);
        let k = tipo_actual(c, p);
        if k == TipoToken::LlaveIzq {
            match { lema_errores_bloque(c, p); sp_bloque(c, p) } {
                Err(f) => Err(f),
                Ok((b, q)) => Ok((SpecSentencia::Compuesta(b), q)),
            }
        } else if k == TipoToken::If {
            { lema_errores_if(c, p); sp_if(c, p) }
        } else if k == TipoToken::Switch {
            { lema_errores_switch(c, p); sp_switch(c, p) }
        } else if k == TipoToken::While {
            { lema_errores_while(c, p); sp_while(c, p) }
        } else if k == TipoToken::Do {
            { lema_errores_do_while(c, p); sp_do_while(c, p) }
        } else if k == TipoToken::For {
            { lema_errores_for(c, p); sp_for(c, p) }
        } else if k == TipoToken::Goto {
            { lema_errores_goto(c, p); sp_goto(c, p) }
        } else if k == TipoToken::Continue {
            { lema_errores_salto_simple(c, p, SpecSalto::Continuar { posicion: pos }); sp_salto_simple(c, p, SpecSalto::Continuar { posicion: pos }) }
        } else if k == TipoToken::Break {
            { lema_errores_salto_simple(c, p, SpecSalto::Romper { posicion: pos }); sp_salto_simple(c, p, SpecSalto::Romper { posicion: pos }) }
        } else if k == TipoToken::Return {
            { lema_errores_return(c, p); sp_return(c, p) }
        } else if k == TipoToken::Case {
            match avanzar(c, p) {
                Err(f) => Err(f),
                Ok(p1) => match { lema_errores_expresion(c, p1); sp_expresion(c, p1) } {
                    Err(f) => Err(f),
                    Ok((e, q)) => if adelante(c, p1, q) {
                        match esperar(c, q, TipoToken::DosPuntos) {
                            Err(f) => Err(f),
                            Ok(q2) => { lema_errores_etiquetada(c, q2, pos, SpecEtiqueta::Case(Box::new(e))); sp_etiquetada(c, q2, pos, SpecEtiqueta::Case(Box::new(e))) },
                        }
                    } else {
                        fuera()
                    },
                },
            }
        } else if k == TipoToken::Default {
            match avanzar(c, p) {
                Err(f) => Err(f),
                Ok(p1) => match esperar(c, p1, TipoToken::DosPuntos) {
                    Err(f) => Err(f),
                    Ok(p2) => { lema_errores_etiquetada(c, p2, pos, SpecEtiqueta::Default); sp_etiquetada(c, p2, pos, SpecEtiqueta::Default) },
                },
            }
        } else if k == TipoToken::Identificador && es_etiqueta(c, p) && p >= 0 {
            match esperar(c, p + 1, TipoToken::DosPuntos) {
                Err(f) => Err(f),
                Ok(p2) => { lema_errores_etiquetada(
                    c,
                    p2,
                    pos,
                    SpecEtiqueta::Identificador(valor_de(c.tokens[p])),
                ); sp_etiquetada(
                    c,
                    p2,
                    pos,
                    SpecEtiqueta::Identificador(valor_de(c.tokens[p])),
                ) },
            }
        } else {
            { lema_errores_sentencia_expr(c, p); sp_sentencia_expr(c, p) }
        }
    };
}

/// What `sp_etiquetada` answers with a syntax error speaks of the tokens.
proof fn lema_errores_etiquetada(c: Contexto, p: int, pos: Posicion, e: SpecEtiqueta)
    requires
        c.tokens.len() > 0,
    ensures
        errores_del_texto(c, sp_etiquetada(c, p, pos, e)),
    decreases c.tokens.len() - p, 3int,
{
    desplegar_sp_etiquetada(c, p, pos, e);
    let _r = {
        match { lema_errores_sentencia(c, p); sp_sentencia(c, p) } {
            Err(f) => Err(f),
            Ok((st, q)) => Ok(
                (SpecSentencia::Etiquetada { posicion: pos, etiqueta: e, sentencia: Box::new(st) }, q),
            ),
        }
    };
}

/// What `sp_condicion` answers with a syntax error speaks of the tokens.
proof fn lema_errores_condicion(c: Contexto, p: int)
    requires
        c.tokens.len() > 0,
    ensures
        errores_del_texto(c, sp_condicion(c, p)),
{
    desplegar_sp_condicion(c, p);
    let _r = {
        match esperar(c, p, TipoToken::ParentesisIzq) {
            Err(f) => Err(f),
            Ok(p1) => match { lema_errores_expresion(c, p1); sp_expresion(c, p1) } {
                Err(f) => Err(f),
                Ok((e, q)) => match esperar(c, q, TipoToken::ParentesisDer) {
                    Err(f) => Err(f),
                    Ok(q2) => Ok((e, q2)),
                },
            },
        }
    };
}

/// What `sp_if` answers with a syntax error speaks of the tokens.
proof fn lema_errores_if(c: Contexto, p: int)
    requires
        c.tokens.len() > 0,
    ensures
        errores_del_texto(c, sp_if(c, p)),
    decreases c.tokens.len() - p, 1int,
{
    desplegar_sp_if(c, p);
    let _r = {
        match avanzar(c, p) {
            Err(f) => Err(f),
            Ok(p1) => match { lema_errores_condicion(c, p1); sp_condicion(c, p1) } {
                Err(f) => Err(f),
                Ok((cond, q)) => if adelante(c, p1, q) {
                    match { lema_errores_sentencia(c, q); sp_sentencia(c, q) } {
                        Err(f) => Err(f),
                        Ok((ent, q2)) => if adelante(c, q, q2) {
                            if coincide(c, q2, TipoToken::Else) {
                                match { lema_errores_sentencia(c, q2 + 1); sp_sentencia(c, q2 + 1) } {
                                    Err(f) => Err(f),
                                    Ok((sino, q3)) => Ok(
                                        (
                                            SpecSentencia::Seleccion(
                                                SpecSeleccion::If {
                                                    posicion: pos_actual(c, p),
                                                    condicion: Box::new(cond),
                                                    entonces: Box::new(ent),
                                                    sino: Some(Box::new(sino)),
                                                },
                                            ),
                                            q3,
                                        ),
                                    ),
                                }
                            } else {
                                Ok(
                                    (
                                        SpecSentencia::Seleccion(
                                            SpecSeleccion::If {
                                                posicion: pos_actual(c, p),
                                                condicion: Box::new(cond),
                                                entonces: Box::new(ent),
                                                sino: None,
                                            },
                                        ),
                                        q2,
                                    ),
                                )
                            }
                        } else {
                            fuera()
                        },
                    }
                } else {
                    fuera()
                },
            },
        }
    };
}

/// What `sp_switch` answers with a syntax error speaks of the tokens.
proof fn lema_errores_switch(c: Contexto, p: int)
    requires
        c.tokens.len() > 0,
    ensures
        errores_del_texto(c, sp_switch(c, p)),
    decreases c.tokens.len() - p, 1int,
{
    desplegar_sp_switch(c, p);
    let _r = {
        match avanzar(c, p) {
            Err(f) => Err(f),
            Ok(p1) => match { lema_errores_condicion(c, p1); sp_condicion(c, p1) } {
                Err(f) => Err(f),
                Ok((cond, q)) => if adelante(c, p1, q) {
                    match { lema_errores_sentencia(c, q); sp_sentencia(c, q) } {
                        Err(f) => Err(f),
                        Ok((cuerpo, q2)) => Ok(
                            (
                                SpecSentencia::Seleccion(
                                    SpecSeleccion::Switch {
                                        posicion: pos_actual(c, p),
                                        condicion: Box::new(cond),
                                        cuerpo: Box::new(cuerpo),
                                    },
                                ),
                                q2,
                            ),
                        ),
                    }
                } else {
                    fuera()
                },
            },
        }
    };
}

/// What `sp_while` answers with a syntax error speaks of the tokens.
proof fn lema_errores_while(c: Contexto, p: int)
    requires
        c.tokens.len() > 0,
    ensures
        errores_del_texto(c, sp_while(c, p)),
    decreases c.tokens.len() - p, 1int,
{
    desplegar_sp_while(c, p);
    let _r = {
        match avanzar(c, p) {
            Err(f) => Err(f),
            Ok(p1) => match { lema_errores_condicion(c, p1); sp_condicion(c, p1) } {
                Err(f) => Err(f),
                Ok((cond, q)) => if adelante(c, p1, q) {
                    match { lema_errores_sentencia(c, q); sp_sentencia(c, q) } {
                        Err(f) => Err(f),
                        Ok((cuerpo, q2)) => Ok(
                            (
                                SpecSentencia::Iteracion(
                                    SpecIteracion::While {
                                        posicion: pos_actual(c, p),
                                        condicion: Box::new(cond),
                                        cuerpo: Box::new(cuerpo),
                                    },
                                ),
                                q2,
                            ),
                        ),
                    }
                } else {
                    fuera()
                },
            },
        }
    };
}

/// What `sp_do_while` answers with a syntax error speaks of the tokens.
proof fn lema_errores_do_while(c: Contexto, p: int)
    requires
        c.tokens.len() > 0,
    ensures
        errores_del_texto(c, sp_do_while(c, p)),
    decreases c.tokens.len() - p, 1int,
{
    desplegar_sp_do_while(c, p);
    let _r = {
        match avanzar(c, p) {
            Err(f) => Err(f),
            Ok(p1) => match { lema_errores_sentencia(c, p1); sp_sentencia(c, p1) } {
                Err(f) => Err(f),
                Ok((cuerpo, q)) => match esperar(c, q, TipoToken::While) {
                    Err(f) => Err(f),
                    Ok(q1) => match { lema_errores_condicion(c, q1); sp_condicion(c, q1) } {
                        Err(f) => Err(f),
                        Ok((cond, q2)) => match esperar(c, q2, TipoToken::PuntoYComa) {
                            Err(f) => Err(f),
                            Ok(q3) => Ok(
                                (
                                    SpecSentencia::Iteracion(
                                        SpecIteracion::DoWhile {
                                            posicion: pos_actual(c, p),
                                            cuerpo: Box::new(cuerpo),
                                            condicion: Box::new(cond),
                                        },
                                    ),
                                    q3,
                                ),
                            ),
                        },
                    },
                },
            },
        }
    };
}

/// What `sp_for_init` answers with a syntax error speaks of the tokens.
proof fn lema_errores_for_init(c: Contexto, p: int)
    requires
        c.tokens.len() > 0,
    ensures
        errores_del_texto(c, sp_for_init(c, p)),
{
    desplegar_sp_for_init(c, p);
    let _r = {
        if coincide(c, p, TipoToken::PuntoYComa) {
            Ok((None, p + 1))
        } else if es_inicio_decl_bloque(tipo_actual(c, p)) {
            match { lema_errores_declaracion(c, p); sp_declaracion(c, p) } {
                Err(f) => Err(f),
                Ok((d, q)) => Ok((Some(SpecForInit::Declaracion(d)), q)),
            }
        } else {
            match { lema_errores_expresion(c, p); sp_expresion(c, p) } {
                Err(f) => Err(f),
                Ok((e, q)) => match esperar(c, q, TipoToken::PuntoYComa) {
                    Err(f) => Err(f),
                    Ok(q2) => Ok((Some(SpecForInit::Expr(Some(Box::new(e)))), q2)),
                },
            }
        }
    };
}

/// What `sp_expr_hasta` answers with a syntax error speaks of the tokens.
proof fn lema_errores_expr_hasta(c: Contexto, p: int, fin: TipoToken)
    requires
        c.tokens.len() > 0,
    ensures
        errores_del_texto(c, sp_expr_hasta(c, p, fin)),
{
    desplegar_sp_expr_hasta(c, p, fin);
    let _r = {
        if coincide(c, p, fin) {
            Ok((None, p + 1))
        } else {
            match { lema_errores_expresion(c, p); sp_expresion(c, p) } {
                Err(f) => Err(f),
                Ok((e, q)) => match esperar(c, q, fin) {
                    Err(f) => Err(f),
                    Ok(q2) => Ok((Some(Box::new(e)), q2)),
                },
            }
        }
    };
}

/// What `sp_for` answers with a syntax error speaks of the tokens.
proof fn lema_errores_for(c: Contexto, p: int)
    requires
        c.tokens.len() > 0,
    ensures
        errores_del_texto(c, sp_for(c, p)),
    decreases c.tokens.len() - p, 1int,
{
    desplegar_sp_for(c, p);
    let _r = {
        match avanzar(c, p) {
            Err(f) => Err(f),
            Ok(p1) => match esperar(c, p1, TipoToken::ParentesisIzq) {
                Err(f) => Err(f),
                Ok(p2) => match { lema_errores_for_init(c, p2); sp_for_init(c, p2) } {
                    Err(f) => Err(f),
                    Ok((init, q1)) => match { lema_errores_expr_hasta(c, q1, TipoToken::PuntoYComa); sp_expr_hasta(c, q1, TipoToken::PuntoYComa) } {
                        Err(f) => Err(f),
                        Ok((cond, q2)) => match { lema_errores_expr_hasta(c, q2, TipoToken::ParentesisDer); sp_expr_hasta(c, q2, TipoToken::ParentesisDer) } {
                            Err(f) => Err(f),
                            Ok((inc, q3)) => if adelante(c, p, q3) {
                                match { lema_errores_sentencia(c, q3); sp_sentencia(c, q3) } {
                                    Err(f) => Err(f),
                                    Ok((cuerpo, q4)) => Ok(
                                        (
                                            SpecSentencia::Iteracion(
                                                SpecIteracion::For {
                                                    posicion: pos_actual(c, p),
                                                    init,
                                                    condicion: cond,
                                                    incremento: inc,
                                                    cuerpo: Box::new(cuerpo),
                                                },
                                            ),
                                            q4,
                                        ),
                                    ),
                                }
                            } else {
                                fuera()
                            },
                        },
                    },
                },
            },
        }
    };
}

/// What `sp_decl_externa` answers with a syntax error speaks of the tokens.
proof fn lema_errores_decl_externa(c: Contexto, p: int)
    requires
        c.tokens.len() > 0,
    ensures
        errores_del_texto(c, sp_decl_externa(c, p)),
{
    desplegar_sp_decl_externa(c, p);
    let _r = {
        let pos = pos_actual(c, p);
        match { lema_errores_especificadores(c, p); sp_especificadores(c, p) } {
            Err(f) => Err(f),
            Ok((esp, p1)) => match { lema_errores_declarador(c, p1); sp_declarador(c, p1) } {
                Err(f) => Err(f),
                Ok((d, p2)) => if coincide(c, p2, TipoToken::LlaveIzq) {
                    match { lema_errores_bloque(c, p2); sp_bloque(c, p2) } {
                        Err(f) => Err(f),
                        Ok((cuerpo, p3)) => Ok(
                            (
                                SpecDeclExterna::Funcion(
                                    SpecFuncionDef {
                                        posicion: pos,
                                        especificadores: esp,
                                        declarador: d,
                                        cuerpo,
                                    },
                                ),
                                p3,
                            ),
                        ),
                    }
                } else {
                    match { lema_errores_inicializador_opt(c, p2); sp_inicializador_opt(c, p2) } {
                        Err(f) => Err(f),
                        Ok((ini, p3)) => {
                            let primero = SpecInitDeclarador { declarador: d, inicializador: ini };
                            match { lema_errores_init_declaradores(c, p3, seq![primero]); sp_init_declaradores(c, p3, seq![primero]) } {
                                Err(f) => Err(f),
                                Ok((ds, p4)) => match esperar(c, p4, TipoToken::PuntoYComa) {
                                    Err(f) => Err(f),
                                    Ok(p5) => Ok(
                                        (
                                            SpecDeclExterna::Declaracion(
                                                SpecDeclaracion {
                                                    posicion: pos,
                                                    especificadores: esp,
                                                    declaradores: ds,
                                                },
                                            ),
                                            p5,
                                        ),
                                    ),
                                },
                            }
                        },
                    }
                },
            },
        }
    };
}

/// What `sp_programa_desde` answers with a syntax error speaks of the tokens.
proof fn lema_errores_programa_desde(c: Contexto, p: int, acc: Seq<SpecDeclExterna>)
    requires
        c.tokens.len() > 0,
    ensures
        errores_del_texto(c, sp_programa_desde(c, p, acc)),
    decreases c.tokens.len() - p,
{
    desplegar_sp_programa_desde(c, p, acc);
    let _r = {
        if es_fin(c, p) {
            Ok(acc)
        } else {
            let q = saltar_preprocesador(c, p);
            if es_fin(c, q) {
                Ok(acc)
            } else {
                match { lema_errores_decl_externa(c, q); sp_decl_externa(c, q) } {
                    Err(f) => Err(f),
                    Ok((d, r)) => if adelante(c, q, r) && p <= q {
                        { lema_errores_programa_desde(c, r, acc.push(d)); sp_programa_desde(c, r, acc.push(d)) }
                    } else {
                        Err(Falla::FueraDeRango)
                    },
                }
            }
        }
    };
}

/// What `sp_programa` answers with a syntax error speaks of the tokens.
proof fn lema_errores_programa(c: Contexto, p: int)
    requires
        c.tokens.len() > 0,
    ensures
        errores_del_texto(c, sp_programa(c, p)),
{
    desplegar_sp_programa(c, p);
    let _r = {
        match { lema_errores_programa_desde(c, saltar_preprocesador(c, saltar_bom(c, p)), Seq::empty()); sp_programa_desde(c, saltar_preprocesador(c, saltar_bom(c, p)), Seq::empty()) } {
            Err(f) => Err(f),
            Ok(ds) => Ok(SpecPrograma { declaraciones: ds }),
        }
    };
}

/// Every syntax error that reading a program answers speaks of its
/// tokens: it stands at the position of one of them, it shows one of them
/// as found, and it carries the source line of that position.
pub proof fn lema_errores_del_programa(c: Contexto, p: int)
    requires
        c.tokens.len() > 0,
    ensures
        errores_del_texto(c, sp_programa(c, p)),
{
    lema_errores_programa(c, p);
}


proof fn lema_mismos_calificadores(
    c1: Contexto,
    c2: Contexto,
    p: int,
    k: TipoToken,
    cal: Calificador,
    acc: Seq<Calificador>,
)
    requires
        c1.tokens == c2.tokens,
    ensures
        leer_calificadores(c1, p, k, cal, acc) == leer_calificadores(c2, p, k, cal, acc),
    decreases c1.tokens.len() - p,
{
    if coincide(c1, p, k) && p >= 0 {
        lema_mismos_calificadores(c1, c2, p + 1, k, cal, acc.push(cal));
    }
}

proof fn lema_mismos_calificadores_puntero(c1: Contexto, c2: Contexto, p: int)
    requires
        c1.tokens == c2.tokens,
    ensures
        calificadores_puntero(c1, p) == calificadores_puntero(c2, p),
{
    lema_mismos_calificadores(c1, c2, p, TipoToken::Const, Calificador::Const, Seq::empty());
    let (a, q) = leer_calificadores(c1, p, TipoToken::Const, Calificador::Const, Seq::empty());
    lema_mismos_calificadores(c1, c2, q, TipoToken::Volatile, Calificador::Volatile, a);
}

proof fn lema_misma_punteros(c1: Contexto, c2: Contexto, p: int, acc: Seq<Seq<Calificador>>)
    requires
        c1.tokens == c2.tokens,
    ensures
        sp_punteros(c1, p, acc) == sp_punteros(c2, p, acc),
    decreases c1.tokens.len() - p,
{
    desplegar_sp_punteros(c1, p, acc);
    desplegar_sp_punteros(c2, p, acc);
    if coincide(c1, p, TipoToken::Asterisco) && p >= 0 {
        lema_mismos_calificadores_puntero(c1, c2, p + 1);
        let (cal, q) = calificadores_puntero(c1, p + 1);
        if adelante(c1, p, q) {
            lema_misma_punteros(c1, c2, q, acc.push(cal));
        }
    }
}

proof fn lema_mismo_salto_linea(c1: Contexto, c2: Contexto, p: int, linea: usize)
    requires
        c1.tokens == c2.tokens,
    ensures
        saltar_linea(c1, p, linea) == saltar_linea(c2, p, linea),
    decreases c1.tokens.len() - p,
{
    if 0 <= p < c1.tokens.len() && c1.tokens[p].posicion.linea == linea {
        lema_mismo_salto_linea(c1, c2, p + 1, linea);
    }
}

proof fn lema_mismo_salto_preprocesador(c1: Contexto, c2: Contexto, p: int)
    requires
        c1.tokens == c2.tokens,
    ensures
        saltar_preprocesador(c1, p) == saltar_preprocesador(c2, p),
    decreases c1.tokens.len() - p,
{
    if 0 <= p < c1.tokens.len() && es_almohadilla(c1.tokens[p]) {
        lema_mismo_salto_linea(c1, c2, p, c1.tokens[p].posicion.linea);
        let q = saltar_linea(c1, p, c1.tokens[p].posicion.linea);
        if adelante(c1, p, q) {
            lema_mismo_salto_preprocesador(c1, c2, q);
        }
    }
}

/// `sp_tipo_punteros` reads the same from the same tokens, whatever the source text.
proof fn lema_misma_tipo_punteros(c1: Contexto, c2: Contexto, p: int, t: SpecTipo)
    requires
        c1.tokens == c2.tokens,
    ensures
        misma_lectura(sp_tipo_punteros(c1, p, t), sp_tipo_punteros(c2, p, t)),
    decreases c1.tokens.len() - p,
{
    desplegar_sp_tipo_punteros(c1, p, t);
    desplegar_sp_tipo_punteros(c2, p, t);
    let _r = {
        if coincide(c1, p, TipoToken::Asterisco) && p >= 0 {
            let (cal, q) = { lema_mismos_calificadores_puntero(c1, c2, p + 1); calificadores_puntero(c1, p + 1) };
            if adelante(c1, p, q) {
                { lema_misma_tipo_punteros(c1, c2, q, SpecTipo::Puntero { calificadores: cal, apunta_a: Box::new(t) }); sp_tipo_punteros(c1, q, SpecTipo::Puntero { calificadores: cal, apunta_a: Box::new(t) }) }
            } else {
                fuera()
            }
        } else {
            Ok((t, p))
        }
    };
}

/// `sp_tipo` reads the same from the same tokens, whatever the source text.
proof fn lema_misma_tipo(c1: Contexto, c2: Contexto, p: int)
    requires
        c1.tokens == c2.tokens,
    ensures
        misma_lectura(sp_tipo(c1, p), sp_tipo(c2, p)),
{
    desplegar_sp_tipo(c1, p);
    desplegar_sp_tipo(c2, p);
    let _r = {
        if coincide(c1, p, TipoToken::Identificador) {
            Ok((SpecTipo::Nombre(valor_de(c1.tokens[p])), p + 1))
        } else if es_fin(c1, p) || p < 0 {
            fuera()
        } else {
            let t = c1.tokens[p];
            match tipo_primitivo_de(t.tipo) {
                None => Err(error_token(c1, pos_actual(c1, p + 1), "tipo primitivo"@, t)),
                Some(prim) => {
                    let q = if coincide(c1, p + 1, TipoToken::Long) && (prim == TipoPrimitivo::Long
                        || prim == TipoPrimitivo::Double) {
                        p + 2
                    } else {
                        p + 1
                    };
                    { lema_misma_tipo_punteros(c1, c2, q, SpecTipo::Primitivo(prim)); sp_tipo_punteros(c1, q, SpecTipo::Primitivo(prim)) }
                },
            }
        }
    };
}

/// `sp_especificadores` reads the same from the same tokens, whatever the source text.
proof fn lema_misma_especificadores(c1: Contexto, c2: Contexto, p: int)
    requires
        c1.tokens == c2.tokens,
    ensures
        misma_lectura(sp_especificadores(c1, p), sp_especificadores(c2, p)),
    decreases c1.tokens.len() - p, 2int,
{
    desplegar_sp_especificadores(c1, p);
    desplegar_sp_especificadores(c2, p);
    let _r = {
        { lema_misma_especificadores_desde(c1, c2, p, especificadores_vacios()); sp_especificadores_desde(c1, p, especificadores_vacios()) }
    };
}

/// `sp_especificadores_desde` reads the same from the same tokens, whatever the source text.
proof fn lema_misma_especificadores_desde(c1: Contexto, c2: Contexto, p: int, e: SpecEspecificadores)
    requires
        c1.tokens == c2.tokens,
    ensures
        misma_lectura(sp_especificadores_desde(c1, p, e), sp_especificadores_desde(c2, p, e)),
    decreases c1.tokens.len() - p, 1int,
{
    desplegar_sp_especificadores_desde(c1, p, e);
    desplegar_sp_especificadores_desde(c2, p, e);
    let _r = {
        let k = tipo_actual(c1, p);
        if almacenamiento_de(k) is Some {
            match avanzar(c1, p) {
                Err(f) => Err(f),
                Ok(q) => { lema_misma_especificadores_desde(c1, c2, q,
                    SpecEspecificadores {
                        almacenamiento: e.almacenamiento.push(almacenamiento_de(k).unwrap()),
                        calificadores: e.calificadores,
                        tipo: e.tipo,
                    },); sp_especificadores_desde(
                    c1,
                    q,
                    SpecEspecificadores {
                        almacenamiento: e.almacenamiento.push(almacenamiento_de(k).unwrap()),
                        calificadores: e.calificadores,
                        tipo: e.tipo,
                    },
                ) },
            }
        } else if calificador_de(k) is Some {
            match avanzar(c1, p) {
                Err(f) => Err(f),
                Ok(q) => { lema_misma_especificadores_desde(c1, c2, q,
                    SpecEspecificadores {
                        almacenamiento: e.almacenamiento,
                        calificadores: e.calificadores.push(calificador_de(k).unwrap()),
                        tipo: e.tipo,
                    },); sp_especificadores_desde(
                    c1,
                    q,
                    SpecEspecificadores {
                        almacenamiento: e.almacenamiento,
                        calificadores: e.calificadores.push(calificador_de(k).unwrap()),
                        tipo: e.tipo,
                    },
                ) },
            }
        } else if k == TipoToken::Struct || k == TipoToken::Union || k == TipoToken::Enum {
            let r = if k == TipoToken::Enum {
                { lema_misma_enum(c1, c2, p); sp_enum(c1, p) }
            } else {
                { lema_misma_struct_union(c1, c2, p, k == TipoToken::Struct); sp_struct_union(c1, p, k == TipoToken::Struct) }
            };
            match r {
                Err(f) => Err(f),
                Ok((t, q)) => if adelante(c1, p, q) {
                    { lema_misma_especificadores_desde(c1, c2, q, con_tipo(e, t)); sp_especificadores_desde(c1, q, con_tipo(e, t)) }
                } else {
                    fuera()
                },
            }
        } else if tipo_primitivo_de(k) is Some || k == TipoToken::Identificador {
            match { lema_misma_tipo(c1, c2, p); sp_tipo(c1, p) } {
                Err(f) => Err(f),
                Ok((t, q)) => Ok((con_tipo(e, t), q)),
            }
        } else {
            Ok((e, p))
        }
    };
}

/// `sp_struct_union` reads the same from the same tokens, whatever the source text.
proof fn lema_misma_struct_union(c1: Contexto, c2: Contexto, p: int, es_struct: bool)
    requires
        c1.tokens == c2.tokens,
    ensures
        misma_lectura(sp_struct_union(c1, p, es_struct), sp_struct_union(c2, p, es_struct)),
    decreases c1.tokens.len() - p, 0int,
{
    desplegar_sp_struct_union(c1, p, es_struct);
    desplegar_sp_struct_union(c2, p, es_struct);
    let _r = {
        match avanzar(c1, p) {
            Err(f) => Err(f),
            Ok(p1) => {
                let (nombre, p2) = nombre_opcional(c1, p1);
                if coincide(c1, p2, TipoToken::LlaveIzq) {
                    match { lema_misma_miembros(c1, c2, p2 + 1, Seq::empty()); sp_miembros(c1, p2 + 1, Seq::empty()) } {
                        Err(f) => Err(f),
                        Ok((ms, p3)) => if no_atras(c1, p2 + 1, p3) {
                            match esperar(c1, p3, TipoToken::LlaveDer) {
                                Err(f) => Err(f),
                                Ok(p4) => Ok((tipo_struct_union(es_struct, nombre, ms), p4)),
                            }
                        } else {
                            fuera()
                        },
                    }
                } else {
                    Ok((tipo_struct_union(es_struct, nombre, Seq::empty()), p2))
                }
            },
        }
    };
}

/// `sp_miembros` reads the same from the same tokens, whatever the source text.
proof fn lema_misma_miembros(c1: Contexto, c2: Contexto, p: int, acc: Seq<SpecDeclaracion>)
    requires
        c1.tokens == c2.tokens,
    ensures
        misma_lectura(sp_miembros(c1, p, acc), sp_miembros(c2, p, acc)),
    decreases c1.tokens.len() - p, 4int,
{
    desplegar_sp_miembros(c1, p, acc);
    desplegar_sp_miembros(c2, p, acc);
    let _r = {
        if !coincide(c1, p, TipoToken::LlaveDer) && !es_fin(c1, p) {
            match { lema_misma_declaracion(c1, c2, p); sp_declaracion(c1, p) } {
                Err(f) => Err(f),
                Ok((d, q)) => if adelante(c1, p, q) {
                    { lema_misma_miembros(c1, c2, q, acc.push(d)); sp_miembros(c1, q, acc.push(d)) }
                } else {
                    fuera()
                },
            }
        } else {
            Ok((acc, p))
        }
    };
}

/// `sp_declaracion` reads the same from the same tokens, whatever the source text.
proof fn lema_misma_declaracion(c1: Contexto, c2: Contexto, p: int)
    requires
        c1.tokens == c2.tokens,
    ensures
        misma_lectura(sp_declaracion(c1, p), sp_declaracion(c2, p)),
    decreases c1.tokens.len() - p, 3int,
{
    desplegar_sp_declaracion(c1, p);
    desplegar_sp_declaracion(c2, p);
    let _r = {
        let pos = pos_actual(c1, p);
        match { lema_misma_especificadores(c1, c2, p); sp_especificadores(c1, p) } {
            Err(f) => Err(f),
            Ok((esp, p1)) => if no_atras(c1, p, p1) {
                match { lema_misma_declarador(c1, c2, p1); sp_declarador(c1, p1) } {
                    Err(f) => Err(f),
                    Ok((d, p2)) => if adelante(c1, p1, p2) {
                        match { lema_misma_inicializador_opt(c1, c2, p2); sp_inicializador_opt(c1, p2) } {
                            Err(f) => Err(f),
                            Ok((ini, p3)) => if no_atras(c1, p2, p3) {
                                let primero = SpecInitDeclarador { declarador: d, inicializador: ini };
                                match { lema_misma_init_declaradores(c1, c2, p3, seq![primero]); sp_init_declaradores(c1, p3, seq![primero]) } {
                                    Err(f) => Err(f),
                                    Ok((ds, p4)) => if no_atras(c1, p3, p4) {
                                        match esperar(c1, p4, TipoToken::PuntoYComa) {
                                            Err(f) => Err(f),
                                            Ok(p5) => Ok(
                                                (
                                                    SpecDeclaracion {
                                                        posicion: pos,
                                                        especificadores: esp,
                                                        declaradores: ds,
                                                    },
                                                    p5,
                                                ),
                                            ),
                                        }
                                    } else {
                                        fuera()
                                    },
                                }
                            } else {
                                fuera()
                            },
                        }
                    } else {
                        fuera()
                    },
                }
            } else {
                fuera()
            },
        }
    };
}

/// `sp_init_declaradores` reads the same from the same tokens, whatever the source text.
proof fn lema_misma_init_declaradores(c1: Contexto, c2: Contexto, p: int, acc: Seq<SpecInitDeclarador>)
    requires
        c1.tokens == c2.tokens,
    ensures
        misma_lectura(sp_init_declaradores(c1, p, acc), sp_init_declaradores(c2, p, acc)),
    decreases c1.tokens.len() - p, 0int,
{
    desplegar_sp_init_declaradores(c1, p, acc);
    desplegar_sp_init_declaradores(c2, p, acc);
    let _r = {
        if coincide(c1, p, TipoToken::Coma) && p >= 0 {
            match { lema_misma_declarador(c1, c2, p + 1); sp_declarador(c1, p + 1) } {
                Err(f) => Err(f),
                Ok((d, q1)) => if adelante(c1, p + 1, q1) {
                    match { lema_misma_inicializador_opt(c1, c2, q1); sp_inicializador_opt(c1, q1) } {
                        Err(f) => Err(f),
                        Ok((ini, q2)) => if no_atras(c1, q1, q2) {
                            { lema_misma_init_declaradores(c1, c2, q2,
                                acc.push(SpecInitDeclarador { declarador: d, inicializador: ini }),); sp_init_declaradores(
                                c1,
                                q2,
                                acc.push(SpecInitDeclarador { declarador: d, inicializador: ini }),
                            ) }
                        } else {
                            fuera()
                        },
                    }
                } else {
                    fuera()
                },
            }
        } else {
            Ok((acc, p))
        }
    };
}

/// `sp_declarador` reads the same from the same tokens, whatever the source text.
proof fn lema_misma_declarador(c1: Contexto, c2: Contexto, p: int)
    requires
        c1.tokens == c2.tokens,
    ensures
        misma_lectura(sp_declarador(c1, p), sp_declarador(c2, p)),
    decreases c1.tokens.len() - p, 1int,
{
    desplegar_sp_declarador(c1, p);
    desplegar_sp_declarador(c2, p);
    let _r = {
        let (ps, p1) = { lema_misma_punteros(c1, c2, p, Seq::empty()); sp_punteros(c1, p, Seq::empty()) };
        if no_atras(c1, p, p1) {
            match { lema_misma_declarador_directo(c1, c2, p1); sp_declarador_directo(c1, p1) } {
                Err(f) => Err(f),
                Ok((b, p2)) => Ok((SpecDeclarador { punteros: ps, base: b }, p2)),
            }
        } else {
            fuera()
        }
    };
}

/// `sp_declarador_directo` reads the same from the same tokens, whatever the source text.
proof fn lema_misma_declarador_directo(c1: Contexto, c2: Contexto, p: int)
    requires
        c1.tokens == c2.tokens,
    ensures
        misma_lectura(sp_declarador_directo(c1, p), sp_declarador_directo(c2, p)),
    decreases c1.tokens.len() - p, 0int,
{
    desplegar_sp_declarador_directo(c1, p);
    desplegar_sp_declarador_directo(c2, p);
    let _r = {
        if coincide(c1, p, TipoToken::ParentesisIzq) && p >= 0 {
            match { lema_misma_declarador(c1, c2, p + 1); sp_declarador(c1, p + 1) } {
                Err(f) => Err(f),
                Ok((d, q)) => if adelante(c1, p + 1, q) {
                    match esperar(c1, q, TipoToken::ParentesisDer) {
                        Err(f) => Err(f),
                        Ok(q2) => { lema_misma_sufijos(c1, c2, q2, SpecDeclaradorBase::Agrupado(Box::new(d))); sp_sufijos(c1, q2, SpecDeclaradorBase::Agrupado(Box::new(d))) },
                    }
                } else {
                    fuera()
                },
            }
        } else {
            match esperar(c1, p, TipoToken::Identificador) {
                Err(f) => Err(f),
                Ok(q) => { lema_misma_sufijos(c1, c2, q,
                    SpecDeclaradorBase::Identificador(valor_de(c1.tokens[p])),); sp_sufijos(
                    c1,
                    q,
                    SpecDeclaradorBase::Identificador(valor_de(c1.tokens[p])),
                ) },
            }
        }
    };
}

/// `sp_tamano` reads the same from the same tokens, whatever the source text.
proof fn lema_misma_tamano(c1: Contexto, c2: Contexto, p: int)
    requires
        c1.tokens == c2.tokens,
    ensures
        misma_lectura(sp_tamano(c1, p), sp_tamano(c2, p)),
{
    desplegar_sp_tamano(c1, p);
    desplegar_sp_tamano(c2, p);
    let _r = {
        if coincide(c1, p, TipoToken::CorcheteDer) {
            Ok((None, p))
        } else {
            match { lema_misma_expresion(c1, c2, p); sp_expresion(c1, p) } {
                Err(f) => Err(f),
                Ok((e, q)) => Ok((Some(Box::new(e)), q)),
            }
        }
    };
}

/// `sp_sufijos` reads the same from the same tokens, whatever the source text.
proof fn lema_misma_sufijos(c1: Contexto, c2: Contexto, p: int, base: SpecDeclaradorBase)
    requires
        c1.tokens == c2.tokens,
    ensures
        misma_lectura(sp_sufijos(c1, p, base), sp_sufijos(c2, p, base)),
    decreases c1.tokens.len() - p, 0int,
{
    desplegar_sp_sufijos(c1, p, base);
    desplegar_sp_sufijos(c2, p, base);
    let _r = {
        if coincide(c1, p, TipoToken::CorcheteIzq) && p >= 0 {
            match { lema_misma_tamano(c1, c2, p + 1); sp_tamano(c1, p + 1) } {
                Err(f) => Err(f),
                Ok((tam, q)) => if no_atras(c1, p + 1, q) {
                    match esperar(c1, q, TipoToken::CorcheteDer) {
                        Err(f) => Err(f),
                        Ok(q2) => { lema_misma_sufijos(c1, c2, q2,
                            SpecDeclaradorBase::Derivado {
                                interno: Box::new(base),
                                sufijo: SpecSufijo::Array(tam),
                            },); sp_sufijos(
                            c1,
                            q2,
                            SpecDeclaradorBase::Derivado {
                                interno: Box::new(base),
                                sufijo: SpecSufijo::Array(tam),
                            },
                        ) },
                    }
                } else {
                    fuera()
                },
            }
        } else if coincide(c1, p, TipoToken::ParentesisIzq) && p >= 0 {
            match { lema_misma_parametros(c1, c2, p + 1); sp_parametros(c1, p + 1) } {
                Err(f) => Err(f),
                Ok((ps, q)) => if no_atras(c1, p + 1, q) {
                    match esperar(c1, q, TipoToken::ParentesisDer) {
                        Err(f) => Err(f),
                        Ok(q2) => { lema_misma_sufijos(c1, c2, q2,
                            SpecDeclaradorBase::Derivado {
                                interno: Box::new(base),
                                sufijo: SpecSufijo::Funcion(ps),
                            },); sp_sufijos(
                            c1,
                            q2,
                            SpecDeclaradorBase::Derivado {
                                interno: Box::new(base),
                                sufijo: SpecSufijo::Funcion(ps),
                            },
                        ) },
                    }
                } else {
                    fuera()
                },
            }
        } else {
            Ok((base, p))
        }
    };
}

/// `sp_parametros` reads the same from the same tokens, whatever the source text.
proof fn lema_misma_parametros(c1: Contexto, c2: Contexto, p: int)
    requires
        c1.tokens == c2.tokens,
    ensures
        misma_lectura(sp_parametros(c1, p), sp_parametros(c2, p)),
    decreases c1.tokens.len() - p, 4int,
{
    desplegar_sp_parametros(c1, p);
    desplegar_sp_parametros(c2, p);
    let _r = {
        if coincide(c1, p, TipoToken::Void) {
            Ok((Seq::empty(), p + 1))
        } else if coincide(c1, p, TipoToken::ParentesisDer) {
            Ok((Seq::empty(), p))
        } else {
            { lema_misma_parametros_desde(c1, c2, p, Seq::empty()); sp_parametros_desde(c1, p, Seq::empty()) }
        }
    };
}

/// `sp_parametros_desde` reads the same from the same tokens, whatever the source text.
proof fn lema_misma_parametros_desde(c1: Contexto, c2: Contexto, p: int, acc: Seq<SpecParametro>)
    requires
        c1.tokens == c2.tokens,
    ensures
        misma_lectura(sp_parametros_desde(c1, p, acc), sp_parametros_desde(c2, p, acc)),
    decreases c1.tokens.len() - p, 3int,
{
    desplegar_sp_parametros_desde(c1, p, acc);
    desplegar_sp_parametros_desde(c2, p, acc);
    let _r = {
        match { lema_misma_especificadores(c1, c2, p); sp_especificadores(c1, p) } {
            Err(f) => Err(f),
            Ok((esp, p1)) => if no_atras(c1, p, p1) {
                if es_inicio_declarador(c1, p1) {
                    match { lema_misma_declarador(c1, c2, p1); sp_declarador(c1, p1) } {
                        Err(f) => Err(f),
                        Ok((d, p2)) => if adelante(c1, p1, p2) {
                            { lema_misma_parametros_tras(c1, c2, p2,
                                acc.push(SpecParametro { especificadores: esp, declarador: Some(d) }),); sp_parametros_tras(
                                c1,
                                p2,
                                acc.push(SpecParametro { especificadores: esp, declarador: Some(d) }),
                            ) }
                        } else {
                            fuera()
                        },
                    }
                } else {
                    { lema_misma_parametros_tras(c1, c2, p1,
                        acc.push(SpecParametro { especificadores: esp, declarador: None }),); sp_parametros_tras(
                        c1,
                        p1,
                        acc.push(SpecParametro { especificadores: esp, declarador: None }),
                    ) }
                }
            } else {
                fuera()
            },
        }
    };
}

/// `sp_parametros_tras` reads the same from the same tokens, whatever the source text.
proof fn lema_misma_parametros_tras(c1: Contexto, c2: Contexto, p: int, acc: Seq<SpecParametro>)
    requires
        c1.tokens == c2.tokens,
    ensures
        misma_lectura(sp_parametros_tras(c1, p, acc), sp_parametros_tras(c2, p, acc)),
    decreases c1.tokens.len() - p, 0int,
{
    desplegar_sp_parametros_tras(c1, p, acc);
    desplegar_sp_parametros_tras(c2, p, acc);
    let _r = {
        if coincide(c1, p, TipoToken::Coma) && p >= 0 {
            { lema_misma_parametros_desde(c1, c2, p + 1, acc); sp_parametros_desde(c1, p + 1, acc) }
        } else {
            Ok((acc, p))
        }
    };
}

/// `sp_inicializador_opt` reads the same from the same tokens, whatever the source text.
proof fn lema_misma_inicializador_opt(c1: Contexto, c2: Contexto, p: int)
    requires
        c1.tokens == c2.tokens,
    ensures
        misma_lectura(sp_inicializador_opt(c1, p), sp_inicializador_opt(c2, p)),
{
    desplegar_sp_inicializador_opt(c1, p);
    desplegar_sp_inicializador_opt(c2, p);
    let _r = {
        if !coincide(c1, p, TipoToken::Asignar) || p < 0 {
            Ok((None, p))
        } else {
            match { lema_misma_inicializador(c1, c2, p + 1); sp_inicializador(c1, p + 1) } {
                Err(f) => Err(f),
                Ok((i, q)) => Ok((Some(i), q)),
            }
        }
    };
}

/// `sp_inicializador` reads the same from the same tokens, whatever the source text.
proof fn lema_misma_inicializador(c1: Contexto, c2: Contexto, p: int)
    requires
        c1.tokens == c2.tokens,
    ensures
        misma_lectura(sp_inicializador(c1, p), sp_inicializador(c2, p)),
    decreases c1.tokens.len() - p, 0int,
{
    desplegar_sp_inicializador(c1, p);
    desplegar_sp_inicializador(c2, p);
    let _r = {
        if coincide(c1, p, TipoToken::LlaveIzq) && p >= 0 {
            if coincide(c1, p + 1, TipoToken::LlaveDer) {
                Ok((SpecInicializador::Lista(Seq::empty()), p + 2))
            } else {
                match { lema_misma_lista_inicializadores(c1, c2, p + 1, Seq::empty()); sp_lista_inicializadores(c1, p + 1, Seq::empty()) } {
                    Err(f) => Err(f),
                    Ok((l, q)) => if adelante(c1, p + 1, q) {
                        match esperar(c1, q, TipoToken::LlaveDer) {
                            Err(f) => Err(f),
                            Ok(q2) => Ok((SpecInicializador::Lista(l), q2)),
                        }
                    } else {
                        fuera()
                    },
                }
            }
        } else {
            match { lema_misma_expresion(c1, c2, p); sp_expresion(c1, p) } {
                Err(f) => Err(f),
                Ok((e, q)) => Ok((SpecInicializador::Expr(Box::new(e)), q)),
            }
        }
    };
}

/// `sp_lista_inicializadores` reads the same from the same tokens, whatever the source text.
proof fn lema_misma_lista_inicializadores(c1: Contexto, c2: Contexto, p: int, acc: Seq<SpecInicializador>)
    requires
        c1.tokens == c2.tokens,
    ensures
        misma_lectura(sp_lista_inicializadores(c1, p, acc), sp_lista_inicializadores(c2, p, acc)),
    decreases c1.tokens.len() - p, 1int,
{
    desplegar_sp_lista_inicializadores(c1, p, acc);
    desplegar_sp_lista_inicializadores(c2, p, acc);
    let _r = {
        match { lema_misma_inicializador(c1, c2, p); sp_inicializador(c1, p) } {
            Err(f) => Err(f),
            Ok((i, q)) => if adelante(c1, p, q) {
                if coincide(c1, q, TipoToken::Coma) {
                    { lema_misma_lista_inicializadores(c1, c2, q + 1, acc.push(i)); sp_lista_inicializadores(c1, q + 1, acc.push(i)) }
                } else {
                    Ok((acc.push(i), q))
                }
            } else {
                fuera()
            },
        }
    };
}

/// `sp_enum` reads the same from the same tokens, whatever the source text.
proof fn lema_misma_enum(c1: Contexto, c2: Contexto, p: int)
    requires
        c1.tokens == c2.tokens,
    ensures
        misma_lectura(sp_enum(c1, p), sp_enum(c2, p)),
{
    desplegar_sp_enum(c1, p);
    desplegar_sp_enum(c2, p);
    let _r = {
        match avanzar(c1, p) {
            Err(f) => Err(f),
            Ok(p1) => {
                let (nombre, p2) = nombre_opcional(c1, p1);
                if coincide(c1, p2, TipoToken::LlaveIzq) {
                    match { lema_misma_enumeradores(c1, c2, p2 + 1, Seq::empty()); sp_enumeradores(c1, p2 + 1, Seq::empty()) } {
                        Err(f) => Err(f),
                        Ok((es, p3)) => if no_atras(c1, p2 + 1, p3) {
                            match esperar(c1, p3, TipoToken::LlaveDer) {
                                Err(f) => Err(f),
                                Ok(p4) => Ok(
                                    (SpecTipo::Enum(SpecEnum { nombre, enumeradores: es }), p4),
                                ),
                            }
                        } else {
                            fuera()
                        },
                    }
                } else {
                    Ok((SpecTipo::Enum(SpecEnum { nombre, enumeradores: Seq::empty() }), p2))
                }
            },
        }
    };
}

/// `sp_valor_enumerador` reads the same from the same tokens, whatever the source text.
proof fn lema_misma_valor_enumerador(c1: Contexto, c2: Contexto, p: int)
    requires
        c1.tokens == c2.tokens,
    ensures
        misma_lectura(sp_valor_enumerador(c1, p), sp_valor_enumerador(c2, p)),
{
    desplegar_sp_valor_enumerador(c1, p);
    desplegar_sp_valor_enumerador(c2, p);
    let _r = {
        if coincide(c1, p, TipoToken::Asignar) && p >= 0 {
            match { lema_misma_expresion(c1, c2, p + 1); sp_expresion(c1, p + 1) } {
                Err(f) => Err(f),
                Ok((e, q)) => Ok((Some(Box::new(e)), q)),
            }
        } else {
            Ok((None, p))
        }
    };
}

/// `sp_enumeradores` reads the same from the same tokens, whatever the source text.
proof fn lema_misma_enumeradores(c1: Contexto, c2: Contexto, p: int, acc: Seq<SpecEnumerador>)
    requires
        c1.tokens == c2.tokens,
    ensures
        misma_lectura(sp_enumeradores(c1, p, acc), sp_enumeradores(c2, p, acc)),
    decreases c1.tokens.len() - p,
{
    desplegar_sp_enumeradores(c1, p, acc);
    desplegar_sp_enumeradores(c2, p, acc);
    let _r = {
        if !coincide(c1, p, TipoToken::LlaveDer) && !es_fin(c1, p) {
            match esperar(c1, p, TipoToken::Identificador) {
                Err(f) => Err(f),
                Ok(p1) => match { lema_misma_valor_enumerador(c1, c2, p1); sp_valor_enumerador(c1, p1) } {
                    Err(f) => Err(f),
                    Ok((valor, q)) => if no_atras(c1, p1, q) {
                        let q2 = if coincide(c1, q, TipoToken::Coma) {
                            q + 1
                        } else {
                            q
                        };
                        { lema_misma_enumeradores(c1, c2, q2,
                            acc.push(SpecEnumerador { nombre: valor_de(c1.tokens[p]), valor }),); sp_enumeradores(
                            c1,
                            q2,
                            acc.push(SpecEnumerador { nombre: valor_de(c1.tokens[p]), valor }),
                        ) }
                    } else {
                        fuera()
                    },
                },
            }
        } else {
            Ok((acc, p))
        }
    };
}

/// `sp_expresion` reads the same from the same tokens, whatever the source text.
proof fn lema_misma_expresion(c1: Contexto, c2: Contexto, p: int)
    requires
        c1.tokens == c2.tokens,
    ensures
        misma_lectura(sp_expresion(c1, p), sp_expresion(c2, p)),
    decreases c1.tokens.len() - p, 40int,
{
    desplegar_sp_expresion(c1, p);
    desplegar_sp_expresion(c2, p);
    let _r = {
        { lema_misma_asignacion(c1, c2, p); sp_asignacion(c1, p) }
    };
}

/// `sp_asignacion` reads the same from the same tokens, whatever the source text.
proof fn lema_misma_asignacion(c1: Contexto, c2: Contexto, p: int)
    requires
        c1.tokens == c2.tokens,
    ensures
        misma_lectura(sp_asignacion(c1, p), sp_asignacion(c2, p)),
    decreases c1.tokens.len() - p, 39int,
{
    desplegar_sp_asignacion(c1, p);
    desplegar_sp_asignacion(c2, p);
    let _r = {
        match { lema_misma_ternario(c1, c2, p); sp_ternario(c1, p) } {
            Err(f) => Err(f),
            Ok((e, q)) => if adelante(c1, p, q) {
                match operador_asignacion_de(tipo_actual(c1, q)) {
                    None => Ok((e, q)),
                    Some(op) => match avanzar(c1, q) {
                        Err(f) => Err(f),
                        Ok(q1) => match { lema_misma_asignacion(c1, c2, q1); sp_asignacion(c1, q1) } {
                            Err(f) => Err(f),
                            Ok((v, q2)) => Ok(
                                (
                                    SpecExpr::Asignacion {
                                        posicion: pos_actual(c1, q),
                                        operador: op,
                                        destino: Box::new(e),
                                        valor: Box::new(v),
                                    },
                                    q2,
                                ),
                            ),
                        },
                    },
                }
            } else {
                fuera()
            },
        }
    };
}

/// `sp_ternario` reads the same from the same tokens, whatever the source text.
proof fn lema_misma_ternario(c1: Contexto, c2: Contexto, p: int)
    requires
        c1.tokens == c2.tokens,
    ensures
        misma_lectura(sp_ternario(c1, p), sp_ternario(c2, p)),
    decreases c1.tokens.len() - p, 38int,
{
    desplegar_sp_ternario(c1, p);
    desplegar_sp_ternario(c2, p);
    let _r = {
        match { lema_misma_binaria(c1, c2, p, NivelBinario::OLogico); sp_binaria(c1, p, NivelBinario::OLogico) } {
            Err(f) => Err(f),
            Ok((e, q)) => if adelante(c1, p, q) {
                if coincide(c1, q, TipoToken::Interrogacion) {
                    match { lema_misma_expresion(c1, c2, q + 1); sp_expresion(c1, q + 1) } {
                        Err(f) => Err(f),
                        Ok((v, q2)) => if adelante(c1, q + 1, q2) {
                            match esperar(c1, q2, TipoToken::DosPuntos) {
                                Err(f) => Err(f),
                                Ok(q3) => match { lema_misma_ternario(c1, c2, q3); sp_ternario(c1, q3) } {
                                    Err(f) => Err(f),
                                    Ok((fa, q4)) => Ok(
                                        (
                                            SpecExpr::Ternaria {
                                                posicion: pos_actual(c1, q),
                                                condicion: Box::new(e),
                                                verdadero: Box::new(v),
                                                falso: Box::new(fa),
                                            },
                                            q4,
                                        ),
                                    ),
                                },
                            }
                        } else {
                            fuera()
                        },
                    }
                } else {
                    Ok((e, q))
                }
            } else {
                fuera()
            },
        }
    };
}

/// `sp_binaria` reads the same from the same tokens, whatever the source text.
proof fn lema_misma_binaria(c1: Contexto, c2: Contexto, p: int, nivel: NivelBinario)
    requires
        c1.tokens == c2.tokens,
    ensures
        misma_lectura(sp_binaria(c1, p, nivel), sp_binaria(c2, p, nivel)),
    decreases c1.tokens.len() - p, rango_nivel(nivel),
{
    desplegar_sp_binaria(c1, p, nivel);
    desplegar_sp_binaria(c2, p, nivel);
    let _r = {
        match { lema_misma_operando(c1, c2, p, nivel); sp_operando(c1, p, nivel) } {
            Err(f) => Err(f),
            Ok((e, q)) => if adelante(c1, p, q) {
                { lema_misma_binaria_desde(c1, c2, q, nivel, e); sp_binaria_desde(c1, q, nivel, e) }
            } else {
                fuera()
            },
        }
    };
}

/// `sp_operando` reads the same from the same tokens, whatever the source text.
proof fn lema_misma_operando(c1: Contexto, c2: Contexto, p: int, nivel: NivelBinario)
    requires
        c1.tokens == c2.tokens,
    ensures
        misma_lectura(sp_operando(c1, p, nivel), sp_operando(c2, p, nivel)),
    decreases c1.tokens.len() - p, rango_nivel(nivel) - 1,
{
    desplegar_sp_operando(c1, p, nivel);
    desplegar_sp_operando(c2, p, nivel);
    let _r = {
        match nivel {
            NivelBinario::OLogico => { lema_misma_binaria(c1, c2, p, NivelBinario::YLogico); sp_binaria(c1, p, NivelBinario::YLogico) },
            NivelBinario::YLogico => { lema_misma_binaria(c1, c2, p, NivelBinario::OBit); sp_binaria(c1, p, NivelBinario::OBit) },
            NivelBinario::OBit => { lema_misma_binaria(c1, c2, p, NivelBinario::XorBit); sp_binaria(c1, p, NivelBinario::XorBit) },
            NivelBinario::XorBit => { lema_misma_binaria(c1, c2, p, NivelBinario::YBit); sp_binaria(c1, p, NivelBinario::YBit) },
            NivelBinario::YBit => { lema_misma_binaria(c1, c2, p, NivelBinario::Igualdad); sp_binaria(c1, p, NivelBinario::Igualdad) },
            NivelBinario::Igualdad => { lema_misma_relacional(c1, c2, p); sp_relacional(c1, p) },
            NivelBinario::Desplazamiento => { lema_misma_aditiva(c1, c2, p); sp_aditiva(c1, p) },
        }
    };
}

/// `sp_binaria_desde` reads the same from the same tokens, whatever the source text.
proof fn lema_misma_binaria_desde(c1: Contexto, c2: Contexto, p: int, nivel: NivelBinario, acc: SpecExpr)
    requires
        c1.tokens == c2.tokens,
    ensures
        misma_lectura(sp_binaria_desde(c1, p, nivel, acc), sp_binaria_desde(c2, p, nivel, acc)),
    decreases c1.tokens.len() - p, 0int,
{
    desplegar_sp_binaria_desde(c1, p, nivel, acc);
    desplegar_sp_binaria_desde(c2, p, nivel, acc);
    let _r = {
        if es_operador_de(nivel, tipo_actual(c1, p)) {
            match avanzar(c1, p) {
                Err(f) => Err(f),
                Ok(p1) => match { lema_misma_operando(c1, c2, p1, nivel); sp_operando(c1, p1, nivel) } {
                    Err(f) => Err(f),
                    Ok((d, q)) => if adelante(c1, p1, q) {
                        { lema_misma_binaria_desde(c1, c2, q,
                            nivel,
                            SpecExpr::Binaria {
                                posicion: pos_actual(c1, p),
                                operador: operador_binario_de(tipo_actual(c1, p), nivel),
                                izquierda: Box::new(acc),
                                derecha: Box::new(d),
                            },); sp_binaria_desde(
                            c1,
                            q,
                            nivel,
                            SpecExpr::Binaria {
                                posicion: pos_actual(c1, p),
                                operador: operador_binario_de(tipo_actual(c1, p), nivel),
                                izquierda: Box::new(acc),
                                derecha: Box::new(d),
                            },
                        ) }
                    } else {
                        fuera()
                    },
                },
            }
        } else {
            Ok((acc, p))
        }
    };
}

/// `sp_relacional` reads the same from the same tokens, whatever the source text.
proof fn lema_misma_relacional(c1: Contexto, c2: Contexto, p: int)
    requires
        c1.tokens == c2.tokens,
    ensures
        misma_lectura(sp_relacional(c1, p), sp_relacional(c2, p)),
    decreases c1.tokens.len() - p, 24int,
{
    desplegar_sp_relacional(c1, p);
    desplegar_sp_relacional(c2, p);
    let _r = {
        match { lema_misma_binaria(c1, c2, p, NivelBinario::Desplazamiento); sp_binaria(c1, p, NivelBinario::Desplazamiento) } {
            Err(f) => Err(f),
            Ok((e, q)) => if adelante(c1, p, q) {
                { lema_misma_relacional_desde(c1, c2, q, e); sp_relacional_desde(c1, q, e) }
            } else {
                fuera()
            },
        }
    };
}

/// `sp_relacional_desde` reads the same from the same tokens, whatever the source text.
proof fn lema_misma_relacional_desde(c1: Contexto, c2: Contexto, p: int, acc: SpecExpr)
    requires
        c1.tokens == c2.tokens,
    ensures
        misma_lectura(sp_relacional_desde(c1, p, acc), sp_relacional_desde(c2, p, acc)),
    decreases c1.tokens.len() - p, 0int,
{
    desplegar_sp_relacional_desde(c1, p, acc);
    desplegar_sp_relacional_desde(c2, p, acc);
    let _r = {
        match operador_relacional_de(tipo_actual(c1, p)) {
            None => Ok((acc, p)),
            Some(op) => match avanzar(c1, p) {
                Err(f) => Err(f),
                Ok(p1) => match { lema_misma_binaria(c1, c2, p1, NivelBinario::Desplazamiento); sp_binaria(c1, p1, NivelBinario::Desplazamiento) } {
                    Err(f) => Err(f),
                    Ok((d, q)) => if adelante(c1, p1, q) {
                        { lema_misma_relacional_desde(c1, c2, q,
                            SpecExpr::Binaria {
                                posicion: pos_actual(c1, p),
                                operador: op,
                                izquierda: Box::new(acc),
                                derecha: Box::new(d),
                            },); sp_relacional_desde(
                            c1,
                            q,
                            SpecExpr::Binaria {
                                posicion: pos_actual(c1, p),
                                operador: op,
                                izquierda: Box::new(acc),
                                derecha: Box::new(d),
                            },
                        ) }
                    } else {
                        fuera()
                    },
                },
            },
        }
    };
}

/// `sp_aditiva` reads the same from the same tokens, whatever the source text.
proof fn lema_misma_aditiva(c1: Contexto, c2: Contexto, p: int)
    requires
        c1.tokens == c2.tokens,
    ensures
        misma_lectura(sp_aditiva(c1, p), sp_aditiva(c2, p)),
    decreases c1.tokens.len() - p, 20int,
{
    desplegar_sp_aditiva(c1, p);
    desplegar_sp_aditiva(c2, p);
    let _r = {
        match { lema_misma_multiplicativa(c1, c2, p); sp_multiplicativa(c1, p) } {
            Err(f) => Err(f),
            Ok((e, q)) => if adelante(c1, p, q) {
                { lema_misma_aditiva_desde(c1, c2, q, e); sp_aditiva_desde(c1, q, e) }
            } else {
                fuera()
            },
        }
    };
}

/// `sp_aditiva_desde` reads the same from the same tokens, whatever the source text.
proof fn lema_misma_aditiva_desde(c1: Contexto, c2: Contexto, p: int, acc: SpecExpr)
    requires
        c1.tokens == c2.tokens,
    ensures
        misma_lectura(sp_aditiva_desde(c1, p, acc), sp_aditiva_desde(c2, p, acc)),
    decreases c1.tokens.len() - p, 0int,
{
    desplegar_sp_aditiva_desde(c1, p, acc);
    desplegar_sp_aditiva_desde(c2, p, acc);
    let _r = {
        match operador_aditivo_de(tipo_actual(c1, p)) {
            None => Ok((acc, p)),
            Some(op) => match avanzar(c1, p) {
                Err(f) => Err(f),
                Ok(p1) => match { lema_misma_multiplicativa(c1, c2, p1); sp_multiplicativa(c1, p1) } {
                    Err(f) => Err(f),
                    Ok((d, q)) => if adelante(c1, p1, q) {
                        { lema_misma_aditiva_desde(c1, c2, q,
                            SpecExpr::Binaria {
                                posicion: pos_actual(c1, p),
                                operador: op,
                                izquierda: Box::new(acc),
                                derecha: Box::new(d),
                            },); sp_aditiva_desde(
                            c1,
                            q,
                            SpecExpr::Binaria {
                                posicion: pos_actual(c1, p),
                                operador: op,
                                izquierda: Box::new(acc),
                                derecha: Box::new(d),
                            },
                        ) }
                    } else {
                        fuera()
                    },
                },
            },
        }
    };
}

/// `sp_multiplicativa` reads the same from the same tokens, whatever the source text.
proof fn lema_misma_multiplicativa(c1: Contexto, c2: Contexto, p: int)
    requires
        c1.tokens == c2.tokens,
    ensures
        misma_lectura(sp_multiplicativa(c1, p), sp_multiplicativa(c2, p)),
    decreases c1.tokens.len() - p, 18int,
{
    desplegar_sp_multiplicativa(c1, p);
    desplegar_sp_multiplicativa(c2, p);
    let _r = {
        match { lema_misma_unaria(c1, c2, p); sp_unaria(c1, p) } {
            Err(f) => Err(f),
            Ok((e, q)) => if adelante(c1, p, q) {
                { lema_misma_multiplicativa_desde(c1, c2, q, e); sp_multiplicativa_desde(c1, q, e) }
            } else {
                fuera()
            },
        }
    };
}

/// `sp_multiplicativa_desde` reads the same from the same tokens, whatever the source text.
proof fn lema_misma_multiplicativa_desde(c1: Contexto, c2: Contexto, p: int, acc: SpecExpr)
    requires
        c1.tokens == c2.tokens,
    ensures
        misma_lectura(sp_multiplicativa_desde(c1, p, acc), sp_multiplicativa_desde(c2, p, acc)),
    decreases c1.tokens.len() - p, 0int,
{
    desplegar_sp_multiplicativa_desde(c1, p, acc);
    desplegar_sp_multiplicativa_desde(c2, p, acc);
    let _r = {
        match operador_multiplicativo_de(tipo_actual(c1, p)) {
            None => Ok((acc, p)),
            Some(op) => match avanzar(c1, p) {
                Err(f) => Err(f),
                Ok(p1) => match { lema_misma_unaria(c1, c2, p1); sp_unaria(c1, p1) } {
                    Err(f) => Err(f),
                    Ok((d, q)) => if adelante(c1, p1, q) {
                        { lema_misma_multiplicativa_desde(c1, c2, q,
                            SpecExpr::Binaria {
                                posicion: pos_actual(c1, p),
                                operador: op,
                                izquierda: Box::new(acc),
                                derecha: Box::new(d),
                            },); sp_multiplicativa_desde(
                            c1,
                            q,
                            SpecExpr::Binaria {
                                posicion: pos_actual(c1, p),
                                operador: op,
                                izquierda: Box::new(acc),
                                derecha: Box::new(d),
                            },
                        ) }
                    } else {
                        fuera()
                    },
                },
            },
        }
    };
}

/// `sp_unaria` reads the same from the same tokens, whatever the source text.
proof fn lema_misma_unaria(c1: Contexto, c2: Contexto, p: int)
    requires
        c1.tokens == c2.tokens,
    ensures
        misma_lectura(sp_unaria(c1, p), sp_unaria(c2, p)),
    decreases c1.tokens.len() - p, 16int,
{
    desplegar_sp_unaria(c1, p);
    desplegar_sp_unaria(c2, p);
    let _r = {
        let pos = pos_actual(c1, p);
        if coincide(c1, p, TipoToken::Sizeof) && p >= 0 {
            if es_cast(c1, p + 1) {
                match { lema_misma_tipo(c1, c2, p + 2); sp_tipo(c1, p + 2) } {
                    Err(f) => Err(f),
                    Ok((t, q)) => match esperar(c1, q, TipoToken::ParentesisDer) {
                        Err(f) => Err(f),
                        Ok(q2) => Ok(
                            (
                                SpecExpr::Sizeof {
                                    posicion: pos,
                                    es_tipo: true,
                                    objetivo: SpecSizeofObjetivo::Tipo(t),
                                },
                                q2,
                            ),
                        ),
                    },
                }
            } else {
                match { lema_misma_unaria(c1, c2, p + 1); sp_unaria(c1, p + 1) } {
                    Err(f) => Err(f),
                    Ok((e, q)) => Ok(
                        (
                            SpecExpr::Sizeof {
                                posicion: pos,
                                es_tipo: false,
                                objetivo: SpecSizeofObjetivo::Expr(Box::new(e)),
                            },
                            q,
                        ),
                    ),
                }
            }
        } else {
            match operador_unario_de(tipo_actual(c1, p)) {
                Some(op) => match avanzar(c1, p) {
                    Err(f) => Err(f),
                    Ok(p1) => match { lema_misma_unaria(c1, c2, p1); sp_unaria(c1, p1) } {
                        Err(f) => Err(f),
                        Ok((e, q)) => Ok(
                            (SpecExpr::Unaria { posicion: pos, operador: op, operando: Box::new(e) }, q),
                        ),
                    },
                },
                None => if es_cast(c1, p) && p >= 0 {
                    match { lema_misma_tipo(c1, c2, p + 1); sp_tipo(c1, p + 1) } {
                        Err(f) => Err(f),
                        Ok((t, q)) => if no_atras(c1, p + 1, q) {
                            match esperar(c1, q, TipoToken::ParentesisDer) {
                                Err(f) => Err(f),
                                Ok(q2) => match { lema_misma_unaria(c1, c2, q2); sp_unaria(c1, q2) } {
                                    Err(f) => Err(f),
                                    Ok((e, q3)) => Ok(
                                        (SpecExpr::Cast { posicion: pos, tipo: t, expr: Box::new(e) }, q3),
                                    ),
                                },
                            }
                        } else {
                            fuera()
                        },
                    }
                } else {
                    { lema_misma_postfija(c1, c2, p); sp_postfija(c1, p) }
                },
            }
        }
    };
}

/// `sp_postfija` reads the same from the same tokens, whatever the source text.
proof fn lema_misma_postfija(c1: Contexto, c2: Contexto, p: int)
    requires
        c1.tokens == c2.tokens,
    ensures
        misma_lectura(sp_postfija(c1, p), sp_postfija(c2, p)),
    decreases c1.tokens.len() - p, 14int,
{
    desplegar_sp_postfija(c1, p);
    desplegar_sp_postfija(c2, p);
    let _r = {
        match { lema_misma_primaria(c1, c2, p); sp_primaria(c1, p) } {
            Err(f) => Err(f),
            Ok((e, q)) => if adelante(c1, p, q) {
                { lema_misma_postfija_desde(c1, c2, q, e); sp_postfija_desde(c1, q, e) }
            } else {
                fuera()
            },
        }
    };
}

/// `sp_argumentos` reads the same from the same tokens, whatever the source text.
proof fn lema_misma_argumentos(c1: Contexto, c2: Contexto, p: int, acc: Seq<SpecExpr>)
    requires
        c1.tokens == c2.tokens,
    ensures
        misma_lectura(sp_argumentos(c1, p, acc), sp_argumentos(c2, p, acc)),
    decreases c1.tokens.len() - p, 41int,
{
    desplegar_sp_argumentos(c1, p, acc);
    desplegar_sp_argumentos(c2, p, acc);
    let _r = {
        match { lema_misma_expresion(c1, c2, p); sp_expresion(c1, p) } {
            Err(f) => Err(f),
            Ok((e, q)) => if adelante(c1, p, q) {
                if coincide(c1, q, TipoToken::Coma) {
                    { lema_misma_argumentos(c1, c2, q + 1, acc.push(e)); sp_argumentos(c1, q + 1, acc.push(e)) }
                } else {
                    Ok((acc.push(e), q))
                }
            } else {
                fuera()
            },
        }
    };
}

/// `sp_lista_argumentos` reads the same from the same tokens, whatever the source text.
proof fn lema_misma_lista_argumentos(c1: Contexto, c2: Contexto, p: int)
    requires
        c1.tokens == c2.tokens,
    ensures
        misma_lectura(sp_lista_argumentos(c1, p), sp_lista_argumentos(c2, p)),
    decreases c1.tokens.len() - p, 42int,
{
    desplegar_sp_lista_argumentos(c1, p);
    desplegar_sp_lista_argumentos(c2, p);
    let _r = {
        if !coincide(c1, p, TipoToken::ParentesisDer) {
            { lema_misma_argumentos(c1, c2, p, Seq::empty()); sp_argumentos(c1, p, Seq::empty()) }
        } else {
            Ok((Seq::empty(), p))
        }
    };
}

/// `sp_miembro` reads the same from the same tokens, whatever the source text.
proof fn lema_misma_miembro(c1: Contexto, c2: Contexto, p: int, acc: SpecExpr, es_puntero: bool)
    requires
        c1.tokens == c2.tokens,
    ensures
        misma_lectura(sp_miembro(c1, p, acc, es_puntero), sp_miembro(c2, p, acc, es_puntero)),
    decreases c1.tokens.len() - p, 1int,
{
    desplegar_sp_miembro(c1, p, acc, es_puntero);
    desplegar_sp_miembro(c2, p, acc, es_puntero);
    let _r = {
        match avanzar(c1, p) {
            Err(f) => Err(f),
            Ok(p1) => match esperar(c1, p1, TipoToken::Identificador) {
                Err(f) => Err(f),
                Ok(q) => { lema_misma_postfija_desde(c1, c2, q,
                    SpecExpr::Miembro {
                        posicion: pos_actual(c1, p),
                        objeto: Box::new(acc),
                        miembro: valor_de(c1.tokens[p1]),
                        es_puntero,
                    },); sp_postfija_desde(
                    c1,
                    q,
                    SpecExpr::Miembro {
                        posicion: pos_actual(c1, p),
                        objeto: Box::new(acc),
                        miembro: valor_de(c1.tokens[p1]),
                        es_puntero,
                    },
                ) },
            },
        }
    };
}

/// `sp_postfija_desde` reads the same from the same tokens, whatever the source text.
proof fn lema_misma_postfija_desde(c1: Contexto, c2: Contexto, p: int, acc: SpecExpr)
    requires
        c1.tokens == c2.tokens,
    ensures
        misma_lectura(sp_postfija_desde(c1, p, acc), sp_postfija_desde(c2, p, acc)),
    decreases c1.tokens.len() - p, 2int,
{
    desplegar_sp_postfija_desde(c1, p, acc);
    desplegar_sp_postfija_desde(c2, p, acc);
    let _r = {
        let pos = pos_actual(c1, p);
        let k = tipo_actual(c1, p);
        if k == TipoToken::CorcheteIzq {
            match avanzar(c1, p) {
                Err(f) => Err(f),
                Ok(p1) => match { lema_misma_expresion(c1, c2, p1); sp_expresion(c1, p1) } {
                    Err(f) => Err(f),
                    Ok((i, q)) => if adelante(c1, p1, q) {
                        match esperar(c1, q, TipoToken::CorcheteDer) {
                            Err(f) => Err(f),
                            Ok(q2) => { lema_misma_postfija_desde(c1, c2, q2,
                                SpecExpr::Index { posicion: pos, arreglo: Box::new(acc), indice: Box::new(i) },); sp_postfija_desde(
                                c1,
                                q2,
                                SpecExpr::Index { posicion: pos, arreglo: Box::new(acc), indice: Box::new(i) },
                            ) },
                        }
                    } else {
                        fuera()
                    },
                },
            }
        } else if k == TipoToken::ParentesisIzq {
            match avanzar(c1, p) {
                Err(f) => Err(f),
                Ok(p1) => match { lema_misma_lista_argumentos(c1, c2, p1); sp_lista_argumentos(c1, p1) } {
                    Err(f) => Err(f),
                    Ok((args, q)) => if no_atras(c1, p1, q) {
                        match esperar(c1, q, TipoToken::ParentesisDer) {
                            Err(f) => Err(f),
                            Ok(q2) => { lema_misma_postfija_desde(c1, c2, q2,
                                SpecExpr::Llamada { posicion: pos, funcion: Box::new(acc), argumentos: args },); sp_postfija_desde(
                                c1,
                                q2,
                                SpecExpr::Llamada { posicion: pos, funcion: Box::new(acc), argumentos: args },
                            ) },
                        }
                    } else {
                        fuera()
                    },
                },
            }
        } else if k == TipoToken::Punto {
            { lema_misma_miembro(c1, c2, p, acc, false); sp_miembro(c1, p, acc, false) }
        } else if k == TipoToken::Flecha {
            { lema_misma_miembro(c1, c2, p, acc, true); sp_miembro(c1, p, acc, true) }
        } else if k == TipoToken::Incremento || k == TipoToken::Decremento {
            match avanzar(c1, p) {
                Err(f) => Err(f),
                Ok(p1) => { lema_misma_postfija_desde(c1, c2, p1,
                    SpecExpr::Unaria {
                        posicion: pos,
                        operador: if k == TipoToken::Incremento {
                            OperadorUnario::Incremento
                        } else {
                            OperadorUnario::Decremento
                        },
                        operando: Box::new(acc),
                    },); sp_postfija_desde(
                    c1,
                    p1,
                    SpecExpr::Unaria {
                        posicion: pos,
                        operador: if k == TipoToken::Incremento {
                            OperadorUnario::Incremento
                        } else {
                            OperadorUnario::Decremento
                        },
                        operando: Box::new(acc),
                    },
                ) },
            }
        } else {
            Ok((acc, p))
        }
    };
}

/// `sp_primaria` reads the same from the same tokens, whatever the source text.
proof fn lema_misma_primaria(c1: Contexto, c2: Contexto, p: int)
    requires
        c1.tokens == c2.tokens,
    ensures
        misma_lectura(sp_primaria(c1, p), sp_primaria(c2, p)),
    decreases c1.tokens.len() - p, 12int,
{
    desplegar_sp_primaria(c1, p);
    desplegar_sp_primaria(c2, p);
    let _r = {
        let pos = pos_actual(c1, p);
        let k = tipo_actual(c1, p);
        if literal_de(k, Seq::empty()) is Some || k == TipoToken::Identificador {
            match avanzar(c1, p) {
                Err(f) => Err(f),
                Ok(p1) => {
                    let v = valor_de(c1.tokens[p]);
                    if k == TipoToken::Identificador {
                        Ok((SpecExpr::Identificador { posicion: pos, nombre: v }, p1))
                    } else {
                        Ok((SpecExpr::Literal { posicion: pos, valor: literal_de(k, v).unwrap() }, p1))
                    }
                },
            }
        } else if k == TipoToken::ParentesisIzq {
            match avanzar(c1, p) {
                Err(f) => Err(f),
                Ok(p1) => match { lema_misma_expresion(c1, c2, p1); sp_expresion(c1, p1) } {
                    Err(f) => Err(f),
                    Ok((e, q)) => if adelante(c1, p1, q) {
                        match esperar(c1, q, TipoToken::ParentesisDer) {
                            Err(f) => Err(f),
                            Ok(q2) => Ok((e, q2)),
                        }
                    } else {
                        fuera()
                    },
                },
            }
        } else {
            Err(error_aqui(c1, p, "expresion primaria"@))
        }
    };
}

/// `sp_bloque` reads the same from the same tokens, whatever the source text.
proof fn lema_misma_bloque(c1: Contexto, c2: Contexto, p: int)
    requires
        c1.tokens == c2.tokens,
    ensures
        misma_lectura(sp_bloque(c1, p), sp_bloque(c2, p)),
    decreases c1.tokens.len() - p, 1int,
{
    desplegar_sp_bloque(c1, p);
    desplegar_sp_bloque(c2, p);
    let _r = {
        match esperar(c1, p, TipoToken::LlaveIzq) {
            Err(f) => Err(f),
            Ok(p1) => match { lema_misma_items(c1, c2, p1, Seq::empty()); sp_items(c1, p1, Seq::empty()) } {
                Err(f) => Err(f),
                Ok((items, q)) => if no_atras(c1, p1, q) {
                    match esperar(c1, q, TipoToken::LlaveDer) {
                        Err(f) => Err(f),
                        Ok(q2) => Ok((SpecBloque { posicion: pos_actual(c1, p), items }, q2)),
                    }
                } else {
                    fuera()
                },
            },
        }
    };
}

/// `sp_items` reads the same from the same tokens, whatever the source text.
proof fn lema_misma_items(c1: Contexto, c2: Contexto, p: int, acc: Seq<SpecItemBloque>)
    requires
        c1.tokens == c2.tokens,
    ensures
        misma_lectura(sp_items(c1, p, acc), sp_items(c2, p, acc)),
    decreases c1.tokens.len() - p, 3int,
{
    desplegar_sp_items(c1, p, acc);
    desplegar_sp_items(c2, p, acc);
    let _r = {
        if !coincide(c1, p, TipoToken::LlaveDer) && !es_fin(c1, p) {
            if es_inicio_decl_bloque(tipo_actual(c1, p)) {
                match { lema_misma_declaracion(c1, c2, p); sp_declaracion(c1, p) } {
                    Err(f) => Err(f),
                    Ok((d, q)) => if adelante(c1, p, q) {
                        { lema_misma_items(c1, c2, q, acc.push(SpecItemBloque::Declaracion(d))); sp_items(c1, q, acc.push(SpecItemBloque::Declaracion(d))) }
                    } else {
                        fuera()
                    },
                }
            } else {
                match { lema_misma_sentencia(c1, c2, p); sp_sentencia(c1, p) } {
                    Err(f) => Err(f),
                    Ok((st, q)) => if adelante(c1, p, q) {
                        { lema_misma_items(c1, c2, q, acc.push(SpecItemBloque::Sentencia(st))); sp_items(c1, q, acc.push(SpecItemBloque::Sentencia(st))) }
                    } else {
                        fuera()
                    },
                }
            }
        } else {
            Ok((acc, p))
        }
    };
}

/// `sp_salto_simple` reads the same from the same tokens, whatever the source text.
proof fn lema_misma_salto_simple(c1: Contexto, c2: Contexto, p: int, s: SpecSalto)
    requires
        c1.tokens == c2.tokens,
    ensures
        misma_lectura(sp_salto_simple(c1, p, s), sp_salto_simple(c2, p, s)),
{
    desplegar_sp_salto_simple(c1, p, s);
    desplegar_sp_salto_simple(c2, p, s);
    let _r = {
        match avanzar(c1, p) {
            Err(f) => Err(f),
            Ok(p1) => match esperar(c1, p1, TipoToken::PuntoYComa) {
                Err(f) => Err(f),
                Ok(p2) => Ok((SpecSentencia::Salto(s), p2)),
            },
        }
    };
}

/// `sp_goto` reads the same from the same tokens, whatever the source text.
proof fn lema_misma_goto(c1: Contexto, c2: Contexto, p: int)
    requires
        c1.tokens == c2.tokens,
    ensures
        misma_lectura(sp_goto(c1, p), sp_goto(c2, p)),
{
    desplegar_sp_goto(c1, p);
    desplegar_sp_goto(c2, p);
    let _r = {
        match avanzar(c1, p) {
            Err(f) => Err(f),
            Ok(p1) => match esperar(c1, p1, TipoToken::Identificador) {
                Err(f) => Err(f),
                Ok(p2) => match esperar(c1, p2, TipoToken::PuntoYComa) {
                    Err(f) => Err(f),
                    Ok(p3) => Ok(
                        (
                            SpecSentencia::Salto(
                                SpecSalto::Goto {
                                    posicion: pos_actual(c1, p),
                                    etiqueta: valor_de(c1.tokens[p1]),
                                },
                            ),
                            p3,
                        ),
                    ),
                },
            },
        }
    };
}

/// `sp_return` reads the same from the same tokens, whatever the source text.
proof fn lema_misma_return(c1: Contexto, c2: Contexto, p: int)
    requires
        c1.tokens == c2.tokens,
    ensures
        misma_lectura(sp_return(c1, p), sp_return(c2, p)),
{
    desplegar_sp_return(c1, p);
    desplegar_sp_return(c2, p);
    let _r = {
        match avanzar(c1, p) {
            Err(f) => Err(f),
            Ok(p1) => if coincide(c1, p1, TipoToken::PuntoYComa) {
                Ok(
                    (
                        SpecSentencia::Salto(SpecSalto::Retornar { posicion: pos_actual(c1, p), valor: None }),
                        p1 + 1,
                    ),
                )
            } else {
                match { lema_misma_expresion(c1, c2, p1); sp_expresion(c1, p1) } {
                    Err(f) => Err(f),
                    Ok((e, q)) => match esperar(c1, q, TipoToken::PuntoYComa) {
                        Err(f) => Err(f),
                        Ok(q2) => Ok(
                            (
                                SpecSentencia::Salto(
                                    SpecSalto::Retornar {
                                        posicion: pos_actual(c1, p),
                                        valor: Some(Box::new(e)),
                                    },
                                ),
                                q2,
                            ),
                        ),
                    },
                }
            },
        }
    };
}

/// `sp_sentencia_expr` reads the same from the same tokens, whatever the source text.
proof fn lema_misma_sentencia_expr(c1: Contexto, c2: Contexto, p: int)
    requires
        c1.tokens == c2.tokens,
    ensures
        misma_lectura(sp_sentencia_expr(c1, p), sp_sentencia_expr(c2, p)),
{
    desplegar_sp_sentencia_expr(c1, p);
    desplegar_sp_sentencia_expr(c2, p);
    let _r = {
        if coincide(c1, p, TipoToken::PuntoYComa) {
            Ok((SpecSentencia::Expr { posicion: pos_actual(c1, p), expr: None }, p + 1))
        } else {
            match { lema_misma_expresion(c1, c2, p); sp_expresion(c1, p) } {
                Err(f) => Err(f),
                Ok((e, q)) => match esperar(c1, q, TipoToken::PuntoYComa) {
                    Err(f) => Err(f),
                    Ok(q2) => Ok(
                        (SpecSentencia::Expr { posicion: pos_actual(c1, p), expr: Some(Box::new(e)) }, q2),
                    ),
                },
            }
        }
    };
}

/// `sp_sentencia` reads the same from the same tokens, whatever the source text.
proof fn lema_misma_sentencia(c1: Contexto, c2: Contexto, p: int)
    requires
        c1.tokens == c2.tokens,
    ensures
        misma_lectura(sp_sentencia(c1, p), sp_sentencia(c2, p)),
    decreases c1.tokens.len() - p, 2int,
{
    desplegar_sp_sentencia(c1, p);
    desplegar_sp_sentencia(c2, p);
    let _r = {
        let pos = pos_actual(c1, p);
        let k = tipo_actual(c1, p);
        if k == TipoToken::LlaveIzq {
            match { lema_misma_bloque(c1, c2, p); sp_bloque(c1, p) } {
                Err(f) => Err(f),
                Ok((b, q)) => Ok((SpecSentencia::Compuesta(b), q)),
            }
        } else if k == TipoToken::If {
            { lema_misma_if(c1, c2, p); sp_if(c1, p) }
        } else if k == TipoToken::Switch {
            { lema_misma_switch(c1, c2, p); sp_switch(c1, p) }
        } else if k == TipoToken::While {
            { lema_misma_while(c1, c2, p); sp_while(c1, p) }
        } else if k == TipoToken::Do {
            { lema_misma_do_while(c1, c2, p); sp_do_while(c1, p) }
        } else if k == TipoToken::For {
            { lema_misma_for(c1, c2, p); sp_for(c1, p) }
        } else if k == TipoToken::Goto {
            { lema_misma_goto(c1, c2, p); sp_goto(c1, p) }
        } else if k == TipoToken::Continue {
            { lema_misma_salto_simple(c1, c2, p, SpecSalto::Continuar { posicion: pos }); sp_salto_simple(c1, p, SpecSalto::Continuar { posicion: pos }) }
        } else if k == TipoToken::Break {
            { lema_misma_salto_simple(c1, c2, p, SpecSalto::Romper { posicion: pos }); sp_salto_simple(c1, p, SpecSalto::Romper { posicion: pos }) }
        } else if k == TipoToken::Return {
            { lema_misma_return(c1, c2, p); sp_return(c1, p) }
        } else if k == TipoToken::Case {
            match avanzar(c1, p) {
                Err(f) => Err(f),
                Ok(p1) => match { lema_misma_expresion(c1, c2, p1); sp_expresion(c1, p1) } {
                    Err(f) => Err(f),
                    Ok((e, q)) => if adelante(c1, p1, q) {
                        match esperar(c1, q, TipoToken::DosPuntos) {
                            Err(f) => Err(f),
                            Ok(q2) => { lema_misma_etiquetada(c1, c2, q2, pos, SpecEtiqueta::Case(Box::new(e))); sp_etiquetada(c1, q2, pos, SpecEtiqueta::Case(Box::new(e))) },
                        }
                    } else {
                        fuera()
                    },
                },
            }
        } else if k == TipoToken::Default {
            match avanzar(c1, p) {
                Err(f) => Err(f),
                Ok(p1) => match esperar(c1, p1, TipoToken::DosPuntos) {
                    Err(f) => Err(f),
                    Ok(p2) => { lema_misma_etiquetada(c1, c2, p2, pos, SpecEtiqueta::Default); sp_etiquetada(c1, p2, pos, SpecEtiqueta::Default) },
                },
            }
        } else if k == TipoToken::Identificador && es_etiqueta(c1, p) && p >= 0 {
            match esperar(c1, p + 1, TipoToken::DosPuntos) {
                Err(f) => Err(f),
                Ok(p2) => { lema_misma_etiquetada(c1, c2, p2,
                    pos,
                    SpecEtiqueta::Identificador(valor_de(c1.tokens[p])),); sp_etiquetada(
                    c1,
                    p2,
                    pos,
                    SpecEtiqueta::Identificador(valor_de(c1.tokens[p])),
                ) },
            }
        } else {
            { lema_misma_sentencia_expr(c1, c2, p); sp_sentencia_expr(c1, p) }
        }
    };
}

/// `sp_etiquetada` reads the same from the same tokens, whatever the source text.
proof fn lema_misma_etiquetada(c1: Contexto, c2: Contexto, p: int, pos: Posicion, e: SpecEtiqueta)
    requires
        c1.tokens == c2.tokens,
    ensures
        misma_lectura(sp_etiquetada(c1, p, pos, e), sp_etiquetada(c2, p, pos, e)),
    decreases c1.tokens.len() - p, 3int,
{
    desplegar_sp_etiquetada(c1, p, pos, e);
    desplegar_sp_etiquetada(c2, p, pos, e);
    let _r = {
        match { lema_misma_sentencia(c1, c2, p); sp_sentencia(c1, p) } {
            Err(f) => Err(f),
            Ok((st, q)) => Ok(
                (SpecSentencia::Etiquetada { posicion: pos, etiqueta: e, sentencia: Box::new(st) }, q),
            ),
        }
    };
}

/// `sp_condicion` reads the same from the same tokens, whatever the source text.
proof fn lema_misma_condicion(c1: Contexto, c2: Contexto, p: int)
    requires
        c1.tokens == c2.tokens,
    ensures
        misma_lectura(sp_condicion(c1, p), sp_condicion(c2, p)),
{
    desplegar_sp_condicion(c1, p);
    desplegar_sp_condicion(c2, p);
    let _r = {
        match esperar(c1, p, TipoToken::ParentesisIzq) {
            Err(f) => Err(f),
            Ok(p1) => match { lema_misma_expresion(c1, c2, p1); sp_expresion(c1, p1) } {
                Err(f) => Err(f),
                Ok((e, q)) => match esperar(c1, q, TipoToken::ParentesisDer) {
                    Err(f) => Err(f),
                    Ok(q2) => Ok((e, q2)),
                },
            },
        }
    };
}

/// `sp_if` reads the same from the same tokens, whatever the source text.
proof fn lema_misma_if(c1: Contexto, c2: Contexto, p: int)
    requires
        c1.tokens == c2.tokens,
    ensures
        misma_lectura(sp_if(c1, p), sp_if(c2, p)),
    decreases c1.tokens.len() - p, 1int,
{
    desplegar_sp_if(c1, p);
    desplegar_sp_if(c2, p);
    let _r = {
        match avanzar(c1, p) {
            Err(f) => Err(f),
            Ok(p1) => match { lema_misma_condicion(c1, c2, p1); sp_condicion(c1, p1) } {
                Err(f) => Err(f),
                Ok((cond, q)) => if adelante(c1, p1, q) {
                    match { lema_misma_sentencia(c1, c2, q); sp_sentencia(c1, q) } {
                        Err(f) => Err(f),
                        Ok((ent, q2)) => if adelante(c1, q, q2) {
                            if coincide(c1, q2, TipoToken::Else) {
                                match { lema_misma_sentencia(c1, c2, q2 + 1); sp_sentencia(c1, q2 + 1) } {
                                    Err(f) => Err(f),
                                    Ok((sino, q3)) => Ok(
                                        (
                                            SpecSentencia::Seleccion(
                                                SpecSeleccion::If {
                                                    posicion: pos_actual(c1, p),
                                                    condicion: Box::new(cond),
                                                    entonces: Box::new(ent),
                                                    sino: Some(Box::new(sino)),
                                                },
                                            ),
                                            q3,
                                        ),
                                    ),
                                }
                            } else {
                                Ok(
                                    (
                                        SpecSentencia::Seleccion(
                                            SpecSeleccion::If {
                                                posicion: pos_actual(c1, p),
                                                condicion: Box::new(cond),
                                                entonces: Box::new(ent),
                                                sino: None,
                                            },
                                        ),
                                        q2,
                                    ),
                                )
                            }
                        } else {
                            fuera()
                        },
                    }
                } else {
                    fuera()
                },
            },
        }
    };
}

/// `sp_switch` reads the same from the same tokens, whatever the source text.
proof fn lema_misma_switch(c1: Contexto, c2: Contexto, p: int)
    requires
        c1.tokens == c2.tokens,
    ensures
        misma_lectura(sp_switch(c1, p), sp_switch(c2, p)),
    decreases c1.tokens.len() - p, 1int,
{
    desplegar_sp_switch(c1, p);
    desplegar_sp_switch(c2, p);
    let _r = {
        match avanzar(c1, p) {
            Err(f) => Err(f),
            Ok(p1) => match { lema_misma_condicion(c1, c2, p1); sp_condicion(c1, p1) } {
                Err(f) => Err(f),
                Ok((cond, q)) => if adelante(c1, p1, q) {
                    match { lema_misma_sentencia(c1, c2, q); sp_sentencia(c1, q) } {
                        Err(f) => Err(f),
                        Ok((cuerpo, q2)) => Ok(
                            (
                                SpecSentencia::Seleccion(
                                    SpecSeleccion::Switch {
                                        posicion: pos_actual(c1, p),
                                        condicion: Box::new(cond),
                                        cuerpo: Box::new(cuerpo),
                                    },
                                ),
                                q2,
                            ),
                        ),
                    }
                } else {
                    fuera()
                },
            },
        }
    };
}

/// `sp_while` reads the same from the same tokens, whatever the source text.
proof fn lema_misma_while(c1: Contexto, c2: Contexto, p: int)
    requires
        c1.tokens == c2.tokens,
    ensures
        misma_lectura(sp_while(c1, p), sp_while(c2, p)),
    decreases c1.tokens.len() - p, 1int,
{
    desplegar_sp_while(c1, p);
    desplegar_sp_while(c2, p);
    let _r = {
        match avanzar(c1, p) {
            Err(f) => Err(f),
            Ok(p1) => match { lema_misma_condicion(c1, c2, p1); sp_condicion(c1, p1) } {
                Err(f) => Err(f),
                Ok((cond, q)) => if adelante(c1, p1, q) {
                    match { lema_misma_sentencia(c1, c2, q); sp_sentencia(c1, q) } {
                        Err(f) => Err(f),
                        Ok((cuerpo, q2)) => Ok(
                            (
                                SpecSentencia::Iteracion(
                                    SpecIteracion::While {
                                        posicion: pos_actual(c1, p),
                                        condicion: Box::new(cond),
                                        cuerpo: Box::new(cuerpo),
                                    },
                                ),
                                q2,
                            ),
                        ),
                    }
                } else {
                    fuera()
                },
            },
        }
    };
}

/// `sp_do_while` reads the same from the same tokens, whatever the source text.
proof fn lema_misma_do_while(c1: Contexto, c2: Contexto, p: int)
    requires
        c1.tokens == c2.tokens,
    ensures
        misma_lectura(sp_do_while(c1, p), sp_do_while(c2, p)),
    decreases c1.tokens.len() - p, 1int,
{
    desplegar_sp_do_while(c1, p);
    desplegar_sp_do_while(c2, p);
    let _r = {
        match avanzar(c1, p) {
            Err(f) => Err(f),
            Ok(p1) => match { lema_misma_sentencia(c1, c2, p1); sp_sentencia(c1, p1) } {
                Err(f) => Err(f),
                Ok((cuerpo, q)) => match esperar(c1, q, TipoToken::While) {
                    Err(f) => Err(f),
                    Ok(q1) => match { lema_misma_condicion(c1, c2, q1); sp_condicion(c1, q1) } {
                        Err(f) => Err(f),
                        Ok((cond, q2)) => match esperar(c1, q2, TipoToken::PuntoYComa) {
                            Err(f) => Err(f),
                            Ok(q3) => Ok(
                                (
                                    SpecSentencia::Iteracion(
                                        SpecIteracion::DoWhile {
                                            posicion: pos_actual(c1, p),
                                            cuerpo: Box::new(cuerpo),
                                            condicion: Box::new(cond),
                                        },
                                    ),
                                    q3,
                                ),
                            ),
                        },
                    },
                },
            },
        }
    };
}

/// `sp_for_init` reads the same from the same tokens, whatever the source text.
proof fn lema_misma_for_init(c1: Contexto, c2: Contexto, p: int)
    requires
        c1.tokens == c2.tokens,
    ensures
        misma_lectura(sp_for_init(c1, p), sp_for_init(c2, p)),
{
    desplegar_sp_for_init(c1, p);
    desplegar_sp_for_init(c2, p);
    let _r = {
        if coincide(c1, p, TipoToken::PuntoYComa) {
            Ok((None, p + 1))
        } else if es_inicio_decl_bloque(tipo_actual(c1, p)) {
            match { lema_misma_declaracion(c1, c2, p); sp_declaracion(c1, p) } {
                Err(f) => Err(f),
                Ok((d, q)) => Ok((Some(SpecForInit::Declaracion(d)), q)),
            }
        } else {
            match { lema_misma_expresion(c1, c2, p); sp_expresion(c1, p) } {
                Err(f) => Err(f),
                Ok((e, q)) => match esperar(c1, q, TipoToken::PuntoYComa) {
                    Err(f) => Err(f),
                    Ok(q2) => Ok((Some(SpecForInit::Expr(Some(Box::new(e)))), q2)),
                },
            }
        }
    };
}

/// `sp_expr_hasta` reads the same from the same tokens, whatever the source text.
proof fn lema_misma_expr_hasta(c1: Contexto, c2: Contexto, p: int, fin: TipoToken)
    requires
        c1.tokens == c2.tokens,
    ensures
        misma_lectura(sp_expr_hasta(c1, p, fin), sp_expr_hasta(c2, p, fin)),
{
    desplegar_sp_expr_hasta(c1, p, fin);
    desplegar_sp_expr_hasta(c2, p, fin);
    let _r = {
        if coincide(c1, p, fin) {
            Ok((None, p + 1))
        } else {
            match { lema_misma_expresion(c1, c2, p); sp_expresion(c1, p) } {
                Err(f) => Err(f),
                Ok((e, q)) => match esperar(c1, q, fin) {
                    Err(f) => Err(f),
                    Ok(q2) => Ok((Some(Box::new(e)), q2)),
                },
            }
        }
    };
}

/// `sp_for` reads the same from the same tokens, whatever the source text.
proof fn lema_misma_for(c1: Contexto, c2: Contexto, p: int)
    requires
        c1.tokens == c2.tokens,
    ensures
        misma_lectura(sp_for(c1, p), sp_for(c2, p)),
    decreases c1.tokens.len() - p, 1int,
{
    desplegar_sp_for(c1, p);
    desplegar_sp_for(c2, p);
    let _r = {
        match avanzar(c1, p) {
            Err(f) => Err(f),
            Ok(p1) => match esperar(c1, p1, TipoToken::ParentesisIzq) {
                Err(f) => Err(f),
                Ok(p2) => match { lema_misma_for_init(c1, c2, p2); sp_for_init(c1, p2) } {
                    Err(f) => Err(f),
                    Ok((init, q1)) => match { lema_misma_expr_hasta(c1, c2, q1, TipoToken::PuntoYComa); sp_expr_hasta(c1, q1, TipoToken::PuntoYComa) } {
                        Err(f) => Err(f),
                        Ok((cond, q2)) => match { lema_misma_expr_hasta(c1, c2, q2, TipoToken::ParentesisDer); sp_expr_hasta(c1, q2, TipoToken::ParentesisDer) } {
                            Err(f) => Err(f),
                            Ok((inc, q3)) => if adelante(c1, p, q3) {
                                match { lema_misma_sentencia(c1, c2, q3); sp_sentencia(c1, q3) } {
                                    Err(f) => Err(f),
                                    Ok((cuerpo, q4)) => Ok(
                                        (
                                            SpecSentencia::Iteracion(
                                                SpecIteracion::For {
                                                    posicion: pos_actual(c1, p),
                                                    init,
                                                    condicion: cond,
                                                    incremento: inc,
                                                    cuerpo: Box::new(cuerpo),
                                                },
                                            ),
                                            q4,
                                        ),
                                    ),
                                }
                            } else {
                                fuera()
                            },
                        },
                    },
                },
            },
        }
    };
}

/// `sp_decl_externa` reads the same from the same tokens, whatever the source text.
proof fn lema_misma_decl_externa(c1: Contexto, c2: Contexto, p: int)
    requires
        c1.tokens == c2.tokens,
    ensures
        misma_lectura(sp_decl_externa(c1, p), sp_decl_externa(c2, p)),
{
    desplegar_sp_decl_externa(c1, p);
    desplegar_sp_decl_externa(c2, p);
    let _r = {
        let pos = pos_actual(c1, p);
        match { lema_misma_especificadores(c1, c2, p); sp_especificadores(c1, p) } {
            Err(f) => Err(f),
            Ok((esp, p1)) => match { lema_misma_declarador(c1, c2, p1); sp_declarador(c1, p1) } {
                Err(f) => Err(f),
                Ok((d, p2)) => if coincide(c1, p2, TipoToken::LlaveIzq) {
                    match { lema_misma_bloque(c1, c2, p2); sp_bloque(c1, p2) } {
                        Err(f) => Err(f),
                        Ok((cuerpo, p3)) => Ok(
                            (
                                SpecDeclExterna::Funcion(
                                    SpecFuncionDef {
                                        posicion: pos,
                                        especificadores: esp,
                                        declarador: d,
                                        cuerpo,
                                    },
                                ),
                                p3,
                            ),
                        ),
                    }
                } else {
                    match { lema_misma_inicializador_opt(c1, c2, p2); sp_inicializador_opt(c1, p2) } {
                        Err(f) => Err(f),
                        Ok((ini, p3)) => {
                            let primero = SpecInitDeclarador { declarador: d, inicializador: ini };
                            match { lema_misma_init_declaradores(c1, c2, p3, seq![primero]); sp_init_declaradores(c1, p3, seq![primero]) } {
                                Err(f) => Err(f),
                                Ok((ds, p4)) => match esperar(c1, p4, TipoToken::PuntoYComa) {
                                    Err(f) => Err(f),
                                    Ok(p5) => Ok(
                                        (
                                            SpecDeclExterna::Declaracion(
                                                SpecDeclaracion {
                                                    posicion: pos,
                                                    especificadores: esp,
                                                    declaradores: ds,
                                                },
                                            ),
                                            p5,
                                        ),
                                    ),
                                },
                            }
                        },
                    }
                },
            },
        }
    };
}

/// `sp_programa_desde` reads the same from the same tokens, whatever the source text.
proof fn lema_misma_programa_desde(c1: Contexto, c2: Contexto, p: int, acc: Seq<SpecDeclExterna>)
    requires
        c1.tokens == c2.tokens,
    ensures
        misma_lectura(sp_programa_desde(c1, p, acc), sp_programa_desde(c2, p, acc)),
    decreases c1.tokens.len() - p,
{
    desplegar_sp_programa_desde(c1, p, acc);
    desplegar_sp_programa_desde(c2, p, acc);
    let _r = {
        if es_fin(c1, p) {
            Ok(acc)
        } else {
            let q = { lema_mismo_salto_preprocesador(c1, c2, p); saltar_preprocesador(c1, p) };
            if es_fin(c1, q) {
                Ok(acc)
            } else {
                match { lema_misma_decl_externa(c1, c2, q); sp_decl_externa(c1, q) } {
                    Err(f) => Err(f),
                    Ok((d, r)) => if adelante(c1, q, r) && p <= q {
                        { lema_misma_programa_desde(c1, c2, r, acc.push(d)); sp_programa_desde(c1, r, acc.push(d)) }
                    } else {
                        Err(Falla::FueraDeRango)
                    },
                }
            }
        }
    };
}

/// `sp_programa` reads the same from the same tokens, whatever the source text.
proof fn lema_misma_programa(c1: Contexto, c2: Contexto, p: int)
    requires
        c1.tokens == c2.tokens,
    ensures
        misma_lectura(sp_programa(c1, p), sp_programa(c2, p)),
{
    desplegar_sp_programa(c1, p);
    desplegar_sp_programa(c2, p);
    let _r = {
        match { lema_mismo_salto_preprocesador(c1, c2, saltar_bom(c1, p)); lema_misma_programa_desde(c1, c2, saltar_preprocesador(c1, saltar_bom(c1, p)), Seq::empty()); sp_programa_desde(c1, saltar_preprocesador(c1, saltar_bom(c1, p)), Seq::empty()) } {
            Err(f) => Err(f),
            Ok(ds) => Ok(SpecPrograma { declaraciones: ds }),
        }
    };
}

/// What reading a program gives depends on its tokens alone: with the same
/// tokens, with or without the source text, the same program is read, or the
/// same error is found, which differs at most in the source line it shows.
pub proof fn lema_lectura_sin_fuente(c1: Contexto, c2: Contexto, p: int)
    requires
        c1.tokens == c2.tokens,
    ensures
        misma_lectura(sp_programa(c1, p), sp_programa(c2, p)),
{
    lema_misma_programa(c1, c2, p);
}

} // verus!
